[package]
name = "persona_proxy"
version = "0.1.0"
edition = "2021"
publish = false

[dependencies]
chrono = "*"
anyhow = "*"
async-std = "*"
dotenv = "*"
futures = "*"
sqlx = { version = "*", default-features = false, features = ["sqlite"] }
twilight-cache-inmemory = "*"
twilight-gateway = "*"
twilight-http = "*"
twilight-model = "*"
webhook = "*"
