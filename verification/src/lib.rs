//! Command dispatch and persona proxy engine for a multi-channel chat bot.
//!
//! Messages either match a registered `~`-prefixed command, whose handler is
//! run and a reply returned, or they are checked against the sending user's
//! personas: when a persona's prefix starts the message, the remainder is
//! re-posted under that persona's identity through a per-channel proxy
//! handle, and the original message is deleted.
//!
//! The stores, the dispatcher and the resolver are verified; the network
//! transport performs the actions that the resolver requests.

pub mod characters;
pub mod clock;
pub mod errors;
pub mod parser;
pub mod proxy;
pub mod text;
pub mod webhooks;
