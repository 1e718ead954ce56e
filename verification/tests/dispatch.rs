use persona_proxy::characters::CharacterStore;
use persona_proxy::parser::{parse_command, parse_command_now, Config, Message, Registry};

const BOT_ID: u64 = 1;
const USER_ID: u64 = 7;
const EPOCH_2020_MS: i64 = 1_577_836_800_000;

fn setup() -> (Config, Registry, CharacterStore) {
    (
        Config::new(BOT_ID, String::from("Bot Hook")),
        Registry::new(),
        CharacterStore::new(),
    )
}

fn msg(author_id: u64, content: &str) -> Message {
    Message {
        id: 99,
        channel_id: 42,
        author_id,
        content: String::from(content),
        timestamp: String::from("2020-01-01T00:00:00+00:00"),
    }
}

#[test]
fn non_sigil_returns_none() {
    let (cfg, reg, mut store) = setup();
    let r = parse_command(&cfg, &reg, &mut store, &msg(USER_ID, "hello there"), 0);
    assert_eq!(r, None);
}

#[test]
fn unknown_command_returns_none() {
    let (cfg, reg, mut store) = setup();
    let r = parse_command(&cfg, &reg, &mut store, &msg(USER_ID, "~frobnicate now"), 0);
    assert_eq!(r, None);
}

#[test]
fn self_message_suppressed() {
    let (cfg, reg, mut store) = setup();
    let r = parse_command(&cfg, &reg, &mut store, &msg(BOT_ID, "~ping"), 0);
    assert_eq!(r, None);
}

#[test]
fn help_lists_commands() {
    let (cfg, reg, mut store) = setup();
    let r = parse_command(&cfg, &reg, &mut store, &msg(USER_ID, "~help"), 0).unwrap();
    assert!(r.starts_with("Available commands:\n"));
    for name in ["~help", "~echo", "~ping", "~ls", "~create"] {
        assert!(r.contains(name), "help is missing {}", name);
    }
    assert!(r.contains("Arguments can be surrounded by quotes"));
}

#[test]
fn echo_returns_message_verbatim() {
    let (cfg, reg, mut store) = setup();
    let r = parse_command(&cfg, &reg, &mut store, &msg(USER_ID, "~echo hello world"), 0);
    assert_eq!(r, Some(String::from("hello world")));
}

#[test]
fn echo_without_message_is_usage_error() {
    let (cfg, reg, mut store) = setup();
    let r = parse_command(&cfg, &reg, &mut store, &msg(USER_ID, "~echo    "), 0);
    assert_eq!(r, Some(String::from("`~echo` takes 1 argument (`message`).")));
}

#[test]
fn ping_with_arguments_is_usage_error() {
    let (cfg, reg, mut store) = setup();
    let r = parse_command(&cfg, &reg, &mut store, &msg(USER_ID, "~ping extra"), 0);
    assert_eq!(r, Some(String::from("`~ping` takes no arguments.")));
}

#[test]
fn ping_reports_elapsed_milliseconds() {
    let (cfg, reg, mut store) = setup();
    let now = EPOCH_2020_MS + 1234;
    let r = parse_command(&cfg, &reg, &mut store, &msg(USER_ID, "~ping"), now).unwrap();
    assert_eq!(r, "Pong. Command received in **1234** ms.");
}

#[test]
fn ping_reply_is_nonnegative_for_past_timestamp() {
    let (cfg, reg, mut store) = setup();
    let now = EPOCH_2020_MS + 500;
    let r = parse_command(&cfg, &reg, &mut store, &msg(USER_ID, "~ping"), now).unwrap();
    assert!(r.starts_with("Pong."));
    let digits: String = r.chars().filter(|c| c.is_ascii_digit() || *c == '-').collect();
    let value: i64 = digits.parse().unwrap();
    assert!(value >= 0);
}

#[test]
fn ping_with_future_timestamp_reports_negative() {
    let (cfg, reg, mut store) = setup();
    let now = EPOCH_2020_MS - 500;
    let r = parse_command(&cfg, &reg, &mut store, &msg(USER_ID, "~ping"), now).unwrap();
    assert_eq!(r, "Pong. Command received in **-500** ms.");
}

#[test]
fn ping_with_invalid_timestamp_drops_event() {
    let (cfg, reg, mut store) = setup();
    let mut m = msg(USER_ID, "~ping");
    m.timestamp = String::from("not a timestamp");
    let r = parse_command(&cfg, &reg, &mut store, &m, 0);
    assert_eq!(r, None);
}

#[test]
fn ping_against_the_real_clock_replies() {
    let (cfg, reg, mut store) = setup();
    // The message's reported creation time is in 2020, so against the real
    // clock the elapsed count is positive and carries no minus sign.
    let r = parse_command_now(&cfg, &reg, &mut store, &msg(USER_ID, "~ping")).unwrap();
    assert!(r.starts_with("Pong. Command received in **"));
    assert!(r.ends_with("** ms."));
    assert!(!r.contains('-'));
}

#[test]
fn ls_without_personas_is_fixed_message() {
    let (cfg, reg, mut store) = setup();
    let r = parse_command(&cfg, &reg, &mut store, &msg(USER_ID, "~ls"), 0);
    assert_eq!(r, Some(String::from("You have no characters.")));
}

#[test]
fn ls_lists_personas_in_store_order() {
    let (cfg, reg, mut store) = setup();
    store.insert(USER_ID, "A", "http://a/img.png", "a:").unwrap();
    store.insert(USER_ID, "B", "http://b/img.png", "b:").unwrap();
    let r = parse_command(&cfg, &reg, &mut store, &msg(USER_ID, "~ls"), 0);
    assert_eq!(r, Some(String::from("A (prefix `a:`)\nB (prefix `b:`)")));
}

#[test]
fn ls_shows_only_own_personas() {
    let (cfg, reg, mut store) = setup();
    store.insert(USER_ID, "Mine", "http://a/img.png", "m:").unwrap();
    store.insert(USER_ID + 1, "Other", "http://b/img.png", "o:").unwrap();
    let r = parse_command(&cfg, &reg, &mut store, &msg(USER_ID, "~ls"), 0);
    assert_eq!(r, Some(String::from("Mine (prefix `m:`)")));
}

#[test]
fn ls_with_arguments_is_usage_error() {
    let (cfg, reg, mut store) = setup();
    let r = parse_command(&cfg, &reg, &mut store, &msg(USER_ID, "~ls please"), 0);
    assert_eq!(r, Some(String::from("`~ls` takes no arguments.")));
}

#[test]
fn create_inserts_persona_and_confirms() {
    let (cfg, reg, mut store) = setup();
    let r = parse_command(
        &cfg,
        &reg,
        &mut store,
        &msg(USER_ID, "~create Kokoro http://x/img.png koko:"),
        0,
    );
    assert_eq!(r, Some(String::from("Created Kokoro successfully.")));
    let ls = parse_command(&cfg, &reg, &mut store, &msg(USER_ID, "~ls"), 0).unwrap();
    assert!(ls.contains("Kokoro (prefix `koko:`)"));
}

#[test]
fn create_with_quoted_name_keeps_spaces() {
    let (cfg, reg, mut store) = setup();
    let r = parse_command(
        &cfg,
        &reg,
        &mut store,
        &msg(
            USER_ID,
            "~create \"Hata no Kokoro\" https://example.com/kokoro.png koko:",
        ),
        0,
    );
    assert_eq!(r, Some(String::from("Created Hata no Kokoro successfully.")));
    let found = store.with_name_for_user("Hata no Kokoro", USER_ID).unwrap();
    assert_eq!(found.char_avatar, "https://example.com/kokoro.png");
    assert_eq!(found.char_prefix, "koko:");
}

#[test]
fn create_with_wrong_arity_is_usage_error() {
    let (cfg, reg, mut store) = setup();
    let r = parse_command(&cfg, &reg, &mut store, &msg(USER_ID, "~create onlyone two"), 0);
    assert_eq!(
        r,
        Some(String::from(
            "`~create` takes 3 arguments (`name`, `avatar`, `prefix`)."
        ))
    );
}

#[test]
fn usage_errors_name_the_command_and_have_no_side_effect() {
    let (cfg, reg, mut store) = setup();
    let cases = [
        ("~echo", "echo"),
        ("~ping junk", "ping"),
        ("~ls junk", "ls"),
        ("~create a b", "create"),
    ];
    for (content, name) in cases {
        let r = parse_command(&cfg, &reg, &mut store, &msg(USER_ID, content), 0).unwrap();
        assert!(r.contains(name), "usage reply {:?} does not name {}", r, name);
    }
    // None of the malformed commands executed a handler side effect.
    let ls = parse_command(&cfg, &reg, &mut store, &msg(USER_ID, "~ls"), 0);
    assert_eq!(ls, Some(String::from("You have no characters.")));
}
