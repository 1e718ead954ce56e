use persona_proxy::characters::CharacterStore;
use persona_proxy::parser::Message;
use persona_proxy::proxy::{
    parse_prefix, step, FlowStep, ProxyAction, ProxyOutcome, Resolution, TransportEvent,
};
use persona_proxy::webhooks::WebhookStore;

const USER_ID: u64 = 7;
const CHANNEL_ID: u64 = 42;
const MESSAGE_ID: u64 = 99;

fn msg(content: &str) -> Message {
    Message {
        id: MESSAGE_ID,
        channel_id: CHANNEL_ID,
        author_id: USER_ID,
        content: String::from(content),
        timestamp: String::from("2020-01-01T00:00:00+00:00"),
    }
}

fn store_with_kokoro() -> CharacterStore {
    let mut chars = CharacterStore::new();
    chars
        .insert(USER_ID, "Kokoro", "https://example.com/kokoro.png", "koko:")
        .unwrap();
    chars
}

#[test]
fn matching_prefix_posts_remainder_and_deletes_original() {
    let chars = store_with_kokoro();
    let mut hooks = WebhookStore::new();
    let mut provisions: u32 = 0;

    let (mut flow, first) = match parse_prefix(&chars, &hooks, &msg("koko: hello")) {
        Resolution::Begun(flow, act) => (flow, act),
        Resolution::NoMatch => panic!("expected a persona match"),
    };
    // No binding exists yet, so the flow starts by provisioning.
    match first {
        ProxyAction::Provision { channel_id } => {
            assert_eq!(channel_id, CHANNEL_ID);
            provisions += 1;
        }
        other => panic!("expected Provision, got {:?}", other),
    }
    let after_provision = step(
        &mut flow,
        &mut hooks,
        TransportEvent::Provisioned(Ok(String::from("https://proxy/handle"))),
    );
    match after_provision {
        FlowStep::Act(ProxyAction::Post {
            url,
            username,
            avatar_url,
            content,
        }) => {
            assert_eq!(url, "https://proxy/handle");
            assert_eq!(username, "Kokoro");
            assert_eq!(avatar_url, "https://example.com/kokoro.png");
            assert_eq!(content, "hello");
        }
        other => panic!("expected Post, got {:?}", other),
    }
    let after_post = step(&mut flow, &mut hooks, TransportEvent::Posted(Ok(())));
    match after_post {
        FlowStep::Act(ProxyAction::Delete {
            channel_id,
            message_id,
        }) => {
            assert_eq!(channel_id, CHANNEL_ID);
            assert_eq!(message_id, MESSAGE_ID);
        }
        other => panic!("expected Delete, got {:?}", other),
    }
    let done = step(&mut flow, &mut hooks, TransportEvent::Deleted(Ok(())));
    assert!(matches!(done, FlowStep::Done(ProxyOutcome::Proxied)));
    assert_eq!(provisions, 1);
}

#[test]
fn no_matching_prefix_requests_no_transport_work() {
    let chars = store_with_kokoro();
    let hooks = WebhookStore::new();
    let r = parse_prefix(&chars, &hooks, &msg("zzz: hello"));
    // NoMatch carries no action: zero transport calls are requested.
    assert!(matches!(r, Resolution::NoMatch));
    assert!(hooks.webhook_for_channel(CHANNEL_ID).is_err());
}

#[test]
fn sequential_resolutions_provision_a_channel_once() {
    let chars = store_with_kokoro();
    let mut hooks = WebhookStore::new();
    let mut provisions: u32 = 0;
    let mut posts: u32 = 0;

    // First message: provision on miss, then post and delete.
    let (mut flow, mut next) = match parse_prefix(&chars, &hooks, &msg("koko: one")) {
        Resolution::Begun(flow, act) => (flow, FlowStep::Act(act)),
        Resolution::NoMatch => panic!("expected a persona match"),
    };
    loop {
        next = match next {
            FlowStep::Act(ProxyAction::Provision { .. }) => {
                provisions += 1;
                step(
                    &mut flow,
                    &mut hooks,
                    TransportEvent::Provisioned(Ok(String::from("https://proxy/handle"))),
                )
            }
            FlowStep::Act(ProxyAction::Post { .. }) => {
                posts += 1;
                step(&mut flow, &mut hooks, TransportEvent::Posted(Ok(())))
            }
            FlowStep::Act(ProxyAction::Delete { .. }) => {
                step(&mut flow, &mut hooks, TransportEvent::Deleted(Ok(())))
            }
            FlowStep::Done(outcome) => {
                assert!(matches!(outcome, ProxyOutcome::Proxied));
                break;
            }
        };
    }

    // Second message in the same channel: the binding is already recorded,
    // so the flow starts at the post; nothing is provisioned again.
    let (mut flow2, first2) = match parse_prefix(&chars, &hooks, &msg("koko: two")) {
        Resolution::Begun(flow, act) => (flow, act),
        Resolution::NoMatch => panic!("expected a persona match"),
    };
    match first2 {
        ProxyAction::Post { url, content, .. } => {
            posts += 1;
            assert_eq!(url, "https://proxy/handle");
            assert_eq!(content, "two");
        }
        other => panic!("expected Post, got {:?}", other),
    }
    let after_post = step(&mut flow2, &mut hooks, TransportEvent::Posted(Ok(())));
    assert!(matches!(after_post, FlowStep::Act(ProxyAction::Delete { .. })));

    assert_eq!(provisions, 1);
    assert_eq!(posts, 2);
    assert_eq!(
        hooks.webhook_for_channel(CHANNEL_ID).unwrap(),
        "https://proxy/handle"
    );
}

#[test]
fn first_persona_in_store_order_wins() {
    let mut chars = CharacterStore::new();
    chars.insert(USER_ID, "Short", "http://s/img.png", "k").unwrap();
    chars
        .insert(USER_ID, "Specific", "http://l/img.png", "koko:")
        .unwrap();
    let mut hooks = WebhookStore::new();
    hooks
        .insert_binding(CHANNEL_ID, String::from("https://proxy/handle"))
        .unwrap();
    match parse_prefix(&chars, &hooks, &msg("koko: hi")) {
        Resolution::Begun(_, ProxyAction::Post {
            username, content, ..
        }) => {
            // The earlier, shorter prefix matches first; no later persona is
            // considered even though its prefix is more specific.
            assert_eq!(username, "Short");
            assert_eq!(content, "oko: hi");
        }
        other => panic!("expected Post under Short, got {:?}", other),
    }
}

#[test]
fn post_failure_fails_flow_without_rollback() {
    let chars = store_with_kokoro();
    let mut hooks = WebhookStore::new();
    hooks
        .insert_binding(CHANNEL_ID, String::from("https://proxy/handle"))
        .unwrap();
    let (mut flow, first) = match parse_prefix(&chars, &hooks, &msg("koko: hello")) {
        Resolution::Begun(flow, act) => (flow, act),
        Resolution::NoMatch => panic!("expected a persona match"),
    };
    assert!(matches!(first, ProxyAction::Post { .. }));
    let r = step(
        &mut flow,
        &mut hooks,
        TransportEvent::Posted(Err(String::from("boom"))),
    );
    match r {
        FlowStep::Done(ProxyOutcome::Failed(reason)) => assert_eq!(reason, "boom"),
        other => panic!("expected Failed, got {:?}", other),
    }
    // The binding recorded earlier stays.
    assert!(hooks.webhook_for_channel(CHANNEL_ID).is_ok());
}

#[test]
fn provision_failure_records_no_binding() {
    let chars = store_with_kokoro();
    let mut hooks = WebhookStore::new();
    let (mut flow, first) = match parse_prefix(&chars, &hooks, &msg("koko: hello")) {
        Resolution::Begun(flow, act) => (flow, act),
        Resolution::NoMatch => panic!("expected a persona match"),
    };
    assert!(matches!(first, ProxyAction::Provision { .. }));
    let r = step(
        &mut flow,
        &mut hooks,
        TransportEvent::Provisioned(Err(String::from("denied"))),
    );
    match r {
        FlowStep::Done(ProxyOutcome::Failed(reason)) => assert_eq!(reason, "denied"),
        other => panic!("expected Failed, got {:?}", other),
    }
    assert!(hooks.webhook_for_channel(CHANNEL_ID).is_err());
}

#[test]
fn remainder_is_trimmed_before_posting() {
    let chars = store_with_kokoro();
    let mut hooks = WebhookStore::new();
    hooks
        .insert_binding(CHANNEL_ID, String::from("https://proxy/handle"))
        .unwrap();
    match parse_prefix(&chars, &hooks, &msg("koko:    spaced out   ")) {
        Resolution::Begun(_, ProxyAction::Post { content, .. }) => {
            assert_eq!(content, "spaced out");
        }
        other => panic!("expected Post, got {:?}", other),
    }
}
