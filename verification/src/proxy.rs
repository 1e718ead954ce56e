//! The persona proxy resolver.
//!
//! Given a message and the sender's personas, the resolver finds the first
//! persona (in store order) whose prefix literally starts the message, and
//! plans the proxying: ensure the channel has a proxy handle (provisioning
//! one through the transport on miss), post the trimmed remainder under the
//! persona's identity, then delete the original message.
//!
//! The transport itself is a collaborator: the resolver returns the next
//! [`ProxyAction`] to perform, and is stepped with the [`TransportEvent`]
//! that the action produced, until it is [`ProxyOutcome::Proxied`] or
//! [`ProxyOutcome::Failed`]. A failure ends the flow with no rollback of
//! steps already completed.

use vstd::prelude::*;
use vstd::string::*;

use crate::characters::{owned_by, Character, CharacterStore};
use crate::parser::Message;
use crate::text::{is_prefix_spec, strip_prefix_str, trim, trim_spec};
use crate::webhooks::{lookup_spec, WebhookStore};

verus! {

/// First index of a persona whose prefix starts the text, or the length of
/// the row sequence when none matches.
pub open spec fn first_match_spec(rows: Seq<Character>, content: Seq<char>) -> nat
    decreases rows.len(),
{
    if rows.len() == 0 {
        0
    } else if is_prefix_spec(rows[0].char_prefix@, content) {
        0
    } else {
        1 + first_match_spec(rows.drop_first(), content)
    }
}

proof fn lemma_first_match_props(rows: Seq<Character>, content: Seq<char>)
    ensures
        first_match_spec(rows, content) <= rows.len(),
        forall|k: int|
            0 <= k < first_match_spec(rows, content) ==> !is_prefix_spec(
                (#[trigger] rows[k]).char_prefix@,
                content,
            ),
        first_match_spec(rows, content) < rows.len() ==> is_prefix_spec(
            rows[first_match_spec(rows, content) as int].char_prefix@,
            content,
        ),
    decreases rows.len(),
{
    if rows.len() > 0 && !is_prefix_spec(rows[0].char_prefix@, content) {
        let r1 = rows.drop_first();
        lemma_first_match_props(r1, content);
        let f = first_match_spec(rows, content) as int;
        assert forall|k: int| 0 <= k < f implies !is_prefix_spec(
            (#[trigger] rows[k]).char_prefix@,
            content,
        ) by {
            if k >= 1 {
                assert(rows[k] == r1[k - 1]);
            }
        }
        if f < rows.len() {
            assert(rows[f] == r1[f - 1]);
        }
    }
}

/// The remainder posted when persona `c` matches: the text after the prefix,
/// trimmed.
pub open spec fn remainder_spec(c: Character, content: Seq<char>) -> Seq<char> {
    trim_spec(content.subrange(c.char_prefix@.len() as int, content.len() as int))
}

/// An outbound request the transport must perform for the resolver.
#[derive(Debug)]
pub enum ProxyAction {
    /// Provision a proxy handle (webhook) for the channel, under the
    /// configured display label.
    Provision { channel_id: u64 },
    /// Post `content` through the handle `url` under the given identity.
    Post { url: String, username: String, avatar_url: String, content: String },
    /// Delete the original message.
    Delete { channel_id: u64, message_id: u64 },
}

/// What the transport reports back for the matching action.
#[derive(Debug)]
pub enum TransportEvent {
    /// Provisioning finished: the new handle's URL, or a failure reason.
    Provisioned(Result<String, String>),
    /// Posting finished.
    Posted(Result<(), String>),
    /// Deletion finished.
    Deleted(Result<(), String>),
}

/// How resolving a message ended.
#[derive(Debug)]
pub enum ProxyOutcome {
    /// No owned persona's prefix starts the message; nothing was done.
    NoMatch,
    /// The remainder was posted and the original deleted.
    Proxied,
    /// A transport step failed; completed steps are not rolled back.
    Failed(String),
}

/// The resolver's answer: either the next action to perform, or the outcome.
#[derive(Debug)]
pub enum FlowStep {
    Act(ProxyAction),
    Done(ProxyOutcome),
}

/// Where a proxy flow stands.
#[derive(Clone, Copy, Debug, PartialEq, Eq, Structural)]
pub enum Stage {
    /// Waiting for the channel's proxy handle to be provisioned.
    Provisioning,
    /// Waiting for the proxied post to complete.
    Posting,
    /// Waiting for the original message's deletion.
    Deleting,
    /// The flow has ended.
    Finished,
}

/// An in-progress proxying of one message.
#[derive(Debug)]
pub struct ProxyFlow {
    stage: Stage,
    channel_id: u64,
    message_id: u64,
    username: String,
    avatar_url: String,
    text: String,
}

impl ProxyFlow {
    /// Where the flow stands.
    pub closed spec fn stage(&self) -> Stage {
        self.stage
    }

    /// The channel of the original message.
    pub closed spec fn channel_id_spec(&self) -> u64 {
        self.channel_id
    }

    /// The id of the original message.
    pub closed spec fn message_id_spec(&self) -> u64 {
        self.message_id
    }

    /// The display name posted under.
    pub closed spec fn username_spec(&self) -> Seq<char> {
        self.username@
    }

    /// The avatar posted under.
    pub closed spec fn avatar_url_spec(&self) -> Seq<char> {
        self.avatar_url@
    }

    /// The remainder to post.
    pub closed spec fn text_spec(&self) -> Seq<char> {
        self.text@
    }

    /// The event kind the flow can be stepped with.
    pub open spec fn expects(&self, event: TransportEvent) -> bool {
        match self.stage() {
            Stage::Provisioning => event is Provisioned,
            Stage::Posting => event is Posted,
            Stage::Deleting => event is Deleted,
            Stage::Finished => false,
        }
    }
}

/// Whether resolving this message would ask the transport to provision a
/// proxy handle: a persona matches and the channel has no binding yet.
pub open spec fn requests_provision(
    chars_rows: Seq<Character>,
    hook_rows: Seq<crate::webhooks::Binding>,
    author_id: u64,
    content: Seq<char>,
    channel_id: u64,
) -> bool {
    let owned = owned_by(chars_rows, author_id);
    first_match_spec(owned, content) < owned.len() && lookup_spec(hook_rows, channel_id) is None
}

/// Law: sequential provisioning is idempotent per channel. A resolution
/// requests provisioning exactly when the channel has no binding
/// (an `ensures` of [`parse_prefix`]); once a successful provisioning step
/// has recorded the binding, no later resolution in that channel requests
/// provisioning again, whatever message or personas it concerns.
pub proof fn lemma_provision_at_most_once(
    chars_rows: Seq<Character>,
    hook_rows: Seq<crate::webhooks::Binding>,
    author_id: u64,
    content: Seq<char>,
    b: crate::webhooks::Binding,
)
    requires
        lookup_spec(hook_rows, b.channel_id) is None,
    ensures
        !requests_provision(chars_rows, hook_rows.push(b), author_id, content, b.channel_id),
{
    crate::webhooks::lemma_lookup_push(hook_rows, b);
}

/// Resolving a message either begins a flow or finds no persona.
#[derive(Debug)]
pub enum Resolution {
    /// No owned persona's prefix starts the message.
    NoMatch,
    /// A persona matched: the flow and its first action.
    Begun(ProxyFlow, ProxyAction),
}

/// Checks the message against the sender's personas (in store order, first
/// match wins) and, on a match, begins the proxy flow: its first action is
/// the post when the channel already has a binding, else the provisioning
/// request. No transport work is requested when no persona matches.
pub fn parse_prefix(chars: &CharacterStore, hooks: &WebhookStore, msg: &Message) -> (r: Resolution)
    ensures
        ({
            let owned = owned_by(chars.rows(), msg.author_id);
            let m = first_match_spec(owned, msg.content@);
            match r {
                Resolution::NoMatch => m == owned.len(),
                Resolution::Begun(flow, act) => {
                    &&& m < owned.len()
                    &&& flow.stage() == (match lookup_spec(hooks.rows(), msg.channel_id) {
                        Some(_) => Stage::Posting,
                        None => Stage::Provisioning,
                    })
                    &&& flow.channel_id_spec() == msg.channel_id
                    &&& flow.message_id_spec() == msg.id
                    &&& flow.username_spec() == owned[m as int].char_name@
                    &&& flow.avatar_url_spec() == owned[m as int].char_avatar@
                    &&& flow.text_spec() == remainder_spec(owned[m as int], msg.content@)
                    &&& (match lookup_spec(hooks.rows(), msg.channel_id) {
                        Some(u) => act matches ProxyAction::Post { url, username, avatar_url, content }
                            && url@ == u && username@ == flow.username_spec() && avatar_url@
                            == flow.avatar_url_spec() && content@ == flow.text_spec(),
                        None => act matches ProxyAction::Provision { channel_id } && channel_id
                            == msg.channel_id,
                    })
                },
            }
        }),
        (r matches Resolution::Begun(flow, act) && act is Provision) <==> requests_provision(
            chars.rows(),
            hooks.rows(),
            msg.author_id,
            msg.content@,
            msg.channel_id,
        ),
{
    let owned = match chars.all_with_user_id(msg.author_id) {
        Ok(v) => v,
        Err(_) => {
            proof {
                assert(false);
            }
            return Resolution::NoMatch;
        },
    };
    let n: usize = owned.len();
    let mut i: usize = 0;
    proof {
        lemma_first_match_props(owned@, msg.content@);
    }
    while i < n
        invariant
            0 <= i <= n,
            n == owned@.len(),
            owned@ == owned_by(chars.rows(), msg.author_id),
            forall|k: int|
                0 <= k < i ==> !is_prefix_spec((#[trigger] owned@[k]).char_prefix@, msg.content@),
        decreases n - i,
    {
        match strip_prefix_str(msg.content.as_str(), owned[i].char_prefix.as_str()) {
            Some(after) => {
                proof {
                    lemma_first_match_props(owned@, msg.content@);
                }
                let text = trim(after);
                let flow = ProxyFlow {
                    stage: Stage::Provisioning,
                    channel_id: msg.channel_id,
                    message_id: msg.id,
                    username: owned[i].char_name.clone(),
                    avatar_url: owned[i].char_avatar.clone(),
                    text: text.to_owned(),
                };
                match hooks.webhook_for_channel(msg.channel_id) {
                    Ok(url) => {
                        let act = ProxyAction::Post {
                            url,
                            username: flow.username.clone(),
                            avatar_url: flow.avatar_url.clone(),
                            content: flow.text.clone(),
                        };
                        let flow = ProxyFlow { stage: Stage::Posting, ..flow };
                        return Resolution::Begun(flow, act);
                    },
                    Err(_) => {
                        let act = ProxyAction::Provision { channel_id: msg.channel_id };
                        return Resolution::Begun(flow, act);
                    },
                }
            },
            None => {},
        }
        i += 1;
    }
    proof {
        lemma_first_match_props(owned@, msg.content@);
    }
    Resolution::NoMatch
}

/// Advances a flow with the event its pending action produced, returning the
/// next action or the outcome.
///
/// A successful provisioning records the binding, unless the channel gained
/// one meanwhile, whose handle is then used instead (get-or-create). Any
/// transport failure ends the flow as `Failed` with the reason, with no
/// rollback of completed steps.
pub fn step(flow: &mut ProxyFlow, hooks: &mut WebhookStore, event: TransportEvent) -> (r: FlowStep)
    requires
        old(flow).expects(event),
        old(hooks).inv(),
    ensures
        final(hooks).inv(),
        final(flow).channel_id_spec() == old(flow).channel_id_spec(),
        final(flow).message_id_spec() == old(flow).message_id_spec(),
        final(flow).username_spec() == old(flow).username_spec(),
        final(flow).avatar_url_spec() == old(flow).avatar_url_spec(),
        final(flow).text_spec() == old(flow).text_spec(),
        match event {
            TransportEvent::Provisioned(res) => match res {
                Ok(url) => {
                    &&& lookup_spec(final(hooks).rows(), old(flow).channel_id_spec()) is Some
                    &&& (match lookup_spec(old(hooks).rows(), old(flow).channel_id_spec()) {
                        Some(u) => *final(hooks) == *old(hooks) && lookup_spec(
                            final(hooks).rows(),
                            old(flow).channel_id_spec(),
                        ) == Some(u),
                        None => lookup_spec(final(hooks).rows(), old(flow).channel_id_spec())
                            == Some(url@) && final(hooks).rows().len() == old(
                            hooks,
                        ).rows().len() + 1,
                    })
                    &&& final(flow).stage() == Stage::Posting
                    &&& (r matches FlowStep::Act(a) && a matches ProxyAction::Post {
                        url: u,
                        username,
                        avatar_url,
                        content,
                    } && Some(u@) == lookup_spec(final(hooks).rows(), old(flow).channel_id_spec())
                        && username@ == old(flow).username_spec() && avatar_url@ == old(
                        flow,
                    ).avatar_url_spec() && content@ == old(flow).text_spec())
                },
                Err(reason) => ({
                    &&& *final(hooks) == *old(hooks)
                    &&& final(flow).stage() == Stage::Finished
                    &&& (r matches FlowStep::Done(o) && o matches ProxyOutcome::Failed(s) && s@
                        == reason@)
                }),
            },
            TransportEvent::Posted(res) => match res {
                Ok(_) => ({
                    &&& *final(hooks) == *old(hooks)
                    &&& final(flow).stage() == Stage::Deleting
                    &&& (r matches FlowStep::Act(a) && a matches ProxyAction::Delete {
                        channel_id,
                        message_id,
                    } && channel_id == old(flow).channel_id_spec() && message_id == old(
                        flow,
                    ).message_id_spec())
                }),
                Err(reason) => ({
                    &&& *final(hooks) == *old(hooks)
                    &&& final(flow).stage() == Stage::Finished
                    &&& (r matches FlowStep::Done(o) && o matches ProxyOutcome::Failed(s) && s@
                        == reason@)
                }),
            },
            TransportEvent::Deleted(res) => match res {
                Ok(_) => ({
                    &&& *final(hooks) == *old(hooks)
                    &&& final(flow).stage() == Stage::Finished
                    &&& (r matches FlowStep::Done(o) && o is Proxied)
                }),
                Err(reason) => ({
                    &&& *final(hooks) == *old(hooks)
                    &&& final(flow).stage() == Stage::Finished
                    &&& (r matches FlowStep::Done(o) && o matches ProxyOutcome::Failed(s) && s@
                        == reason@)
                }),
            },
        },
{
    match event {
        TransportEvent::Provisioned(res) => match res {
            Ok(url) => {
                let use_url: String = match hooks.webhook_for_channel(flow.channel_id) {
                    Ok(existing) => existing,
                    Err(_) => {
                        match hooks.insert_binding(flow.channel_id, url.clone()) {
                            Ok(_) => {},
                            Err(_) => {
                                proof {
                                    assert(false);
                                }
                            },
                        }
                        url
                    },
                };
                flow.stage = Stage::Posting;
                FlowStep::Act(
                    ProxyAction::Post {
                        url: use_url,
                        username: flow.username.clone(),
                        avatar_url: flow.avatar_url.clone(),
                        content: flow.text.clone(),
                    },
                )
            },
            Err(reason) => {
                flow.stage = Stage::Finished;
                FlowStep::Done(ProxyOutcome::Failed(reason))
            },
        },
        TransportEvent::Posted(res) => match res {
            Ok(_) => {
                flow.stage = Stage::Deleting;
                FlowStep::Act(
                    ProxyAction::Delete {
                        channel_id: flow.channel_id,
                        message_id: flow.message_id,
                    },
                )
            },
            Err(reason) => {
                flow.stage = Stage::Finished;
                FlowStep::Done(ProxyOutcome::Failed(reason))
            },
        },
        TransportEvent::Deleted(res) => match res {
            Ok(_) => {
                flow.stage = Stage::Finished;
                FlowStep::Done(ProxyOutcome::Proxied)
            },
            Err(reason) => {
                flow.stage = Stage::Finished;
                FlowStep::Done(ProxyOutcome::Failed(reason))
            },
        },
    }
}

} // verus!
