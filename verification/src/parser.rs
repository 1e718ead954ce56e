//! The command registry and dispatcher.
//!
//! A message whose text starts with the sigil and a registered command name
//! is tokenized, checked against the command's declared arity, and answered:
//! either with the handler's reply or with a usage error naming the command.
//! Messages authored by the bot itself are never processed.

use vstd::prelude::*;
use vstd::string::*;

use crate::characters::{owned_by, CharacterStore};
use crate::clock::rfc3339_ms_of;
use crate::text::{
    dec_str, find_space, find_space_spec, int_dec, split_args, split_args_spec, str_eq, trim,
    trim_spec,
};

verus! {

/// Engine configuration, constructed once at startup.
pub struct Config {
    /// The bot's own user id; its messages are never dispatched.
    pub bot_user_id: u64,
    /// Display label used when provisioning a channel's proxy handle.
    pub webhook_name: String,
    /// The command sigil a message must start with.
    pub sigil: char,
    /// The quote character that groups an argument containing whitespace.
    pub quote: char,
}

impl Config {
    /// A configuration with the standard sigil `~` and double-quote quoting.
    pub fn new(bot_user_id: u64, webhook_name: String) -> (c: Config)
        ensures
            c.bot_user_id == bot_user_id,
            c.webhook_name == webhook_name,
            c.sigil == '~',
            c.quote == '"',
    {
        Config { bot_user_id, webhook_name, sigil: '~', quote: '"' }
    }
}

/// An inbound chat message, as plain values.
pub struct Message {
    pub id: u64,
    pub channel_id: u64,
    pub author_id: u64,
    pub content: String,
    /// The creation time the platform reports, as an RFC 3339 string.
    pub timestamp: String,
}

/// The argument shape a command requires.
#[derive(Clone, Copy, Debug, PartialEq, Eq, Structural)]
pub enum Arity {
    /// Arguments must be empty after trimming.
    Zero,
    /// Exactly this many tokens.
    Exact(u64),
    /// The remaining raw text is bound as one argument; `required` demands it
    /// be non-empty after trimming.
    Rest { required: bool },
}

/// One row of the command table.
pub struct CommandSpec {
    pub name: String,
    pub usage: String,
    pub arity: Arity,
    pub help_line: String,
}

/// Whether the text starts with the command sigil.
pub open spec fn has_sigil(sigil: char, content: Seq<char>) -> bool {
    content.len() > 0 && content[0] == sigil
}

/// The command word: the text after the sigil, up to the first whitespace.
pub open spec fn cmd_name_spec(content: Seq<char>) -> Seq<char> {
    let t = content.drop_first();
    t.subrange(0, find_space_spec(t) as int)
}

/// The raw remainder after the command word and one separating whitespace
/// character; empty when the command word ends the message.
pub open spec fn rest_spec(content: Seq<char>) -> Seq<char> {
    let t = content.drop_first();
    let e = find_space_spec(t);
    if e < t.len() {
        t.subrange(e as int + 1, t.len() as int)
    } else {
        Seq::empty()
    }
}

/// Usage error for `echo` without a message.
pub open spec fn usage_echo() -> Seq<char> {
    "`~echo` takes 1 argument (`message`)."@
}

/// Usage error for `ping` with arguments.
pub open spec fn usage_ping() -> Seq<char> {
    "`~ping` takes no arguments."@
}

/// Usage error for `ls` with arguments.
pub open spec fn usage_ls() -> Seq<char> {
    "`~ls` takes no arguments."@
}

/// Usage error for `create` without exactly three arguments.
pub open spec fn usage_create() -> Seq<char> {
    "`~create` takes 3 arguments (`name`, `avatar`, `prefix`)."@
}

/// The synthesized help reply, one line per registered command.
pub open spec fn help_text() -> Seq<char> {
    "Available commands:\n"@ + "    `~help` – Displays this help message.\n"@
        + "    `~echo message` –  Echo a message.\n"@
        + "    `~ping` – Check the bot's response time.\n"@ + "    `~ls` – List your characters.\n"@
        + "    `~create name avatar prefix` – Create a new character.\n"@
        + "Arguments can be surrounded by quotes to allow for spaces.\nFor example, `~create \"Hata no Kokoro\" https://example.com/kokoro.png koko:` will create a character named Hata no Kokoro.\n"@
}

/// The `ping` reply for an elapsed time in milliseconds.
pub open spec fn pong_text(elapsed: int) -> Seq<char> {
    "Pong. Command received in **"@ + int_dec(elapsed) + "** ms."@
}

/// One `ls` line for a persona.
pub open spec fn persona_line(c: crate::characters::Character) -> Seq<char> {
    c.char_name@ + " (prefix `"@ + c.char_prefix@ + "`)"@
}

/// The `ls` lines for a row sequence, newline-joined, in store order.
pub open spec fn persona_list_text(rows: Seq<crate::characters::Character>) -> Seq<char>
    decreases rows.len(),
{
    if rows.len() == 0 {
        Seq::empty()
    } else if rows.len() == 1 {
        persona_line(rows[0])
    } else {
        persona_list_text(rows.drop_last()) + "\n"@ + persona_line(rows.last())
    }
}

/// The fixed reply when the sender owns no personas.
pub open spec fn no_personas_text() -> Seq<char> {
    "You have no characters."@
}

/// The whole `ls` reply for a sender.
pub open spec fn ls_reply(rows: Seq<crate::characters::Character>, author_id: u64) -> Seq<char> {
    let owned = owned_by(rows, author_id);
    if owned.len() == 0 {
        no_personas_text()
    } else {
        persona_list_text(owned)
    }
}

/// The `create` confirmation.
pub open spec fn created_text(name: Seq<char>) -> Seq<char> {
    "Created "@ + name + " successfully."@
}

/// The reply the dispatcher owes for a message: `None` when the message is
/// the bot's own, carries no sigil, or names no registered command (and for
/// `ping` when the reported timestamp is not valid RFC 3339, where the event
/// is dropped as a store-layer fault would drop it).
pub open spec fn dispatch_reply(
    cfg: Config,
    rows: Seq<crate::characters::Character>,
    author_id: u64,
    content: Seq<char>,
    timestamp: Seq<char>,
    now_ms: int,
) -> Option<Seq<char>> {
    if author_id == cfg.bot_user_id {
        None
    } else if !has_sigil(cfg.sigil, content) {
        None
    } else {
        let name = cmd_name_spec(content);
        let rest = rest_spec(content);
        if name == "help"@ {
            Some(help_text())
        } else if name == "echo"@ {
            if trim_spec(rest).len() == 0 {
                Some(usage_echo())
            } else {
                Some(rest)
            }
        } else if name == "ping"@ {
            if trim_spec(rest).len() != 0 {
                Some(usage_ping())
            } else {
                match rfc3339_ms_of(timestamp) {
                    Some(ms) => Some(pong_text(now_ms - ms)),
                    None => None,
                }
            }
        } else if name == "ls"@ {
            if trim_spec(rest).len() != 0 {
                Some(usage_ls())
            } else {
                Some(ls_reply(rows, author_id))
            }
        } else if name == "create"@ {
            let toks = split_args_spec(rest, cfg.quote);
            if toks.len() != 3 {
                Some(usage_create())
            } else {
                Some(created_text(toks[0]))
            }
        } else {
            None
        }
    }
}

/// Whether the message is a well-formed `create` command, the one dispatch
/// path with a store side effect.
pub open spec fn create_hit(cfg: Config, author_id: u64, content: Seq<char>) -> bool {
    &&& author_id != cfg.bot_user_id
    &&& has_sigil(cfg.sigil, content)
    &&& cmd_name_spec(content) == "create"@
    &&& split_args_spec(rest_spec(content), cfg.quote).len() == 3
}

/// The command table, built once at startup; the help reply is derived from
/// it at construction and never recomputed.
pub struct Registry {
    pub commands: Vec<CommandSpec>,
    pub help: String,
}

impl Registry {
    /// The table holds exactly the registered commands, with their arities
    /// and usage errors, and the synthesized help reply.
    pub open spec fn wf(&self) -> bool {
        &&& self.commands@.len() == 5
        &&& self.commands@[0].name@ == "help"@
        &&& self.commands@[0].arity == (Arity::Rest { required: false })
        &&& self.commands@[1].name@ == "echo"@
        &&& self.commands@[1].arity == (Arity::Rest { required: true })
        &&& self.commands@[1].usage@ == usage_echo()
        &&& self.commands@[2].name@ == "ping"@
        &&& self.commands@[2].arity == Arity::Zero
        &&& self.commands@[2].usage@ == usage_ping()
        &&& self.commands@[3].name@ == "ls"@
        &&& self.commands@[3].arity == Arity::Zero
        &&& self.commands@[3].usage@ == usage_ls()
        &&& self.commands@[4].name@ == "create"@
        &&& self.commands@[4].arity == Arity::Exact(3)
        &&& self.commands@[4].usage@ == usage_create()
        &&& self.help@ == help_text()
    }

    /// Builds the command table and synthesizes the help reply from it.
    pub fn new() -> (r: Registry)
        ensures
            r.wf(),
    {
        let mut commands: Vec<CommandSpec> = Vec::new();
        commands.push(
            CommandSpec {
                name: String::from_str("help"),
                usage: String::new(),
                arity: Arity::Rest { required: false },
                help_line: String::from_str("    `~help` – Displays this help message.\n"),
            },
        );
        commands.push(
            CommandSpec {
                name: String::from_str("echo"),
                usage: String::from_str("`~echo` takes 1 argument (`message`)."),
                arity: Arity::Rest { required: true },
                help_line: String::from_str("    `~echo message` –  Echo a message.\n"),
            },
        );
        commands.push(
            CommandSpec {
                name: String::from_str("ping"),
                usage: String::from_str("`~ping` takes no arguments."),
                arity: Arity::Zero,
                help_line: String::from_str("    `~ping` – Check the bot's response time.\n"),
            },
        );
        commands.push(
            CommandSpec {
                name: String::from_str("ls"),
                usage: String::from_str("`~ls` takes no arguments."),
                arity: Arity::Zero,
                help_line: String::from_str("    `~ls` – List your characters.\n"),
            },
        );
        commands.push(
            CommandSpec {
                name: String::from_str("create"),
                usage: String::from_str("`~create` takes 3 arguments (`name`, `avatar`, `prefix`)."),
                arity: Arity::Exact(3),
                help_line: String::from_str(
                    "    `~create name avatar prefix` – Create a new character.\n",
                ),
            },
        );
        let mut help = String::from_str("Available commands:\n");
        let mut i: usize = 0;
        while i < commands.len()
            invariant
                0 <= i <= 5,
                commands@.len() == 5,
                commands@[0].help_line@ == "    `~help` – Displays this help message.\n"@,
                commands@[1].help_line@ == "    `~echo message` –  Echo a message.\n"@,
                commands@[2].help_line@ == "    `~ping` – Check the bot's response time.\n"@,
                commands@[3].help_line@ == "    `~ls` – List your characters.\n"@,
                commands@[4].help_line@
                    == "    `~create name avatar prefix` – Create a new character.\n"@,
                i == 0 ==> help@ == "Available commands:\n"@,
                i == 1 ==> help@ == "Available commands:\n"@ + commands@[0].help_line@,
                i == 2 ==> help@ == "Available commands:\n"@ + commands@[0].help_line@
                    + commands@[1].help_line@,
                i == 3 ==> help@ == "Available commands:\n"@ + commands@[0].help_line@
                    + commands@[1].help_line@ + commands@[2].help_line@,
                i == 4 ==> help@ == "Available commands:\n"@ + commands@[0].help_line@
                    + commands@[1].help_line@ + commands@[2].help_line@ + commands@[3].help_line@,
                i == 5 ==> help@ == "Available commands:\n"@ + commands@[0].help_line@
                    + commands@[1].help_line@ + commands@[2].help_line@ + commands@[3].help_line@
                    + commands@[4].help_line@,
            decreases 5 - i,
        {
            help.append(commands[i].help_line.as_str());
            i += 1;
        }
        help.append(
            "Arguments can be surrounded by quotes to allow for spaces.\nFor example, `~create \"Hata no Kokoro\" https://example.com/kokoro.png koko:` will create a character named Hata no Kokoro.\n",
        );
        proof {
            assert(help@ =~= help_text());
        }
        Registry { commands, help }
    }
}

/// Parses a message and, when it is a registered command from someone other
/// than the bot itself, executes it. Returns the reply to send, or `None`
/// when the message is no command (or is the bot's own). The store changes
/// exactly on a well-formed `create`, which appends one persona row.
pub fn parse_command(
    cfg: &Config,
    reg: &Registry,
    store: &mut CharacterStore,
    msg: &Message,
    now_ms: i64,
) -> (r: Option<String>)
    requires
        reg.wf(),
        old(store).inv(),
        old(store).next_id_spec() < i64::MAX,
    ensures
        r.deep_view() == dispatch_reply(
            *cfg,
            old(store).rows(),
            msg.author_id,
            msg.content@,
            msg.timestamp@,
            now_ms as int,
        ),
        final(store).inv(),
        !create_hit(*cfg, msg.author_id, msg.content@) ==> *final(store) == *old(store),
        create_hit(*cfg, msg.author_id, msg.content@) ==> ({
            let toks = split_args_spec(rest_spec(msg.content@), cfg.quote);
            &&& final(store).rows().len() == old(store).rows().len() + 1
            &&& final(store).rows().subrange(0, old(store).rows().len() as int) == old(
                store,
            ).rows()
            &&& final(store).rows().last().char_id == old(store).next_id_spec()
            &&& final(store).rows().last().user_id == msg.author_id as i64
            &&& final(store).rows().last().char_name@ == toks[0]
            &&& final(store).rows().last().char_avatar@ == toks[1]
            &&& final(store).rows().last().char_prefix@ == toks[2]
            &&& final(store).next_id_spec() == old(store).next_id_spec() + 1
        }),
{
    proof {
        reveal_strlit("help");
        reveal_strlit("echo");
        reveal_strlit("ping");
        reveal_strlit("ls");
        reveal_strlit("create");
        reveal_strlit("");
    }
    if msg.author_id == cfg.bot_user_id {
        return None;
    }
    let content: &str = msg.content.as_str();
    let n: usize = content.unicode_len();
    if n == 0 || content.get_char(0) != cfg.sigil {
        return None;
    }
    let t = content.substring_char(1, n);
    proof {
        assert(t@ =~= content@.drop_first());
    }
    let e: usize = find_space(t);
    let name = t.substring_char(0, e);
    let tlen: usize = n - 1;
    let rest: &str = if e < tlen {
        t.substring_char(e + 1, tlen)
    } else {
        ""
    };
    proof {
        assert(name@ == cmd_name_spec(msg.content@));
        assert(rest@ == rest_spec(msg.content@));
    }
    let nrows: usize = reg.commands.len();
    let mut idx: usize = 0;
    while idx < nrows && !str_eq(reg.commands[idx].name.as_str(), name)
        invariant
            0 <= idx <= nrows,
            reg.wf(),
            nrows == reg.commands@.len(),
            name@ == cmd_name_spec(msg.content@),
            forall|j: int| 0 <= j < idx ==> (#[trigger] reg.commands@[j]).name@ != name@,
        decreases nrows - idx,
    {
        idx += 1;
    }
    if idx == nrows {
        // The command word matches no registered command.
        return None;
    }
    // Arity validation from the table row.
    let mut toks: Vec<String> = Vec::new();
    match reg.commands[idx].arity {
        Arity::Zero => {
            let tr = trim(rest);
            if tr.unicode_len() != 0 {
                return Some(reg.commands[idx].usage.clone());
            }
        },
        Arity::Rest { required } => {
            if required {
                let tr = trim(rest);
                if tr.unicode_len() == 0 {
                    return Some(reg.commands[idx].usage.clone());
                }
            }
        },
        Arity::Exact(k) => {
            toks = split_args(rest, cfg.quote);
            if toks.len() as u64 != k {
                return Some(reg.commands[idx].usage.clone());
            }
        },
    }
    // Handlers.
    if idx == 0 {
        Some(reg.help.clone())
    } else if idx == 1 {
        Some(rest.to_owned())
    } else if idx == 2 {
        match crate::clock::parse_rfc3339_ms(msg.timestamp.as_str()) {
            None => None,
            Some(ms) => {
                let elapsed: i128 = now_ms as i128 - ms as i128;
                let num = crate::text::i128_to_dec(elapsed);
                let mut reply = String::from_str("Pong. Command received in **");
                reply.append(num.as_str());
                reply.append("** ms.");
                proof {
                    assert(reply@ =~= pong_text(now_ms as int - ms as int));
                }
                Some(reply)
            },
        }
    } else if idx == 3 {
        let owned = match store.all_with_user_id(msg.author_id) {
            Ok(v) => v,
            Err(_) => {
                proof {
                    assert(false);
                }
                return None;
            },
        };
        if owned.len() == 0 {
            return Some(String::from_str("You have no characters."));
        }
        let m: usize = owned.len();
        let mut reply = String::new();
        let mut i: usize = 0;
        while i < m
            invariant
                0 <= i <= m,
                m == owned@.len(),
                reply@ == persona_list_text(owned@.take(i as int)),
            decreases m - i,
        {
            proof {
                assert(owned@.take(i + 1).drop_last() =~= owned@.take(i as int));
                assert(owned@.take(i + 1).last() == owned@[i as int]);
            }
            if i > 0 {
                reply.append("\n");
            }
            reply.append(owned[i].char_name.as_str());
            reply.append(" (prefix `");
            reply.append(owned[i].char_prefix.as_str());
            reply.append("`)");
            proof {
                assert(reply@ =~= persona_list_text(owned@.take(i + 1)));
            }
            i += 1;
        }
        proof {
            assert(owned@.take(m as int) =~= owned@);
        }
        Some(reply)
    } else {
        // create
        proof {
            assert(toks.deep_view().len() == 3);
            assert(toks@[0]@ == toks.deep_view()[0]);
            assert(toks@[1]@ == toks.deep_view()[1]);
            assert(toks@[2]@ == toks.deep_view()[2]);
        }
        match store.insert(
            msg.author_id,
            toks[0].as_str(),
            toks[1].as_str(),
            toks[2].as_str(),
        ) {
            Ok(_) => {},
            Err(_) => {
                proof {
                    assert(false);
                }
                return None;
            },
        }
        let mut reply = String::from_str("Created ");
        reply.append(toks[0].as_str());
        reply.append(" successfully.");
        proof {
            assert(reply@ =~= created_text(toks.deep_view()[0]));
        }
        Some(reply)
    }
}

/// Dispatches a message against the current time. The reply is the one
/// [`dispatch_reply`] owes for some reading of the clock.
pub fn parse_command_now(
    cfg: &Config,
    reg: &Registry,
    store: &mut CharacterStore,
    msg: &Message,
) -> (r: Option<String>)
    requires
        reg.wf(),
        old(store).inv(),
        old(store).next_id_spec() < i64::MAX,
    ensures
        exists|now: int|
            r.deep_view() == #[trigger] dispatch_reply(
                *cfg,
                old(store).rows(),
                msg.author_id,
                msg.content@,
                msg.timestamp@,
                now,
            ),
        final(store).inv(),
        !create_hit(*cfg, msg.author_id, msg.content@) ==> *final(store) == *old(store),
        create_hit(*cfg, msg.author_id, msg.content@) ==> ({
            let toks = split_args_spec(rest_spec(msg.content@), cfg.quote);
            &&& final(store).rows().len() == old(store).rows().len() + 1
            &&& final(store).rows().subrange(0, old(store).rows().len() as int) == old(
                store,
            ).rows()
            &&& final(store).rows().last().char_name@ == toks[0]
            &&& final(store).rows().last().char_avatar@ == toks[1]
            &&& final(store).rows().last().char_prefix@ == toks[2]
        }),
{
    let now_ms: i64 = crate::clock::now_unix_ms();
    let r = parse_command(cfg, reg, store, msg, now_ms);
    proof {
        assert(r.deep_view() == dispatch_reply(
            *cfg,
            old(store).rows(),
            msg.author_id,
            msg.content@,
            msg.timestamp@,
            now_ms as int,
        ));
    }
    r
}

/// Law: the `ping` reply for an elapsed time that is not negative renders
/// the count without a minus sign — every character of the rendered count is
/// a decimal digit. With [`dispatch_reply`], a `ping` dispatched at a time
/// not before the message's reported creation reports a non-negative value.
pub proof fn lemma_pong_nonnegative(elapsed: int)
    requires
        elapsed >= 0,
    ensures
        pong_text(elapsed) == "Pong. Command received in **"@ + dec_str(elapsed as nat)
            + "** ms."@,
        forall|i: int|
            0 <= i < dec_str(elapsed as nat).len() ==> crate::text::is_digit_char(
                #[trigger] dec_str(elapsed as nat)[i],
            ),
{
    crate::text::lemma_dec_str_digits(elapsed as nat);
}

/// Whether `needle` occurs contiguously in `hay`.
pub open spec fn contains_seq(hay: Seq<char>, needle: Seq<char>) -> bool {
    exists|i: int|
        0 <= i && i + needle.len() <= hay.len() && #[trigger] hay.subrange(i, i + needle.len())
            == needle
}

/// Law: every usage-error reply names the command it corrects.
pub proof fn lemma_usage_mentions_command()
    ensures
        contains_seq(usage_echo(), "echo"@),
        contains_seq(usage_ping(), "ping"@),
        contains_seq(usage_ls(), "ls"@),
        contains_seq(usage_create(), "create"@),
{
    reveal_strlit("echo");
    reveal_strlit("ping");
    reveal_strlit("ls");
    reveal_strlit("create");
    reveal_strlit("`~echo` takes 1 argument (`message`).");
    reveal_strlit("`~ping` takes no arguments.");
    reveal_strlit("`~ls` takes no arguments.");
    reveal_strlit("`~create` takes 3 arguments (`name`, `avatar`, `prefix`).");
    assert(usage_echo().subrange(2, 2 + "echo"@.len() as int) =~= "echo"@);
    assert(usage_ping().subrange(2, 2 + "ping"@.len() as int) =~= "ping"@);
    assert(usage_ls().subrange(2, 2 + "ls"@.len() as int) =~= "ls"@);
    assert(usage_create().subrange(2, 2 + "create"@.len() as int) =~= "create"@);
}

} // verus!
