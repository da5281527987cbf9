//! Slash-command handling for outgoing messages: deciding whether the text
//! is a command, transforming it where the command only rewrites text, and
//! parsing quoted argument lists for the poll command.

use vstd::prelude::*;
use crate::text::{
    chars_of, string_of, push_all, subvec, trim_chars, trim_spec, chars_eq, starts_with,
    seq_starts_with, find_char, find_char_spec, lemma_find_char_spec,
};

verus! {

/// The outcome the host acts on after a message was offered to the command
/// handler.
#[derive(Debug, PartialEq)]
pub enum CommandResult {
    /// The command was handled internally (for instance a room was joined);
    /// nothing further is sent.
    Handled,
    /// The text, possibly rewritten, is still to be sent as a message.
    Continue(String),
}

/// What a piece of outgoing text asks for: either it is plain text to
/// send (possibly rewritten by a text-only command), or it names an
/// operation against the messaging service.
pub enum SlashCommand {
    /// Send this text as the message body.
    Text(String),
    /// Join the room named by the argument.
    Join(String),
    /// Invite the user named by the argument into the current room.
    Invite(String),
    /// Start a poll with the parsed question and options.
    Poll(Vec<String>),
    /// The poll command was given fewer than a question and two options.
    PollUsage,
}

/// One step of the quoted-argument scanner: `escaped` takes the next
/// character literally, an unescaped backslash escapes, an unescaped quote
/// toggles `in_quote`, and an unquoted space closes the current argument.
pub open spec fn quoted_args_spec(
    s: Seq<char>,
    i: int,
    in_quote: bool,
    escaped: bool,
    cur: Seq<char>,
    args: Seq<Seq<char>>,
) -> Seq<Seq<char>>
    decreases s.len() - i,
{
    if i < 0 || i >= s.len() {
        if cur.len() > 0 {
            args.push(cur)
        } else {
            args
        }
    } else {
        let c = s[i];
        if escaped {
            quoted_args_spec(s, i + 1, in_quote, false, cur.push(c), args)
        } else if c == '\\' {
            quoted_args_spec(s, i + 1, in_quote, true, cur, args)
        } else if c == '"' {
            quoted_args_spec(s, i + 1, !in_quote, false, cur, args)
        } else if c == ' ' && !in_quote {
            if cur.len() > 0 {
                quoted_args_spec(s, i + 1, in_quote, false, Seq::<char>::empty(), args.push(cur))
            } else {
                quoted_args_spec(s, i + 1, in_quote, false, cur, args)
            }
        } else {
            quoted_args_spec(s, i + 1, in_quote, false, cur.push(c), args)
        }
    }
}

/// The arguments of `s`, split on unquoted spaces, with quoting and
/// backslash escapes.
pub open spec fn parse_quoted_args_spec(s: Seq<char>) -> Seq<Seq<char>> {
    quoted_args_spec(s, 0, false, false, Seq::<char>::empty(), Seq::<Seq<char>>::empty())
}

/// Splits `input` into arguments on spaces, honouring double quotes and
/// backslash escapes; quotes and escape characters are consumed.
pub fn parse_quoted_args(input: &str) -> (r: Vec<String>)
    ensures
        r.deep_view() == parse_quoted_args_spec(input@),
{
    let v = chars_of(input);
    let n = v.len();
    let mut args: Vec<String> = Vec::new();
    let mut cur: Vec<char> = Vec::new();
    let mut in_quote: bool = false;
    let mut escaped: bool = false;
    let mut i: usize = 0;
    proof {
        assert(args.deep_view() =~= Seq::<Seq<char>>::empty());
    }
    while i < n
        invariant
            i <= n,
            n == v@.len(),
            quoted_args_spec(v@, i as int, in_quote, escaped, cur@, args.deep_view())
                == parse_quoted_args_spec(v@),
        decreases n - i,
    {
        let ghost args0 = args.deep_view();
        let c = v[i];
        if escaped {
            cur.push(c);
            escaped = false;
        } else if c == '\\' {
            escaped = true;
        } else if c == '"' {
            in_quote = !in_quote;
        } else if c == ' ' && !in_quote {
            if cur.len() > 0 {
                let done = string_of(&cur);
                args.push(done);
                cur = Vec::new();
                proof {
                    assert(args.deep_view() =~= args0.push(done@));
                }
            }
        } else {
            cur.push(c);
        }
        i = i + 1;
    }
    if cur.len() > 0 {
        let ghost args0 = args.deep_view();
        let done = string_of(&cur);
        args.push(done);
        proof {
            assert(args.deep_view() =~= args0.push(done@));
        }
    }
    args
}

/// The shrug text: the emoticon alone, or the arguments followed by it.
pub open spec fn shrug_spec(args: Seq<char>) -> Seq<char> {
    if args.len() == 0 {
        "\u{AF}\\_(\u{30C4})_/\u{AF}"@
    } else {
        args + " \u{AF}\\_(\u{30C4})_/\u{AF}"@
    }
}

/// The command name and trimmed argument text of a command body (the text
/// after the leading slash): split at the first space if there is one,
/// otherwise the whole body, trimmed, with no arguments.
pub open spec fn cmd_name_spec(body: Seq<char>) -> Seq<char> {
    match find_char_spec(body, ' ') {
        Some(k) => body.subrange(0, k),
        None => trim_spec(body),
    }
}

/// The trimmed argument text of a command body; empty when the body has no
/// space.
pub open spec fn cmd_args_spec(body: Seq<char>) -> Seq<char> {
    match find_char_spec(body, ' ') {
        Some(k) => trim_spec(body.subrange(k + 1, body.len() as int)),
        None => Seq::<char>::empty(),
    }
}

/// Classifies outgoing text: text not starting with a slash, text escaped
/// by a double slash, the rewriting shrug command, and unknown commands
/// all remain text to send; join, invite and poll become operations.
pub fn prepare_slash_command(text: &str) -> (r: SlashCommand)
    ensures
        !seq_starts_with(text@, "/"@) ==> (r matches SlashCommand::Text(t) && t@ == text@),
        seq_starts_with(text@, "//"@) ==> (r matches SlashCommand::Text(t) && t@
            == text@.drop_first()),
        seq_starts_with(text@, "/"@) && !seq_starts_with(text@, "//"@) ==> ({
            let cmd = cmd_name_spec(text@.drop_first());
            let args = cmd_args_spec(text@.drop_first());
            &&& cmd == "shrug"@ ==> (r matches SlashCommand::Text(t) && t@ == shrug_spec(args))
            &&& cmd == "join"@ ==> (r matches SlashCommand::Join(a) && a@ == args)
            &&& cmd == "invite"@ ==> (r matches SlashCommand::Invite(a) && a@ == args)
            &&& cmd == "poll"@ && parse_quoted_args_spec(args).len() < 3 ==> (r
                matches SlashCommand::PollUsage)
            &&& cmd == "poll"@ && parse_quoted_args_spec(args).len() >= 3 ==> (r
                matches SlashCommand::Poll(p) && p.deep_view() == parse_quoted_args_spec(args))
            &&& cmd != "shrug"@ && cmd != "join"@ && cmd != "invite"@ && cmd != "poll"@ ==> (r
                matches SlashCommand::Text(t) && t@ == text@)
        }),
{
    proof {
        reveal_strlit("/");
        reveal_strlit("//");
        reveal_strlit("shrug");
        reveal_strlit("join");
        reveal_strlit("invite");
        reveal_strlit("poll");
        assert("join"@[0] == 'j' && "poll"@[0] == 'p');
        assert("join"@ != "poll"@);
    }
    let v = chars_of(text);
    if !starts_with(&v, &chars_of("/")) {
        proof {
            if seq_starts_with(text@, "//"@) {
                assert(text@[0] == "//"@[0]);
                assert(text@.subrange(0, 1) =~= "/"@);
            }
        }
        return SlashCommand::Text(string_of(&v));
    }
    if starts_with(&v, &chars_of("//")) {
        let rest = subvec(&v, 1, v.len());
        proof {
            assert(rest@ =~= text@.drop_first());
        }
        return SlashCommand::Text(string_of(&rest));
    }
    let body = subvec(&v, 1, v.len());
    proof {
        assert(body@ =~= text@.drop_first());
    }
    let found = find_char(&body, ' ');
    let cmd: Vec<char>;
    let args: Vec<char>;
    match found {
        Some(k) => {
            proof {
                lemma_find_char_spec(body@, ' ');
            }
            cmd = subvec(&body, 0, k);
            let tail = subvec(&body, k + 1, body.len());
            args = trim_chars(&tail);
        },
        None => {
            cmd = trim_chars(&body);
            args = Vec::new();
        },
    }
    proof {
        assert(cmd@ == cmd_name_spec(text@.drop_first()));
        assert(args@ == cmd_args_spec(text@.drop_first()));
    }
    if chars_eq(&cmd, &chars_of("shrug")) {
        if args.len() == 0 {
            let t = chars_of("\u{AF}\\_(\u{30C4})_/\u{AF}");
            return SlashCommand::Text(string_of(&t));
        } else {
            let mut t = args;
            push_all(&mut t, &chars_of(" \u{AF}\\_(\u{30C4})_/\u{AF}"));
            return SlashCommand::Text(string_of(&t));
        }
    }
    if chars_eq(&cmd, &chars_of("join")) {
        return SlashCommand::Join(string_of(&args));
    }
    if chars_eq(&cmd, &chars_of("invite")) {
        return SlashCommand::Invite(string_of(&args));
    }
    if chars_eq(&cmd, &chars_of("poll")) {
        let args_s = string_of(&args);
        let parts = parse_quoted_args(args_s.as_str());
        if parts.len() < 3 {
            return SlashCommand::PollUsage;
        }
        return SlashCommand::Poll(parts);
    }
    SlashCommand::Text(string_of(&v))
}

/// What the host does with a classified command: plain text is still sent,
/// everything else was handled as an operation.
pub fn command_result_for(plan: SlashCommand) -> (r: CommandResult)
    ensures
        match plan {
            SlashCommand::Text(t) => r matches CommandResult::Continue(u) && u@ == t@,
            _ => r matches CommandResult::Handled,
        },
{
    match plan {
        SlashCommand::Text(t) => CommandResult::Continue(t),
        _ => CommandResult::Handled,
    }
}

} // verus!
