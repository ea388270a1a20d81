//! The command dispatcher's decisions: which command the arguments name, and
//! what history is written back after a reply.
use vstd::prelude::*;
use vstd::string::StringExecFns;
use crate::completion::{Completion, CompletionError, ResponseFields, fields_of, outcome};
use crate::entry::{Log, LogView, logs_view};
use crate::json::json_object_at;

verus! {

/// What the command line asks for.
#[derive(Clone, Debug, PartialEq, Eq)]
pub enum Command {
    /// Start a new conversation file; no request is sent.
    Reset,
    /// Send this prompt in the current conversation.
    Prompt(String),
}

/// Words joined by single spaces.
pub open spec fn joined(words: Seq<Seq<char>>) -> Seq<char>
    decreases words.len(),
{
    if words.len() == 0 {
        Seq::empty()
    } else if words.len() == 1 {
        words[0]
    } else {
        joined(words.drop_last()) + " "@ + words.last()
    }
}

/// The models of a sequence of strings.
pub open spec fn strings_view(words: Seq<String>) -> Seq<Seq<char>> {
    words.map_values(|w: String| w@)
}

/// Joins the words by single spaces.
pub fn join_words(words: &Vec<String>) -> (r: String)
    ensures
        r@ == joined(strings_view(words@)),
{
    let ghost wv = strings_view(words@);
    let mut out = String::new();
    let mut i: usize = 0;
    while i < words.len()
        invariant
            wv == strings_view(words@),
            i <= words@.len(),
            out@ == joined(wv.subrange(0, i as int)),
        decreases words@.len() - i,
    {
        if i > 0 {
            out.append(" ");
        }
        out.append(words[i].as_str());
        proof {
            let s = wv.subrange(0, i + 1);
            assert(s.drop_last() =~= wv.subrange(0, i as int));
            assert(out@ =~= joined(s));
        }
        i = i + 1;
    }
    assert(wv.subrange(0, words@.len() as int) =~= wv);
    out
}

/// Reads the command-line arguments (the program's name left out). A first
/// argument `reset` asks for a new conversation; any other arguments, joined
/// by spaces, are the prompt. `None` when there are no arguments.
pub fn parse_command(args: &Vec<String>) -> (r: Option<Command>)
    ensures
        r is None <==> args@.len() == 0,
        args@.len() > 0 && args@[0]@ == "reset"@ ==> r == Some(Command::Reset),
        args@.len() > 0 && args@[0]@ != "reset"@ ==> (r matches Some(Command::Prompt(p)) && p@
            == joined(strings_view(args@))),
{
    if args.len() == 0 {
        return None;
    }
    let reset = String::from_str("reset");
    if args[0] == reset {
        Some(Command::Reset)
    } else {
        Some(Command::Prompt(join_words(args)))
    }
}

/// The two turns a completed exchange adds to the history.
pub open spec fn exchange(prompt: Seq<char>, c: Completion) -> Seq<LogView> {
    seq![
        LogView { role: "user"@, content: prompt, tokens: c.prompt_tokens },
        LogView { role: "assistant"@, content: c.content@, tokens: c.completion_tokens },
    ]
}

/// The history to write back after `reply`: the old one with the exchange
/// added, or nothing to write when the reply gave no completion.
pub open spec fn saved_history(
    history: Seq<LogView>,
    prompt: Seq<char>,
    reply: Result<Completion, CompletionError>,
) -> Option<Seq<LogView>> {
    match reply {
        Ok(c) => Some(history + exchange(prompt, c)),
        Err(_) => None,
    }
}

/// Adds the prompt and the reply to the history, each with its token count.
pub fn record_exchange(history: &mut Vec<Log>, prompt: String, reply: Completion)
    ensures
        logs_view(final(history)@) == logs_view(old(history)@) + exchange(prompt@, reply),
{
    let ghost before = history@;
    let ghost c = reply;
    history.push(Log { role: String::from_str("user"), content: prompt, tokens: reply.prompt_tokens });
    history.push(
        Log {
            role: String::from_str("assistant"),
            content: reply.content,
            tokens: reply.completion_tokens,
        },
    );
    assert(logs_view(history@) =~= logs_view(before) + exchange(prompt@, c));
}

/// The history to write back after `reply`, or `None` when the file is to be
/// left as it is.
pub fn history_to_save(
    history: Vec<Log>,
    prompt: String,
    reply: Result<Completion, CompletionError>,
) -> (r: Option<Vec<Log>>)
    ensures
        reply is Err <==> r is None,
        r matches Some(v) ==> Some(logs_view(v@)) == saved_history(
            logs_view(history@),
            prompt@,
            reply,
        ),
{
    match reply {
        Ok(c) => {
            let mut h = history;
            record_exchange(&mut h, prompt, c);
            Some(h)
        },
        Err(_) => None,
    }
}

/// A reply whose `error` is an object leaves the history file untouched,
/// whatever else it holds.
pub proof fn lemma_error_reply_keeps_history(
    body: Seq<char>,
    f: ResponseFields,
    history: Seq<LogView>,
    prompt: Seq<char>,
)
    requires
        json_object_at(body, "/error"@),
        fields_of(f, body),
    ensures
        outcome(f) is Err,
        saved_history(history, prompt, outcome(f)) is None,
{
}

} // verus!
