//! The conversation file's text: a JSON array of
//! `{"role": .., "content": .., "tokens": ..}` objects, oldest first.
use vstd::prelude::*;
use vstd::string::StringExecFns;
use crate::decimal::{push_signed_decimal, signed_decimal};
use crate::context::Request;
use crate::entry::{Log, LogView, MessageView, logs_view, messages_view};
use crate::json::{
    opt_view,
    array_field_i64s, array_field_strs, field_pointer, json_array_len, json_i64_at, json_quote,
    json_str_at, field_key, quote,
};

verus! {

/// Why a conversation file's text could not be read as a history.
#[derive(Clone, Copy, Debug, PartialEq, Eq)]
pub enum HistoryError {
    /// The text is not a JSON array.
    NotAnArray,
    /// The element at this index lacks a string `role`, a string `content`
    /// or an integer `tokens`.
    BadEntry(usize),
}

/// The text of one stored turn.
pub open spec fn entry_text(e: LogView) -> Seq<char> {
    "{\"role\":"@ + json_quote(e.role) + ",\"content\":"@ + json_quote(e.content) + ",\"tokens\":"@
        + signed_decimal(e.tokens as int) + "}"@
}

/// The texts of stored turns, separated by commas.
pub open spec fn entries_text(s: Seq<LogView>) -> Seq<char>
    decreases s.len(),
{
    if s.len() == 0 {
        Seq::empty()
    } else if s.len() == 1 {
        entry_text(s[0])
    } else {
        entries_text(s.drop_last()) + ","@ + entry_text(s.last())
    }
}

/// The text of a whole history.
pub open spec fn history_text(s: Seq<LogView>) -> Seq<char> {
    "["@ + entries_text(s) + "]"@
}

/// The text of one message.
pub open spec fn message_text(m: MessageView) -> Seq<char> {
    "{\"role\":"@ + json_quote(m.role) + ",\"content\":"@ + json_quote(m.content) + "}"@
}

/// The texts of messages, separated by commas.
pub open spec fn messages_text(s: Seq<MessageView>) -> Seq<char>
    decreases s.len(),
{
    if s.len() == 0 {
        Seq::empty()
    } else if s.len() == 1 {
        message_text(s[0])
    } else {
        messages_text(s.drop_last()) + ","@ + message_text(s.last())
    }
}

/// The body of a completion request.
pub open spec fn request_text(model: Seq<char>, messages: Seq<MessageView>) -> Seq<char> {
    "{\"model\":"@ + json_quote(model) + ",\"messages\":["@ + messages_text(messages) + "]}"@
}

/// The stored turn at `index` of the text, when its three fields are there.
pub open spec fn entry_at(text: Seq<char>, index: nat) -> Option<LogView> {
    match (
        json_str_at(text, field_pointer(index, "role"@)),
        json_str_at(text, field_pointer(index, "content"@)),
        json_i64_at(text, field_pointer(index, "tokens"@)),
    ) {
        (Some(role), Some(content), Some(tokens)) => Some(LogView { role, content, tokens }),
        _ => None,
    }
}

/// Writes a history as the conversation file's text.
pub fn encode_history(entries: &Vec<Log>) -> (r: String)
    ensures
        r@ == history_text(logs_view(entries@)),
{
    let ghost lv = logs_view(entries@);
    let mut out = String::from_str("[");
    let mut i: usize = 0;
    while i < entries.len()
        invariant
            lv == logs_view(entries@),
            i <= entries@.len(),
            out@ == "["@ + entries_text(lv.subrange(0, i as int)),
        decreases entries@.len() - i,
    {
        if i > 0 {
            out.append(",");
        }
        let e = &entries[i];
        out.append("{\"role\":");
        out.append(quote(e.role.as_str()).as_str());
        out.append(",\"content\":");
        out.append(quote(e.content.as_str()).as_str());
        out.append(",\"tokens\":");
        push_signed_decimal(&mut out, e.tokens);
        out.append("}");
        proof {
            let s = lv.subrange(0, i + 1);
            assert(s.drop_last() =~= lv.subrange(0, i as int));
            assert(s.last() == e@);
            assert(out@ =~= "["@ + entries_text(s));
        }
        i = i + 1;
    }
    out.append("]");
    assert(lv.subrange(0, entries@.len() as int) =~= lv);
    out
}

/// Writes a completion request as the JSON body sent to the endpoint.
pub fn encode_request(request: &Request) -> (r: String)
    ensures
        r@ == request_text(request.model@, messages_view(request.messages@)),
{
    let ghost mv = messages_view(request.messages@);
    let mut out = String::from_str("{\"model\":");
    out.append(quote(request.model.as_str()).as_str());
    out.append(",\"messages\":[");
    let ghost head = out@;
    let mut i: usize = 0;
    while i < request.messages.len()
        invariant
            mv == messages_view(request.messages@),
            i <= request.messages@.len(),
            out@ == head + messages_text(mv.subrange(0, i as int)),
        decreases request.messages@.len() - i,
    {
        if i > 0 {
            out.append(",");
        }
        let m = &request.messages[i];
        out.append("{\"role\":");
        out.append(quote(m.role.as_str()).as_str());
        out.append(",\"content\":");
        out.append(quote(m.content.as_str()).as_str());
        out.append("}");
        proof {
            let s = mv.subrange(0, i + 1);
            assert(s.drop_last() =~= mv.subrange(0, i as int));
            assert(s.last() == m@);
            assert(out@ =~= head + messages_text(s));
        }
        i = i + 1;
    }
    out.append("]}");
    assert(mv.subrange(0, request.messages@.len() as int) =~= mv);
    assert(out@ =~= request_text(request.model@, mv));
    out
}

/// Reads the conversation file's text. Empty text is an empty history;
/// otherwise the text must be a JSON array whose every element has a string
/// `role`, a string `content` and an integer `tokens`.
pub fn decode_history(text: &str) -> (r: Result<Vec<Log>, HistoryError>)
    ensures
        text@.len() == 0 ==> (r matches Ok(v) && v@.len() == 0),
        text@.len() > 0 ==> (json_array_len(text@) is None <==> r == Err::<Vec<Log>, HistoryError>(
            HistoryError::NotAnArray,
        )),
        text@.len() > 0 && r is Ok ==> json_array_len(text@) == Some(r->Ok_0.len()) && forall|
            i: int,
        | 0 <= i < r->Ok_0@.len() ==> entry_at(text@, i as nat) == Some(#[trigger] r->Ok_0@[i]@),
        r matches Err(HistoryError::BadEntry(i)) ==> {
            &&& text@.len() > 0
            &&& json_array_len(text@) matches Some(n) && i < n
            &&& entry_at(text@, i as nat) is None
            &&& forall|j: nat| j < i ==> #[trigger] entry_at(text@, j) is Some
        },
{
    let mut entries: Vec<Log> = Vec::new();
    if text.is_empty() {
        return Ok(entries);
    }
    proof {
        reveal_strlit("role");
        reveal_strlit("content");
        reveal_strlit("tokens");
    }
    assert(field_key("role"@) && field_key("content"@) && field_key("tokens"@)) by {
        assert(forall|k: int| 0 <= k < "role"@.len() ==> #[trigger] "role"@[k] != '/' && "role"@[k] != '~');
        assert(forall|k: int| 0 <= k < "content"@.len() ==> #[trigger] "content"@[k] != '/' && "content"@[k] != '~');
        assert(forall|k: int| 0 <= k < "tokens"@.len() ==> #[trigger] "tokens"@[k] != '/' && "tokens"@[k] != '~');
    }
    let roles = match array_field_strs(text, "role") {
        Some(v) => v,
        None => return Err(HistoryError::NotAnArray),
    };
    let contents = array_field_strs(text, "content").unwrap();
    let tokens = array_field_i64s(text, "tokens").unwrap();
    let n = roles.len();
    let mut i: usize = 0;
    while i < n
        invariant
            text@.len() > 0,
            json_array_len(text@) == Some(n),
            n == roles@.len() && n == contents@.len() && n == tokens@.len(),
            forall|j: int| 0 <= j < n ==> opt_view(#[trigger] roles@[j]) == json_str_at(text@, field_pointer(j as nat, "role"@)),
            forall|j: int| 0 <= j < n ==> opt_view(#[trigger] contents@[j]) == json_str_at(text@, field_pointer(j as nat, "content"@)),
            forall|j: int| 0 <= j < n ==> #[trigger] tokens@[j] == json_i64_at(text@, field_pointer(j as nat, "tokens"@)),
            i <= n,
            entries@.len() == i,
            forall|j: int| 0 <= j < i ==> entry_at(text@, j as nat) == Some(#[trigger] entries@[j]@),
        decreases n - i,
    {
        match (&roles[i], &contents[i], tokens[i]) {
            (Some(role), Some(content), Some(t)) => {
                entries.push(Log { role: role.clone(), content: content.clone(), tokens: t });
            },
            _ => {
                assert forall|j: nat| j < i implies #[trigger] entry_at(text@, j) is Some by {
                    assert(entry_at(text@, j as int as nat) == Some(entries@[j as int]@));
                }
                return Err(HistoryError::BadEntry(i));
            },
        }
        i = i + 1;
    }
    Ok(entries)
}

} // verus!
