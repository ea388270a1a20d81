//! The context builder: the newest stored turns that fit the token budget,
//! in chronological order, followed by the new prompt.
use vstd::prelude::*;
use crate::entry::{Log, LogView, Message, MessageView, logs_view, messages_view};

verus! {

/// The most tokens of stored history sent along with a prompt.
pub const TOKEN_BUDGET: i64 = 2000;

/// The completion model every request names.
pub const MODEL: &'static str = "gpt-3.5-turbo";

/// A completion request: the model and the messages sent to it.
#[derive(Clone, Debug, PartialEq, Eq)]
pub struct Request {
    pub model: String,
    pub messages: Vec<Message>,
}

/// How many of the newest turns fit in `budget`: walking from the newest,
/// each turn is taken while the running total stays within the budget, and
/// the walk stops at the first turn that would exceed it.
pub open spec fn kept_count(logs: Seq<LogView>, budget: int) -> nat
    decreases logs.len(),
{
    if logs.len() == 0 {
        0
    } else if logs.last().tokens > budget {
        0
    } else {
        1 + kept_count(logs.drop_last(), budget - logs.last().tokens)
    }
}

/// The message that carries a new prompt.
pub open spec fn prompt_message(prompt: Seq<char>) -> MessageView {
    MessageView { role: "user"@, content: prompt }
}

/// The messages sent for `prompt` after the history `logs`.
pub open spec fn context_messages(logs: Seq<LogView>, prompt: Seq<char>) -> Seq<MessageView> {
    let k = kept_count(logs, TOKEN_BUDGET as int);
    logs.subrange(logs.len() - k, logs.len() as int).map_values(|l: LogView| l.message()).push(
        prompt_message(prompt),
    )
}

/// At most every turn is kept.
pub proof fn lemma_kept_count_bounded(logs: Seq<LogView>, budget: int)
    ensures
        kept_count(logs, budget) <= logs.len(),
    decreases logs.len(),
{
    if logs.len() > 0 && logs.last().tokens <= budget {
        lemma_kept_count_bounded(logs.drop_last(), budget - logs.last().tokens);
    }
}

/// Builds the request for `prompt` from the stored history. Only what is sent
/// is bounded: the history itself is left as it is.
pub fn create_request(history: &Vec<Log>, prompt: &String) -> (r: Request)
    ensures
        r.model@ == MODEL@,
        messages_view(r.messages@) == context_messages(logs_view(history@), prompt@),
        r.messages@.len() == kept_count(logs_view(history@), TOKEN_BUDGET as int) + 1,
        r.messages@.last()@ == prompt_message(prompt@),
        history@.len() == 0 ==> r.messages@.len() == 1,
{
    let ghost lv = logs_view(history@);
    let n = history.len();
    let mut kept: usize = 0;
    let mut total: i128 = 0;
    assert(lv.subrange(0, n as int) =~= lv);
    while kept < n
        invariant_except_break
            n == history@.len(),
            lv == logs_view(history@),
            kept <= n,
            total <= TOKEN_BUDGET,
            total >= -(kept as int) * 0x8000_0000_0000_0000,
            kept_count(lv, TOKEN_BUDGET as int) == kept + kept_count(
                lv.subrange(0, n - kept),
                TOKEN_BUDGET - total,
            ),
        ensures
            kept <= n,
            kept_count(lv, TOKEN_BUDGET as int) == kept,
        decreases n - kept,
    {
        let ghost s = lv.subrange(0, n - kept);
        let t = history[n - 1 - kept].tokens as i128;
        assert(s.last() == lv[n - 1 - kept]);
        if total + t > TOKEN_BUDGET as i128 {
            break;
        }
        assert(s.drop_last() =~= lv.subrange(0, n - kept - 1));
        total = total + t;
        kept = kept + 1;
    }
    let mut messages: Vec<Message> = Vec::new();
    let mut i: usize = n - kept;
    while i < n
        invariant
            n == history@.len(),
            lv == logs_view(history@),
            kept <= n,
            n - kept <= i <= n,
            messages_view(messages@) =~= lv.subrange(n - kept, i as int).map_values(
                |l: LogView| l.message(),
            ),
        decreases n - i,
    {
        let m = history[i].to_message();
        let ghost before = messages@;
        messages.push(m);
        assert(messages_view(messages@) =~= messages_view(before).push(m@));
        assert(lv.subrange(n - kept, i + 1) =~= lv.subrange(n - kept, i as int).push(lv[i as int]));
        i = i + 1;
    }
    let user = Message { role: "user".to_string(), content: prompt.clone() };
    messages.push(user);
    proof {
        lemma_kept_count_bounded(lv, TOKEN_BUDGET as int);
        assert(messages_view(messages@) =~= context_messages(lv, prompt@));
    }
    Request { model: MODEL.to_string(), messages }
}

} // verus!
