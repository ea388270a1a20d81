//! Stored conversation turns and the role/content messages sent on the wire.
use vstd::prelude::*;

verus! {

/// One stored turn of a conversation, with the tokens billed for it.
#[derive(Clone, Debug, PartialEq, Eq)]
pub struct Log {
    pub role: String,
    pub content: String,
    pub tokens: i64,
}

/// A role/content pair, as sent to the completion endpoint.
#[derive(Clone, Debug, PartialEq, Eq)]
pub struct Message {
    pub role: String,
    pub content: String,
}

/// Mathematical model of a `Log`.
pub struct LogView {
    pub role: Seq<char>,
    pub content: Seq<char>,
    pub tokens: i64,
}

/// Mathematical model of a `Message`.
pub struct MessageView {
    pub role: Seq<char>,
    pub content: Seq<char>,
}

impl LogView {
    /// The message a stored turn becomes once its token count is stripped.
    pub open spec fn message(self) -> MessageView {
        MessageView { role: self.role, content: self.content }
    }
}

impl View for Log {
    type V = LogView;

    open spec fn view(&self) -> LogView {
        LogView { role: self.role@, content: self.content@, tokens: self.tokens }
    }
}

impl View for Message {
    type V = MessageView;

    open spec fn view(&self) -> MessageView {
        MessageView { role: self.role@, content: self.content@ }
    }
}

/// The models of a sequence of stored turns.
pub open spec fn logs_view(logs: Seq<Log>) -> Seq<LogView> {
    logs.map_values(|l: Log| l@)
}

/// The models of a sequence of messages.
pub open spec fn messages_view(messages: Seq<Message>) -> Seq<MessageView> {
    messages.map_values(|m: Message| m@)
}

impl Log {
    /// Builds a stored turn.
    pub fn new(role: String, content: String, tokens: i64) -> (r: Log)
        ensures
            r.role == role,
            r.content == content,
            r.tokens == tokens,
    {
        Log { role, content, tokens }
    }

    /// The message this turn is sent as: role and content, without the token count.
    pub fn to_message(&self) -> (r: Message)
        ensures
            r@ == self@.message(),
    {
        Message { role: self.role.clone(), content: self.content.clone() }
    }
}

} // verus!
