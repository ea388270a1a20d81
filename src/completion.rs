//! Interpreting the body of a completion reply.
use vstd::prelude::*;
use crate::json::{
    first_str_at, json_first_str_at, json_i64_at, json_object_at, json_parses, json_str_at, opt_view,
    i64_at, object_at, parses, str_at,
};

verus! {

/// A successful completion: the reply and the tokens billed on each side.
#[derive(Clone, Debug, PartialEq, Eq)]
pub struct Completion {
    pub content: String,
    pub prompt_tokens: i64,
    pub completion_tokens: i64,
}

/// A field that a reply lacked, or held with an unexpected type.
#[derive(Clone, Copy, Debug, PartialEq, Eq)]
pub enum MissingField {
    ErrorMessage,
    PromptTokens,
    CompletionTokens,
    Content,
}

/// Why a reply gave no completion.
#[derive(Clone, Debug, PartialEq, Eq)]
pub enum CompletionError {
    /// The reply is not JSON.
    NotJson,
    /// The service answered with an error object carrying this message.
    Api(String),
    /// The reply lacked a field that it needs.
    Malformed(MissingField),
}

/// What a reply holds at the places that matter.
#[derive(Clone, Debug, PartialEq, Eq)]
pub struct ResponseFields {
    /// The body parses as JSON.
    pub is_json: bool,
    /// `error` is an object.
    pub error_is_object: bool,
    /// `error.message`, when a string.
    pub error_message: Option<String>,
    /// `usage.prompt_tokens`, when an integer.
    pub prompt_tokens: Option<i64>,
    /// `usage.completion_tokens`, when an integer.
    pub completion_tokens: Option<i64>,
    /// `message.content` of the first element of the array `choices`, when a
    /// string.
    pub content: Option<String>,
}

/// The outcome a reply with these fields stands for: text that is not JSON
/// is reported as such; then an error object wins;
/// otherwise the first missing field, in the order tokens sent, tokens
/// received, content, is reported.
pub open spec fn outcome(f: ResponseFields) -> Result<Completion, CompletionError> {
    if !f.is_json {
        Err(CompletionError::NotJson)
    } else if f.error_is_object {
        match f.error_message {
            Some(m) => Err(CompletionError::Api(m)),
            None => Err(CompletionError::Malformed(MissingField::ErrorMessage)),
        }
    } else if f.prompt_tokens is None {
        Err(CompletionError::Malformed(MissingField::PromptTokens))
    } else if f.completion_tokens is None {
        Err(CompletionError::Malformed(MissingField::CompletionTokens))
    } else if f.content is None {
        Err(CompletionError::Malformed(MissingField::Content))
    } else {
        Ok(
            Completion {
                content: f.content->Some_0,
                prompt_tokens: f.prompt_tokens->Some_0,
                completion_tokens: f.completion_tokens->Some_0,
            },
        )
    }
}

/// The fields of the reply text `body`, as serde_json reads them.
pub open spec fn fields_of(f: ResponseFields, body: Seq<char>) -> bool {
    &&& f.is_json == json_parses(body)
    &&& f.error_is_object == json_object_at(body, "/error"@)
    &&& opt_view(f.error_message) == json_str_at(body, "/error/message"@)
    &&& f.prompt_tokens == json_i64_at(body, "/usage/prompt_tokens"@)
    &&& f.completion_tokens == json_i64_at(body, "/usage/completion_tokens"@)
    &&& opt_view(f.content) == json_first_str_at(body, "/choices"@, "/message/content"@)
}

/// Decides what a reply's fields amount to.
pub fn interpret_response(f: ResponseFields) -> (r: Result<Completion, CompletionError>)
    ensures
        r == outcome(f),
{
    if !f.is_json {
        return Err(CompletionError::NotJson);
    }
    if f.error_is_object {
        return match f.error_message {
            Some(m) => Err(CompletionError::Api(m)),
            None => Err(CompletionError::Malformed(MissingField::ErrorMessage)),
        };
    }
    match (f.prompt_tokens, f.completion_tokens, f.content) {
        (None, _, _) => Err(CompletionError::Malformed(MissingField::PromptTokens)),
        (Some(_), None, _) => Err(CompletionError::Malformed(MissingField::CompletionTokens)),
        (Some(_), Some(_), None) => Err(CompletionError::Malformed(MissingField::Content)),
        (Some(p), Some(c), Some(content)) => Ok(
            Completion { content, prompt_tokens: p, completion_tokens: c },
        ),
    }
}

/// Reads the fields of a reply body.
pub fn response_fields(body: &str) -> (r: ResponseFields)
    ensures
        fields_of(r, body@),
{
    ResponseFields {
        is_json: parses(body),
        error_is_object: object_at(body, "/error"),
        error_message: str_at(body, "/error/message"),
        prompt_tokens: i64_at(body, "/usage/prompt_tokens"),
        completion_tokens: i64_at(body, "/usage/completion_tokens"),
        content: first_str_at(body, "/choices", "/message/content"),
    }
}

/// Reads a reply body: the completion it carries, or why it carries none.
pub fn read_response(body: &str) -> (r: Result<Completion, CompletionError>)
    ensures
        exists|f: ResponseFields| fields_of(f, body@) && r == outcome(f),
        !json_parses(body@) ==> r == Err::<Completion, CompletionError>(CompletionError::NotJson),
        json_object_at(body@, "/error"@) ==> r is Err,
        json_parses(body@) && json_object_at(body@, "/error"@) && json_str_at(body@, "/error/message"@) is Some
            ==> (r matches Err(CompletionError::Api(m)) && Some(m@) == json_str_at(
            body@,
            "/error/message"@,
        )),
{
    let f = response_fields(body);
    let ghost g = f;
    let r = interpret_response(f);
    assert(fields_of(g, body@) && r == outcome(g));
    r
}

} // verus!
