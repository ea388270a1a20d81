use chatlog::context::{create_request, Request, MODEL, TOKEN_BUDGET};
use chatlog::entry::{Log, Message};

fn log(role: &str, content: &str, tokens: i64) -> Log {
    Log::new(role.to_string(), content.to_string(), tokens)
}

fn msg(role: &str, content: &str) -> Message {
    Message { role: role.to_string(), content: content.to_string() }
}

#[test]
fn truncation_drops_oldest_over_budget() {
    let history = vec![log("user", "a", 500), log("assistant", "b", 800), log("user", "c", 900)];
    let r = create_request(&history, &"next".to_string());
    assert_eq!(
        r,
        Request {
            model: "gpt-3.5-turbo".to_string(),
            messages: vec![msg("assistant", "b"), msg("user", "c"), msg("user", "next")],
        }
    );
    assert_eq!(history.len(), 3);
}

#[test]
fn empty_history_gives_single_prompt() {
    let r = create_request(&Vec::new(), &"hello there".to_string());
    assert_eq!(r.messages, vec![msg("user", "hello there")]);
    assert_eq!(r.model, MODEL);
}

#[test]
fn prompt_always_last_and_user() {
    let history = vec![log("user", "q", 10), log("assistant", "a", 20)];
    let r = create_request(&history, &"again".to_string());
    assert_eq!(r.messages.len(), 3);
    assert_eq!(r.messages.last(), Some(&msg("user", "again")));
    assert_eq!(r.messages[0], msg("user", "q"));
    assert_eq!(r.messages[1], msg("assistant", "a"));
}

#[test]
fn single_oversized_entry_is_dropped() {
    let history = vec![log("assistant", "long", 2001)];
    let r = create_request(&history, &"p".to_string());
    assert_eq!(r.messages, vec![msg("user", "p")]);
}

#[test]
fn entry_exactly_at_budget_is_kept() {
    let history = vec![log("user", "x", 1), log("assistant", "full", TOKEN_BUDGET)];
    let r = create_request(&history, &"p".to_string());
    assert_eq!(r.messages, vec![msg("assistant", "full"), msg("user", "p")]);
}

#[test]
fn walk_stops_at_first_entry_over_budget() {
    // The 1-token oldest entry would fit, but the walk has already stopped.
    let history = vec![log("user", "old", 1), log("user", "big", 1500), log("user", "new", 1000)];
    let r = create_request(&history, &"p".to_string());
    assert_eq!(r.messages, vec![msg("user", "new"), msg("user", "p")]);
}

#[test]
fn to_message_strips_tokens() {
    assert_eq!(log("system", "s", 7).to_message(), msg("system", "s"));
}

#[test]
fn request_body_is_model_and_messages() {
    let r = create_request(&vec![log("assistant", "a\"b", 3)], &"q".to_string());
    assert_eq!(
        chatlog::codec::encode_request(&r),
        "{\"model\":\"gpt-3.5-turbo\",\"messages\":[{\"role\":\"assistant\",\"content\":\"a\\\"b\"},{\"role\":\"user\",\"content\":\"q\"}]}"
    );
}
