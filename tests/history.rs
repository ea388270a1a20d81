use chatlog::codec::{decode_history, encode_history, HistoryError};
use chatlog::decimal::{push_decimal, push_signed_decimal};
use chatlog::dispatch::{history_to_save, record_exchange};
use chatlog::completion::{Completion, CompletionError};
use chatlog::entry::Log;
use chatlog::store::{conversation_file_name, locate_current};

fn log(role: &str, content: &str, tokens: i64) -> Log {
    Log::new(role.to_string(), content.to_string(), tokens)
}

#[test]
fn encode_writes_compact_array() {
    let text = encode_history(&vec![log("user", "hi", 5), log("assistant", "yo \"there\"", -3)]);
    assert_eq!(
        text,
        "[{\"role\":\"user\",\"content\":\"hi\",\"tokens\":5},{\"role\":\"assistant\",\"content\":\"yo \\\"there\\\"\",\"tokens\":-3}]"
    );
    assert_eq!(encode_history(&Vec::new()), "[]");
}

#[test]
fn round_trip_keeps_entries() {
    let entries = vec![
        log("user", "line\nbreak", 12),
        log("assistant", "ünïcode \\ slash", 0),
        log("user", "", i64::MAX),
        log("assistant", "min", i64::MIN),
    ];
    assert_eq!(decode_history(&encode_history(&entries)), Ok(entries));
}

#[test]
fn round_trip_of_empty_history() {
    let entries: Vec<Log> = Vec::new();
    assert_eq!(decode_history(&encode_history(&entries)), Ok(entries));
}

#[test]
fn decode_empty_text_is_empty_history() {
    assert_eq!(decode_history(""), Ok(Vec::new()));
}

#[test]
fn decode_accepts_any_key_order_and_spacing() {
    let text = "[ {\"content\": \"c\", \"role\": \"user\", \"tokens\": 3} ]";
    assert_eq!(decode_history(text), Ok(vec![log("user", "c", 3)]));
}

#[test]
fn encode_escapes_control_characters() {
    let text = encode_history(&vec![log("u", "a\u{1}b\u{1f}\t\\/", 0)]);
    assert_eq!(text, "[{\"role\":\"u\",\"content\":\"a\\u0001b\\u001f\\t\\\\/\",\"tokens\":0}]");
}

#[test]
fn decode_rejects_non_array() {
    assert_eq!(decode_history("{}"), Err(HistoryError::NotAnArray));
    assert_eq!(decode_history("not json"), Err(HistoryError::NotAnArray));
}

#[test]
fn decode_reports_first_bad_entry() {
    let text = "[{\"role\":\"user\",\"content\":\"a\",\"tokens\":1},{\"role\":\"user\",\"content\":\"b\"}]";
    assert_eq!(decode_history(text), Err(HistoryError::BadEntry(1)));
    assert_eq!(decode_history("[{\"role\":1,\"content\":\"a\",\"tokens\":1}]"), Err(HistoryError::BadEntry(0)));
}

#[test]
fn locate_picks_latest_modified() {
    let t1: u128 = 1_700_000_000_000_000_000;
    let (t2, t3) = (t1 + 500, t1 + 900);
    assert_eq!(locate_current(&vec![t1, t3, t2]), Some(1));
}

#[test]
fn locate_tells_apart_files_of_one_second() {
    let base: u128 = 1_700_000_000_000_000_000;
    assert_eq!(locate_current(&vec![base + 2, base + 999_999_999, base]), Some(1));
}

#[test]
fn locate_prefers_first_of_equal_times() {
    assert_eq!(locate_current(&vec![5, 9, 9]), Some(1));
}

#[test]
fn locate_in_empty_directory_is_none() {
    assert_eq!(locate_current(&Vec::new()), None);
}

#[test]
fn file_name_is_seconds_with_suffix() {
    assert_eq!(conversation_file_name(1700000000), "1700000000.json");
    assert_eq!(conversation_file_name(0), "0.json");
    assert_eq!(conversation_file_name(-42), "-42.json");
}

#[test]
fn decimal_text_of_extremes() {
    let mut s = String::new();
    push_signed_decimal(&mut s, i64::MIN);
    assert_eq!(s, "-9223372036854775808");
    let mut t = "n=".to_string();
    push_decimal(&mut t, u64::MAX);
    assert_eq!(t, "n=18446744073709551615");
}

#[test]
fn exchange_appends_prompt_and_reply() {
    let mut history = vec![log("user", "q", 4)];
    let reply = Completion { content: "answer".to_string(), prompt_tokens: 11, completion_tokens: 22 };
    record_exchange(&mut history, "p".to_string(), reply);
    assert_eq!(history, vec![log("user", "q", 4), log("user", "p", 11), log("assistant", "answer", 22)]);
}

#[test]
fn error_reply_saves_nothing() {
    let history = vec![log("user", "q", 4)];
    let r = history_to_save(history, "p".to_string(), Err(CompletionError::Api("quota".to_string())));
    assert_eq!(r, None);
}

#[test]
fn completed_reply_saves_extended_history() {
    let reply = Completion { content: "a".to_string(), prompt_tokens: 1, completion_tokens: 2 };
    let r = history_to_save(Vec::new(), "p".to_string(), Ok(reply));
    assert_eq!(r, Some(vec![log("user", "p", 1), log("assistant", "a", 2)]));
}

#[test]
fn decode_rejects_array_elements() {
    assert_eq!(decode_history("[[\"x\"]]"), Err(HistoryError::BadEntry(0)));
}
