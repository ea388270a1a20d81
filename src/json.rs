//! Reading values out of JSON text and quoting strings as JSON, through
//! serde_json. Each lookup parses the text as a `serde_json::Value`; a single
//! value is found by an RFC 6901 pointer (`"/usage/prompt_tokens"`,
//! `"/choices/0"`).
use vstd::prelude::*;
use crate::decimal::{decimal, digit_char};

verus! {

/// Whether the text parses as JSON.
pub uninterp spec fn json_parses(text: Seq<char>) -> bool;

/// Whether the text parses as JSON and the pointer leads to an object.
pub uninterp spec fn json_object_at(text: Seq<char>, pointer: Seq<char>) -> bool;

/// The string the pointer leads to, if the text parses and it leads to one.
pub uninterp spec fn json_str_at(text: Seq<char>, pointer: Seq<char>) -> Option<Seq<char>>;

/// The integer the pointer leads to, if the text parses and it leads to one
/// that fits an `i64`.
pub uninterp spec fn json_i64_at(text: Seq<char>, pointer: Seq<char>) -> Option<i64>;

/// The string that `inner` leads to from the first element of the array that
/// `array` leads to, if the text parses and both lead there.
pub uninterp spec fn json_first_str_at(text: Seq<char>, array: Seq<char>, inner: Seq<char>) -> Option<Seq<char>>;

/// The number of elements, if the text parses as a JSON array.
pub uninterp spec fn json_array_len(text: Seq<char>) -> Option<usize>;

/// A lower-case hexadecimal digit.
pub open spec fn hex_digit(n: nat) -> char {
    if n < 10 { digit_char(n) }
    else if n == 10 { 'a' }
    else if n == 11 { 'b' }
    else if n == 12 { 'c' }
    else if n == 13 { 'd' }
    else if n == 14 { 'e' }
    else { 'f' }
}

/// How one character stands inside a JSON string literal: quote and
/// backslash are escaped, control characters take their short escape or
/// `\u00` and two hex digits, and every other character stands as it is.
pub open spec fn escaped_char(c: char) -> Seq<char> {
    let n = c as u32;
    if c == '"' { seq!['\\', '"'] }
    else if c == '\\' { seq!['\\', '\\'] }
    else if n == 8 { seq!['\\', 'b'] }
    else if n == 9 { seq!['\\', 't'] }
    else if n == 10 { seq!['\\', 'n'] }
    else if n == 12 { seq!['\\', 'f'] }
    else if n == 13 { seq!['\\', 'r'] }
    else if n < 32 { seq!['\\', 'u', '0', '0', hex_digit((n / 16) as nat), hex_digit((n % 16) as nat)] }
    else { seq![c] }
}

/// The escaped characters of a string.
pub open spec fn escaped(s: Seq<char>) -> Seq<char>
    decreases s.len(),
{
    if s.len() == 0 {
        Seq::empty()
    } else {
        escaped(s.drop_last()) + escaped_char(s.last())
    }
}

/// The JSON string literal that stands for the given characters.
pub open spec fn json_quote(s: Seq<char>) -> Seq<char> {
    seq!['"'] + escaped(s) + seq!['"']
}

/// An object key that a pointer names as it is, and that no pointer step
/// could read as an array index: not empty, no `/` or `~`, and not starting
/// with a digit.
pub open spec fn field_key(key: Seq<char>) -> bool {
    &&& key.len() > 0
    &&& !('0' <= key[0] && key[0] <= '9')
    &&& forall|k: int| 0 <= k < key.len() ==> #[trigger] key[k] != '/' && key[k] != '~'
}

/// The pointer to `field` of the element at `index`.
pub open spec fn field_pointer(index: nat, field: Seq<char>) -> Seq<char> {
    "/"@ + decimal(index) + "/"@ + field
}

/// The model of an optional string.
pub open spec fn opt_view(s: Option<String>) -> Option<Seq<char>> {
    match s {
        Some(s) => Some(s@),
        None => None,
    }
}

/// Relies on serde_json::from_str::<Value>: whether the text parses depends
/// on the text alone.
#[verifier::external_body]
pub(crate) fn parses(text: &str) -> (r: bool)
    ensures
        r == json_parses(text@),
{
    serde_json::from_str::<serde_json::Value>(text).is_ok()
}

/// Relies on serde_json::from_str::<Value>, Value::pointer and
/// Value::is_object: the answer depends on the text and the pointer alone.
#[verifier::external_body]
pub(crate) fn object_at(text: &str, pointer: &str) -> (r: bool)
    ensures
        r == json_object_at(text@, pointer@),
{
    match serde_json::from_str::<serde_json::Value>(text) {
        Ok(v) => v.pointer(pointer).is_some_and(serde_json::Value::is_object),
        Err(_) => false,
    }
}

/// Relies on serde_json::from_str::<Value>, Value::pointer and
/// Value::as_str: the answer depends on the text and the pointer alone.
#[verifier::external_body]
pub(crate) fn str_at(text: &str, pointer: &str) -> (r: Option<String>)
    ensures
        opt_view(r) == json_str_at(text@, pointer@),
{
    match serde_json::from_str::<serde_json::Value>(text) {
        Ok(v) => v.pointer(pointer).and_then(serde_json::Value::as_str).map(String::from),
        Err(_) => None,
    }
}

/// Relies on serde_json::from_str::<Value>, Value::pointer, Value::as_array
/// and Value::as_str: the answer depends on the text and the pointers alone.
#[verifier::external_body]
pub(crate) fn first_str_at(text: &str, array: &str, inner: &str) -> (r: Option<String>)
    ensures
        opt_view(r) == json_first_str_at(text@, array@, inner@),
{
    let v = serde_json::from_str::<serde_json::Value>(text).ok()?;
    let first = v.pointer(array)?.as_array()?.first()?;
    first.pointer(inner).and_then(serde_json::Value::as_str).map(String::from)
}

/// Relies on serde_json::from_str::<Value>, Value::pointer and
/// Value::as_i64: the answer depends on the text and the pointer alone.
#[verifier::external_body]
pub(crate) fn i64_at(text: &str, pointer: &str) -> (r: Option<i64>)
    ensures
        r == json_i64_at(text@, pointer@),
{
    match serde_json::from_str::<serde_json::Value>(text) {
        Ok(v) => v.pointer(pointer).and_then(serde_json::Value::as_i64),
        Err(_) => None,
    }
}

/// Relies on serde_json::from_str::<Value>, Value::as_array, Value::get and
/// Value::as_str: one parse gives, for each element of an array, the string
/// under `field`, which is what the pointer `/<index>/<field>` finds: the index
/// is written without leading zeros, and such a key is one pointer token that
/// reads as no array index, so an element that is not an object gives `None`
/// either way.
#[verifier::external_body]
pub(crate) fn array_field_strs(text: &str, field: &str) -> (r: Option<Vec<Option<String>>>)
    requires
        field_key(field@),
    ensures
        r is None <==> json_array_len(text@) is None,
        r matches Some(v) ==> json_array_len(text@) == Some(v.len()) && forall|i: int|
            0 <= i < v.len() ==> opt_view(#[trigger] v@[i]) == json_str_at(
                text@,
                field_pointer(i as nat, field@),
            ),
{
    let v = serde_json::from_str::<serde_json::Value>(text).ok()?;
    let items = v.as_array()?;
    Some(items.iter().map(|e| e.get(field).and_then(serde_json::Value::as_str).map(String::from)).collect())
}

/// Relies on serde_json::from_str::<Value>, Value::as_array, Value::get and
/// Value::as_i64: one parse gives, for each element of an array, the integer
/// under `field`, which is what the pointer `/<index>/<field>` finds.
#[verifier::external_body]
pub(crate) fn array_field_i64s(text: &str, field: &str) -> (r: Option<Vec<Option<i64>>>)
    requires
        field_key(field@),
    ensures
        r is None <==> json_array_len(text@) is None,
        r matches Some(v) ==> json_array_len(text@) == Some(v.len()) && forall|i: int|
            0 <= i < v.len() ==> #[trigger] v@[i] == json_i64_at(text@, field_pointer(i as nat, field@)),
{
    let v = serde_json::from_str::<serde_json::Value>(text).ok()?;
    let items = v.as_array()?;
    Some(items.iter().map(|e| e.get(field).and_then(serde_json::Value::as_i64)).collect())
}

/// Relies on the `Display` impl of serde_json::Value on `Value::String`,
/// which writes the compact literal with serde_json's escapes.
#[verifier::external_body]
pub(crate) fn quote(s: &str) -> (r: String)
    ensures
        r@ == json_quote(s@),
{
    serde_json::Value::String(s.to_string()).to_string()
}

} // verus!
