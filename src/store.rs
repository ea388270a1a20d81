//! The history store's decisions: which conversation file is current, and
//! what a new conversation file is called.
use vstd::prelude::*;
use vstd::string::StringExecFns;
use crate::decimal::{push_signed_decimal, signed_decimal};

verus! {

/// The newest modification time is at `i`, and at no earlier position.
pub open spec fn is_latest(modified: Seq<u128>, i: int) -> bool {
    &&& 0 <= i < modified.len()
    &&& forall|j: int| 0 <= j < modified.len() ==> #[trigger] modified[j] <= modified[i]
    &&& forall|j: int| 0 <= j < i ==> #[trigger] modified[j] < modified[i]
}

/// The position of the current conversation among the files of the
/// conversation directory, given their modification times (in nanoseconds
/// since the epoch): the file modified last, the first listed among files
/// modified at the same instant. `None` when there is no file.
pub fn locate_current(modified: &Vec<u128>) -> (r: Option<usize>)
    ensures
        r is None <==> modified@.len() == 0,
        r matches Some(i) ==> is_latest(modified@, i as int),
{
    if modified.len() == 0 {
        return None;
    }
    let mut best: usize = 0;
    let mut i: usize = 1;
    while i < modified.len()
        invariant
            1 <= i <= modified@.len(),
            best < i,
            forall|j: int| 0 <= j < i ==> #[trigger] modified@[j] <= modified@[best as int],
            forall|j: int| 0 <= j < best ==> #[trigger] modified@[j] < modified@[best as int],
        decreases modified@.len() - i,
    {
        if modified[i] > modified[best] {
            best = i;
        }
        i = i + 1;
    }
    Some(best)
}

/// The name of a conversation file created at `seconds` since the epoch.
pub open spec fn file_name_for(seconds: int) -> Seq<char> {
    signed_decimal(seconds) + ".json"@
}

/// The file name for a conversation created at `seconds` since the epoch:
/// the decimal seconds followed by `.json`.
pub fn conversation_file_name(seconds: i64) -> (r: String)
    ensures
        r@ == file_name_for(seconds as int),
{
    let mut name = String::new();
    push_signed_decimal(&mut name, seconds);
    name.append(".json");
    name
}

} // verus!
