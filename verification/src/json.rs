//! The boundary to `serde_json`: a set of movie ids as JSON text.
//!
//! Nothing in this file is proved. Each item states what is taken on trust
//! from `serde_json` and `serde`.

use crate::text::{decimal, join};
use std::collections::HashSet;
use vstd::prelude::*;

verus! {

/// The error type of `serde_json`. Nothing is known of a value of it.
#[verifier::external_type_specification]
#[verifier::external_body]
pub struct ExJsonError(serde_json::Error);

/// The set of ids that `serde_json::from_slice` reads from `bytes` when it
/// is asked for a `HashSet<u32>`; `None` where it reports an error instead.
/// Reading depends on the bytes alone.
pub uninterp spec fn json_id_set(bytes: Seq<u8>) -> Option<Set<u32>>;

/// The compact JSON array of the ids `order`: `[`, the ids in decimal with
/// `,` between them, and `]`, one byte for each character.
pub open spec fn id_array(order: Seq<u32>) -> Seq<u8> {
    let numbers = order.map_values(|id: u32| decimal(id as nat));
    let text = seq!['['] + join(numbers, seq![',']) + seq![']'];
    text.map_values(|c: char| c as u8)
}

/// Whether `order` lists the ids of `ids`, each of them once.
pub open spec fn lists_ids(order: Seq<u32>, ids: Set<u32>) -> bool {
    &&& order.no_duplicates()
    &&& order.to_set() == ids
    &&& order.len() == ids.len()
}

/// Whether `bytes` are the compact JSON array of the ids of `ids`, each
/// written once, in some order.
pub open spec fn is_id_array(bytes: Seq<u8>, ids: Set<u32>) -> bool {
    exists|order: Seq<u32>| #[trigger] lists_ids(order, ids) && bytes == id_array(order)
}

/// Calls `serde_json::from_slice` for a `HashSet<u32>`. The contract gives
/// the outcome its name: the set that was read, or the fact that the bytes
/// were refused.
#[verifier::external_body]
pub(crate) fn read_id_set(bytes: &[u8]) -> (read: Result<HashSet<u32>, serde_json::Error>)
    ensures
        match read {
            Ok(ids) => json_id_set(bytes@) == Some(ids@),
            Err(_) => json_id_set(bytes@) is None,
        },
{
    serde_json::from_slice::<HashSet<u32>>(bytes)
}

/// Calls `serde_json::to_vec` on a `HashSet<u32>`. Three things are claimed.
/// The call succeeds: it writes into a vector, which takes every byte, and
/// neither a set nor a `u32` can refuse to be written. What is written is
/// `[`, each id of the set once in decimal with `,` between them, and `]`;
/// the order of the ids is that in which the set hands them out and is left
/// open. And the text reads back as the same set: `from_slice` reads exactly
/// such an array into the set of its elements.
#[verifier::external_body]
pub(crate) fn write_id_set(ids: &HashSet<u32>) -> (written: Result<Vec<u8>, serde_json::Error>)
    ensures
        written is Ok,
        written matches Ok(bytes) ==> is_id_array(bytes@, ids@),
        written matches Ok(bytes) ==> json_id_set(bytes@) == Some(ids@),
{
    serde_json::to_vec(ids)
}

/// The message of a `serde_json::Error`, as its `Display` impl gives it
/// through `to_string`. Nothing is claimed of the text.
#[verifier::external_body]
pub(crate) fn error_text(error: &serde_json::Error) -> String {
    error.to_string()
}

} // verus!
