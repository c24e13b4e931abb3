//! The order in which the files of a package are written.
use vstd::prelude::*;
use itertools::Itertools;
use std::cmp::Ordering;

verus! {

/// Whether `order` lists every place of `keys` once, by rising key, and
/// places of the same key in their order.
pub open spec fn is_stable_order(order: Seq<usize>, keys: Seq<u8>) -> bool {
    &&& order.len() == keys.len()
    &&& forall|i: int| 0 <= i < order.len() ==> 0 <= #[trigger] order[i] < keys.len()
    &&& forall|i: int, j: int| 0 <= i < j < order.len() ==> order[i] != order[j]
    &&& forall|i: int, j: int|
        0 <= i < j < order.len() ==> keys[order[i] as int] <= keys[order[j] as int]
    &&& forall|i: int, j: int|
        0 <= i < j < order.len() && keys[order[i] as int] == keys[order[j] as int] ==> order[i]
            < order[j]
}

/// How two keys compare.
pub fn compare_keys(x: u8, y: u8) -> (r: Ordering)
    ensures
        x < y <==> r == Ordering::Less,
        x > y <==> r == Ordering::Greater,
        x == y <==> r == Ordering::Equal,
{
    if x < y {
        Ordering::Less
    } else if x > y {
        Ordering::Greater
    } else {
        Ordering::Equal
    }
}

/// Calls `Itertools::sorted_by` of `itertools` on the places of `keys`, with
/// the comparison of the keys at two places. It sorts with `sort_by` of std,
/// which keeps the order of what compares equal.
#[verifier::external_body]
pub(crate) fn sorted_places(keys: &Vec<u8>) -> (order: Vec<usize>)
    ensures
        is_stable_order(order@, keys@),
{
    (0..keys.len()).sorted_by(|a, b| compare_keys(keys[*a], keys[*b])).collect()
}

} // verus!
