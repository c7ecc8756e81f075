//! Path suffix matching against a list of candidates.

use vstd::prelude::*;
use crate::paths::{path_ends_with, path_suffix_match};

verus! {

/// Does `path` end, component-wise, with any entry of `list`?
pub fn contains_any_suffixes(path: &str, list: &Vec<&str>) -> (r: bool)
    ensures
        r == exists|i: int| 0 <= i < list.len() && path_suffix_match(path@, list.deep_view()[i]),
{
    let n = list.len();
    let mut i: usize = 0;
    while i < n
        invariant
            n == list.len(),
            0 <= i <= n,
            forall|j: int| 0 <= j < i ==> !path_suffix_match(path@, list.deep_view()[j]),
        decreases n - i,
    {
        if path_ends_with(path, list[i]) {
            proof {
                assert(path_suffix_match(path@, list.deep_view()[i as int]));
            }
            return true;
        }
        i = i + 1;
    }
    false
}

} // verus!
