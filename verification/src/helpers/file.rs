//! Helpers on file paths and file contents.

use vstd::prelude::*;
use vstd::utf8::{decode_utf8, valid_utf8};
use crate::errors::PaketError;
use crate::paths::{path_ends_with, path_suffix_match};
use crate::strutil::concat3;

verus! {

/// Does `path` end, component-wise, with any entry of `suffixes`?
pub fn has_path_any_suffixes(path: &str, suffixes: &[&str]) -> (r: bool)
    ensures
        r == exists|i: int|
            0 <= i < suffixes.len() && path_suffix_match(path@, suffixes.deep_view()[i]),
{
    let n = suffixes.len();
    let mut i: usize = 0;
    while i < n
        invariant
            n == suffixes.len(),
            0 <= i <= n,
            forall|j: int| 0 <= j < i ==> !path_suffix_match(path@, suffixes.deep_view()[j]),
        decreases n - i,
    {
        if path_ends_with(path, suffixes[i]) {
            proof {
                assert(path_suffix_match(path@, suffixes.deep_view()[i as int]));
            }
            return true;
        }
        i = i + 1;
    }
    false
}

/// Relies on `String::from_utf8`: it succeeds exactly on well-formed UTF-8
/// and returns the decoded characters.
#[verifier::external_body]
fn utf8_to_string(bytes: Vec<u8>) -> (r: Option<String>)
    ensures
        match r {
            Some(s) => valid_utf8(bytes@) && s@ == decode_utf8(bytes@),
            None => !valid_utf8(bytes@),
        },
{
    String::from_utf8(bytes).ok()
}

/// Decode the bytes read from the UTF-8 file at `path` (the path is only
/// quoted in the error message).
pub fn read(path: &str, bytes: Vec<u8>) -> (r: Result<String, PaketError>)
    ensures
        match r {
            Ok(s) => valid_utf8(bytes@) && s@ == decode_utf8(bytes@),
            Err(e) => e is PathError && !valid_utf8(bytes@),
        },
{
    match utf8_to_string(bytes) {
        Some(s) => Ok(s),
        None => Err(
            PaketError::PathError(concat3("path at `", path, "` was not valid utf-8")),
        ),
    }
}

} // verus!
