//! What the service routes read from a request.

use vstd::prelude::*;
use crate::decimal::{count_leading, parse_unsigned, parse_usize, trim_start_char};

verus! {

/// The number of history entries shown when the path gives none that reads.
pub const DEFAULT_HISTORY_LIMIT: usize = 15;

/// The history limit given in a path segment: leading `:` are dropped and
/// the rest read as a `usize`; what does not read gives the default.
pub fn parse_history_limit(param: &str) -> (limit: usize)
    ensures
        limit == match parse_unsigned(trim_start_char(param@, ':'), usize::MAX as nat) {
            Some(v) => v as usize,
            None => DEFAULT_HISTORY_LIMIT,
        },
{
    let k = count_leading(param, ':');
    let n = param.unicode_len();
    let rest = param.substring_char(k, n);
    assert(rest@ =~= param@.skip(k as int));
    match parse_usize(rest) {
        Some(v) => v,
        None => DEFAULT_HISTORY_LIMIT,
    }
}

} // verus!
