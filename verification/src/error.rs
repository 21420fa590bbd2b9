//! Refusals that the game's endpoints answer with.

use vstd::prelude::*;

verus! {

/// The HTTP status that goes with a refusal.
#[derive(PartialEq, Eq, Structural, Clone, Copy, Debug)]
pub enum Status {
    BadRequest,
    Unauthorized,
    PaymentRequired,
    Forbidden,
    NotFound,
    Conflict,
    TooManyRequests,
    InternalServerError,
}

/// A refused request: a status and the text sent back with it.
#[derive(Debug)]
pub struct ApiError {
    pub status: Status,
    pub message: String,
}

/// Builds the refusal with `status` and `message`.
pub fn api_error(status: Status, message: &str) -> (e: ApiError)
    ensures
        e.status == status,
        e.message@ == message@,
{
    ApiError { status, message: String::from_str(message) }
}

/// Whether two strings hold the same characters.
pub fn str_eq(a: &str, b: &str) -> (r: bool)
    ensures
        r == (a@ == b@),
{
    let x = a.to_owned();
    let y = b.to_owned();
    x == y
}

/// `prefix` followed by `rest`, as `format!("{prefix}{rest}")` writes it.
pub fn prefixed(prefix: &str, rest: &str) -> (s: String)
    ensures
        s@ == prefix@ + rest@,
{
    let mut s = String::from_str(prefix);
    s.append(rest);
    s
}

} // verus!
