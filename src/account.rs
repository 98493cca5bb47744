//! Validity of account identifiers.
use vstd::prelude::*;

verus! {

/// The shortest valid account id.
pub const MIN_ACCOUNT_ID_LEN: usize = 2;

/// The longest valid account id.
pub const MAX_ACCOUNT_ID_LEN: usize = 64;

/// A character that may stand anywhere in an account id: a lower-case
/// ASCII letter or a decimal digit.
pub open spec fn is_account_alnum(c: char) -> bool {
    ('a' <= c && c <= 'z') || ('0' <= c && c <= '9')
}

/// A character that separates the parts of an account id.
pub open spec fn is_account_separator(c: char) -> bool {
    c == '-' || c == '_' || c == '.'
}

/// An account id is 2 to 64 characters drawn from lower-case letters, digits
/// and the separators `-`, `_`, `.`, where a separator neither starts nor ends
/// the id, and no two separators stand side by side.
pub open spec fn valid_account_id(s: Seq<char>) -> bool {
    &&& MIN_ACCOUNT_ID_LEN <= s.len() <= MAX_ACCOUNT_ID_LEN
    &&& forall|i: int| 0 <= i < s.len() ==> is_account_alnum(#[trigger] s[i]) || is_account_separator(s[i])
    &&& !is_account_separator(s[0])
    &&& !is_account_separator(s[s.len() - 1])
    &&& forall|i: int|
        0 <= i < s.len() - 1 ==> !(is_account_separator(#[trigger] s[i]) && is_account_separator(s[i + 1]))
}

/// Relies on `near_sdk::env::is_valid_account_id`, which accepts a byte string
/// of 2 to 64 bytes made of `a-z`, `0-9`, `-`, `_`, `.` with no separator at
/// either end and no two separators in a row. Every accepted byte is ASCII, so
/// the same rule read over the characters of `s` gives the same answer.
#[verifier::external_body]
pub(crate) fn is_valid_account_id(s: &str) -> (r: bool)
    ensures
        r == valid_account_id(s@),
{
    near_sdk::env::is_valid_account_id(s.as_bytes())
}

} // verus!
