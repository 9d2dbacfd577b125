//! Calls into outside crates that the core's logic leans on, with the
//! contracts the rest of the crate is proved against.

use vstd::prelude::*;

verus! {

/// The snake_case form of a string: a function of its characters alone.
pub uninterp spec fn snake_case_of(s: Seq<char>) -> Seq<char>;

/// Relies on heck::ToSnakeCase::to_snake_case: the snake_case form depends
/// on the characters alone.
#[verifier::external_body]
pub(crate) fn to_snake_case(s: &str) -> (r: String)
    ensures
        r@ == snake_case_of(s@),
{
    heck::ToSnakeCase::to_snake_case(s)
}

/// The Unix timestamp in seconds an RFC 3339 string denotes, or nothing
/// when the string is not a well-formed RFC 3339 date-time; a function of
/// the characters alone.
pub uninterp spec fn rfc3339_epoch_of(s: Seq<char>) -> Option<i64>;

/// Relies on chrono::DateTime::parse_from_rfc3339 and
/// chrono::DateTime::timestamp: parsing a date-time string depends on the
/// characters alone.
#[verifier::external_body]
pub(crate) fn parse_rfc3339_secs(s: &str) -> (r: Option<i64>)
    ensures
        r == rfc3339_epoch_of(s@),
{
    match chrono::DateTime::parse_from_rfc3339(s) {
        Ok(dt) => Some(dt.timestamp()),
        Err(_) => None,
    }
}

} // verus!
