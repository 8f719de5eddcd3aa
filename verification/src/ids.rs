//! Identifiers: UUIDs as the backend reads them.
use uuid::Uuid;
use vstd::prelude::*;

verus! {

/// The UUID that `Uuid::parse_str` reads from `text`, as a 128-bit value;
/// `None` when it refuses the text.
pub uninterp spec fn uuid_parsed(text: Seq<char>) -> Option<u128>;

/// `uuid::Uuid::parse_str`: the contract says that the result is the value
/// named `uuid_parsed` of the text (`None` on a parse error).
#[verifier::external_body]
pub(crate) fn parse_uuid(text: &str) -> (r: Option<u128>)
    ensures
        r == uuid_parsed(text@),
{
    match Uuid::parse_str(text) {
        Ok(u) => Some(u.as_u128()),
        Err(_) => None,
    }
}

} // verus!
