//! Trusted boundary to chrono: reading RFC 3339 expiry stamps out of
//! session-cache entries. The contract here is believed, not proved; the
//! doc comment names the functions relied on.

use vstd::prelude::*;

verus! {

/// The UTC epoch seconds chrono reads out of RFC 3339 text, or `None`
/// when the text is not an RFC 3339 date-time; both depend on the text
/// alone.
pub uninterp spec fn rfc3339_epoch(s: Seq<char>) -> Option<int>;

/// Relies on chrono's `DateTime::parse_from_rfc3339`, whose acceptance
/// and result depend on the text alone, and `DateTime::timestamp`, the
/// non-leap seconds since the UTC epoch of the parsed instant.
#[verifier::external_body]
pub(crate) fn rfc3339_to_epoch(s: &str) -> (r: Option<i64>)
    ensures
        match r {
            Some(t) => rfc3339_epoch(s@) == Some(t as int),
            None => rfc3339_epoch(s@) is None,
        },
{
    match chrono::DateTime::parse_from_rfc3339(s) {
        Ok(dt) => Some(dt.timestamp()),
        Err(_) => None,
    }
}

} // verus!
