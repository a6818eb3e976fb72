//! The chrono type with which posts carry their creation time, and the
//! RFC 3339 text of an instant, as chrono writes it.

use vstd::prelude::*;
use chrono::NaiveDateTime;

verus! {

/// A date and time without time zone, as chrono holds it. The client carries
/// such values through unread.
#[verifier::external_type_specification]
#[verifier::external_body]
pub struct ExNaiveDateTime(NaiveDateTime);

/// chrono's `Clone` for `NaiveDateTime`, which the type derives beside `Copy`:
/// the clone is the value itself. The derived `Clone` of the library's structs
/// that hold a time calls it.
pub assume_specification[ <NaiveDateTime as Clone>::clone ](t: &NaiveDateTime) -> (r: NaiveDateTime)
    ensures
        r == *t,
;

/// The RFC 3339 text that chrono gives the instant `secs` seconds after the
/// Unix epoch, in UTC (`DateTime::from_timestamp(secs, 0)` then
/// `to_rfc3339`), or `None` where `from_timestamp` finds the number out of
/// its range.
pub uninterp spec fn utc_rfc3339(secs: i64) -> Option<Seq<char>>;

/// Calls chrono's `DateTime::from_timestamp(secs, 0)` and, when it gives an
/// instant, its `to_rfc3339`. The contract claims only that the result is
/// the one named by [`utc_rfc3339`] for `secs`: which numbers chrono accepts
/// and what text it writes are left unsaid.
#[verifier::external_body]
pub(crate) fn rfc3339_of_timestamp(secs: i64) -> (r: Option<String>)
    ensures
        match r {
            Some(s) => utc_rfc3339(secs) == Some(s@),
            None => utc_rfc3339(secs) is None,
        },
{
    chrono::DateTime::from_timestamp(secs, 0).map(|t| t.to_rfc3339())
}

} // verus!
