//! Timestamps: milliseconds since the Unix epoch, held to the range of dates
//! that `chrono` can represent.

use vstd::prelude::*;

verus! {

/// Whether `chrono::DateTime::from_timestamp_millis` accepts the number.
pub uninterp spec fn representable_millis(millis: i64) -> bool;

/// `chrono::DateTime::from_timestamp_millis`: whether the number of
/// milliseconds names a date and time that `chrono` can represent.
#[verifier::external_body]
pub(crate) fn is_representable(millis: i64) -> (r: bool)
    ensures
        r == representable_millis(millis),
{
    chrono::DateTime::from_timestamp_millis(millis).is_some()
}

/// A timestamp as the streams deliver it: itself where it is representable,
/// the epoch where it is not.
pub open spec fn normalized_millis(millis: i64) -> i64 {
    if representable_millis(millis) {
        millis
    } else {
        0
    }
}

pub fn normalize_millis(millis: i64) -> (r: i64)
    ensures
        r == normalized_millis(millis),
{
    if is_representable(millis) {
        millis
    } else {
        0
    }
}

} // verus!
