//! The time of day.

use vstd::prelude::*;

verus! {

/// Calls serenity's `Timestamp::now` and reads it with `unix_timestamp`:
/// the seconds since the epoch at the moment of the call. Nothing is claimed
/// of the number.
#[verifier::external_body]
pub(crate) fn unix_now() -> (r: i64) {
    serenity::model::Timestamp::now().unix_timestamp()
}

} // verus!
