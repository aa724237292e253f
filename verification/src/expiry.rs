//! Expiry Evaluator: decides expired vs. valid by comparing a record's
//! stored expiry text, normalized through the TimeZone Converter, against
//! the current instant. The boundary is inclusive: an expiry equal to the
//! current instant counts as expired.

use crate::timezone::CivilInstant;
use crate::timezone::TimeParseError;
use crate::timezone::expiry_instant_of;
use crate::timezone::to_target_zone;
use vstd::prelude::*;

verus! {

/// An expiry instant is expired at `now` when it is at or before `now`.
pub open spec fn spec_expired(expiry_seconds: i64, now: CivilInstant) -> bool {
    expiry_seconds <= now.seconds
}

/// Whether the stored expiry text is expired at `now`; fails exactly when
/// the text denotes no instant (corrupt store data).
pub fn is_expired(stored_expiry_text: &str, now: CivilInstant) -> (r: Result<
    bool,
    TimeParseError,
>)
    ensures
        r == match expiry_instant_of(stored_expiry_text@) {
            Some(t) => Ok::<bool, TimeParseError>(spec_expired(t, now)),
            None => Err::<bool, TimeParseError>(TimeParseError),
        },
{
    match to_target_zone(stored_expiry_text) {
        Ok(expiry) => Ok(expiry.seconds <= now.seconds),
        Err(e) => Err(e),
    }
}

} // verus!
