//! The wall clock, as event and batch timestamps need it.
use vstd::prelude::*;

verus! {

/// Relies on chrono::Utc::now and DateTime::to_rfc3339: the current UTC time
/// in RFC 3339 form. Nothing is promised of a reading of the clock.
#[verifier::external_body]
pub(crate) fn now_rfc3339() -> (r: String) {
    chrono::Utc::now().to_rfc3339()
}

} // verus!
