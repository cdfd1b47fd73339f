//! The time of day.

use vstd::prelude::*;

verus! {

/// The time of the call, in UTC, as the text that
/// `chrono::Utc::now().to_rfc3339()` gives. Nothing is claimed of the text:
/// it depends on the clock of the machine. The call panics where that clock
/// stands before the year 1970.
#[verifier::external_body]
pub(crate) fn timestamp_now() -> String {
    chrono::Utc::now().to_rfc3339()
}

} // verus!
