//! The clock. Everything here is trusted, and nothing is promised of what
//! the clock says.

use std::time::Instant;
use vstd::prelude::*;

verus! {

#[verifier::external_type_specification]
#[verifier::external_body]
pub struct ExInstant(Instant);

/// `Instant::now`: the current reading of the monotonic clock.
#[verifier::external_body]
pub(crate) fn instant_now() -> Instant {
    Instant::now()
}

/// `chrono::Local::now`, formatted with `DateTime::format` as `%H:%M:%S`:
/// the local time of day.
#[verifier::external_body]
pub(crate) fn time_label() -> String {
    chrono::Local::now().format("%H:%M:%S").to_string()
}

} // verus!
