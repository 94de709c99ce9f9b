//! Time stamps: wall-clock times and monotonic instants.

use vstd::prelude::*;

verus! {

#[verifier::external_type_specification]
#[verifier::external_body]
pub struct ExSystemTime(std::time::SystemTime);

#[verifier::external_type_specification]
#[verifier::external_body]
pub struct ExInstant(std::time::Instant);

/// `std::time::SystemTime::now`: the current time; nothing is claimed of it.
#[verifier::external_body]
pub(crate) fn now() -> (time: std::time::SystemTime) {
    std::time::SystemTime::now()
}

} // verus!
