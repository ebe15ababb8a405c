use vstd::prelude::*;

verus! {

#[verifier::external_type_specification]
#[verifier::external_body]
pub struct ExInstant(tokio::time::Instant);

/// Relies on tokio::time::Instant::now: the current instant of the monotonic
/// clock. Nothing is known of its value.
#[verifier::external_body]
pub(crate) fn clock_origin() -> tokio::time::Instant {
    tokio::time::Instant::now()
}

/// Relies on tokio::time::Instant::elapsed: the time since `origin` in
/// nanoseconds, zero if `origin` lies in the future. It depends on when it is
/// called, so nothing is known of its value.
#[verifier::external_body]
pub(crate) fn elapsed_nanos(origin: &tokio::time::Instant) -> u128 {
    origin.elapsed().as_nanos()
}

} // verus!
