use crate::deadline::DeadlineStore;
use crate::verdict::{gauge_of, status_of, verdict_of, STATUS_OK};
use vstd::prelude::*;

verus! {

/// How often the background sampler copies the verdict into the gauge, in
/// nanoseconds.
pub const SAMPLE_PERIOD_NANOS: u64 = 1_000_000_000;

/// Whether the liveness state of `store` changes somewhere in `(from, to]`:
/// with the store left as it is, the only change is the deadline passing.
pub open spec fn changes_between(store: DeadlineStore, from: int, to: int) -> bool {
    from < store.expiry <= to
}

/// Once more than one sampling period has gone by since the last change of
/// state, the latest sample and the health endpoint agree: the gauge reads 1
/// exactly when the endpoint answers with success.
pub proof fn lemma_gauge_agrees_with_health(
    store: DeadlineStore,
    last_change: u128,
    sample_time: u128,
    query_time: u128,
)
    requires
        last_change + SAMPLE_PERIOD_NANOS < query_time,
        query_time - SAMPLE_PERIOD_NANOS <= sample_time <= query_time,
        !changes_between(store, last_change as int, query_time as int),
    ensures
        gauge_of(verdict_of(store.expired_at(sample_time))) == 1 <==> status_of(
            verdict_of(store.expired_at(query_time)),
        ) == STATUS_OK,
        verdict_of(store.expired_at(sample_time)) == verdict_of(store.expired_at(query_time)),
{
}

} // verus!
