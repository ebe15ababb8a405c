use crate::verdict::{body_of, gauge_of, status_of, verdict_of, Verdict};
use vstd::prelude::*;

verus! {

/// The deadline `ttl` after `now`, clamped to the largest representable instant.
pub open spec fn deadline_after(now: u128, ttl: u128) -> u128 {
    if now + ttl > u128::MAX {
        u128::MAX
    } else {
        (now + ttl) as u128
    }
}

/// The later of two instants.
pub open spec fn later(a: u128, b: u128) -> u128 {
    if a >= b {
        a
    } else {
        b
    }
}

/// The single shared expiry instant and the fixed time-to-live that
/// heartbeats renew it by. Instants are nanoseconds on a monotonic clock.
#[derive(Clone, Copy)]
pub struct DeadlineStore {
    pub ttl: u128,
    pub expiry: u128,
}

impl DeadlineStore {
    /// The store after a heartbeat at `now`: the expiry moves to `now + ttl`
    /// unless it already lies beyond that.
    pub open spec fn after_heartbeat(self, now: u128) -> DeadlineStore {
        DeadlineStore { ttl: self.ttl, expiry: later(self.expiry, deadline_after(now, self.ttl)) }
    }

    /// Whether the deadline has passed at `now`.
    pub open spec fn expired_at(self, now: u128) -> bool {
        now >= self.expiry
    }

    /// A store created at `now`, expiring `ttl` later.
    pub fn new(ttl: u128, now: u128) -> (r: Self)
        ensures
            r.ttl == ttl,
            r.expiry == deadline_after(now, ttl),
    {
        let expiry = if now > u128::MAX - ttl {
            u128::MAX
        } else {
            now + ttl
        };
        DeadlineStore { ttl, expiry }
    }

    /// Records a heartbeat at `now`.
    pub fn heartbeat(&mut self, now: u128)
        ensures
            *final(self) == old(self).after_heartbeat(now),
            final(self).expiry >= old(self).expiry,
    {
        let target = if now > u128::MAX - self.ttl {
            u128::MAX
        } else {
            now + self.ttl
        };
        if target > self.expiry {
            self.expiry = target;
        }
    }

    /// Whether the deadline has passed at `now`.
    pub fn is_expired(&self, now: u128) -> (r: bool)
        ensures
            r == self.expired_at(now),
    {
        now >= self.expiry
    }

    /// The liveness verdict at `now`.
    pub fn verdict(&self, now: u128) -> (r: Verdict)
        ensures
            r == verdict_of(self.expired_at(now)),
    {
        Verdict::from_expired(self.is_expired(now))
    }

    /// The gauge value a sample taken at `now` records: 1 while the deadline
    /// lies ahead, 0 once it has passed.
    pub fn sample(&self, now: u128) -> (r: i64)
        ensures
            r == gauge_of(verdict_of(self.expired_at(now))),
            r == 1 <==> !self.expired_at(now),
            r == 0 <==> self.expired_at(now),
    {
        self.verdict(now).gauge_value()
    }

    /// The health endpoint's answer at `now`: status code and JSON body.
    pub fn respond(&self, now: u128) -> (r: (u16, String))
        ensures
            r.0 == status_of(verdict_of(self.expired_at(now))),
            r.1@ == body_of(verdict_of(self.expired_at(now))),
    {
        let v = self.verdict(now);
        (v.status_code(), v.body())
    }
}

/// The store after heartbeats at each of `times`, in order.
pub open spec fn after_heartbeats(store: DeadlineStore, times: Seq<u128>) -> DeadlineStore
    decreases times.len(),
{
    if times.len() == 0 {
        store
    } else {
        after_heartbeats(store, times.drop_last()).after_heartbeat(times.last())
    }
}

/// A heartbeat at `t` with time-to-live `d` keeps the store unexpired at every
/// `t2 < t + d` and expired at every `t2 >= t + d`, as long as no earlier
/// heartbeat had already set the deadline past `t + d`.
pub proof fn lemma_heartbeat_expiry(store: DeadlineStore, t: u128, t2: u128)
    requires
        t + store.ttl <= u128::MAX,
        store.expiry <= t + store.ttl,
    ensures
        t2 < t + store.ttl ==> !store.after_heartbeat(t).expired_at(t2),
        t2 >= t + store.ttl ==> store.after_heartbeat(t).expired_at(t2),
{
}

/// Two heartbeats never leave the expiry earlier than either one alone would.
pub proof fn lemma_repeated_heartbeat(store: DeadlineStore, t1: u128, t2: u128)
    ensures
        store.after_heartbeat(t1).after_heartbeat(t2).expiry >= store.after_heartbeat(t1).expiry,
        store.after_heartbeat(t1).after_heartbeat(t2).expiry >= store.after_heartbeat(t2).expiry,
{
}

/// Over any run of heartbeats the expiry never decreases: the expiry after
/// the first `i` heartbeats is at most the expiry after the first `j >= i`.
pub proof fn lemma_expiry_monotonic(store: DeadlineStore, times: Seq<u128>, i: int, j: int)
    requires
        0 <= i <= j <= times.len(),
    ensures
        after_heartbeats(store, times.take(i)).expiry <= after_heartbeats(
            store,
            times.take(j),
        ).expiry,
    decreases j - i,
{
    if i < j {
        lemma_expiry_monotonic(store, times, i, j - 1);
        assert(times.take(j).drop_last() =~= times.take(j - 1));
    }
}

/// Concurrent heartbeats may be applied in either order: the resulting store
/// is the same, so the final expiry depends only on which heartbeats happened.
pub proof fn lemma_heartbeats_commute(store: DeadlineStore, t1: u128, t2: u128)
    ensures
        store.after_heartbeat(t1).after_heartbeat(t2) == store.after_heartbeat(t2).after_heartbeat(
            t1,
        ),
{
}

/// After a run of heartbeats the expiry is at least `t + ttl` (clamped) for
/// every heartbeat time `t` in the run: it reflects the latest heartbeat.
pub proof fn lemma_expiry_covers_every_heartbeat(store: DeadlineStore, times: Seq<u128>, k: int)
    requires
        0 <= k < times.len(),
    ensures
        after_heartbeats(store, times).expiry >= deadline_after(times[k], store.ttl),
        after_heartbeats(store, times).ttl == store.ttl,
    decreases times.len(),
{
    lemma_ttl_kept(store, times.drop_last());
    if k < times.len() - 1 {
        lemma_expiry_covers_every_heartbeat(store, times.drop_last(), k);
    }
}

/// After a run of heartbeats the expiry is no invented value: it is the
/// starting expiry or the deadline of one of the heartbeats.
pub proof fn lemma_expiry_from_some_heartbeat(store: DeadlineStore, times: Seq<u128>)
    ensures
        after_heartbeats(store, times).expiry == store.expiry || exists|k: int|
            0 <= k < times.len() && after_heartbeats(store, times).expiry == deadline_after(
                #[trigger] times[k],
                store.ttl,
            ),
    decreases times.len(),
{
    if times.len() > 0 {
        let prefix = times.drop_last();
        lemma_ttl_kept(store, prefix);
        lemma_expiry_from_some_heartbeat(store, prefix);
        let e = after_heartbeats(store, prefix).expiry;
        if e != after_heartbeats(store, times).expiry {
            assert(times[times.len() - 1] == times.last());
        } else if e != store.expiry {
            let k = choose|k: int|
                0 <= k < prefix.len() && e == deadline_after(#[trigger] prefix[k], store.ttl);
            assert(prefix[k] == times[k]);
        }
    }
}

proof fn lemma_ttl_kept(store: DeadlineStore, times: Seq<u128>)
    ensures
        after_heartbeats(store, times).ttl == store.ttl,
    decreases times.len(),
{
    if times.len() > 0 {
        lemma_ttl_kept(store, times.drop_last());
    }
}

} // verus!
