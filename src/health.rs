use crate::clock::{clock_origin, elapsed_nanos};
use crate::deadline::DeadlineStore;
use crate::verdict::{body_of, gauge_of, status_of, verdict_of};
use vstd::prelude::*;

verus! {

/// The watchdog: the deadline store together with the clock it is read
/// against. Instants count nanoseconds since construction. Callers that share
/// it between tasks guard it with a reader-writer lock: heartbeats take it
/// alone, queries share it.
pub struct HealthCheck {
    origin: tokio::time::Instant,
    store: DeadlineStore,
}

impl HealthCheck {
    /// The deadline store the watchdog holds.
    pub closed spec fn store(self) -> DeadlineStore {
        self.store
    }

    /// A watchdog created now, whose deadline lies `ttl` nanoseconds ahead.
    pub fn new(ttl: u128) -> (r: Self)
        ensures
            r.store() == (DeadlineStore { ttl, expiry: ttl }),
    {
        let origin = clock_origin();
        let store = DeadlineStore::new(ttl, 0);
        HealthCheck { origin, store }
    }

    /// The time-to-live, in nanoseconds.
    pub fn ttl(&self) -> (r: u128)
        ensures
            r == self.store().ttl,
    {
        self.store.ttl
    }

    /// The current instant: nanoseconds since the watchdog was created.
    pub fn now(&self) -> u128 {
        elapsed_nanos(&self.origin)
    }

    /// Records a heartbeat at `now` and returns the expiry it leaves.
    pub fn heartbeat_at(&mut self, now: u128) -> (r: u128)
        ensures
            final(self).store() == old(self).store().after_heartbeat(now),
            r == final(self).store().expiry,
    {
        self.store.heartbeat(now);
        self.store.expiry
    }

    /// Records a heartbeat at the current instant.
    pub fn healthy(&mut self)
        ensures
            exists|now: u128| final(self).store() == old(self).store().after_heartbeat(now),
            final(self).store().ttl == old(self).store().ttl,
            final(self).store().expiry >= old(self).store().expiry,
    {
        let now = self.now();
        let _ = self.heartbeat_at(now);
    }

    /// A copy of the deadline store as it stands.
    pub fn snapshot(&self) -> (r: DeadlineStore)
        ensures
            r == self.store(),
    {
        self.store
    }

    /// Whether the deadline has passed at `now`.
    pub fn is_expired_at(&self, now: u128) -> (r: bool)
        ensures
            r == self.store().expired_at(now),
    {
        self.store.is_expired(now)
    }

    /// Whether the deadline has passed at the current instant.
    pub fn is_expired(&self) -> (r: bool)
        ensures
            exists|now: u128| r == self.store().expired_at(now),
    {
        let now = self.now();
        self.is_expired_at(now)
    }

    /// The gauge value a sample at the current instant records: 1 while the
    /// deadline lies ahead, 0 once it has passed.
    pub fn sample(&self) -> (r: i64)
        ensures
            exists|now: u128| r == gauge_of(verdict_of(#[trigger] self.store().expired_at(now))),
    {
        let now = self.now();
        let r = self.store.sample(now);
        assert(r == gauge_of(verdict_of(self.store().expired_at(now))));
        r
    }

    /// The health endpoint's answer at the current instant: status code and
    /// JSON body of the verdict.
    pub fn health_response(&self) -> (r: (u16, String))
        ensures
            exists|now: u128|
                r.0 == status_of(verdict_of(#[trigger] self.store().expired_at(now))) && r.1@
                    == body_of(verdict_of(self.store().expired_at(now))),
    {
        let now = self.now();
        let r = self.store.respond(now);
        assert(r.0 == status_of(verdict_of(self.store().expired_at(now))));
        r
    }
}

} // verus!
