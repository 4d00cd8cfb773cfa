//! The rate gate: pacing and fan-out limits for outbound calls.
//!
//! Every call to the remote service first obtains a rate grant (waiting
//! until the next slot of the refill schedule), then a concurrency permit,
//! performs the call, and releases the permit; the rate slot is consumed,
//! not released. The limiter computes, from the current clock reading, how long
//! the caller must wait; the caller performs the actual sleeps and owns one
//! gate per executor.

use vstd::prelude::*;

verus! {

/// Nanoseconds in one second.
pub const NANOS_PER_SEC: u64 = 1000000000;

/// The requests-per-second rate used when the configuration asks for zero.
pub const DEFAULT_REQUESTS_PER_SEC: u32 = 10;

/// The refill interval for a requested rate: a second split evenly, at
/// least one nanosecond; a rate of zero falls back to the default rate.
pub open spec fn spec_rate_interval(requests_per_sec: u32) -> u64 {
    let rate: u32 = if requests_per_sec == 0 {
        DEFAULT_REQUESTS_PER_SEC
    } else {
        requests_per_sec
    };
    if NANOS_PER_SEC / rate as u64 >= 1 {
        (NANOS_PER_SEC / rate as u64) as u64
    } else {
        1u64
    }
}

/// Saturating addition on nanosecond counters.
pub open spec fn add_sat(a: u64, b: u64) -> u64 {
    if a + b <= u64::MAX {
        (a + b) as u64
    } else {
        u64::MAX
    }
}

/// The earliest start time of call `i` under the refill schedule, for calls
/// arriving at times `nows`: a call arriving before the schedule's next free
/// slot waits for it; each grant moves the next free slot one interval on.
pub open spec fn spec_grant(nows: Seq<int>, interval: int, i: int) -> int
    decreases i, 1int,
{
    if spec_next_free(nows, interval, i) >= nows[i] {
        spec_next_free(nows, interval, i)
    } else {
        nows[i]
    }
}

/// The schedule's next free slot before call `i` is granted.
pub open spec fn spec_next_free(nows: Seq<int>, interval: int, i: int) -> int
    decreases i, 0int,
{
    if i <= 0 {
        0
    } else {
        spec_grant(nows, interval, i - 1) + interval
    }
}

/// The pacing law: under the refill schedule, call `k` is granted no
/// earlier than `k` intervals after the limiter started, however fast the
/// calls arrive. With `requests_per_sec = 10`, twenty-five back-to-back
/// calls span at least 24 intervals of 100 ms: two full seconds and more.
pub proof fn lemma_rate_spacing(nows: Seq<int>, interval: int, k: int)
    requires
        interval >= 0,
        0 <= k < nows.len(),
        forall|i: int| 0 <= i < nows.len() ==> #[trigger] nows[i] >= 0,
    ensures
        spec_grant(nows, interval, k) >= k * interval,
    decreases k,
{
    if k == 0 {
        assert(k * interval == 0) by (nonlinear_arith)
            requires
                k == 0,
        ;
        assert(nows[0] >= 0);
        assert(spec_grant(nows, interval, 0) >= 0);
    } else {
        lemma_rate_spacing(nows, interval, k - 1);
        assert(spec_next_free(nows, interval, k) == spec_grant(nows, interval, k - 1) + interval);
        assert((k - 1) * interval + interval == k * interval) by (nonlinear_arith);
        assert(spec_grant(nows, interval, k) >= spec_next_free(nows, interval, k));
    }
}

/// Consecutive grants are at least one interval apart: the limiter issues at
/// most one grant per interval, whatever the arrival times.
pub proof fn lemma_grant_separation(nows: Seq<int>, interval: int, k: int)
    requires
        interval >= 0,
        1 <= k < nows.len(),
    ensures
        spec_grant(nows, interval, k) >= spec_grant(nows, interval, k - 1) + interval,
{
}

/// The combined token-bucket and concurrency-permit gate guarding every
/// outbound call to the remote service.
pub struct RateGate {
    /// The refill interval in nanoseconds
    interval_ns: u64,

    /// The earliest time of the next rate grant, in nanoseconds
    next_free_ns: u64,

    /// The concurrency cap
    max_concurrent: usize,

    /// The permits currently held
    in_flight: usize,
}

impl RateGate {
    /// The refill interval of this gate.
    pub closed spec fn spec_interval_ns(&self) -> u64 {
        self.interval_ns
    }

    /// The earliest time of the next rate grant.
    pub closed spec fn spec_next_free_ns(&self) -> u64 {
        self.next_free_ns
    }

    /// The concurrency cap of this gate.
    pub closed spec fn spec_max_concurrent(&self) -> usize {
        self.max_concurrent
    }

    /// The permits currently held.
    pub closed spec fn spec_in_flight(&self) -> usize {
        self.in_flight
    }

    /// The permits held never exceed the cap, and the interval is positive.
    pub closed spec fn wf(&self) -> bool {
        self.in_flight <= self.max_concurrent && self.interval_ns >= 1
    }

    /// Whether the limiter is well-formed (the permit count is within the cap).
    pub open spec fn inv(&self) -> bool {
        self.wf() && self.spec_in_flight() <= self.spec_max_concurrent()
    }

    /// A fresh gate: the configured rate (zero falls back to the default),
    /// the configured concurrency cap, no grant pending, no permit held.
    pub fn new(requests_per_sec: u32, max_concurrent: usize) -> (r: Self)
        ensures
            r.inv(),
            r.spec_interval_ns() == spec_rate_interval(requests_per_sec),
            r.spec_next_free_ns() == 0,
            r.spec_in_flight() == 0,
            r.spec_max_concurrent() == max_concurrent,
    {
        let rate: u32 = if requests_per_sec == 0 {
            DEFAULT_REQUESTS_PER_SEC
        } else {
            requests_per_sec
        };
        let mut interval_ns: u64 = NANOS_PER_SEC / (rate as u64);
        if interval_ns < 1 {
            interval_ns = 1;
        }
        RateGate { interval_ns, next_free_ns: 0, max_concurrent, in_flight: 0 }
    }

    /// Obtain the next rate grant for a call arriving at `now_ns`: the
    /// caller must wait `wait_ns` before performing the call, and the next
    /// free slot moves one interval past the granted time. The token is
    /// consumed, never returned.
    pub fn acquire_token_at(&mut self, now_ns: u64) -> (wait_ns: u64)
        requires
            old(self).inv(),
        ensures
            final(self).inv(),
            final(self).spec_interval_ns() == old(self).spec_interval_ns(),
            final(self).spec_max_concurrent() == old(self).spec_max_concurrent(),
            final(self).spec_in_flight() == old(self).spec_in_flight(),
            wait_ns == (if now_ns >= old(self).spec_next_free_ns() {
                0u64
            } else {
                (old(self).spec_next_free_ns() - now_ns) as u64
            }),
            now_ns + wait_ns == (if now_ns >= old(self).spec_next_free_ns() {
                now_ns as int
            } else {
                old(self).spec_next_free_ns() as int
            }),
            final(self).spec_next_free_ns() == add_sat(
                (now_ns + wait_ns) as u64,
                old(self).spec_interval_ns(),
            ),
    {
        let wait_ns: u64 = if now_ns >= self.next_free_ns {
            0
        } else {
            self.next_free_ns - now_ns
        };
        let granted: u64 = now_ns + wait_ns;
        self.next_free_ns = if granted <= u64::MAX - self.interval_ns {
            granted + self.interval_ns
        } else {
            u64::MAX
        };
        wait_ns
    }

    /// Try to take a concurrency permit: succeeds exactly when a slot is
    /// free, and never pushes the held permits past the cap.
    pub fn try_acquire_permit(&mut self) -> (granted: bool)
        requires
            old(self).inv(),
        ensures
            final(self).inv(),
            final(self).spec_interval_ns() == old(self).spec_interval_ns(),
            final(self).spec_max_concurrent() == old(self).spec_max_concurrent(),
            final(self).spec_next_free_ns() == old(self).spec_next_free_ns(),
            granted == (old(self).spec_in_flight() < old(self).spec_max_concurrent()),
            granted ==> final(self).spec_in_flight() == old(self).spec_in_flight() + 1,
            !granted ==> final(self).spec_in_flight() == old(self).spec_in_flight(),
    {
        if self.in_flight < self.max_concurrent {
            self.in_flight = self.in_flight + 1;
            true
        } else {
            false
        }
    }

    /// Release a held concurrency permit.
    pub fn release_permit(&mut self)
        requires
            old(self).inv(),
            old(self).spec_in_flight() > 0,
        ensures
            final(self).inv(),
            final(self).spec_interval_ns() == old(self).spec_interval_ns(),
            final(self).spec_max_concurrent() == old(self).spec_max_concurrent(),
            final(self).spec_next_free_ns() == old(self).spec_next_free_ns(),
            final(self).spec_in_flight() == old(self).spec_in_flight() - 1,
    {
        self.in_flight = self.in_flight - 1;
    }
}

} // verus!
