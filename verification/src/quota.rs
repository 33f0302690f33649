//! Rate specifications: a token-bucket quota, and a pair of quotas for
//! endpoints that carry both a burst and a sustained limit.

use vstd::prelude::*;

verus! {

/// Largest period, in seconds, that can be turned into nanoseconds inside a
/// `u64`: `u64::MAX / 1_000_000_000`.
pub const MAX_PERIOD_SECS: u64 = 18_446_744_073;

/// An immutable token-bucket rate specification: up to `capacity` admissions
/// may burst at once, and `capacity` tokens are replenished per `period_secs`
/// seconds of wall time.
#[derive(Clone, Copy, Debug, PartialEq, Eq, Structural)]
pub struct Quota {
    /// Size of the token bucket; must be positive.
    pub capacity: u32,
    /// Length of the replenishment period in seconds; must be positive.
    pub period_secs: u64,
}

impl Quota {
    /// A quota is well formed when both its capacity and its period are
    /// positive, and the period fits the nanosecond arithmetic of the
    /// limiter that will be built from it.
    pub open spec fn wf(self) -> bool {
        0 < self.capacity && 0 < self.period_secs <= MAX_PERIOD_SECS
    }

    /// Construction rejects a zero capacity or a zero period; any other
    /// pair (within the machine bound on the period) is accepted as given.
    pub fn new(capacity: u32, period_secs: u64) -> (r: Option<Quota>)
        ensures
            r is Some <==> (0 < capacity && 0 < period_secs <= MAX_PERIOD_SECS),
            r is Some ==> r->Some_0 == (Quota { capacity, period_secs }) && r->Some_0.wf(),
    {
        if capacity > 0 && period_secs > 0 && period_secs <= MAX_PERIOD_SECS {
            Some(Quota { capacity, period_secs })
        } else {
            None
        }
    }

    /// The replenishment interval for a single token, in nanoseconds:
    /// `period / capacity`, clamped up to one nanosecond so that a rate
    /// faster than the clock's resolution still replenishes.
    pub open spec fn replenish_interval_nanos(self) -> u64
        recommends
            self.wf(),
    {
        let raw: int = self.period_secs * 1_000_000_000 / (self.capacity as int);
        if raw == 0 {
            1
        } else {
            raw as u64
        }
    }
}

/// The replenishment interval of a well-formed quota is at least one
/// nanosecond, and the burst tolerance a bucket computes from it — the
/// interval times the rest of the burst capacity — fits a `u64`.
pub proof fn lemma_replenish_interval_fits(q: Quota)
    requires
        q.wf(),
    ensures
        q.replenish_interval_nanos() >= 1,
        (q.replenish_interval_nanos() as int) * (q.capacity as int - 1) <= u64::MAX,
{
    let c = q.capacity as int;
    let pn = q.period_secs as int * 1_000_000_000;
    let raw = pn / c;
    vstd::arithmetic::div_mod::lemma_fundamental_div_mod(pn, c);
    vstd::arithmetic::div_mod::lemma_mod_bound(pn, c);
    vstd::arithmetic::div_mod::lemma_div_pos_is_pos(pn, c);
    assert(pn <= u64::MAX);
    if raw != 0 {
        assert(raw * (c - 1) <= pn && raw <= pn) by (nonlinear_arith)
            requires
                c >= 1,
                raw >= 0,
                pn == c * raw + (pn % c),
                pn % c >= 0,
        {}
        assert(q.replenish_interval_nanos() == raw as u64);
        assert((raw as u64) as int == raw);
    } else {
        assert(q.replenish_interval_nanos() == 1);
        assert(1 * (c - 1) == c - 1);
    }
}

/// A pair of quotas that are enforced independently: a short burst window
/// and a longer sustained window. A request must be admitted by both.
#[derive(Clone, Copy, Debug, PartialEq, Eq, Structural)]
pub struct MultiWindowQuota {
    /// The short-term burst limit.
    pub burst: Quota,
    /// The long-term sustained limit.
    pub sustained: Quota,
}

impl MultiWindowQuota {
    /// Both windows must be well formed.
    pub open spec fn wf(self) -> bool {
        self.burst.wf() && self.sustained.wf()
    }
}

} // verus!
