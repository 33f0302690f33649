//! Token-bucket limiter instances and the registry that holds one limiter
//! per configured quota.
//!
//! The buckets themselves are `governor` rate limiters: concurrency-safe
//! objects whose token accounting happens against the real-time clock and
//! is therefore opaque here. Everything around them — which limiter exists,
//! with which quota it was built, and in which order a request consults
//! them — is verified.

use crate::config::Category;
use crate::config::Config;
use crate::config::opt_multi_wf;
use crate::config::opt_quota_wf;
use crate::quota::MultiWindowQuota;
use crate::quota::Quota;
use governor::clock::Clock;
use vstd::prelude::*;

verus! {

/// The shared `governor` bucket that does the token accounting.
///
/// `governor::RateLimiter`'s generic parameters are bounded by `governor`'s
/// own traits, so the type cannot be named in a verified signature; the
/// handle is held opaquely instead. Verified code reaches it only through
/// the trusted functions below; the unverified asynchronous layer that
/// waits on a bucket reaches the limiter itself.
#[verifier::external_body]
pub struct BucketHandle {
    /// The `governor` limiter, shared across all callers of its category.
    pub inner: std::sync::Arc<
        governor::RateLimiter<
            governor::state::NotKeyed,
            governor::state::InMemoryState,
            governor::clock::QuantaClock,
            governor::middleware::NoOpMiddleware<governor::clock::QuantaInstant>,
        >,
    >,
}

/// The replenishment interval that `Limiter::new` hands to the bucket:
/// one token per `period / capacity`, clamped up to a nanosecond.
fn replenish_interval(quota: &Quota) -> (r: u64)
    requires
        quota.wf(),
    ensures
        r == quota.replenish_interval_nanos(),
        r > 0,
{
    let total: u64 = quota.period_secs * 1_000_000_000;
    let raw: u64 = total / (quota.capacity as u64);
    if raw == 0 {
        1
    } else {
        raw
    }
}

/// Relies on `governor::Quota::with_period` and `Quota::allow_burst` (a
/// token bucket of `capacity` cells that replenishes one cell every
/// `replenish_nanos` nanoseconds) and on `governor::RateLimiter::direct`,
/// which builds the in-memory limiter that enforces that quota against the
/// real-time clock. `with_period` returns `None` only for a zero interval,
/// and `NonZeroU32::new` `None` only for zero, both excluded here; the
/// last clause keeps the bucket tolerance `direct` computes — the interval
/// times `capacity - 1`, multiplied unchecked in `u64` — from overflowing.
#[verifier::external_body]
fn new_token_bucket(capacity: u32, replenish_nanos: u64) -> (r: BucketHandle)
    requires
        capacity > 0,
        replenish_nanos > 0,
        (replenish_nanos as int) * (capacity as int - 1) <= u64::MAX,
{
    let period = std::time::Duration::from_nanos(replenish_nanos);
    let gq = governor::Quota::with_period(period)
        .expect("interval is positive")
        .allow_burst(std::num::NonZeroU32::new(capacity).expect("capacity is positive"));
    BucketHandle { inner: std::sync::Arc::new(governor::RateLimiter::direct(gq)) }
}

/// Relies on `governor::RateLimiter::check`: a non-blocking probe that
/// consumes one token and returns `Ok` when the bucket currently holds
/// one, and consumes nothing and returns `Err(not_until)` when it is
/// empty; and on `governor::NotUntil::wait_time_from` together with
/// `RateLimiter::clock`, which turn the denial into the duration after
/// which a retry can succeed. The outcome depends on the clock and on
/// every earlier grant, so nothing is stated of the result: `None` means
/// one token was consumed, `Some(nanos)` means nothing was consumed and a
/// retry is futile for `nanos` nanoseconds.
#[verifier::external_body]
fn probe_token_bucket(handle: &BucketHandle) -> (denied_for: Option<u64>) {
    match handle.inner.check() {
        Ok(()) => None,
        Err(not_until) => {
            let wait = not_until.wait_time_from(handle.inner.clock().now());
            Some(wait.as_nanos() as u64)
        },
    }
}

/// One concurrency-safe token bucket, paired with the quota it enforces.
pub struct Limiter {
    /// The rate specification this bucket was built from.
    pub quota: Quota,
    /// The shared bucket that does the token accounting.
    pub handle: BucketHandle,
}

impl Limiter {
    /// Build one token bucket enforcing `quota`.
    pub fn new(quota: Quota) -> (r: Limiter)
        requires
            quota.wf(),
        ensures
            r.quota == quota,
    {
        let interval = replenish_interval(&quota);
        proof {
            crate::quota::lemma_replenish_interval_fits(quota);
        }
        Limiter { quota, handle: new_token_bucket(quota.capacity, interval) }
    }

    /// Probe this bucket once without waiting: consume a token and report
    /// `true` when one is available right now, report `false` and consume
    /// nothing otherwise.
    pub fn try_acquire(&self) -> bool {
        probe_token_bucket(&self.handle).is_none()
    }

    /// Probe this bucket once without waiting. `None`: a token was
    /// consumed and the request is admitted by this bucket. `Some(nanos)`:
    /// the bucket is empty, nothing was consumed, and a retry cannot
    /// succeed for `nanos` nanoseconds.
    pub fn try_acquire_or_wait_hint(&self) -> Option<u64> {
        probe_token_bucket(&self.handle)
    }
}

/// A limiter slot agrees with a configured quota slot: a limiter stands
/// there exactly when a quota is configured, and it enforces that quota.
pub open spec fn slot_matches(slot: Option<Limiter>, q: Option<Quota>) -> bool {
    (slot is Some <==> q is Some) && (slot is Some ==> slot->Some_0.quota == q->Some_0)
}

/// Build the limiter for one plain category slot.
fn build_slot(q: &Option<Quota>) -> (r: Option<Limiter>)
    requires
        opt_quota_wf(*q),
    ensures
        slot_matches(r, *q),
{
    match q {
        Some(quota) => Some(Limiter::new(*quota)),
        None => None,
    }
}

/// Build the limiter for the burst window of a multi-window slot.
fn build_burst_slot(m: &Option<MultiWindowQuota>) -> (r: Option<Limiter>)
    requires
        opt_multi_wf(*m),
    ensures
        r is Some <==> *m is Some,
        r is Some ==> r->Some_0.quota == m->Some_0.burst,
{
    match m {
        Some(pair) => Some(Limiter::new(pair.burst)),
        None => None,
    }
}

/// Build the limiter for the sustained window of a multi-window slot.
fn build_sustained_slot(m: &Option<MultiWindowQuota>) -> (r: Option<Limiter>)
    requires
        opt_multi_wf(*m),
    ensures
        r is Some <==> *m is Some,
        r is Some ==> r->Some_0.quota == m->Some_0.sustained,
{
    match m {
        Some(pair) => Some(Limiter::new(pair.sustained)),
        None => None,
    }
}

/// One limiter per configured quota: categories whose configuration slot
/// is `None` get no limiter, multi-window endpoints get two independent
/// limiters. Built once from a configuration and structurally immutable
/// thereafter; only the buckets' internal token counts change.
pub struct RateLimiters {
    /// Global limiter across all APIs.
    pub global: Option<Limiter>,
    /// General CLOB limiter.
    pub clob_general: Option<Limiter>,
    /// CLOB book limiter.
    pub clob_book: Option<Limiter>,
    /// CLOB price limiter.
    pub clob_price: Option<Limiter>,
    /// CLOB midpoint limiter.
    pub clob_midpoint: Option<Limiter>,
    /// CLOB order placement, burst window.
    pub clob_post_order_burst: Option<Limiter>,
    /// CLOB order placement, sustained window.
    pub clob_post_order_sustained: Option<Limiter>,
    /// CLOB order cancellation, burst window.
    pub clob_delete_order_burst: Option<Limiter>,
    /// CLOB order cancellation, sustained window.
    pub clob_delete_order_sustained: Option<Limiter>,
    /// CLOB submit limiter.
    pub clob_submit: Option<Limiter>,
    /// CLOB user PNL limiter.
    pub clob_user_pnl: Option<Limiter>,
    /// General Gamma limiter.
    pub gamma_general: Option<Limiter>,
    /// Gamma events limiter.
    pub gamma_events: Option<Limiter>,
    /// Gamma markets limiter.
    pub gamma_markets: Option<Limiter>,
    /// Gamma per-market events limiter.
    pub gamma_markets_events: Option<Limiter>,
    /// Gamma comments limiter.
    pub gamma_comments: Option<Limiter>,
    /// Gamma tags limiter.
    pub gamma_tags: Option<Limiter>,
    /// Gamma search limiter.
    pub gamma_search: Option<Limiter>,
    /// General Data limiter.
    pub data_general: Option<Limiter>,
    /// Data trades limiter.
    pub data_trades: Option<Limiter>,
    /// Data positions limiter.
    pub data_positions: Option<Limiter>,
    /// Data closed positions limiter.
    pub data_closed_positions: Option<Limiter>,
    /// General Bridge limiter.
    pub bridge_general: Option<Limiter>,
}

impl RateLimiters {
    /// The limiter slot of one category.
    pub open spec fn limiter_of(self, cat: Category) -> Option<Limiter> {
        match cat {
            Category::Global => self.global,
            Category::ClobGeneral => self.clob_general,
            Category::ClobBook => self.clob_book,
            Category::ClobPrice => self.clob_price,
            Category::ClobMidpoint => self.clob_midpoint,
            Category::ClobPostOrderBurst => self.clob_post_order_burst,
            Category::ClobPostOrderSustained => self.clob_post_order_sustained,
            Category::ClobDeleteOrderBurst => self.clob_delete_order_burst,
            Category::ClobDeleteOrderSustained => self.clob_delete_order_sustained,
            Category::ClobSubmit => self.clob_submit,
            Category::ClobUserPnl => self.clob_user_pnl,
            Category::GammaGeneral => self.gamma_general,
            Category::GammaEvents => self.gamma_events,
            Category::GammaMarkets => self.gamma_markets,
            Category::GammaMarketsEvents => self.gamma_markets_events,
            Category::GammaComments => self.gamma_comments,
            Category::GammaTags => self.gamma_tags,
            Category::GammaSearch => self.gamma_search,
            Category::DataGeneral => self.data_general,
            Category::DataTrades => self.data_trades,
            Category::DataPositions => self.data_positions,
            Category::DataClosedPositions => self.data_closed_positions,
            Category::BridgeGeneral => self.bridge_general,
        }
    }

    /// The registry agrees with a configuration on every category: a
    /// limiter stands exactly where a quota is configured, and enforces
    /// that quota.
    pub open spec fn matches_config(self, c: Config) -> bool {
        &&& slot_matches(self.global, c.quota_for(Category::Global))
        &&& slot_matches(self.clob_general, c.quota_for(Category::ClobGeneral))
        &&& slot_matches(self.clob_book, c.quota_for(Category::ClobBook))
        &&& slot_matches(self.clob_price, c.quota_for(Category::ClobPrice))
        &&& slot_matches(self.clob_midpoint, c.quota_for(Category::ClobMidpoint))
        &&& slot_matches(self.clob_post_order_burst, c.quota_for(Category::ClobPostOrderBurst))
        &&& slot_matches(
            self.clob_post_order_sustained,
            c.quota_for(Category::ClobPostOrderSustained),
        )
        &&& slot_matches(self.clob_delete_order_burst, c.quota_for(Category::ClobDeleteOrderBurst))
        &&& slot_matches(
            self.clob_delete_order_sustained,
            c.quota_for(Category::ClobDeleteOrderSustained),
        )
        &&& slot_matches(self.clob_submit, c.quota_for(Category::ClobSubmit))
        &&& slot_matches(self.clob_user_pnl, c.quota_for(Category::ClobUserPnl))
        &&& slot_matches(self.gamma_general, c.quota_for(Category::GammaGeneral))
        &&& slot_matches(self.gamma_events, c.quota_for(Category::GammaEvents))
        &&& slot_matches(self.gamma_markets, c.quota_for(Category::GammaMarkets))
        &&& slot_matches(self.gamma_markets_events, c.quota_for(Category::GammaMarketsEvents))
        &&& slot_matches(self.gamma_comments, c.quota_for(Category::GammaComments))
        &&& slot_matches(self.gamma_tags, c.quota_for(Category::GammaTags))
        &&& slot_matches(self.gamma_search, c.quota_for(Category::GammaSearch))
        &&& slot_matches(self.data_general, c.quota_for(Category::DataGeneral))
        &&& slot_matches(self.data_trades, c.quota_for(Category::DataTrades))
        &&& slot_matches(self.data_positions, c.quota_for(Category::DataPositions))
        &&& slot_matches(self.data_closed_positions, c.quota_for(Category::DataClosedPositions))
        &&& slot_matches(self.bridge_general, c.quota_for(Category::BridgeGeneral))
    }

    /// Create rate limiters from a configuration: exactly one limiter per
    /// present quota, two for each present burst/sustained pair.
    pub fn new(config: &Config) -> (r: RateLimiters)
        requires
            config.wf(),
        ensures
            r.matches_config(*config),
    {
        RateLimiters {
            global: build_slot(&config.global_limit),
            clob_general: build_slot(&config.clob_general),
            clob_book: build_slot(&config.clob_book),
            clob_price: build_slot(&config.clob_price),
            clob_midpoint: build_slot(&config.clob_midpoint),
            clob_post_order_burst: build_burst_slot(&config.clob_post_order),
            clob_post_order_sustained: build_sustained_slot(&config.clob_post_order),
            clob_delete_order_burst: build_burst_slot(&config.clob_delete_order),
            clob_delete_order_sustained: build_sustained_slot(&config.clob_delete_order),
            clob_submit: build_slot(&config.clob_submit),
            clob_user_pnl: build_slot(&config.clob_user_pnl),
            gamma_general: build_slot(&config.gamma_general),
            gamma_events: build_slot(&config.gamma_events),
            gamma_markets: build_slot(&config.gamma_markets),
            gamma_markets_events: build_slot(&config.gamma_markets_events),
            gamma_comments: build_slot(&config.gamma_comments),
            gamma_tags: build_slot(&config.gamma_tags),
            gamma_search: build_slot(&config.gamma_search),
            data_general: build_slot(&config.data_general),
            data_trades: build_slot(&config.data_trades),
            data_positions: build_slot(&config.data_positions),
            data_closed_positions: build_slot(&config.data_closed_positions),
            bridge_general: build_slot(&config.bridge_general),
        }
    }

    /// The limiter slot of one category, for callers that walk a plan.
    pub fn limiter_for(&self, cat: Category) -> (r: &Option<Limiter>)
        ensures
            *r == self.limiter_of(cat),
    {
        match cat {
            Category::Global => &self.global,
            Category::ClobGeneral => &self.clob_general,
            Category::ClobBook => &self.clob_book,
            Category::ClobPrice => &self.clob_price,
            Category::ClobMidpoint => &self.clob_midpoint,
            Category::ClobPostOrderBurst => &self.clob_post_order_burst,
            Category::ClobPostOrderSustained => &self.clob_post_order_sustained,
            Category::ClobDeleteOrderBurst => &self.clob_delete_order_burst,
            Category::ClobDeleteOrderSustained => &self.clob_delete_order_sustained,
            Category::ClobSubmit => &self.clob_submit,
            Category::ClobUserPnl => &self.clob_user_pnl,
            Category::GammaGeneral => &self.gamma_general,
            Category::GammaEvents => &self.gamma_events,
            Category::GammaMarkets => &self.gamma_markets,
            Category::GammaMarketsEvents => &self.gamma_markets_events,
            Category::GammaComments => &self.gamma_comments,
            Category::GammaTags => &self.gamma_tags,
            Category::GammaSearch => &self.gamma_search,
            Category::DataGeneral => &self.data_general,
            Category::DataTrades => &self.data_trades,
            Category::DataPositions => &self.data_positions,
            Category::DataClosedPositions => &self.data_closed_positions,
            Category::BridgeGeneral => &self.bridge_general,
        }
    }
}

/// Law: a registry that matches a configuration does so category by
/// category.
pub proof fn lemma_matches_config_at(r: RateLimiters, c: Config, cat: Category)
    requires
        r.matches_config(c),
    ensures
        slot_matches(r.limiter_of(cat), c.quota_for(cat)),
{
    match cat {
        Category::Global => {},
        Category::ClobGeneral => {},
        Category::ClobBook => {},
        Category::ClobPrice => {},
        Category::ClobMidpoint => {},
        Category::ClobPostOrderBurst => {},
        Category::ClobPostOrderSustained => {},
        Category::ClobDeleteOrderBurst => {},
        Category::ClobDeleteOrderSustained => {},
        Category::ClobSubmit => {},
        Category::ClobUserPnl => {},
        Category::GammaGeneral => {},
        Category::GammaEvents => {},
        Category::GammaMarkets => {},
        Category::GammaMarketsEvents => {},
        Category::GammaComments => {},
        Category::GammaTags => {},
        Category::GammaSearch => {},
        Category::DataGeneral => {},
        Category::DataTrades => {},
        Category::DataPositions => {},
        Category::DataClosedPositions => {},
        Category::BridgeGeneral => {},
    }
}

} // verus!
