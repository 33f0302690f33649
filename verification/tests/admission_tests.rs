use polymarket_rate_limit::ApiType;
use polymarket_rate_limit::Category;
use polymarket_rate_limit::Config;
use polymarket_rate_limit::Endpoint;
use polymarket_rate_limit::MultiWindowQuota;
use polymarket_rate_limit::Quota;
use polymarket_rate_limit::RateLimiters;
use polymarket_rate_limit::admission_plan;

#[test]
fn rate_limiters_can_be_created() {
    let config = Config::default();
    let limiters = RateLimiters::new(&config);
    assert!(limiters.global.is_some());
    assert!(limiters.clob_general.is_some());
}

#[test]
fn default_registry_has_every_limiter_but_bridge() {
    let limiters = RateLimiters::new(&Config::default());
    assert!(limiters.global.is_some());
    assert!(limiters.clob_general.is_some());
    assert!(limiters.clob_book.is_some());
    assert!(limiters.clob_price.is_some());
    assert!(limiters.clob_midpoint.is_some());
    assert!(limiters.clob_post_order_burst.is_some());
    assert!(limiters.clob_post_order_sustained.is_some());
    assert!(limiters.clob_delete_order_burst.is_some());
    assert!(limiters.clob_delete_order_sustained.is_some());
    assert!(limiters.clob_submit.is_some());
    assert!(limiters.clob_user_pnl.is_some());
    assert!(limiters.gamma_general.is_some());
    assert!(limiters.gamma_events.is_some());
    assert!(limiters.gamma_markets.is_some());
    assert!(limiters.gamma_markets_events.is_some());
    assert!(limiters.gamma_comments.is_some());
    assert!(limiters.gamma_tags.is_some());
    assert!(limiters.gamma_search.is_some());
    assert!(limiters.data_general.is_some());
    assert!(limiters.data_trades.is_some());
    assert!(limiters.data_positions.is_some());
    assert!(limiters.data_closed_positions.is_some());
    assert!(limiters.bridge_general.is_none());
}

#[test]
fn default_registry_limiters_carry_their_quotas() {
    let limiters = RateLimiters::new(&Config::default());
    assert_eq!(
        limiters.global.as_ref().unwrap().quota,
        Quota { capacity: 15000, period_secs: 10 }
    );
    assert_eq!(
        limiters.clob_post_order_burst.as_ref().unwrap().quota,
        Quota { capacity: 3500, period_secs: 10 }
    );
    assert_eq!(
        limiters.clob_post_order_sustained.as_ref().unwrap().quota,
        Quota { capacity: 36000, period_secs: 600 }
    );
    assert_eq!(
        limiters.clob_submit.as_ref().unwrap().quota,
        Quota { capacity: 25, period_secs: 60 }
    );
}

#[test]
fn disabled_registry_has_no_limiters_and_always_admits() {
    let limiters = RateLimiters::new(&Config::disabled());
    assert!(limiters.global.is_none());
    assert!(limiters.clob_general.is_none());
    assert!(limiters.clob_book.is_none());
    assert!(limiters.bridge_general.is_none());
    for _ in 0..2000 {
        assert!(limiters.try_admit(ApiType::Clob, Endpoint::ClobBook));
        assert!(limiters.try_admit(ApiType::Gamma, Endpoint::GammaEvents));
        assert!(limiters.try_admit(ApiType::Unknown, Endpoint::Unknown));
    }
}

#[test]
fn plan_orders_categories_most_specific_first() {
    let plan = admission_plan(ApiType::Clob, Endpoint::ClobBook);
    assert_eq!(plan, vec![Category::ClobBook, Category::ClobGeneral, Category::Global]);
    let plan = admission_plan(ApiType::Clob, Endpoint::ClobPostOrder);
    assert_eq!(
        plan,
        vec![
            Category::ClobPostOrderBurst,
            Category::ClobPostOrderSustained,
            Category::ClobGeneral,
            Category::Global,
        ]
    );
    let plan = admission_plan(ApiType::Clob, Endpoint::ClobDeleteOrder);
    assert_eq!(
        plan,
        vec![
            Category::ClobDeleteOrderBurst,
            Category::ClobDeleteOrderSustained,
            Category::ClobGeneral,
            Category::Global,
        ]
    );
    let plan = admission_plan(ApiType::Unknown, Endpoint::Unknown);
    assert_eq!(plan, vec![Category::Global]);
    let plan = admission_plan(ApiType::Bridge, Endpoint::BridgeGeneral);
    assert_eq!(plan, vec![Category::BridgeGeneral, Category::Global]);
}

#[test]
fn burst_capacity_admits_then_denies() {
    let mut config = Config::disabled();
    config.clob_book = Some(Quota { capacity: 4, period_secs: 3600 });
    let limiters = RateLimiters::new(&config);
    for _ in 0..4 {
        assert!(limiters.try_admit(ApiType::Clob, Endpoint::ClobBook));
    }
    assert!(!limiters.try_admit(ApiType::Clob, Endpoint::ClobBook));
    // Other endpoints of the same API have no limiter and stay admitted.
    assert!(limiters.try_admit(ApiType::Clob, Endpoint::ClobPrice));
}

#[test]
fn exhausted_sustained_window_denies_even_when_burst_admits() {
    let mut config = Config::disabled();
    config.clob_post_order = Some(MultiWindowQuota {
        burst: Quota { capacity: 1000, period_secs: 10 },
        sustained: Quota { capacity: 3, period_secs: 3600 },
    });
    let limiters = RateLimiters::new(&config);
    for _ in 0..3 {
        assert!(limiters.try_admit(ApiType::Clob, Endpoint::ClobPostOrder));
    }
    // The burst window alone would admit many more, but the sustained
    // window is spent.
    assert!(!limiters.try_admit(ApiType::Clob, Endpoint::ClobPostOrder));
}

#[test]
fn exhausted_burst_window_denies_even_when_sustained_admits() {
    let mut config = Config::disabled();
    config.clob_delete_order = Some(MultiWindowQuota {
        burst: Quota { capacity: 3, period_secs: 3600 },
        sustained: Quota { capacity: 1000, period_secs: 3600 },
    });
    let limiters = RateLimiters::new(&config);
    for _ in 0..3 {
        assert!(limiters.try_admit(ApiType::Clob, Endpoint::ClobDeleteOrder));
    }
    assert!(!limiters.try_admit(ApiType::Clob, Endpoint::ClobDeleteOrder));
}

#[test]
fn general_limiter_counts_every_endpoint_of_its_api() {
    let mut config = Config::disabled();
    config.gamma_general = Some(Quota { capacity: 5, period_secs: 3600 });
    let limiters = RateLimiters::new(&config);
    assert!(limiters.try_admit(ApiType::Gamma, Endpoint::GammaEvents));
    assert!(limiters.try_admit(ApiType::Gamma, Endpoint::GammaMarkets));
    assert!(limiters.try_admit(ApiType::Gamma, Endpoint::GammaGeneral));
    assert!(limiters.try_admit(ApiType::Gamma, Endpoint::GammaTags));
    assert!(limiters.try_admit(ApiType::Gamma, Endpoint::GammaSearch));
    assert!(!limiters.try_admit(ApiType::Gamma, Endpoint::GammaComments));
    // Another API is not touched by Gamma's general limiter.
    assert!(limiters.try_admit(ApiType::Clob, Endpoint::ClobBook));
}

#[test]
fn global_limiter_counts_every_api() {
    let mut config = Config::disabled();
    config.global_limit = Some(Quota { capacity: 3, period_secs: 3600 });
    let limiters = RateLimiters::new(&config);
    assert!(limiters.try_admit(ApiType::Clob, Endpoint::ClobBook));
    assert!(limiters.try_admit(ApiType::Gamma, Endpoint::GammaEvents));
    assert!(limiters.try_admit(ApiType::Unknown, Endpoint::Unknown));
    assert!(!limiters.try_admit(ApiType::Data, Endpoint::DataTrades));
}

#[test]
fn denied_request_admits_after_a_refill_interval() {
    // Five tokens per second: one token replenishes every 200ms. After the
    // burst is spent a denied caller is admitted again well within the
    // period, not only after a whole one.
    let limiter = polymarket_rate_limit::Limiter::new(Quota { capacity: 5, period_secs: 1 });
    for _ in 0..5 {
        assert!(limiter.try_acquire());
    }
    assert!(!limiter.try_acquire());
    let start = std::time::Instant::now();
    while !limiter.try_acquire() {
        assert!(start.elapsed() < std::time::Duration::from_secs(5), "no refill arrived");
    }
    let waited = start.elapsed();
    assert!(waited >= std::time::Duration::from_millis(50), "refill came too early: {waited:?}");
    assert!(waited <= std::time::Duration::from_millis(900), "refill came too late: {waited:?}");
}

#[test]
fn single_limiter_try_acquire_follows_capacity() {
    let limiter = polymarket_rate_limit::Limiter::new(Quota { capacity: 2, period_secs: 3600 });
    assert_eq!(limiter.quota, Quota { capacity: 2, period_secs: 3600 });
    assert!(limiter.try_acquire());
    assert!(limiter.try_acquire());
    assert!(!limiter.try_acquire());
    assert!(limiter.try_acquire_or_wait_hint().is_some());
}
