//! The tiered admission check: given a request's classification, the
//! applicable limiters are consulted from most to least specific —
//! endpoint categories first (both windows of a multi-window endpoint, in
//! order), then the API catch-all, then the global catch-all. A category
//! without a limiter is skipped entirely.
//!
//! Each successful probe consumes one token from that limiter, and a token
//! once consumed is not returned when a later, less specific probe denies:
//! the design accepts minor overconsumption under contention in exchange
//! for keeping the check uncoordinated.

use crate::classify::ApiType;
use crate::classify::Endpoint;
use crate::config::Category;
use crate::config::Config;
use crate::registry::RateLimiters;
use crate::registry::lemma_matches_config_at;
use vstd::prelude::*;

verus! {

/// The endpoint-specific categories a classification must pass: one for
/// most named endpoints, the burst window followed by the sustained
/// window for the multi-window ones, none for the general and unknown
/// fallbacks.
pub open spec fn endpoint_categories(endpoint: Endpoint) -> Seq<Category> {
    match endpoint {
        Endpoint::ClobBook => seq![Category::ClobBook],
        Endpoint::ClobPrice => seq![Category::ClobPrice],
        Endpoint::ClobMidpoint => seq![Category::ClobMidpoint],
        Endpoint::ClobPostOrder => seq![
            Category::ClobPostOrderBurst,
            Category::ClobPostOrderSustained,
        ],
        Endpoint::ClobDeleteOrder => seq![
            Category::ClobDeleteOrderBurst,
            Category::ClobDeleteOrderSustained,
        ],
        Endpoint::ClobSubmit => seq![Category::ClobSubmit],
        Endpoint::ClobUserPnl => seq![Category::ClobUserPnl],
        Endpoint::ClobGeneral => seq![],
        Endpoint::GammaEvents => seq![Category::GammaEvents],
        Endpoint::GammaMarkets => seq![Category::GammaMarkets],
        Endpoint::GammaMarketsEvents => seq![Category::GammaMarketsEvents],
        Endpoint::GammaComments => seq![Category::GammaComments],
        Endpoint::GammaTags => seq![Category::GammaTags],
        Endpoint::GammaSearch => seq![Category::GammaSearch],
        Endpoint::GammaGeneral => seq![],
        Endpoint::DataTrades => seq![Category::DataTrades],
        Endpoint::DataPositions => seq![Category::DataPositions],
        Endpoint::DataClosedPositions => seq![Category::DataClosedPositions],
        Endpoint::DataGeneral => seq![],
        Endpoint::BridgeGeneral => seq![],
        Endpoint::Unknown => seq![],
    }
}

/// The catch-all category of an API; unknown targets have none.
pub open spec fn api_category(api: ApiType) -> Option<Category> {
    match api {
        ApiType::Clob => Some(Category::ClobGeneral),
        ApiType::Gamma => Some(Category::GammaGeneral),
        ApiType::Data => Some(Category::DataGeneral),
        ApiType::Bridge => Some(Category::BridgeGeneral),
        ApiType::Unknown => None,
    }
}

/// The API tier of the plan as a sequence: empty for an unknown target.
pub open spec fn api_categories(api: ApiType) -> Seq<Category> {
    match api_category(api) {
        Some(cat) => seq![cat],
        None => seq![],
    }
}

/// The full, ordered list of categories a classified request must pass:
/// most specific first, the global catch-all always last.
pub open spec fn plan_spec(api: ApiType, endpoint: Endpoint) -> Seq<Category> {
    endpoint_categories(endpoint) + api_categories(api) + seq![Category::Global]
}

/// The ordered categories of `plan_spec`, computed.
pub fn admission_plan(api: ApiType, endpoint: Endpoint) -> (plan: Vec<Category>)
    ensures
        plan@ == plan_spec(api, endpoint),
{
    let mut plan: Vec<Category> = Vec::new();
    match endpoint {
        Endpoint::ClobBook => plan.push(Category::ClobBook),
        Endpoint::ClobPrice => plan.push(Category::ClobPrice),
        Endpoint::ClobMidpoint => plan.push(Category::ClobMidpoint),
        Endpoint::ClobPostOrder => {
            plan.push(Category::ClobPostOrderBurst);
            plan.push(Category::ClobPostOrderSustained);
        },
        Endpoint::ClobDeleteOrder => {
            plan.push(Category::ClobDeleteOrderBurst);
            plan.push(Category::ClobDeleteOrderSustained);
        },
        Endpoint::ClobSubmit => plan.push(Category::ClobSubmit),
        Endpoint::ClobUserPnl => plan.push(Category::ClobUserPnl),
        Endpoint::ClobGeneral => {},
        Endpoint::GammaEvents => plan.push(Category::GammaEvents),
        Endpoint::GammaMarkets => plan.push(Category::GammaMarkets),
        Endpoint::GammaMarketsEvents => plan.push(Category::GammaMarketsEvents),
        Endpoint::GammaComments => plan.push(Category::GammaComments),
        Endpoint::GammaTags => plan.push(Category::GammaTags),
        Endpoint::GammaSearch => plan.push(Category::GammaSearch),
        Endpoint::GammaGeneral => {},
        Endpoint::DataTrades => plan.push(Category::DataTrades),
        Endpoint::DataPositions => plan.push(Category::DataPositions),
        Endpoint::DataClosedPositions => plan.push(Category::DataClosedPositions),
        Endpoint::DataGeneral => {},
        Endpoint::BridgeGeneral => {},
        Endpoint::Unknown => {},
    }
    assert(plan@ =~= endpoint_categories(endpoint));
    match api {
        ApiType::Clob => plan.push(Category::ClobGeneral),
        ApiType::Gamma => plan.push(Category::GammaGeneral),
        ApiType::Data => plan.push(Category::DataGeneral),
        ApiType::Bridge => plan.push(Category::BridgeGeneral),
        ApiType::Unknown => {},
    }
    assert(plan@ =~= endpoint_categories(endpoint) + api_categories(api));
    plan.push(Category::Global);
    assert(plan@ =~= plan_spec(api, endpoint));
    plan
}

impl RateLimiters {
    /// No category the plan for this classification consults has a
    /// limiter: admission can never wait, however many requests come.
    pub open spec fn unlimited_for(self, api: ApiType, endpoint: Endpoint) -> bool {
        forall|i: int|
            0 <= i < plan_spec(api, endpoint).len() ==> self.limiter_of(
                #[trigger] plan_spec(api, endpoint)[i],
            ) is None
    }

    /// Check every applicable limiter once, most specific first, without
    /// waiting: `true` when each present limiter on the plan granted a
    /// token, `false` as soon as one denied. Tokens consumed before a
    /// denial stay consumed. Where no applicable limiter exists the
    /// request is always admitted.
    pub fn try_admit(&self, api: ApiType, endpoint: Endpoint) -> (granted: bool)
        ensures
            self.unlimited_for(api, endpoint) ==> granted,
    {
        let plan = admission_plan(api, endpoint);
        let mut i: usize = 0;
        while i < plan.len()
            invariant
                plan@ == plan_spec(api, endpoint),
                i <= plan@.len(),
            decreases plan@.len() - i,
        {
            match self.limiter_for(plan[i]) {
                Some(limiter) => {
                    if !limiter.try_acquire() {
                        return false;
                    }
                },
                None => {},
            }
            i += 1;
        }
        true
    }
}

/// Law: a registry built from the disabled configuration holds no limiter
/// for any category, so admission is unconditional for every
/// classification.
pub proof fn lemma_disabled_registry_unlimited(
    r: RateLimiters,
    api: ApiType,
    endpoint: Endpoint,
)
    requires
        r.matches_config(Config::disabled_spec()),
    ensures
        forall|cat: Category| r.limiter_of(cat) is None,
        r.unlimited_for(api, endpoint),
{
    assert forall|cat: Category| r.limiter_of(cat) is None by {
        lemma_matches_config_at(r, Config::disabled_spec(), cat);
        crate::config::lemma_disabled_unlimited(Config::disabled_spec(), cat);
    }
}

/// Law: a registry built from the default configuration holds a limiter
/// for every category but the Bridge catch-all, and each limiter enforces
/// exactly the documented quota of its category.
pub proof fn lemma_default_registry_limited(r: RateLimiters, cat: Category)
    requires
        r.matches_config(Config::default_spec()),
    ensures
        r.limiter_of(cat) is Some <==> cat != Category::BridgeGeneral,
        r.limiter_of(cat) is Some ==> r.limiter_of(cat)->Some_0.quota == Config::default_spec()
            .quota_for(cat)->Some_0,
{
    lemma_matches_config_at(r, Config::default_spec(), cat);
    crate::config::lemma_default_covers_categories(cat);
}

/// Law: a multi-window endpoint's plan waits on its burst window and then
/// on its sustained window before anything less specific.
pub proof fn lemma_multiwindow_plan(api: ApiType)
    ensures
        plan_spec(api, Endpoint::ClobPostOrder)[0] == Category::ClobPostOrderBurst,
        plan_spec(api, Endpoint::ClobPostOrder)[1] == Category::ClobPostOrderSustained,
        plan_spec(api, Endpoint::ClobDeleteOrder)[0] == Category::ClobDeleteOrderBurst,
        plan_spec(api, Endpoint::ClobDeleteOrder)[1] == Category::ClobDeleteOrderSustained,
{
}

/// Law: every plan ends with the global catch-all, after the endpoint
/// tier and the API tier.
pub proof fn lemma_plan_precedence(api: ApiType, endpoint: Endpoint)
    ensures
        plan_spec(api, endpoint).len() >= 1,
        plan_spec(api, endpoint).last() == Category::Global,
        plan_spec(api, endpoint) == endpoint_categories(endpoint) + api_categories(api) + seq![
            Category::Global,
        ],
{
}

} // verus!
