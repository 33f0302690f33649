//! The rate-limit configuration: one optional quota (or burst/sustained
//! pair) per recognized category, with the documented production values as
//! the default and a preset that disables every limit.

use crate::quota::MultiWindowQuota;
use crate::quota::Quota;
use vstd::prelude::*;

verus! {

/// The closed set of limiter categories: one global catch-all, one general
/// catch-all per API, and the named sub-endpoint categories. Burst and
/// sustained windows of a multi-window endpoint are separate categories,
/// because each owns its own limiter.
#[derive(Debug, Clone, Copy, PartialEq, Eq, Structural)]
pub enum Category {
    /// Across all APIs.
    Global,
    /// CLOB catch-all.
    ClobGeneral,
    /// CLOB order book.
    ClobBook,
    /// CLOB price.
    ClobPrice,
    /// CLOB midpoint.
    ClobMidpoint,
    /// CLOB order placement, burst window.
    ClobPostOrderBurst,
    /// CLOB order placement, sustained window.
    ClobPostOrderSustained,
    /// CLOB order cancellation, burst window.
    ClobDeleteOrderBurst,
    /// CLOB order cancellation, sustained window.
    ClobDeleteOrderSustained,
    /// CLOB submit/relayer.
    ClobSubmit,
    /// CLOB user PNL.
    ClobUserPnl,
    /// Gamma catch-all.
    GammaGeneral,
    /// Gamma events.
    GammaEvents,
    /// Gamma markets.
    GammaMarkets,
    /// Gamma per-market events listing.
    GammaMarketsEvents,
    /// Gamma comments.
    GammaComments,
    /// Gamma tags.
    GammaTags,
    /// Gamma search.
    GammaSearch,
    /// Data catch-all.
    DataGeneral,
    /// Data trades.
    DataTrades,
    /// Data positions.
    DataPositions,
    /// Data closed positions.
    DataClosedPositions,
    /// Bridge catch-all.
    BridgeGeneral,
}

/// Configuration for rate limiting: a quota per category, or `None` for
/// "unlimited — build no limiter". Immutable once handed to the registry;
/// any field may be replaced or nullified beforehand to override one
/// category without affecting the others.
#[derive(Clone, Debug)]
pub struct Config {
    /// Global limit across all APIs.
    pub global_limit: Option<Quota>,
    /// General CLOB API limit.
    pub clob_general: Option<Quota>,
    /// CLOB book endpoint.
    pub clob_book: Option<Quota>,
    /// CLOB price endpoint.
    pub clob_price: Option<Quota>,
    /// CLOB midpoint endpoint.
    pub clob_midpoint: Option<Quota>,
    /// CLOB order placement (burst + sustained).
    pub clob_post_order: Option<MultiWindowQuota>,
    /// CLOB order cancellation (burst + sustained).
    pub clob_delete_order: Option<MultiWindowQuota>,
    /// CLOB submit/relayer endpoint.
    pub clob_submit: Option<Quota>,
    /// CLOB user PNL endpoint.
    pub clob_user_pnl: Option<Quota>,
    /// General Gamma API limit.
    pub gamma_general: Option<Quota>,
    /// Gamma events endpoint.
    pub gamma_events: Option<Quota>,
    /// Gamma markets endpoint.
    pub gamma_markets: Option<Quota>,
    /// Gamma per-market events listing.
    pub gamma_markets_events: Option<Quota>,
    /// Gamma comments endpoint.
    pub gamma_comments: Option<Quota>,
    /// Gamma tags endpoint.
    pub gamma_tags: Option<Quota>,
    /// Gamma search endpoint.
    pub gamma_search: Option<Quota>,
    /// General Data API limit.
    pub data_general: Option<Quota>,
    /// Data trades endpoint.
    pub data_trades: Option<Quota>,
    /// Data positions endpoint.
    pub data_positions: Option<Quota>,
    /// Data closed positions endpoint.
    pub data_closed_positions: Option<Quota>,
    /// General Bridge API limit (none documented).
    pub bridge_general: Option<Quota>,
}

/// An optional quota is well formed when, if present, the quota is.
pub open spec fn opt_quota_wf(o: Option<Quota>) -> bool {
    o matches Some(q) ==> q.wf()
}

/// An optional quota pair is well formed when, if present, both windows are.
pub open spec fn opt_multi_wf(o: Option<MultiWindowQuota>) -> bool {
    o matches Some(m) ==> m.wf()
}

impl Config {
    /// Every present quota is well formed.
    pub open spec fn wf(self) -> bool {
        &&& opt_quota_wf(self.global_limit)
        &&& opt_quota_wf(self.clob_general)
        &&& opt_quota_wf(self.clob_book)
        &&& opt_quota_wf(self.clob_price)
        &&& opt_quota_wf(self.clob_midpoint)
        &&& opt_multi_wf(self.clob_post_order)
        &&& opt_multi_wf(self.clob_delete_order)
        &&& opt_quota_wf(self.clob_submit)
        &&& opt_quota_wf(self.clob_user_pnl)
        &&& opt_quota_wf(self.gamma_general)
        &&& opt_quota_wf(self.gamma_events)
        &&& opt_quota_wf(self.gamma_markets)
        &&& opt_quota_wf(self.gamma_markets_events)
        &&& opt_quota_wf(self.gamma_comments)
        &&& opt_quota_wf(self.gamma_tags)
        &&& opt_quota_wf(self.gamma_search)
        &&& opt_quota_wf(self.data_general)
        &&& opt_quota_wf(self.data_trades)
        &&& opt_quota_wf(self.data_positions)
        &&& opt_quota_wf(self.data_closed_positions)
        &&& opt_quota_wf(self.bridge_general)
    }

    /// The quota this configuration gives one category; the burst and
    /// sustained windows of a multi-window endpoint read their halves of
    /// the pair.
    pub open spec fn quota_for(self, cat: Category) -> Option<Quota> {
        match cat {
            Category::Global => self.global_limit,
            Category::ClobGeneral => self.clob_general,
            Category::ClobBook => self.clob_book,
            Category::ClobPrice => self.clob_price,
            Category::ClobMidpoint => self.clob_midpoint,
            Category::ClobPostOrderBurst => match self.clob_post_order {
                Some(m) => Some(m.burst),
                None => None,
            },
            Category::ClobPostOrderSustained => match self.clob_post_order {
                Some(m) => Some(m.sustained),
                None => None,
            },
            Category::ClobDeleteOrderBurst => match self.clob_delete_order {
                Some(m) => Some(m.burst),
                None => None,
            },
            Category::ClobDeleteOrderSustained => match self.clob_delete_order {
                Some(m) => Some(m.sustained),
                None => None,
            },
            Category::ClobSubmit => self.clob_submit,
            Category::ClobUserPnl => self.clob_user_pnl,
            Category::GammaGeneral => self.gamma_general,
            Category::GammaEvents => self.gamma_events,
            Category::GammaMarkets => self.gamma_markets,
            Category::GammaMarketsEvents => self.gamma_markets_events,
            Category::GammaComments => self.gamma_comments,
            Category::GammaTags => self.gamma_tags,
            Category::GammaSearch => self.gamma_search,
            Category::DataGeneral => self.data_general,
            Category::DataTrades => self.data_trades,
            Category::DataPositions => self.data_positions,
            Category::DataClosedPositions => self.data_closed_positions,
            Category::BridgeGeneral => self.bridge_general,
        }
    }

    /// The documented production limits, category by category.
    pub open spec fn default_spec() -> Config {
        Config {
            global_limit: Some(Quota { capacity: 15000, period_secs: 10 }),
            clob_general: Some(Quota { capacity: 9000, period_secs: 10 }),
            clob_book: Some(Quota { capacity: 1500, period_secs: 10 }),
            clob_price: Some(Quota { capacity: 1500, period_secs: 10 }),
            clob_midpoint: Some(Quota { capacity: 1500, period_secs: 10 }),
            clob_post_order: Some(
                MultiWindowQuota {
                    burst: Quota { capacity: 3500, period_secs: 10 },
                    sustained: Quota { capacity: 36000, period_secs: 600 },
                },
            ),
            clob_delete_order: Some(
                MultiWindowQuota {
                    burst: Quota { capacity: 3000, period_secs: 10 },
                    sustained: Quota { capacity: 30000, period_secs: 600 },
                },
            ),
            clob_submit: Some(Quota { capacity: 25, period_secs: 60 }),
            clob_user_pnl: Some(Quota { capacity: 200, period_secs: 10 }),
            gamma_general: Some(Quota { capacity: 4000, period_secs: 10 }),
            gamma_events: Some(Quota { capacity: 500, period_secs: 10 }),
            gamma_markets: Some(Quota { capacity: 300, period_secs: 10 }),
            gamma_markets_events: Some(Quota { capacity: 900, period_secs: 10 }),
            gamma_comments: Some(Quota { capacity: 200, period_secs: 10 }),
            gamma_tags: Some(Quota { capacity: 200, period_secs: 10 }),
            gamma_search: Some(Quota { capacity: 350, period_secs: 10 }),
            data_general: Some(Quota { capacity: 1000, period_secs: 10 }),
            data_trades: Some(Quota { capacity: 200, period_secs: 10 }),
            data_positions: Some(Quota { capacity: 150, period_secs: 10 }),
            data_closed_positions: Some(Quota { capacity: 150, period_secs: 10 }),
            bridge_general: None,
        }
    }

    /// The configuration with every category unlimited.
    pub open spec fn disabled_spec() -> Config {
        Config {
            global_limit: None,
            clob_general: None,
            clob_book: None,
            clob_price: None,
            clob_midpoint: None,
            clob_post_order: None,
            clob_delete_order: None,
            clob_submit: None,
            clob_user_pnl: None,
            gamma_general: None,
            gamma_events: None,
            gamma_markets: None,
            gamma_markets_events: None,
            gamma_comments: None,
            gamma_tags: None,
            gamma_search: None,
            data_general: None,
            data_trades: None,
            data_positions: None,
            data_closed_positions: None,
            bridge_general: None,
        }
    }

    /// Create a configuration with all rate limiting disabled: no category
    /// carries a quota, so no limiter is ever built and admission never
    /// waits.
    pub fn disabled() -> (r: Config)
        ensures
            r == Config::disabled_spec(),
            r.wf(),
            forall|cat: Category| r.quota_for(cat) is None,
    {
        let r = Config {
            global_limit: None,
            clob_general: None,
            clob_book: None,
            clob_price: None,
            clob_midpoint: None,
            clob_post_order: None,
            clob_delete_order: None,
            clob_submit: None,
            clob_user_pnl: None,
            gamma_general: None,
            gamma_events: None,
            gamma_markets: None,
            gamma_markets_events: None,
            gamma_comments: None,
            gamma_tags: None,
            gamma_search: None,
            data_general: None,
            data_trades: None,
            data_positions: None,
            data_closed_positions: None,
            bridge_general: None,
        };
        proof {
            assert(forall|cat: Category| r.quota_for(cat) is None) by {
                assert forall|cat: Category| r.quota_for(cat) is None by {
                    lemma_disabled_unlimited(r, cat);
                }
            }
        }
        r
    }
}

/// Law: the disabled configuration gives no category a quota.
pub proof fn lemma_disabled_unlimited(c: Config, cat: Category)
    requires
        c == Config::disabled_spec(),
    ensures
        c.quota_for(cat) is None,
{
}

/// Law: the default configuration gives every category except the Bridge
/// catch-all a quota, and every quota it gives is well formed.
pub proof fn lemma_default_covers_categories(cat: Category)
    ensures
        Config::default_spec().quota_for(cat) is Some <==> cat != Category::BridgeGeneral,
        opt_quota_wf(Config::default_spec().quota_for(cat)),
{
}

impl Default for Config {
    /// The documented production limits.
    fn default() -> (r: Config)
        ensures
            r == Config::default_spec(),
            r.wf(),
    {
        Config {
            global_limit: Some(Quota { capacity: 15000, period_secs: 10 }),
            clob_general: Some(Quota { capacity: 9000, period_secs: 10 }),
            clob_book: Some(Quota { capacity: 1500, period_secs: 10 }),
            clob_price: Some(Quota { capacity: 1500, period_secs: 10 }),
            clob_midpoint: Some(Quota { capacity: 1500, period_secs: 10 }),
            clob_post_order: Some(
                MultiWindowQuota {
                    burst: Quota { capacity: 3500, period_secs: 10 },
                    sustained: Quota { capacity: 36000, period_secs: 600 },
                },
            ),
            clob_delete_order: Some(
                MultiWindowQuota {
                    burst: Quota { capacity: 3000, period_secs: 10 },
                    sustained: Quota { capacity: 30000, period_secs: 600 },
                },
            ),
            clob_submit: Some(Quota { capacity: 25, period_secs: 60 }),
            clob_user_pnl: Some(Quota { capacity: 200, period_secs: 10 }),
            gamma_general: Some(Quota { capacity: 4000, period_secs: 10 }),
            gamma_events: Some(Quota { capacity: 500, period_secs: 10 }),
            gamma_markets: Some(Quota { capacity: 300, period_secs: 10 }),
            gamma_markets_events: Some(Quota { capacity: 900, period_secs: 10 }),
            gamma_comments: Some(Quota { capacity: 200, period_secs: 10 }),
            gamma_tags: Some(Quota { capacity: 200, period_secs: 10 }),
            gamma_search: Some(Quota { capacity: 350, period_secs: 10 }),
            data_general: Some(Quota { capacity: 1000, period_secs: 10 }),
            data_trades: Some(Quota { capacity: 200, period_secs: 10 }),
            data_positions: Some(Quota { capacity: 150, period_secs: 10 }),
            data_closed_positions: Some(Quota { capacity: 150, period_secs: 10 }),
            bridge_general: None,
        }
    }
}

} // verus!
