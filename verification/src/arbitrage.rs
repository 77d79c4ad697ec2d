//! Arbitrage detection over two venues' quote lists.
//!
//! For each quote of the first venue the detector looks for the best
//! matching outcome among the second venue's quotes; the first pair whose
//! implied profit reaches the threshold is returned, deliberately not the
//! globally best one — a simplicity and latency trade-off.

use vstd::prelude::*;

use crate::fixed::{valid_price, Dec, SCALE};
use crate::matcher::{is_best_at, match_spec, sim_spec, OutcomeMatcher};
use crate::models::{ArbitrageOpportunity, MarketOdds};

verus! {

/// The absolute price gap between the two quotes, in micro-units.
pub open spec fn gap_units(qa: MarketOdds, qb: MarketOdds) -> int {
    if qb.odds.units >= qa.odds.units {
        qb.odds.units - qa.odds.units
    } else {
        qa.odds.units - qb.odds.units
    }
}

/// Implied profit of a matched pair: the absolute price gap normalised by
/// the first leg's price, in micro-units.
pub open spec fn profit_units(qa: MarketOdds, qb: MarketOdds) -> int {
    gap_units(qa, qb) * SCALE / (qa.odds.units as int)
}

/// Confidence in a matched pair: a decay in the time between the two
/// quotes, `1 / (1 + |dt| / 3600)` in micro-units, never above 1.
pub open spec fn confidence_units(qa: MarketOdds, qb: MarketOdds) -> int {
    let dt = if qa.timestamp >= qb.timestamp {
        qa.timestamp - qb.timestamp
    } else {
        qb.timestamp - qa.timestamp
    };
    3600 * SCALE / (3600 + dt)
}

/// Implied profit is never negative.
pub proof fn lemma_profit_nonneg(qa: MarketOdds, qb: MarketOdds)
    requires
        qa.odds.units > 0,
    ensures
        profit_units(qa, qb) >= 0,
{
    vstd::arithmetic::div_mod::lemma_div_pos_is_pos(
        gap_units(qa, qb) * SCALE,
        qa.odds.units as int,
    );
    assert(gap_units(qa, qb) * SCALE >= 0) by (nonlinear_arith)
        requires
            gap_units(qa, qb) >= 0,
            SCALE > 0,
    ;
}

/// Among the second venue's quotes there is a best match for `t` and the
/// pair's implied profit reaches the threshold.
pub open spec fn qualifies(t: MarketOdds, cs: Seq<MarketOdds>, thr: int) -> bool {
    exists|i: int| #[trigger] is_best_at(&t, cs, i) && profit_units(t, cs[i]) >= thr
}

/// At most one index can carry the best match.
pub proof fn lemma_best_at_unique(t: &MarketOdds, cs: Seq<MarketOdds>, i: int, j: int)
    requires
        is_best_at(t, cs, i),
        is_best_at(t, cs, j),
    ensures
        i == j,
{
    if i < j {
        assert(sim_spec(t.outcome@, cs[i].outcome@) < sim_spec(t.outcome@, cs[j].outcome@));
        assert(sim_spec(t.outcome@, cs[j].outcome@) <= sim_spec(t.outcome@, cs[i].outcome@));
    } else if j < i {
        assert(sim_spec(t.outcome@, cs[j].outcome@) < sim_spec(t.outcome@, cs[i].outcome@));
        assert(sim_spec(t.outcome@, cs[i].outcome@) <= sim_spec(t.outcome@, cs[j].outcome@));
    }
}

/// Detector law, positive side: a counter-quote whose label has the same
/// canonical form and whose price gap reaches the threshold qualifies.
pub proof fn lemma_detect_qualifying_singleton(qa: MarketOdds, qb: MarketOdds, thr: int)
    requires
        crate::matcher::norm_spec(qa.outcome@) == crate::matcher::norm_spec(qb.outcome@),
        profit_units(qa, qb) >= thr,
    ensures
        qualifies(qa, seq![qb], thr),
{
    let cs = seq![qb];
    assert(cs[0] == qb);
    assert(match_spec(qa.outcome@, cs[0].outcome@));
    assert(is_best_at(&qa, cs, 0));
}

/// Detector law, negative side: a single counter-quote whose pair falls
/// below the threshold does not qualify, however well it matches.
pub proof fn lemma_no_qualify_below_threshold(qa: MarketOdds, qb: MarketOdds, thr: int)
    requires
        profit_units(qa, qb) < thr,
    ensures
        !qualifies(qa, seq![qb], thr),
{
    let cs = seq![qb];
    if qualifies(qa, cs, thr) {
        let i = choose|i: int| #[trigger] is_best_at(&qa, cs, i) && profit_units(qa, cs[i]) >= thr;
        assert(cs[i] == qb);
    }
}

/// Finds cross-venue price gaps that imply a profit.
pub struct ArbitrageDetector {
    min_profit_threshold: Dec,
    matcher: OutcomeMatcher,
}

impl ArbitrageDetector {
    /// The detector's matcher carries the fixed similarity threshold.
    pub closed spec fn wf(&self) -> bool {
        self.matcher.wf()
    }

    /// The profit threshold the detector was built with, in micro-units.
    pub closed spec fn threshold_units(&self) -> int {
        self.min_profit_threshold.units as int
    }

    /// A detector with the default five-percent minimum profit.
    pub fn new() -> (r: Self)
        ensures
            r.wf(),
            r.threshold_units() == 50_000,
    {
        ArbitrageDetector {
            min_profit_threshold: Dec { units: 50_000 },
            matcher: OutcomeMatcher::new(),
        }
    }

    /// A detector with the given minimum profit threshold.
    pub fn with_threshold(min_profit_threshold: Dec) -> (r: Self)
        ensures
            r.wf(),
            r.threshold_units() == min_profit_threshold.units,
    {
        ArbitrageDetector { min_profit_threshold, matcher: OutcomeMatcher::new() }
    }

    /// The configured minimum profit threshold.
    pub fn min_profit_threshold(&self) -> (r: Dec)
        ensures
            r.units == self.threshold_units(),
    {
        self.min_profit_threshold
    }

    /// Implied profit of a matched pair: `|b - a| / a` over the two quoted
    /// prices, computed exactly in micro-units and never negative.
    pub fn calculate_implied_profit(&self, poly_odd: &MarketOdds, btc_odd: &MarketOdds) -> (r: Dec)
        requires
            valid_price(poly_odd.odds),
            valid_price(btc_odd.odds),
            poly_odd.odds.units > 0,
        ensures
            r.units == profit_units(*poly_odd, *btc_odd),
            r.units >= 0,
    {
        let a = poly_odd.odds.units;
        let b = btc_odd.odds.units;
        let gap: i128 = if b >= a {
            b - a
        } else {
            a - b
        };
        let num: u128 = (gap as u128) * (SCALE as u128);
        let q: u128 = num / (a as u128);
        proof {
            lemma_profit_nonneg(*poly_odd, *btc_odd);
            assert(gap * SCALE <= SCALE * SCALE) by (nonlinear_arith)
                requires
                    0 <= gap <= SCALE,
                    SCALE == 1_000_000,
            ;
            vstd::arithmetic::div_mod::lemma_div_is_ordered(gap * SCALE, SCALE * SCALE, a as int);
            vstd::arithmetic::div_mod::lemma_div_is_ordered_by_denominator(
                SCALE * SCALE,
                1,
                a as int,
            );
        }
        Dec { units: q as i128 }
    }

    /// Confidence in a matched pair: the staleness decay over the two
    /// quotes' timestamps, exactly `3600 / (3600 + |dt|)` in micro-units,
    /// always within `[0, 1]`.
    pub fn calculate_confidence(&self, poly_odd: &MarketOdds, btc_odd: &MarketOdds) -> (r: Dec)
        ensures
            r.units == confidence_units(*poly_odd, *btc_odd),
            0 <= r.units <= SCALE,
    {
        let ta: i128 = poly_odd.timestamp as i128;
        let tb: i128 = btc_odd.timestamp as i128;
        let dt: i128 = if ta >= tb {
            ta - tb
        } else {
            tb - ta
        };
        let denom: u128 = 3600u128 + (dt as u128);
        let c: u128 = 3_600_000_000u128 / denom;
        proof {
            let d = 3600 + dt;
            assert(3600 * SCALE == 3_600_000_000);
            vstd::arithmetic::div_mod::lemma_div_pos_is_pos(3600 * SCALE, d as int);
            vstd::arithmetic::div_mod::lemma_div_is_ordered_by_denominator(
                3600 * SCALE,
                3600,
                d as int,
            );
            vstd::arithmetic::div_mod::lemma_div_multiples_vanish(SCALE as int, 3600);
            assert(3600 * (SCALE as int) == (SCALE as int) * 3600) by (nonlinear_arith);
        }
        Dec { units: c as i128 }
    }

    /// Scans the first venue's quotes in order and returns an opportunity
    /// for the first quote whose best match on the second venue implies a
    /// profit at or above the threshold; `None` exactly when no quote
    /// qualifies.
    pub fn detect(
        &self,
        polymarket_odds: &Vec<MarketOdds>,
        btc_odds: &Vec<MarketOdds>,
        min_profit_threshold: Dec,
    ) -> (r: Option<ArbitrageOpportunity>)
        requires
            self.wf(),
            forall|i: int|
                0 <= i < polymarket_odds@.len() ==> valid_price(
                    (#[trigger] polymarket_odds@[i]).odds,
                ) && polymarket_odds@[i].odds.units > 0,
            forall|i: int| 0 <= i < btc_odds@.len() ==> valid_price((#[trigger] btc_odds@[i]).odds),
        ensures
            match r {
                Some(opp) => exists|k: int|
                    {
                        &&& 0 <= k < polymarket_odds@.len()
                        &&& forall|j: int|
                            0 <= j < k ==> !qualifies(
                                #[trigger] polymarket_odds@[j],
                                btc_odds@,
                                min_profit_threshold.units as int,
                            )
                        &&& #[trigger] qualifies(
                            polymarket_odds@[k],
                            btc_odds@,
                            min_profit_threshold.units as int,
                        )
                        &&& opp.polymarket_odds == polymarket_odds@[k]
                        &&& exists|i: int|
                            {
                                &&& #[trigger] is_best_at(&polymarket_odds@[k], btc_odds@, i)
                                &&& opp.btc_market_odds == btc_odds@[i]
                                &&& opp.implied_profit.units == profit_units(
                                    polymarket_odds@[k],
                                    btc_odds@[i],
                                )
                                &&& opp.implied_profit.units >= min_profit_threshold.units
                                &&& opp.confidence.units == confidence_units(
                                    polymarket_odds@[k],
                                    btc_odds@[i],
                                )
                            }
                    },
                None => forall|k: int|
                    0 <= k < polymarket_odds@.len() ==> !qualifies(
                        #[trigger] polymarket_odds@[k],
                        btc_odds@,
                        min_profit_threshold.units as int,
                    ),
            },
    {
        let ghost thr = min_profit_threshold.units as int;
        let mut k: usize = 0;
        while k < polymarket_odds.len()
            invariant
                self.wf(),
                0 <= k <= polymarket_odds@.len(),
                forall|i: int|
                    0 <= i < polymarket_odds@.len() ==> valid_price(
                        (#[trigger] polymarket_odds@[i]).odds,
                    ) && polymarket_odds@[i].odds.units > 0,
                forall|i: int| 0 <= i < btc_odds@.len() ==> valid_price(
                    (#[trigger] btc_odds@[i]).odds,
                ),
                thr == min_profit_threshold.units as int,
                forall|j: int| 0 <= j < k ==> !qualifies(#[trigger] polymarket_odds@[j], btc_odds@, thr),
            decreases polymarket_odds@.len() - k,
        {
            let poly_odd = &polymarket_odds[k];
            match self.matcher.find_best_match(poly_odd, btc_odds) {
                Some(best_match) => {
                    let ghost i = choose|i: int|
                        #[trigger] is_best_at(poly_odd, btc_odds@, i) && best_match == btc_odds@[i];
                    proof {
                        assert(valid_price(btc_odds@[i].odds));
                    }
                    let implied_profit = self.calculate_implied_profit(poly_odd, &best_match);
                    if implied_profit.units >= min_profit_threshold.units {
                        let confidence = self.calculate_confidence(poly_odd, &best_match);
                        proof {
                            assert(qualifies(polymarket_odds@[k as int], btc_odds@, thr));
                        }
                        return Some(
                            ArbitrageOpportunity::new(
                                poly_odd.clone(),
                                best_match,
                                implied_profit,
                                confidence,
                            ),
                        );
                    }
                    proof {
                        if qualifies(polymarket_odds@[k as int], btc_odds@, thr) {
                            let w = choose|w: int|
                                #[trigger] is_best_at(poly_odd, btc_odds@, w) && profit_units(
                                    polymarket_odds@[k as int],
                                    btc_odds@[w],
                                ) >= thr;
                            lemma_best_at_unique(poly_odd, btc_odds@, w, i);
                        }
                    }
                },
                None => {
                    proof {
                        if qualifies(polymarket_odds@[k as int], btc_odds@, thr) {
                            let w = choose|w: int|
                                #[trigger] is_best_at(poly_odd, btc_odds@, w) && profit_units(
                                    polymarket_odds@[k as int],
                                    btc_odds@[w],
                                ) >= thr;
                            assert(match_spec(poly_odd.outcome@, btc_odds@[w].outcome@));
                        }
                    }
                },
            }
            k = k + 1;
        }
        None
    }
}

impl Default for ArbitrageDetector {
    /// The same detector as `new` builds.
    fn default() -> (r: Self)
        ensures
            r.wf(),
            r.threshold_units() == 50_000,
    {
        ArbitrageDetector::new()
    }
}

} // verus!
