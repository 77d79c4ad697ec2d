//! The decisions one monitoring tick makes.
//!
//! A tick fetches quotes, detects an opportunity, risk-checks it and possibly
//! executes — the fetching and the loop are I/O and live outside the
//! library.  What the tick decides is here: which markets are worth
//! scanning, and whether a detected opportunity is acted on.

use vstd::prelude::*;

use crate::fixed::Dec;
use crate::models::{ArbitrageOpportunity, Market};

verus! {

/// How many markets one tick scans at most.
pub const SCAN_LIMIT: usize = 10;

/// The first `k` markets that carry a volume figure, in order.
pub open spec fn scan_selection(ms: Seq<Market>, k: int) -> Seq<Market>
    decreases ms.len(),
{
    if ms.len() == 0 || k <= 0 {
        Seq::empty()
    } else if ms[0].volume is Some {
        seq![ms[0]] + scan_selection(ms.drop_first(), k - 1)
    } else {
        scan_selection(ms.drop_first(), k)
    }
}

/// The markets one tick scans: those with a volume figure, first come
/// first served, at most `SCAN_LIMIT` of them.
pub fn select_scan_markets(markets: Vec<Market>) -> (r: Vec<Market>)
    ensures
        r@ == scan_selection(markets@, SCAN_LIMIT as int),
        r@.len() <= SCAN_LIMIT,
{
    let ghost orig = markets@;
    let mut rest = markets;
    let mut out: Vec<Market> = Vec::new();
    proof {
        assert(out@ + scan_selection(rest@, SCAN_LIMIT as int) =~= scan_selection(
            orig,
            SCAN_LIMIT as int,
        ));
    }
    while rest.len() > 0 && out.len() < SCAN_LIMIT
        invariant
            out@.len() <= SCAN_LIMIT,
            out@ + scan_selection(rest@, SCAN_LIMIT - out@.len()) == scan_selection(
                orig,
                SCAN_LIMIT as int,
            ),
        decreases rest@.len(),
    {
        let ghost pre = rest@;
        let m = rest.remove(0);
        proof {
            assert(pre.remove(0) =~= pre.drop_first());
            assert(m == pre[0]);
        }
        if m.volume.is_some() {
            let ghost old_out = out@;
            out.push(m);
            proof {
                assert(scan_selection(pre, SCAN_LIMIT - old_out.len()) == seq![pre[0]]
                    + scan_selection(pre.drop_first(), SCAN_LIMIT - old_out.len() - 1));
                assert(out@ =~= old_out + seq![pre[0]]);
                assert((old_out + seq![pre[0]]) + scan_selection(
                    pre.drop_first(),
                    SCAN_LIMIT - out@.len(),
                ) =~= old_out + (seq![pre[0]] + scan_selection(
                    pre.drop_first(),
                    SCAN_LIMIT - out@.len(),
                )));
            }
        }
    }
    proof {
        if rest@.len() == 0 {
            assert(scan_selection(rest@, SCAN_LIMIT - out@.len()) == Seq::<Market>::empty());
        } else {
            assert(out@.len() == SCAN_LIMIT);
            assert(scan_selection(rest@, 0) == Seq::<Market>::empty());
        }
        assert(out@ + Seq::<Market>::empty() =~= out@);
    }
    out
}

/// Whether a detected opportunity is acted on this tick: only when
/// automatic execution is on and the implied profit reaches the threshold.
pub fn should_execute(
    opportunity: &ArbitrageOpportunity,
    min_profit_threshold: Dec,
    auto_execute: bool,
) -> (r: bool)
    ensures
        r == (auto_execute && opportunity.implied_profit.units >= min_profit_threshold.units),
{
    auto_execute && opportunity.implied_profit.units >= min_profit_threshold.units
}

} // verus!
