//! The authoritative table of trade positions and their profit-and-loss.
//!
//! The manager owns every `Position` and is the only writer.  Ids are the
//! indices at which positions were appended, so an id is never reused; a
//! separate list carries the currently open ids.  The invariant `wf` ties
//! the two together: the open list holds exactly the ids of positions in
//! the `Open` state, each exactly once.

use vstd::prelude::*;

use crate::clock::now_seconds;
use crate::errors::ArbError;
use crate::fixed::{valid_price, Dec, SCALE};
use crate::models::ArbitrageOpportunity;
use crate::text::{clone_opt_string, str_eq};

verus! {

/// What kind of strategy opened the position.
#[derive(Debug, Clone, Copy, PartialEq, Eq, Structural)]
pub enum PositionType {
    Arbitrage,
    Speculative,
}

/// Which way the position points.
#[derive(Debug, Clone, Copy, PartialEq, Eq, Structural)]
pub enum TradeSide {
    Long,
    Short,
}

/// The lifecycle state of a position.  `Open` may move to `Closed`;
/// `Failed` and `Partial` record execution outcomes and do not move on.
#[derive(Debug, Clone, Copy, PartialEq, Eq, Structural)]
pub enum PositionState {
    Open,
    Closed,
    Failed,
    Partial,
}

/// The per-leg transaction identifiers recorded for a position.
#[derive(Debug)]
pub struct PositionTxIds {
    pub polymarket_tx: Option<String>,
    pub btc_tx: Option<String>,
}

impl Clone for PositionTxIds {
    fn clone(&self) -> (r: Self)
        ensures
            r == *self,
    {
        PositionTxIds {
            polymarket_tx: clone_opt_string(&self.polymarket_tx),
            btc_tx: clone_opt_string(&self.btc_tx),
        }
    }
}

/// The record of one attempted or completed arbitrage trade.
#[derive(Debug)]
pub struct Position {
    pub id: usize,
    pub market_id: String,
    pub market_question: String,
    pub position_type: PositionType,
    pub entry_price: Dec,
    pub size: Dec,
    pub side: TradeSide,
    pub status: PositionState,
    pub opened_at: i64,
    pub closed_at: Option<i64>,
    pub exit_price: Option<Dec>,
    pub pnl: Option<Dec>,
    pub tx_ids: PositionTxIds,
}

impl Clone for Position {
    fn clone(&self) -> (r: Self)
        ensures
            r == *self,
    {
        Position {
            id: self.id,
            market_id: self.market_id.clone(),
            market_question: self.market_question.clone(),
            position_type: self.position_type,
            entry_price: self.entry_price,
            size: self.size,
            side: self.side,
            status: self.status,
            opened_at: self.opened_at,
            closed_at: self.closed_at,
            exit_price: self.exit_price,
            pnl: self.pnl,
            tx_ids: self.tx_ids.clone(),
        }
    }
}

/// The profit-and-loss a position carries, zero while none is recorded.
pub open spec fn pnl_units(p: Position) -> int {
    match p.pnl {
        Some(d) => d.units as int,
        None => 0,
    }
}

/// The sum of recorded profit-and-loss over exactly the `Closed` positions.
pub open spec fn realized_sum(s: Seq<Position>) -> int
    decreases s.len(),
{
    if s.len() == 0 {
        0
    } else {
        realized_sum(s.drop_last()) + if s.last().status == PositionState::Closed {
            pnl_units(s.last())
        } else {
            0
        }
    }
}

/// Positions that are not `Closed` contribute nothing to the realized sum.
pub proof fn lemma_realized_ignores_unclosed(s: Seq<Position>, p: Position)
    requires
        p.status != PositionState::Closed,
    ensures
        realized_sum(s.push(p)) == realized_sum(s),
{
    assert(s.push(p).drop_last() =~= s);
}

/// A single position's record is internally consistent: prices stay in the
/// unit interval, recorded profit-and-loss stays within one unit either
/// way, and a closed position carries its exit data.
pub open spec fn wf_position(p: Position) -> bool {
    &&& valid_price(p.entry_price)
    &&& (p.exit_price matches Some(x) ==> valid_price(x))
    &&& (p.pnl matches Some(d) ==> -SCALE <= d.units <= SCALE)
    &&& (p.status == PositionState::Closed ==> p.exit_price is Some && p.pnl is Some
        && p.closed_at is Some)
}

/// The price quoted for `market_id`, first entry winning.
pub open spec fn price_for(prices: Seq<(String, Dec)>, market_id: Seq<char>) -> Option<Dec>
    decreases prices.len(),
{
    if prices.len() == 0 {
        None
    } else if prices[0].0@ == market_id {
        Some(prices[0].1)
    } else {
        price_for(prices.drop_first(), market_id)
    }
}

/// What one open position contributes to unrealized profit-and-loss: the
/// current price against its entry price, nothing when no price is quoted.
pub open spec fn unrealized_term(p: Position, prices: Seq<(String, Dec)>) -> int {
    match price_for(prices, p.market_id@) {
        Some(d) => d.units - p.entry_price.units,
        None => 0,
    }
}

/// The sum of `unrealized_term` over the open ids, in their list order.
pub open spec fn unrealized_sum(
    table: Seq<Position>,
    open: Seq<usize>,
    prices: Seq<(String, Dec)>,
) -> int
    decreases open.len(),
{
    if open.len() == 0 {
        0
    } else {
        unrealized_sum(table, open.drop_last(), prices) + unrealized_term(
            table[open.last() as int],
            prices,
        )
    }
}

/// The number of `Open` positions on the given market.
pub open spec fn market_open_count(table: Seq<Position>, market_id: Seq<char>) -> int
    decreases table.len(),
{
    if table.len() == 0 {
        0
    } else {
        market_open_count(table.drop_last(), market_id) + if table.last().status
            == PositionState::Open && table.last().market_id@ == market_id {
            1int
        } else {
            0int
        }
    }
}

/// Every price in a quoted price list lies in the unit interval.
pub open spec fn valid_prices(prices: Seq<(String, Dec)>) -> bool {
    forall|i: int| 0 <= i < prices.len() ==> valid_price((#[trigger] prices[i]).1)
}

/// A looked-up price out of a valid price list is itself valid.
proof fn lemma_price_for_valid(prices: Seq<(String, Dec)>, market_id: Seq<char>)
    requires
        valid_prices(prices),
    ensures
        price_for(prices, market_id) matches Some(d) ==> valid_price(d),
    decreases prices.len(),
{
    if prices.len() > 0 && prices[0].0@ != market_id {
        assert(valid_prices(prices.drop_first()));
        lemma_price_for_valid(prices.drop_first(), market_id);
    }
}

/// Tracks all open and closed positions and derives their aggregate
/// profit-and-loss.
pub struct PositionManager {
    positions: Vec<Position>,
    open_positions: Vec<usize>,
}

impl PositionManager {
    /// The position table: position `i` sits at index `i`.
    pub closed spec fn table(&self) -> Seq<Position> {
        self.positions@
    }

    /// The ids of the currently open positions, in opening order.
    pub closed spec fn open_ids(&self) -> Seq<usize> {
        self.open_positions@
    }

    /// The table invariant: ids are indices, the open list is duplicate-free
    /// and lists exactly the `Open` positions, and every record is
    /// internally consistent.
    pub open spec fn wf(&self) -> bool {
        &&& forall|i: int|
            0 <= i < self.table().len() ==> (#[trigger] self.table()[i]).id == i
        &&& forall|k: int|
            0 <= k < self.open_ids().len() ==> (#[trigger] self.open_ids()[k]) < self.table().len()
        &&& self.open_ids().no_duplicates()
        &&& forall|i: int|
            0 <= i < self.table().len() ==> ((#[trigger] self.table()[i]).status
                == PositionState::Open <==> self.open_ids().contains(i as usize))
        &&& forall|i: int|
            0 <= i < self.table().len() ==> wf_position(#[trigger] self.table()[i])
    }

    /// An empty table.
    pub fn new() -> (r: Self)
        ensures
            r.wf(),
            r.table().len() == 0,
            r.open_ids().len() == 0,
    {
        PositionManager { positions: Vec::new(), open_positions: Vec::new() }
    }

    /// Opens a fresh position for an executed opportunity.  Always succeeds:
    /// the new id is the table's previous length, the record starts `Open`
    /// with the given entry data, and the id joins the open list.
    pub fn open_position(
        &mut self,
        opportunity: &ArbitrageOpportunity,
        entry_price: Dec,
        size: Dec,
        poly_tx: Option<String>,
        btc_tx: Option<String>,
    ) -> (id: usize)
        requires
            old(self).wf(),
            valid_price(entry_price),
        ensures
            final(self).wf(),
            id == old(self).table().len(),
            final(self).table().len() == old(self).table().len() + 1,
            final(self).table().drop_last() == old(self).table(),
            final(self).open_ids() == old(self).open_ids().push(id),
            ({
                let p = final(self).table().last();
                &&& p.id == id
                &&& p.market_id == opportunity.polymarket_odds.market_id
                &&& p.market_question == opportunity.polymarket_odds.outcome
                &&& p.position_type == PositionType::Arbitrage
                &&& p.entry_price == entry_price
                &&& p.size == size
                &&& p.side == TradeSide::Long
                &&& p.status == PositionState::Open
                &&& p.closed_at is None
                &&& p.exit_price is None
                &&& p.pnl is None
                &&& p.tx_ids.polymarket_tx == poly_tx
                &&& p.tx_ids.btc_tx == btc_tx
            }),
    {
        let id = self.positions.len();
        let position = Position {
            id,
            market_id: opportunity.polymarket_odds.market_id.clone(),
            market_question: opportunity.polymarket_odds.outcome.clone(),
            position_type: PositionType::Arbitrage,
            entry_price,
            size,
            side: TradeSide::Long,
            status: PositionState::Open,
            opened_at: now_seconds(),
            closed_at: None,
            exit_price: None,
            pnl: None,
            tx_ids: PositionTxIds { polymarket_tx: poly_tx, btc_tx: btc_tx },
        };
        self.positions.push(position);
        self.open_positions.push(id);
        proof {
            assert(self.table().drop_last() =~= old(self).table());
            let t = self.table();
            let o = self.open_ids();
            assert forall|k: int| 0 <= k < o.len() implies (#[trigger] o[k]) < t.len() by {
                if k < o.len() - 1 {
                    assert(o[k] == old(self).open_ids()[k]);
                }
            }
            assert forall|p: int, q: int| 0 <= p < q < o.len() implies o[p] != o[q] by {
                if q == o.len() - 1 {
                    assert(old(self).open_ids()[p] < old(self).table().len());
                } else {
                    assert(old(self).open_ids().no_duplicates());
                }
            }
            assert forall|i: int|
                0 <= i < t.len() implies ((#[trigger] t[i]).status == PositionState::Open
                    <==> o.contains(i as usize)) by {
                if i < t.len() - 1 {
                    if t[i].status == PositionState::Open {
                        let w = choose|w: int|
                            0 <= w < old(self).open_ids().len() && old(self).open_ids()[w] == i as usize;
                        assert(o[w] == i as usize);
                    }
                    if o.contains(i as usize) {
                        let w = choose|w: int| 0 <= w < o.len() && o[w] == i as usize;
                        assert(w < o.len() - 1);
                        assert(old(self).open_ids()[w] == i as usize);
                    }
                } else {
                    assert(o[o.len() - 1] == i as usize);
                }
            }
        }
        id
    }

    /// Closes an open position at the given exit price.  Fails with
    /// `NotFound` exactly when the id is unknown, with `InvalidState`
    /// exactly when the position is not currently `Open`; on success the
    /// record moves to `Closed`, carries `pnl == exit_price - entry_price`,
    /// and its id leaves the open list.  Nothing else changes either way.
    pub fn close_position(&mut self, position_id: usize, exit_price: Dec) -> (r: Result<
        Position,
        ArbError,
    >)
        requires
            old(self).wf(),
            valid_price(exit_price),
        ensures
            final(self).wf(),
            match r {
                Result::Err(e) => {
                    &&& final(self).table() == old(self).table()
                    &&& final(self).open_ids() == old(self).open_ids()
                    &&& (e == ArbError::NotFound || e == ArbError::InvalidState)
                    &&& (e == ArbError::NotFound <==> position_id >= old(self).table().len())
                    &&& (e == ArbError::InvalidState <==> position_id < old(self).table().len()
                        && old(self).table()[position_id as int].status != PositionState::Open)
                },
                Result::Ok(p) => {
                    &&& position_id < old(self).table().len()
                    &&& old(self).table()[position_id as int].status == PositionState::Open
                    &&& p.id == position_id
                    &&& p.status == PositionState::Closed
                    &&& p.exit_price == Some(exit_price)
                    &&& (p.pnl matches Some(d) && d.units == exit_price.units - old(
                        self,
                    ).table()[position_id as int].entry_price.units)
                    &&& p.closed_at is Some
                    &&& p.market_id == old(self).table()[position_id as int].market_id
                    &&& p.market_question == old(self).table()[position_id as int].market_question
                    &&& p.position_type == old(self).table()[position_id as int].position_type
                    &&& p.entry_price == old(self).table()[position_id as int].entry_price
                    &&& p.size == old(self).table()[position_id as int].size
                    &&& p.side == old(self).table()[position_id as int].side
                    &&& p.opened_at == old(self).table()[position_id as int].opened_at
                    &&& p.tx_ids == old(self).table()[position_id as int].tx_ids
                    &&& final(self).table() == old(self).table().update(position_id as int, p)
                    &&& !final(self).open_ids().contains(position_id)
                    &&& forall|x: usize|
                        x != position_id ==> (final(self).open_ids().contains(x) == old(
                            self,
                        ).open_ids().contains(x))
                },
            },
    {
        if position_id >= self.positions.len() {
            return Result::Err(ArbError::NotFound);
        }
        let is_open = match self.positions[position_id].status {
            PositionState::Open => true,
            _ => false,
        };
        if !is_open {
            return Result::Err(ArbError::InvalidState);
        }
        let now = now_seconds();
        let entry_units = self.positions[position_id].entry_price.units;
        let pnl = Dec { units: exit_price.units - entry_units };
        {
            let p = &mut self.positions[position_id];
            p.status = PositionState::Closed;
            p.closed_at = Some(now);
            p.exit_price = Some(exit_price);
            p.pnl = Some(pnl);
        }
        let result = self.positions[position_id].clone();

        // drop the id from the open list; `wf` guarantees it is there once
        let ghost old_open = self.open_positions@;
        let n = self.open_positions.len();
        let mut k: usize = 0;
        proof {
            assert(old_open.contains(position_id));
            let w = choose|w: int| 0 <= w < old_open.len() && old_open[w] == position_id;
            assert(0 <= w < old_open.len() && old_open[w] == position_id);
        }
        while self.open_positions[k] != position_id
            invariant
                self.open_positions@ == old_open,
                old_open.len() == n,
                0 <= k < old_open.len(),
                forall|j: int| 0 <= j < k ==> old_open[j] != position_id,
                exists|m: int| k <= m < old_open.len() && old_open[m] == position_id,
            decreases old_open.len() - k,
        {
            proof {
                let m = choose|m: int| k <= m < old_open.len() && old_open[m] == position_id;
                assert(m > k);
                assert(k + 1 <= m < old_open.len() && old_open[m] == position_id);
            }
            k = k + 1;
        }
        self.open_positions.remove(k);
        proof {
            let t = self.table();
            let o = self.open_ids();
            assert(o =~= old_open.subrange(0, k as int) + old_open.subrange(
                k + 1,
                old_open.len() as int,
            ));
            assert forall|j: int| 0 <= j < o.len() implies old_open.contains(#[trigger] o[j]) by {
                if j < k {
                    assert(o[j] == old_open[j]);
                } else {
                    assert(o[j] == old_open[j + 1]);
                }
            }
            assert forall|j: int| 0 <= j < o.len() implies o[j] != position_id by {
                if j < k {
                    assert(o[j] == old_open[j]);
                } else {
                    assert(o[j] == old_open[j + 1]);
                    assert(old_open.no_duplicates());
                }
            }
            assert(!o.contains(position_id));
            assert forall|p2: int, q2: int| 0 <= p2 < q2 < o.len() implies o[p2] != o[q2] by {
                let ip = if p2 < k {
                    p2
                } else {
                    p2 + 1
                };
                let iq = if q2 < k {
                    q2
                } else {
                    q2 + 1
                };
                assert(o[p2] == old_open[ip]);
                assert(o[q2] == old_open[iq]);
                assert(old_open.no_duplicates());
            }
            assert forall|x: usize| x != position_id implies (o.contains(x) == old_open.contains(
                x,
            )) by {
                if old_open.contains(x) {
                    let w = choose|w: int| 0 <= w < old_open.len() && old_open[w] == x;
                    if w < k {
                        assert(o[w] == x);
                    } else {
                        assert(w != k);
                        assert(o[w - 1] == x);
                    }
                }
            }
            // the invariant holds of the updated table and shortened list
            assert forall|i: int|
                0 <= i < t.len() implies ((#[trigger] t[i]).status == PositionState::Open
                    <==> o.contains(i as usize)) by {
                if i != position_id {
                    assert(t[i] == old(self).table()[i]);
                }
            }
        }
        Result::Ok(result)
    }

    /// How many positions are currently open.
    pub fn open_count(&self) -> (r: usize)
        ensures
            r == self.open_ids().len(),
    {
        self.open_positions.len()
    }

    /// A snapshot of every open position, in opening order.
    pub fn get_open_positions(&self) -> (r: Vec<Position>)
        requires
            self.wf(),
        ensures
            r@.len() == self.open_ids().len(),
            forall|j: int|
                0 <= j < r@.len() ==> #[trigger] r@[j] == self.table()[self.open_ids()[j] as int],
    {
        let mut r: Vec<Position> = Vec::new();
        let mut j: usize = 0;
        while j < self.open_positions.len()
            invariant
                self.wf(),
                0 <= j <= self.open_ids().len(),
                r@.len() == j,
                forall|m: int|
                    0 <= m < j ==> #[trigger] r@[m] == self.table()[self.open_ids()[m] as int],
            decreases self.open_ids().len() - j,
        {
            let id = self.open_positions[j];
            r.push(self.positions[id].clone());
            j = j + 1;
        }
        r
    }

    /// A snapshot of the position with the given id, if any.
    pub fn get_position(&self, position_id: usize) -> (r: Option<Position>)
        requires
            self.wf(),
        ensures
            match r {
                Some(p) => position_id < self.table().len() && p == self.table()[position_id as int],
                None => position_id >= self.table().len(),
            },
    {
        if position_id < self.positions.len() {
            Some(self.positions[position_id].clone())
        } else {
            None
        }
    }

    /// A snapshot of the whole table, closed positions included.
    pub fn get_all_positions(&self) -> (r: Vec<Position>)
        requires
            self.wf(),
        ensures
            r@ == self.table(),
    {
        let mut r: Vec<Position> = Vec::new();
        let mut i: usize = 0;
        while i < self.positions.len()
            invariant
                0 <= i <= self.table().len(),
                self.table() == self.positions@,
                r@ =~= self.table().take(i as int),
            decreases self.table().len() - i,
        {
            r.push(self.positions[i].clone());
            proof {
                assert(r@ =~= self.table().take(i + 1));
            }
            i = i + 1;
        }
        proof {
            assert(self.table().take(self.table().len() as int) =~= self.table());
        }
        r
    }

    /// Total realized profit-and-loss: the sum of `pnl` over exactly the
    /// `Closed` positions.
    pub fn calculate_realized_pnl(&self) -> (r: Dec)
        requires
            self.wf(),
        ensures
            r.units == realized_sum(self.table()),
    {
        let mut acc: i128 = 0;
        let mut i: usize = 0;
        while i < self.positions.len()
            invariant
                self.wf(),
                0 <= i <= self.table().len(),
                acc == realized_sum(self.table().take(i as int)),
                -(i as int) * SCALE <= acc <= (i as int) * SCALE,
            decreases self.table().len() - i,
        {
            let ghost pre = self.table().take(i as int);
            proof {
                assert(self.table().take(i + 1).drop_last() =~= pre);
                assert(self.table().take(i + 1).last() == self.table()[i as int]);
                assert(wf_position(self.table()[i as int]));
            }
            let p = &self.positions[i];
            let is_closed = match p.status {
                PositionState::Closed => true,
                _ => false,
            };
            if is_closed {
                match p.pnl {
                    Some(d) => {
                        acc = acc + d.units;
                    },
                    None => {
                    },
                }
            }
            proof {
                assert(-(i + 1 as int) * SCALE <= acc <= (i + 1 as int) * SCALE) by (nonlinear_arith)
                    requires
                        -(i as int) * SCALE - SCALE <= acc <= (i as int) * SCALE + SCALE,
                        SCALE == 1_000_000,
                ;
            }
            i = i + 1;
        }
        proof {
            assert(self.table().take(self.table().len() as int) =~= self.table());
        }
        Dec { units: acc }
    }

    /// Total unrealized profit-and-loss of the open positions against the
    /// quoted prices, a missing quote contributing nothing.
    pub fn calculate_unrealized_pnl(&self, current_prices: &Vec<(String, Dec)>) -> (r: Dec)
        requires
            self.wf(),
            valid_prices(current_prices@),
        ensures
            r.units == unrealized_sum(self.table(), self.open_ids(), current_prices@),
    {
        let mut acc: i128 = 0;
        let mut j: usize = 0;
        while j < self.open_positions.len()
            invariant
                self.wf(),
                valid_prices(current_prices@),
                0 <= j <= self.open_ids().len(),
                acc == unrealized_sum(self.table(), self.open_ids().take(j as int), current_prices@),
                -(j as int) * SCALE <= acc <= (j as int) * SCALE,
            decreases self.open_ids().len() - j,
        {
            let ghost pre = self.open_ids().take(j as int);
            proof {
                assert(self.open_ids().take(j + 1).drop_last() =~= pre);
                assert(self.open_ids().take(j + 1).last() == self.open_ids()[j as int]);
            }
            let id = self.open_positions[j];
            let entry_units = self.positions[id].entry_price.units;
            let looked_up = self.lookup_price(current_prices, id);
            proof {
                lemma_price_for_valid(current_prices@, self.table()[id as int].market_id@);
                assert(wf_position(self.table()[id as int]));
            }
            match looked_up {
                Some(d) => {
                    acc = acc + (d.units - entry_units);
                },
                None => {
                },
            }
            proof {
                assert(-(j + 1 as int) * SCALE <= acc <= (j + 1 as int) * SCALE) by (nonlinear_arith)
                    requires
                        -(j as int) * SCALE - SCALE <= acc <= (j as int) * SCALE + SCALE,
                        SCALE == 1_000_000,
                ;
            }
            j = j + 1;
        }
        proof {
            assert(self.open_ids().take(self.open_ids().len() as int) =~= self.open_ids());
        }
        Dec { units: acc }
    }

    /// The quoted price for the market of position `id`, if any.
    fn lookup_price(&self, current_prices: &Vec<(String, Dec)>, id: usize) -> (r: Option<Dec>)
        requires
            self.wf(),
            id < self.table().len(),
        ensures
            r == price_for(current_prices@, self.table()[id as int].market_id@),
    {
        let market_id: &String = &self.positions[id].market_id;
        let mut m: usize = 0;
        let ghost ps = current_prices@;
        proof {
            assert(ps.skip(0) =~= ps);
        }
        while m < current_prices.len()
            invariant
                self.wf(),
                id < self.table().len(),
                ps == current_prices@,
                0 <= m <= ps.len(),
                market_id@ == self.table()[id as int].market_id@,
                price_for(ps.skip(m as int), market_id@) == price_for(ps, market_id@),
            decreases ps.len() - m,
        {
            proof {
                assert(ps.skip(m as int)[0] == ps[m as int]);
                assert(ps.skip(m as int).drop_first() =~= ps.skip(m + 1));
            }
            if str_eq(current_prices[m].0.as_str(), market_id.as_str()) {
                return Some(current_prices[m].1);
            }
            m = m + 1;
        }
        proof {
            assert(ps.skip(ps.len() as int) =~= Seq::<(String, Dec)>::empty());
        }
        None
    }

    /// How many `Open` positions the given market carries.
    pub fn get_market_position_count(&self, market_id: &str) -> (r: usize)
        requires
            self.wf(),
        ensures
            r == market_open_count(self.table(), market_id@),
    {
        let mut count: usize = 0;
        let mut i: usize = 0;
        while i < self.positions.len()
            invariant
                self.wf(),
                0 <= i <= self.table().len(),
                count == market_open_count(self.table().take(i as int), market_id@),
                count <= i,
            decreases self.table().len() - i,
        {
            proof {
                assert(self.table().take(i + 1).drop_last() =~= self.table().take(i as int));
                assert(self.table().take(i + 1).last() == self.table()[i as int]);
            }
            let p = &self.positions[i];
            let is_open = match p.status {
                PositionState::Open => true,
                _ => false,
            };
            if is_open && str_eq(p.market_id.as_str(), market_id) {
                count = count + 1;
            }
            i = i + 1;
        }
        proof {
            assert(self.table().take(self.table().len() as int) =~= self.table());
        }
        count
    }
}

impl Default for PositionManager {
    /// The same empty table as `new` builds.
    fn default() -> (r: Self)
        ensures
            r.wf(),
            r.table().len() == 0,
            r.open_ids().len() == 0,
    {
        PositionManager::new()
    }
}

} // verus!

// The original module published the state enum under this alias as well.
pub use self::PositionState as PositionStatus;
