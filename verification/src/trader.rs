//! Execution of both legs of an opportunity, and the risk check in front
//! of it.
//!
//! Each venue is a leg-execution capability: it reports whether it is
//! configured and yields a `LegResult` for one attempt.  Order placement
//! against the live venues is not wired up; a configured leg reports a
//! pending placeholder transaction, exactly as contracted below.  The
//! executor reconciles the two leg results into one aggregate status and
//! records a position whenever either leg produced a transaction
//! identifier, so partial exposure is never lost.

use vstd::prelude::*;

use crate::btc_market::{market_type_label, BtcMarketType};
use crate::clock::now_seconds;
use crate::config::{BitcoinConfig, PolymarketConfig, RiskConfig, TradeConfig};
use crate::errors::ArbError;
use crate::fixed::{valid_price, Dec, SCALE};
use crate::models::ArbitrageOpportunity;
use crate::positions::{realized_sum, Position, PositionManager, PositionState};
use crate::text::{clone_opt_string, str_eq};

verus! {

/// The outcome of one execution attempt, per leg or aggregate.
#[derive(Debug, Clone, Copy, PartialEq, Eq, Structural)]
pub enum TradeStatus {
    Success,
    Partial,
    Failed,
    Pending,
}

/// What one leg reported: an optional transaction identifier, a status,
/// and optional error text.
#[derive(Debug)]
pub struct LegResult {
    pub tx_id: Option<String>,
    pub status: TradeStatus,
    pub error: Option<String>,
}

impl Clone for LegResult {
    fn clone(&self) -> (r: Self)
        ensures
            r == *self,
    {
        LegResult {
            tx_id: clone_opt_string(&self.tx_id),
            status: self.status,
            error: clone_opt_string(&self.error),
        }
    }
}

/// The reconciled outcome of one execution attempt across both venues.
#[derive(Debug)]
pub struct TradeResult {
    pub polymarket_tx: Option<String>,
    pub btc_tx: Option<String>,
    pub status: TradeStatus,
    pub executed_at: i64,
    pub error: Option<String>,
    pub position_id: Option<usize>,
}

impl Clone for TradeResult {
    fn clone(&self) -> (r: Self)
        ensures
            r == *self,
    {
        TradeResult {
            polymarket_tx: clone_opt_string(&self.polymarket_tx),
            btc_tx: clone_opt_string(&self.btc_tx),
            status: self.status,
            executed_at: self.executed_at,
            error: clone_opt_string(&self.error),
            position_id: self.position_id,
        }
    }
}

/// The aggregate status rule, in order of precedence: both legs succeeded;
/// either leg still pending; exactly one leg succeeded; otherwise failed.
pub open spec fn aggregate_spec(a: TradeStatus, b: TradeStatus) -> TradeStatus {
    if a == TradeStatus::Success && b == TradeStatus::Success {
        TradeStatus::Success
    } else if a == TradeStatus::Pending || b == TradeStatus::Pending {
        TradeStatus::Pending
    } else if a == TradeStatus::Success || b == TradeStatus::Success {
        TradeStatus::Partial
    } else {
        TradeStatus::Failed
    }
}

/// Reconciles two leg statuses into the aggregate status.
pub fn aggregate_status(a: TradeStatus, b: TradeStatus) -> (r: TradeStatus)
    ensures
        r == aggregate_spec(a, b),
{
    if a == TradeStatus::Success && b == TradeStatus::Success {
        TradeStatus::Success
    } else if a == TradeStatus::Pending || b == TradeStatus::Pending {
        TradeStatus::Pending
    } else if a == TradeStatus::Success || b == TradeStatus::Success {
        TradeStatus::Partial
    } else {
        TradeStatus::Failed
    }
}

// ---------------------------------------------------------------------------
// The Polymarket leg
// ---------------------------------------------------------------------------

/// The Polymarket wallet carries a non-empty private key.
pub open spec fn poly_configured(c: PolymarketConfig) -> bool {
    c.private_key matches Some(k) && k@.len() > 0
}

/// What the Polymarket leg reports: unconfigured wallets fail with the
/// reason and no transaction; otherwise the attempt is pending with a
/// placeholder transaction, since live order placement is not wired up.
pub open spec fn poly_leg(c: PolymarketConfig, r: LegResult) -> bool {
    if poly_configured(c) {
        &&& (r.tx_id matches Some(t) && t@ == "0x_mock_polymarket_tx"@)
        &&& r.status == TradeStatus::Pending
        &&& (r.error matches Some(e) && e@ == "Not implemented yet"@)
    } else {
        &&& r.tx_id is None
        &&& r.status == TradeStatus::Failed
        &&& (r.error matches Some(e) && e@ == "Polymarket wallet not configured"@)
    }
}

/// Executes the Polymarket leg of an arbitrage trade.
pub struct PolymarketTradeExecutor {
    config: PolymarketConfig,
}

impl PolymarketTradeExecutor {
    /// The wallet configuration the executor was built with.
    pub closed spec fn cfg(&self) -> PolymarketConfig {
        self.config
    }

    /// A leg executor over the given wallet configuration.
    pub fn new(config: PolymarketConfig) -> (r: Self)
        ensures
            r.cfg() == config,
    {
        PolymarketTradeExecutor { config }
    }

    /// Whether the wallet carries a non-empty private key.
    pub fn is_configured(&self) -> (r: bool)
        ensures
            r == poly_configured(self.cfg()),
    {
        match &self.config.private_key {
            Some(k) => !k.as_str().is_empty(),
            None => false,
        }
    }

    /// One execution attempt on the Polymarket leg.
    pub fn execute_leg(&self, _opportunity: &ArbitrageOpportunity) -> (r: LegResult)
        ensures
            poly_leg(self.cfg(), r),
    {
        if !self.is_configured() {
            return LegResult {
                tx_id: None,
                status: TradeStatus::Failed,
                error: Some("Polymarket wallet not configured".to_owned()),
            };
        }
        LegResult {
            tx_id: Some("0x_mock_polymarket_tx".to_owned()),
            status: TradeStatus::Pending,
            error: Some("Not implemented yet".to_owned()),
        }
    }
}

// ---------------------------------------------------------------------------
// The Bitcoin-side leg
// ---------------------------------------------------------------------------

/// The private key of the liquid section, if any.
pub open spec fn chain_key_liquid(c: BitcoinConfig) -> Option<String> {
    match c.liquid {
        Some(l) => l.private_key,
        None => None,
    }
}

/// The first private key among the rsk and liquid sections.
pub open spec fn chain_key_rsk(c: BitcoinConfig) -> Option<String> {
    match c.rsk {
        Some(r) => match r.private_key {
            Some(k) => Some(k),
            None => chain_key_liquid(c),
        },
        None => chain_key_liquid(c),
    }
}

/// The first private key found among the stacks, rsk and liquid sections.
pub open spec fn btc_chain_key(c: BitcoinConfig) -> Option<String> {
    match c.stacks {
        Some(s) => match s.private_key {
            Some(k) => Some(k),
            None => chain_key_rsk(c),
        },
        None => chain_key_rsk(c),
    }
}

/// Whether the Bitcoin-side wallet for the named protocol is configured:
/// lightning needs an endpoint, ordinals an address, and the chain
/// protocols a non-empty private key in whichever section carries one.
pub open spec fn btc_configured(c: BitcoinConfig) -> bool {
    if c.protocol@ == "lightning"@ {
        c.lightning matches Some(l) && l.endpoint@.len() > 0
    } else if c.protocol@ == "ordinals"@ {
        c.ordinals matches Some(o) && o.address@.len() > 0
    } else if c.protocol@ == "stacks"@ || c.protocol@ == "rsk"@ || c.protocol@ == "liquid"@ {
        btc_chain_key(c) matches Some(k) && k@.len() > 0
    } else {
        false
    }
}

/// A pending leg with the given placeholder transaction and reason.
pub open spec fn pending_leg(r: LegResult, tx: Seq<char>, reason: Seq<char>) -> bool {
    &&& (r.tx_id matches Some(t) && t@ == tx)
    &&& r.status == TradeStatus::Pending
    &&& (r.error matches Some(e) && e@ == reason)
}

/// What the Bitcoin-side leg reports: unconfigured wallets fail with the
/// protocol named in the reason; a configured protocol yields a pending
/// placeholder transaction of its ecosystem.
pub open spec fn btc_leg(c: BitcoinConfig, r: LegResult) -> bool {
    if !btc_configured(c) {
        &&& r.tx_id is None
        &&& r.status == TradeStatus::Failed
        &&& (r.error matches Some(e) && e@ == "BTC "@ + c.protocol@ + " wallet not configured"@)
    } else if c.protocol@ == "lightning"@ {
        pending_leg(r, "ln_mock_payment_hash"@, "Lightning trades not implemented"@)
    } else if c.protocol@ == "ordinals"@ {
        pending_leg(r, "ord_mock_inscription_id"@, "Ordinals trades not implemented"@)
    } else if c.protocol@ == "stacks"@ {
        pending_leg(r, "stacks_mock_tx"@, "Stacks trades not implemented"@)
    } else if c.protocol@ == "rsk"@ {
        pending_leg(r, "rsk_mock_tx"@, "RSK trades not implemented"@)
    } else if c.protocol@ == "liquid"@ {
        pending_leg(r, "liquid_mock_tx"@, "Liquid trades not implemented"@)
    } else {
        false
    }
}

/// Executes the Bitcoin-side leg, on whichever protocol is configured.
pub struct BtcTradeExecutor {
    config: BitcoinConfig,
}

impl BtcTradeExecutor {
    /// The wallet configuration the executor was built with.
    pub closed spec fn cfg(&self) -> BitcoinConfig {
        self.config
    }

    /// A leg executor over the given wallet configuration.
    pub fn new(config: BitcoinConfig) -> (r: Self)
        ensures
            r.cfg() == config,
    {
        BtcTradeExecutor { config }
    }

    /// Whether the wallet for the configured protocol is usable.
    pub fn is_configured(&self) -> (r: bool)
        ensures
            r == btc_configured(self.cfg()),
    {
        let proto = self.config.protocol.as_str();
        if str_eq(proto, "lightning") {
            match &self.config.lightning {
                Some(l) => !l.endpoint.as_str().is_empty(),
                None => false,
            }
        } else if str_eq(proto, "ordinals") {
            match &self.config.ordinals {
                Some(o) => !o.address.as_str().is_empty(),
                None => false,
            }
        } else if str_eq(proto, "stacks") || str_eq(proto, "rsk") || str_eq(proto, "liquid") {
            match self.chain_key() {
                Some(k) => !k.as_str().is_empty(),
                None => false,
            }
        } else {
            false
        }
    }

    /// The first private key among the chain protocol sections.
    fn chain_key(&self) -> (r: Option<&String>)
        ensures
            match r {
                Some(k) => btc_chain_key(self.cfg()) == Some(*k),
                None => btc_chain_key(self.cfg()) is None,
            },
    {
        if let Some(s) = &self.config.stacks {
            if let Some(k) = &s.private_key {
                return Some(k);
            }
        }
        if let Some(rc) = &self.config.rsk {
            if let Some(k) = &rc.private_key {
                return Some(k);
            }
        }
        if let Some(l) = &self.config.liquid {
            if let Some(k) = &l.private_key {
                return Some(k);
            }
        }
        None
    }

    /// One execution attempt on the Bitcoin-side leg.
    pub fn execute_leg(&self, _opportunity: &ArbitrageOpportunity) -> (r: LegResult)
        ensures
            btc_leg(self.cfg(), r),
    {
        if !self.is_configured() {
            let reason = "BTC ".to_owned().concat(self.config.protocol.as_str()).concat(
                " wallet not configured",
            );
            return LegResult { tx_id: None, status: TradeStatus::Failed, error: Some(reason) };
        }
        let proto = self.config.protocol.as_str();
        if str_eq(proto, "lightning") {
            LegResult {
                tx_id: Some("ln_mock_payment_hash".to_owned()),
                status: TradeStatus::Pending,
                error: Some("Lightning trades not implemented".to_owned()),
            }
        } else if str_eq(proto, "ordinals") {
            LegResult {
                tx_id: Some("ord_mock_inscription_id".to_owned()),
                status: TradeStatus::Pending,
                error: Some("Ordinals trades not implemented".to_owned()),
            }
        } else if str_eq(proto, "stacks") {
            LegResult {
                tx_id: Some("stacks_mock_tx".to_owned()),
                status: TradeStatus::Pending,
                error: Some("Stacks trades not implemented".to_owned()),
            }
        } else if str_eq(proto, "rsk") {
            LegResult {
                tx_id: Some("rsk_mock_tx".to_owned()),
                status: TradeStatus::Pending,
                error: Some("RSK trades not implemented".to_owned()),
            }
        } else {
            LegResult {
                tx_id: Some("liquid_mock_tx".to_owned()),
                status: TradeStatus::Pending,
                error: Some("Liquid trades not implemented".to_owned()),
            }
        }
    }
}

// ---------------------------------------------------------------------------
// The Bitcoin-side leg, selected by market type
// ---------------------------------------------------------------------------

/// Whether the wallet for the given market type is configured: each
/// ecosystem needs its own section filled in.
pub open spec fn btc_real_configured(c: BitcoinConfig, t: BtcMarketType) -> bool {
    match t {
        BtcMarketType::LightningNetwork => c.lightning matches Some(l) && l.endpoint@.len() > 0,
        BtcMarketType::Ordinals => c.ordinals matches Some(o) && o.address@.len() > 0
            && o.ordinal_id@.len() > 0,
        BtcMarketType::Stacks => c.stacks matches Some(s) && s.private_key matches Some(k)
            && k@.len() > 0,
        BtcMarketType::RSK => c.rsk matches Some(r) && r.rpc_url@.len() > 0,
        BtcMarketType::Liquid => c.liquid matches Some(l) && l.rpc_url@.len() > 0,
        BtcMarketType::Custom(_) => false,
    }
}

/// What this leg reports: an unconfigured wallet fails with the market
/// type named in the reason; otherwise the attempt stays pending, since no
/// live integration is wired up.
pub open spec fn btc_real_leg(c: BitcoinConfig, t: BtcMarketType, r: LegResult) -> bool {
    if btc_real_configured(c, t) {
        &&& r.tx_id is None
        &&& r.status == TradeStatus::Pending
        &&& (r.error matches Some(e) && e@ == "BTC trade execution requires configuration"@)
    } else {
        &&& r.tx_id is None
        &&& r.status == TradeStatus::Failed
        &&& (r.error matches Some(e) && e@ == "BTC "@ + market_type_label(&t)
            + " wallet not configured"@)
    }
}

/// Executes the Bitcoin-side leg for one concrete market type.
pub struct BtcTradeExecutorReal {
    config: BitcoinConfig,
    btc_market_type: BtcMarketType,
}

impl BtcTradeExecutorReal {
    /// The wallet configuration the executor was built with.
    pub closed spec fn cfg(&self) -> BitcoinConfig {
        self.config
    }

    /// The market type the executor acts on.
    pub closed spec fn market_type(&self) -> BtcMarketType {
        self.btc_market_type
    }

    /// A leg executor over the given wallet configuration and market type.
    pub fn new(config: BitcoinConfig, btc_market_type: BtcMarketType) -> (r: Self)
        ensures
            r.cfg() == config,
            r.market_type() == btc_market_type,
    {
        BtcTradeExecutorReal { config, btc_market_type }
    }

    /// Whether the wallet for the executor's market type is usable.
    pub fn is_configured(&self) -> (r: bool)
        ensures
            r == btc_real_configured(self.cfg(), self.market_type()),
    {
        match &self.btc_market_type {
            BtcMarketType::LightningNetwork => match &self.config.lightning {
                Some(l) => !l.endpoint.as_str().is_empty(),
                None => false,
            },
            BtcMarketType::Ordinals => match &self.config.ordinals {
                Some(o) => !o.address.as_str().is_empty() && !o.ordinal_id.as_str().is_empty(),
                None => false,
            },
            BtcMarketType::Stacks => match &self.config.stacks {
                Some(s) => match &s.private_key {
                    Some(k) => !k.as_str().is_empty(),
                    None => false,
                },
                None => false,
            },
            BtcMarketType::RSK => match &self.config.rsk {
                Some(r) => !r.rpc_url.as_str().is_empty(),
                None => false,
            },
            BtcMarketType::Liquid => match &self.config.liquid {
                Some(l) => !l.rpc_url.as_str().is_empty(),
                None => false,
            },
            BtcMarketType::Custom(_) => false,
        }
    }

    /// One execution attempt on this leg.
    pub fn execute_leg(&self, _opportunity: &ArbitrageOpportunity) -> (r: LegResult)
        ensures
            btc_real_leg(self.cfg(), self.market_type(), r),
    {
        if !self.is_configured() {
            let reason = "BTC ".to_owned().concat(self.btc_market_type.label().as_str()).concat(
                " wallet not configured",
            );
            return LegResult { tx_id: None, status: TradeStatus::Failed, error: Some(reason) };
        }
        LegResult {
            tx_id: None,
            status: TradeStatus::Pending,
            error: Some("BTC trade execution requires configuration".to_owned()),
        }
    }
}

// ---------------------------------------------------------------------------
// The orchestrating executor and its risk check
// ---------------------------------------------------------------------------

/// How one settlement relates the position table before and after it: the
/// aggregate status follows the precedence rule, the per-leg transactions
/// and first error are carried over, and a position is opened at the
/// midpoint entry price exactly when either leg produced a transaction.
pub open spec fn settled(
    pre: PositionManager,
    post: PositionManager,
    opp: ArbitrageOpportunity,
    config: TradeConfig,
    pr: LegResult,
    br: LegResult,
    r: TradeResult,
) -> bool {
    &&& r.status == aggregate_spec(pr.status, br.status)
    &&& r.polymarket_tx == pr.tx_id
    &&& r.btc_tx == br.tx_id
    &&& r.error == (if pr.error is Some {
        pr.error
    } else {
        br.error
    })
    &&& if pr.tx_id is Some || br.tx_id is Some {
        &&& r.position_id == Some(pre.table().len() as usize)
        &&& post.table().len() == pre.table().len() + 1
        &&& post.table().drop_last() == pre.table()
        &&& post.open_ids() == pre.open_ids().push(pre.table().len() as usize)
        &&& ({
            let p = post.table().last();
            &&& p.status == PositionState::Open
            &&& p.market_id == opp.polymarket_odds.market_id
            &&& p.market_question == opp.polymarket_odds.outcome
            &&& p.entry_price.units == (opp.polymarket_odds.odds.units
                + opp.btc_market_odds.odds.units) / 2
            &&& p.size == config.max_position_size
            &&& p.tx_ids.polymarket_tx == pr.tx_id
            &&& p.tx_ids.btc_tx == br.tx_id
        })
    } else {
        &&& r.position_id is None
        &&& post.table() == pre.table()
        &&& post.open_ids() == pre.open_ids()
    }
}

/// Whether the risk check refuses a new execution attempt: the open-position
/// ceiling is reached, or realized losses breached the bound and the
/// configuration says to stop.
pub open spec fn risk_rejects(pm: PositionManager, risk: RiskConfig) -> bool {
    ||| pm.open_ids().len() >= risk.max_open_positions as int
    ||| (realized_sum(pm.table()) < risk.max_daily_loss.units && risk.stop_on_max_loss)
}

/// Orchestrates arbitrage execution across both venues and tracks the
/// positions that execution opens.
pub struct ArbitrageExecutor {
    polymarket_executor: PolymarketTradeExecutor,
    btc_executor: BtcTradeExecutor,
    position_manager: PositionManager,
}

impl ArbitrageExecutor {
    /// The position table the executor owns.
    pub closed spec fn pm(&self) -> PositionManager {
        self.position_manager
    }

    /// The Polymarket wallet configuration.
    pub closed spec fn poly_cfg(&self) -> PolymarketConfig {
        self.polymarket_executor.cfg()
    }

    /// The Bitcoin-side wallet configuration.
    pub closed spec fn btc_cfg(&self) -> BitcoinConfig {
        self.btc_executor.cfg()
    }

    /// An executor over the two venues' wallets, with an empty table.
    pub fn new(polymarket_config: PolymarketConfig, btc_config: BitcoinConfig) -> (r: Self)
        ensures
            r.pm().wf(),
            r.pm().table().len() == 0,
            r.pm().open_ids().len() == 0,
            r.poly_cfg() == polymarket_config,
            r.btc_cfg() == btc_config,
    {
        ArbitrageExecutor {
            polymarket_executor: PolymarketTradeExecutor::new(polymarket_config),
            btc_executor: BtcTradeExecutor::new(btc_config),
            position_manager: PositionManager::new(),
        }
    }

    /// The position table, read-only.
    pub fn position_manager(&self) -> (r: &PositionManager)
        ensures
            *r == self.pm(),
    {
        &self.position_manager
    }

    /// Reconciles the two legs' results: aggregates their statuses under
    /// the precedence rule, keeps the first error (Polymarket's wins), and
    /// opens a position recording whatever was actually attempted whenever
    /// either leg produced a transaction identifier.
    pub fn settle(
        &mut self,
        opportunity: &ArbitrageOpportunity,
        config: &TradeConfig,
        poly_result: LegResult,
        btc_result: LegResult,
    ) -> (r: TradeResult)
        requires
            old(self).pm().wf(),
            valid_price(opportunity.polymarket_odds.odds),
            valid_price(opportunity.btc_market_odds.odds),
        ensures
            final(self).pm().wf(),
            final(self).poly_cfg() == old(self).poly_cfg(),
            final(self).btc_cfg() == old(self).btc_cfg(),
            settled(
                old(self).pm(),
                final(self).pm(),
                *opportunity,
                *config,
                poly_result,
                btc_result,
                r,
            ),
    {
        let status = aggregate_status(poly_result.status, btc_result.status);
        let position_id: Option<usize> = if poly_result.tx_id.is_some() || btc_result.tx_id.is_some() {
            let entry_price = opportunity.polymarket_odds.odds.midpoint(
                &opportunity.btc_market_odds.odds,
            );
            let id = self.position_manager.open_position(
                opportunity,
                entry_price,
                config.max_position_size,
                clone_opt_string(&poly_result.tx_id),
                clone_opt_string(&btc_result.tx_id),
            );
            Some(id)
        } else {
            None
        };
        let error: Option<String> = match poly_result.error {
            Some(e) => Some(e),
            None => btc_result.error,
        };
        TradeResult {
            polymarket_tx: poly_result.tx_id,
            btc_tx: btc_result.tx_id,
            status,
            executed_at: now_seconds(),
            error,
            position_id,
        }
    }

    /// Executes both legs of the opportunity, one per venue, and settles
    /// their results into one aggregate outcome.
    pub fn execute(&mut self, opportunity: &ArbitrageOpportunity, config: &TradeConfig) -> (r:
        TradeResult)
        requires
            old(self).pm().wf(),
            valid_price(opportunity.polymarket_odds.odds),
            valid_price(opportunity.btc_market_odds.odds),
        ensures
            final(self).pm().wf(),
            final(self).poly_cfg() == old(self).poly_cfg(),
            final(self).btc_cfg() == old(self).btc_cfg(),
            exists|pr: LegResult, br: LegResult|
                {
                    &&& #[trigger] poly_leg(old(self).poly_cfg(), pr)
                    &&& #[trigger] btc_leg(old(self).btc_cfg(), br)
                    &&& settled(old(self).pm(), final(self).pm(), *opportunity, *config, pr, br, r)
                },
    {
        let poly_result = self.polymarket_executor.execute_leg(opportunity);
        let btc_result = self.btc_executor.execute_leg(opportunity);
        let ghost pr = poly_result;
        let ghost br = btc_result;
        let r = self.settle(opportunity, config, poly_result, btc_result);
        proof {
            assert(poly_leg(old(self).poly_cfg(), pr) && btc_leg(old(self).btc_cfg(), br)
                && settled(old(self).pm(), final(self).pm(), *opportunity, *config, pr, br, r));
        }
        r
    }

    /// The pre-trade risk check: refuses exactly when the open-position
    /// ceiling is reached, or when realized losses breached the bound and
    /// the configuration says to stop on that.
    pub fn validate_trade(&self, risk: &RiskConfig) -> (r: Result<(), ArbError>)
        requires
            self.pm().wf(),
        ensures
            r is Ok <==> !risk_rejects(self.pm(), *risk),
            r matches Err(e) ==> e == ArbError::RiskLimitExceeded,
    {
        let open_count = self.position_manager.open_count();
        if open_count >= risk.max_open_positions as usize {
            return Result::Err(ArbError::RiskLimitExceeded);
        }
        let realized = self.position_manager.calculate_realized_pnl();
        if realized.units < risk.max_daily_loss.units && risk.stop_on_max_loss {
            return Result::Err(ArbError::RiskLimitExceeded);
        }
        Result::Ok(())
    }

    /// Executes the opportunity only past the risk check: on refusal no leg
    /// is attempted and the table is untouched.
    pub fn execute_checked(
        &mut self,
        opportunity: &ArbitrageOpportunity,
        config: &TradeConfig,
        risk: &RiskConfig,
    ) -> (r: Result<TradeResult, ArbError>)
        requires
            old(self).pm().wf(),
            valid_price(opportunity.polymarket_odds.odds),
            valid_price(opportunity.btc_market_odds.odds),
        ensures
            final(self).pm().wf(),
            match r {
                Result::Err(e) => {
                    &&& e == ArbError::RiskLimitExceeded
                    &&& risk_rejects(old(self).pm(), *risk)
                    &&& final(self).pm().table() == old(self).pm().table()
                    &&& final(self).pm().open_ids() == old(self).pm().open_ids()
                },
                Result::Ok(res) => {
                    &&& !risk_rejects(old(self).pm(), *risk)
                    &&& exists|pr: LegResult, br: LegResult|
                        {
                            &&& #[trigger] poly_leg(old(self).poly_cfg(), pr)
                            &&& #[trigger] btc_leg(old(self).btc_cfg(), br)
                            &&& settled(
                                old(self).pm(),
                                final(self).pm(),
                                *opportunity,
                                *config,
                                pr,
                                br,
                                res,
                            )
                        }
                },
            },
    {
        match self.validate_trade(risk) {
            Result::Err(e) => Result::Err(e),
            Result::Ok(()) => Result::Ok(self.execute(opportunity, config)),
        }
    }

    /// A snapshot of every open position.
    pub fn get_open_positions(&self) -> (r: Vec<Position>)
        requires
            self.pm().wf(),
        ensures
            r@.len() == self.pm().open_ids().len(),
            forall|j: int|
                0 <= j < r@.len() ==> #[trigger] r@[j] == self.pm().table()[self.pm().open_ids()[j] as int],
    {
        self.position_manager.get_open_positions()
    }

    /// Total realized profit-and-loss of the table.
    pub fn calculate_realized_pnl(&self) -> (r: Dec)
        requires
            self.pm().wf(),
        ensures
            r.units == realized_sum(self.pm().table()),
    {
        self.position_manager.calculate_realized_pnl()
    }

    /// Total unrealized profit-and-loss of the open positions against the
    /// quoted prices.
    pub fn calculate_unrealized_pnl(&self, current_prices: &Vec<(String, Dec)>) -> (r: Dec)
        requires
            self.pm().wf(),
            crate::positions::valid_prices(current_prices@),
        ensures
            r.units == crate::positions::unrealized_sum(
                self.pm().table(),
                self.pm().open_ids(),
                current_prices@,
            ),
    {
        self.position_manager.calculate_unrealized_pnl(current_prices)
    }

    /// Closes one of the executor's positions at the given exit price:
    /// exactly `PositionManager::close_position` on the owned table.
    pub fn close_position(&mut self, position_id: usize, exit_price: Dec) -> (r: Result<
        Position,
        ArbError,
    >)
        requires
            old(self).pm().wf(),
            valid_price(exit_price),
        ensures
            final(self).pm().wf(),
            final(self).poly_cfg() == old(self).poly_cfg(),
            final(self).btc_cfg() == old(self).btc_cfg(),
            match r {
                Result::Err(e) => {
                    &&& final(self).pm().table() == old(self).pm().table()
                    &&& final(self).pm().open_ids() == old(self).pm().open_ids()
                    &&& (e == ArbError::NotFound || e == ArbError::InvalidState)
                    &&& (e == ArbError::NotFound <==> position_id >= old(self).pm().table().len())
                    &&& (e == ArbError::InvalidState <==> position_id < old(self).pm().table().len()
                        && old(self).pm().table()[position_id as int].status != PositionState::Open)
                },
                Result::Ok(p) => {
                    &&& position_id < old(self).pm().table().len()
                    &&& old(self).pm().table()[position_id as int].status == PositionState::Open
                    &&& p.id == position_id
                    &&& p.status == PositionState::Closed
                    &&& p.exit_price == Some(exit_price)
                    &&& (p.pnl matches Some(d) && d.units == exit_price.units - old(
                        self,
                    ).pm().table()[position_id as int].entry_price.units)
                    &&& p.closed_at is Some
                    &&& final(self).pm().table() == old(self).pm().table().update(
                        position_id as int,
                        p,
                    )
                    &&& !final(self).pm().open_ids().contains(position_id)
                    &&& forall|x: usize|
                        x != position_id ==> (final(self).pm().open_ids().contains(x) == old(
                            self,
                        ).pm().open_ids().contains(x))
                },
            },
    {
        self.position_manager.close_position(position_id, exit_price)
    }
}

} // verus!
