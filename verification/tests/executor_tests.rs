use arb_core::config::{
    BitcoinConfig, LightningConfig, PolymarketConfig, RiskConfig, TradeConfig,
};
use arb_core::errors::ArbError;
use arb_core::fixed::Dec;
use arb_core::models::{ArbitrageOpportunity, MarketOdds, MarketSource};
use arb_core::trader::{
    aggregate_status, ArbitrageExecutor, BtcTradeExecutor, LegResult, PolymarketTradeExecutor,
    TradeStatus,
};
use arb_core::trader::TradeStatus::{Failed, Partial, Pending, Success};

fn opportunity() -> ArbitrageOpportunity {
    let qa = MarketOdds {
        market_id: "market-9".to_string(),
        outcome: "YES - Trump wins".to_string(),
        odds: Dec::new(600_000),
        source: MarketSource::Polymarket,
        timestamp: 50,
    };
    let qb = MarketOdds {
        market_id: "market-9".to_string(),
        outcome: "Trump Wins - Yes".to_string(),
        odds: Dec::new(680_000),
        source: MarketSource::BitcoinPredictionMarket,
        timestamp: 50,
    };
    ArbitrageOpportunity::new(qa, qb, Dec::new(133_333), Dec::new(1_000_000))
}

fn trade_config() -> TradeConfig {
    TradeConfig::default()
}

fn leg(status: TradeStatus, tx: Option<&str>, err: Option<&str>) -> LegResult {
    LegResult {
        tx_id: tx.map(|t| t.to_string()),
        status,
        error: err.map(|e| e.to_string()),
    }
}

#[test]
fn aggregate_status_precedence() {
    assert_eq!(aggregate_status(Success, Success), Success);
    assert_eq!(aggregate_status(Pending, Failed), Pending);
    assert_eq!(aggregate_status(Success, Pending), Pending);
    assert_eq!(aggregate_status(Success, Failed), Partial);
    assert_eq!(aggregate_status(Failed, Success), Partial);
    assert_eq!(aggregate_status(Failed, Failed), Failed);
}

#[test]
fn settle_partial_leg_results_scenario() {
    // one leg succeeded with a transaction, the other failed without one
    let mut executor = ArbitrageExecutor::new(PolymarketConfig::default(), BitcoinConfig::default());
    let opp = opportunity();
    let poly = leg(TradeStatus::Success, Some("p1"), None);
    let btc = leg(TradeStatus::Failed, None, Some("no funds"));

    let result = executor.settle(&opp, &trade_config(), poly, btc);

    assert_eq!(result.status, TradeStatus::Partial);
    assert_eq!(result.polymarket_tx.as_deref(), Some("p1"));
    assert_eq!(result.btc_tx, None);
    assert_eq!(result.error.as_deref(), Some("no funds"));

    // a position was opened recording the partial exposure
    let id = result.position_id.expect("a position is opened");
    let positions = executor.get_open_positions();
    assert_eq!(positions.len(), 1);
    assert_eq!(positions[0].id, id);
    // entry price is the midpoint of the two legs' quoted prices
    assert_eq!(positions[0].entry_price, Dec::new(640_000));
    assert_eq!(positions[0].tx_ids.polymarket_tx.as_deref(), Some("p1"));
    assert_eq!(positions[0].tx_ids.btc_tx, None);
}

#[test]
fn settle_without_any_transaction_opens_nothing() {
    let mut executor = ArbitrageExecutor::new(PolymarketConfig::default(), BitcoinConfig::default());
    let opp = opportunity();
    let poly = leg(TradeStatus::Failed, None, Some("wallet missing"));
    let btc = leg(TradeStatus::Failed, None, Some("also missing"));

    let result = executor.settle(&opp, &trade_config(), poly, btc);
    assert_eq!(result.status, TradeStatus::Failed);
    assert_eq!(result.position_id, None);
    // Polymarket's error takes precedence
    assert_eq!(result.error.as_deref(), Some("wallet missing"));
    assert_eq!(executor.get_open_positions().len(), 0);
}

#[test]
fn unconfigured_legs_report_not_configured() {
    let poly = PolymarketTradeExecutor::new(PolymarketConfig::default());
    assert!(!poly.is_configured());
    let r = poly.execute_leg(&opportunity());
    assert_eq!(r.status, TradeStatus::Failed);
    assert_eq!(r.error.as_deref(), Some("Polymarket wallet not configured"));

    let btc = BtcTradeExecutor::new(BitcoinConfig::default());
    assert!(!btc.is_configured());
    let r = btc.execute_leg(&opportunity());
    assert_eq!(r.status, TradeStatus::Failed);
    assert_eq!(r.error.as_deref(), Some("BTC lightning wallet not configured"));
}

#[test]
fn configured_lightning_leg_reports_pending() {
    let mut config = BitcoinConfig::default();
    config.lightning = Some(LightningConfig {
        endpoint: "https://ln.example".to_string(),
        macaroon_path: None,
        cert_path: None,
    });
    let btc = BtcTradeExecutor::new(config);
    assert!(btc.is_configured());
    let r = btc.execute_leg(&opportunity());
    assert_eq!(r.status, TradeStatus::Pending);
    assert_eq!(r.tx_id.as_deref(), Some("ln_mock_payment_hash"));
}

#[test]
fn risk_check_rejects_at_max_open_positions() {
    let mut executor = ArbitrageExecutor::new(PolymarketConfig::default(), BitcoinConfig::default());
    let opp = opportunity();
    let config = trade_config();
    let risk = RiskConfig { max_daily_loss: Dec::new(-500_000_000), stop_on_max_loss: true, max_open_positions: 2 };

    // fill the table up to the ceiling with settled partial executions
    for _ in 0..2 {
        let poly = leg(TradeStatus::Success, Some("p"), None);
        let btc = leg(TradeStatus::Failed, None, None);
        executor.settle(&opp, &config, poly, btc);
    }
    assert_eq!(executor.get_open_positions().len(), 2);

    // the attempt is rejected before any leg runs: no new position appears
    let r = executor.execute_checked(&opp, &config, &risk);
    assert_eq!(r.unwrap_err(), ArbError::RiskLimitExceeded);
    assert_eq!(executor.get_open_positions().len(), 2);
}

#[test]
fn risk_check_stops_on_breached_loss_bound() {
    let mut executor = ArbitrageExecutor::new(PolymarketConfig::default(), BitcoinConfig::default());
    let opp = opportunity();
    let config = trade_config();

    // open at 0.64 and close at 0.04: realized -0.60
    let poly = leg(TradeStatus::Success, Some("p"), None);
    let btc = leg(TradeStatus::Failed, None, None);
    let result = executor.settle(&opp, &config, poly, btc);
    executor.close_position(result.position_id.unwrap(), Dec::new(40_000)).unwrap();
    assert_eq!(executor.calculate_realized_pnl(), Dec::new(-600_000));

    // bound -0.50 breached, stop_on_max_loss set: rejected
    let strict = RiskConfig { max_daily_loss: Dec::new(-500_000), stop_on_max_loss: true, max_open_positions: 10 };
    assert_eq!(executor.execute_checked(&opp, &config, &strict).unwrap_err(), ArbError::RiskLimitExceeded);

    // same bound, but only warning configured: the attempt proceeds
    let lenient = RiskConfig { max_daily_loss: Dec::new(-500_000), stop_on_max_loss: false, max_open_positions: 10 };
    let r = executor.execute_checked(&opp, &config, &lenient);
    assert!(r.is_ok());
}

#[test]
fn execute_with_default_wallets_fails_both_legs() {
    let mut executor = ArbitrageExecutor::new(PolymarketConfig::default(), BitcoinConfig::default());
    let r = executor.execute(&opportunity(), &trade_config());
    // neither wallet is configured: both legs fail, nothing is recorded
    assert_eq!(r.status, TradeStatus::Failed);
    assert_eq!(r.position_id, None);
    assert_eq!(r.error.as_deref(), Some("Polymarket wallet not configured"));
    assert_eq!(executor.position_manager().open_count(), 0);
}
