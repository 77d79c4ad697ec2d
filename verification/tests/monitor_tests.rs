use arb_core::config::{Config, RiskConfig, TradingConfig};
use arb_core::errors::ArbError;
use arb_core::fixed::Dec;
use arb_core::models::{ArbitrageOpportunity, Market, MarketOdds, MarketSource};
use arb_core::monitor::{select_scan_markets, should_execute};

fn market(id: &str, volume: Option<Dec>) -> Market {
    Market {
        id: id.to_string(),
        question: format!("Question {}", id),
        description: None,
        outcomes: vec!["Yes".to_string(), "No".to_string()],
        end_time: None,
        volume,
        liquidity: None,
    }
}

#[test]
fn scan_keeps_first_ten_markets_with_volume() {
    let mut markets = Vec::new();
    for i in 0..15 {
        let volume = if i % 2 == 0 { Some(Dec::from_int(i)) } else { None };
        markets.push(market(&format!("m{}", i), volume));
    }
    let picked = select_scan_markets(markets);
    // 8 even-numbered markets carry a volume figure; all are kept, in order
    assert_eq!(picked.len(), 8);
    assert_eq!(picked[0].id, "m0");
    assert_eq!(picked[7].id, "m14");

    let mut many = Vec::new();
    for i in 0..30 {
        many.push(market(&format!("m{}", i), Some(Dec::from_int(1))));
    }
    let picked = select_scan_markets(many);
    assert_eq!(picked.len(), 10);
    assert_eq!(picked[9].id, "m9");
}

#[test]
fn execution_decision_needs_both_flag_and_profit() {
    let qa = MarketOdds {
        market_id: "m".to_string(),
        outcome: "Yes".to_string(),
        odds: Dec::new(600_000),
        source: MarketSource::Polymarket,
        timestamp: 0,
    };
    let qb = MarketOdds {
        market_id: "m".to_string(),
        outcome: "Yes".to_string(),
        odds: Dec::new(680_000),
        source: MarketSource::BitcoinPredictionMarket,
        timestamp: 0,
    };
    let opp = ArbitrageOpportunity::new(qa, qb, Dec::new(133_333), Dec::new(1_000_000));
    assert!(should_execute(&opp, Dec::new(50_000), true));
    assert!(!should_execute(&opp, Dec::new(50_000), false));
    assert!(!should_execute(&opp, Dec::new(200_000), true));
}

#[test]
fn documented_defaults() {
    let config = Config::default();
    assert_eq!(config.general.min_profit_threshold, Dec::new(50_000));
    assert_eq!(config.general.max_position_size, Dec::from_int(1000));
    assert!(!config.trading.auto_execute);
    assert_eq!(config.risk.max_open_positions, 5);
    assert!(config.risk.stop_on_max_loss);
    assert_eq!(config.polymarket.network, "polygon");
    assert_eq!(config.bitcoin.protocol, "lightning");
    let trading = TradingConfig::default();
    assert_eq!(trading.max_concurrent_trades, 3);
    let risk = RiskConfig::default();
    assert_eq!(risk.max_daily_loss, Dec::from_int(-500));
}

#[test]
fn error_messages_name_the_failure() {
    assert_eq!(ArbError::NotFound.message(), "position not found");
    assert_eq!(ArbError::InvalidState.message(), "position is not open");
    assert_eq!(ArbError::RiskLimitExceeded.message(), "risk limit exceeded");
    assert_eq!(ArbError::NotConfigured.message(), "wallet not configured");
}
