use arb_core::errors::ArbError;
use arb_core::fixed::Dec;
use arb_core::models::{ArbitrageOpportunity, MarketOdds, MarketSource};
use arb_core::positions::{PositionManager, PositionState};

fn opportunity() -> ArbitrageOpportunity {
    let qa = MarketOdds {
        market_id: "market-7".to_string(),
        outcome: "YES - Trump wins".to_string(),
        odds: Dec::new(600_000),
        source: MarketSource::Polymarket,
        timestamp: 100,
    };
    let qb = MarketOdds {
        market_id: "market-7".to_string(),
        outcome: "Trump Wins - Yes".to_string(),
        odds: Dec::new(680_000),
        source: MarketSource::BitcoinPredictionMarket,
        timestamp: 100,
    };
    ArbitrageOpportunity::new(qa, qb, Dec::new(133_333), Dec::new(1_000_000))
}

#[test]
fn open_then_close_lifecycle() {
    let mut pm = PositionManager::new();
    let id = pm.open_position(&opportunity(), Dec::new(640_000), Dec::new(100_000_000), Some("p1".to_string()), None);

    let open = pm.get_open_positions();
    assert_eq!(open.len(), 1);
    assert_eq!(open[0].id, id);
    assert_eq!(open[0].status, PositionState::Open);
    assert_eq!(open[0].entry_price, Dec::new(640_000));
    assert_eq!(open[0].market_id, "market-7");
    assert_eq!(open[0].tx_ids.polymarket_tx.as_deref(), Some("p1"));
    assert_eq!(open[0].tx_ids.btc_tx, None);

    let closed = pm.close_position(id, Dec::new(700_000)).expect("close succeeds");
    assert_eq!(closed.status, PositionState::Closed);
    assert_eq!(closed.exit_price, Some(Dec::new(700_000)));
    // pnl == exit_price - entry_price exactly
    assert_eq!(closed.pnl, Some(Dec::new(60_000)));
    // the id left the open set
    assert_eq!(pm.get_open_positions().len(), 0);
    assert_eq!(pm.get_position(id).unwrap().status, PositionState::Closed);
}

#[test]
fn close_unknown_id_fails_not_found() {
    let mut pm = PositionManager::new();
    assert_eq!(pm.close_position(3, Dec::new(500_000)).unwrap_err(), ArbError::NotFound);
}

#[test]
fn close_already_closed_fails_invalid_state() {
    let mut pm = PositionManager::new();
    let id = pm.open_position(&opportunity(), Dec::new(640_000), Dec::new(1), None, Some("b1".to_string()));
    pm.close_position(id, Dec::new(600_000)).expect("first close succeeds");
    assert_eq!(pm.close_position(id, Dec::new(600_000)).unwrap_err(), ArbError::InvalidState);
}

#[test]
fn realized_pnl_sums_exactly_the_closed_positions() {
    let mut pm = PositionManager::new();
    let a = pm.open_position(&opportunity(), Dec::new(500_000), Dec::new(1), None, None);
    let b = pm.open_position(&opportunity(), Dec::new(400_000), Dec::new(1), None, None);
    let _still_open = pm.open_position(&opportunity(), Dec::new(300_000), Dec::new(1), None, None);

    pm.close_position(a, Dec::new(650_000)).unwrap(); // +0.15
    pm.close_position(b, Dec::new(350_000)).unwrap(); // -0.05

    assert_eq!(pm.calculate_realized_pnl(), Dec::new(100_000));
    // the open position does not contribute
    assert_eq!(pm.get_open_positions().len(), 1);
}

#[test]
fn unrealized_pnl_treats_missing_price_as_zero() {
    let mut pm = PositionManager::new();
    pm.open_position(&opportunity(), Dec::new(500_000), Dec::new(1), None, None);
    pm.open_position(&opportunity(), Dec::new(400_000), Dec::new(1), None, None);

    // both positions are on "market-7"; quote it at 0.55
    let prices = vec![("market-7".to_string(), Dec::new(550_000))];
    // (0.55 - 0.50) + (0.55 - 0.40) = 0.20
    assert_eq!(pm.calculate_unrealized_pnl(&prices), Dec::new(200_000));

    // no quote at all: zero contribution from every position
    let no_prices: Vec<(String, Dec)> = Vec::new();
    assert_eq!(pm.calculate_unrealized_pnl(&no_prices), Dec::new(0));
}

#[test]
fn market_position_count_counts_open_on_that_market() {
    let mut pm = PositionManager::new();
    let a = pm.open_position(&opportunity(), Dec::new(500_000), Dec::new(1), None, None);
    pm.open_position(&opportunity(), Dec::new(400_000), Dec::new(1), None, None);
    assert_eq!(pm.get_market_position_count("market-7"), 2);
    assert_eq!(pm.get_market_position_count("other-market"), 0);
    pm.close_position(a, Dec::new(500_000)).unwrap();
    assert_eq!(pm.get_market_position_count("market-7"), 1);
}

#[test]
fn get_all_positions_returns_the_whole_table() {
    let mut pm = PositionManager::new();
    let a = pm.open_position(&opportunity(), Dec::new(500_000), Dec::new(1), None, None);
    pm.open_position(&opportunity(), Dec::new(400_000), Dec::new(1), None, None);
    pm.close_position(a, Dec::new(550_000)).unwrap();
    let all = pm.get_all_positions();
    assert_eq!(all.len(), 2);
    assert_eq!(all[0].status, PositionState::Closed);
    assert_eq!(all[1].status, PositionState::Open);
    assert!(pm.get_position(5).is_none());
}
