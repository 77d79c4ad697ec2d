use arb_core::arbitrage::ArbitrageDetector;
use arb_core::fixed::{Dec, SCALE};
use arb_core::models::{MarketOdds, MarketSource};

fn poly_quote(outcome: &str, units: i128, ts: i64) -> MarketOdds {
    MarketOdds {
        market_id: "m1".to_string(),
        outcome: outcome.to_string(),
        odds: Dec::new(units),
        source: MarketSource::Polymarket,
        timestamp: ts,
    }
}

fn btc_quote(outcome: &str, units: i128, ts: i64) -> MarketOdds {
    MarketOdds {
        market_id: "m1".to_string(),
        outcome: outcome.to_string(),
        odds: Dec::new(units),
        source: MarketSource::BitcoinPredictionMarket,
        timestamp: ts,
    }
}

#[test]
fn detect_end_to_end_scenario() {
    // quote_a 0.60, quote_b 0.68, threshold 0.05:
    // implied profit |0.68 - 0.60| / 0.60 = 0.133333... in micro-units
    let detector = ArbitrageDetector::new();
    let quotes_a = vec![poly_quote("YES - Trump wins", 600_000, 1_000)];
    let quotes_b = vec![btc_quote("Trump Wins - Yes", 680_000, 1_000)];
    let opp = detector.detect(&quotes_a, &quotes_b, Dec::new(50_000)).expect("an opportunity");
    assert_eq!(opp.implied_profit.units, 133_333);
    assert_eq!(opp.polymarket_odds.outcome, "YES - Trump wins");
    assert_eq!(opp.btc_market_odds.outcome, "Trump Wins - Yes");
    // equal timestamps: full confidence
    assert_eq!(opp.confidence.units, SCALE);
}

#[test]
fn detect_below_threshold_returns_none() {
    let detector = ArbitrageDetector::new();
    let quotes_a = vec![poly_quote("YES - Trump wins", 600_000, 0)];
    let quotes_b = vec![btc_quote("trump wins yes", 610_000, 0)];
    // gap 0.01 / 0.60 = 0.0166 < 0.05
    assert!(detector.detect(&quotes_a, &quotes_b, Dec::new(50_000)).is_none());
}

#[test]
fn detect_no_match_returns_none() {
    let detector = ArbitrageDetector::new();
    let quotes_a = vec![poly_quote("YES - Trump wins", 600_000, 0)];
    let quotes_b = vec![btc_quote("Biden landslide", 680_000, 0)];
    assert!(detector.detect(&quotes_a, &quotes_b, Dec::new(50_000)).is_none());
}

#[test]
fn detect_returns_first_qualifying_pair() {
    let detector = ArbitrageDetector::new();
    let quotes_a = vec![
        poly_quote("No match here", 500_000, 0),
        poly_quote("YES rain tomorrow", 500_000, 0),
        poly_quote("YES snow tomorrow", 100_000, 0),
    ];
    let quotes_b = vec![
        btc_quote("rain tomorrow - yes", 600_000, 0),
        btc_quote("snow tomorrow - yes", 900_000, 0),
    ];
    // both later quotes qualify; the first in iteration order wins
    let opp = detector.detect(&quotes_a, &quotes_b, Dec::new(50_000)).expect("an opportunity");
    assert_eq!(opp.polymarket_odds.outcome, "YES rain tomorrow");
    assert_eq!(opp.implied_profit.units, 200_000); // 0.1 / 0.5
}

#[test]
fn implied_profit_is_gap_over_first_leg() {
    let detector = ArbitrageDetector::new();
    let a = poly_quote("x", 500_000, 0);
    let b = btc_quote("x", 400_000, 0);
    // |0.4 - 0.5| / 0.5 = 0.2, and never negative
    let p = detector.calculate_implied_profit(&a, &b);
    assert_eq!(p.units, 200_000);
    assert!(p.units >= 0);
}

#[test]
fn confidence_decays_with_timestamp_gap() {
    let detector = ArbitrageDetector::new();
    let a = poly_quote("x", 500_000, 10_000);
    let b = btc_quote("x", 500_000, 10_000 + 3_600);
    // one hour apart: 1 / (1 + 1) = 0.5
    assert_eq!(detector.calculate_confidence(&a, &b).units, SCALE / 2);
    // order of the quotes does not matter
    assert_eq!(detector.calculate_confidence(&b, &a).units, SCALE / 2);
}
