use arb_core::fixed::{Dec, SCALE};
use arb_core::matcher::OutcomeMatcher;
use arb_core::models::{MarketOdds, MarketSource};

fn create_test_odds(outcome: &str, odds: Dec) -> MarketOdds {
    MarketOdds {
        market_id: "test-market".to_string(),
        outcome: outcome.to_string(),
        odds,
        source: MarketSource::Polymarket,
        timestamp: chrono::Utc::now().timestamp(),
    }
}

#[test]
fn test_exact_match() {
    let matcher = OutcomeMatcher::new();
    assert!(matcher.outcomes_match("Yes", "yes"));
    assert!(matcher.outcomes_match("Trump wins", "trump wins"));
}

#[test]
fn test_normalization() {
    let matcher = OutcomeMatcher::new();
    assert!(matcher.outcomes_match("YES - Trump", "yes trump"));
    assert!(matcher.outcomes_match("Biden: 2024", "biden 2024"));
}

#[test]
fn test_jaccard_similarity() {
    let matcher = OutcomeMatcher::new();
    // Perfect matches (Jaccard = 1.0)
    assert!(matcher.outcomes_match("Trump wins", "Trump Wins"));
    assert!(matcher.outcomes_match("YES - Trump", "Trump - Yes"));
    assert!(matcher.outcomes_match("YES Trump wins", "Trump wins YES"));
    // High similarity (Jaccard > 0.8)
    assert!(matcher.outcomes_match("YES Trump", "Trump YES")); // 2/2 = 1.0
    // Low similarity - should not match
    assert!(!matcher.outcomes_match("Trump wins", "Biden wins")); // 0.0
    assert!(!matcher.outcomes_match("YES - Trump wins election", "Trump Wins - Yes")); // 3/4 = 0.75 < 0.8
}

#[test]
fn test_find_best_match() {
    let matcher = OutcomeMatcher::new();
    let target = create_test_odds("YES - Trump wins", Dec::new(600_000));

    let candidates = vec![
        create_test_odds("Trump Wins - Yes", Dec::new(550_000)),
        create_test_odds("Biden wins - Yes", Dec::new(400_000)),
        create_test_odds("Donald Trump Victory", Dec::new(620_000)),
    ];

    let best = matcher.find_best_match(&target, &candidates);
    assert!(best.is_some());
    assert_eq!(best.unwrap().outcome, "Trump Wins - Yes");
}

#[test]
fn test_empty_strings() {
    let matcher = OutcomeMatcher::new();
    assert!(matcher.outcomes_match("", ""));
    assert!(!matcher.outcomes_match("", "Trump wins"));
}

#[test]
fn test_special_characters() {
    let matcher = OutcomeMatcher::new();
    assert!(matcher.outcomes_match("@Trump#2024$", "trump 2024"));
    assert!(matcher.outcomes_match("YES-Trump,Wins", "yes trump wins"));
}

#[test]
fn test_normalize_canonical_form() {
    let matcher = OutcomeMatcher::new();
    assert_eq!(matcher.normalize("  YES -- Trump,Wins!  "), "yes trump wins");
    assert_eq!(matcher.normalize(""), "");
    assert_eq!(matcher.normalize("@#$%"), "");
    assert_eq!(matcher.normalize("a"), "a");
}

#[test]
fn test_normalize_idempotent_values() {
    let matcher = OutcomeMatcher::new();
    for s in ["YES - Trump wins", "  a,,b  ", "", "MiXeD CaSe 42", "@Trump#2024$"] {
        let once = matcher.normalize(s);
        let twice = matcher.normalize(&once);
        assert_eq!(once, twice);
    }
}

#[test]
fn test_similarity_values() {
    let matcher = OutcomeMatcher::new();
    // identical token sets are exactly 1.0
    assert_eq!(matcher.similarity("Trump wins", "WINS -- trump").units, SCALE);
    // both empty: 1.0 by definition
    assert_eq!(matcher.similarity("", "").units, SCALE);
    // one empty: 0.0
    assert_eq!(matcher.similarity("", "Trump wins").units, 0);
    // 3 common of 4 distinct tokens: 0.75
    assert_eq!(
        matcher.similarity("YES - Trump wins election", "Trump Wins - Yes").units,
        750_000
    );
    // symmetry on a concrete pair
    assert_eq!(
        matcher.similarity("a b c", "b c d").units,
        matcher.similarity("b c d", "a b c").units
    );
}

#[test]
fn test_find_best_match_none_when_nothing_matches() {
    let matcher = OutcomeMatcher::new();
    let target = create_test_odds("YES - Trump wins", Dec::new(600_000));
    let candidates = vec![
        create_test_odds("Biden wins", Dec::new(400_000)),
        create_test_odds("something else entirely", Dec::new(500_000)),
    ];
    assert!(matcher.find_best_match(&target, &candidates).is_none());
    assert!(matcher.find_best_match(&target, &Vec::new()).is_none());
}
