use arb_core::btc::{btc_to_sats, estimate_ln_fee, sats_to_btc, BtcAmount};

#[test]
fn test_sats_to_btc() {
    let sats = 100_000_000; // 1 BTC
    let btc = sats_to_btc(sats);
    assert_eq!(btc, BtcAmount::from_int(1));
}

#[test]
fn test_btc_to_sats() {
    let btc = BtcAmount::from_int(1);
    let sats = btc_to_sats(&btc);
    assert_eq!(sats, 100_000_000);
}

#[test]
fn test_fractional_btc() {
    let sats = 50_000_000; // 0.5 BTC
    let btc = sats_to_btc(sats);
    assert_eq!(btc, BtcAmount::new(50_000_000));
}

#[test]
fn test_ln_fee_estimate() {
    let sats = 100_000;
    let fee = estimate_ln_fee(sats);
    assert!(fee > 0);
    assert!(fee < sats); // Fee should be less than amount
}

#[test]
fn test_sats_round_trip_is_exact() {
    for sats in [0u64, 1, 99, 150, 100_000_000, u64::MAX] {
        assert_eq!(btc_to_sats(&sats_to_btc(sats)), sats);
    }
}

#[test]
fn test_btc_to_sats_out_of_range() {
    assert_eq!(btc_to_sats(&BtcAmount::new(-1)), 0);
    assert_eq!(btc_to_sats(&BtcAmount::new(i128::MAX / 2)), 0);
}

#[test]
fn test_ln_fee_floor_and_rate() {
    assert_eq!(estimate_ln_fee(0), 1);
    assert_eq!(estimate_ln_fee(999_999), 1);
    assert_eq!(estimate_ln_fee(1_000_000), 5);
    assert_eq!(estimate_ln_fee(10_000_000), 50);
}
