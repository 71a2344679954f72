use degenerate::balance::{accept_setting, cents_to_dollars, parse_env_decimal, BalanceTracker};
use degenerate::dec::Dec;
use degenerate::models::Platform;

fn dec(mantissa: i64, scale: u32) -> Dec {
    Dec::new(mantissa, scale)
}

fn is(d: Dec, mantissa: i64, scale: u32) -> bool {
    d.eq_value(dec(mantissa, scale))
}

fn some(s: &str) -> Option<String> {
    Some(s.to_string())
}

fn tracker(fraction: &str, minimum: &str, kalshi: Dec, poly: Dec) -> BalanceTracker {
    let mut t = BalanceTracker::new(&some(fraction), &some(minimum));
    t.set_kalshi(kalshi);
    t.set_poly(poly);
    t
}

#[test]
fn parts_have_to_be_in_range() {
    let limit: i128 = 1 << 96;
    assert!(Dec::from_parts(limit - 1, 28).is_some());
    assert!(Dec::from_parts(1 - limit, 0).is_some());
    assert!(Dec::from_parts(limit, 0).is_none());
    assert!(Dec::from_parts(-limit, 0).is_none());
    assert!(Dec::from_parts(1, 29).is_none());
    let d = Dec::from_parts(-250, 2).unwrap();
    assert_eq!((d.mantissa(), d.scale()), (-250, 2));
    assert!(is(d.abs(), 25, 1));
    assert!(!d.is_zero());
    assert!(Dec::zero().is_zero());
}

#[test]
fn comparison_goes_by_value() {
    assert!(is(dec(50, 1), 5, 0));
    assert!(!is(dec(50, 1), 5, 1));
    let least = dec(-1, 0).min(dec(0, 3));
    assert!(is(least, -1, 0));
    let first = dec(10, 1).min(dec(1, 0));
    assert_eq!((first.mantissa(), first.scale()), (10, 1));
    let second = dec(11, 1).min(dec(1, 0));
    assert_eq!((second.mantissa(), second.scale()), (1, 0));
}

#[test]
fn settings_fall_back_to_their_default() {
    let default = dec(20, 2);
    for raw in [None, some(""), some("  "), some("abc"), some("0"), some("-0.5"), some("1"), some("1.5")] {
        assert!(is(parse_env_decimal(&raw, default, true), 2, 1), "{raw:?}");
    }
    assert!(is(parse_env_decimal(&some(" 0.35 "), default, true), 35, 2));
    assert!(is(parse_env_decimal(&some("7.5"), dec(2, 0), false), 75, 1));
    assert!(is(parse_env_decimal(&some("-7.5"), dec(2, 0), false), 2, 0));
    assert!(is(accept_setting(None, default, true), 2, 1));
    assert!(is(accept_setting(Some(dec(5, 1)), default, true), 5, 1));
    assert!(is(accept_setting(Some(dec(5, 0)), default, false), 5, 0));
}

#[test]
fn budget_is_a_fraction_of_the_smaller_balance() {
    let t = tracker("0.20", "2", dec(10_350, 2), dec(500, 0));
    assert!(is(t.kalshi(), 10_350, 2));
    assert!(is(t.poly(), 500, 0));
    // 103.50 * 0.20 = 20.70
    assert!(is(t.max_trade_dollars(), 207, 1));
    assert!(is(t.try_max_trade_dollars().unwrap(), 207, 1));
    let t = tracker("0.20", "2", dec(1_000, 0), dec(99, 0));
    assert!(is(t.max_trade_dollars(), 198, 1));
    let mut t = BalanceTracker::new(&None, &None);
    t.set_kalshi(dec(12, 0));
    t.set_poly(dec(20, 0));
    assert!(is(t.max_trade_dollars(), 24, 1));
    let t = BalanceTracker::new(&None, &None);
    assert!(is(t.max_trade_dollars(), 0, 0));
}

#[test]
fn size_keeps_to_budget_and_liquidity() {
    let t = tracker("0.20", "2", dec(100, 0), dec(100, 0));
    // budget 20, cost per pair 0.90: 22.2 pairs
    let size = t.compute_size(dec(40, 2), dec(50, 2), dec(1_000, 0)).unwrap();
    assert!(is(size, 22, 0));
    // liquidity of 7.9 contracts
    let size = t.compute_size(dec(40, 2), dec(50, 2), dec(79, 1)).unwrap();
    assert!(is(size, 7, 0));
    let size = t.try_compute_size(dec(40, 2), dec(50, 2), dec(79, 1)).unwrap().unwrap();
    assert!(is(size, 7, 0));
    // budget 20.70, 23 pairs at 0.90 cost exactly that
    let t = tracker("0.20", "2", dec(10_350, 2), dec(500, 0));
    assert!(is(t.compute_size(dec(40, 2), dec(50, 2), dec(1_000, 0)).unwrap(), 23, 0));
    // one cent less does not reach
    let t = tracker("0.20", "2", dec(10_345, 2), dec(500, 0));
    assert!(is(t.compute_size(dec(40, 2), dec(50, 2), dec(1_000, 0)).unwrap(), 22, 0));
    // many decimal places: 922.33720368547758 over 0.666666666
    let kalshi = Dec::from_parts(461_168_601_842_738_790, 14).unwrap();
    let t = tracker("0.20", "2", kalshi, dec(5_000, 0));
    let price = dec(333_333_333, 9);
    assert!(is(t.compute_size(price, price, dec(5_000, 0)).unwrap(), 1_383, 0));
}

#[test]
fn small_trades_are_skipped() {
    let t = tracker("0.20", "2", dec(100, 0), dec(100, 0));
    // two pairs at 0.90 are worth 1.80
    assert!(t.compute_size(dec(40, 2), dec(50, 2), dec(2, 0)).is_none());
    // three are worth 2.70
    assert!(is(t.compute_size(dec(40, 2), dec(50, 2), dec(3, 0)).unwrap(), 3, 0));
    assert!(t.compute_size(dec(0, 0), dec(0, 2), dec(3, 0)).is_none());
    let poor = tracker("0.20", "2", dec(100, 0), dec(9, 0));
    assert!(poor.compute_size(dec(40, 2), dec(50, 2), dec(1_000, 0)).is_none());
}

#[test]
fn amounts_beyond_range_are_told() {
    let huge = Dec::from_parts((1 << 96) - 1, 0).unwrap();
    let mut t = tracker("0.999", "2", dec(100, 0), dec(100, 0));
    assert!(t.try_compute_size(huge, huge, dec(1, 0)).is_none());
    assert!(!t.try_deduct_fill(Platform::Kalshi, huge, Platform::Polymarket, dec(1, 0), huge));
    assert!(is(t.kalshi(), 100, 0));
    // the first leg alone would have gone through
    assert!(!t.try_deduct_fill(Platform::Kalshi, dec(0, 0), Platform::Polymarket, huge, huge));
    assert!(is(t.kalshi(), 100, 0));
    assert!(is(t.poly(), 100, 0));
}

#[test]
fn each_leg_is_paid_on_its_own_venue() {
    let mut t = tracker("0.20", "2", dec(100, 0), dec(100, 0));
    t.deduct_fill(Platform::Kalshi, dec(40, 2), Platform::Polymarket, dec(55, 2), dec(10, 0));
    assert!(is(t.kalshi(), 96, 0));
    assert!(is(t.poly(), 945, 1));
    assert!(t.try_deduct_fill(Platform::Polymarket, dec(1, 1), Platform::Polymarket, dec(2, 1), dec(10, 0)));
    assert!(is(t.kalshi(), 96, 0));
    assert!(is(t.poly(), 915, 1));
}

#[test]
fn cents_become_dollars() {
    assert!(is(cents_to_dollars(12_345), 12_345, 2));
    assert!(is(cents_to_dollars(-1), -1, 2));
    assert!(is(cents_to_dollars(0), 0, 0));
    let most = cents_to_dollars(i64::MAX);
    assert!(most.eq_value(Dec::from_parts(i64::MAX as i128, 2).unwrap()));
}

#[test]
fn refreshing_keeps_what_could_not_be_had() {
    let mut t = tracker("0.20", "2", dec(1, 0), dec(2, 0));
    t.refresh(12_345, None);
    assert!(is(t.kalshi(), 12_345, 2) && is(t.poly(), 2, 0));
    t.refresh(100, Some(dec(75, 1)));
    assert!(is(t.kalshi(), 1, 0) && is(t.poly(), 75, 1));
}
