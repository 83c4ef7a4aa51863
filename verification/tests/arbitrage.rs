use arb_bot::arbitrage::{
    detect_opportunity, legs_of_strategy, min_profit, payout, select_opportunity, should_exit,
    total_fee_estimate, ArbState,
};
use arb_bot::config::Config;
use arb_bot::decimal::Price;
use arb_bot::types::{KalshiBestAsks, Platform, PlatformUpdate, PolyBestAsks, TradeLeg};

fn p(mantissa: i128, scale: u32) -> Price {
    Price { mantissa, scale }
}

/// The value of an amount in units of 10^-6 (amounts of these tests have at
/// most six fractional digits).
fn micro(x: Price) -> i128 {
    assert!(x.scale <= 6);
    x.mantissa * 10i128.pow(6 - x.scale)
}

fn leg(platform: Platform, price: Price) -> TradeLeg {
    TradeLeg {
        platform,
        description: "leg".to_string(),
        market_id: "id".to_string(),
        side: "buy".to_string(),
        price,
    }
}

fn config() -> Config {
    Config {
        kalshi_api_key_id: "key".to_string(),
        kalshi_pem_path: "key.pem".to_string(),
        polymarket_private_key: "SECRET-REDACTED".to_string(),
        kalshi_market_ticker_a: "KX-A".to_string(),
        kalshi_market_ticker_b: "KX-B".to_string(),
        polymarket_asset_id_a: "111".to_string(),
        polymarket_asset_id_b: "222".to_string(),
        polymarket_signature_type: 0,
        trade_quantity: 10,
        exit_after_first_trade: true,
    }
}

fn kalshi(a_yes: i128, a_no: i128, b_yes: i128, b_no: i128) -> KalshiBestAsks {
    KalshiBestAsks {
        market_a_yes: p(a_yes, 2),
        market_a_no: p(a_no, 2),
        market_b_yes: p(b_yes, 2),
        market_b_no: p(b_no, 2),
    }
}

fn poly(a: i128, b: i128) -> PolyBestAsks {
    PolyBestAsks { outcome_a: p(a, 2), outcome_b: p(b, 2) }
}

#[test]
fn constants_of_the_rule() {
    assert_eq!(total_fee_estimate(), p(4, 2));
    assert_eq!(min_profit(), p(5, 3));
    assert_eq!(payout(), p(1, 0));
}

#[test]
fn detects_cheap_pair_with_cost_and_profit() {
    let o = detect_opportunity(leg(Platform::Polymarket, p(40, 2)), leg(Platform::Kalshi, p(5, 1)))
        .unwrap();
    assert_eq!(micro(o.total_cost), 940_000);
    assert_eq!(micro(o.profit), 60_000);
    assert_eq!(o.leg_a_wins.platform, Platform::Polymarket);
    assert_eq!(o.leg_b_wins.price, p(5, 1));
}

#[test]
fn cost_plus_profit_is_one() {
    let o = detect_opportunity(leg(Platform::Kalshi, p(123, 3)), leg(Platform::Polymarket, p(4567, 4)))
        .unwrap();
    assert_eq!(micro(o.total_cost) + micro(o.profit), 1_000_000);
    assert_eq!(micro(o.total_cost), 123_000 + 456_700 + 40_000);
}

#[test]
fn fires_exactly_up_to_prices_summing_to_0_955() {
    // 0.455 + 0.5 = 0.955: cost 0.995, profit exactly the minimum
    let o = detect_opportunity(leg(Platform::Kalshi, p(455, 3)), leg(Platform::Polymarket, p(5, 1)));
    assert_eq!(micro(o.unwrap().profit), 5_000);
    // 0.456 + 0.5: profit 0.004 below the minimum
    assert!(detect_opportunity(leg(Platform::Kalshi, p(456, 3)), leg(Platform::Polymarket, p(5, 1)))
        .is_none());
}

#[test]
fn no_opportunity_when_cost_reaches_one() {
    assert!(detect_opportunity(leg(Platform::Kalshi, p(46, 2)), leg(Platform::Polymarket, p(5, 1)))
        .is_none());
    assert!(detect_opportunity(leg(Platform::Kalshi, p(6, 1)), leg(Platform::Polymarket, p(6, 1)))
        .is_none());
}

#[test]
fn strategy_legs_cover_both_outcomes() {
    let c = config();
    let k = kalshi(10, 20, 30, 40);
    let q = poly(50, 60);
    let (a, b) = legs_of_strategy(0, &k, &q, &c);
    assert_eq!((a.platform, a.market_id.as_str(), a.side.as_str(), a.description.as_str()), (Platform::Polymarket, "111", "buy", "Poly A"));
    assert_eq!((b.platform, b.market_id.as_str(), b.side.as_str(), b.description.as_str()), (Platform::Kalshi, "KX-B", "yes", "Mkt-B Yes"));
    assert_eq!((a.price, b.price), (p(50, 2), p(30, 2)));
    let (a, b) = legs_of_strategy(1, &k, &q, &c);
    assert_eq!((a.market_id.as_str(), b.market_id.as_str(), b.side.as_str(), b.description.as_str()), ("111", "KX-A", "no", "Mkt-A No"));
    assert_eq!(b.price, p(20, 2));
    let (a, b) = legs_of_strategy(2, &k, &q, &c);
    assert_eq!((a.platform, a.market_id.as_str(), a.side.as_str(), a.description.as_str()), (Platform::Kalshi, "KX-A", "yes", "Mkt-A Yes"));
    assert_eq!((b.platform, b.market_id.as_str(), b.description.as_str()), (Platform::Polymarket, "222", "Poly B"));
    assert_eq!((a.price, b.price), (p(10, 2), p(60, 2)));
    let (a, b) = legs_of_strategy(3, &k, &q, &c);
    assert_eq!((a.market_id.as_str(), a.side.as_str(), a.description.as_str(), b.market_id.as_str()), ("KX-B", "no", "Mkt-B No", "222"));
    assert_eq!(a.price, p(40, 2));
}

#[test]
fn select_takes_first_strategy_that_fires() {
    let c = config();
    // strategy 0: 0.50 + 0.60 no; strategy 1: 0.50 + 0.40 yes; strategy 2 also fires
    let k = kalshi(30, 40, 60, 70);
    let q = poly(50, 50);
    let o = select_opportunity(&k, &q, &c).unwrap();
    assert_eq!(o.leg_a_wins.description, "Poly A");
    assert_eq!(o.leg_b_wins.description, "Mkt-A No");
    assert_eq!(micro(o.total_cost), 940_000);
}

#[test]
fn select_finds_nothing_in_a_fair_market() {
    let c = config();
    let k = kalshi(50, 50, 50, 50);
    let q = poly(50, 50);
    assert!(select_opportunity(&k, &q, &c).is_none());
}

#[test]
fn select_reaches_last_strategy() {
    let c = config();
    let k = kalshi(60, 60, 60, 30);
    let q = poly(60, 50);
    let o = select_opportunity(&k, &q, &c).unwrap();
    assert_eq!(o.leg_a_wins.description, "Mkt-B No");
    assert_eq!(o.leg_b_wins.description, "Poly B");
    assert_eq!(micro(o.profit), 160_000);
}

#[test]
fn select_fires_on_a_negative_ask() {
    let c = config();
    let mut k = kalshi(99, 99, 99, 99);
    k.market_a_yes = p(99, 2);
    let mut q = poly(99, 99);
    q.outcome_a = p(-5, 0);
    // strategy 0: -5 + 0.99 + 0.04 = -3.97 < 1, profit 4.97
    let o = select_opportunity(&k, &q, &c).unwrap();
    assert_eq!(o.leg_a_wins.description, "Poly A");
    assert_eq!(o.leg_b_wins.description, "Mkt-B Yes");
    assert_eq!(micro(o.total_cost), -3_970_000);
    assert_eq!(micro(o.profit), 4_970_000);
}

#[test]
fn detect_exact_for_large_prices() {
    // 2.5 and -1.6: sum 0.9, cost 0.94
    let o = detect_opportunity(leg(Platform::Kalshi, p(25, 1)), leg(Platform::Polymarket, p(-16, 1)))
        .unwrap();
    assert_eq!(micro(o.total_cost), 940_000);
    assert!(detect_opportunity(leg(Platform::Kalshi, p(3, 0)), leg(Platform::Polymarket, p(-2, 0)))
        .is_none());
}

#[test]
fn cheaper_legs_still_fire() {
    assert!(detect_opportunity(leg(Platform::Kalshi, p(45, 2)), leg(Platform::Polymarket, p(5, 1))).is_some());
    assert!(detect_opportunity(leg(Platform::Kalshi, p(44, 2)), leg(Platform::Polymarket, p(49, 2))).is_some());
    assert!(detect_opportunity(leg(Platform::Kalshi, p(-9, 0)), leg(Platform::Polymarket, p(0, 0))).is_some());
}

#[test]
fn detect_rounds_like_rust_decimal_on_huge_values() {
    // a mantissa of 2^96 - 1 at scale 0 overflows the sum: no opportunity
    let huge = p(79228162514264337593543950335, 0);
    assert!(detect_opportunity(leg(Platform::Kalshi, huge), leg(Platform::Polymarket, huge)).is_none());
    let neg = p(-79228162514264337593543950335, 0);
    assert!(detect_opportunity(leg(Platform::Kalshi, neg), leg(Platform::Polymarket, neg)).is_none());
}

#[test]
fn state_waits_for_both_platforms() {
    let c = config();
    let mut s = ArbState::new();
    assert!(s.step(PlatformUpdate::Kalshi(kalshi(30, 40, 60, 70)), &c).is_none());
    assert!(s.kalshi.is_some() && s.poly.is_none());
    let o = s.step(PlatformUpdate::Polymarket(poly(50, 50)), &c).unwrap();
    assert_eq!(o.leg_b_wins.description, "Mkt-A No");
    // a newer quote replaces the old one
    assert!(s.step(PlatformUpdate::Kalshi(kalshi(50, 50, 50, 50)), &c).is_none());
    assert_eq!(s.kalshi.unwrap().market_a_no, p(50, 2));
}

#[test]
fn on_update_returns_both_quotes() {
    let mut s = ArbState::new();
    assert!(s.on_update(PlatformUpdate::Polymarket(poly(1, 2))).is_none());
    let (k, q) = s.on_update(PlatformUpdate::Kalshi(kalshi(1, 2, 3, 4))).unwrap();
    assert_eq!(k, kalshi(1, 2, 3, 4));
    assert_eq!(q, poly(1, 2));
}

#[test]
fn exit_only_after_a_trade_when_configured() {
    let mut c = config();
    assert!(should_exit(true, &c));
    assert!(!should_exit(false, &c));
    c.exit_after_first_trade = false;
    assert!(!should_exit(true, &c));
}

#[test]
fn only_latest_quotes_matter() {
    let c = config();
    let mut s1 = ArbState::new();
    s1.step(PlatformUpdate::Kalshi(kalshi(10, 10, 10, 10)), &c);
    s1.step(PlatformUpdate::Kalshi(kalshi(30, 40, 60, 70)), &c);
    let o1 = s1.step(PlatformUpdate::Polymarket(poly(50, 50)), &c).unwrap();
    let mut s2 = ArbState::new();
    s2.step(PlatformUpdate::Kalshi(kalshi(30, 40, 60, 70)), &c);
    let o2 = s2.step(PlatformUpdate::Polymarket(poly(50, 50)), &c).unwrap();
    assert_eq!(o1.leg_b_wins.description, o2.leg_b_wins.description);
    assert_eq!(o1.leg_b_wins.price, o2.leg_b_wins.price);
    assert_eq!((o1.total_cost, o1.profit), (o2.total_cost, o2.profit));
}
