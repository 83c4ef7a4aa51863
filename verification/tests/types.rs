use arb_bot::decimal::Price;
use arb_bot::types::{ArbitrageOpportunity, Platform, TradeLeg};

fn leg(platform: Platform, description: &str, price: Price) -> TradeLeg {
    TradeLeg {
        platform,
        description: description.to_string(),
        market_id: "m".to_string(),
        side: "yes".to_string(),
        price,
    }
}

#[test]
fn platform_names() {
    assert_eq!(Platform::Kalshi.name(), "Kalshi");
    assert_eq!(Platform::Polymarket.name(), "Polymarket");
}

#[test]
fn trade_leg_text() {
    let l = leg(Platform::Kalshi, "Mkt-A Yes", Price { mantissa: 45, scale: 2 });
    assert_eq!(l.describe(), "Kalshi Mkt-A Yes @ 0.45");
    assert_eq!(l.describe_with_price("x"), "Kalshi Mkt-A Yes @ x");
    let d = l.duplicate();
    assert_eq!(d.description, l.description);
    assert_eq!(d.price, l.price);
}

#[test]
fn opportunity_text() {
    let o = ArbitrageOpportunity {
        leg_a_wins: leg(Platform::Polymarket, "Poly A", Price { mantissa: 40, scale: 2 }),
        leg_b_wins: leg(Platform::Kalshi, "Mkt-A No", Price { mantissa: 5, scale: 1 }),
        total_cost: Price { mantissa: 94, scale: 2 },
        profit: Price { mantissa: 6, scale: 2 },
    };
    assert_eq!(
        o.describe(),
        "ARB: [A wins] Polymarket Poly A @ 0.40 + [B wins] Kalshi Mkt-A No @ 0.5 = cost 0.94 | profit 0.06"
    );
}

#[test]
fn amounts_written_as_rust_decimal_does() {
    let text = |m: i128, s: u32| leg(Platform::Kalshi, "d", Price { mantissa: m, scale: s }).describe();
    assert_eq!(text(-5, 0), "Kalshi d @ -5");
    assert_eq!(text(0, 2), "Kalshi d @ 0.00");
    assert_eq!(text(0, 0), "Kalshi d @ 0");
    assert_eq!(text(5, 3), "Kalshi d @ 0.005");
    assert_eq!(text(-1234, 2), "Kalshi d @ -12.34");
    assert_eq!(text(120, 0), "Kalshi d @ 120");
}
