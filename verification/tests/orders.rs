use arb_bot::decimal::Price;
use arb_bot::orders::{
    build_kalshi_order, build_poly_order, leg_order, poly_fill_price, price_in_cents, LegOrder,
    OrderError, OrderSide,
};
use arb_bot::types::{Platform, TradeLeg};

fn leg(platform: Platform, market_id: &str, side: &str) -> TradeLeg {
    TradeLeg {
        platform,
        description: "x".to_string(),
        market_id: market_id.to_string(),
        side: side.to_string(),
        price: Price { mantissa: 42, scale: 2 },
    }
}

#[test]
fn kalshi_yes_order_at_detected_price_in_cents() {
    let o = build_kalshi_order("KX-A", "yes", Price { mantissa: 3, scale: 1 }, 7).unwrap();
    assert_eq!(o.ticker, "KX-A");
    assert_eq!(o.side, "yes");
    assert_eq!(o.action, "buy");
    assert_eq!(o.count, 7);
    assert_eq!(o.order_type, "limit");
    assert_eq!((o.yes_price, o.no_price), (Some(30), None));
    assert_eq!(o.time_in_force, "good_till_canceled");
}

#[test]
fn kalshi_no_order_at_detected_price_in_cents() {
    let a = build_kalshi_order("KX-B", "no", Price { mantissa: 1, scale: 2 }, 3).unwrap();
    let b = build_kalshi_order("KX-B", "no", Price { mantissa: 42, scale: 2 }, 3).unwrap();
    let c = build_kalshi_order("KX-B", "no", Price { mantissa: 99, scale: 2 }, 3).unwrap();
    assert_eq!((a.yes_price, a.no_price), (None, Some(1)));
    assert_eq!((b.yes_price, b.no_price), (None, Some(42)));
    assert_eq!((c.yes_price, c.no_price), (None, Some(99)));
}

#[test]
fn kalshi_price_outside_range_is_refused() {
    for (m, s) in [(0i128, 0u32), (1, 0), (9, 3), (995, 3), (-5, 1)] {
        match build_kalshi_order("KX-A", "yes", Price { mantissa: m, scale: s }, 1) {
            Err(e) => assert!(matches!(e, OrderError::InvalidPrice(_))),
            Ok(_) => panic!("an order outside 0.01-0.99 was built"),
        }
    }
    let e = build_kalshi_order("KX-A", "no", Price { mantissa: 150, scale: 2 }, 1).unwrap_err();
    assert_eq!(e.message(), "Invalid price: 1.50");
}

#[test]
fn prices_in_cents_round_down() {
    assert_eq!(price_in_cents(Price { mantissa: 425, scale: 3 }), Some(42));
    assert_eq!(price_in_cents(Price { mantissa: 1, scale: 2 }), Some(1));
    assert_eq!(price_in_cents(Price { mantissa: 99, scale: 2 }), Some(99));
    assert_eq!(price_in_cents(Price { mantissa: 9899, scale: 4 }), Some(98));
    assert_eq!(price_in_cents(Price { mantissa: 9999, scale: 4 }), None);
    assert_eq!(price_in_cents(Price { mantissa: 9900000000000000000000000001, scale: 28 }), None);
    assert_eq!(price_in_cents(Price { mantissa: 5, scale: 28 }), None);
}

#[test]
fn kalshi_invalid_side_is_refused() {
    match build_kalshi_order("KX-A", "buy", Price { mantissa: 5, scale: 1 }, 1) {
        Err(e) => {
            assert!(matches!(&e, OrderError::InvalidSide(s) if s == "buy"));
            assert_eq!(e.message(), "Invalid side: buy");
        }
        Ok(_) => panic!("an order on side buy was built"),
    }
    // the side is checked before the price
    assert!(matches!(
        build_kalshi_order("KX-A", "buy", Price { mantissa: 5, scale: 0 }, 1),
        Err(OrderError::InvalidSide(_))
    ));
    assert!(build_kalshi_order("KX-A", "YES", Price { mantissa: 5, scale: 1 }, 1).is_err());
}

#[test]
fn poly_order_at_fill_price() {
    assert_eq!(poly_fill_price(), Price { mantissa: 99, scale: 2 });
    let o = build_poly_order("123", OrderSide::Buy, Price { mantissa: 4, scale: 1 }, Price { mantissa: 5, scale: 0 });
    assert_eq!(o.token_id, "123");
    assert_eq!(o.side, OrderSide::Buy);
    assert_eq!(o.price, Price { mantissa: 99, scale: 2 });
    assert_eq!(o.size, Price { mantissa: 5, scale: 0 });
}

#[test]
fn leg_orders_by_platform() {
    match leg_order(&leg(Platform::Kalshi, "KX-A", "no"), 4).unwrap() {
        LegOrder::Kalshi(o) => {
            assert_eq!(o.ticker, "KX-A");
            assert_eq!(o.count, 4);
            assert_eq!(o.no_price, Some(42));
        }
        LegOrder::Polymarket(_) => panic!("wrong platform"),
    }
    match leg_order(&leg(Platform::Polymarket, "555", "buy"), 4).unwrap() {
        LegOrder::Polymarket(o) => {
            assert_eq!(o.token_id, "555");
            assert_eq!(o.side, OrderSide::Buy);
            assert_eq!(o.size, Price { mantissa: 4, scale: 0 });
            assert_eq!(o.price, Price { mantissa: 99, scale: 2 });
        }
        LegOrder::Kalshi(_) => panic!("wrong platform"),
    }
    assert!(leg_order(&leg(Platform::Kalshi, "KX-A", "buy"), 4).is_err());
}
