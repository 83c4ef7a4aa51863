use arb_bot::decimal::Price;
use arb_bot::orderbook::{build_update, BookDelta, BookSnapshot, FeedEvent, KalshiFeed, LocalOrderbook};
use arb_bot::types::KalshiBestAsks;

/// The amount in cents, for amounts with at most two fractional digits.
fn in_cents(p: Price) -> i128 {
    assert!(p.scale <= 2);
    p.mantissa * 10i128.pow(2 - p.scale)
}

fn delta(side: &str, price: u8, delta: i64) -> BookDelta {
    BookDelta { price, delta, side: side.to_string() }
}

#[test]
fn new_book_is_empty() {
    let b = LocalOrderbook::new();
    assert!(b.yes.iter().all(|&q| q == 0));
    assert!(b.no.iter().all(|&q| q == 0));
    assert_eq!(b.best_yes_ask(), None);
    assert_eq!(b.best_no_ask(), None);
}

#[test]
fn snapshot_stores_yes_at_price_and_no_inverted() {
    let mut b = LocalOrderbook::new();
    b.apply_snapshot(&BookSnapshot { yes: Some(vec![(40, 10), (45, 3)]), no: Some(vec![(60, 7)]) });
    assert_eq!(b.yes[40], 10);
    assert_eq!(b.yes[45], 3);
    assert_eq!(b.no[40], 7);
    assert_eq!(b.no[60], 0);
    // yes ask = 100 - best no bid = 100 - 60; no ask = 100 - best yes bid = 100 - 45
    assert_eq!(b.best_yes_ask(), Some(40));
    assert_eq!(b.best_no_ask(), Some(55));
}

#[test]
fn snapshot_replaces_previous_book() {
    let mut b = LocalOrderbook::new();
    b.apply_snapshot(&BookSnapshot { yes: Some(vec![(30, 1)]), no: Some(vec![(50, 2)]) });
    b.apply_snapshot(&BookSnapshot { yes: None, no: Some(vec![(20, 4)]) });
    assert_eq!(b.yes[30], 0);
    assert_eq!(b.no[50], 0);
    assert_eq!(b.no[80], 4);
    assert_eq!(b.best_no_ask(), None);
    assert_eq!(b.best_yes_ask(), Some(80));
}

#[test]
fn snapshot_later_level_at_same_price_wins() {
    let mut b = LocalOrderbook::new();
    b.apply_snapshot(&BookSnapshot { yes: Some(vec![(30, 1), (30, 9)]), no: None });
    assert_eq!(b.yes[30], 9);
}

#[test]
fn delta_adds_to_each_side() {
    let mut b = LocalOrderbook::new();
    b.apply_delta(&delta("yes", 42, 5));
    b.apply_delta(&delta("yes", 42, 2));
    b.apply_delta(&delta("no", 70, 3));
    assert_eq!(b.yes[42], 7);
    assert_eq!(b.no[30], 3);
    assert_eq!(b.best_no_ask(), Some(58));
    assert_eq!(b.best_yes_ask(), Some(30));
}

#[test]
fn delta_for_unknown_side_is_ignored() {
    let mut b = LocalOrderbook::new();
    b.apply_delta(&delta("maybe", 200, 5));
    assert!(b.yes.iter().all(|&q| q == 0));
    assert!(b.no.iter().all(|&q| q == 0));
}

#[test]
fn opposite_delta_restores_level() {
    let mut b = LocalOrderbook::new();
    b.apply_delta(&delta("no", 25, 11));
    b.apply_delta(&delta("no", 25, -11));
    assert!(b.no.iter().all(|&q| q == 0));
    assert_eq!(b.best_yes_ask(), None);
}

#[test]
fn best_asks_ignore_extreme_slots_and_non_positive_levels() {
    let mut b = LocalOrderbook::new();
    b.yes[0] = 5;
    b.yes[100] = 5;
    b.no[0] = 5;
    b.no[100] = 5;
    b.yes[10] = -3;
    assert_eq!(b.best_yes_ask(), None);
    assert_eq!(b.best_no_ask(), None);
    b.yes[99] = 1;
    b.no[1] = 1;
    assert_eq!(b.best_no_ask(), Some(1));
    assert_eq!(b.best_yes_ask(), Some(1));
}

#[test]
fn build_update_needs_all_four_asks() {
    let mut a = LocalOrderbook::new();
    let mut b = LocalOrderbook::new();
    a.apply_snapshot(&BookSnapshot { yes: Some(vec![(40, 1)]), no: Some(vec![(55, 1)]) });
    assert_eq!(build_update(&a, &b), None);
    b.apply_snapshot(&BookSnapshot { yes: Some(vec![(52, 1)]), no: None });
    assert_eq!(build_update(&a, &b), None);
    b.apply_snapshot(&BookSnapshot { yes: Some(vec![(52, 1)]), no: Some(vec![(45, 2)]) });
    let u: KalshiBestAsks = build_update(&a, &b).unwrap();
    assert_eq!(in_cents(u.market_a_yes), 45);
    assert_eq!(in_cents(u.market_a_no), 60);
    assert_eq!(in_cents(u.market_b_yes), 55);
    assert_eq!(in_cents(u.market_b_no), 48);
}

#[test]
fn feed_routes_messages_by_ticker_and_resets() {
    let mut f = KalshiFeed::new("MKT-A".to_string(), "MKT-B".to_string());
    let snap = BookSnapshot { yes: Some(vec![(40, 1)]), no: Some(vec![(55, 1)]) };
    assert_eq!(f.on_snapshot(&"MKT-A".to_string(), &snap), None);
    assert_eq!(f.book_a.yes[40], 1);
    assert!(f.book_b.yes.iter().all(|&q| q == 0));
    assert_eq!(f.on_snapshot(&"OTHER".to_string(), &snap), None);
    assert!(f.book_b.yes.iter().all(|&q| q == 0));
    let snap_b = BookSnapshot { yes: Some(vec![(52, 1)]), no: Some(vec![(45, 2)]) };
    let u = f.on_snapshot(&"MKT-B".to_string(), &snap_b).unwrap();
    assert_eq!(in_cents(u.market_b_yes), 55);
    let u2 = f.on_delta(&"MKT-A".to_string(), &delta("no", 58, 4)).unwrap();
    // a higher no bid lowers the yes ask of market A
    assert_eq!(in_cents(u2.market_a_yes), 42);
    let u3 = f.on_delta(&"MKT-B".to_string(), &delta("yes", 52, -1));
    assert_eq!(u3, None);
    f.reset();
    assert!(f.book_a.no.iter().all(|&q| q == 0));
    assert_eq!(f.ticker_a, "MKT-A");
    assert_eq!(build_update(&f.book_a, &f.book_b), None);
}

#[test]
fn feed_events_change_only_their_market() {
    let mut f = KalshiFeed::new("MKT-A".to_string(), "MKT-B".to_string());
    let evs = vec![
        FeedEvent::Snapshot("MKT-A".to_string(), BookSnapshot { yes: Some(vec![(40, 1)]), no: Some(vec![(55, 1)]) }),
        FeedEvent::Delta("OTHER".to_string(), delta("yes", 10, 5)),
        FeedEvent::Snapshot("MKT-B".to_string(), BookSnapshot { yes: Some(vec![(52, 1)]), no: Some(vec![(45, 2)]) }),
        FeedEvent::Delta("MKT-A".to_string(), delta("yes", 41, 3)),
    ];
    let mut last = None;
    for ev in &evs {
        assert!(f.event_applies(ev));
        last = f.on_event(ev);
    }
    assert_eq!(f.book_a.yes[41], 3);
    assert_eq!(f.book_b.yes[10], 0);
    assert_eq!(in_cents(last.unwrap().market_a_no), 59);
}

#[test]
fn feed_refuses_out_of_book_messages_for_its_markets() {
    let f = KalshiFeed::new("MKT-A".to_string(), "MKT-B".to_string());
    let bad = BookSnapshot { yes: Some(vec![(101, 1)]), no: None };
    assert!(!f.event_applies(&FeedEvent::Snapshot("MKT-B".to_string(), bad)));
    let bad_other = BookSnapshot { yes: Some(vec![(101, 1)]), no: None };
    assert!(f.event_applies(&FeedEvent::Snapshot("OTHER".to_string(), bad_other)));
    let mut g = KalshiFeed::new("MKT-A".to_string(), "MKT-B".to_string());
    g.book_a.yes[3] = i64::MAX;
    assert!(!g.event_applies(&FeedEvent::Delta("MKT-A".to_string(), delta("yes", 3, 1))));
    assert!(g.event_applies(&FeedEvent::Delta("MKT-A".to_string(), delta("no", 97, 1))));
}
