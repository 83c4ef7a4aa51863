use arb_bot::decimal::Price;
use arb_bot::poly::{min_ask, PolyEvent, PolyQuotes, PriceChange};
use arb_bot::types::PolyBestAsks;

fn p(mantissa: i128, scale: u32) -> Price {
    Price { mantissa, scale }
}

fn change(asset: &str, ask: Option<Price>) -> PriceChange {
    PriceChange { asset_id: asset.to_string(), best_ask: ask }
}

#[test]
fn min_ask_of_book() {
    assert_eq!(min_ask(&vec![]), None);
    assert_eq!(min_ask(&vec![p(55, 2), p(52, 2), p(6, 1)]), Some(p(52, 2)));
    // equal values: the first one is kept
    assert_eq!(min_ask(&vec![p(6, 1), p(5, 1), p(50, 2)]), Some(p(5, 1)));
    assert_eq!(min_ask(&vec![p(50, 2), p(5, 1)]), Some(p(50, 2)));
}

#[test]
fn book_snapshots_set_best_asks() {
    let mut q = PolyQuotes::new("111".to_string(), "222".to_string());
    assert_eq!(q.on_book(&"111".to_string(), &vec![p(45, 2), p(44, 2)]), None);
    assert_eq!(q.best_ask_a, Some(p(44, 2)));
    assert_eq!(q.on_book(&"333".to_string(), &vec![p(1, 2)]), None);
    assert_eq!(q.best_ask_b, None);
    let sent = q.on_book(&"222".to_string(), &vec![p(57, 2)]);
    assert_eq!(sent, Some(PolyBestAsks { outcome_a: p(44, 2), outcome_b: p(57, 2) }));
    // an empty book clears the ask of its token
    assert_eq!(q.on_book(&"111".to_string(), &vec![]), None);
    assert_eq!(q.best_ask_a, None);
}

#[test]
fn price_changes_update_asks_in_order() {
    let mut q = PolyQuotes::new("111".to_string(), "222".to_string());
    let sent = q.on_price_changes(&vec![
        change("111", Some(p(40, 2))),
        change("222", None),
        change("999", Some(p(1, 2))),
        change("222", Some(p(58, 2))),
        change("111", Some(p(41, 2))),
    ]);
    assert_eq!(sent, Some(PolyBestAsks { outcome_a: p(41, 2), outcome_b: p(58, 2) }));
    assert_eq!(q.ready(), sent);
}

#[test]
fn nothing_sent_until_both_tokens_quoted() {
    let mut q = PolyQuotes::new("111".to_string(), "222".to_string());
    assert_eq!(q.on_price_changes(&vec![change("111", Some(p(40, 2)))]), None);
    assert_eq!(q.ready(), None);
}

#[test]
fn events_set_each_token_from_its_own_events() {
    let mut q = PolyQuotes::new("111".to_string(), "222".to_string());
    assert_eq!(q.on_event(&PolyEvent::Book("111".to_string(), vec![p(47, 2), p(45, 2)])), None);
    assert_eq!(q.on_event(&PolyEvent::Book("999".to_string(), vec![p(1, 2)])), None);
    let sent = q.on_event(&PolyEvent::Changes(vec![change("222", Some(p(51, 2))), change("111", None)]));
    assert_eq!(sent, Some(PolyBestAsks { outcome_a: p(45, 2), outcome_b: p(51, 2) }));
    let sent = q.on_event(&PolyEvent::Book("222".to_string(), vec![]));
    assert_eq!(sent, None);
    assert_eq!(q.best_ask_a, Some(p(45, 2)));
}
