use arb_bot::decimal::Price;
use arb_bot::orderbook::LocalOrderbook;

fn price(mantissa: i128, scale: u32) -> Price {
    Price { mantissa, scale }
}

#[test]
fn price_new_accepts_decimal_range() {
    assert_eq!(Price::new(4, 2), Some(price(4, 2)));
    assert_eq!(Price::new(1, 28), Some(price(1, 28)));
    assert_eq!(Price::new(-79228162514264337593543950335, 0), Some(price(-79228162514264337593543950335, 0)));
}

#[test]
fn price_new_rejects_out_of_range_parts() {
    assert_eq!(Price::new(1, 29), None);
    assert_eq!(Price::new(79228162514264337593543950336, 0), None);
    assert_eq!(Price::new(-79228162514264337593543950336, 3), None);
}

#[test]
fn cents_to_decimal_divides_by_one_hundred() {
    assert_eq!(LocalOrderbook::cents_to_decimal(5), price(5, 2));
    assert_eq!(LocalOrderbook::cents_to_decimal(99), price(99, 2));
    assert_eq!(LocalOrderbook::cents_to_decimal(1), price(1, 2));
}

#[test]
fn cents_to_decimal_normalises_whole_results() {
    // rust_decimal drops the trailing zeros of an exact quotient
    let p = LocalOrderbook::cents_to_decimal(50);
    assert_eq!(p.mantissa * 10i128.pow(2 - p.scale), 50);
    let q = LocalOrderbook::cents_to_decimal(200);
    assert_eq!(q.mantissa * 10i128.pow(2 - q.scale), 200);
    let z = LocalOrderbook::cents_to_decimal(0);
    assert_eq!(z.mantissa, 0);
}

#[test]
fn from_whole_is_scale_zero() {
    assert_eq!(Price::from_whole(7), price(7, 0));
    assert_eq!(Price::from_whole(u64::MAX), price(u64::MAX as i128, 0));
}
