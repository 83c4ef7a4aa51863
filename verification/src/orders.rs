//! The orders that carry out a trade leg on each platform.
use vstd::prelude::*;
use vstd::string::*;

use crate::decimal::{
    decimal_text, decimal_to_string, lemma_pow10_monotone, lemma_pow10_positive, pow10, Price,
    MAX_SCALE,
};
use crate::types::{Platform, TradeLeg};

verus! {

/// A limit order to place on Kalshi.
#[derive(Debug)]
pub struct KalshiOrder {
    pub ticker: String,
    /// "yes" or "no".
    pub side: String,
    /// Always "buy".
    pub action: String,
    /// Number of contracts.
    pub count: u64,
    /// Always "limit".
    pub order_type: String,
    pub yes_price: Option<u64>,
    pub no_price: Option<u64>,
    /// Always "good_till_canceled".
    pub time_in_force: String,
}

/// Why an order could not be built.
#[derive(Debug)]
pub enum OrderError {
    /// The side of a Kalshi order is neither "yes" nor "no".
    InvalidSide(String),
    /// The price of a Kalshi order is outside 0.01-0.99 (holds the price's
    /// text).
    InvalidPrice(String),
}

impl OrderError {
    /// The error's message: `Invalid side: <side>` or
    /// `Invalid price: <price>`.
    pub fn message(&self) -> (s: String)
        ensures
            self matches OrderError::InvalidSide(side) ==> s@ == "Invalid side: "@ + side@,
            self matches OrderError::InvalidPrice(price) ==> s@ == "Invalid price: "@ + price@,
    {
        match self {
            OrderError::InvalidSide(side) => {
                let mut s = "Invalid side: ".to_owned();
                s.append(side.as_str());
                s
            },
            OrderError::InvalidPrice(price) => {
                let mut s = "Invalid price: ".to_owned();
                s.append(price.as_str());
                s
            },
        }
    }
}

/// One cent in units of `10^-28`.
pub open spec fn cent_units() -> int {
    100000000000000000000000000
}

/// The price is in the 0.01-0.99 range of Kalshi limit prices.
pub open spec fn kalshi_price_in_range(p: Price) -> bool {
    &&& p.wf()
    &&& cent_units() <= p.units() <= 99 * cent_units()
}

/// The price in whole cents (rounded down).
pub open spec fn price_cents(p: Price) -> int {
    p.units() / cent_units()
}

/// The price in whole cents (rounded down), when it is in the 0.01-0.99
/// range of Kalshi limit prices.
pub fn price_in_cents(p: Price) -> (r: Option<u64>)
    requires
        p.wf(),
    ensures
        r is Some <==> kalshi_price_in_range(p),
        r matches Some(c) ==> c == price_cents(p),
{
    let cent: i128 = 100000000000000000000000000;
    let top: i128 = 99 * cent;
    let steps: u32 = MAX_SCALE - p.scale;
    let ghost n = steps as nat;
    let ghost m = p.mantissa as int;
    assert(p.units() == m * pow10(n));
    proof {
        lemma_pow10_positive(n);
    }
    if p.mantissa <= 0 {
        assert(m * pow10(n) <= 0) by (nonlinear_arith)
            requires
                m <= 0,
                pow10(n) >= 1,
        ;
        return None;
    }
    let mut acc: i128 = p.mantissa;
    let mut i: u32 = 0;
    assert(pow10(0) == 1);
    while i < steps
        invariant
            i <= steps,
            steps == MAX_SCALE - p.scale,
            n == steps as nat,
            m == p.mantissa,
            m > 0,
            p.units() == m * pow10(n),
            cent == cent_units(),
            top == 99 * cent_units(),
            acc == m * pow10(i as nat),
        decreases steps - i,
    {
        proof {
            lemma_pow10_monotone(i as nat, n);
            let pi = pow10(i as nat);
            let pn = pow10(n);
            assert(m * pi <= m * pn) by (nonlinear_arith)
                requires
                    m > 0,
                    pi <= pn,
            ;
        }
        if acc > top {
            return None;
        }
        proof {
            let pi = pow10(i as nat);
            assert(pow10((i + 1) as nat) == 10 * pi);
            assert(m * (10 * pi) == (m * pi) * 10) by (nonlinear_arith);
        }
        acc = acc * 10;
        i = i + 1;
    }
    if acc < cent || acc > top {
        return None;
    }
    Some((acc / cent) as u64)
}

/// The yes and no limit prices of a Kalshi order on `side` at `cents`, or
/// none for a side other than "yes" and "no".
pub open spec fn kalshi_prices(side: Seq<char>, cents: u64) -> Option<(Option<u64>, Option<u64>)> {
    if side == "yes"@ {
        Some((Some(cents), None))
    } else if side == "no"@ {
        Some((None, Some(cents)))
    } else {
        None
    }
}

/// A Kalshi order has a limit on exactly the side it buys: a yes order has
/// the yes price and no no price, a no order the reverse; other sides have
/// no order.
pub proof fn lemma_limit_on_its_own_side(side: Seq<char>, cents: u64)
    ensures
        kalshi_prices(side, cents) is Some <==> (side == "yes"@ || side == "no"@),
        side == "yes"@ ==> kalshi_prices(side, cents) == Some((Some(cents), None::<u64>)),
        side == "no"@ ==> kalshi_prices(side, cents) == Some((None::<u64>, Some(cents))),
{
    reveal_strlit("yes");
    reveal_strlit("no");
    assert("yes"@.len() != "no"@.len());
}

/// `o` buys `quantity` contracts of `side` on `ticker` at a limit of
/// `cents`.
pub open spec fn kalshi_order_for(
    o: KalshiOrder,
    ticker: Seq<char>,
    side: Seq<char>,
    cents: u64,
    quantity: u64,
) -> bool {
    &&& o.ticker@ == ticker
    &&& o.side@ == side
    &&& o.action@ == "buy"@
    &&& o.count == quantity
    &&& o.order_type@ == "limit"@
    &&& kalshi_prices(side, cents) == Some((o.yes_price, o.no_price))
    &&& o.time_in_force@ == "good_till_canceled"@
}

/// Builds the Kalshi order that buys `quantity` contracts of `side` ("yes"
/// or "no") on `ticker`, at the limit of `price` (in the 0.01-0.99 range)
/// converted to cents.
pub fn build_kalshi_order(ticker: &str, side: &str, price: Price, quantity: u64) -> (r: Result<
    KalshiOrder,
    OrderError,
>)
    requires
        price.wf(),
    ensures
        kalshi_prices(side@, 0) is None ==> (r matches Err(OrderError::InvalidSide(s)) && s@
            == side@),
        kalshi_prices(side@, 0) is Some && !kalshi_price_in_range(price) ==> (r matches Err(
            OrderError::InvalidPrice(s),
        ) && s@ == decimal_text(price.mantissa, price.scale)),
        kalshi_prices(side@, 0) is Some && kalshi_price_in_range(price) ==> (r matches Ok(o)
            && kalshi_order_for(o, ticker@, side@, price_cents(price) as u64, quantity)),
{
    let side_text = side.to_owned();
    let is_yes = side_text == "yes".to_owned();
    if !is_yes && !(side_text == "no".to_owned()) {
        return Err(OrderError::InvalidSide(side_text));
    }
    let cents = match price_in_cents(price) {
        Some(c) => c,
        None => return Err(OrderError::InvalidPrice(decimal_to_string(price))),
    };
    let (yes_price, no_price) = if is_yes {
        (Some(cents), None)
    } else {
        (None, Some(cents))
    };
    Ok(
        KalshiOrder {
            ticker: ticker.to_owned(),
            side: side_text,
            action: "buy".to_owned(),
            count: quantity,
            order_type: "limit".to_owned(),
            yes_price,
            no_price,
            time_in_force: "good_till_canceled".to_owned(),
        },
    )
}

/// Side of a Polymarket order.
#[derive(Clone, Copy, Debug, PartialEq, Eq, Structural)]
pub enum OrderSide {
    Buy,
    Sell,
}

/// A limit order to sign and post on Polymarket.
#[derive(Debug)]
pub struct PolyOrder {
    /// The token id, as configured.
    pub token_id: String,
    pub side: OrderSide,
    /// The limit price.
    pub price: Price,
    /// Number of shares.
    pub size: Price,
}

/// Limit price of every Polymarket order: 0.99, so that the order executes
/// at once against any available ask.
pub fn poly_fill_price() -> (r: Price)
    ensures
        r == (Price { mantissa: 99, scale: 2 }),
{
    Price { mantissa: 99, scale: 2 }
}

/// Builds the Polymarket order for `quantity` shares of `token_id` on
/// `side` at the limit of 0.99, whatever the detected `price`.
pub fn build_poly_order(token_id: &str, side: OrderSide, price: Price, quantity: Price) -> (r:
    PolyOrder)
    ensures
        r.token_id@ == token_id@,
        r.side == side,
        r.price == (Price { mantissa: 99, scale: 2 }),
        r.size == quantity,
{
    let _ = price;
    PolyOrder { token_id: token_id.to_owned(), side, price: poly_fill_price(), size: quantity }
}

impl Price {
    /// A whole number of units, as `rust_decimal` converts a `u64`.
    pub fn from_whole(n: u64) -> (r: Price)
        ensures
            r == (Price { mantissa: n as i128, scale: 0 }),
            r.wf(),
    {
        Price { mantissa: n as i128, scale: 0 }
    }
}

/// The order that carries out a trade leg.
#[derive(Debug)]
pub enum LegOrder {
    Kalshi(KalshiOrder),
    Polymarket(PolyOrder),
}

/// The order for a leg of `quantity` contracts: on Kalshi, the leg's ticker
/// and side at the leg's price in cents; on Polymarket, a buy of the leg's
/// token.
pub fn leg_order(leg: &TradeLeg, quantity: u64) -> (r: Result<LegOrder, OrderError>)
    requires
        leg.price.wf(),
    ensures
        leg.platform == Platform::Kalshi && kalshi_prices(leg.side@, 0) is None ==> (r matches Err(
            OrderError::InvalidSide(s),
        ) && s@ == leg.side@),
        leg.platform == Platform::Kalshi && kalshi_prices(leg.side@, 0) is Some
            && !kalshi_price_in_range(leg.price) ==> (r matches Err(OrderError::InvalidPrice(s))
            && s@ == decimal_text(leg.price.mantissa, leg.price.scale)),
        leg.platform == Platform::Kalshi && kalshi_prices(leg.side@, 0) is Some
            && kalshi_price_in_range(leg.price) ==> (r matches Ok(LegOrder::Kalshi(o))
            && kalshi_order_for(o, leg.market_id@, leg.side@, price_cents(leg.price) as u64, quantity)),
        leg.platform == Platform::Polymarket ==> (r matches Ok(LegOrder::Polymarket(o)) && {
            &&& o.token_id@ == leg.market_id@
            &&& o.side == OrderSide::Buy
            &&& o.price == (Price { mantissa: 99, scale: 2 })
            &&& o.size == (Price { mantissa: quantity as i128, scale: 0 })
        }),
{
    match leg.platform {
        Platform::Kalshi => {
            match build_kalshi_order(leg.market_id.as_str(), leg.side.as_str(), leg.price, quantity) {
                Ok(o) => Ok(LegOrder::Kalshi(o)),
                Err(e) => Err(e),
            }
        },
        Platform::Polymarket => {
            Ok(
                LegOrder::Polymarket(
                    build_poly_order(
                        leg.market_id.as_str(),
                        OrderSide::Buy,
                        leg.price,
                        Price::from_whole(quantity),
                    ),
                ),
            )
        },
    }
}

} // verus!
