//! The arbitrage rule: which pairs of legs cover both outcomes, when a pair
//! is worth buying, and the detector's state between quotes.
use vstd::prelude::*;

use crate::config::Config;
use crate::decimal::{
    checked_difference, checked_sum, decimal_add, decimal_lt, decimal_sub, fits_at, price_of_parts, lemma_fits_at_any_scale,
    lemma_fits_at_smaller_scale, lemma_pow10_values, max_scale, unit, Price,
};
use crate::types::{
    ArbitrageOpportunity, KalshiBestAsks, Platform, PlatformUpdate, PolyBestAsks, TradeLeg,
    TradeLegView,
};

verus! {

/// Estimated total fees as a decimal fraction (Kalshi ~2 cents per
/// contract, Polymarket ~1-2%): 0.04.
pub fn total_fee_estimate() -> (r: Price)
    ensures
        r == (Price { mantissa: 4, scale: 2 }),
{
    Price { mantissa: 4, scale: 2 }
}

/// Minimum profit to execute a trade: 0.005.
pub fn min_profit() -> (r: Price)
    ensures
        r == (Price { mantissa: 5, scale: 3 }),
{
    Price { mantissa: 5, scale: 3 }
}

/// The amount 1, which a winning contract pays out.
pub fn payout() -> (r: Price)
    ensures
        r == (Price { mantissa: 1, scale: 0 }),
{
    Price { mantissa: 1, scale: 0 }
}

/// The fee estimate in units of `10^-28`.
pub open spec fn fee_units() -> int {
    400000000000000000000000000
}

/// The minimum profit in units of `10^-28`.
pub open spec fn min_profit_units() -> int {
    50000000000000000000000000
}

/// Cost of buying both legs, fees included.
pub open spec fn total_cost_units(price_a: int, price_b: int) -> int {
    price_a + price_b + fee_units()
}

/// Buying both legs costs less than the payout of 1, by at least the
/// minimum profit.
pub open spec fn opportunity_fires(price_a: int, price_b: int) -> bool {
    &&& total_cost_units(price_a, price_b) < unit()
    &&& unit() - total_cost_units(price_a, price_b) >= min_profit_units()
}

/// The constants in units of `10^-28`.
pub proof fn lemma_constant_units()
    ensures
        (Price { mantissa: 4, scale: 2 }).units() == fee_units(),
        (Price { mantissa: 5, scale: 3 }).units() == min_profit_units(),
        (Price { mantissa: 1, scale: 0 }).units() == unit(),
        unit() == 10000000000000000000000000000,
{
    lemma_pow10_values();
}

/// An opportunity fires exactly when the two prices add up to at most
/// 1 - fees - minimum profit = 0.955.
pub proof fn lemma_fires_iff_prices_at_most(price_a: int, price_b: int)
    ensures
        opportunity_fires(price_a, price_b) <==> price_a + price_b <= 9550000000000000000000000000,
{
    lemma_pow10_values();
}

/// Cheaper legs never turn an opportunity off.
pub proof fn lemma_cheaper_legs_still_fire(price_a: int, price_b: int, cheaper_a: int, cheaper_b: int)
    requires
        opportunity_fires(price_a, price_b),
        cheaper_a <= price_a,
        cheaper_b <= price_b,
    ensures
        opportunity_fires(cheaper_a, cheaper_b),
{
    lemma_fires_iff_prices_at_most(price_a, price_b);
    lemma_fires_iff_prices_at_most(cheaper_a, cheaper_b);
}

/// The largest scale at which the rule computes: that of the two legs and
/// of the fee.
pub open spec fn rule_scale(a: Price, b: Price) -> u32 {
    max_scale(max_scale(a.scale, b.scale), 2)
}

/// `rust_decimal` computes the rule for the two prices without rounding:
/// the prices, their sum, the total cost and the profit all fit the 96-bit
/// mantissa at the largest scale involved.
pub open spec fn rule_exact(a: Price, b: Price) -> bool {
    let s = rule_scale(a, b);
    let total = total_cost_units(a.units(), b.units());
    &&& fits_at(a.units(), s)
    &&& fits_at(b.units(), s)
    &&& fits_at(a.units() + b.units(), s)
    &&& fits_at(total, s)
    &&& fits_at(unit() - total, s)
}

/// The rule is exact for every pair of prices whose sizes add up to at most
/// 6 (and so for every pair of asks of a binary market).
pub proof fn lemma_rule_exact_for_small_prices(a: Price, b: Price)
    requires
        a.wf(),
        b.wf(),
        (if a.units() < 0 { -a.units() } else { a.units() }) + (if b.units() < 0 {
            -b.units()
        } else {
            b.units()
        }) <= 6 * unit(),
    ensures
        rule_exact(a, b),
{
    lemma_constant_units();
    let s = rule_scale(a, b);
    let total = total_cost_units(a.units(), b.units());
    lemma_fits_at_any_scale(a.units(), s);
    lemma_fits_at_any_scale(b.units(), s);
    lemma_fits_at_any_scale(a.units() + b.units(), s);
    lemma_fits_at_any_scale(total, s);
    lemma_fits_at_any_scale(unit() - total, s);
}

/// The rule as `rust_decimal` computes it on prices `a` and `b`: the cost
/// `(a + b) + fee` and the profit `1 - cost`, when the sums do not overflow,
/// the cost is below 1 and the profit is at least the minimum.
pub open spec fn rule_outcome(a: Price, b: Price) -> Option<(Price, Price)> {
    match price_of_parts(checked_sum(a.mantissa, a.scale, b.mantissa, b.scale)) {
        None => None,
        Some(pair) => match price_of_parts(checked_sum(pair.mantissa, pair.scale, 4, 2)) {
            None => None,
            Some(total) => if !(total.units() < unit()) {
                None
            } else {
                match price_of_parts(checked_difference(1, 0, total.mantissa, total.scale)) {
                    None => None,
                    Some(profit) => if profit.units() < min_profit_units() {
                        None
                    } else {
                        Some((total, profit))
                    },
                }
            },
        },
    }
}

/// Checks whether buying `leg_a_wins` and `leg_b_wins` together is an
/// opportunity: the two prices plus the fee estimate must cost less than 1,
/// with a profit of at least the minimum. Returns the opportunity, with its
/// total cost and profit, computed by `rust_decimal`.
///
/// The result is the rule as `rust_decimal` computes it (`rule_outcome`);
/// where `rust_decimal` computes exactly (`rule_exact`), this is the rule on
/// the exact values. Where `rust_decimal` cannot hold a sum at all, there is
/// no opportunity.
pub fn detect_opportunity(leg_a_wins: TradeLeg, leg_b_wins: TradeLeg) -> (r: Option<
    ArbitrageOpportunity,
>)
    requires
        leg_a_wins.price.wf(),
        leg_b_wins.price.wf(),
    ensures
        r is Some <==> rule_outcome(leg_a_wins.price, leg_b_wins.price) is Some,
        r matches Some(o) ==> (o.total_cost, o.profit) == rule_outcome(
            leg_a_wins.price,
            leg_b_wins.price,
        )->0,
        rule_exact(leg_a_wins.price, leg_b_wins.price) ==> (r is Some <==> opportunity_fires(
            leg_a_wins.price.units(),
            leg_b_wins.price.units(),
        )),
        rule_exact(leg_a_wins.price, leg_b_wins.price) ==> (r is Some <==> leg_a_wins.price.units()
            + leg_b_wins.price.units() <= 9550000000000000000000000000),
        r matches Some(o) ==> {
            &&& o.leg_a_wins@ == leg_a_wins@
            &&& o.leg_b_wins@ == leg_b_wins@
            &&& o.total_cost.wf()
            &&& o.total_cost.units() < unit()
            &&& o.profit.wf()
            &&& o.profit.units() >= min_profit_units()
            &&& rule_exact(leg_a_wins.price, leg_b_wins.price) ==> {
                &&& o.total_cost.units() == total_cost_units(
                    leg_a_wins.price.units(),
                    leg_b_wins.price.units(),
                )
                &&& o.profit.units() == unit() - o.total_cost.units()
            }
        },
{
    let a = leg_a_wins.price;
    let b = leg_b_wins.price;
    let ghost exact = rule_exact(a, b);
    let ghost s = rule_scale(a, b);
    let ghost total_u = total_cost_units(a.units(), b.units());
    proof {
        lemma_constant_units();
        lemma_fires_iff_prices_at_most(a.units(), b.units());
        if exact {
            let s1 = max_scale(a.scale, b.scale);
            lemma_fits_at_smaller_scale(a.units(), s, s1);
            lemma_fits_at_smaller_scale(b.units(), s, s1);
            lemma_fits_at_smaller_scale(a.units() + b.units(), s, s1);
        }
    }
    let fee = total_fee_estimate();
    let one = payout();
    let pair = match decimal_add(a, b) {
        Some(x) => x,
        None => return None,
    };
    proof {
        if exact {
            let s2 = max_scale(pair.scale, 2);
            lemma_fits_at_smaller_scale(pair.units(), s, s2);
            lemma_fits_at_any_scale(fee.units(), s2);
            lemma_fits_at_smaller_scale(total_u, s, s2);
        }
    }
    let total_cost = match decimal_add(pair, fee) {
        Some(x) => x,
        None => return None,
    };
    if !decimal_lt(total_cost, one) {
        return None;
    }
    proof {
        if exact {
            let s3 = max_scale(0, total_cost.scale);
            lemma_fits_at_any_scale(one.units(), s3);
            lemma_fits_at_smaller_scale(total_u, s, s3);
            lemma_fits_at_smaller_scale(unit() - total_u, s, s3);
        }
    }
    let profit = match decimal_sub(one, total_cost) {
        Some(x) => x,
        None => return None,
    };
    if decimal_lt(profit, min_profit()) {
        return None;
    }
    Some(ArbitrageOpportunity { leg_a_wins, leg_b_wins, total_cost, profit })
}

/// The number of strategies.
pub const STRATEGY_COUNT: u8 = 4;

pub open spec fn leg_view(
    platform: Platform,
    description: Seq<char>,
    market_id: Seq<char>,
    side: Seq<char>,
    price: Price,
) -> TradeLegView {
    TradeLegView { platform, description, market_id, side, price }
}

/// The two legs of each strategy, leg covering "A wins" first.
///
/// Ways to bet "A wins": Poly outcome A token; Kalshi Market-A Yes;
/// Kalshi Market-B No (B loses).
/// Ways to bet "B wins": Poly outcome B token; Kalshi Market-B Yes;
/// Kalshi Market-A No (A loses).
///
/// 0: Poly A + Kalshi Market-B Yes; 1: Poly A + Kalshi Market-A No;
/// 2: Kalshi Market-A Yes + Poly B; 3: Kalshi Market-B No + Poly B.
pub open spec fn strategy_legs(i: int, k: KalshiBestAsks, p: PolyBestAsks, c: Config) -> (
    TradeLegView,
    TradeLegView,
) {
    if i == 0 {
        (
            leg_view(Platform::Polymarket, "Poly A"@, c.polymarket_asset_id_a@, "buy"@, p.outcome_a),
            leg_view(Platform::Kalshi, "Mkt-B Yes"@, c.kalshi_market_ticker_b@, "yes"@, k.market_b_yes),
        )
    } else if i == 1 {
        (
            leg_view(Platform::Polymarket, "Poly A"@, c.polymarket_asset_id_a@, "buy"@, p.outcome_a),
            leg_view(Platform::Kalshi, "Mkt-A No"@, c.kalshi_market_ticker_a@, "no"@, k.market_a_no),
        )
    } else if i == 2 {
        (
            leg_view(Platform::Kalshi, "Mkt-A Yes"@, c.kalshi_market_ticker_a@, "yes"@, k.market_a_yes),
            leg_view(Platform::Polymarket, "Poly B"@, c.polymarket_asset_id_b@, "buy"@, p.outcome_b),
        )
    } else {
        (
            leg_view(Platform::Kalshi, "Mkt-B No"@, c.kalshi_market_ticker_b@, "no"@, k.market_b_no),
            leg_view(Platform::Polymarket, "Poly B"@, c.polymarket_asset_id_b@, "buy"@, p.outcome_b),
        )
    }
}

/// Strategy `i` fires: its two prices with the fee cost less than 1, by at
/// least the minimum profit.
pub open spec fn strategy_fires(i: int, k: KalshiBestAsks, p: PolyBestAsks, c: Config) -> bool {
    let (a, b) = strategy_legs(i, k, p, c);
    opportunity_fires(a.price.units(), b.price.units())
}

/// `rust_decimal` computes the rule for strategy `i` without rounding.
pub open spec fn strategy_exact(i: int, k: KalshiBestAsks, p: PolyBestAsks, c: Config) -> bool {
    let (a, b) = strategy_legs(i, k, p, c);
    rule_exact(a.price, b.price)
}

/// The rule is exact for the strategies `0..=i`.
pub open spec fn exact_through(i: int, k: KalshiBestAsks, p: PolyBestAsks, c: Config) -> bool {
    forall|j: int| 0 <= j <= i ==> #[trigger] strategy_exact(j, k, p, c)
}

/// The first strategy, in order, that fires.
pub open spec fn first_firing(k: KalshiBestAsks, p: PolyBestAsks, c: Config) -> Option<int> {
    if strategy_fires(0, k, p, c) {
        Some(0)
    } else if strategy_fires(1, k, p, c) {
        Some(1)
    } else if strategy_fires(2, k, p, c) {
        Some(2)
    } else if strategy_fires(3, k, p, c) {
        Some(3)
    } else {
        None
    }
}

/// The leg buys "A wins": the Polymarket A token, Kalshi Market-A Yes, or
/// Kalshi Market-B No.
pub open spec fn covers_a_wins(leg: TradeLegView, c: Config) -> bool {
    ||| leg.platform == Platform::Polymarket && leg.market_id == c.polymarket_asset_id_a@
    ||| leg.platform == Platform::Kalshi && leg.market_id == c.kalshi_market_ticker_a@ && leg.side
        == "yes"@
    ||| leg.platform == Platform::Kalshi && leg.market_id == c.kalshi_market_ticker_b@ && leg.side
        == "no"@
}

/// The leg buys "B wins": the Polymarket B token, Kalshi Market-B Yes, or
/// Kalshi Market-A No.
pub open spec fn covers_b_wins(leg: TradeLegView, c: Config) -> bool {
    ||| leg.platform == Platform::Polymarket && leg.market_id == c.polymarket_asset_id_b@
    ||| leg.platform == Platform::Kalshi && leg.market_id == c.kalshi_market_ticker_b@ && leg.side
        == "yes"@
    ||| leg.platform == Platform::Kalshi && leg.market_id == c.kalshi_market_ticker_a@ && leg.side
        == "no"@
}

/// Every strategy covers both outcomes, with one leg on each platform, so
/// that one of its two contracts pays out whatever happens.
pub proof fn lemma_strategies_cover_both_outcomes(
    i: int,
    k: KalshiBestAsks,
    p: PolyBestAsks,
    c: Config,
)
    requires
        0 <= i < 4,
    ensures
        covers_a_wins(strategy_legs(i, k, p, c).0, c),
        covers_b_wins(strategy_legs(i, k, p, c).1, c),
        strategy_legs(i, k, p, c).0.platform != strategy_legs(i, k, p, c).1.platform,
{
}

/// The leg's price is the best ask of the contract it buys: the quoted ask
/// of its Polymarket token, or of its Kalshi market and side.
pub open spec fn priced_at_its_ask(leg: TradeLegView, k: KalshiBestAsks, p: PolyBestAsks, c: Config) -> bool {
    let poly = leg.platform == Platform::Polymarket;
    let kalshi = leg.platform == Platform::Kalshi;
    &&& poly && leg.market_id == c.polymarket_asset_id_a@ ==> leg.price == p.outcome_a
    &&& poly && leg.market_id == c.polymarket_asset_id_b@ ==> leg.price == p.outcome_b
    &&& kalshi && leg.market_id == c.kalshi_market_ticker_a@ && leg.side == "yes"@ ==> leg.price
        == k.market_a_yes
    &&& kalshi && leg.market_id == c.kalshi_market_ticker_a@ && leg.side == "no"@ ==> leg.price
        == k.market_a_no
    &&& kalshi && leg.market_id == c.kalshi_market_ticker_b@ && leg.side == "yes"@ ==> leg.price
        == k.market_b_yes
    &&& kalshi && leg.market_id == c.kalshi_market_ticker_b@ && leg.side == "no"@ ==> leg.price
        == k.market_b_no
}

/// The configured markets are different: two Polymarket tokens and two
/// Kalshi tickers.
pub open spec fn distinct_markets(c: Config) -> bool {
    &&& c.polymarket_asset_id_a@ != c.polymarket_asset_id_b@
    &&& c.kalshi_market_ticker_a@ != c.kalshi_market_ticker_b@
}

/// Each leg of every strategy is priced at the best ask of the very
/// contract it buys.
pub proof fn lemma_legs_priced_at_their_asks(i: int, k: KalshiBestAsks, p: PolyBestAsks, c: Config)
    requires
        0 <= i < 4,
        distinct_markets(c),
    ensures
        priced_at_its_ask(strategy_legs(i, k, p, c).0, k, p, c),
        priced_at_its_ask(strategy_legs(i, k, p, c).1, k, p, c),
{
    reveal_strlit("yes");
    reveal_strlit("no");
    assert("yes"@.len() != "no"@.len());
}

fn make_leg(platform: Platform, description: &str, market_id: &String, side: &str, price: Price) -> (l:
    TradeLeg)
    ensures
        l@ == leg_view(platform, description@, market_id@, side@, price),
{
    TradeLeg {
        platform,
        description: description.to_owned(),
        market_id: market_id.clone(),
        side: side.to_owned(),
        price,
    }
}

/// The two legs of strategy `i` (see `strategy_legs`).
pub fn legs_of_strategy(i: u8, k: &KalshiBestAsks, p: &PolyBestAsks, config: &Config) -> (r: (
    TradeLeg,
    TradeLeg,
))
    requires
        i < STRATEGY_COUNT,
    ensures
        (r.0@, r.1@) == strategy_legs(i as int, *k, *p, *config),
        distinct_markets(*config) ==> priced_at_its_ask(r.0@, *k, *p, *config) && priced_at_its_ask(
            r.1@,
            *k,
            *p,
            *config,
        ),
{
    proof {
        if distinct_markets(*config) {
            lemma_legs_priced_at_their_asks(i as int, *k, *p, *config);
        }
    }
    if i == 0 {
        (
            make_leg(Platform::Polymarket, "Poly A", &config.polymarket_asset_id_a, "buy", p.outcome_a),
            make_leg(Platform::Kalshi, "Mkt-B Yes", &config.kalshi_market_ticker_b, "yes", k.market_b_yes),
        )
    } else if i == 1 {
        (
            make_leg(Platform::Polymarket, "Poly A", &config.polymarket_asset_id_a, "buy", p.outcome_a),
            make_leg(Platform::Kalshi, "Mkt-A No", &config.kalshi_market_ticker_a, "no", k.market_a_no),
        )
    } else if i == 2 {
        (
            make_leg(Platform::Kalshi, "Mkt-A Yes", &config.kalshi_market_ticker_a, "yes", k.market_a_yes),
            make_leg(Platform::Polymarket, "Poly B", &config.polymarket_asset_id_b, "buy", p.outcome_b),
        )
    } else {
        (
            make_leg(Platform::Kalshi, "Mkt-B No", &config.kalshi_market_ticker_b, "no", k.market_b_no),
            make_leg(Platform::Polymarket, "Poly B", &config.polymarket_asset_id_b, "buy", p.outcome_b),
        )
    }
}

/// `o` is the opportunity of strategy `i`: its legs, which cover both
/// outcomes on the two platforms, and its cost below 1 with at least the
/// minimum profit (the exact cost and profit where the rule is exact).
pub open spec fn opportunity_of_strategy(
    o: ArbitrageOpportunity,
    i: int,
    k: KalshiBestAsks,
    p: PolyBestAsks,
    c: Config,
) -> bool {
    let (a, b) = strategy_legs(i, k, p, c);
    &&& o.leg_a_wins@ == a
    &&& o.leg_b_wins@ == b
    &&& distinct_markets(c) ==> priced_at_its_ask(a, k, p, c) && priced_at_its_ask(b, k, p, c)
    &&& covers_a_wins(a, c)
    &&& covers_b_wins(b, c)
    &&& a.platform != b.platform
    &&& o.total_cost.wf()
    &&& o.total_cost.units() < unit()
    &&& o.profit.wf()
    &&& o.profit.units() >= min_profit_units()
    &&& strategy_exact(i, k, p, c) ==> {
        &&& o.total_cost.units() == total_cost_units(a.price.units(), b.price.units())
        &&& o.profit.units() == unit() - o.total_cost.units()
    }
}

/// The rule on strategy `i`, as `rust_decimal` computes it.
pub open spec fn strategy_outcome(i: int, k: KalshiBestAsks, p: PolyBestAsks, c: Config) -> Option<
    (Price, Price),
> {
    let (a, b) = strategy_legs(i, k, p, c);
    rule_outcome(a.price, b.price)
}

/// The first strategy, in order, on which the rule as `rust_decimal`
/// computes it gives an opportunity.
pub open spec fn first_decided(k: KalshiBestAsks, p: PolyBestAsks, c: Config) -> Option<int> {
    if strategy_outcome(0, k, p, c) is Some {
        Some(0)
    } else if strategy_outcome(1, k, p, c) is Some {
        Some(1)
    } else if strategy_outcome(2, k, p, c) is Some {
        Some(2)
    } else if strategy_outcome(3, k, p, c) is Some {
        Some(3)
    } else {
        None
    }
}

/// What the detector selects on quotes `k` and `p`: the opportunity of the
/// first strategy on which the rule, as `rust_decimal` computes it, gives one,
/// with that cost and profit, and none if there is no such strategy. Where
/// `rust_decimal` computes the strategies up to it exactly, that is the first
/// strategy that fires on the exact values.
pub open spec fn selection(
    k: KalshiBestAsks,
    p: PolyBestAsks,
    c: Config,
    r: Option<ArbitrageOpportunity>,
) -> bool {
    &&& r is Some <==> first_decided(k, p, c) is Some
    &&& match first_decided(k, p, c) {
        Some(i) => match r {
            Some(o) => opportunity_of_strategy(o, i, k, p, c) && (o.total_cost, o.profit)
                == strategy_outcome(i, k, p, c)->0,
            None => false,
        },
        None => true,
    }
    &&& exact_through(3, k, p, c) && first_firing(k, p, c) is None ==> r is None
    &&& match first_firing(k, p, c) {
        Some(i) => exact_through(i, k, p, c) ==> match r {
            Some(o) => opportunity_of_strategy(o, i, k, p, c),
            None => false,
        },
        None => true,
    }
    &&& match r {
        Some(o) => exists|i: int| 0 <= i < 4 && #[trigger] opportunity_of_strategy(o, i, k, p, c),
        None => true,
    }
}

/// The selection is a function of the quotes: two selections on the same
/// quotes take the same strategy, with the same legs, cost and profit. So the
/// detector's answer depends only on the latest quotes of each platform.
pub proof fn lemma_selection_determined(
    k: KalshiBestAsks,
    p: PolyBestAsks,
    c: Config,
    r1: Option<ArbitrageOpportunity>,
    r2: Option<ArbitrageOpportunity>,
)
    requires
        selection(k, p, c, r1),
        selection(k, p, c, r2),
    ensures
        r1 is Some <==> r2 is Some,
        r1 is Some ==> {
            &&& r1->0.leg_a_wins@ == r2->0.leg_a_wins@
            &&& r1->0.leg_b_wins@ == r2->0.leg_b_wins@
            &&& r1->0.total_cost == r2->0.total_cost
            &&& r1->0.profit == r2->0.profit
        },
{
}

/// Evaluates the strategies in order and stops at the first one that fires
/// (all four share legs, so acting on more than one would double-spend).
pub fn select_opportunity(k: &KalshiBestAsks, p: &PolyBestAsks, config: &Config) -> (r: Option<
    ArbitrageOpportunity,
>)
    requires
        k.wf(),
        p.wf(),
    ensures
        selection(*k, *p, *config, r),
{
    let mut i: u8 = 0;
    while i < STRATEGY_COUNT
        invariant
            i <= STRATEGY_COUNT,
            k.wf(),
            p.wf(),
            forall|j: int|
                0 <= j < i ==> #[trigger] strategy_exact(j, *k, *p, *config) ==> !strategy_fires(
                    j,
                    *k,
                    *p,
                    *config,
                ),
            forall|j: int| 0 <= j < i ==> #[trigger] strategy_outcome(j, *k, *p, *config) is None,
        decreases STRATEGY_COUNT - i,
    {
        let (leg_a, leg_b) = legs_of_strategy(i, k, p, config);
        proof {
            lemma_strategies_cover_both_outcomes(i as int, *k, *p, *config);
            if distinct_markets(*config) {
                lemma_legs_priced_at_their_asks(i as int, *k, *p, *config);
            }
        }
        let found = detect_opportunity(leg_a, leg_b);
        match found {
            Some(o) => {
                assert(opportunity_of_strategy(o, i as int, *k, *p, *config));
                proof {
                    if let Some(i0) = first_firing(*k, *p, *config) {
                        if exact_through(i0, *k, *p, *config) {
                            if (i as int) < i0 {
                                assert(strategy_exact(i as int, *k, *p, *config));
                            } else if i0 < (i as int) {
                                assert(strategy_exact(i0, *k, *p, *config));
                            }
                        }
                    }
                    if exact_through(3, *k, *p, *config) {
                        assert(strategy_exact(i as int, *k, *p, *config));
                    }
                }
                return Some(o);
            },
            None => {},
        }
        i = i + 1;
    }
    proof {
        if let Some(i0) = first_firing(*k, *p, *config) {
            if exact_through(i0, *k, *p, *config) {
                assert(strategy_exact(i0, *k, *p, *config));
            }
        }
    }
    None
}

/// What the detector has heard last from each platform.
pub struct ArbState {
    pub kalshi: Option<KalshiBestAsks>,
    pub poly: Option<PolyBestAsks>,
}

/// The quotes held are well formed.
pub open spec fn update_wf(u: PlatformUpdate) -> bool {
    match u {
        PlatformUpdate::Kalshi(k) => k.wf(),
        PlatformUpdate::Polymarket(p) => p.wf(),
    }
}

impl ArbState {
    pub open spec fn wf(self) -> bool {
        &&& self.kalshi matches Some(k) ==> k.wf()
        &&& self.poly matches Some(p) ==> p.wf()
    }

    /// No quotes yet.
    pub fn new() -> (s: Self)
        ensures
            s.kalshi is None,
            s.poly is None,
    {
        ArbState { kalshi: None, poly: None }
    }

    /// Records the update (it replaces the platform's previous quotes) and
    /// returns the quotes of both platforms once each has sent some.
    pub fn on_update(&mut self, update: PlatformUpdate) -> (r: Option<(KalshiBestAsks, PolyBestAsks)>)
        ensures
            final(self).kalshi == (match update {
                PlatformUpdate::Kalshi(k) => Some(k),
                _ => old(self).kalshi,
            }),
            final(self).poly == (match update {
                PlatformUpdate::Polymarket(p) => Some(p),
                _ => old(self).poly,
            }),
            r == (match (final(self).kalshi, final(self).poly) {
                (Some(k), Some(p)) => Some((k, p)),
                _ => None,
            }),
    {
        match update {
            PlatformUpdate::Kalshi(k) => {
                self.kalshi = Some(k);
            },
            PlatformUpdate::Polymarket(p) => {
                self.poly = Some(p);
            },
        }
        match (self.kalshi, self.poly) {
            (Some(k), Some(p)) => Some((k, p)),
            _ => None,
        }
    }

    /// One step of the detector: records the update and, once both
    /// platforms have quoted, selects the opportunity to act on, if any.
    pub fn step(&mut self, update: PlatformUpdate, config: &Config) -> (r: Option<ArbitrageOpportunity>)
        requires
            old(self).wf(),
            update_wf(update),
        ensures
            final(self).wf(),
            final(self).kalshi == (match update {
                PlatformUpdate::Kalshi(k) => Some(k),
                _ => old(self).kalshi,
            }),
            final(self).poly == (match update {
                PlatformUpdate::Polymarket(p) => Some(p),
                _ => old(self).poly,
            }),
            (final(self).kalshi is None || final(self).poly is None) ==> r is None,
            final(self).kalshi matches Some(k) ==> final(self).poly matches Some(p) ==> selection(
                k,
                p,
                *config,
                r,
            ),
    {
        match self.on_update(update) {
            Some((k, p)) => select_opportunity(&k, &p, config),
            None => None,
        }
    }
}

/// Whether the detector stops after acting on an opportunity.
pub fn should_exit(fired: bool, config: &Config) -> (r: bool)
    ensures
        r == (fired && config.exit_after_first_trade),
{
    fired && config.exit_after_first_trade
}

} // verus!
