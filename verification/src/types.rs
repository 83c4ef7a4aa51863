//! Quotes, trade legs and opportunities exchanged between the feeds and the
//! arbitrage detector.
use vstd::prelude::*;
use vstd::string::*;

use crate::decimal::{decimal_text, decimal_to_string, Price};

verus! {

/// Best asks from Kalshi's two markets for a binary event (A vs B).
///
/// Market A: Yes = A wins, No = A loses (= B wins).
/// Market B: Yes = B wins, No = B loses (= A wins).
#[derive(Clone, Copy, Debug, PartialEq, Eq, Structural)]
pub struct KalshiBestAsks {
    /// Best ask to buy "A wins" via Market A Yes side
    pub market_a_yes: Price,
    /// Best ask to buy "A loses" (= B wins) via Market A No side
    pub market_a_no: Price,
    /// Best ask to buy "B wins" via Market B Yes side
    pub market_b_yes: Price,
    /// Best ask to buy "B loses" (= A wins) via Market B No side
    pub market_b_no: Price,
}

impl KalshiBestAsks {
    pub open spec fn wf(self) -> bool {
        &&& self.market_a_yes.wf()
        &&& self.market_a_no.wf()
        &&& self.market_b_yes.wf()
        &&& self.market_b_no.wf()
    }
}

/// Best asks from Polymarket for both outcome tokens.
#[derive(Clone, Copy, Debug, PartialEq, Eq, Structural)]
pub struct PolyBestAsks {
    /// Best ask for outcome A token
    pub outcome_a: Price,
    /// Best ask for outcome B token
    pub outcome_b: Price,
}

impl PolyBestAsks {
    pub open spec fn wf(self) -> bool {
        &&& self.outcome_a.wf()
        &&& self.outcome_b.wf()
    }
}

#[derive(Clone, Copy, Debug, PartialEq, Eq, Structural)]
pub enum Platform {
    Kalshi,
    Polymarket,
}

/// The name under which a platform is shown.
pub open spec fn platform_name(p: Platform) -> Seq<char> {
    match p {
        Platform::Kalshi => "Kalshi"@,
        Platform::Polymarket => "Polymarket"@,
    }
}

impl Platform {
    /// The platform's display name.
    pub fn name(&self) -> (s: String)
        ensures
            s@ == platform_name(*self),
    {
        match self {
            Platform::Kalshi => "Kalshi".to_owned(),
            Platform::Polymarket => "Polymarket".to_owned(),
        }
    }
}

/// Describes a specific trade: which platform, which market/token, and which side.
#[derive(Debug)]
pub struct TradeLeg {
    pub platform: Platform,
    /// Human-readable description (e.g., "Mkt-A Yes", "Poly A")
    pub description: String,
    /// For Kalshi: the market ticker. For Poly: the token ID.
    pub market_id: String,
    /// For Kalshi: "yes" or "no". For Poly: always "buy".
    pub side: String,
    pub price: Price,
}

/// The contents of a trade leg as plain values.
pub struct TradeLegView {
    pub platform: Platform,
    pub description: Seq<char>,
    pub market_id: Seq<char>,
    pub side: Seq<char>,
    pub price: Price,
}

impl View for TradeLeg {
    type V = TradeLegView;

    open spec fn view(&self) -> TradeLegView {
        TradeLegView {
            platform: self.platform,
            description: self.description@,
            market_id: self.market_id@,
            side: self.side@,
            price: self.price,
        }
    }
}

/// The text of a leg: `<platform> <description> @ <price>`.
pub open spec fn leg_text(leg: TradeLegView, price_text: Seq<char>) -> Seq<char> {
    platform_name(leg.platform) + " "@ + leg.description + " @ "@ + price_text
}

impl TradeLeg {
    /// A copy of the leg.
    pub fn duplicate(&self) -> (r: TradeLeg)
        ensures
            r@ == self@,
    {
        TradeLeg {
            platform: self.platform,
            description: self.description.clone(),
            market_id: self.market_id.clone(),
            side: self.side.clone(),
            price: self.price,
        }
    }

    /// The text of the leg, given the text of its price.
    pub fn describe_with_price(&self, price_text: &str) -> (s: String)
        ensures
            s@ == leg_text(self@, price_text@),
    {
        let mut s = self.platform.name();
        s.append(" ");
        s.append(self.description.as_str());
        s.append(" @ ");
        s.append(price_text);
        s
    }

    /// The text of the leg, with its price written by `rust_decimal`.
    pub fn describe(&self) -> (s: String)
        requires
            self.price.wf(),
        ensures
            s@ == leg_text(self@, decimal_text(self.price.mantissa, self.price.scale)),
    {
        let price_text = decimal_to_string(self.price);
        self.describe_with_price(price_text.as_str())
    }
}

#[derive(Debug)]
pub struct ArbitrageOpportunity {
    /// Leg that covers "A wins"
    pub leg_a_wins: TradeLeg,
    /// Leg that covers "B wins"
    pub leg_b_wins: TradeLeg,
    pub total_cost: Price,
    pub profit: Price,
}

/// The text of an opportunity:
/// `ARB: [A wins] <leg> + [B wins] <leg> = cost <total> | profit <profit>`.
pub open spec fn opportunity_text(
    leg_a: Seq<char>,
    leg_b: Seq<char>,
    total: Seq<char>,
    profit: Seq<char>,
) -> Seq<char> {
    "ARB: [A wins] "@ + leg_a + " + [B wins] "@ + leg_b + " = cost "@ + total + " | profit "@
        + profit
}

impl ArbitrageOpportunity {
    /// The text of the opportunity, given the texts of its parts.
    pub fn describe_with(leg_a: &str, leg_b: &str, total: &str, profit: &str) -> (s: String)
        ensures
            s@ == opportunity_text(leg_a@, leg_b@, total@, profit@),
    {
        let mut s = "ARB: [A wins] ".to_owned();
        s.append(leg_a);
        s.append(" + [B wins] ");
        s.append(leg_b);
        s.append(" = cost ");
        s.append(total);
        s.append(" | profit ");
        s.append(profit);
        s
    }

    /// The text of the opportunity, with the amounts written by `rust_decimal`.
    pub fn describe(&self) -> (s: String)
        requires
            self.leg_a_wins.price.wf(),
            self.leg_b_wins.price.wf(),
            self.total_cost.wf(),
            self.profit.wf(),
        ensures
            s@ == opportunity_text(
                leg_text(
                    self.leg_a_wins@,
                    decimal_text(self.leg_a_wins.price.mantissa, self.leg_a_wins.price.scale),
                ),
                leg_text(
                    self.leg_b_wins@,
                    decimal_text(self.leg_b_wins.price.mantissa, self.leg_b_wins.price.scale),
                ),
                decimal_text(self.total_cost.mantissa, self.total_cost.scale),
                decimal_text(self.profit.mantissa, self.profit.scale),
            ),
    {
        let a = self.leg_a_wins.describe();
        let b = self.leg_b_wins.describe();
        let total = decimal_to_string(self.total_cost);
        let profit = decimal_to_string(self.profit);
        Self::describe_with(a.as_str(), b.as_str(), total.as_str(), profit.as_str())
    }
}

/// A new quote from one of the two platforms.
#[derive(Clone, Copy, Debug)]
pub enum PlatformUpdate {
    Kalshi(KalshiBestAsks),
    Polymarket(PolyBestAsks),
}

} // verus!
