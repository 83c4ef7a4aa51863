//! Fixed-point decimal amounts (prices, costs, profits) as plain values, with
//! the arithmetic delegated to `rust_decimal`.
use vstd::prelude::*;

verus! {

/// Largest scale (number of fractional digits) that `rust_decimal` supports.
pub const MAX_SCALE: u32 = 28;

/// One more than the largest magnitude of a 96-bit `rust_decimal` mantissa.
pub const MANTISSA_LIMIT: i128 = 79228162514264337593543950336;

/// `10^n`.
pub open spec fn pow10(n: nat) -> nat
    decreases n,
{
    if n == 0 {
        1
    } else {
        10 * pow10((n - 1) as nat)
    }
}

/// The number `1` expressed in units of `10^-28`.
pub open spec fn unit() -> int {
    pow10(28) as int
}

/// The larger of two scales.
pub open spec fn max_scale(a: u32, b: u32) -> u32 {
    if a < b {
        b
    } else {
        a
    }
}

/// The value `u` (in units of `10^-28`), written at `scale` fractional
/// digits, has a mantissa below `2^96` in size: `rust_decimal` can hold it at
/// that scale.
pub open spec fn fits_at(u: int, scale: u32) -> bool {
    let room = MANTISSA_LIMIT * pow10((MAX_SCALE - scale) as nat);
    -room < u < room
}

/// `rust_decimal` adds (or subtracts) `a` and `b` without rounding: both
/// operands and the result fit the 96-bit mantissa at the larger of the two
/// scales, where `rust_decimal` aligns the operands.
pub open spec fn add_exact(a: Price, b: Price, result: int) -> bool {
    let s = max_scale(a.scale, b.scale);
    &&& fits_at(a.units(), s)
    &&& fits_at(b.units(), s)
    &&& fits_at(result, s)
}

/// A decimal amount `mantissa * 10^-scale`, the way `rust_decimal` stores it.
/// (`==` compares the parts; two amounts of different scale may have the
/// same value.)
#[derive(Clone, Copy, Debug, PartialEq, Eq, Structural)]
pub struct Price {
    pub mantissa: i128,
    pub scale: u32,
}

impl Price {
    /// The fields are in the range that `rust_decimal` accepts.
    pub open spec fn wf(self) -> bool {
        &&& self.scale <= MAX_SCALE
        &&& -MANTISSA_LIMIT < self.mantissa < MANTISSA_LIMIT
    }

    /// The value of the amount in units of `10^-28` (exact for every
    /// well-formed amount, since its scale is at most 28).
    pub open spec fn units(self) -> int {
        self.mantissa * pow10((MAX_SCALE - self.scale) as nat)
    }

    /// Builds an amount from its parts when `rust_decimal` would accept them.
    pub fn new(mantissa: i128, scale: u32) -> (r: Option<Price>)
        ensures
            r is Some <==> (Price { mantissa, scale }).wf(),
            r is Some ==> r->0 == (Price { mantissa, scale }),
    {
        if scale <= MAX_SCALE && -MANTISSA_LIMIT < mantissa && mantissa < MANTISSA_LIMIT {
            Some(Price { mantissa, scale })
        } else {
            None
        }
    }
}

/// The powers of ten that the constants of this crate need.
pub proof fn lemma_pow10_values()
    ensures
        pow10(2) == 100,
        pow10(25) == 10000000000000000000000000,
        pow10(26) == 100000000000000000000000000,
        pow10(28) == 10000000000000000000000000000,
{
    reveal_with_fuel(pow10, 29);
}

/// Powers of ten are positive.
pub proof fn lemma_pow10_positive(n: nat)
    ensures
        pow10(n) >= 1,
    decreases n,
{
    if n > 0 {
        lemma_pow10_positive((n - 1) as nat);
    }
}

/// Powers of ten grow with the exponent.
pub proof fn lemma_pow10_monotone(i: nat, j: nat)
    requires
        i <= j,
    ensures
        pow10(i) <= pow10(j),
    decreases j - i,
{
    if i < j {
        lemma_pow10_monotone(i, (j - 1) as nat);
    }
}

/// Room at a scale shrinks as the scale grows: what fits at a scale fits at
/// every smaller one.
pub proof fn lemma_fits_at_smaller_scale(u: int, s: u32, t: u32)
    requires
        t <= s <= MAX_SCALE,
        fits_at(u, s),
    ensures
        fits_at(u, t),
{
    let ps = pow10((MAX_SCALE - s) as nat);
    let pt = pow10((MAX_SCALE - t) as nat);
    lemma_pow10_monotone((MAX_SCALE - s) as nat, (MAX_SCALE - t) as nat);
    assert(MANTISSA_LIMIT * ps <= MANTISSA_LIMIT * pt) by (nonlinear_arith)
        requires
            ps <= pt,
    ;
}

/// Every value below `2^96` in size fits at every scale.
pub proof fn lemma_fits_at_any_scale(u: int, s: u32)
    requires
        s <= MAX_SCALE,
        -MANTISSA_LIMIT < u < MANTISSA_LIMIT,
    ensures
        fits_at(u, s),
{
    let p = pow10((MAX_SCALE - s) as nat);
    lemma_pow10_positive((MAX_SCALE - s) as nat);
    assert(MANTISSA_LIMIT <= MANTISSA_LIMIT * p) by (nonlinear_arith)
        requires
            p >= 1,
    ;
}

/// The amount with the given parts, if any.
pub open spec fn price_of_parts(parts: Option<(i128, u32)>) -> Option<Price> {
    match parts {
        Some((mantissa, scale)) => Some(Price { mantissa, scale }),
        None => None,
    }
}

/// The mantissa and scale of what `rust_decimal`'s `checked_add` gives for
/// the two decimals with the given parts (`None` when it overflows).
pub uninterp spec fn checked_sum(a_mantissa: i128, a_scale: u32, b_mantissa: i128, b_scale: u32) -> Option<(i128, u32)>;

/// The mantissa and scale of what `rust_decimal`'s `checked_sub` gives for
/// the two decimals with the given parts (`None` when it overflows).
pub uninterp spec fn checked_difference(
    a_mantissa: i128,
    a_scale: u32,
    b_mantissa: i128,
    b_scale: u32,
) -> Option<(i128, u32)>;

/// The mantissa and scale of what `rust_decimal`'s `/` gives for the two
/// decimals with the given parts.
pub uninterp spec fn quotient(a_mantissa: i128, a_scale: u32, b_mantissa: i128, b_scale: u32) -> (i128, u32);

/// `checked_add` of `rust_decimal`. It aligns both operands at the larger
/// of their scales and adds the mantissas; it rounds (reducing the scale) only
/// when the aligned operands or their sum need more than 96 bits, and gives
/// `None` only when even that fails. So when the sum is exact at that scale
/// (`add_exact`), the result is the exact sum, at a scale no larger than the
/// larger operand scale. A result is always in range. Its result in general
/// is named by `checked_sum`.
#[verifier::external_body]
pub(crate) fn decimal_add(a: Price, b: Price) -> (r: Option<Price>)
    requires
        a.wf(),
        b.wf(),
    ensures
        r == price_of_parts(checked_sum(a.mantissa, a.scale, b.mantissa, b.scale)),
        r is Some ==> r->0.wf(),
        add_exact(a, b, a.units() + b.units()) ==> r is Some,
        add_exact(a, b, a.units() + b.units()) ==> r->0.units() == a.units() + b.units(),
        add_exact(a, b, a.units() + b.units()) ==> r->0.scale <= max_scale(a.scale, b.scale),
{
    let x = rust_decimal::Decimal::from_i128_with_scale(a.mantissa, a.scale);
    let y = rust_decimal::Decimal::from_i128_with_scale(b.mantissa, b.scale);
    match x.checked_add(y) {
        Some(d) => Some(Price { mantissa: d.mantissa(), scale: d.scale() }),
        None => None,
    }
}

/// `checked_sub` of `rust_decimal`: exact under the same conditions as
/// addition. Its result is named by `checked_difference`.
#[verifier::external_body]
pub(crate) fn decimal_sub(a: Price, b: Price) -> (r: Option<Price>)
    requires
        a.wf(),
        b.wf(),
    ensures
        r == price_of_parts(checked_difference(a.mantissa, a.scale, b.mantissa, b.scale)),
        r is Some ==> r->0.wf(),
        add_exact(a, b, a.units() - b.units()) ==> r is Some,
        add_exact(a, b, a.units() - b.units()) ==> r->0.units() == a.units() - b.units(),
        add_exact(a, b, a.units() - b.units()) ==> r->0.scale <= max_scale(a.scale, b.scale),
{
    let x = rust_decimal::Decimal::from_i128_with_scale(a.mantissa, a.scale);
    let y = rust_decimal::Decimal::from_i128_with_scale(b.mantissa, b.scale);
    match x.checked_sub(y) {
        Some(d) => Some(Price { mantissa: d.mantissa(), scale: d.scale() }),
        None => None,
    }
}

/// `a < b` of `rust_decimal`, which compares the two values after bringing
/// them to a common scale.
#[verifier::external_body]
pub(crate) fn decimal_lt(a: Price, b: Price) -> (r: bool)
    requires
        a.wf(),
        b.wf(),
    ensures
        r == (a.units() < b.units()),
{
    rust_decimal::Decimal::from_i128_with_scale(a.mantissa, a.scale)
        < rust_decimal::Decimal::from_i128_with_scale(b.mantissa, b.scale)
}

/// `a / b` of `rust_decimal` for a positive whole divisor below `2^32`. When
/// the exact quotient has at most 28 fractional digits (its value in units of
/// `10^-28` is a whole number) and fits the 96-bit mantissa at that scale, the
/// long division stops with a zero remainder before any rounding, and the
/// value of the result is that quotient; its parts are in range. Its result
/// in general is named by `quotient`.
#[verifier::external_body]
pub(crate) fn decimal_div(a: Price, b: Price) -> (r: Price)
    requires
        a.wf(),
        b.wf(),
        b.scale == 0,
        0 < b.mantissa < 0x1_0000_0000,
    ensures
        (r.mantissa, r.scale) == quotient(a.mantissa, a.scale, b.mantissa, b.scale),
        r.wf(),
        a.units() % (b.mantissa as int) == 0 && -MANTISSA_LIMIT < a.units() / (b.mantissa as int)
            < MANTISSA_LIMIT
            ==> r.units() == a.units() / (b.mantissa as int),
{
    let d = rust_decimal::Decimal::from_i128_with_scale(a.mantissa, a.scale)
        / rust_decimal::Decimal::from_i128_with_scale(b.mantissa, b.scale);
    Price { mantissa: d.mantissa(), scale: d.scale() }
}

/// The decimal digits of `n`, most significant first (none for 0).
pub open spec fn digits(n: nat) -> Seq<char>
    decreases n,
{
    if n == 0 {
        Seq::empty()
    } else {
        digits(n / 10).push(((48 + n % 10) as u8) as char)
    }
}

/// The text that `rust_decimal`'s `Display` writes for the decimal with the
/// given mantissa and scale: the digits of the mantissa's size, padded with
/// zeros to at least `scale` digits, a point before the last `scale` of them
/// (with a `0` before the point when nothing else is there), `0` for an
/// empty text, and a `-` in front of a negative value.
pub open spec fn decimal_text(mantissa: i128, scale: u32) -> Seq<char> {
    let size: nat = if mantissa < 0 { (-mantissa) as nat } else { mantissa as nat };
    let raw = digits(size);
    let padded = if raw.len() < scale {
        Seq::new((scale - raw.len()) as nat, |i: int| '0') + raw
    } else {
        raw
    };
    let whole = padded.len() - scale;
    let body = if scale == 0 {
        if padded.len() == 0 {
            seq!['0']
        } else {
            padded
        }
    } else {
        (if whole == 0 {
            seq!['0']
        } else {
            padded.take(whole)
        }) + seq!['.'] + padded.skip(whole)
    };
    if mantissa < 0 {
        seq!['-'] + body
    } else {
        body
    }
}

/// `to_string` of `rust_decimal::Decimal` (its `Display` without width or
/// precision).
#[verifier::external_body]
pub(crate) fn decimal_to_string(p: Price) -> (s: String)
    requires
        p.wf(),
    ensures
        s@ == decimal_text(p.mantissa, p.scale),
{
    rust_decimal::Decimal::from_i128_with_scale(p.mantissa, p.scale).to_string()
}

} // verus!
