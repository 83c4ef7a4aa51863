//! Kalshi's local order book, kept from snapshots and deltas, and the best
//! asks derived from it.
use vstd::prelude::*;

use crate::decimal::{decimal_div, lemma_pow10_values, pow10, quotient, Price};
use crate::types::KalshiBestAsks;

verus! {

/// Number of price slots of a book: the cent prices 0 through 100.
pub const BOOK_SLOTS: usize = 101;

/// One side of a snapshot: `(price in cents, quantity)` levels.
pub type Levels = Vec<(u8, i64)>;

/// An order-book snapshot of one market, prices in cents. No-side prices
/// are quoted in yes-equivalent terms.
#[derive(Debug)]
pub struct BookSnapshot {
    pub yes: Option<Levels>,
    pub no: Option<Levels>,
}

/// A change of the quantity resting at one price of one side.
#[derive(Debug)]
pub struct BookDelta {
    pub price: u8,
    pub delta: i64,
    /// "yes" or "no"; any other side is ignored.
    pub side: String,
}

/// An empty side of the book.
pub open spec fn empty_side() -> Seq<i64> {
    Seq::new(BOOK_SLOTS as nat, |i: int| 0i64)
}

/// The slot at which a level is stored: yes levels at their price, no levels
/// at `100 - price` (the cost of buying no).
pub open spec fn slot(price: u8, inverted: bool) -> int {
    if inverted {
        100 - price
    } else {
        price as int
    }
}

/// All prices of the levels are between 0 and 100 cents.
pub open spec fn levels_in_range(levels: Seq<(u8, i64)>) -> bool {
    forall|i: int| 0 <= i < levels.len() ==> #[trigger] levels[i].0 <= 100
}

/// The side that a snapshot's levels describe, written in order onto an
/// empty side (a later level at the same price replaces an earlier one).
pub open spec fn side_from_levels(levels: Seq<(u8, i64)>, inverted: bool) -> Seq<i64>
    decreases levels.len(),
{
    if levels.len() == 0 {
        empty_side()
    } else {
        let last = levels.last();
        side_from_levels(levels.drop_last(), inverted).update(slot(last.0, inverted), last.1)
    }
}

/// The side described by an optional list of levels.
pub open spec fn side_from_snapshot(levels: Option<Seq<(u8, i64)>>, inverted: bool) -> Seq<i64> {
    match levels {
        Some(l) => side_from_levels(l, inverted),
        None => empty_side(),
    }
}

pub open spec fn opt_levels(levels: Option<Levels>) -> Option<Seq<(u8, i64)>> {
    match levels {
        Some(l) => Some(l@),
        None => None,
    }
}

pub open spec fn snapshot_in_range(msg: BookSnapshot) -> bool {
    &&& (msg.yes matches Some(l) ==> levels_in_range(l@))
    &&& (msg.no matches Some(l) ==> levels_in_range(l@))
}

/// Some price in 1..=99 has a positive quantity in `side`.
pub open spec fn has_positive(side: Seq<i64>) -> bool {
    exists|p: int| 1 <= p <= 99 && #[trigger] side[p] > 0
}

/// `p` is the lowest price in 1..=99 with a positive quantity in `side`.
pub open spec fn is_lowest_positive(side: Seq<i64>, p: int) -> bool {
    &&& 1 <= p <= 99
    &&& side[p] > 0
    &&& forall|q: int| 1 <= q < p ==> #[trigger] side[q] <= 0
}

/// `p` is the highest price in 1..=99 with a positive quantity in `side`.
pub open spec fn is_highest_positive(side: Seq<i64>, p: int) -> bool {
    &&& 1 <= p <= 99
    &&& side[p] > 0
    &&& forall|q: int| p < q <= 99 ==> #[trigger] side[q] <= 0
}

/// Lowest price in 1..=99 whose slot in `side` holds a positive quantity.
pub open spec fn lowest_positive(side: Seq<i64>) -> Option<u8> {
    if has_positive(side) {
        Some((choose|p: int| is_lowest_positive(side, p)) as u8)
    } else {
        None
    }
}

/// Highest price in 1..=99 whose slot in `side` holds a positive quantity.
pub open spec fn highest_positive(side: Seq<i64>) -> Option<u8> {
    if has_positive(side) {
        Some((choose|p: int| is_highest_positive(side, p)) as u8)
    } else {
        None
    }
}

/// The best yes ask of a book in cents: the lowest no slot holding a bid.
pub open spec fn spec_best_yes_ask(no: Seq<i64>) -> Option<u8> {
    lowest_positive(no)
}

/// The best no ask of a book in cents: 100 minus the best yes bid.
pub open spec fn spec_best_no_ask(yes: Seq<i64>) -> Option<u8> {
    match highest_positive(yes) {
        Some(p) => Some((100 - p) as u8),
        None => None,
    }
}

/// The lowest positive price is unique.
pub proof fn lemma_lowest_positive(side: Seq<i64>, p: int)
    requires
        is_lowest_positive(side, p),
    ensures
        lowest_positive(side) == Some(p as u8),
{
    assert(has_positive(side));
    let w = choose|w: int| is_lowest_positive(side, w);
    assert(is_lowest_positive(side, w));
    if w < p {
        assert(side[w] <= 0);
    } else if p < w {
        assert(side[p] <= 0);
    }
}

/// The highest positive price is unique.
pub proof fn lemma_highest_positive(side: Seq<i64>, p: int)
    requires
        is_highest_positive(side, p),
    ensures
        highest_positive(side) == Some(p as u8),
{
    assert(has_positive(side));
    let w = choose|w: int| is_highest_positive(side, w);
    assert(is_highest_positive(side, w));
    if w < p {
        assert(side[p] <= 0);
    } else if p < w {
        assert(side[w] <= 0);
    }
}

/// `v + d` fits an `i64`.
pub open spec fn sum_fits(v: i64, d: i64) -> bool {
    i64::MIN <= v + d <= i64::MAX
}

/// The delta's price is a valid slot and adding it does not overflow.
pub open spec fn delta_in_range(yes: Seq<i64>, no: Seq<i64>, msg: BookDelta) -> bool {
    &&& msg.side@ == "yes"@ ==> msg.price <= 100 && sum_fits(yes[msg.price as int], msg.delta)
    &&& msg.side@ == "no"@ ==> msg.price <= 100 && sum_fits(no[100 - msg.price], msg.delta)
}

/// The two sides after a delta: the quantity at the delta's slot of its side
/// grows by the delta; any other side leaves the book as it is.
pub open spec fn after_delta(yes: Seq<i64>, no: Seq<i64>, msg: BookDelta) -> (Seq<i64>, Seq<i64>) {
    if msg.side@ == "yes"@ {
        let i = msg.price as int;
        (yes.update(i, (yes[i] + msg.delta) as i64), no)
    } else if msg.side@ == "no"@ {
        let i = 100 - msg.price;
        (yes, no.update(i, (no[i] + msg.delta) as i64))
    } else {
        (yes, no)
    }
}

/// Local orderbook maintained from snapshots and deltas.
///
/// Prices are in cents (1-99), stored in fixed arrays indexed by price.
/// No-side prices arrive in yes-equivalent terms (a price of 60 means that
/// buying no costs 100 - 60 = 40 cents), so they are inverted on write.
/// YES ASK = 100 - best NO bid (lowest occupied slot of `no`).
/// NO ASK  = 100 - best YES bid (highest occupied slot of `yes`).
pub struct LocalOrderbook {
    pub yes: [i64; 101],
    pub no: [i64; 101],
}

impl LocalOrderbook {
    pub fn new() -> (b: Self)
        ensures
            b.yes@ == empty_side(),
            b.no@ == empty_side(),
    {
        let b = LocalOrderbook { yes: [0; 101], no: [0; 101] };
        assert(b.yes@ =~= empty_side());
        assert(b.no@ =~= empty_side());
        b
    }

    /// The side written from `levels`, starting from an empty side.
    fn side_from(levels: &Levels, inverted: bool) -> (side: [i64; 101])
        requires
            levels_in_range(levels@),
        ensures
            side@ == side_from_levels(levels@, inverted),
    {
        let mut side: [i64; 101] = [0; 101];
        assert(side@ =~= empty_side());
        assert(levels@.take(0) =~= Seq::<(u8, i64)>::empty());
        let n = levels.len();
        for j in 0..n
            invariant
                n == levels@.len(),
                levels_in_range(levels@),
                side@ == side_from_levels(levels@.take(j as int), inverted),
        {
            let (price, qty) = levels[j];
            assert(levels@[j as int].0 <= 100);
            let idx: usize = if inverted {
                (100 - price) as usize
            } else {
                price as usize
            };
            side[idx] = qty;
            assert(levels@.take(j + 1).drop_last() =~= levels@.take(j as int));
        }
        assert(levels@.take(n as int) =~= levels@);
        side
    }

    /// Replaces the whole book by the snapshot.
    pub fn apply_snapshot(&mut self, msg: &BookSnapshot)
        requires
            snapshot_in_range(*msg),
        ensures
            final(self).yes@ == side_from_snapshot(opt_levels(msg.yes), false),
            final(self).no@ == side_from_snapshot(opt_levels(msg.no), true),
            msg.yes matches Some(l) ==> forall|j: int|
                last_at_its_slot(l@, false, j) ==> final(self).yes@[l@[j].0 as int] == #[trigger] l@[j].1,
            msg.no matches Some(l) ==> forall|j: int|
                last_at_its_slot(l@, true, j) ==> final(self).no@[100 - l@[j].0] == #[trigger] l@[j].1,
    {
        self.yes = [0; 101];
        self.no = [0; 101];
        assert(self.yes@ =~= empty_side());
        assert(self.no@ =~= empty_side());
        if let Some(yes_levels) = &msg.yes {
            self.yes = Self::side_from(yes_levels, false);
        }
        if let Some(no_levels) = &msg.no {
            self.no = Self::side_from(no_levels, true);
        }
        proof {
            if let Some(l) = &msg.yes {
                assert forall|j: int| last_at_its_slot(l@, false, j) implies self.yes@[l@[j].0 as int]
                    == #[trigger] l@[j].1 by {
                    lemma_snapshot_slot_holds_last_level(l@, false, l@[j].0 as int);
                }
            }
            if let Some(l) = &msg.no {
                assert forall|j: int| last_at_its_slot(l@, true, j) implies self.no@[100 - l@[j].0]
                    == #[trigger] l@[j].1 by {
                    lemma_snapshot_slot_holds_last_level(l@, true, 100 - l@[j].0);
                }
            }
        }
    }
}

impl LocalOrderbook {
    /// Adds the delta to the quantity at the delta's price on its side; a
    /// delta for any side other than "yes" or "no" leaves the book unchanged.
    pub fn apply_delta(&mut self, msg: &BookDelta)
        requires
            delta_in_range(old(self).yes@, old(self).no@, *msg),
        ensures
            (final(self).yes@, final(self).no@) == after_delta(old(self).yes@, old(self).no@, *msg),
    {
        if msg.side == "yes".to_owned() {
            let i = msg.price as usize;
            self.yes[i] = self.yes[i] + msg.delta;
        } else if msg.side == "no".to_owned() {
            let i = (100 - msg.price) as usize;
            self.no[i] = self.no[i] + msg.delta;
        }
    }

    /// YES ASK = 100 - best NO bid. NO bids are stored at `100 - api_price`,
    /// so the lowest occupied index in `no` is the yes ask.
    pub fn best_yes_ask(&self) -> (r: Option<u8>)
        ensures
            r == spec_best_yes_ask(self.no@),
            r is None <==> (forall|q: int| 1 <= q <= 99 ==> #[trigger] self.no@[q] <= 0),
            r matches Some(a) ==> 1 <= a <= 99 && self.no@[a as int] > 0 && (forall|q: int|
                1 <= q < a ==> #[trigger] self.no@[q] <= 0),
    {
        proof {
            lemma_best_yes_ask_is_lowest_no_slot(self.no@);
        }
        let mut p: u8 = 1;
        while p < 100
            invariant
                1 <= p <= 100,
                forall|q: int| 1 <= q < p ==> #[trigger] self.no@[q] <= 0,
            decreases 100 - p,
        {
            if self.no[p as usize] > 0 {
                proof {
                    lemma_lowest_positive(self.no@, p as int);
                }
                return Some(p);
            }
            p = p + 1;
        }
        assert(!has_positive(self.no@));
        None
    }

    /// NO ASK = 100 - best YES bid. YES bids are stored at their price, so
    /// the highest occupied index in `yes` gives the best yes bid.
    pub fn best_no_ask(&self) -> (r: Option<u8>)
        ensures
            r == spec_best_no_ask(self.yes@),
            r is None <==> (forall|q: int| 1 <= q <= 99 ==> #[trigger] self.yes@[q] <= 0),
            r matches Some(c) ==> 1 <= c <= 99 && self.yes@[100 - c] > 0 && (forall|q: int|
                100 - c < q <= 99 ==> #[trigger] self.yes@[q] <= 0),
    {
        proof {
            lemma_best_no_ask_is_complement_of_best_yes_bid(self.yes@);
        }
        let mut p: u8 = 99;
        while p >= 1
            invariant
                0 <= p <= 99,
                forall|q: int| p < q <= 99 ==> #[trigger] self.yes@[q] <= 0,
            decreases p,
        {
            if self.yes[p as usize] > 0 {
                proof {
                    lemma_highest_positive(self.yes@, p as int);
                }
                return Some(100 - p);
            }
            p = p - 1;
        }
        assert(!has_positive(self.yes@));
        None
    }
}

/// `cents / 100` in units of `10^-28`.
pub open spec fn cents_units(cents: u8) -> int {
    cents * pow10(26)
}

/// The parts of the decimal that `rust_decimal` computes as `cents / 100`.
pub open spec fn cents_parts(cents: u8) -> (i128, u32) {
    quotient(cents as i128, 0, 100, 0)
}

impl LocalOrderbook {
    /// Converts cents to a decimal amount (0.01-0.99).
    pub fn cents_to_decimal(cents: u8) -> (r: Price)
        ensures
            r.wf(),
            (r.mantissa, r.scale) == cents_parts(cents),
            r.units() == cents_units(cents),
    {
        let whole = Price { mantissa: cents as i128, scale: 0 };
        let hundred = Price { mantissa: 100, scale: 0 };
        proof {
            lemma_pow10_values();
            assert(whole.units() == cents * pow10(28));
            assert(whole.units() == (cents as int) * 10000000000000000000000000000);
            assert(whole.units() == 100 * ((cents as int) * 100000000000000000000000000));
            assert(whole.units() % 100 == 0);
            assert(whole.units() / 100 == (cents as int) * 100000000000000000000000000);
        }
        decimal_div(whole, hundred)
    }
}

/// The best asks of both books, when each book has both a yes and a no ask.
pub open spec fn spec_build_update(a: LocalOrderbook, b: LocalOrderbook) -> Option<(u8, u8, u8, u8)> {
    match (
        spec_best_yes_ask(a.no@),
        spec_best_no_ask(a.yes@),
        spec_best_yes_ask(b.no@),
        spec_best_no_ask(b.yes@),
    ) {
        (Some(ay), Some(an), Some(by), Some(bn)) => Some((ay, an, by, bn)),
        _ => None,
    }
}

/// The quotes `asks` are the decimal forms of the cent asks `c`.
pub open spec fn asks_match_cents(asks: KalshiBestAsks, c: (u8, u8, u8, u8)) -> bool {
    &&& asks.wf()
    &&& (asks.market_a_yes.mantissa, asks.market_a_yes.scale) == cents_parts(c.0)
    &&& (asks.market_a_no.mantissa, asks.market_a_no.scale) == cents_parts(c.1)
    &&& (asks.market_b_yes.mantissa, asks.market_b_yes.scale) == cents_parts(c.2)
    &&& (asks.market_b_no.mantissa, asks.market_b_no.scale) == cents_parts(c.3)
    &&& asks.market_a_yes.units() == cents_units(c.0)
    &&& asks.market_a_no.units() == cents_units(c.1)
    &&& asks.market_b_yes.units() == cents_units(c.2)
    &&& asks.market_b_no.units() == cents_units(c.3)
}

/// Builds the Kalshi quotes only if all four asks exist.
pub fn build_update(book_a: &LocalOrderbook, book_b: &LocalOrderbook) -> (r: Option<KalshiBestAsks>)
    ensures
        r is Some <==> spec_build_update(*book_a, *book_b) is Some,
        r is Some ==> asks_match_cents(r->0, spec_build_update(*book_a, *book_b)->0),
        r is Some <==> {
            &&& spec_best_yes_ask(book_a.no@) is Some
            &&& spec_best_no_ask(book_a.yes@) is Some
            &&& spec_best_yes_ask(book_b.no@) is Some
            &&& spec_best_no_ask(book_b.yes@) is Some
        },
        r matches Some(q) ==> {
            &&& q.market_a_yes.units() == cents_units(spec_best_yes_ask(book_a.no@)->0)
            &&& q.market_a_no.units() == cents_units(spec_best_no_ask(book_a.yes@)->0)
            &&& q.market_b_yes.units() == cents_units(spec_best_yes_ask(book_b.no@)->0)
            &&& q.market_b_no.units() == cents_units(spec_best_no_ask(book_b.yes@)->0)
        },
{
    proof {
        lemma_build_update_needs_all_four(*book_a, *book_b);
    }
    let ay = match book_a.best_yes_ask() {
        Some(p) => p,
        None => return None,
    };
    let an = match book_a.best_no_ask() {
        Some(p) => p,
        None => return None,
    };
    let by = match book_b.best_yes_ask() {
        Some(p) => p,
        None => return None,
    };
    let bn = match book_b.best_no_ask() {
        Some(p) => p,
        None => return None,
    };
    Some(KalshiBestAsks {
        market_a_yes: LocalOrderbook::cents_to_decimal(ay),
        market_a_no: LocalOrderbook::cents_to_decimal(an),
        market_b_yes: LocalOrderbook::cents_to_decimal(by),
        market_b_no: LocalOrderbook::cents_to_decimal(bn),
    })
}

/// Writing levels inverted (no side) puts at slot `i` what writing them at
/// their price puts at slot `100 - i`.
pub proof fn lemma_inverted_side_mirrors(levels: Seq<(u8, i64)>, i: int)
    requires
        levels_in_range(levels),
        0 <= i <= 100,
    ensures
        side_from_levels(levels, true)[i] == side_from_levels(levels, false)[100 - i],
        side_from_levels(levels, true).len() == BOOK_SLOTS,
        side_from_levels(levels, false).len() == BOOK_SLOTS,
    decreases levels.len(),
{
    if levels.len() > 0 {
        let init = levels.drop_last();
        assert forall|j: int| 0 <= j < init.len() implies #[trigger] init[j].0 <= 100 by {
            assert(init[j] == levels[j]);
        }
        lemma_inverted_side_mirrors(init, i);
        assert(levels[levels.len() - 1].0 <= 100);
    }
}

/// YES ASK = 100 - best NO bid: after a snapshot, the yes ask of the book is
/// 100 minus the highest no-bid price (in the snapshot's yes-equivalent
/// terms) that holds a positive quantity, and there is none without such a
/// bid.
pub proof fn lemma_yes_ask_complements_best_no_bid(no_levels: Seq<(u8, i64)>)
    requires
        levels_in_range(no_levels),
    ensures
        spec_best_yes_ask(side_from_levels(no_levels, true)) == (match highest_positive(
            side_from_levels(no_levels, false),
        ) {
            Some(q) => Some((100 - q) as u8),
            None => None,
        }),
{
    let inv = side_from_levels(no_levels, true);
    let bids = side_from_levels(no_levels, false);
    assert forall|i: int| 0 <= i <= 100 implies #[trigger] inv[i] == bids[100 - i] by {
        lemma_inverted_side_mirrors(no_levels, i);
    }
    if has_positive(bids) {
        lemma_highest_exists(bids);
        let q = choose|q: int| is_highest_positive(bids, q);
        lemma_highest_positive(bids, q);
        assert(inv[100 - q] == bids[q]);
        assert forall|r: int| 1 <= r < 100 - q implies #[trigger] inv[r] <= 0 by {
            assert(inv[r] == bids[100 - r]);
        }
        assert(is_lowest_positive(inv, 100 - q));
        lemma_lowest_positive(inv, 100 - q);
    } else {
        assert forall|p: int| 1 <= p <= 99 implies !(#[trigger] inv[p] > 0) by {
            assert(inv[p] == bids[100 - p]);
            if inv[p] > 0 {
                assert(bids[100 - p] > 0);
            }
        }
    }
}

/// A side with a positive quantity at some price in 1..=99 has a highest
/// such price.
pub proof fn lemma_highest_exists(side: Seq<i64>)
    requires
        has_positive(side),
    ensures
        exists|q: int| is_highest_positive(side, q),
{
    let w = choose|p: int| 1 <= p <= 99 && #[trigger] side[p] > 0;
    lemma_highest_below(side, 99, w);
}

/// Scanning down from `r`, past slots without a positive quantity, reaches
/// the highest positive one (at `w` at the latest).
proof fn lemma_highest_below(side: Seq<i64>, r: int, w: int)
    requires
        1 <= w <= r <= 99,
        side[w] > 0,
        forall|t: int| r < t <= 99 ==> #[trigger] side[t] <= 0,
    ensures
        exists|q: int| is_highest_positive(side, q),
    decreases r - w,
{
    if side[r] > 0 {
        assert(is_highest_positive(side, r));
    } else {
        lemma_highest_below(side, r - 1, w);
    }
}

/// Books emptied on reconnect give no quotes until both fill up again.
pub proof fn lemma_empty_books_give_no_quotes(a: LocalOrderbook, b: LocalOrderbook)
    requires
        a.yes@ == empty_side(),
        a.no@ == empty_side(),
    ensures
        spec_build_update(a, b) is None,
{
    assert(!has_positive(a.no@));
}

/// A delta followed by the opposite delta at the same price and side leaves
/// the book as it was.
pub proof fn lemma_opposite_delta_undoes(yes: Seq<i64>, no: Seq<i64>, d: BookDelta, e: BookDelta)
    requires
        yes.len() == BOOK_SLOTS,
        no.len() == BOOK_SLOTS,
        delta_in_range(yes, no, d),
        e.side@ == d.side@,
        e.price == d.price,
        e.delta == -d.delta,
    ensures
        delta_in_range(after_delta(yes, no, d).0, after_delta(yes, no, d).1, e),
        after_delta(after_delta(yes, no, d).0, after_delta(yes, no, d).1, e) == (yes, no),
{
    reveal_strlit("yes");
    reveal_strlit("no");
    assert("yes"@.len() != "no"@.len());
    let (y1, n1) = after_delta(yes, no, d);
    if d.side@ == "yes"@ {
        assert(y1.update(d.price as int, (y1[d.price as int] + e.delta) as i64) =~= yes);
    } else if d.side@ == "no"@ {
        assert(n1.update(100 - d.price, (n1[100 - d.price] + e.delta) as i64) =~= no);
    }
}

/// Whether all prices of the levels are at most 100 cents.
fn levels_valid(levels: &Levels) -> (r: bool)
    ensures
        r == levels_in_range(levels@),
{
    let n = levels.len();
    for j in 0..n
        invariant
            n == levels@.len(),
            forall|i: int| 0 <= i < j ==> #[trigger] levels@[i].0 <= 100,
    {
        if levels[j].0 > 100 {
            return false;
        }
    }
    true
}

impl BookSnapshot {
    /// Whether every level of the snapshot has a price of at most 100 cents
    /// (a book has no slot for a higher price).
    pub fn in_range(&self) -> (r: bool)
        ensures
            r == snapshot_in_range(*self),
    {
        let yes_ok = match &self.yes {
            Some(l) => levels_valid(l),
            None => true,
        };
        let no_ok = match &self.no {
            Some(l) => levels_valid(l),
            None => true,
        };
        yes_ok && no_ok
    }
}

impl LocalOrderbook {
    /// Whether `apply_delta` can apply the delta: its price has a slot and
    /// the new quantity fits an `i64`.
    pub fn delta_in_range(&self, msg: &BookDelta) -> (r: bool)
        ensures
            r == delta_in_range(self.yes@, self.no@, *msg),
    {
        proof {
            reveal_strlit("yes");
            reveal_strlit("no");
            assert("yes"@.len() != "no"@.len());
        }
        if msg.side == "yes".to_owned() {
            msg.price <= 100 && self.yes[msg.price as usize].checked_add(msg.delta).is_some()
        } else if msg.side == "no".to_owned() {
            msg.price <= 100 && self.no[(100 - msg.price) as usize].checked_add(msg.delta).is_some()
        } else {
            true
        }
    }
}

/// The best yes ask is the lowest price in 1..=99 at which the no side
/// holds a positive quantity (the slot of the best no bid), and there is
/// none exactly when no such price has one.
pub proof fn lemma_best_yes_ask_is_lowest_no_slot(no: Seq<i64>)
    ensures
        spec_best_yes_ask(no) is None <==> (forall|q: int| 1 <= q <= 99 ==> #[trigger] no[q] <= 0),
        spec_best_yes_ask(no) matches Some(a) ==> {
            &&& 1 <= a <= 99
            &&& no[a as int] > 0
            &&& forall|q: int| 1 <= q < a ==> #[trigger] no[q] <= 0
        },
{
    if has_positive(no) {
        let w = choose|p: int| 1 <= p <= 99 && #[trigger] no[p] > 0;
        lemma_lowest_above(no, 1, w);
        let q = choose|q: int| is_lowest_positive(no, q);
        lemma_lowest_positive(no, q);
    }
}

/// Scanning up from `r`, past slots without a positive quantity, reaches
/// the lowest positive one (at `w` at the latest).
proof fn lemma_lowest_above(side: Seq<i64>, r: int, w: int)
    requires
        1 <= r <= w <= 99,
        side[w] > 0,
        forall|t: int| 1 <= t < r ==> #[trigger] side[t] <= 0,
    ensures
        exists|q: int| is_lowest_positive(side, q),
    decreases w - r,
{
    if side[r] > 0 {
        assert(is_lowest_positive(side, r));
    } else {
        lemma_lowest_above(side, r + 1, w);
    }
}

/// NO ASK = 100 - best YES bid: the best no ask is `100 - q` for the
/// highest price `q` in 1..=99 at which the yes side holds a positive
/// quantity, and there is none exactly when no such price has one.
pub proof fn lemma_best_no_ask_is_complement_of_best_yes_bid(yes: Seq<i64>)
    ensures
        spec_best_no_ask(yes) is None <==> (forall|q: int| 1 <= q <= 99 ==> #[trigger] yes[q] <= 0),
        spec_best_no_ask(yes) matches Some(c) ==> {
            &&& 1 <= c <= 99
            &&& yes[100 - c] > 0
            &&& forall|q: int| 100 - c < q <= 99 ==> #[trigger] yes[q] <= 0
        },
{
    if has_positive(yes) {
        lemma_highest_exists(yes);
        let q = choose|q: int| is_highest_positive(yes, q);
        lemma_highest_positive(yes, q);
        assert(spec_best_no_ask(yes) == Some((100 - q) as u8));
    }
}

/// The Kalshi quotes exist exactly when both books have a positive quantity
/// at some price in 1..=99 on both sides, and then they are the four best
/// asks, each of its own book and side.
pub proof fn lemma_build_update_needs_all_four(a: LocalOrderbook, b: LocalOrderbook)
    ensures
        spec_build_update(a, b) is Some <==> {
            &&& exists|q: int| 1 <= q <= 99 && #[trigger] a.no@[q] > 0
            &&& exists|q: int| 1 <= q <= 99 && #[trigger] a.yes@[q] > 0
            &&& exists|q: int| 1 <= q <= 99 && #[trigger] b.no@[q] > 0
            &&& exists|q: int| 1 <= q <= 99 && #[trigger] b.yes@[q] > 0
        },
        spec_build_update(a, b) matches Some(c) ==> {
            &&& Some(c.0) == spec_best_yes_ask(a.no@)
            &&& Some(c.1) == spec_best_no_ask(a.yes@)
            &&& Some(c.2) == spec_best_yes_ask(b.no@)
            &&& Some(c.3) == spec_best_no_ask(b.yes@)
        },
{
    lemma_best_yes_ask_is_lowest_no_slot(a.no@);
    lemma_best_no_ask_is_complement_of_best_yes_bid(a.yes@);
    lemma_best_yes_ask_is_lowest_no_slot(b.no@);
    lemma_best_no_ask_is_complement_of_best_yes_bid(b.yes@);
}

/// A delta changes exactly one level: on the yes side at its price, or on
/// the no side at 100 minus its price, by the delta; every other level, and
/// every level for a delta on another side, stays.
pub proof fn lemma_delta_changes_one_level(yes: Seq<i64>, no: Seq<i64>, msg: BookDelta, i: int)
    requires
        yes.len() == BOOK_SLOTS,
        no.len() == BOOK_SLOTS,
        delta_in_range(yes, no, msg),
        0 <= i <= 100,
    ensures
        after_delta(yes, no, msg).0.len() == BOOK_SLOTS,
        after_delta(yes, no, msg).1.len() == BOOK_SLOTS,
        msg.side@ == "yes"@ ==> after_delta(yes, no, msg).0[i] == (if i == msg.price {
            yes[i] + msg.delta
        } else {
            yes[i] as int
        }) && after_delta(yes, no, msg).1[i] == no[i],
        msg.side@ == "no"@ ==> after_delta(yes, no, msg).1[i] == (if i == 100 - msg.price {
            no[i] + msg.delta
        } else {
            no[i] as int
        }) && after_delta(yes, no, msg).0[i] == yes[i],
        msg.side@ != "yes"@ && msg.side@ != "no"@ ==> after_delta(yes, no, msg) == (yes, no),
{
    reveal_strlit("yes");
    reveal_strlit("no");
    assert("yes"@.len() != "no"@.len());
}

/// A snapshot without levels on a side leaves that side empty.
pub proof fn lemma_missing_side_is_empty(inverted: bool, i: int)
    requires
        0 <= i <= 100,
    ensures
        side_from_snapshot(None, inverted).len() == BOOK_SLOTS,
        side_from_snapshot(None, inverted)[i] == 0,
{
}

/// Level `j` is the last level of the list at its slot.
pub open spec fn last_at_its_slot(levels: Seq<(u8, i64)>, inverted: bool, j: int) -> bool {
    &&& 0 <= j < levels.len()
    &&& forall|k: int|
        j < k < levels.len() ==> slot(#[trigger] levels[k].0, inverted) != slot(levels[j].0, inverted)
}

/// After writing the levels of a snapshot, each slot holds exactly the
/// quantity of the last level at that slot, and 0 where no level is.
pub proof fn lemma_snapshot_slot_holds_last_level(levels: Seq<(u8, i64)>, inverted: bool, i: int)
    requires
        levels_in_range(levels),
        0 <= i <= 100,
    ensures
        side_from_levels(levels, inverted).len() == BOOK_SLOTS,
        (forall|j: int| 0 <= j < levels.len() ==> slot(#[trigger] levels[j].0, inverted) != i)
            ==> side_from_levels(levels, inverted)[i] == 0,
        forall|j: int|
            last_at_its_slot(levels, inverted, j) && slot(levels[j].0, inverted) == i
                ==> side_from_levels(levels, inverted)[i] == #[trigger] levels[j].1,
    decreases levels.len(),
{
    if levels.len() > 0 {
        let init = levels.drop_last();
        let n = levels.len() - 1;
        assert forall|j: int| 0 <= j < init.len() implies #[trigger] init[j].0 <= 100 by {
            assert(init[j] == levels[j]);
        }
        assert(levels[n].0 <= 100);
        lemma_snapshot_slot_holds_last_level(init, inverted, i);
        assert forall|j: int|
            last_at_its_slot(levels, inverted, j) && slot(levels[j].0, inverted) == i
                implies side_from_levels(levels, inverted)[i] == #[trigger] levels[j].1 by {
            if j < n {
                assert(slot(levels[n].0, inverted) != slot(levels[j].0, inverted));
                assert(init[j] == levels[j]);
                assert forall|k: int| j < k < init.len() implies slot(
                    #[trigger] init[k].0,
                    inverted,
                ) != slot(init[j].0, inverted) by {
                    assert(init[k] == levels[k]);
                }
                assert(last_at_its_slot(init, inverted, j));
            }
        }
        if forall|j: int| 0 <= j < levels.len() ==> slot(#[trigger] levels[j].0, inverted) != i {
            assert(slot(levels[n].0, inverted) != i);
            assert forall|j: int| 0 <= j < init.len() implies slot(#[trigger] init[j].0, inverted)
                != i by {
                assert(init[j] == levels[j]);
            }
        }
    }
}

/// Both Kalshi markets of the event, with their local books.
pub struct KalshiFeed {
    /// Ticker of the market on outcome A.
    pub ticker_a: String,
    /// Ticker of the market on outcome B.
    pub ticker_b: String,
    pub book_a: LocalOrderbook,
    pub book_b: LocalOrderbook,
}

/// A message of the Kalshi feed about one market: a snapshot or a delta,
/// with the market's ticker.
#[derive(Debug)]
pub enum FeedEvent {
    Snapshot(String, BookSnapshot),
    Delta(String, BookDelta),
}

/// The ticker of the market that the message is about.
pub open spec fn event_ticker(ev: FeedEvent) -> Seq<char> {
    match ev {
        FeedEvent::Snapshot(t, _) => t@,
        FeedEvent::Delta(t, _) => t@,
    }
}

/// The message can be applied to its market's book: its prices have slots
/// and a delta does not overflow.
pub open spec fn event_in_range(book: (Seq<i64>, Seq<i64>), ev: FeedEvent) -> bool {
    match ev {
        FeedEvent::Snapshot(_, msg) => snapshot_in_range(msg),
        FeedEvent::Delta(_, msg) => delta_in_range(book.0, book.1, msg),
    }
}

/// The (yes, no) sides of a book after a message for it.
pub open spec fn book_step(book: (Seq<i64>, Seq<i64>), ev: FeedEvent) -> (Seq<i64>, Seq<i64>) {
    match ev {
        FeedEvent::Snapshot(_, msg) => (
            side_from_snapshot(opt_levels(msg.yes), false),
            side_from_snapshot(opt_levels(msg.no), true),
        ),
        FeedEvent::Delta(_, msg) => after_delta(book.0, book.1, msg),
    }
}

/// The books of markets A and B after a message: the message changes the
/// book of its market (market A first, when both tickers are the same) and
/// nothing for another ticker.
pub open spec fn feed_step(
    books: ((Seq<i64>, Seq<i64>), (Seq<i64>, Seq<i64>)),
    ticker_a: Seq<char>,
    ticker_b: Seq<char>,
    ev: FeedEvent,
) -> ((Seq<i64>, Seq<i64>), (Seq<i64>, Seq<i64>)) {
    if event_ticker(ev) == ticker_a {
        (book_step(books.0, ev), books.1)
    } else if event_ticker(ev) == ticker_b {
        (books.0, book_step(books.1, ev))
    } else {
        books
    }
}

/// The books after the messages, in order.
pub open spec fn feed_run(
    books: ((Seq<i64>, Seq<i64>), (Seq<i64>, Seq<i64>)),
    ticker_a: Seq<char>,
    ticker_b: Seq<char>,
    evs: Seq<FeedEvent>,
) -> ((Seq<i64>, Seq<i64>), (Seq<i64>, Seq<i64>))
    decreases evs.len(),
{
    if evs.len() == 0 {
        books
    } else {
        feed_step(feed_run(books, ticker_a, ticker_b, evs.drop_last()), ticker_a, ticker_b, evs.last())
    }
}

/// One book after the messages, in order, all applied to it.
pub open spec fn book_run(book: (Seq<i64>, Seq<i64>), evs: Seq<FeedEvent>) -> (Seq<i64>, Seq<i64>)
    decreases evs.len(),
{
    if evs.len() == 0 {
        book
    } else {
        book_step(book_run(book, evs.drop_last()), evs.last())
    }
}

/// The messages about `ticker`, in order.
pub open spec fn events_for(evs: Seq<FeedEvent>, ticker: Seq<char>) -> Seq<FeedEvent>
    decreases evs.len(),
{
    if evs.len() == 0 {
        evs
    } else if event_ticker(evs.last()) == ticker {
        events_for(evs.drop_last(), ticker).push(evs.last())
    } else {
        events_for(evs.drop_last(), ticker)
    }
}

/// Over a session with two different tickers, each book is the book of the
/// messages about its own market, applied in order; messages about any other
/// ticker change neither book.
pub proof fn lemma_feed_run_per_market(
    books: ((Seq<i64>, Seq<i64>), (Seq<i64>, Seq<i64>)),
    ticker_a: Seq<char>,
    ticker_b: Seq<char>,
    evs: Seq<FeedEvent>,
)
    requires
        ticker_a != ticker_b,
    ensures
        feed_run(books, ticker_a, ticker_b, evs) == (
            book_run(books.0, events_for(evs, ticker_a)),
            book_run(books.1, events_for(evs, ticker_b)),
        ),
    decreases evs.len(),
{
    if evs.len() > 0 {
        let init = evs.drop_last();
        let e = evs.last();
        lemma_feed_run_per_market(books, ticker_a, ticker_b, init);
        let fa = events_for(init, ticker_a);
        let fb = events_for(init, ticker_b);
        assert(fa.push(e).drop_last() =~= fa);
        assert(fb.push(e).drop_last() =~= fb);
    }
}

/// The result of an update of the feed: the quotes of `spec_build_update`.
pub open spec fn feed_output(feed: KalshiFeed, r: Option<KalshiBestAsks>) -> bool {
    &&& r is Some <==> spec_build_update(feed.book_a, feed.book_b) is Some
    &&& r is Some ==> asks_match_cents(r->0, spec_build_update(feed.book_a, feed.book_b)->0)
}

impl KalshiFeed {
    /// The (yes, no) sides of the books of markets A and B.
    pub open spec fn books(self) -> ((Seq<i64>, Seq<i64>), (Seq<i64>, Seq<i64>)) {
        ((self.book_a.yes@, self.book_a.no@), (self.book_b.yes@, self.book_b.no@))
    }

    /// Whether `on_event` can apply the message: a message about market A or B
    /// has its prices in the book and does not overflow a level.
    pub fn event_applies(&self, ev: &FeedEvent) -> (r: bool)
        ensures
            r == ((event_ticker(*ev) == self.ticker_a@ ==> event_in_range(self.books().0, *ev)) && (
            event_ticker(*ev) != self.ticker_a@ && event_ticker(*ev) == self.ticker_b@
                ==> event_in_range(self.books().1, *ev))),
    {
        let (ticker, book) = match ev {
            FeedEvent::Snapshot(t, _) => (t, &self.book_a),
            FeedEvent::Delta(t, _) => (t, &self.book_a),
        };
        let book = if *ticker == self.ticker_a {
            book
        } else if *ticker == self.ticker_b {
            &self.book_b
        } else {
            return true;
        };
        match ev {
            FeedEvent::Snapshot(_, msg) => msg.in_range(),
            FeedEvent::Delta(_, msg) => book.delta_in_range(msg),
        }
    }

    /// Applies a message of the feed (see `feed_step`) and rebuilds the quotes
    /// from both books.
    pub fn on_event(&mut self, ev: &FeedEvent) -> (r: Option<KalshiBestAsks>)
        requires
            event_ticker(*ev) == old(self).ticker_a@ ==> event_in_range(old(self).books().0, *ev),
            event_ticker(*ev) != old(self).ticker_a@ && event_ticker(*ev) == old(self).ticker_b@
                ==> event_in_range(old(self).books().1, *ev),
        ensures
            final(self).ticker_a == old(self).ticker_a,
            final(self).ticker_b == old(self).ticker_b,
            final(self).books() == feed_step(
                old(self).books(),
                old(self).ticker_a@,
                old(self).ticker_b@,
                *ev,
            ),
            feed_output(*final(self), r),
    {
        match ev {
            FeedEvent::Snapshot(ticker, msg) => self.on_snapshot(ticker, msg),
            FeedEvent::Delta(ticker, msg) => self.on_delta(ticker, msg),
        }
    }

    /// A feed with empty books.
    pub fn new(ticker_a: String, ticker_b: String) -> (f: Self)
        ensures
            f.ticker_a == ticker_a,
            f.ticker_b == ticker_b,
            f.book_a.yes@ == empty_side() && f.book_a.no@ == empty_side(),
            f.book_b.yes@ == empty_side() && f.book_b.no@ == empty_side(),
    {
        KalshiFeed {
            ticker_a,
            ticker_b,
            book_a: LocalOrderbook::new(),
            book_b: LocalOrderbook::new(),
        }
    }

    /// Empties both books (on reconnect).
    pub fn reset(&mut self)
        ensures
            final(self).ticker_a == old(self).ticker_a,
            final(self).ticker_b == old(self).ticker_b,
            final(self).book_a.yes@ == empty_side() && final(self).book_a.no@ == empty_side(),
            final(self).book_b.yes@ == empty_side() && final(self).book_b.no@ == empty_side(),
    {
        self.book_a = LocalOrderbook::new();
        self.book_b = LocalOrderbook::new();
    }

    /// A snapshot for `ticker` replaces the book of that market (market A
    /// first, when both tickers are the same; none for another ticker), and
    /// the quotes are rebuilt from both books.
    pub fn on_snapshot(&mut self, ticker: &String, msg: &BookSnapshot) -> (r: Option<KalshiBestAsks>)
        requires
            ticker@ == old(self).ticker_a@ || ticker@ == old(self).ticker_b@ ==> snapshot_in_range(
                *msg,
            ),
        ensures
            final(self).ticker_a == old(self).ticker_a,
            final(self).ticker_b == old(self).ticker_b,
            ticker@ == old(self).ticker_a@ ==> final(self).book_a.yes@ == side_from_snapshot(
                opt_levels(msg.yes),
                false,
            ) && final(self).book_a.no@ == side_from_snapshot(opt_levels(msg.no), true)
                && final(self).book_b == old(self).book_b,
            ticker@ != old(self).ticker_a@ && ticker@ == old(self).ticker_b@
                ==> final(self).book_b.yes@ == side_from_snapshot(opt_levels(msg.yes), false)
                && final(self).book_b.no@ == side_from_snapshot(opt_levels(msg.no), true)
                && final(self).book_a == old(self).book_a,
            ticker@ != old(self).ticker_a@ && ticker@ != old(self).ticker_b@ ==> final(self).book_a
                == old(self).book_a && final(self).book_b == old(self).book_b,
            feed_output(*final(self), r),
    {
        if *ticker == self.ticker_a {
            self.book_a.apply_snapshot(msg);
        } else if *ticker == self.ticker_b {
            self.book_b.apply_snapshot(msg);
        }
        build_update(&self.book_a, &self.book_b)
    }

    /// A delta for `ticker` changes the book of that market (market A first,
    /// when both tickers are the same; none for another ticker), and the
    /// quotes are rebuilt from both books.
    pub fn on_delta(&mut self, ticker: &String, msg: &BookDelta) -> (r: Option<KalshiBestAsks>)
        requires
            ticker@ == old(self).ticker_a@ ==> delta_in_range(
                old(self).book_a.yes@,
                old(self).book_a.no@,
                *msg,
            ),
            ticker@ != old(self).ticker_a@ && ticker@ == old(self).ticker_b@ ==> delta_in_range(
                old(self).book_b.yes@,
                old(self).book_b.no@,
                *msg,
            ),
        ensures
            final(self).ticker_a == old(self).ticker_a,
            final(self).ticker_b == old(self).ticker_b,
            ticker@ == old(self).ticker_a@ ==> (final(self).book_a.yes@, final(self).book_a.no@)
                == after_delta(old(self).book_a.yes@, old(self).book_a.no@, *msg)
                && final(self).book_b == old(self).book_b,
            ticker@ != old(self).ticker_a@ && ticker@ == old(self).ticker_b@ ==> (
            final(self).book_b.yes@,
            final(self).book_b.no@,
            ) == after_delta(old(self).book_b.yes@, old(self).book_b.no@, *msg)
                && final(self).book_a == old(self).book_a,
            ticker@ != old(self).ticker_a@ && ticker@ != old(self).ticker_b@ ==> final(self).book_a
                == old(self).book_a && final(self).book_b == old(self).book_b,
            feed_output(*final(self), r),
    {
        if *ticker == self.ticker_a {
            self.book_a.apply_delta(msg);
        } else if *ticker == self.ticker_b {
            self.book_b.apply_delta(msg);
        }
        build_update(&self.book_a, &self.book_b)
    }
}

} // verus!
