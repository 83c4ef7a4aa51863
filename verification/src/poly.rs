//! Polymarket's best asks for the two outcome tokens, kept from book
//! snapshots and price-change events.
use vstd::prelude::*;

use crate::decimal::{decimal_lt, Price};
use crate::types::PolyBestAsks;

verus! {

/// A price-change entry: the token it is about and, when the ask side
/// changed, its new best ask.
#[derive(Debug)]
pub struct PriceChange {
    /// The token id in canonical decimal form.
    pub asset_id: String,
    pub best_ask: Option<Price>,
}

/// The entry's ask, if any, is well formed.
pub open spec fn change_wf(ch: PriceChange) -> bool {
    ch.best_ask matches Some(a) ==> a.wf()
}

/// All amounts of the list are well formed.
pub open spec fn all_wf(s: Seq<Price>) -> bool {
    forall|i: int| 0 <= i < s.len() ==> (#[trigger] s[i]).wf()
}

/// `s[i]` is the first of the lowest amounts of `s`.
pub open spec fn is_first_min(s: Seq<Price>, i: int) -> bool {
    &&& 0 <= i < s.len()
    &&& forall|j: int| 0 <= j < s.len() ==> s[i].units() <= (#[trigger] s[j]).units()
    &&& forall|j: int| 0 <= j < i ==> s[i].units() < (#[trigger] s[j]).units()
}

/// The first of the lowest amounts of `s`, if any.
pub open spec fn first_min(s: Seq<Price>) -> Option<Price>
    decreases s.len(),
{
    if s.len() == 0 {
        None
    } else {
        match first_min(s.drop_last()) {
            None => Some(s.last()),
            Some(m) => if s.last().units() < m.units() {
                Some(s.last())
            } else {
                Some(m)
            },
        }
    }
}

/// The lowest ask of a book (the first one, when several are equally low),
/// or none for a book without asks.
pub fn min_ask(asks: &Vec<Price>) -> (r: Option<Price>)
    requires
        all_wf(asks@),
    ensures
        r == first_min(asks@),
        r is None <==> asks@.len() == 0,
        r matches Some(m) ==> exists|i: int| is_first_min(asks@, i) && m == asks@[i],
{
    if asks.len() == 0 {
        return None;
    }
    let mut best: usize = 0;
    let mut j: usize = 1;
    assert(asks@.take(1).drop_last() =~= asks@.take(0));
    assert(first_min(asks@.take(0)) is None);
    assert(asks@.take(1).last() == asks@[0]);
    while j < asks.len()
        invariant
            all_wf(asks@),
            first_min(asks@.take(j as int)) == Some(asks@[best as int]),
            1 <= j <= asks@.len(),
            best < j,
            forall|q: int| 0 <= q < j ==> asks@[best as int].units() <= (#[trigger] asks@[q]).units(),
            forall|q: int| 0 <= q < best ==> asks@[best as int].units() < (#[trigger] asks@[q]).units(),
        decreases asks@.len() - j,
    {
        assert(asks@.take(j + 1).drop_last() =~= asks@.take(j as int));
        if decimal_lt(asks[j], asks[best]) {
            best = j;
        }
        j = j + 1;
    }
    assert(asks@.take(j as int) =~= asks@);
    assert(is_first_min(asks@, best as int));
    Some(asks[best])
}

/// The best asks after one price-change entry: an entry with a best ask
/// replaces the ask of its token; other entries change nothing.
pub open spec fn apply_change(
    asks: (Option<Price>, Option<Price>),
    ch: PriceChange,
    token_a: Seq<char>,
    token_b: Seq<char>,
) -> (Option<Price>, Option<Price>) {
    match ch.best_ask {
        Some(ask) => if ch.asset_id@ == token_a {
            (Some(ask), asks.1)
        } else if ch.asset_id@ == token_b {
            (asks.0, Some(ask))
        } else {
            asks
        },
        None => asks,
    }
}

/// The best asks after the entries, applied in order.
pub open spec fn apply_changes(
    asks: (Option<Price>, Option<Price>),
    chs: Seq<PriceChange>,
    token_a: Seq<char>,
    token_b: Seq<char>,
) -> (Option<Price>, Option<Price>)
    decreases chs.len(),
{
    if chs.len() == 0 {
        asks
    } else {
        apply_change(apply_changes(asks, chs.drop_last(), token_a, token_b), chs.last(), token_a, token_b)
    }
}

/// The quotes of both tokens, once both are known.
pub open spec fn spec_ready(a: Option<Price>, b: Option<Price>) -> Option<PolyBestAsks> {
    match (a, b) {
        (Some(a), Some(b)) => Some(PolyBestAsks { outcome_a: a, outcome_b: b }),
        _ => None,
    }
}

/// The ask of token `t` after the entries, applied in order: the last entry
/// for `t` with a best ask gives it; otherwise it stays `current`.
pub open spec fn changes_for(current: Option<Price>, chs: Seq<PriceChange>, t: Seq<char>) -> Option<
    Price,
>
    decreases chs.len(),
{
    if chs.len() == 0 {
        current
    } else {
        let before = changes_for(current, chs.drop_last(), t);
        if chs.last().asset_id@ == t && chs.last().best_ask is Some {
            chs.last().best_ask
        } else {
            before
        }
    }
}

/// With two different tokens, the entries change each token's ask as if
/// only its own entries were there.
pub proof fn lemma_changes_per_token(
    asks: (Option<Price>, Option<Price>),
    chs: Seq<PriceChange>,
    token_a: Seq<char>,
    token_b: Seq<char>,
)
    requires
        token_a != token_b,
    ensures
        apply_changes(asks, chs, token_a, token_b) == (
            changes_for(asks.0, chs, token_a),
            changes_for(asks.1, chs, token_b),
        ),
    decreases chs.len(),
{
    if chs.len() > 0 {
        lemma_changes_per_token(asks, chs.drop_last(), token_a, token_b);
    }
}

/// An event of the Polymarket streams: a book snapshot of one token, or a
/// batch of price-change entries.
#[derive(Debug)]
pub enum PolyEvent {
    /// The token id (canonical decimal form) and the ask prices of its book.
    Book(String, Vec<Price>),
    Changes(Vec<PriceChange>),
}

/// The event's amounts are well formed.
pub open spec fn event_wf(ev: PolyEvent) -> bool {
    match ev {
        PolyEvent::Book(_, asks) => all_wf(asks@),
        PolyEvent::Changes(chs) => forall|i: int|
            0 <= i < chs@.len() ==> change_wf(#[trigger] chs@[i]),
    }
}

/// The best asks after an event: a book sets its token's ask to the book's
/// lowest ask (none for an empty book); a batch of changes applies its
/// entries in order.
pub open spec fn poly_step(
    asks: (Option<Price>, Option<Price>),
    token_a: Seq<char>,
    token_b: Seq<char>,
    ev: PolyEvent,
) -> (Option<Price>, Option<Price>) {
    match ev {
        PolyEvent::Book(asset, book) => if asset@ == token_a {
            (first_min(book@), asks.1)
        } else if asset@ == token_b {
            (asks.0, first_min(book@))
        } else {
            asks
        },
        PolyEvent::Changes(chs) => apply_changes(asks, chs@, token_a, token_b),
    }
}

/// The best asks after the events, in order.
pub open spec fn poly_run(
    asks: (Option<Price>, Option<Price>),
    token_a: Seq<char>,
    token_b: Seq<char>,
    evs: Seq<PolyEvent>,
) -> (Option<Price>, Option<Price>)
    decreases evs.len(),
{
    if evs.len() == 0 {
        asks
    } else {
        poly_step(poly_run(asks, token_a, token_b, evs.drop_last()), token_a, token_b, evs.last())
    }
}

/// The ask of token `t` after one event.
pub open spec fn token_step(current: Option<Price>, t: Seq<char>, ev: PolyEvent) -> Option<Price> {
    match ev {
        PolyEvent::Book(asset, book) => if asset@ == t {
            first_min(book@)
        } else {
            current
        },
        PolyEvent::Changes(chs) => changes_for(current, chs@, t),
    }
}

/// The ask of token `t` after the events, in order.
pub open spec fn token_run(current: Option<Price>, t: Seq<char>, evs: Seq<PolyEvent>) -> Option<Price>
    decreases evs.len(),
{
    if evs.len() == 0 {
        current
    } else {
        token_step(token_run(current, t, evs.drop_last()), t, evs.last())
    }
}

/// With two different tokens, each token's best ask after a run of events
/// depends only on the events about it: the last book of the token or the
/// last change entry for it with a best ask.
pub proof fn lemma_poly_run_per_token(
    asks: (Option<Price>, Option<Price>),
    token_a: Seq<char>,
    token_b: Seq<char>,
    evs: Seq<PolyEvent>,
)
    requires
        token_a != token_b,
    ensures
        poly_run(asks, token_a, token_b, evs) == (
            token_run(asks.0, token_a, evs),
            token_run(asks.1, token_b, evs),
        ),
    decreases evs.len(),
{
    if evs.len() > 0 {
        lemma_poly_run_per_token(asks, token_a, token_b, evs.drop_last());
        let before = poly_run(asks, token_a, token_b, evs.drop_last());
        if let PolyEvent::Changes(chs) = evs.last() {
            lemma_changes_per_token(before, chs@, token_a, token_b);
        }
    }
}

/// Once both tokens have a best ask, the quotes are exactly those two asks,
/// whatever their values; before that there are none.
pub proof fn lemma_ready_once_both_known(a: Option<Price>, b: Option<Price>)
    ensures
        a is Some && b is Some ==> spec_ready(a, b) == Some(
            PolyBestAsks { outcome_a: a->0, outcome_b: b->0 },
        ),
        a is None || b is None ==> spec_ready(a, b) is None,
{
}

/// The best asks of the two outcome tokens of the event.
pub struct PolyQuotes {
    /// Token id of outcome A in canonical decimal form.
    pub token_a: String,
    /// Token id of outcome B in canonical decimal form.
    pub token_b: String,
    pub best_ask_a: Option<Price>,
    pub best_ask_b: Option<Price>,
}

impl PolyQuotes {
    pub open spec fn wf(self) -> bool {
        &&& self.best_ask_a matches Some(a) ==> a.wf()
        &&& self.best_ask_b matches Some(b) ==> b.wf()
    }

    /// No asks known yet.
    pub fn new(token_a: String, token_b: String) -> (q: Self)
        ensures
            q.token_a == token_a,
            q.token_b == token_b,
            q.best_ask_a is None,
            q.best_ask_b is None,
    {
        PolyQuotes { token_a, token_b, best_ask_a: None, best_ask_b: None }
    }

    /// The quotes to send: both best asks, once both are known.
    pub fn ready(&self) -> (r: Option<PolyBestAsks>)
        ensures
            r == spec_ready(self.best_ask_a, self.best_ask_b),
            self.best_ask_a is Some && self.best_ask_b is Some ==> r == Some(
                PolyBestAsks { outcome_a: self.best_ask_a->0, outcome_b: self.best_ask_b->0 },
            ),
            self.best_ask_a is None || self.best_ask_b is None ==> r is None,
    {
        match (self.best_ask_a, self.best_ask_b) {
            (Some(a), Some(b)) => Some(PolyBestAsks { outcome_a: a, outcome_b: b }),
            _ => None,
        }
    }

    /// Applies a stream event (see `poly_step`) and returns the quotes to
    /// send.
    pub fn on_event(&mut self, ev: &PolyEvent) -> (r: Option<PolyBestAsks>)
        requires
            old(self).wf(),
            event_wf(*ev),
        ensures
            final(self).wf(),
            final(self).token_a == old(self).token_a,
            final(self).token_b == old(self).token_b,
            (final(self).best_ask_a, final(self).best_ask_b) == poly_step(
                (old(self).best_ask_a, old(self).best_ask_b),
                old(self).token_a@,
                old(self).token_b@,
                *ev,
            ),
            r == spec_ready(final(self).best_ask_a, final(self).best_ask_b),
    {
        match ev {
            PolyEvent::Book(asset, asks) => self.on_book(asset, asks),
            PolyEvent::Changes(chs) => self.on_price_changes(chs),
        }
    }

    /// A book snapshot of `asset_id` sets that token's best ask to the lowest
    /// ask of the book (none for a book without asks); a book of another
    /// token changes nothing. Returns the quotes to send.
    pub fn on_book(&mut self, asset_id: &String, asks: &Vec<Price>) -> (r: Option<PolyBestAsks>)
        requires
            old(self).wf(),
            all_wf(asks@),
        ensures
            final(self).wf(),
            final(self).token_a == old(self).token_a,
            final(self).token_b == old(self).token_b,
            asset_id@ == old(self).token_a@ ==> final(self).best_ask_b == old(self).best_ask_b && (
            final(self).best_ask_a is None <==> asks@.len() == 0) && (final(self).best_ask_a matches Some(
                m,
            ) ==> exists|i: int| is_first_min(asks@, i) && m == asks@[i]),
            asset_id@ != old(self).token_a@ && asset_id@ == old(self).token_b@
                ==> final(self).best_ask_a == old(self).best_ask_a && (final(self).best_ask_b is None
                <==> asks@.len() == 0) && (final(self).best_ask_b matches Some(m) ==> exists|i: int|
                is_first_min(asks@, i) && m == asks@[i]),
            asset_id@ != old(self).token_a@ && asset_id@ != old(self).token_b@
                ==> final(self).best_ask_a == old(self).best_ask_a && final(self).best_ask_b
                == old(self).best_ask_b,
            asset_id@ == old(self).token_a@ ==> final(self).best_ask_a == first_min(asks@),
            asset_id@ != old(self).token_a@ && asset_id@ == old(self).token_b@
                ==> final(self).best_ask_b == first_min(asks@),
            r == spec_ready(final(self).best_ask_a, final(self).best_ask_b),
    {
        let best_ask = min_ask(asks);
        if *asset_id == self.token_a {
            self.best_ask_a = best_ask;
        } else if *asset_id == self.token_b {
            self.best_ask_b = best_ask;
        }
        self.ready()
    }

    /// Applies the price-change entries in order and returns the quotes to
    /// send.
    pub fn on_price_changes(&mut self, changes: &Vec<PriceChange>) -> (r: Option<PolyBestAsks>)
        requires
            old(self).wf(),
            forall|i: int|
                0 <= i < changes@.len() ==> change_wf(#[trigger] changes@[i]),
        ensures
            final(self).wf(),
            final(self).token_a == old(self).token_a,
            final(self).token_b == old(self).token_b,
            (final(self).best_ask_a, final(self).best_ask_b) == apply_changes(
                (old(self).best_ask_a, old(self).best_ask_b),
                changes@,
                old(self).token_a@,
                old(self).token_b@,
            ),
            r == spec_ready(final(self).best_ask_a, final(self).best_ask_b),
    {
        let ghost start = (self.best_ask_a, self.best_ask_b);
        let n = changes.len();
        assert(changes@.take(0) =~= Seq::<PriceChange>::empty());
        for j in 0..n
            invariant
                n == changes@.len(),
                self.wf(),
                self.token_a == old(self).token_a,
                self.token_b == old(self).token_b,
                start == (old(self).best_ask_a, old(self).best_ask_b),
                forall|i: int|
                    0 <= i < changes@.len() ==> change_wf(#[trigger] changes@[i]),
                (self.best_ask_a, self.best_ask_b) == apply_changes(
                    start,
                    changes@.take(j as int),
                    self.token_a@,
                    self.token_b@,
                ),
        {
            let entry = &changes[j];
            assert(changes@.take(j + 1).drop_last() =~= changes@.take(j as int));
            assert(changes@.take(j + 1).last() == changes@[j as int]);
            if let Some(ask) = entry.best_ask {
                if entry.asset_id == self.token_a {
                    self.best_ask_a = Some(ask);
                } else if entry.asset_id == self.token_b {
                    self.best_ask_b = Some(ask);
                }
            }
        }
        assert(changes@.take(n as int) =~= changes@);
        self.ready()
    }
}

} // verus!
