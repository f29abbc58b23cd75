//! A standard 52-card deck that is shuffled once and then dealt from the top.

use vstd::prelude::*;
use rand::rngs::StdRng;
use crate::models::{Card, Rank, Suit};
use crate::rng::draw_usize;

verus! {

/// A standard 52-card deck that can be shuffled and dealt from.
pub struct Deck {
    cards: Vec<Card>,
    cursor: usize,
}

/// The abstract deck: its cards in dealing order and how many are dealt.
pub struct DeckView {
    pub cards: Seq<Card>,
    pub cursor: nat,
}

impl View for Deck {
    type V = DeckView;

    closed spec fn view(&self) -> DeckView {
        DeckView { cards: self.cards@, cursor: self.cursor as nat }
    }
}

/// All cards are cards of the standard deck.
pub open spec fn all_valid(s: Seq<Card>) -> bool {
    forall|i: int| 0 <= i < s.len() ==> (#[trigger] s[i]).valid()
}

/// Position of a suit in the fixed order clubs, diamonds, hearts, spades.
pub open spec fn suit_rank(s: Suit) -> int {
    match s {
        Suit::Clubs => 0,
        Suit::Diamonds => 1,
        Suit::Hearts => 2,
        Suit::Spades => 3,
    }
}

/// The suit of the `i`-th block of thirteen in the unshuffled deck.
pub open spec fn suit_at(i: int) -> Suit {
    if i == 0 {
        Suit::Clubs
    } else if i == 1 {
        Suit::Diamonds
    } else if i == 2 {
        Suit::Hearts
    } else {
        Suit::Spades
    }
}

/// The unshuffled deck: clubs, diamonds, hearts, spades, each from 2 to ace.
pub open spec fn ordered_deck() -> Seq<Card> {
    Seq::new(52, |k: int| Card { rank: Rank((k % 13 + 2) as u8), suit: suit_at(k / 13) })
}

/// Swap the entries at `i` and `j`.
pub open spec fn swap_at(s: Seq<Card>, i: int, j: int) -> Seq<Card> {
    s.update(i, s[j]).update(j, s[i])
}

/// Drawn swap partners of a 52-card Fisher–Yates shuffle: the `k`-th is at
/// most `51 - k`.
pub open spec fn shuffle_draws_valid(js: Seq<usize>) -> bool {
    &&& js.len() == 51
    &&& forall|k: int| 0 <= k < 51 ==> #[trigger] js[k] <= 51 - k
}

/// Fisher–Yates from step `k` on: step `k` swaps position `51 - k` with
/// position `js[k]`.
pub open spec fn shuffle_from(s: Seq<Card>, js: Seq<usize>, k: int) -> Seq<Card>
    decreases 51 - k,
{
    if k >= 51 || k < 0 {
        s
    } else {
        shuffle_from(swap_at(s, 51 - k, js[k] as int), js, k + 1)
    }
}

/// The Fisher–Yates shuffle of `s` with the drawn swap partners `js`.
pub open spec fn shuffled(s: Seq<Card>, js: Seq<usize>) -> Seq<Card> {
    shuffle_from(s, js, 0)
}

/// Shuffle `cards` in place with the drawn swap partners `js`: for `k` from
/// 0 to 50, swap position `51 - k` with position `js[k]`.
pub fn fisher_yates(cards: &mut Vec<Card>, js: &Vec<usize>)
    requires
        old(cards)@.len() == 52,
        shuffle_draws_valid(js@),
    ensures
        final(cards)@ == shuffled(old(cards)@, js@),
        final(cards)@.len() == 52,
        old(cards)@.no_duplicates() && all_valid(old(cards)@) ==> final(cards)@.no_duplicates() && all_valid(
            final(cards)@,
        ),
{
    let ghost start = cards@;
    let mut k: usize = 0;
    while k < 51
        invariant
            k <= 51,
            cards@.len() == 52,
            shuffle_draws_valid(js@),
            shuffle_from(cards@, js@, k as int) == shuffled(start, js@),
            start.no_duplicates() && all_valid(start) ==> cards@.no_duplicates() && all_valid(cards@),
        decreases 51 - k,
    {
        let i = 51 - k;
        let j = js[k];
        assert(js@[k as int] <= 51 - k);
        let a = cards[i];
        let b = cards[j];
        let ghost before = cards@;
        cards.set(i, b);
        cards.set(j, a);
        proof {
            assert(cards@ =~= swap_at(before, i as int, j as int));
            if start.no_duplicates() && all_valid(start) {
                lemma_swap_keeps_distinct(before, i as int, j as int);
            }
        }
        k += 1;
    }
}

impl Deck {
    /// 52 distinct valid cards (so: every card of the deck once), with the
    /// cursor inside the deck.
    pub open spec fn wf(&self) -> bool {
        &&& self@.cards.len() == 52
        &&& self@.cards.no_duplicates()
        &&& all_valid(self@.cards)
        &&& self@.cursor <= 52
    }

    /// Every deck is well formed.
    #[verifier::type_invariant]
    spec fn deck_inv(&self) -> bool {
        self.wf()
    }

    /// Build a fresh ordered deck and shuffle it with `rng` (Fisher–Yates).
    pub fn new_shuffled(rng: &mut StdRng) -> (d: Self)
        ensures
            d.wf(),
            d@.cursor == 0,
            exists|js: Seq<usize>| shuffle_draws_valid(js) && d@.cards == #[trigger] shuffled(ordered_deck(), js),
    {
        let suits = [Suit::Clubs, Suit::Diamonds, Suit::Hearts, Suit::Spades];
        let mut cards: Vec<Card> = Vec::new();
        let mut si: usize = 0;
        while si < 4
            invariant
                si <= 4,
                suits@ == seq![Suit::Clubs, Suit::Diamonds, Suit::Hearts, Suit::Spades],
                cards@.len() == 13 * si,
                cards@.no_duplicates(),
                all_valid(cards@),
                forall|k: int| 0 <= k < cards@.len() ==> suit_rank(#[trigger] cards@[k].suit) < si,
                forall|k: int| 0 <= k < cards@.len() ==> #[trigger] cards@[k] == ordered_deck()[k],
            decreases 4 - si,
        {
            let suit = suits[si];
            assert(suit_rank(suit) == si);
            assert(suit == suit_at(si as int));
            let mut r: u8 = 2;
            while r <= 14
                invariant
                    si < 4,
                    2 <= r <= 15,
                    suit_rank(suit) == si,
                    cards@.len() == 13 * si + (r - 2),
                    cards@.no_duplicates(),
                    all_valid(cards@),
                    forall|k: int|
                        0 <= k < cards@.len() ==> suit_rank(#[trigger] cards@[k].suit) < si || (
                        cards@[k].suit == suit && cards@[k].rank.0 < r),
                    forall|k: int| 0 <= k < cards@.len() ==> suit_rank(#[trigger] cards@[k].suit) <= si,
                    suit == suit_at(si as int),
                    forall|k: int| 0 <= k < cards@.len() ==> #[trigger] cards@[k] == ordered_deck()[k],
                decreases 15 - r,
            {
                let c = Card { rank: Rank(r), suit };
                proof {
                    let idx = 13 * si + (r - 2);
                    assert(idx % 13 == r - 2 && idx / 13 == si) by (nonlinear_arith)
                        requires
                            idx == 13 * si + (r - 2),
                            2 <= r <= 14,
                    ;
                    assert(ordered_deck()[idx] == c);
                }
                assert forall|k: int| 0 <= k < cards@.len() implies cards@[k] != c by {
                    if suit_rank(cards@[k].suit) < si {
                    } else {
                        assert(cards@[k].rank.0 < r);
                    }
                }
                cards.push(c);
                r += 1;
            }
            si += 1;
        }
        assert(cards@ =~= ordered_deck());
        // Fisher-Yates shuffle: draw the swap partner of position 51 down to 1
        let mut js: Vec<usize> = Vec::new();
        let mut k: usize = 0;
        while k < 51
            invariant
                k <= 51,
                js@.len() == k,
                forall|m: int| 0 <= m < k ==> #[trigger] js@[m] <= 51 - m,
            decreases 51 - k,
        {
            let j = draw_usize(rng, 0, 51 - k);
            js.push(j);
            k += 1;
        }
        fisher_yates(&mut cards, &js);
        Deck { cards, cursor: 0 }
    }

    /// Deal the next card.  Dealing from an exhausted deck is a caller
    /// error, ruled out by `requires`.
    pub fn deal(&mut self) -> (c: Card)
        requires
            old(self)@.cursor < 52,
        ensures
            final(self).wf(),
            c == old(self)@.cards[old(self)@.cursor as int],
            final(self)@.cards == old(self)@.cards,
            final(self)@.cursor == old(self)@.cursor + 1,
    {
        proof {
            use_type_invariant(&*self);
        }
        let card = self.cards[self.cursor];
        self.cursor += 1;
        proof {
            use_type_invariant(&*self);
        }
        card
    }

    /// Deal `n` cards at once.
    pub fn deal_n(&mut self, n: usize) -> (v: Vec<Card>)
        requires
            old(self)@.cursor + n <= 52,
        ensures
            final(self).wf(),
            v@ == old(self)@.cards.subrange(old(self)@.cursor as int, old(self)@.cursor + n),
            final(self)@.cards == old(self)@.cards,
            final(self)@.cursor == old(self)@.cursor + n,
    {
        proof {
            use_type_invariant(&*self);
        }
        let mut v: Vec<Card> = Vec::new();
        let mut k: usize = 0;
        while k < n
            invariant
                self.wf(),
                k <= n,
                self@.cards == old(self)@.cards,
                self@.cursor == old(self)@.cursor + k,
                old(self)@.cursor + n <= 52,
                v@ == old(self)@.cards.subrange(old(self)@.cursor as int, old(self)@.cursor + k),
            decreases n - k,
        {
            let c = self.deal();
            v.push(c);
            k += 1;
        }
        v
    }

    /// Number of cards not yet dealt.
    pub fn remaining(&self) -> (r: usize)
        ensures
            r == 52 - self@.cursor,
    {
        proof {
            use_type_invariant(self);
        }
        self.cards.len() - self.cursor
    }

    /// All dealt cards so far, in dealing order.
    pub fn dealt_cards(&self) -> (s: &[Card])
        ensures
            s@ == self@.cards.take(self@.cursor as int),
    {
        proof {
            use_type_invariant(self);
        }
        vstd::slice::slice_subrange(self.cards.as_slice(), 0, self.cursor)
    }
}

/// Swapping two entries keeps a sequence free of duplicates and keeps every
/// card valid.
proof fn lemma_swap_keeps_distinct(s: Seq<Card>, i: int, j: int)
    requires
        0 <= i < s.len(),
        0 <= j < s.len(),
        s.no_duplicates(),
        all_valid(s),
    ensures
        s.update(i, s[j]).update(j, s[i]).no_duplicates(),
        all_valid(s.update(i, s[j]).update(j, s[i])),
{
    let t = s.update(i, s[j]).update(j, s[i]);
    assert forall|a: int, b: int| 0 <= a < t.len() && 0 <= b < t.len() && a != b implies t[a] != t[b] by {
        let pa = if a == j { i } else if a == i { j } else { a };
        let pb = if b == j { i } else if b == i { j } else { b };
        assert(t[a] == s[pa]);
        assert(t[b] == s[pb]);
    }
    assert forall|a: int| 0 <= a < t.len() implies (#[trigger] t[a]).valid() by {
        let pa = if a == j { i } else if a == i { j } else { a };
        assert(t[a] == s[pa]);
    }
}

} // verus!
