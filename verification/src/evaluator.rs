//! Board analysis, draw detection, draw equities, and hand classification.
//!
//! `board_texture` classifies a board as Dry, SemiWet, or Wet from its flush
//! and straight draw potential.  `classify_draw` names the strongest draw on a
//! board.  `classify_hand` sorts a two-card hand into Premium / Strong /
//! Playable / Marginal / Trash.  Equities are whole percentages.

use vstd::prelude::*;
use crate::models::{Card, Suit};

verus! {

/// Describes the texture of a board.
#[derive(Debug, Clone, Copy, PartialEq, Eq, Structural)]
pub enum BoardTexture {
    /// No flush draw and no straight draw.
    Dry,
    /// Exactly one of: two cards of a suit, connected ranks.
    SemiWet,
    /// Both a flush draw and a straight draw are possible.
    Wet,
}

impl BoardTexture {
    /// The text that `name` returns.
    pub open spec fn name_text(self) -> Seq<char> {
        match self {
            BoardTexture::Dry => "dry"@,
            BoardTexture::SemiWet => "semi-wet"@,
            BoardTexture::Wet => "wet"@,
        }
    }

    /// Display name ("dry", "semi-wet", "wet").
    pub fn name(self) -> (s: &'static str)
        ensures
            s@ == self.name_text(),
    {
        match self {
            BoardTexture::Dry => "dry",
            BoardTexture::SemiWet => "semi-wet",
            BoardTexture::Wet => "wet",
        }
    }
}

/// Rank value of the `i`-th card.
pub open spec fn rank_at(s: Seq<Card>, i: int) -> int {
    s[i].rank.0 as int
}

/// Two cards of the board share a suit.
pub open spec fn flush_draw_spec(board: Seq<Card>) -> bool {
    exists|i: int, j: int|
        0 <= i < j < board.len() && #[trigger] board[i].suit == #[trigger] board[j].suit
}

/// Rank at `j` lies one or two above rank at `i`.
pub open spec fn close_pair(s: Seq<Card>, i: int, j: int) -> bool {
    1 <= rank_at(s, j) - rank_at(s, i) <= 2
}

/// Two board ranks are consecutive or one apart.
pub open spec fn close_ranks(board: Seq<Card>) -> bool {
    exists|i: int, j: int| 0 <= i < board.len() && 0 <= j < board.len() && #[trigger] close_pair(board, i, j)
}

/// Ranks at `i`, `j`, `k`, `l` increase strictly and span at most four.
pub open spec fn close4(s: Seq<Card>, i: int, j: int, k: int, l: int) -> bool {
    rank_at(s, i) < rank_at(s, j) < rank_at(s, k) < rank_at(s, l) && rank_at(s, l) - rank_at(s, i) <= 4
}

/// Four distinct ranks lie within a span of four.
pub open spec fn four_close_ranks(s: Seq<Card>) -> bool {
    exists|i: int, j: int, k: int, l: int|
        0 <= i < s.len() && 0 <= j < s.len() && 0 <= k < s.len() && 0 <= l < s.len() && #[trigger] close4(s, i, j, k, l)
}

/// Straight-draw potential: two board cards whose ranks are consecutive or
/// one apart (open-ender or gutshot).
pub open spec fn straight_draw_spec(board: Seq<Card>) -> bool {
    close_ranks(board)
}

pub open spec fn texture_spec(board: Seq<Card>) -> BoardTexture {
    if board.len() == 0 {
        BoardTexture::Dry
    } else if flush_draw_spec(board) && straight_draw_spec(board) {
        BoardTexture::Wet
    } else if flush_draw_spec(board) || straight_draw_spec(board) {
        BoardTexture::SemiWet
    } else {
        BoardTexture::Dry
    }
}

/// Classify the texture of the board.
pub fn board_texture(board: &[Card]) -> (t: BoardTexture)
    ensures
        t == texture_spec(board@),
{
    if board.len() == 0 {
        return BoardTexture::Dry;
    }
    let flush_draw = has_flush_draw(board);
    let straight_draw = has_straight_draw(board);
    if flush_draw || straight_draw {
        if flush_draw && straight_draw {
            BoardTexture::Wet
        } else {
            BoardTexture::SemiWet
        }
    } else {
        BoardTexture::Dry
    }
}

/// True if 2+ cards share a suit (flush draw possible).
pub fn has_flush_draw(board: &[Card]) -> (b: bool)
    ensures
        b == flush_draw_spec(board@),
{
    let n = board.len();
    let mut i: usize = 0;
    while i < n
        invariant
            n == board@.len(),
            i <= n,
            forall|a: int, b: int| 0 <= a < i && a < b < n ==> board@[a].suit != board@[b].suit,
        decreases n - i,
    {
        let mut j: usize = i + 1;
        while j < n
            invariant
                n == board@.len(),
                i < n,
                i + 1 <= j <= n,
                forall|a: int, b: int| 0 <= a < i && a < b < n ==> board@[a].suit != board@[b].suit,
                forall|b: int| i < b < j ==> board@[i as int].suit != board@[b].suit,
            decreases n - j,
        {
            if board[i].suit == board[j].suit {
                assert(board@[i as int].suit == board@[j as int].suit);
                return true;
            }
            j += 1;
        }
        i += 1;
    }
    false
}

/// Whether two ranks of `s` are consecutive or one apart.
fn has_close_ranks(s: &[Card]) -> (b: bool)
    ensures
        b == close_ranks(s@),
{
    let n = s.len();
    let mut i: usize = 0;
    while i < n
        invariant
            n == s@.len(),
            i <= n,
            forall|a: int, b: int| 0 <= a < i && 0 <= b < n ==> !close_pair(s@, a, b),
        decreases n - i,
    {
        let mut j: usize = 0;
        while j < n
            invariant
                n == s@.len(),
                i < n,
                j <= n,
                forall|a: int, b: int| 0 <= a < i && 0 <= b < n ==> !close_pair(s@, a, b),
                forall|b: int| 0 <= b < j ==> !close_pair(s@, i as int, b),
            decreases n - j,
        {
            let ri = s[i].rank.0 as u32;
            let rj = s[j].rank.0 as u32;
            if ri < rj && rj - ri <= 2 {
                assert(close_pair(s@, i as int, j as int));
                return true;
            }
            j += 1;
        }
        i += 1;
    }
    false
}

/// Whether four distinct ranks of `s` lie within a span of four.
pub fn has_four_close_ranks(s: &[Card]) -> (b: bool)
    ensures
        b == four_close_ranks(s@),
{
    let n = s.len();
    let mut i: usize = 0;
    while i < n
        invariant
            n == s@.len(),
            i <= n,
            forall|a: int, b: int, c: int, d: int|
                0 <= a < i && 0 <= b < n && 0 <= c < n && 0 <= d < n ==> !close4(s@, a, b, c, d),
        decreases n - i,
    {
        let mut j: usize = 0;
        while j < n
            invariant
                n == s@.len(),
                i < n,
                j <= n,
                forall|a: int, b: int, c: int, d: int|
                    0 <= a < i && 0 <= b < n && 0 <= c < n && 0 <= d < n ==> !close4(s@, a, b, c, d),
                forall|b: int, c: int, d: int|
                    0 <= b < j && 0 <= c < n && 0 <= d < n ==> !close4(s@, i as int, b, c, d),
            decreases n - j,
        {
            let mut k: usize = 0;
            while k < n
                invariant
                    n == s@.len(),
                    i < n,
                    j < n,
                    k <= n,
                    forall|a: int, b: int, c: int, d: int|
                        0 <= a < i && 0 <= b < n && 0 <= c < n && 0 <= d < n ==> !close4(s@, a, b, c, d),
                    forall|b: int, c: int, d: int|
                        0 <= b < j && 0 <= c < n && 0 <= d < n ==> !close4(s@, i as int, b, c, d),
                    forall|c: int, d: int|
                        0 <= c < k && 0 <= d < n ==> !close4(s@, i as int, j as int, c, d),
                decreases n - k,
            {
                let mut l: usize = 0;
                while l < n
                    invariant
                        n == s@.len(),
                        i < n,
                        j < n,
                        k < n,
                        l <= n,
                        forall|a: int, b: int, c: int, d: int|
                            0 <= a < i && 0 <= b < n && 0 <= c < n && 0 <= d < n ==> !close4(s@, a, b, c, d),
                        forall|b: int, c: int, d: int|
                            0 <= b < j && 0 <= c < n && 0 <= d < n ==> !close4(s@, i as int, b, c, d),
                        forall|c: int, d: int|
                            0 <= c < k && 0 <= d < n ==> !close4(s@, i as int, j as int, c, d),
                        forall|d: int|
                            0 <= d < l ==> !close4(s@, i as int, j as int, k as int, d),
                    decreases n - l,
                {
                    let ri = s[i].rank.0 as u32;
                    let rj = s[j].rank.0 as u32;
                    let rk = s[k].rank.0 as u32;
                    let rl = s[l].rank.0 as u32;
                    if ri < rj && rj < rk && rk < rl && rl - ri <= 4 {
                        assert(close4(s@, i as int, j as int, k as int, l as int));
                        return true;
                    }
                    l += 1;
                }
                k += 1;
            }
            j += 1;
        }
        i += 1;
    }
    false
}

/// True if two board cards are within a tight rank span — consecutive or one
/// apart — indicating open-ender or gutshot potential.
pub fn has_straight_draw(board: &[Card]) -> (b: bool)
    ensures
        b == straight_draw_spec(board@),
{
    has_close_ranks(board)
}

// ---------------------------------------------------------------------------
// Hand strength classification (5-category)
//
//   Premium  — AA, KK, QQ, AKs
//   Strong   — JJ, TT, AQ, AKo
//   Playable — 99-77, AJs, A9s+, KQs, suited connectors 9+
//   Marginal — 66-22, KQo, other high cards
//   Trash    — everything else (high card 9 or lower)
// ---------------------------------------------------------------------------

#[derive(Debug, Clone, Copy, PartialEq, Eq, Structural)]
pub enum HandCategory {
    Premium,
    Strong,
    Playable,
    Marginal,
    Trash,
}

/// Category of a hand with higher rank `r1`, lower rank `r2`.
pub open spec fn category_spec(r1: int, r2: int, suited: bool) -> HandCategory {
    if r1 == r2 {
        if r1 == 14 || r1 == 13 || r1 == 12 {
            HandCategory::Premium
        } else if r1 == 11 || r1 == 10 {
            HandCategory::Strong
        } else if 7 <= r1 <= 9 {
            HandCategory::Playable
        } else {
            HandCategory::Marginal
        }
    } else if r1 == 14 && r2 == 13 && suited {
        HandCategory::Premium
    } else if r1 == 14 && r2 == 13 {
        HandCategory::Strong
    } else if r1 == 14 && r2 == 12 {
        HandCategory::Strong
    } else if r1 == 14 && r2 == 11 && suited {
        HandCategory::Playable
    } else if r1 == 14 && r2 >= 9 && suited {
        HandCategory::Playable
    } else if r1 == 13 && r2 == 12 && suited {
        HandCategory::Playable
    } else if r1 == 13 && r2 == 12 {
        HandCategory::Marginal
    } else if suited && r1 >= 9 && r1 - r2 == 1 {
        HandCategory::Playable
    } else if r1 <= 9 {
        HandCategory::Trash
    } else {
        HandCategory::Marginal
    }
}

pub open spec fn max_int(a: int, b: int) -> int {
    if a >= b { a } else { b }
}

pub open spec fn min_int(a: int, b: int) -> int {
    if a <= b { a } else { b }
}

/// Category of a two-card hand.
pub open spec fn classify_hand_spec(hand: Seq<Card>) -> HandCategory {
    category_spec(
        max_int(hand[0].rank.0 as int, hand[1].rank.0 as int),
        min_int(hand[0].rank.0 as int, hand[1].rank.0 as int),
        hand[0].suit == hand[1].suit,
    )
}

pub fn classify_hand(hand: [Card; 2]) -> (c: HandCategory)
    ensures
        c == classify_hand_spec(hand@),
{
    let a = hand[0].rank.0;
    let b = hand[1].rank.0;
    let (r1, r2) = if a >= b { (a, b) } else { (b, a) };
    let suited = hand[0].suit == hand[1].suit;
    let pair = r1 == r2;
    if pair {
        return match r1 {
            14 | 13 | 12 => HandCategory::Premium,
            11 | 10 => HandCategory::Strong,
            7..=9 => HandCategory::Playable,
            _ => HandCategory::Marginal,
        };
    }
    match (r1, r2, suited) {
        (14, 13, true) => HandCategory::Premium,
        (14, 13, false) => HandCategory::Strong,
        (14, 12, true) => HandCategory::Strong,
        (14, 12, false) => HandCategory::Strong,
        (14, 11, true) => HandCategory::Playable,
        (14, r, true) if r >= 9 => HandCategory::Playable,
        (13, 12, true) => HandCategory::Playable,
        (13, 12, false) => HandCategory::Marginal,
        (r1, r2, true) if r1 >= 9 && r1 - r2 == 1 => HandCategory::Playable,
        (r1, _, _) if r1 <= 9 => HandCategory::Trash,
        _ => HandCategory::Marginal,
    }
}

pub open spec fn category_name_spec(cat: HandCategory) -> Seq<char> {
    match cat {
        HandCategory::Premium => "premium"@,
        HandCategory::Strong => "strong"@,
        HandCategory::Playable => "playable"@,
        HandCategory::Marginal => "marginal"@,
        HandCategory::Trash => "trash"@,
    }
}

pub fn hand_category_name(cat: HandCategory) -> (s: &'static str)
    ensures
        s@ == category_name_spec(cat),
{
    match cat {
        HandCategory::Premium => "premium",
        HandCategory::Strong => "strong",
        HandCategory::Playable => "playable",
        HandCategory::Marginal => "marginal",
        HandCategory::Trash => "trash",
    }
}

/// Convert Suit to array index (0–3) with an explicit match.
pub fn suit_index(s: Suit) -> (i: usize)
    ensures
        i == crate::deck::suit_rank(s),
{
    match s {
        Suit::Clubs => 0,
        Suit::Diamonds => 1,
        Suit::Hearts => 2,
        Suit::Spades => 3,
    }
}

// ---------------------------------------------------------------------------
// Draw classification
// ---------------------------------------------------------------------------

#[derive(Debug, Clone, Copy, PartialEq, Eq, Structural)]
pub enum DrawType {
    ComboDraw,
    FlushDraw,
    OESD,
    GutShot,
}

impl DrawType {
    /// The text that `name` returns.
    pub open spec fn name_text(self) -> Seq<char> {
        match self {
            DrawType::ComboDraw => "combo draw (flush + straight)"@,
            DrawType::FlushDraw => "flush draw"@,
            DrawType::OESD => "open-ended straight draw"@,
            DrawType::GutShot => "gutshot straight draw"@,
        }
    }

    /// Display name of the draw ("flush draw", ...).
    pub fn name(self) -> (s: &'static str)
        ensures
            s@ == self.name_text(),
    {
        match self {
            DrawType::ComboDraw => "combo draw (flush + straight)",
            DrawType::FlushDraw => "flush draw",
            DrawType::OESD => "open-ended straight draw",
            DrawType::GutShot => "gutshot straight draw",
        }
    }
}

pub open spec fn draw_spec(board: Seq<Card>) -> DrawType {
    if flush_draw_spec(board) && straight_draw_spec(board) {
        DrawType::ComboDraw
    } else if flush_draw_spec(board) {
        DrawType::FlushDraw
    } else if straight_draw_spec(board) {
        DrawType::OESD
    } else {
        DrawType::GutShot
    }
}

/// Classify the draw type present on the board.
pub fn classify_draw(board: &[Card]) -> (d: DrawType)
    ensures
        d == draw_spec(board@),
{
    match (has_flush_draw(board), has_straight_draw(board)) {
        (true, true) => DrawType::ComboDraw,
        (true, false) => DrawType::FlushDraw,
        (false, true) => DrawType::OESD,
        _ => DrawType::GutShot,
    }
}

/// On a non-empty board the draw type and the texture tell the same story:
/// combo draw exactly on wet boards, flush draw or open-ender exactly on
/// semi-wet boards with that draw, gutshot exactly on dry boards.
pub proof fn law_draw_agrees_with_texture(board: Seq<Card>)
    requires
        board.len() > 0,
    ensures
        (draw_spec(board) == DrawType::ComboDraw) <==> (texture_spec(board) == BoardTexture::Wet),
        (draw_spec(board) == DrawType::GutShot) <==> (texture_spec(board) == BoardTexture::Dry),
        (draw_spec(board) == DrawType::FlushDraw || draw_spec(board) == DrawType::OESD) <==> (
        texture_spec(board) == BoardTexture::SemiWet),
{
}

/// Approximate flop equity, in percent, for a draw type (2 streets remaining).
pub open spec fn draw_equity_spec(dt: DrawType) -> u32 {
    match dt {
        DrawType::ComboDraw => 54,
        DrawType::FlushDraw => 35,
        DrawType::OESD => 32,
        DrawType::GutShot => 17,
    }
}

/// Approximate flop equity in whole percent for a draw type.
pub fn draw_equity_pct(dt: DrawType) -> (p: u32)
    ensures
        p == draw_equity_spec(dt),
{
    match dt {
        DrawType::ComboDraw => 54,
        DrawType::FlushDraw => 35,
        DrawType::OESD => 32,
        DrawType::GutShot => 17,
    }
}

/// Number of cards of suit `suit`.
pub open spec fn count_suit(s: Seq<Card>, suit: Suit) -> nat
    decreases s.len(),
{
    if s.len() == 0 {
        0
    } else {
        count_suit(s.drop_last(), suit) + if s.last().suit == suit { 1nat } else { 0nat }
    }
}

/// Count the cards of one suit.
pub fn suit_count(board: &[Card], suit: Suit) -> (n: usize)
    ensures
        n == count_suit(board@, suit),
{
    let mut n: usize = 0;
    let mut i: usize = 0;
    while i < board.len()
        invariant
            i <= board@.len(),
            n == count_suit(board@.take(i as int), suit),
            n <= i,
        decreases board@.len() - i,
    {
        proof {
            assert(board@.take(i + 1).drop_last() =~= board@.take(i as int));
        }
        if board[i].suit == suit {
            n += 1;
        }
        i += 1;
    }
    assert(board@.take(board@.len() as int) =~= board@);
    n
}

/// Hero holds a card whose suit appears at least twice on the board.
pub open spec fn hero_flush_draw_spec(hand: Seq<Card>, board: Seq<Card>) -> bool {
    count_suit(board, hand[0].suit) >= 2 || count_suit(board, hand[1].suit) >= 2
}

/// True if hero holds a card matching a suit with 2+ board cards.
pub fn hero_has_flush_draw(hand: [Card; 2], board: &[Card]) -> (b: bool)
    ensures
        b == hero_flush_draw_spec(hand@, board@),
{
    suit_count(board, hand[0].suit) >= 2 || suit_count(board, hand[1].suit) >= 2
}

/// Hero card `h` is within three ranks of board card `b`.
pub open spec fn near(hand: Seq<Card>, board: Seq<Card>, h: int, b: int) -> bool {
    -3 <= hand[h].rank.0 - board[b].rank.0 <= 3
}

/// Some hero card is within three ranks of some board card.
pub open spec fn hero_near_board(hand: Seq<Card>, board: Seq<Card>) -> bool {
    exists|h: int, b: int| 0 <= h < 2 && 0 <= b < board.len() && #[trigger] near(hand, board, h, b)
}

pub open spec fn hero_straight_draw_spec(hand: Seq<Card>, board: Seq<Card>) -> bool {
    straight_draw_spec(board) && hero_near_board(hand, board)
}

/// True if hero participates in a straight draw on the board.
pub fn hero_has_straight_draw(hand: [Card; 2], board: &[Card]) -> (b: bool)
    ensures
        b == hero_straight_draw_spec(hand@, board@),
{
    if !has_straight_draw(board) {
        return false;
    }
    let mut h: usize = 0;
    while h < 2
        invariant
            h <= 2,
            hand@.len() == 2,
            straight_draw_spec(board@),
            forall|x: int, y: int|
                0 <= x < h && 0 <= y < board@.len() ==> !near(hand@, board@, x, y),
        decreases 2 - h,
    {
        let mut b: usize = 0;
        while b < board.len()
            invariant
                h < 2,
                b <= board@.len(),
                hand@.len() == 2,
                straight_draw_spec(board@),
                forall|x: int, y: int|
                    0 <= x < h && 0 <= y < board@.len() ==> !near(hand@, board@, x, y),
                forall|y: int| 0 <= y < b ==> !near(hand@, board@, h as int, y),
            decreases board@.len() - b,
        {
            let hr = hand[h].rank.0;
            let br = board[b].rank.0;
            let diff = if hr > br { hr - br } else { br - hr };
            if diff <= 3 {
                assert(near(hand@, board@, h as int, b as int));
                return true;
            }
            b += 1;
        }
        h += 1;
    }
    false
}

} // verus!
