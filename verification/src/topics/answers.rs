//! Which answer each drill marks correct, stated directly over the draw: the
//! hand category, position, stack, board classes and drawn labels.  Every
//! law takes a scenario that a topic's builder returns for a draw and names
//! the answer that is marked correct (answers are A, B, C, D in order).

use vstd::prelude::*;
use crate::evaluator::{
    close_pair, close_ranks, flush_draw_spec, close4, count_suit, four_close_ranks, classify_hand_spec, draw_spec, hero_flush_draw_spec, hero_straight_draw_spec, texture_spec, BoardTexture,
    DrawType, HandCategory,
};
use crate::models::{Card, Position, TrainingScenario};
use crate::topics::flop::{
    rank_sum, board_favour_spec, cbet_outcome, cr_outcome, interaction_spec, lowest_rank, po_bet, po_outcome, sb_outcome, tb_outcome, BoardFavour, CbetDraw, CheckRaiseDraw,
    FlopStrength, FlopTexture, HandInteraction, PotOddsDraw, SemiBluffDraw, ThreeBetDraw,
};
use crate::topics::preflop::{
    bd_outcome, sq_outcome, BbDefenseDraw, SqueezeDraw, al_outcome, icm_outcome, open_outcome, AntiLimperDraw, IcmDraw, OpenDraw, PreflopSpot, PushTier,
    TournamentStage, push_tier_spec,
};
use crate::topics::river::{
    bluff_outcome, call_outcome, value_outcome, BetSize, BluffDraw, BluffType, CallFoldDraw, CallerStrength,
    ValueDraw, ValueStrength,
};
use crate::topics::turn::{
    barrel_outcome, barrel_turn_of, barrel_turn_spec, delayed_outcome, with_turn, max_rank, probe_outcome, rank_on_board, turn_card_of, turn_strength_spec,
    BarrelDraw, BarrelTurnCard, DelayedDraw, ProbeDraw, ProbeStrength, TurnCard, TurnStrength,
};

verus! {

/// Answer `i` of `r` is the one marked correct.
pub open spec fn marked(r: TrainingScenario, i: int) -> bool {
    r.answers@[i].is_correct
}

/// Preflop decision.  Opening: raise (B) with a premium or strong hand, and
/// from the cutoff or the button also with a playable or marginal one; fold
/// (A) otherwise; limping (C) is never right.  Facing an open: 3-bet (C) a
/// premium or strong hand, and a playable one from the cutoff or button;
/// call (B) a playable hand from other seats; fold (A) marginal hands and
/// trash.  Facing a 3-bet: 4-bet (C) a premium hand, call (B) strong and
/// playable ones, fold (A) the rest.
pub proof fn law_preflop_answers(d: OpenDraw, id: Seq<char>, r: TrainingScenario)
    requires
        open_outcome(d, id, r),
    ensures
        ({
            let c = classify_hand_spec(d.hero_cards@);
            let late = d.hero_pos == Position::CO || d.hero_pos == Position::BTN;
            let big = c == HandCategory::Premium || c == HandCategory::Strong;
            match d.spot {
                PreflopSpot::OpenRaise => {
                    &&& marked(r, 1) <==> (big || (late && (c == HandCategory::Playable
                        || c == HandCategory::Marginal)))
                    &&& marked(r, 0) <==> !(big || (late && (c == HandCategory::Playable
                        || c == HandCategory::Marginal)))
                    &&& !marked(r, 2)
                },
                PreflopSpot::FacingOpen => {
                    &&& marked(r, 2) <==> (big || (late && c == HandCategory::Playable))
                    &&& marked(r, 1) <==> (!late && c == HandCategory::Playable)
                    &&& marked(r, 0) <==> (c == HandCategory::Marginal || c == HandCategory::Trash)
                },
                PreflopSpot::ThreeBetPot => {
                    &&& marked(r, 2) <==> c == HandCategory::Premium
                    &&& marked(r, 1) <==> (c == HandCategory::Strong || c == HandCategory::Playable)
                    &&& marked(r, 0) <==> (c == HandCategory::Marginal || c == HandCategory::Trash)
                },
            }
        }),
{
}

/// In an open-raise spot from the cutoff or the button, only trash folds:
/// every premium, strong, playable or marginal hand raises (B).
pub proof fn law_late_open_raises_all_but_trash(d: OpenDraw, id: Seq<char>, r: TrainingScenario)
    requires
        open_outcome(d, id, r),
        d.spot == PreflopSpot::OpenRaise,
        d.hero_pos == Position::CO || d.hero_pos == Position::BTN,
    ensures
        marked(r, 1) <==> classify_hand_spec(d.hero_cards@) != HandCategory::Trash,
        marked(r, 0) <==> classify_hand_spec(d.hero_cards@) == HandCategory::Trash,
{
    law_preflop_answers(d, id, r);
}

/// Squeeze: squeeze (C) a premium or strong hand, call (B) a playable one,
/// fold (A) a marginal hand or trash.
pub proof fn law_squeeze_answers(d: SqueezeDraw, id: Seq<char>, r: TrainingScenario)
    requires
        sq_outcome(d, id, r),
    ensures
        ({
            let c = classify_hand_spec(d.hero_hand@);
            &&& marked(r, 2) <==> (c == HandCategory::Premium || c == HandCategory::Strong)
            &&& marked(r, 1) <==> c == HandCategory::Playable
            &&& marked(r, 0) <==> (c == HandCategory::Marginal || c == HandCategory::Trash)
        }),
{
}

/// Big blind defense: 3-bet (C) a premium or strong hand, call (B) a
/// playable or marginal one, fold (A) trash.
pub proof fn law_defense_answers(d: BbDefenseDraw, id: Seq<char>, r: TrainingScenario)
    requires
        bd_outcome(d, id, r),
    ensures
        ({
            let c = classify_hand_spec(d.hero_hand@);
            &&& marked(r, 2) <==> (c == HandCategory::Premium || c == HandCategory::Strong)
            &&& marked(r, 1) <==> (c == HandCategory::Playable || c == HandCategory::Marginal)
            &&& marked(r, 0) <==> c == HandCategory::Trash
        }),
{
}

/// The two ranks of a hand are `a` and `b`, in either order.
pub open spec fn ranks_are(hand: Seq<Card>, a: int, b: int) -> bool {
    (hand[0].rank.0 == a && hand[1].rank.0 == b) || (hand[0].rank.0 == b && hand[1].rank.0 == a)
}

/// Both cards of a hand share a suit.
pub open spec fn suited(hand: Seq<Card>) -> bool {
    hand[0].suit == hand[1].suit
}

/// Push tiers by hand: aces, kings, queens and suited ace-king are premium;
/// jacks, tens, offsuit ace-king and any ace-queen are strong; sevens to
/// nines, suited ace-jack and ace-ten, and suited king-queen, king-jack and
/// queen-jack are playable; hands whose higher card is a jack or lower,
/// other than pairs of sevens and up, are weak.
pub proof fn law_push_tiers(hand: Seq<Card>)
    requires
        hand.len() == 2,
    ensures
        ranks_are(hand, 14, 14) || ranks_are(hand, 13, 13) || ranks_are(hand, 12, 12) ==> push_tier_spec(hand)
            == PushTier::Premium,
        ranks_are(hand, 14, 13) && suited(hand) ==> push_tier_spec(hand) == PushTier::Premium,
        ranks_are(hand, 14, 13) && !suited(hand) ==> push_tier_spec(hand) == PushTier::Strong,
        ranks_are(hand, 14, 12) ==> push_tier_spec(hand) == PushTier::Strong,
        ranks_are(hand, 11, 11) || ranks_are(hand, 10, 10) ==> push_tier_spec(hand) == PushTier::Strong,
        ranks_are(hand, 9, 9) || ranks_are(hand, 8, 8) || ranks_are(hand, 7, 7) ==> push_tier_spec(hand)
            == PushTier::Playable,
        (ranks_are(hand, 14, 11) || ranks_are(hand, 14, 10)) && suited(hand) ==> push_tier_spec(hand)
            == PushTier::Playable,
        (ranks_are(hand, 13, 12) || ranks_are(hand, 13, 11) || ranks_are(hand, 12, 11)) && suited(hand)
            ==> push_tier_spec(hand) == PushTier::Playable,
        hand[0].rank.0 <= 11 && hand[1].rank.0 <= 11 && !(hand[0].rank.0 == hand[1].rank.0
            && hand[0].rank.0 >= 7) ==> push_tier_spec(hand) == PushTier::Weak,
{
}

/// Shove limit in big blinds: the stage's base (20 early, 15 in the middle
/// stages, 10 on the bubble, 12 at the final table) plus 8 for a premium
/// hand, 3 for a strong one, nothing for a playable one, less 4 for a weak
/// one.
pub open spec fn shove_limit(stage: TournamentStage, tier: PushTier) -> int {
    let base: int = match stage {
        TournamentStage::EarlyLevels => 20,
        TournamentStage::MiddleStages => 15,
        TournamentStage::Bubble => 10,
        TournamentStage::FinalTable => 12,
    };
    match tier {
        PushTier::Premium => base + 8,
        PushTier::Strong => base + 3,
        PushTier::Playable => base,
        PushTier::Weak => base - 4,
    }
}

/// ICM push or fold: all-in (A) exactly when hero's stack in big blinds is
/// at most the shove limit of the stage and the hand's push tier; fold (B)
/// otherwise.
pub proof fn law_icm_answers(d: IcmDraw, id: Seq<char>, r: TrainingScenario)
    requires
        icm_outcome(d, id, r),
    ensures
        marked(r, 0) <==> d.hero_stack_bb <= shove_limit(d.stage, push_tier_spec(d.hero_hand@)),
        marked(r, 1) <==> d.hero_stack_bb > shove_limit(d.stage, push_tier_spec(d.hero_hand@)),
{
}

/// Anti-limper isolation: iso-raise (C) a premium or strong hand, and a
/// playable one from the cutoff or button; overlimp (B) a playable hand from
/// other seats; fold (A) marginal hands and trash.
pub proof fn law_anti_limper_answers(d: AntiLimperDraw, id: Seq<char>, r: TrainingScenario)
    requires
        al_outcome(d, id, r),
    ensures
        ({
            let c = classify_hand_spec(d.hero_hand@);
            let ip = d.hero_pos == Position::CO || d.hero_pos == Position::BTN;
            &&& marked(r, 2) <==> (c == HandCategory::Premium || c == HandCategory::Strong || (ip && c
                == HandCategory::Playable))
            &&& marked(r, 1) <==> (!ip && c == HandCategory::Playable)
            &&& marked(r, 0) <==> (c == HandCategory::Marginal || c == HandCategory::Trash)
        }),
{
}

/// Continuation bet: on a dry board, bet small (B) with range advantage
/// (hero in the cutoff or on the button and a board card of 8 or lower) and
/// check (A) without it; on a semi-wet or wet board bet large (C); never
/// overbet (D).
pub proof fn law_cbet_answers(d: CbetDraw, id: Seq<char>, r: TrainingScenario)
    requires
        cbet_outcome(d, id, r),
    ensures
        ({
            let dry = texture_spec(d.board@) == BoardTexture::Dry;
            let adv = (d.hero_pos == Position::CO || d.hero_pos == Position::BTN) && lowest_rank(d.board@) <= 8;
            &&& marked(r, 0) <==> (dry && !adv)
            &&& marked(r, 1) <==> (dry && adv)
            &&& marked(r, 2) <==> !dry
            &&& !marked(r, 3)
        }),
{
}

/// Pot odds: call (A) exactly when the draw's equity with two cards to come
/// (flush draw 35%, open-ender 32%, combo draw 54%, gutshot 17%) covers the
/// price, `equity * (pot + bet) >= 100 * bet`; fold (B) otherwise.
pub proof fn law_pot_odds_answers(d: PotOddsDraw, id: Seq<char>, r: TrainingScenario)
    requires
        po_outcome(d, id, r),
    ensures
        ({
            let eq: int = match draw_spec(d.board@) {
                DrawType::FlushDraw => 35,
                DrawType::OESD => 32,
                DrawType::ComboDraw => 54,
                DrawType::GutShot => 17,
            };
            let pot = d.pot_bb * 2;
            &&& marked(r, 0) <==> eq * (pot + po_bet(d)) >= 100 * po_bet(d)
            &&& marked(r, 1) <==> eq * (pot + po_bet(d)) < 100 * po_bet(d)
        }),
{
}

/// Check-raise: raise (C) a strong hand on a board that favours the big
/// blind, or any combo draw; fold (A) a weak hand on a board that favours the
/// raiser; call (B) everything else.
pub proof fn law_check_raise_answers(d: CheckRaiseDraw, id: Seq<char>, r: TrainingScenario)
    requires
        cr_outcome(d, id, r),
    ensures
        ({
            let f = board_favour_spec(d.board@);
            let i = interaction_spec(d.hero_hand@, d.board@);
            let combo = hero_flush_draw_spec(d.hero_hand@, d.board@) && hero_straight_draw_spec(d.hero_hand@, d.board@);
            let raise = (f == BoardFavour::BBFavorable && i == HandInteraction::Strong) || (i
                == HandInteraction::Draw && combo);
            let fold = !raise && f == BoardFavour::IPFavorable && i == HandInteraction::Weak;
            &&& marked(r, 2) <==> raise
            &&& marked(r, 0) <==> fold
            &&& marked(r, 1) <==> (!raise && !fold)
        }),
{
}

/// Semi-bluff: raise (C) a combo draw, or an open-ender with 40 BB or more;
/// call (B) a flush draw or a shorter open-ender; fold (A) a gutshot.
pub proof fn law_semi_bluff_answers(d: SemiBluffDraw, id: Seq<char>, r: TrainingScenario)
    requires
        sb_outcome(d, id, r),
    ensures
        ({
            let dt = draw_spec(d.board@);
            &&& marked(r, 2) <==> (dt == DrawType::ComboDraw || (dt == DrawType::OESD && d.stack_bb >= 40))
            &&& marked(r, 1) <==> (dt == DrawType::FlushDraw || (dt == DrawType::OESD && d.stack_bb < 40))
            &&& marked(r, 0) <==> dt == DrawType::GutShot
        }),
{
}

/// 3-bet pot c-bet: with a strong hand bet small (B) on a dry flop and large
/// (C) on a wet one; check (A) a weak hand.
pub proof fn law_three_bet_cbet_answers(d: ThreeBetDraw, id: Seq<char>, r: TrainingScenario)
    requires
        tb_outcome(d, id, r),
    ensures
        marked(r, 1) <==> (d.texture == FlopTexture::Dry && d.strength == FlopStrength::Strong),
        marked(r, 2) <==> (d.texture == FlopTexture::Wet && d.strength == FlopStrength::Strong),
        marked(r, 0) <==> d.strength == FlopStrength::Weak,
{
}

/// Turn barrel: check (A) when the turn completes a draw, or is a blank
/// after a dry flop; bet large (C) on a broadway scare card; bet medium (B)
/// on a blank after a semi-wet or wet flop.
pub proof fn law_barrel_answers(d: BarrelDraw, id: Seq<char>, r: TrainingScenario)
    requires
        barrel_outcome(d, id, r),
    ensures
        ({
            let tt = barrel_turn_of(d.board@);
            let dry = texture_spec(d.board@.subrange(0, 3)) == BoardTexture::Dry;
            &&& marked(r, 0) <==> (tt == BarrelTurnCard::DrawComplete || (tt == BarrelTurnCard::Blank && dry))
            &&& marked(r, 1) <==> (tt == BarrelTurnCard::Blank && !dry)
            &&& marked(r, 2) <==> tt == BarrelTurnCard::ScareBroadway
        }),
{
}

/// Turn probe: probe large (C) with a strong hand, small (B) with a medium
/// one, check (A) a weak one.
pub proof fn law_probe_answers(d: ProbeDraw, id: Seq<char>, r: TrainingScenario)
    requires
        probe_outcome(d, id, r),
    ensures
        marked(r, 2) <==> d.strength == ProbeStrength::Strong,
        marked(r, 1) <==> d.strength == ProbeStrength::Medium,
        marked(r, 0) <==> d.strength == ProbeStrength::Weak,
{
}

/// Delayed c-bet: bet (C) a strong hand whatever the turn; bet small (B) a
/// medium hand on a blank turn; check (A) a medium hand on a scare card and
/// any weak hand.
pub proof fn law_delayed_cbet_answers(d: DelayedDraw, id: Seq<char>, r: TrainingScenario)
    requires
        delayed_outcome(d, id, r),
    ensures
        ({
            let s = turn_strength_spec(d.hero_hand@, d.board@);
            let t = turn_card_of(d.board@);
            &&& marked(r, 2) <==> s == TurnStrength::Strong
            &&& marked(r, 1) <==> (s == TurnStrength::Medium && t == TurnCard::Blank)
            &&& marked(r, 0) <==> (s == TurnStrength::Weak || (s == TurnStrength::Medium && t == TurnCard::Scare))
        }),
{
}

/// River bluff: bet large (C) with a missed flush draw or bricked overcards
/// when the stack is at least twice the pot; check (A) a capped range or at
/// a stack-to-pot ratio below 2; never bet small (B) or shove (D).
pub proof fn law_bluff_answers(d: BluffDraw, id: Seq<char>, r: TrainingScenario)
    requires
        bluff_outcome(d, id, r),
    ensures
        marked(r, 2) <==> (d.bluff_type != BluffType::CappedRange && d.stack_bb >= 2 * d.pot_bb),
        marked(r, 0) <==> (d.bluff_type == BluffType::CappedRange || d.stack_bb < 2 * d.pot_bb),
        !marked(r, 1),
        !marked(r, 3),
{
}

/// River value bet: overbet (D) the nuts, bet large (C) a strong hand, check
/// (A) a medium one; never bet small (B).
pub proof fn law_value_bet_answers(d: ValueDraw, id: Seq<char>, r: TrainingScenario)
    requires
        value_outcome(d, id, r),
    ensures
        marked(r, 3) <==> d.strength == ValueStrength::Nuts,
        marked(r, 2) <==> d.strength == ValueStrength::Strong,
        marked(r, 0) <==> d.strength == ValueStrength::Medium,
        !marked(r, 1),
{
}

/// River call or fold: raise (C) a strong hand against a small bet, call (B)
/// a marginal hand against a standard bet, fold (A) in every other pairing.
pub proof fn law_call_or_fold_answers(d: CallFoldDraw, id: Seq<char>, r: TrainingScenario)
    requires
        call_outcome(d, id, r),
    ensures
        marked(r, 2) <==> (d.strength == CallerStrength::Strong && d.bet_size == BetSize::Small),
        marked(r, 1) <==> (d.strength == CallerStrength::Marginal && d.bet_size == BetSize::Standard),
        marked(r, 0) <==> !((d.strength == CallerStrength::Strong && d.bet_size == BetSize::Small) || (
        d.strength == CallerStrength::Marginal && d.bet_size == BetSize::Standard)),
{
}

/// Preflop hand categories by rank: aces, kings, queens and suited ace-king
/// are premium; jacks, tens, offsuit ace-king and any ace-queen are strong;
/// sevens to nines, suited ace-jack to ace-nine, suited king-queen and the
/// suited connectors queen-jack down to nine-eight are playable; pairs of
/// sixes and lower, offsuit king-queen and offsuit ace-jack to ace-nine are
/// marginal; unpaired hands whose higher card is a nine or lower (other than
/// suited nine-eight) are trash.
pub proof fn law_hand_categories(hand: Seq<Card>)
    requires
        hand.len() == 2,
    ensures
        ranks_are(hand, 14, 14) || ranks_are(hand, 13, 13) || ranks_are(hand, 12, 12) ==> classify_hand_spec(
            hand,
        ) == HandCategory::Premium,
        ranks_are(hand, 14, 13) && suited(hand) ==> classify_hand_spec(hand) == HandCategory::Premium,
        ranks_are(hand, 11, 11) || ranks_are(hand, 10, 10) ==> classify_hand_spec(hand) == HandCategory::Strong,
        ranks_are(hand, 14, 13) && !suited(hand) ==> classify_hand_spec(hand) == HandCategory::Strong,
        ranks_are(hand, 14, 12) ==> classify_hand_spec(hand) == HandCategory::Strong,
        ranks_are(hand, 9, 9) || ranks_are(hand, 8, 8) || ranks_are(hand, 7, 7) ==> classify_hand_spec(hand)
            == HandCategory::Playable,
        (ranks_are(hand, 14, 11) || ranks_are(hand, 14, 10) || ranks_are(hand, 14, 9)) && suited(hand)
            ==> classify_hand_spec(hand) == HandCategory::Playable,
        (ranks_are(hand, 13, 12) || ranks_are(hand, 12, 11) || ranks_are(hand, 11, 10) || ranks_are(
            hand,
            10,
            9,
        ) || ranks_are(hand, 9, 8)) && suited(hand) ==> classify_hand_spec(hand) == HandCategory::Playable,
        hand[0].rank.0 == hand[1].rank.0 && hand[0].rank.0 <= 6 ==> classify_hand_spec(hand)
            == HandCategory::Marginal,
        ranks_are(hand, 13, 12) && !suited(hand) ==> classify_hand_spec(hand) == HandCategory::Marginal,
        (ranks_are(hand, 14, 11) || ranks_are(hand, 14, 10) || ranks_are(hand, 14, 9)) && !suited(hand)
            ==> classify_hand_spec(hand) == HandCategory::Marginal,
        hand[0].rank.0 != hand[1].rank.0 && hand[0].rank.0 <= 9 && hand[1].rank.0 <= 9 && !(ranks_are(
            hand,
            9,
            8,
        ) && suited(hand)) ==> classify_hand_spec(hand) == HandCategory::Trash,
{
}

/// Some card of `board` has rank `r`.
pub open spec fn board_has(board: Seq<Card>, r: int) -> bool {
    exists|i: int| 0 <= i < board.len() && #[trigger] board[i].rank.0 == r
}

/// No card of `board` ranks above `r`.
pub open spec fn board_at_most(board: Seq<Card>, r: int) -> bool {
    forall|i: int| 0 <= i < board.len() ==> #[trigger] board[i].rank.0 <= r
}

proof fn lemma_max_rank(board: Seq<Card>)
    ensures
        board_at_most(board, max_rank(board)),
        board.len() > 0 ==> board_has(board, max_rank(board)),
    decreases board.len(),
{
    if board.len() > 0 {
        let rest = board.drop_last();
        lemma_max_rank(rest);
        assert forall|i: int| 0 <= i < board.len() implies #[trigger] board[i].rank.0 <= max_rank(board) by {
            if i < board.len() - 1 {
                assert(board[i] == rest[i]);
            }
        }
        if max_rank(board) == board.last().rank.0 as int {
            assert(board[board.len() - 1].rank.0 == max_rank(board));
        } else {
            let j = choose|j: int| 0 <= j < rest.len() && #[trigger] rest[j].rank.0 == max_rank(rest);
            assert(board[j] == rest[j]);
        }
    }
}

/// Turn hand strength by what the board shows.  A pocket pair is strong when
/// the board holds its rank (a set) or nothing above it (an overpair), and
/// medium when it shows neither and a board card is higher.  Two unpaired hole cards that both show
/// on the board are strong.  One hole card pairing the board is strong when
/// nothing on the board is higher and the other card is a jack or better;
/// medium with a lower kicker or under a higher board card.  Hole cards that
/// pair nothing are weak.
pub proof fn law_turn_strengths(hand: Seq<Card>, board: Seq<Card>)
    requires
        hand.len() == 2,
        board.len() > 0,
    ensures
        ({
            let a = hand[0].rank.0 as int;
            let b = hand[1].rank.0 as int;
            let s = turn_strength_spec(hand, board);
            &&& (a == b && board_has(board, a)) ==> s == TurnStrength::Strong
            &&& (a == b && !board_has(board, a) && board_at_most(board, a)) ==> s == TurnStrength::Strong
            &&& (a == b && !board_has(board, a) && !board_at_most(board, a)) ==> s == TurnStrength::Medium
            &&& (a != b && board_has(board, a) && board_has(board, b)) ==> s == TurnStrength::Strong
            &&& (a != b && board_has(board, a) && !board_has(board, b) && board_at_most(board, a) && b >= 11)
                ==> s == TurnStrength::Strong
            &&& (a != b && board_has(board, b) && !board_has(board, a) && board_at_most(board, b) && a >= 11)
                ==> s == TurnStrength::Strong
            &&& (a != b && board_has(board, a) && !board_has(board, b) && (!board_at_most(board, a) || b <= 10))
                ==> s == TurnStrength::Medium
            &&& (a != b && board_has(board, b) && !board_has(board, a) && (!board_at_most(board, b) || a <= 10))
                ==> s == TurnStrength::Medium
            &&& (!board_has(board, a) && !board_has(board, b) && a != b) ==> s == TurnStrength::Weak
        }),
{
    let a = hand[0].rank.0 as int;
    let b = hand[1].rank.0 as int;
    let top = max_rank(board);
    lemma_max_rank(board);
    let t = choose|j: int| 0 <= j < board.len() && #[trigger] board[j].rank.0 == top;
    assert(board[t].rank.0 == top);
    assert(board_has(board, a) == rank_on_board(board, a)) by {
        if board_has(board, a) {
            let j = choose|j: int| 0 <= j < board.len() && #[trigger] board[j].rank.0 == a;
            assert(board[j].rank.0 == a);
        }
    }
    assert(board_has(board, b) == rank_on_board(board, b)) by {
        if board_has(board, b) {
            let j = choose|j: int| 0 <= j < board.len() && #[trigger] board[j].rank.0 == b;
            assert(board[j].rank.0 == b);
        }
    }
    assert(board_at_most(board, a) <==> top <= a) by {
        if !board_at_most(board, a) {
            let j = choose|j: int| 0 <= j < board.len() && !(#[trigger] board[j].rank.0 <= a);
            assert(board[j].rank.0 <= top);
        }
    }
    assert(board_at_most(board, b) <==> top <= b) by {
        if !board_at_most(board, b) {
            let j = choose|j: int| 0 <= j < board.len() && !(#[trigger] board[j].rank.0 <= b);
            assert(board[j].rank.0 <= top);
        }
    }
    assert(!board_has(board, a) ==> top != a);
    assert(!board_has(board, b) ==> top != b);
}

/// The turn card (the fourth board card) against the flop: a turn above
/// every flop card is a scare card, and so is a turn whose suit two flop
/// cards share.  A turn that some flop card matches or outranks, whose suit
/// no flop card has, is a blank when it pairs a board card or when two of the
/// four ranks lie more than four apart.
pub proof fn law_turn_cards(board: Seq<Card>)
    requires
        board.len() == 4,
    ensures
        ({
            let t = board[3];
            let c = turn_card_of(board);
            &&& (forall|i: int| 0 <= i < 3 ==> #[trigger] board[i].rank.0 < t.rank.0) ==> c == TurnCard::Scare
            &&& (exists|i: int, j: int|
                0 <= i < j < 3 && #[trigger] board[i].suit == t.suit && #[trigger] board[j].suit == t.suit)
                ==> c == TurnCard::Scare
            &&& ((exists|i: int| 0 <= i < 3 && #[trigger] board[i].rank.0 >= t.rank.0) && (forall|i: int|
                0 <= i < 3 ==> #[trigger] board[i].suit != t.suit) && ((exists|i: int, j: int|
                0 <= i < j < 4 && #[trigger] board[i].rank.0 == #[trigger] board[j].rank.0) || (exists|
                i: int,
                j: int,
            | 0 <= i < 4 && 0 <= j < 4 && #[trigger] board[i].rank.0 - #[trigger] board[j].rank.0 > 4)))
                ==> c == TurnCard::Blank
        }),
{
    let flop = board.subrange(0, 3);
    let t = board[3];
    let all = with_turn(flop, t);
    assert(all =~= board);
    assert(flop.drop_last() =~= board.subrange(0, 2));
    assert(board.subrange(0, 2).drop_last() =~= board.subrange(0, 1));
    assert(board.subrange(0, 1).drop_last() =~= board.subrange(0, 0));
    reveal_with_fuel(max_rank, 4);
    reveal_with_fuel(count_suit, 4);
    assert(flop[0] == board[0] && flop[1] == board[1] && flop[2] == board[2]);
    lemma_four_close_distinct(board);
}

/// Four cards whose ranks lie within a span of four are four distinct ranks
/// no two of which are more than four apart.
proof fn lemma_four_close_distinct(board: Seq<Card>)
    requires
        board.len() == 4,
    ensures
        four_close_ranks(board) ==> (forall|p: int, q: int| 0 <= p < q < 4 ==> board[p].rank.0 != board[q].rank.0),
        four_close_ranks(board) ==> (forall|p: int, q: int|
            0 <= p < 4 && 0 <= q < 4 ==> board[p].rank.0 - board[q].rank.0 <= 4),
{
    if four_close_ranks(board) {
        let (i, j, k, l) = choose|i: int, j: int, k: int, l: int|
            0 <= i < board.len() && 0 <= j < board.len() && 0 <= k < board.len() && 0 <= l < board.len()
                && #[trigger] close4(board, i, j, k, l);
        assert forall|p: int, q: int| 0 <= p < q < 4 implies board[p].rank.0 != board[q].rank.0 by {
            assert(p == i || p == j || p == k || p == l);
            assert(q == i || q == j || q == k || q == l);
        }
        assert forall|p: int, q: int| 0 <= p < 4 && 0 <= q < 4 implies board[p].rank.0 - board[q].rank.0 <= 4 by {
            assert(p == i || p == j || p == k || p == l);
            assert(q == i || q == j || q == k || q == l);
        }
    }
}

/// Two of the three flop cards share a suit.
pub open spec fn two_suited(b: Seq<Card>) -> bool {
    b[0].suit == b[1].suit || b[0].suit == b[2].suit || b[1].suit == b[2].suit
}

/// Two ranks are one or two apart.
pub open spec fn near_ranks(x: int, y: int) -> bool {
    1 <= x - y <= 2 || 1 <= y - x <= 2
}

/// Two of the three flop ranks are one or two apart.
pub open spec fn connected(b: Seq<Card>) -> bool {
    near_ranks(b[0].rank.0 as int, b[1].rank.0 as int) || near_ranks(b[0].rank.0 as int, b[2].rank.0 as int)
        || near_ranks(b[1].rank.0 as int, b[2].rank.0 as int)
}

/// Flop classes by the three cards.  The board favours the big blind exactly
/// when its ranks add up to 20 or less.  Hero has range advantage material
/// exactly when some flop card is an 8 or lower.  The texture is wet when two
/// cards share a suit and two ranks are one or two apart, dry when neither
/// holds, semi-wet otherwise; the draw is a combo draw, a flush draw, an
/// open-ender or a gutshot by the same two facts.
pub proof fn law_flop_classes(board: Seq<Card>)
    requires
        board.len() == 3,
    ensures
        ({
            let r0 = board[0].rank.0 as int;
            let r1 = board[1].rank.0 as int;
            let r2 = board[2].rank.0 as int;
            let fl = two_suited(board);
            let st = connected(board);
            &&& board_favour_spec(board) == BoardFavour::BBFavorable <==> r0 + r1 + r2 <= 20
            &&& lowest_rank(board) <= 8 <==> (r0 <= 8 || r1 <= 8 || r2 <= 8)
            &&& texture_spec(board) == BoardTexture::Wet <==> (fl && st)
            &&& texture_spec(board) == BoardTexture::Dry <==> (!fl && !st)
            &&& texture_spec(board) == BoardTexture::SemiWet <==> (fl != st)
            &&& draw_spec(board) == DrawType::ComboDraw <==> (fl && st)
            &&& draw_spec(board) == DrawType::FlushDraw <==> (fl && !st)
            &&& draw_spec(board) == DrawType::OESD <==> (!fl && st)
            &&& draw_spec(board) == DrawType::GutShot <==> (!fl && !st)
        }),
{
    assert(board.drop_last() =~= board.subrange(0, 2));
    assert(board.subrange(0, 2).drop_last() =~= board.subrange(0, 1));
    assert(board.subrange(0, 1).drop_last() =~= board.subrange(0, 0));
    reveal_with_fuel(rank_sum, 4);
    reveal_with_fuel(lowest_rank, 4);
    assert(flush_draw_spec(board) <==> two_suited(board)) by {
        if board[0].suit == board[1].suit {
            assert(board[0].suit == board[1].suit);
        }
        if board[0].suit == board[2].suit {
            assert(board[0].suit == board[2].suit);
        }
        if board[1].suit == board[2].suit {
            assert(board[1].suit == board[2].suit);
        }
    }
    assert(close_ranks(board) <==> connected(board)) by {
        if connected(board) {
            assert(close_pair(board, 0, 1) || close_pair(board, 1, 0) || close_pair(board, 0, 2) || close_pair(
                board,
                2,
                0,
            ) || close_pair(board, 1, 2) || close_pair(board, 2, 1));
        }
    }
}

/// The barrel turn card (the fourth board card) against the flop: it
/// completes a draw when two flop cards share its suit; otherwise, when no
/// flop card has its suit and it pairs a board card or two of the four ranks
/// lie more than four apart, it is a broadway scare card from ten up and a
/// blank below ten.
pub proof fn law_barrel_turn_cards(board: Seq<Card>)
    requires
        board.len() == 4,
    ensures
        ({
            let t = board[3];
            let c = barrel_turn_of(board);
            let apart = (exists|i: int, j: int|
                0 <= i < j < 4 && #[trigger] board[i].rank.0 == #[trigger] board[j].rank.0) || (exists|
                i: int,
                j: int,
            | 0 <= i < 4 && 0 <= j < 4 && #[trigger] board[i].rank.0 - #[trigger] board[j].rank.0 > 4);
            let lone = forall|i: int| 0 <= i < 3 ==> #[trigger] board[i].suit != t.suit;
            &&& (exists|i: int, j: int|
                0 <= i < j < 3 && #[trigger] board[i].suit == t.suit && #[trigger] board[j].suit == t.suit)
                ==> c == BarrelTurnCard::DrawComplete
            &&& (lone && apart && t.rank.0 >= 10) ==> c == BarrelTurnCard::ScareBroadway
            &&& (lone && apart && t.rank.0 < 10) ==> c == BarrelTurnCard::Blank
        }),
{
    let flop = board.subrange(0, 3);
    let t = board[3];
    assert(with_turn(flop, t) =~= board);
    assert(flop.drop_last() =~= board.subrange(0, 2));
    assert(board.subrange(0, 2).drop_last() =~= board.subrange(0, 1));
    assert(board.subrange(0, 1).drop_last() =~= board.subrange(0, 0));
    reveal_with_fuel(count_suit, 4);
    assert(flop[0] == board[0] && flop[1] == board[1] && flop[2] == board[2]);
    lemma_four_close_distinct(board);
}

} // verus!
