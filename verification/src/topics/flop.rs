//! Flop topic generators: c-bet, pot odds, check-raise, semi-bluff, 3-bet pot c-bet.
//!
//! All five topics deal a 3-card flop and ask hero what to do.  Board texture
//! (from `evaluator::board_texture`) drives c-bet sizing; draw classification
//! (from `evaluator::classify_draw`) drives pot-odds, semi-bluff and
//! check-raise decisions.  Bet sizes and percentages are computed in exact
//! integer arithmetic, rounded as noted at each place.

use vstd::prelude::*;
use rand::rngs::StdRng;
use crate::evaluator::{
    board_texture, classify_draw, draw_equity_pct, draw_equity_spec, draw_spec, has_flush_draw,
    has_straight_draw, hero_flush_draw_spec, hero_has_flush_draw, hero_has_straight_draw,
    hero_straight_draw_spec, texture_spec, BoardTexture, DrawType,
};
use crate::helpers::{lemma_texts_shown, texts_non_empty, explains, board_chars, hand_chars, shows, Decision, answers_marked, board_str, deal, fresh_cards, hand_str, heads_up_spec, option_at, setup_is};
use crate::models::{
    AnswerOption, Card, DifficultyLevel, GameType, PlayerState, Position, TableSetup, TextStyle,
    TrainingScenario, TrainingTopic,
};
use crate::binary32::{
    lemma_pow2n_add, lemma_pow2n_mono, lemma_scale_above, lemma_scale_at_most, lemma_single_rounded_ge,
    lemma_single_rounded_le, pct_tenths, pct_whole, percent_tenths, percent_whole, pow2_wide, pow2n, scale,
    single_round, single_rounded, single_rounded_spec, single_sig, single_tenths, single_tenths_spec, single_whole,
    single_whole_spec,
};
use crate::rng::{coin_flip, draw_u32, next_u32};
use crate::text::{
    concat_spec, tenths, views_of,
    decimal,
    cat3, concat, div_round_even, div_round_half_up, num, round_div, round_div_even, tenths_text,
};

verus! {

/// Draw description for the Simple text style.
/// Plain-words name of a draw type.
pub open spec fn draw_simple_text(dt: DrawType) -> Seq<char> {
    match dt {
        DrawType::FlushDraw => "flush draw (you need one more card of the same suit to make a flush)"@,
        DrawType::OESD => "straight draw (you can complete a straight on either end)"@,
        DrawType::ComboDraw => "two-way draw (flush or straight possible)"@,
        DrawType::GutShot => "inside straight draw (only one card completes your straight)"@,
    }
}

fn draw_simple_label(dt: DrawType) -> (r: &'static str)
    ensures
        r@ == draw_simple_text(dt),
{
    match dt {
        DrawType::FlushDraw => "flush draw (you need one more card of the same suit to make a flush)",
        DrawType::OESD => "straight draw (you can complete a straight on either end)",
        DrawType::ComboDraw => "two-way draw (flush or straight possible)",
        DrawType::GutShot => "inside straight draw (only one card completes your straight)",
    }
}

/// Pot and stack (in big blinds) of a single-raised flop spot, drawn for a
/// difficulty: the beginner stack is fixed, the pot always random.
pub open spec fn flop_sizes_valid(stack_bb: u32, pot_bb: u32, diff: DifficultyLevel, beginner_stack: u32, lo: u32) -> bool {
    match diff {
        DifficultyLevel::Beginner => stack_bb == beginner_stack && 8 <= pot_bb <= 14,
        DifficultyLevel::Intermediate => lo <= stack_bb <= 130 && 6 <= pot_bb <= 20,
        DifficultyLevel::Advanced => 20 <= stack_bb <= 200 && 4 <= pot_bb <= 30,
    }
}

// ═══════════════════════════════════════════════════════════════════════════════
// T2 — Postflop Continuation Bet (CB-)
// ═══════════════════════════════════════════════════════════════════════════════

/// Everything drawn at random for a c-bet spot.
pub struct CbetDraw {
    pub hero_hand: [Card; 2],
    pub board: Vec<Card>,
    pub stack_bb: u32,
    pub pot_bb: u32,
    pub hero_pos: Position,
}

pub open spec fn cbet_draw_valid(d: CbetDraw, diff: DifficultyLevel) -> bool {
    &&& d.board@.len() == 3
    &&& fresh_cards(d.hero_hand@, d.board@)
    &&& (d.hero_pos == Position::BTN || d.hero_pos == Position::CO)
    &&& flop_sizes_valid(d.stack_bb, d.pot_bb, diff, 100, 60)
}

/// Lowest board rank (14 on an empty board).
pub open spec fn lowest_rank(board: Seq<Card>) -> int
    decreases board.len(),
{
    if board.len() == 0 {
        14
    } else {
        crate::evaluator::min_int(lowest_rank(board.drop_last()), board.last().rank.0 as int)
    }
}

fn lowest_board_rank(board: &[Card]) -> (r: u8)
    ensures
        r == lowest_rank(board@),
{
    let mut r: u8 = 14;
    let mut i: usize = 0;
    while i < board.len()
        invariant
            i <= board@.len(),
            r == lowest_rank(board@.take(i as int)),
        decreases board@.len() - i,
    {
        assert(board@.take(i + 1).drop_last() =~= board@.take(i as int));
        if board[i].rank.0 < r {
            r = board[i].rank.0;
        }
        i += 1;
    }
    assert(board@.take(board@.len() as int) =~= board@);
    r
}

/// Range advantage: hero opened from a late position and the board is low.
pub open spec fn range_adv(hero_pos: Position, board: Seq<Card>) -> bool {
    hero_pos.spec_is_late() && lowest_rank(board) <= 8
}

/// Check (A) on a dry board without range advantage, bet small (B) on a dry
/// board with it, bet large (C) on semi-wet and wet boards; never overbet (D).
pub open spec fn cbet_correct(t: BoardTexture, adv: bool) -> int {
    match t {
        BoardTexture::Dry => if adv { 1 } else { 0 },
        _ => 2,
    }
}

pub open spec fn cbet_branch(t: BoardTexture, adv: bool) -> Seq<char> {
    match t {
        BoardTexture::Dry => if adv { "Dry:RangeAdv"@ } else { "Dry:NoRangeAdv"@ },
        BoardTexture::SemiWet => "SemiWet"@,
        BoardTexture::Wet => "Wet"@,
    }
}

pub open spec fn cbet_decision(d: CbetDraw) -> Decision {
    let t = texture_spec(d.board@);
    let adv = range_adv(d.hero_pos, d.board@);
    let stack = (d.stack_bb * 2) as u32;
    Decision {
        topic: TrainingTopic::PostflopContinuationBet,
        branch: cbet_branch(t, adv),
        game_type: GameType::CashGame,
        hero_pos: d.hero_pos,
        hand: d.hero_hand,
        board: d.board@,
        players: heads_up_spec(d.hero_pos, Position::BB, stack, stack),
        pot: (d.pot_bb * 2) as u32,
        bet: 0,
        answers: 4,
        labels: seq!["Check"@, "Bet small"@, "Bet large"@, "Overbet"@],
        correct: cbet_correct(t, adv),
    }
}

/// Every text of a scenario built from `d` is non-empty: the question, the
/// branch key, and each answer's label and explanation.
#[verifier::spinoff_prover]
#[verifier::rlimit(50)]
pub proof fn lemma_cbet_texts_nonempty(d: CbetDraw, ts: TextStyle)
    ensures
        cbet_question(d, ts).len() > 0,
        cbet_decision(d).branch.len() > 0,
        forall|i: int| 0 <= i < cbet_decision(d).labels.len() ==> #[trigger] cbet_decision(d).labels[i].len() > 0,
        forall|i: int| 0 <= i < cbet_explanations(d, ts).len() ==> #[trigger] cbet_explanations(d, ts)[i].len() > 0,
{
    reveal_strlit(" chips). What do you do?");
    reveal_strlit(" with range advantage, betting is better than checking.");
    reveal_strlit(", applies pressure at low risk, and denies equity to villain's backdoor draws and overcards.");
    reveal_strlit(" board is unnecessarily large. Villain folds hands you beat and calls with hands that have equity, making this sizing -EV on a board where a small bet achieves the same goals.");
    reveal_strlit(" is exploitable. Villain's calling range will have enough equity against an overbet that you cannot profitably use this sizing as a bluff.");
    reveal_strlit(" is correct when you lack clear range advantage. A check allows you to control pot size and reassess on the turn.");
    reveal_strlit(".");
    reveal_strlit(" board without range advantage over-commits with a polarized-looking line when your range may not support the sizing.");
    reveal_strlit(" board without a clear nut advantage is a leak. Reserve overbets for boards where your range is significantly stronger than villain's.");
    reveal_strlit(" you should charge draws with a sizable bet.");
    reveal_strlit(" board is too small — it gives villain correct pot odds to call with flush draws (~35% equity) without paying a premium, diluting your fold equity.");
    reveal_strlit("% required equity vs ~35% actual for flush draw), protects your hand, and maintains fold equity against weak pairs.");
    reveal_strlit(" BB remaining can be used as a polarized bluff, but is generally reserved for the river or specific high-equity situations. On the flop it often folds too much equity and collapses your range.");
    reveal_strlit("Checking gives your opponent a free card. You're in a strong position here — a small bet is the better play.");
    reveal_strlit("Correct. A small bet works well here. The board is dry (no likely draws), so a cheap bet is enough to keep the pressure on and collect chips.");
    reveal_strlit("Betting this big on a dry board is too much. A small bet gets the same job done for less risk.");
    reveal_strlit("Overbetting on a dry board is too aggressive — a small bet achieves the same goal more cheaply.");
    reveal_strlit("Correct. Check here. The board is dry (no likely draws) and you don't have a big advantage. A free card costs you little and lets you see how the hand develops.");
    reveal_strlit("A small bet can work but checking is safer here — you don't have a clear advantage on this board.");
    reveal_strlit("Betting big here over-commits your chips. Check or fold is better when you don't have the advantage.");
    reveal_strlit("Overbetting without an advantage on this board is a big mistake. Check instead.");
    reveal_strlit("Checking here lets your opponent draw to a better hand for free. Bet to make them pay.");
    reveal_strlit("A small bet is too cheap — your opponent can afford to call and try to improve. Bet bigger to make it expensive.");
    reveal_strlit("Correct. Bet big! The board has draws (possible flush or straight). Make your opponent pay a lot to try to beat you.");
    reveal_strlit("An overbet on the first three cards is usually too much too soon. A big bet (75%) already does the job.");
    reveal_strlit("Check");
    reveal_strlit("Bet small");
    reveal_strlit("Bet large");
    reveal_strlit("Overbet");
    reveal_strlit("Dry:RangeAdv");
    reveal_strlit("Dry:NoRangeAdv");
    reveal_strlit("SemiWet");
    reveal_strlit("Wet");
}

/// No text of a scenario built from `d` in text style `ts` is empty.
pub proof fn lemma_cbet_scenario_texts(d: CbetDraw, ts: TextStyle, id: Seq<char>, r: TrainingScenario)
    requires
        cbet_outcome(d, id, r),
        r.question@ == cbet_question(d, ts),
        explains(r, cbet_explanations(d, ts)),
    ensures
        texts_non_empty(r),
{
    lemma_cbet_texts_nonempty(d, ts);
    lemma_texts_shown(r, id, cbet_decision(d), cbet_question(d, ts), cbet_explanations(d, ts));
}

/// The scenario shows `cbet_decision(d)` under `id`.
pub open spec fn cbet_outcome(d: CbetDraw, id: Seq<char>, r: TrainingScenario) -> bool {
    shows(r, id, cbet_decision(d))
}

/// The explanations of the answers of a c-bet scenario, in text style `ts`.
pub open spec fn cbet_explanations(d: CbetDraw, ts: TextStyle) -> Seq<Seq<char>> {
    let texture = texture_spec(d.board@);
    cbet_texts(
        hand_chars(d.hero_hand),
        d.hero_pos.name_text(),
        texture.name_text(),
        board_chars(d.board@),
        texture,
        range_adv(d.hero_pos, d.board@),
        (d.pot_bb * 2) as u32,
        d.stack_bb,
        ts,
    )
}

/// The question of a c-bet scenario in text style `ts`.
pub open spec fn cbet_question(d: CbetDraw, ts: TextStyle) -> Seq<char> {
    let pot = d.pot_bb * 2;
    let stack = d.stack_bb * 2;
    match ts {
        TextStyle::Simple => concat_spec(seq!["You bet before the flop and your opponent checked. You have "@, hand_chars(d.hero_hand), " in "@, d.hero_pos.name_text(), ". The first three cards: "@, board_chars(d.board@), ". Pot: "@, decimal(pot as nat), " chips. Stack: "@, decimal(stack as nat), " chips. Options: check, bet small (~"@, decimal((pot / 3) as nat), " chips), bet big (~"@, decimal((pot * 3 / 4) as nat), " chips), or overbet (~"@, decimal((pot * 5 / 4) as nat), " chips). What do you do?"@]),
        TextStyle::Technical => concat_spec(seq!["You raised preflop and are the aggressor. You hold "@, hand_chars(d.hero_hand), " on "@, d.hero_pos.name_text(), ". The flop comes "@, board_chars(d.board@), " (a "@, texture_spec(d.board@).name_text(), " board). The pot is "@, decimal(pot as nat), " chips ("@, decimal(d.pot_bb as nat), " BB). Your stack is "@, decimal(stack as nat), " chips ("@, decimal(d.stack_bb as nat), " BB). Villain checks to you. Bet options: small (~33% pot = "@, decimal((pot / 3) as nat), " chips), large (~75% pot = "@, decimal((pot * 3 / 4) as nat), " chips), or overbet (~125% pot = "@, decimal((pot * 5 / 4) as nat), " chips). What do you do?"@]),
    }
}

/// T2 — Postflop Continuation Bet (CB-).
///
/// RNG order: shuffled deck → hand and flop → stack/pot → hero position.
pub fn generate_cbet(rng: &mut StdRng, difficulty: DifficultyLevel, scenario_id: String, text_style: TextStyle) -> (r:
    TrainingScenario)
    ensures
        exists|d: CbetDraw|
            cbet_draw_valid(d, difficulty) && #[trigger] cbet_outcome(d, scenario_id@, r) && r.question@
                == cbet_question(d, text_style) && explains(r, cbet_explanations(d, text_style)),
{
    let (hero_hand, board) = deal(rng, 3);
    let (stack_bb, pot_bb) = match difficulty {
        DifficultyLevel::Beginner => (100u32, draw_u32(rng, 8, 14)),
        DifficultyLevel::Intermediate => {
            let s = draw_u32(rng, 60, 130);
            let p = draw_u32(rng, 6, 20);
            (s, p)
        },
        DifficultyLevel::Advanced => {
            let s = draw_u32(rng, 20, 200);
            let p = draw_u32(rng, 4, 30);
            (s, p)
        },
    };
    let hero_pos = if coin_flip(rng) { Position::BTN } else { Position::CO };
    let d = CbetDraw { hero_hand, board, stack_bb, pot_bb, hero_pos };
    let r = build_cbet(&d, scenario_id, text_style);
    assert(cbet_draw_valid(d, difficulty));
    r
}

/// Build the c-bet scenario for draw `d`.
#[verifier::spinoff_prover]
#[verifier::rlimit(50)]
pub fn build_cbet(d: &CbetDraw, scenario_id: String, text_style: TextStyle) -> (r: TrainingScenario)
    requires
        d.stack_bb <= 200,
        4 <= d.pot_bb <= 30,
    ensures
        cbet_outcome(*d, scenario_id@, r),
        r.question@ == cbet_question(*d, text_style),
        explains(r, cbet_explanations(*d, text_style)),
{
    let hero_hand = d.hero_hand;
    let stack_bb = d.stack_bb;
    let pot_bb = d.pot_bb;
    let hero_pos = d.hero_pos;
    let texture = board_texture(d.board.as_slice());

    let bb = 2u32;
    let pot = pot_bb * bb;
    let stack = stack_bb * bb;

    let players = vec![
        PlayerState { seat: 1, position: Position::BB, stack, is_hero: false, is_active: true },
        PlayerState { seat: 2, position: hero_pos, stack, is_hero: true, is_active: true },
    ];

    // Range advantage flag (simplified: hero has range adv from late pos on low boards)
    let lowest_rank = lowest_board_rank(d.board.as_slice());
    let hero_has_range_adv = hero_pos.is_late() && lowest_rank <= 8;

    let board_s = board_str(d.board.as_slice());
    let hand_s = hand_str(hero_hand);
    let pos_str = hero_pos.name();
    let texture_str = texture.name();

    let branch_key = match texture {
        BoardTexture::Dry => if hero_has_range_adv { "Dry:RangeAdv".to_owned() } else { "Dry:NoRangeAdv".to_owned() },
        BoardTexture::SemiWet => "SemiWet".to_owned(),
        BoardTexture::Wet => "Wet".to_owned(),
    };

    let question = match text_style {
        TextStyle::Simple => {
            let qs0 = num(pot as u64);
            let qs1 = num(stack as u64);
            let qs2 = num((pot / 3) as u64);
            let qs3 = num((pot * 3 / 4) as u64);
            let qs4 = num((pot * 5 / 4) as u64);
            let parts = ["You bet before the flop and your opponent checked. You have ", hand_s.as_str(), " in ", pos_str, ". The first three cards: ", board_s.as_str(), ". Pot: ", qs0.as_str(), " chips. Stack: ", qs1.as_str(), " chips. Options: check, bet small (~", qs2.as_str(), " chips), bet big (~", qs3.as_str(), " chips), or overbet (~", qs4.as_str(), " chips). What do you do?"];
            proof {
                assert(views_of(parts@) =~= seq!["You bet before the flop and your opponent checked. You have "@, hand_s@, " in "@, pos_str@, ". The first three cards: "@, board_s@, ". Pot: "@, qs0@, " chips. Stack: "@, qs1@, " chips. Options: check, bet small (~"@, qs2@, " chips), bet big (~"@, qs3@, " chips), or overbet (~"@, qs4@, " chips). What do you do?"@]);
            }
            concat(&parts)
        },
        TextStyle::Technical => {
            let qt0 = num(pot as u64);
            let qt1 = num(pot_bb as u64);
            let qt2 = num(stack as u64);
            let qt3 = num(stack_bb as u64);
            let qt4 = num((pot / 3) as u64);
            let qt5 = num((pot * 3 / 4) as u64);
            let qt6 = num((pot * 5 / 4) as u64);
            let parts = ["You raised preflop and are the aggressor. You hold ", hand_s.as_str(), " on ", pos_str, ". The flop comes ", board_s.as_str(), " (a ", texture_str, " board). The pot is ", qt0.as_str(), " chips (", qt1.as_str(), " BB). Your stack is ", qt2.as_str(), " chips (", qt3.as_str(), " BB). Villain checks to you. Bet options: small (~33% pot = ", qt4.as_str(), " chips), large (~75% pot = ", qt5.as_str(), " chips), or overbet (~125% pot = ", qt6.as_str(), " chips). What do you do?"];
            proof {
                assert(views_of(parts@) =~= seq!["You raised preflop and are the aggressor. You hold "@, hand_s@, " on "@, pos_str@, ". The flop comes "@, board_s@, " (a "@, texture_str@, " board). The pot is "@, qt0@, " chips ("@, qt1@, " BB). Your stack is "@, qt2@, " chips ("@, qt3@, " BB). Villain checks to you. Bet options: small (~33% pot = "@, qt4@, " chips), large (~75% pot = "@, qt5@, " chips), or overbet (~125% pot = "@, qt6@, " chips). What do you do?"@]);
            }
            concat(&parts)
        },
    };

    let answers = build_cbet_answers(
        hand_s.as_str(), pos_str, texture_str, board_s.as_str(),
        texture, hero_has_range_adv, pot, stack_bb,
        text_style,
    );

    let table_setup = TableSetup {
        game_type: GameType::CashGame,
        hero_position: hero_pos,
        hero_hand,
        board: d.board.clone(),
        players,
        pot_size: pot,
        current_bet: 0,
    };

    TrainingScenario {
        scenario_id,
        topic: TrainingTopic::PostflopContinuationBet,
        branch_key,
        table_setup,
        question,
        answers,
    }
}

/// The explanations of the four c-bet answers (check, small, large,
/// overbet) in text style `ts`.
pub open spec fn cbet_texts(
    hand_str: Seq<char>,
    pos_str: Seq<char>,
    texture_str: Seq<char>,
    board_str: Seq<char>,
    texture: BoardTexture,
    hero_range_adv: bool,
    pot: u32,
    stack_bb: u32,
    ts: TextStyle,
) -> Seq<Seq<char>> {
    let charge = pot * 3 / 4;
    let charge_pct = pct_whole(charge as nat, (pot + charge) as nat);
    let (correct_id, check_rationale, small_rationale, large_rationale, overbet_rationale) =
        match texture {
            BoardTexture::Dry => if hero_range_adv { (
                1usize,
                match ts {
                    TextStyle::Simple => "Checking gives your opponent a free card. You're in a strong position here — a small bet is the better play."@,
                    TextStyle::Technical => concat_spec(seq!["Checking with "@, hand_str, " on a "@, texture_str, " board ("@, board_str, ") sacrifices fold equity and gives villain a free card. From "@, pos_str, " with range advantage, betting is better than checking."@]),
                },
                match ts {
                    TextStyle::Simple => "Correct. A small bet works well here. The board is dry (no likely draws), so a cheap bet is enough to keep the pressure on and collect chips."@,
                    TextStyle::Technical => concat_spec(seq!["A 33% pot c-bet on a "@, texture_str, " board is correct here. It exploits your range advantage from "@, pos_str, ", applies pressure at low risk, and denies equity to villain's backdoor draws and overcards."@]),
                },
                match ts {
                    TextStyle::Simple => "Betting this big on a dry board is too much. A small bet gets the same job done for less risk."@,
                    TextStyle::Technical => concat_spec(seq!["A 75% pot sizing on a "@, texture_str, " board is unnecessarily large. Villain folds hands you beat and calls with hands that have equity, making this sizing -EV on a board where a small bet achieves the same goals."@]),
                },
                match ts {
                    TextStyle::Simple => "Overbetting on a dry board is too aggressive — a small bet achieves the same goal more cheaply."@,
                    TextStyle::Technical => concat_spec(seq!["An overbet on a "@, texture_str, " board from "@, pos_str, " is exploitable. Villain's calling range will have enough equity against an overbet that you cannot profitably use this sizing as a bluff."@]),
                },
            ) } else { (
                0usize,
                match ts {
                    TextStyle::Simple => "Correct. Check here. The board is dry (no likely draws) and you don't have a big advantage. A free card costs you little and lets you see how the hand develops."@,
                    TextStyle::Technical => concat_spec(seq!["Checking with "@, hand_str, " on a "@, texture_str, " board ("@, board_str, ") from "@, pos_str, " is correct when you lack clear range advantage. A check allows you to control pot size and reassess on the turn."@]),
                },
                match ts {
                    TextStyle::Simple => "A small bet can work but checking is safer here — you don't have a clear advantage on this board."@,
                    TextStyle::Technical => concat_spec(seq!["A small c-bet can work here but without range advantage you may be building a pot when your range is symmetric with villain's. Checking back and re-evaluating is higher EV from "@, pos_str, "."@]),
                },
                match ts {
                    TextStyle::Simple => "Betting big here over-commits your chips. Check or fold is better when you don't have the advantage."@,
                    TextStyle::Technical => concat_spec(seq!["A 75% pot c-bet on a "@, texture_str, " board without range advantage over-commits with a polarized-looking line when your range may not support the sizing."@]),
                },
                match ts {
                    TextStyle::Simple => "Overbetting without an advantage on this board is a big mistake. Check instead."@,
                    TextStyle::Technical => concat_spec(seq!["Overbetting a "@, texture_str, " board without a clear nut advantage is a leak. Reserve overbets for boards where your range is significantly stronger than villain's."@]),
                },
            ) },
            BoardTexture::SemiWet | BoardTexture::Wet => (
                2usize,
                match ts {
                    TextStyle::Simple => "Checking here lets your opponent draw to a better hand for free. Bet to make them pay."@,
                    TextStyle::Technical => concat_spec(seq!["Checking on a "@, texture_str, " board ("@, board_str, ") surrenders too much equity and gives villain free cards with flush/straight draws. From "@, pos_str, " you should charge draws with a sizable bet."@]),
                },
                match ts {
                    TextStyle::Simple => "A small bet is too cheap — your opponent can afford to call and try to improve. Bet bigger to make it expensive."@,
                    TextStyle::Technical => concat_spec(seq!["A 33% pot bet on a "@, texture_str, " board is too small — it gives villain correct pot odds to call with flush draws (~35% equity) without paying a premium, diluting your fold equity."@]),
                },
                match ts {
                    TextStyle::Simple => "Correct. Bet big! The board has draws (possible flush or straight). Make your opponent pay a lot to try to beat you."@,
                    TextStyle::Technical => concat_spec(seq!["A 75% pot c-bet on a "@, texture_str, " board is correct. It charges draws incorrect pot odds ("@, decimal(((charge_pct)) as nat), "% required equity vs ~35% actual for flush draw), protects your hand, and maintains fold equity against weak pairs."@]),
                },
                match ts {
                    TextStyle::Simple => "An overbet on the first three cards is usually too much too soon. A big bet (75%) already does the job."@,
                    TextStyle::Technical => concat_spec(seq!["An overbet on a "@, texture_str, " board with "@, decimal((stack_bb) as nat), " BB remaining can be used as a polarized bluff, but is generally reserved for the river or specific high-equity situations. On the flop it often folds too much equity and collapses your range."@]),
                },
            ),
        };
    seq![check_rationale, small_rationale, large_rationale, overbet_rationale]
}

fn build_cbet_answers(
    hand_str: &str,
    pos_str: &str,
    texture_str: &str,
    board_str: &str,
    texture: BoardTexture,
    hero_range_adv: bool,
    pot: u32,
    stack_bb: u32,
    text_style: TextStyle,
) -> (v: Vec<AnswerOption>)
    requires
        8 <= pot <= 60,
    ensures
        answers_marked(v@, 4, cbet_correct(texture, hero_range_adv)),
        forall|i: int| 0 <= i < 4 ==> (#[trigger] v@[i]).text@ == seq!["Check"@, "Bet small"@, "Bet large"@, "Overbet"@][i],
        forall|i: int|
            0 <= i < 4 ==> (#[trigger] v@[i]).explanation@ == cbet_texts(
                hand_str@,
                pos_str@,
                texture_str@,
                board_str@,
                texture,
                hero_range_adv,
                pot,
                stack_bb,
                text_style,
            )[i],
{
    // Required equity against a 75% pot bet (bet truncated to whole chips),
    // in whole percent as single precision computes it.
    let charge = pot * 3 / 4;
    let charge_pct = percent_whole(charge as u64, (pot + charge) as u64);
    // On dry boards with range advantage, 33% is often optimal.
    // On wet boards, larger sizing or check is better.
    let (correct_id, check_rationale, small_rationale, large_rationale, overbet_rationale) =
        match texture {
            BoardTexture::Dry => if hero_range_adv { (
                1usize,
                match text_style {
                    TextStyle::Simple => "Checking gives your opponent a free card. You're in a strong position here — a small bet is the better play.".to_owned(),
                    TextStyle::Technical => {  let parts = ["Checking with ", hand_str, " on a ", texture_str, " board (", board_str, ") sacrifices fold equity and gives villain a free card. From ", pos_str, " with range advantage, betting is better than checking."]; proof { assert(views_of(parts@) =~= seq!["Checking with "@, hand_str@, " on a "@, texture_str@, " board ("@, board_str@, ") sacrifices fold equity and gives villain a free card. From "@, pos_str@, " with range advantage, betting is better than checking."@]); } concat(&parts) },
                },
                match text_style {
                    TextStyle::Simple => "Correct. A small bet works well here. The board is dry (no likely draws), so a cheap bet is enough to keep the pressure on and collect chips.".to_owned(),
                    TextStyle::Technical => {  let parts = ["A 33% pot c-bet on a ", texture_str, " board is correct here. It exploits your range advantage from ", pos_str, ", applies pressure at low risk, and denies equity to villain's backdoor draws and overcards."]; proof { assert(views_of(parts@) =~= seq!["A 33% pot c-bet on a "@, texture_str@, " board is correct here. It exploits your range advantage from "@, pos_str@, ", applies pressure at low risk, and denies equity to villain's backdoor draws and overcards."@]); } concat(&parts) },
                },
                match text_style {
                    TextStyle::Simple => "Betting this big on a dry board is too much. A small bet gets the same job done for less risk.".to_owned(),
                    TextStyle::Technical => {  let parts = ["A 75% pot sizing on a ", texture_str, " board is unnecessarily large. Villain folds hands you beat and calls with hands that have equity, making this sizing -EV on a board where a small bet achieves the same goals."]; proof { assert(views_of(parts@) =~= seq!["A 75% pot sizing on a "@, texture_str@, " board is unnecessarily large. Villain folds hands you beat and calls with hands that have equity, making this sizing -EV on a board where a small bet achieves the same goals."@]); } concat(&parts) },
                },
                match text_style {
                    TextStyle::Simple => "Overbetting on a dry board is too aggressive — a small bet achieves the same goal more cheaply.".to_owned(),
                    TextStyle::Technical => {  let parts = ["An overbet on a ", texture_str, " board from ", pos_str, " is exploitable. Villain's calling range will have enough equity against an overbet that you cannot profitably use this sizing as a bluff."]; proof { assert(views_of(parts@) =~= seq!["An overbet on a "@, texture_str@, " board from "@, pos_str@, " is exploitable. Villain's calling range will have enough equity against an overbet that you cannot profitably use this sizing as a bluff."@]); } concat(&parts) },
                },
            ) } else { (
                0usize,
                match text_style {
                    TextStyle::Simple => "Correct. Check here. The board is dry (no likely draws) and you don't have a big advantage. A free card costs you little and lets you see how the hand develops.".to_owned(),
                    TextStyle::Technical => {  let parts = ["Checking with ", hand_str, " on a ", texture_str, " board (", board_str, ") from ", pos_str, " is correct when you lack clear range advantage. A check allows you to control pot size and reassess on the turn."]; proof { assert(views_of(parts@) =~= seq!["Checking with "@, hand_str@, " on a "@, texture_str@, " board ("@, board_str@, ") from "@, pos_str@, " is correct when you lack clear range advantage. A check allows you to control pot size and reassess on the turn."@]); } concat(&parts) },
                },
                match text_style {
                    TextStyle::Simple => "A small bet can work but checking is safer here — you don't have a clear advantage on this board.".to_owned(),
                    TextStyle::Technical => {  let parts = ["A small c-bet can work here but without range advantage you may be building a pot when your range is symmetric with villain's. Checking back and re-evaluating is higher EV from ", pos_str, "."]; proof { assert(views_of(parts@) =~= seq!["A small c-bet can work here but without range advantage you may be building a pot when your range is symmetric with villain's. Checking back and re-evaluating is higher EV from "@, pos_str@, "."@]); } concat(&parts) },
                },
                match text_style {
                    TextStyle::Simple => "Betting big here over-commits your chips. Check or fold is better when you don't have the advantage.".to_owned(),
                    TextStyle::Technical => {  let parts = ["A 75% pot c-bet on a ", texture_str, " board without range advantage over-commits with a polarized-looking line when your range may not support the sizing."]; proof { assert(views_of(parts@) =~= seq!["A 75% pot c-bet on a "@, texture_str@, " board without range advantage over-commits with a polarized-looking line when your range may not support the sizing."@]); } concat(&parts) },
                },
                match text_style {
                    TextStyle::Simple => "Overbetting without an advantage on this board is a big mistake. Check instead.".to_owned(),
                    TextStyle::Technical => {  let parts = ["Overbetting a ", texture_str, " board without a clear nut advantage is a leak. Reserve overbets for boards where your range is significantly stronger than villain's."]; proof { assert(views_of(parts@) =~= seq!["Overbetting a "@, texture_str@, " board without a clear nut advantage is a leak. Reserve overbets for boards where your range is significantly stronger than villain's."@]); } concat(&parts) },
                },
            ) },
            BoardTexture::SemiWet | BoardTexture::Wet => (
                2usize,
                match text_style {
                    TextStyle::Simple => "Checking here lets your opponent draw to a better hand for free. Bet to make them pay.".to_owned(),
                    TextStyle::Technical => {  let parts = ["Checking on a ", texture_str, " board (", board_str, ") surrenders too much equity and gives villain free cards with flush/straight draws. From ", pos_str, " you should charge draws with a sizable bet."]; proof { assert(views_of(parts@) =~= seq!["Checking on a "@, texture_str@, " board ("@, board_str@, ") surrenders too much equity and gives villain free cards with flush/straight draws. From "@, pos_str@, " you should charge draws with a sizable bet."@]); } concat(&parts) },
                },
                match text_style {
                    TextStyle::Simple => "A small bet is too cheap — your opponent can afford to call and try to improve. Bet bigger to make it expensive.".to_owned(),
                    TextStyle::Technical => {  let parts = ["A 33% pot bet on a ", texture_str, " board is too small — it gives villain correct pot odds to call with flush draws (~35% equity) without paying a premium, diluting your fold equity."]; proof { assert(views_of(parts@) =~= seq!["A 33% pot bet on a "@, texture_str@, " board is too small — it gives villain correct pot odds to call with flush draws (~35% equity) without paying a premium, diluting your fold equity."@]); } concat(&parts) },
                },
                match text_style {
                    TextStyle::Simple => "Correct. Bet big! The board has draws (possible flush or straight). Make your opponent pay a lot to try to beat you.".to_owned(),
                    TextStyle::Technical => { let t1 = num((charge_pct) as u64); let parts = ["A 75% pot c-bet on a ", texture_str, " board is correct. It charges draws incorrect pot odds (", t1.as_str(), "% required equity vs ~35% actual for flush draw), protects your hand, and maintains fold equity against weak pairs."]; proof { assert(views_of(parts@) =~= seq!["A 75% pot c-bet on a "@, texture_str@, " board is correct. It charges draws incorrect pot odds ("@, t1@, "% required equity vs ~35% actual for flush draw), protects your hand, and maintains fold equity against weak pairs."@]); } concat(&parts) },
                },
                match text_style {
                    TextStyle::Simple => "An overbet on the first three cards is usually too much too soon. A big bet (75%) already does the job.".to_owned(),
                    TextStyle::Technical => { let t2 = num(stack_bb as u64); let parts = ["An overbet on a ", texture_str, " board with ", t2.as_str(), " BB remaining can be used as a polarized bluff, but is generally reserved for the river or specific high-equity situations. On the flop it often folds too much equity and collapses your range."]; proof { assert(views_of(parts@) =~= seq!["An overbet on a "@, texture_str@, " board with "@, t2@, " BB remaining can be used as a polarized bluff, but is generally reserved for the river or specific high-equity situations. On the flop it often folds too much equity and collapses your range."@]); } concat(&parts) },
                },
            ),
        };

    let correct: usize = correct_id;
    vec![
        option_at(0, "Check".to_owned(), correct, check_rationale),
        option_at(1, "Bet small".to_owned(), correct, small_rationale),
        option_at(2, "Bet large".to_owned(), correct, large_rationale),
        option_at(3, "Overbet".to_owned(), correct, overbet_rationale),
    ]
}

// ═══════════════════════════════════════════════════════════════════════════════
// T3 — Pot Odds & Equity (PO-)
// ═══════════════════════════════════════════════════════════════════════════════

/// Hero's draw equity in whole percent with 1 or 2 streets to come.
pub open spec fn pot_odds_equity_spec(draw: DrawType, streets: u8) -> u32 {
    match draw {
        DrawType::FlushDraw => if streets == 2 { 35 } else if streets == 1 { 20 } else { 0 },
        DrawType::OESD => if streets == 2 { 32 } else if streets == 1 { 17 } else { 0 },
        DrawType::ComboDraw => if streets == 2 { 54 } else if streets == 1 { 30 } else { 0 },
        DrawType::GutShot => if streets == 2 { 17 } else { 9 },
    }
}

/// Compute hero draw equity (whole percent) for pot-odds decisions.
fn pot_odds_equity(draw: DrawType, streets: u8) -> (p: u32)
    ensures
        p == pot_odds_equity_spec(draw, streets),
{
    match draw {
        DrawType::FlushDraw => if streets == 2 { 35 } else if streets == 1 { 20 } else { 0 },
        DrawType::OESD => if streets == 2 { 32 } else if streets == 1 { 17 } else { 0 },
        DrawType::ComboDraw => if streets == 2 { 54 } else if streets == 1 { 30 } else { 0 },
        DrawType::GutShot => if streets == 2 { 17 } else { 9 },
    }
}

/// Denominator of a drawn bet fraction.  The fraction is a single-precision
/// value of at least 1/4, and every such value is a whole multiple of 2^-25.
pub open spec fn frac_den() -> int {
    0x200_0000
}

/// Everything drawn at random for a pot-odds spot.  The villain's bet is
/// `bet_frac / frac_den()` of the pot.
pub struct PotOddsDraw {
    pub hero_hand: [Card; 2],
    pub board: Vec<Card>,
    pub pot_bb: u32,
    pub bet_frac: u64,
}

/// `lo + g * s` as single precision computes it, with `g = u / 2^24` the
/// drawn `f32` in `[0, 1)`, `lo = lo_m / 2^25` and `s = s_m / 2^s_k`: the
/// product `g * s` is rounded, then the sum.  The result is given as a
/// multiple of 2^-25.
pub open spec fn frac32(lo_m: nat, s_m: nat, s_k: nat, u: nat) -> nat {
    if u == 0 {
        lo_m
    } else {
        let ta = u * s_m;
        let tb = pow2n(24 + s_k);
        let tk = scale(ta, tb);
        let kk = if tk > 25 { tk } else { 25 };
        let num = lo_m * pow2n((kk - 25) as nat) + single_sig(ta, tb) * pow2n((kk - tk) as nat);
        let bk = scale(num, pow2n(kk));
        single_sig(num, pow2n(kk)) * pow2n((25 - bk) as nat)
    }
}

/// `f` is `lo + g * s` for some drawn `g`.
pub open spec fn frac_in(f: u64, lo_m: nat, s_m: nat, s_k: nat) -> bool {
    exists|u: nat| u < 0x100_0000 && f == #[trigger] frac32(lo_m, s_m, s_k, u)
}

/// `0.33` as `f32` (a multiple of 2^-25).
pub open spec fn lo33() -> nat {
    11072963
}

/// `1.0 - 0.33` in `f32`: 11240734 / 2^24.
pub open spec fn span33() -> nat {
    11240734
}

/// `1.5 - 0.25` in `f32`: 10485760 / 2^23.
pub open spec fn span125() -> nat {
    10485760
}

pub open spec fn po_draw_valid(d: PotOddsDraw, diff: DifficultyLevel) -> bool {
    &&& d.board@.len() == 3
    &&& fresh_cards(d.hero_hand@, d.board@)
    &&& match diff {
        DifficultyLevel::Beginner => 8 <= d.pot_bb <= 12 && d.bet_frac == 0x100_0000,
        DifficultyLevel::Intermediate => 6 <= d.pot_bb <= 20 && frac_in(d.bet_frac, lo33(), span33(), 24),
        DifficultyLevel::Advanced => 4 <= d.pot_bb <= 30 && frac_in(d.bet_frac, 0x80_0000, span125(), 23),
    }
    &&& 0x80_0000 <= d.bet_frac <= 0x1000_0000
}

/// The villain's bet: the pot times the drawn fraction in single precision,
/// rounded half away from zero.
pub open spec fn po_bet(d: PotOddsDraw) -> int {
    single_rounded_spec((d.pot_bb * 2 * d.bet_frac) as nat, 0x200_0000) as int
}

/// The bet shown as a percentage of the pot: the drawn fraction times 100 in
/// single precision, with no decimal.
pub open spec fn po_pct_shown(d: PotOddsDraw) -> nat {
    single_whole_spec((100 * d.bet_frac) as nat, 0x200_0000)
}

/// Every drawn pot-odds spot has a villain bet of at least two chips.
pub proof fn lemma_po_bet_at_least_two(d: PotOddsDraw, diff: DifficultyLevel)
    requires
        po_draw_valid(d, diff),
    ensures
        po_bet(d) >= 2,
{
    let n = d.pot_bb * 2 * d.bet_frac;
    assert(n >= 2 * 0x200_0000) by (nonlinear_arith)
        requires
            d.pot_bb >= 4,
            d.bet_frac >= 0x80_0000,
            n == d.pot_bb * 2 * d.bet_frac,
    ;
    lemma_single_rounded_ge(n as nat, 0x200_0000, 2);
}

/// Calling is right when the draw's equity covers the price:
/// `equity >= bet / (pot + bet)`.
pub open spec fn po_should_call(d: PotOddsDraw) -> bool {
    let pot = d.pot_bb * 2;
    pot_odds_equity_spec(draw_spec(d.board@), 2) * (pot + po_bet(d)) >= 100 * po_bet(d)
}

pub open spec fn draw_key(dt: DrawType) -> Seq<char> {
    match dt {
        DrawType::FlushDraw => "FlushDraw"@,
        DrawType::OESD => "OESD"@,
        DrawType::ComboDraw => "ComboDraw"@,
        DrawType::GutShot => "GutShot"@,
    }
}

pub open spec fn po_decision(d: PotOddsDraw) -> Decision {
    Decision {
        topic: TrainingTopic::PotOddsAndEquity,
        branch: draw_key(draw_spec(d.board@)) + ":"@ + if po_should_call(d) { "Call"@ } else { "Fold"@ },
        game_type: GameType::CashGame,
        hero_pos: Position::BB,
        hand: d.hero_hand,
        board: d.board@,
        players: heads_up_spec(Position::BB, Position::BTN, 200, 200),
        pot: (d.pot_bb * 2) as u32,
        bet: po_bet(d) as u32,
        answers: 2,
        labels: seq!["Call"@, "Fold"@],
        correct: if po_should_call(d) { 0 } else { 1 },
    }
}

/// Every text of a scenario built from `d` is non-empty: the question, the
/// branch key, and each answer's label and explanation.
#[verifier::spinoff_prover]
#[verifier::rlimit(50)]
pub proof fn lemma_po_texts_nonempty(d: PotOddsDraw, ts: TextStyle)
    ensures
        po_question(d, ts).len() > 0,
        po_decision(d).branch.len() > 0,
        forall|i: int| 0 <= i < po_decision(d).labels.len() ==> #[trigger] po_decision(d).labels[i].len() > 0,
        forall|i: int| 0 <= i < po_explanations(d, ts).len() ==> #[trigger] po_explanations(d, ts)[i].len() > 0,
{
    reveal_strlit(" chips. Do you call or fold?");
    reveal_strlit("% of pot). Do you call or fold?");
    reveal_strlit("% roughly), and the price to call is fair. You'll win enough when you hit to make this worthwhile.");
    reveal_strlit(") doesn't have a good enough chance of improving to make this call worth the price.");
    reveal_strlit(" correct here.");
    reveal_strlit("% of the time, and the price to call is too high for those odds. Save your chips.");
    reveal_strlit(" correct.");
    reveal_strlit("Your equity EXCEEDS the required equity.");
    reveal_strlit("Your equity is BELOW the required equity.");
    reveal_strlit("IS");
    reveal_strlit("is NOT");
    reveal_strlit("Folding is wrong here — your hand has a good enough chance of improving to make this call worth it.");
    reveal_strlit("Since your equity is below the break-even threshold, folding preserves chips.");
    reveal_strlit("However, folding here discards positive expected value since your draw \
                 exceeds the required equity.");
    reveal_strlit(":");
    reveal_strlit("Call");
    reveal_strlit("Fold");
    reveal_strlit("FlushDraw");
    reveal_strlit("OESD");
    reveal_strlit("ComboDraw");
    reveal_strlit("GutShot");
}

/// No text of a scenario built from `d` in text style `ts` is empty.
pub proof fn lemma_po_scenario_texts(d: PotOddsDraw, ts: TextStyle, id: Seq<char>, r: TrainingScenario)
    requires
        po_outcome(d, id, r),
        r.question@ == po_question(d, ts),
        explains(r, po_explanations(d, ts)),
    ensures
        texts_non_empty(r),
{
    lemma_po_texts_nonempty(d, ts);
    lemma_texts_shown(r, id, po_decision(d), po_question(d, ts), po_explanations(d, ts));
}

/// The scenario shows `po_decision(d)` under `id`.
pub open spec fn po_outcome(d: PotOddsDraw, id: Seq<char>, r: TrainingScenario) -> bool {
    shows(r, id, po_decision(d))
}

/// The fraction `lo + g * s` drawn as the generator computes it in single
/// precision: `g` is `rand`'s `f32` in `[0, 1)`, the top 24 bits of one
/// 32-bit word over 2^24; `lo = lo_m / 2^25`, `s = s_m / 2^s_k`.
fn draw_fraction(rng: &mut StdRng, lo_m: u64, s_m: u64, s_k: u32) -> (f: u64)
    requires
        0x80_0000 <= lo_m < 0x100_0000,
        0x80_0000 <= s_m < 0x100_0000,
        23 <= s_k <= 24,
    ensures
        frac_in(f, lo_m as nat, s_m as nat, s_k as nat),
        0x80_0000 <= f <= 0x1000_0000,
{
    let w = next_u32(rng);
    let u = (w >> 8) as u64;
    assert(w >> 8u32 < 0x100_0000) by (bit_vector);
    fraction_of_word(u, lo_m, s_m, s_k)
}

/// `lo + g * s` in single precision for the drawn 24-bit word `u`
/// (`g = u / 2^24`), as a multiple of 2^-25.
pub fn fraction_of_word(u: u64, lo_m: u64, s_m: u64, s_k: u32) -> (f: u64)
    requires
        u < 0x100_0000,
        0x80_0000 <= lo_m < 0x100_0000,
        0x80_0000 <= s_m < 0x100_0000,
        23 <= s_k <= 24,
    ensures
        f == frac32(lo_m as nat, s_m as nat, s_k as nat, u as nat),
        0x80_0000 <= f <= 0x1000_0000,
{
    if u == 0 {
        assert(frac32(lo_m as nat, s_m as nat, s_k as nat, 0) == lo_m);
        return lo_m;
    }
    proof {
        lemma_pow2_table();
    }
    assert(0x80_0000 <= u * s_m < 0x1_0000_0000_0000) by (nonlinear_arith)
        requires
            0 < u < 0x100_0000,
            0x80_0000 <= s_m < 0x100_0000,
    ;
    let ta = u * s_m;
    let tb = pow2_wide(24 + s_k) as u64;
    proof {
        lemma_pow2n_mono((24 + s_k) as nat, 48);
        lemma_pow2n_mono(47, (24 + s_k) as nat);
    }
    let (tm, tk) = single_round(ta, tb);
    proof {
        assert(ta * pow2n(48) >= pow2n(23) * tb) by (nonlinear_arith)
            requires
                ta >= 0x80_0000,
                tb <= pow2n(48),
                pow2n(23) == 0x80_0000,
        ;
        lemma_scale_at_most(ta as nat, tb as nat, 0, 48);
        assert(ta * pow2n(21) < pow2n(23) * tb) by (nonlinear_arith)
            requires
                ta < 0x1_0000_0000_0000,
                tb >= pow2n(47),
                pow2n(21) == 0x20_0000,
                pow2n(23) == 0x80_0000,
                pow2n(47) == 0x8000_0000_0000,
        ;
        lemma_scale_above(ta as nat, tb as nat, 21);
    }
    let kk: u32 = if tk > 25 { tk } else { 25 };
    let p1 = pow2_wide(kk - 25) as u64;
    let p2 = pow2_wide(kk - tk) as u64;
    let pk = pow2_wide(kk) as u64;
    proof {
        lemma_pow2n_mono((kk - 25) as nat, 23);
        lemma_pow2n_mono((kk - tk) as nat, 26);
        lemma_pow2n_mono(kk as nat, 48);
        lemma_pow2n_add((kk - 25) as nat, 25);
        lemma_pow2n_add(24, (kk - 25) as nat);
        lemma_pow2n_add(24, (kk - tk) as nat);
        lemma_pow2n_mono((24 + kk - tk) as nat, (kk + 2) as nat);
        lemma_pow2n_add(kk as nat, 2);
        reveal_with_fuel(pow2n, 3);
        lemma_pow2n_mono((kk - 1) as nat, kk as nat);
        lemma_pow2n_add(1, (kk - 1) as nat);
        assert(24 + (kk - 25) == kk - 1);
    }
    assert(lo_m * p1 < 0x100_0000 * p1) by (nonlinear_arith)
        requires
            lo_m < 0x100_0000,
            p1 >= 1,
    ;
    assert(tm * p2 <= 0x100_0000 * p2) by (nonlinear_arith)
        requires
            tm <= 0x100_0000,
    ;
    assert(0x100_0000 * p1 <= 0x80_0000_0000_0000 && 0x100_0000 * p2 <= 0x400_0000_0000_0000) by (nonlinear_arith)
        requires
            p1 <= pow2n(23),
            p2 <= pow2n(26),
            pow2n(23) == 0x80_0000,
            pow2n(26) == 0x400_0000,
    ;
    let num = lo_m * p1 + tm * p2;
    assert(lo_m * p1 > 0) by (nonlinear_arith)
        requires
            lo_m > 0,
            p1 >= 1,
    ;
    assert(0 < num < 0x100_0000_0000_0000);
    assert(0 < pk < 0x100_0000_0000_0000);
    let (bm, bk) = single_round(num, pk);
    proof {
        assert(lo_m * p1 >= 0x80_0000 * p1) by (nonlinear_arith)
            requires
                lo_m >= 0x80_0000,
        ;
        assert(num * pow2n(25) >= pow2n(23) * pk) by (nonlinear_arith)
            requires
                num >= 0x80_0000 * p1,
                pow2n(23) == 0x80_0000,
                pk == p1 * pow2n(25),
        ;
        lemma_scale_at_most(num as nat, pk as nat, 0, 25);
        assert(0x100_0000 * p1 <= pk);
        assert(0x100_0000 * p2 <= 4 * pk);
        assert(num < 5 * pk);
        assert(num * pow2n(20) < pow2n(23) * pk) by (nonlinear_arith)
            requires
                num < 5 * pk,
                pow2n(20) == 0x10_0000,
                pow2n(23) == 0x80_0000,
        ;
        lemma_scale_above(num as nat, pk as nat, 20);
    }
    let p3 = pow2_wide(25 - bk) as u64;
    proof {
        lemma_pow2n_mono((25 - bk) as nat, 4);
    }
    assert(0x80_0000 <= bm * p3 <= 0x1000_0000) by (nonlinear_arith)
        requires
            0x80_0000 <= bm <= 0x100_0000,
            1 <= p3 <= pow2n(4),
            pow2n(4) == 16,
    ;
    let f = bm * p3;
    assert(f == frac32(lo_m as nat, s_m as nat, s_k as nat, u as nat));
    f
}

/// A few powers of two in full.
proof fn lemma_pow2_table()
    ensures
        pow2n(4) == 16,
        pow2n(20) == 0x10_0000,
        pow2n(21) == 0x20_0000,
        pow2n(23) == 0x80_0000,
        pow2n(25) == 0x200_0000,
        pow2n(26) == 0x400_0000,
        pow2n(47) == 0x8000_0000_0000,
        pow2n(48) == 0x1_0000_0000_0000,
{
    reveal_with_fuel(pow2n, 49);
}

/// A bet of at most eight pots, rounded, is at most eight pots.
proof fn lemma_bet_bound(pot: nat, frac: nat)
    requires
        0 < pot <= 60,
        0x80_0000 <= frac <= 0x1000_0000,
    ensures
        0 < pot * frac <= 0x1_0000_0000_0000,
        single_rounded_spec(pot * frac, 0x200_0000) <= 8 * pot,
{
    assert(0 < pot * frac <= 60 * 0x1000_0000 && pot * frac <= (8 * pot) * 0x200_0000) by (nonlinear_arith)
        requires
            0 < pot <= 60,
            0x80_0000 <= frac <= 0x1000_0000,
    ;
    lemma_single_rounded_le(pot * frac, 0x200_0000, 8 * pot);
}

/// The explanations of the answers of a pot-odds scenario, in text style `ts`.
pub open spec fn po_explanations(d: PotOddsDraw, ts: TextStyle) -> Seq<Seq<char>> {
    let pot = d.pot_bb * 2;
    let bet = po_bet(d);
    let should_call = po_should_call(d);
    let dt = draw_spec(d.board@);
    let actual_pct = pot_odds_equity_spec(dt, 2);
    let draw_type_simple_label = draw_simple_text(dt);
    let draw_type_label = dt.name_text();
    let req_t = tenths(pct_tenths(bet as nat, (pot + bet) as nat));
    let actual_t = tenths((actual_pct * 10) as nat);
    let call_explanation = match ts {
        TextStyle::Simple => if should_call {
            concat_spec(seq!["Correct — call! You have a good chance of improving your hand ("@, decimal(((actual_pct)) as nat), "% roughly), and the price to call is fair. You'll win enough when you hit to make this worthwhile."@])
        } else {
            concat_spec(seq!["Calling here is a mistake. Your hand ("@, draw_type_simple_label, ") doesn't have a good enough chance of improving to make this call worth the price."@])
        },
        TextStyle::Technical => concat_spec(seq!["Call analysis: Pot after call = "@, decimal(((pot + bet)) as nat), " chips. You are calling "@, decimal((bet) as nat), " chips. Required equity = "@, decimal((bet) as nat), "/"@, decimal(((pot + bet)) as nat), " = "@, req_t, "%. Approximate "@, draw_type_label, " equity with 2 streets = "@, actual_t, "%. "@, if should_call {
                "Your equity EXCEEDS the required equity."@
            } else {
                "Your equity is BELOW the required equity."@
            }, " Therefore calling "@, if should_call { "IS"@ } else { "is NOT"@ }, " correct here."@]),
    };
    let fold_explanation = match ts {
        TextStyle::Simple => if !should_call {
            concat_spec(seq!["Correct — fold. Your hand ("@, draw_type_simple_label, ") only improves roughly "@, decimal(((actual_pct)) as nat), "% of the time, and the price to call is too high for those odds. Save your chips."@])
        } else {
            "Folding is wrong here — your hand has a good enough chance of improving to make this call worth it."@
        },
        TextStyle::Technical => concat_spec(seq!["Fold analysis: You need "@, req_t, "% equity to call (calling "@, decimal((bet) as nat), " into a pot of "@, decimal(((pot + bet)) as nat), " chips). Your "@, draw_type_label, " has approximately "@, actual_t, "% equity with 2 cards to come. "@, if !should_call {
                "Since your equity is below the break-even threshold, folding preserves chips."@
            } else {
                "However, folding here discards positive expected value since your draw \
                 exceeds the required equity."@
            }, " Folding "@, if !should_call { "IS"@ } else { "is NOT"@ }, " correct."@]),
    };
    seq![
        call_explanation,
        fold_explanation,
    ]
}

/// The question of a pot-odds scenario in text style `ts`.
pub open spec fn po_question(d: PotOddsDraw, ts: TextStyle) -> Seq<char> {
    let pot = d.pot_bb * 2;
    match ts {
        TextStyle::Simple => concat_spec(seq!["You have "@, hand_chars(d.hero_hand), " and are chasing a "@, draw_simple_text(draw_spec(d.board@)), " after the first three cards: "@, board_chars(d.board@), ". Pot: "@, decimal(pot as nat), " chips. Your opponent bet "@, decimal((po_bet(d)) as nat), " chips. Do you call or fold?"@]),
        TextStyle::Technical => concat_spec(seq!["You hold "@, hand_chars(d.hero_hand), " and have a "@, draw_spec(d.board@).name_text(), " on the flop "@, board_chars(d.board@), ". The pot is "@, decimal(pot as nat), " chips ("@, decimal(d.pot_bb as nat), " BB). Villain bets "@, decimal((po_bet(d)) as nat), " chips ("@, decimal(po_pct_shown(d)), "% of pot). Do you call or fold?"@]),
    }
}

/// T3 — Pot Odds & Equity (PO-).
///
/// RNG order: shuffled deck → hand and flop → pot → bet fraction.
pub fn generate_pot_odds(rng: &mut StdRng, difficulty: DifficultyLevel, scenario_id: String, text_style: TextStyle) -> (r:
    TrainingScenario)
    ensures
        exists|d: PotOddsDraw|
            po_draw_valid(d, difficulty) && #[trigger] po_outcome(d, scenario_id@, r) && r.question@
                == po_question(d, text_style) && explains(r, po_explanations(d, text_style)),
{
    let (hero_hand, board) = deal(rng, 3);
    let (pot_bb, bet_frac) = match difficulty {
        DifficultyLevel::Beginner => (draw_u32(rng, 8, 12), 0x100_0000u64),
        DifficultyLevel::Intermediate => {
            let p = draw_u32(rng, 6, 20);
            // 0.33 + g * (1.0 - 0.33)
            let b = draw_fraction(rng, 11072963, 11240734, 24);
            (p, b)
        },
        DifficultyLevel::Advanced => {
            let p = draw_u32(rng, 4, 30);
            // 0.25 + g * (1.5 - 0.25)
            let b = draw_fraction(rng, 0x80_0000, 10485760, 23);
            (p, b)
        },
    };
    let d = PotOddsDraw { hero_hand, board, pot_bb, bet_frac };
    let r = build_pot_odds(&d, scenario_id, text_style);
    assert(po_draw_valid(d, difficulty));
    r
}

/// Build the pot-odds scenario for draw `d`.
#[verifier::spinoff_prover]
#[verifier::rlimit(50)]
pub fn build_pot_odds(d: &PotOddsDraw, scenario_id: String, text_style: TextStyle) -> (r: TrainingScenario)
    requires
        4 <= d.pot_bb <= 30,
        0x80_0000 <= d.bet_frac <= 0x1000_0000,
    ensures
        po_outcome(*d, scenario_id@, r),
        r.question@ == po_question(*d, text_style),
        explains(r, po_explanations(*d, text_style)),
{
    let hero_hand = d.hero_hand;
    let pot_bb = d.pot_bb;
    let draw_type = classify_draw(d.board.as_slice());

    let bb = 2u32;
    let pot = pot_bb * bb;
    // bet = pot * fraction in single precision, rounded half away from zero
    proof {
        lemma_bet_bound(pot as nat, d.bet_frac as nat);
    }
    let bet = single_rounded(pot as u64 * d.bet_frac, 0x200_0000) as u32;
    let streets_remaining: u8 = 2; // flop scenario, two streets to come

    let actual_pct = pot_odds_equity(draw_type, streets_remaining);
    assert(actual_pct * (pot + bet) <= 54 * 540) by (nonlinear_arith)
        requires actual_pct <= 54, pot + bet <= 540;
    let should_call = actual_pct * (pot + bet) >= 100 * bet;
    // displayed percentages: bet size of pot, break-even equity (one decimal)
    let bet_pct_shown = single_whole(100 * d.bet_frac, 0x200_0000);
    let req_t = tenths_text(percent_tenths(bet as u64, (pot + bet) as u64));
    let actual_t = tenths_text(actual_pct as u64 * 10);

    let draw_name = match draw_type {
        DrawType::FlushDraw => "FlushDraw",
        DrawType::OESD => "OESD",
        DrawType::ComboDraw => "ComboDraw",
        DrawType::GutShot => "GutShot",
    };
    let branch_key = cat3(draw_name, ":", if should_call { "Call" } else { "Fold" });

    let hand_s = hand_str(hero_hand);
    let board_s = board_str(d.board.as_slice());
    let hero_pos = Position::BB;

    let draw_type_label = draw_type.name();
    let draw_type_simple_label = draw_simple_label(draw_type);

    let question = match text_style {
        TextStyle::Simple => {
            let qs0 = num(pot as u64);
            let qs1 = num(bet as u64);
            let parts = ["You have ", hand_s.as_str(), " and are chasing a ", draw_type_simple_label, " after the first three cards: ", board_s.as_str(), ". Pot: ", qs0.as_str(), " chips. Your opponent bet ", qs1.as_str(), " chips. Do you call or fold?"];
            proof {
                assert(views_of(parts@) =~= seq!["You have "@, hand_s@, " and are chasing a "@, draw_type_simple_label@, " after the first three cards: "@, board_s@, ". Pot: "@, qs0@, " chips. Your opponent bet "@, qs1@, " chips. Do you call or fold?"@]);
            }
            concat(&parts)
        },
        TextStyle::Technical => {
            let qt0 = num(pot as u64);
            let qt1 = num(pot_bb as u64);
            let qt2 = num(bet as u64);
            let qt3 = num((bet_pct_shown) as u64);
            let parts = ["You hold ", hand_s.as_str(), " and have a ", draw_type_label, " on the flop ", board_s.as_str(), ". The pot is ", qt0.as_str(), " chips (", qt1.as_str(), " BB). Villain bets ", qt2.as_str(), " chips (", qt3.as_str(), "% of pot). Do you call or fold?"];
            proof {
                assert(views_of(parts@) =~= seq!["You hold "@, hand_s@, " and have a "@, draw_type_label@, " on the flop "@, board_s@, ". The pot is "@, qt0@, " chips ("@, qt1@, " BB). Villain bets "@, qt2@, " chips ("@, qt3@, "% of pot). Do you call or fold?"@]);
            }
            concat(&parts)
        },
    };

    let call_explanation = match text_style {
        TextStyle::Simple => if should_call {
            { let t1 = num((actual_pct) as u64); let parts = ["Correct — call! You have a good chance of improving your hand (", t1.as_str(), "% roughly), and the price to call is fair. You'll win enough when you hit to make this worthwhile."]; proof { assert(views_of(parts@) =~= seq!["Correct — call! You have a good chance of improving your hand ("@, t1@, "% roughly), and the price to call is fair. You'll win enough when you hit to make this worthwhile."@]); } concat(&parts) }
        } else {
            {  let parts = ["Calling here is a mistake. Your hand (", draw_type_simple_label, ") doesn't have a good enough chance of improving to make this call worth the price."]; proof { assert(views_of(parts@) =~= seq!["Calling here is a mistake. Your hand ("@, draw_type_simple_label@, ") doesn't have a good enough chance of improving to make this call worth the price."@]); } concat(&parts) }
        },
        TextStyle::Technical => { let t2 = num((pot + bet) as u64); let t3 = num(bet as u64); let t4 = num(bet as u64); let t5 = num((pot + bet) as u64); let t6: &str = if should_call {
                "Your equity EXCEEDS the required equity."
            } else {
                "Your equity is BELOW the required equity."
            }; let t7: &str = if should_call { "IS" } else { "is NOT" }; let parts = ["Call analysis: Pot after call = ", t2.as_str(), " chips. You are calling ", t3.as_str(), " chips. Required equity = ", t4.as_str(), "/", t5.as_str(), " = ", req_t.as_str(), "%. Approximate ", draw_type_label, " equity with 2 streets = ", actual_t.as_str(), "%. ", t6, " Therefore calling ", t7, " correct here."]; proof { assert(views_of(parts@) =~= seq!["Call analysis: Pot after call = "@, t2@, " chips. You are calling "@, t3@, " chips. Required equity = "@, t4@, "/"@, t5@, " = "@, req_t@, "%. Approximate "@, draw_type_label@, " equity with 2 streets = "@, actual_t@, "%. "@, t6@, " Therefore calling "@, t7@, " correct here."@]); } concat(&parts) },
    };

    let fold_explanation = match text_style {
        TextStyle::Simple => if !should_call {
            { let t8 = num((actual_pct) as u64); let parts = ["Correct — fold. Your hand (", draw_type_simple_label, ") only improves roughly ", t8.as_str(), "% of the time, and the price to call is too high for those odds. Save your chips."]; proof { assert(views_of(parts@) =~= seq!["Correct — fold. Your hand ("@, draw_type_simple_label@, ") only improves roughly "@, t8@, "% of the time, and the price to call is too high for those odds. Save your chips."@]); } concat(&parts) }
        } else {
            "Folding is wrong here — your hand has a good enough chance of improving to make this call worth it.".to_owned()
        },
        TextStyle::Technical => { let t9 = num(bet as u64); let t10 = num((pot + bet) as u64); let t11: &str = if !should_call {
                "Since your equity is below the break-even threshold, folding preserves chips."
            } else {
                "However, folding here discards positive expected value since your draw \
                 exceeds the required equity."
            }; let t12: &str = if !should_call { "IS" } else { "is NOT" }; let parts = ["Fold analysis: You need ", req_t.as_str(), "% equity to call (calling ", t9.as_str(), " into a pot of ", t10.as_str(), " chips). Your ", draw_type_label, " has approximately ", actual_t.as_str(), "% equity with 2 cards to come. ", t11, " Folding ", t12, " correct."]; proof { assert(views_of(parts@) =~= seq!["Fold analysis: You need "@, req_t@, "% equity to call (calling "@, t9@, " into a pot of "@, t10@, " chips). Your "@, draw_type_label@, " has approximately "@, actual_t@, "% equity with 2 cards to come. "@, t11@, " Folding "@, t12@, " correct."@]); } concat(&parts) },
    };

    let correct: usize = if should_call { 0 } else { 1 };
    let explanation_0 = call_explanation;
    let explanation_1 = fold_explanation;
    let answers = vec![
        option_at(0, "Call".to_owned(), correct, explanation_0),
        option_at(1, "Fold".to_owned(), correct, explanation_1),
    ];

    let players = vec![
        PlayerState { seat: 1, position: Position::BTN, stack: 200, is_hero: false, is_active: true },
        PlayerState { seat: 2, position: hero_pos, stack: 200, is_hero: true, is_active: true },
    ];

    let table_setup = TableSetup {
        game_type: GameType::CashGame,
        hero_position: hero_pos,
        hero_hand,
        board: d.board.clone(),
        players,
        pot_size: pot,
        current_bet: bet,
    };

    TrainingScenario {
        scenario_id,
        topic: TrainingTopic::PotOddsAndEquity,
        branch_key,
        table_setup,
        question,
        answers,
    }
}

// ═══════════════════════════════════════════════════════════════════════════════
// T7 — Check-Raise Spot (CR-)
// ═══════════════════════════════════════════════════════════════════════════════

/// How much the flop board favours the BB caller vs the IP raiser.
#[derive(Debug, Clone, Copy, PartialEq, Eq, Structural)]
pub enum BoardFavour {
    /// Low/connected board (rank sum <= 20) — hits BB's wide range.
    BBFavorable,
    /// High/dry board — hits IP raiser's strong preflop range.
    IPFavorable,
}

/// How the hero hand interacts with the board.
#[derive(Debug, Clone, Copy, PartialEq, Eq, Structural)]
pub enum HandInteraction {
    /// Pairs a board card (strong made hand on the flop).
    Strong,
    /// Has a flush draw and/or straight draw.
    Draw,
    /// No pair, no draw.
    Weak,
}

/// Sum of the board's ranks.
pub open spec fn rank_sum(board: Seq<Card>) -> int
    decreases board.len(),
{
    if board.len() == 0 {
        0
    } else {
        rank_sum(board.drop_last()) + board.last().rank.0 as int
    }
}

pub open spec fn board_favour_spec(board: Seq<Card>) -> BoardFavour {
    if rank_sum(board) <= 20 {
        BoardFavour::BBFavorable
    } else {
        BoardFavour::IPFavorable
    }
}

pub fn classify_board(board: &[Card]) -> (f: BoardFavour)
    ensures
        f == board_favour_spec(board@),
{
    // The sum only grows, so the scan can stop once it passes 20.
    let mut sum: u16 = 0;
    let mut i: usize = 0;
    while i < board.len()
        invariant
            i <= board@.len(),
            sum == rank_sum(board@.take(i as int)),
            sum <= 20,
        decreases board@.len() - i,
    {
        assert(board@.take(i + 1).drop_last() =~= board@.take(i as int));
        sum = sum + board[i].rank.0 as u16;
        i += 1;
        if sum > 20 {
            proof {
                lemma_rank_sum_prefix(board@, i as int);
            }
            return BoardFavour::IPFavorable;
        }
    }
    assert(board@.take(board@.len() as int) =~= board@);
    BoardFavour::BBFavorable
}

/// A prefix's rank sum is at most the whole board's.
proof fn lemma_rank_sum_prefix(board: Seq<Card>, n: int)
    requires
        0 <= n <= board.len(),
    ensures
        rank_sum(board.take(n)) <= rank_sum(board),
    decreases board.len() - n,
{
    if n < board.len() {
        assert(board.take(n + 1).drop_last() =~= board.take(n));
        lemma_rank_sum_prefix(board, n + 1);
    } else {
        assert(board.take(n) =~= board);
    }
}

/// Some hero card has the rank of some board card.
pub open spec fn hero_pairs_board(hand: Seq<Card>, board: Seq<Card>) -> bool {
    exists|h: int, b: int| 0 <= h < 2 && 0 <= b < board.len() && #[trigger] hand[h].rank == #[trigger] board[b].rank
}

pub open spec fn interaction_spec(hand: Seq<Card>, board: Seq<Card>) -> HandInteraction {
    if hero_flush_draw_spec(hand, board) || hero_straight_draw_spec(hand, board) {
        HandInteraction::Draw
    } else if hero_pairs_board(hand, board) {
        HandInteraction::Strong
    } else {
        HandInteraction::Weak
    }
}

fn pairs_board(hand: [Card; 2], board: &[Card]) -> (b: bool)
    ensures
        b == hero_pairs_board(hand@, board@),
{
    let mut h: usize = 0;
    while h < 2
        invariant
            h <= 2,
            hand@.len() == 2,
            forall|x: int, y: int| 0 <= x < h && 0 <= y < board@.len() ==> hand@[x].rank != board@[y].rank,
        decreases 2 - h,
    {
        let mut i: usize = 0;
        while i < board.len()
            invariant
                h < 2,
                i <= board@.len(),
                hand@.len() == 2,
                forall|x: int, y: int| 0 <= x < h && 0 <= y < board@.len() ==> hand@[x].rank != board@[y].rank,
                forall|y: int| 0 <= y < i ==> hand@[h as int].rank != board@[y].rank,
            decreases board@.len() - i,
        {
            if hand[h].rank == board[i].rank {
                assert(hand@[h as int].rank == board@[i as int].rank);
                return true;
            }
            i += 1;
        }
        h += 1;
    }
    false
}

pub fn classify_hand_interaction(hand: [Card; 2], board: &[Card]) -> (i: HandInteraction)
    ensures
        i == interaction_spec(hand@, board@),
{
    let flush = hero_has_flush_draw(hand, board);
    let straight = hero_has_straight_draw(hand, board);
    if flush || straight {
        return HandInteraction::Draw;
    }
    // Strong: hero pairs any board card
    if pairs_board(hand, board) {
        HandInteraction::Strong
    } else {
        HandInteraction::Weak
    }
}

/// True when the hero hand has both a flush draw AND a straight draw component.
pub fn is_combo_draw(hand: [Card; 2], board: &[Card]) -> (b: bool)
    ensures
        b == (hero_flush_draw_spec(hand@, board@) && hero_straight_draw_spec(hand@, board@)),
{
    hero_has_flush_draw(hand, board) && hero_has_straight_draw(hand, board)
}

/// Everything drawn at random for a check-raise spot.
pub struct CheckRaiseDraw {
    pub hero_hand: [Card; 2],
    pub board: Vec<Card>,
    pub stack_bb: u32,
    pub pot_bb: u32,
    pub villain_bet_pct: u32,
}

pub open spec fn cr_draw_valid(d: CheckRaiseDraw, diff: DifficultyLevel) -> bool {
    &&& d.board@.len() == 3
    &&& fresh_cards(d.hero_hand@, d.board@)
    &&& flop_sizes_valid(d.stack_bb, d.pot_bb, diff, 100, 50)
    &&& 50 <= d.villain_bet_pct <= 70
}

/// How the question describes the board.
pub open spec fn favour_text(f: BoardFavour) -> Seq<char> {
    match f {
        BoardFavour::BBFavorable => "BB-favorable (low/connected)"@,
        BoardFavour::IPFavorable => "IP-favorable (high/dry)"@,
    }
}

/// How the question describes hero's hand.
pub open spec fn interaction_text(i: HandInteraction, combo: bool) -> Seq<char> {
    match i {
        HandInteraction::Draw => if combo { "combo draw"@ } else { "draw"@ },
        HandInteraction::Strong => "strong hand (pairs the board)"@,
        HandInteraction::Weak => "weak/air"@,
    }
}

/// Check-raise (C) a strong hand on a BB-favourable board or any combo draw;
/// fold (A) a weak hand on an IP-favourable board; otherwise check-call (B).
pub open spec fn cr_correct(f: BoardFavour, i: HandInteraction, combo: bool) -> int {
    if f == BoardFavour::BBFavorable && i == HandInteraction::Strong {
        2
    } else if i == HandInteraction::Draw && combo {
        2
    } else if f == BoardFavour::IPFavorable && i == HandInteraction::Weak {
        0
    } else {
        1
    }
}

pub open spec fn cr_branch(f: BoardFavour, i: HandInteraction, combo: bool) -> Seq<char> {
    (if f == BoardFavour::BBFavorable { "BBFav:"@ } else { "IPFav:"@ }) + match i {
        HandInteraction::Strong => "Strong"@,
        HandInteraction::Draw => if combo { "ComboDraw"@ } else { "Draw"@ },
        HandInteraction::Weak => "Weak"@,
    }
}

/// The villain's bet: `pct` percent of the pot (rounded down), at least 1 BB.
pub open spec fn cr_villain_bet(pot: int, pct: int) -> int {
    if pot * pct / 100 >= 2 { pot * pct / 100 } else { 2 }
}

/// Answer labels when facing villain's bet `villain_bet` (chips): the raise
/// is 2.5x the bet (rounded down), shown in big blinds (rounded down).
pub open spec fn raise_labels(villain_bet: int) -> Seq<Seq<char>> {
    seq!["Fold"@, "Call"@, "Raise to "@ + decimal((villain_bet * 5 / 2 / 2) as nat) + " BB"@]
}

/// Check-raise scenario: hero in the Big Blind listed first, the Button second.
pub open spec fn cr_decision(d: CheckRaiseDraw) -> Decision {
    let f = board_favour_spec(d.board@);
    let i = interaction_spec(d.hero_hand@, d.board@);
    let combo = hero_flush_draw_spec(d.hero_hand@, d.board@) && hero_straight_draw_spec(d.hero_hand@, d.board@);
    let stack = (d.stack_bb * 2) as u32;
    let pot = d.pot_bb * 2;
    Decision {
        topic: TrainingTopic::CheckRaiseSpot,
        branch: cr_branch(f, i, combo),
        game_type: GameType::CashGame,
        hero_pos: Position::BB,
        hand: d.hero_hand,
        board: d.board@,
        players: seq![
                    PlayerState { seat: 1, position: Position::BB, stack, is_hero: true, is_active: true },
                    PlayerState { seat: 2, position: Position::BTN, stack, is_hero: false, is_active: true },
                ],
        pot: pot as u32,
        bet: cr_villain_bet(pot, d.villain_bet_pct as int) as u32,
        answers: 3,
        labels: raise_labels(cr_villain_bet(pot, d.villain_bet_pct as int)),
        correct: cr_correct(f, i, combo),
    }
}

/// Every text of a scenario built from `d` is non-empty: the question, the
/// branch key, and each answer's label and explanation.
#[verifier::spinoff_prover]
#[verifier::rlimit(50)]
pub proof fn lemma_cr_texts_nonempty(d: CheckRaiseDraw, ts: TextStyle)
    ensures
        cr_question(d, ts).len() > 0,
        cr_decision(d).branch.len() > 0,
        forall|i: int| 0 <= i < cr_decision(d).labels.len() ==> #[trigger] cr_decision(d).labels[i].len() > 0,
        forall|i: int| 0 <= i < cr_explanations(d, ts).len() ==> #[trigger] cr_explanations(d, ts)[i].len() > 0,
{
    reveal_strlit(" chips. What do you do?");
    reveal_strlit(" BB). What is your action?");
    reveal_strlit(" chips with almost no equity. Fold.");
    reveal_strlit("% pot bet.");
    reveal_strlit(" chips and see the next card.");
    reveal_strlit(" and re-evaluate on the turn.");
    reveal_strlit(" chips to build the pot while you're ahead and deny villain's equity from backdoor draws and overcards.");
    reveal_strlit(" chips extracts more value and applies pressure. Calling gives villain a free turn card to improve or bluff again cheaply.");
    reveal_strlit(" chips! You have a strong hand and the cards are in your favour. Build the pot while you're ahead.");
    reveal_strlit(" chips! You have a powerful draw with about a 54% chance of winning. Raising wins the pot immediately if your opponent folds, and builds a big pot when they call.");
    reveal_strlit(") is the highest-EV play. This board hits your BB defending range (low/connected) much harder than villain's late-position range. You protect your hand, build the pot with the best of it, and deny villain cheap equity.");
    reveal_strlit(" is correct. Your combo draw has ~54% equity on the flop — you are a slight favourite! The check-raise wins the pot outright when villain folds, and builds a large pot when villain calls into your equity advantage.");
    reveal_strlit(") is a bluff into villain's strongest range. This board connects heavily with late-position preflop hands; your check-raise has very low fold equity and risks getting 3-bet off a weak hand.");
    reveal_strlit(" (not a combo draw) may be too aggressive here. Without either a very strong made hand or a combo draw, the check-raise over-commits chips OOP without sufficient equity to back it up.");
    reveal_strlit("Correct — fold. You have nothing and the cards favour your opponent's hand. Putting more chips in would be throwing them away.");
    reveal_strlit("Folding here is too cautious — you have enough of a hand to continue. Call or raise.");
    reveal_strlit("Just calling here leaves money on the table. You have a strong hand on a board that favours you — raise to build the pot!");
    reveal_strlit("Just calling here is too passive. With a powerful draw, raise to put maximum pressure on your opponent.");
    reveal_strlit("Raising here is a bluff into your opponent's strong card range. They're unlikely to fold and you risk a lot of chips with a weak hand.");
    reveal_strlit("Raising without a very strong hand or a powerful draw is too aggressive here. Call instead.");
    reveal_strlit("BBFav:");
    reveal_strlit("IPFav:");
    reveal_strlit("Strong");
    reveal_strlit("ComboDraw");
    reveal_strlit("Draw");
    reveal_strlit("Weak");
    reveal_strlit("Fold");
    reveal_strlit("Call");
    reveal_strlit("Raise to ");
    reveal_strlit(" BB");
}

/// No text of a scenario built from `d` in text style `ts` is empty.
pub proof fn lemma_cr_scenario_texts(d: CheckRaiseDraw, ts: TextStyle, id: Seq<char>, r: TrainingScenario)
    requires
        cr_outcome(d, id, r),
        r.question@ == cr_question(d, ts),
        explains(r, cr_explanations(d, ts)),
    ensures
        texts_non_empty(r),
{
    lemma_cr_texts_nonempty(d, ts);
    lemma_texts_shown(r, id, cr_decision(d), cr_question(d, ts), cr_explanations(d, ts));
}

/// The scenario shows `cr_decision(d)` under `id`.
pub open spec fn cr_outcome(d: CheckRaiseDraw, id: Seq<char>, r: TrainingScenario) -> bool {
    shows(r, id, cr_decision(d))
}

/// The explanations of the answers of a check-raise scenario, in text style `ts`.
pub open spec fn cr_explanations(d: CheckRaiseDraw, ts: TextStyle) -> Seq<Seq<char>> {
    let board_favour = board_favour_spec(d.board@);
    let interaction = interaction_spec(d.hero_hand@, d.board@);
    let combo = hero_flush_draw_spec(d.hero_hand@, d.board@) && hero_straight_draw_spec(d.hero_hand@, d.board@);
    let pot = d.pot_bb * 2;
    let villain_bet = cr_villain_bet(pot, d.villain_bet_pct as int);
    let villain_bet_pct = d.villain_bet_pct;
    let cr_size = villain_bet * 5 / 2;
    let board_s = board_chars(d.board@);
    let hand_s = hand_chars(d.hero_hand);
    let board_favour_str = favour_text(board_favour);
    let interaction_str = interaction_text(interaction, combo);
    let bb_fav_strong = board_favour == BoardFavour::BBFavorable && interaction == HandInteraction::Strong;
    let ip_fav_weak = board_favour == BoardFavour::IPFavorable && interaction == HandInteraction::Weak;
    let correct = cr_correct(board_favour, interaction, combo) as usize;
    let fold_exp = match ts {
        TextStyle::Simple => if ip_fav_weak {
            "Correct — fold. You have nothing and the cards favour your opponent's hand. Putting more chips in would be throwing them away."@
        } else {
            "Folding here is too cautious — you have enough of a hand to continue. Call or raise."@
        },
        TextStyle::Technical => if ip_fav_weak {
            concat_spec(seq!["Correct. With "@, interaction_str, " on a "@, board_favour_str, " board ("@, board_s, "), you have no pair, no draw, and the board heavily favours villain's preflop range. Calling invests "@, decimal((villain_bet) as nat), " chips with almost no equity. Fold."@])
        } else {
            concat_spec(seq!["Folding "@, hand_s, " ("@, interaction_str, ") here is too tight. You have enough equity or positional leverage to continue, either by calling or check-raising. A fold surrenders too much to villain's "@, decimal((villain_bet_pct) as nat), "% pot bet."@])
        },
    };
    let call_exp = match ts {
        TextStyle::Simple => if correct == 1 {
            concat_spec(seq!["Correct — call. You have enough of a hand to continue, but not quite enough to raise. Call "@, decimal((villain_bet) as nat), " chips and see the next card."@])
        } else if bb_fav_strong {
            "Just calling here leaves money on the table. You have a strong hand on a board that favours you — raise to build the pot!"@
        } else {
            "Just calling here is too passive. With a powerful draw, raise to put maximum pressure on your opponent."@
        },
        TextStyle::Technical => if correct == 1 {
            concat_spec(seq!["Correct. Check-calling with "@, hand_s, " ("@, interaction_str, ") on "@, board_s, " is the best play. You have equity to continue but not the ideal conditions for a check-raise (either the board doesn't favour your range, or your draw alone doesn't justify building a large pot OOP). Call "@, decimal((villain_bet) as nat), " and re-evaluate on the turn."@])
        } else if bb_fav_strong {
            concat_spec(seq!["Check-calling with a strong hand on a BB-favorable board leaves value on the table. You should check-raise to "@, decimal((cr_size) as nat), " chips to build the pot while you're ahead and deny villain's equity from backdoor draws and overcards."@])
        } else {
            concat_spec(seq!["Check-calling is passive here. With "@, interaction_str, " on "@, board_s, ", a check-raise to "@, decimal((cr_size) as nat), " chips extracts more value and applies pressure. Calling gives villain a free turn card to improve or bluff again cheaply."@])
        },
    };
    let cr_exp = match ts {
        TextStyle::Simple => match (board_favour, interaction, correct) {
            (BoardFavour::BBFavorable, HandInteraction::Strong, 2) => concat_spec(seq!["Correct — raise to "@, decimal((cr_size) as nat), " chips! You have a strong hand and the cards are in your favour. Build the pot while you're ahead."@]),
            (_, HandInteraction::Draw, 2) => concat_spec(seq!["Correct — raise to "@, decimal((cr_size) as nat), " chips! You have a powerful draw with about a 54% chance of winning. Raising wins the pot immediately if your opponent folds, and builds a big pot when they call."@]),
            (BoardFavour::IPFavorable, _, _) => "Raising here is a bluff into your opponent's strong card range. They're unlikely to fold and you risk a lot of chips with a weak hand."@,
            _ => "Raising without a very strong hand or a powerful draw is too aggressive here. Call instead."@,
        },
        TextStyle::Technical => match (board_favour, interaction, correct) {
            (BoardFavour::BBFavorable, HandInteraction::Strong, 2) => concat_spec(seq!["Correct. Check-raising to "@, decimal((cr_size) as nat), " chips (2.5\u{00d7} villain's "@, decimal((villain_bet) as nat), ") with "@, hand_s, " ("@, interaction_str, ") on a "@, board_favour_str, " board ("@, board_s, ") is the highest-EV play. This board hits your BB defending range (low/connected) much harder than villain's late-position range. You protect your hand, build the pot with the best of it, and deny villain cheap equity."@]),
            (_, HandInteraction::Draw, 2) => concat_spec(seq!["Correct. Check-raising to "@, decimal((cr_size) as nat), " chips (2.5\u{00d7} villain's "@, decimal((villain_bet) as nat), ") as a combo-draw semi-bluff with "@, hand_s, " on "@, board_s, " is correct. Your combo draw has ~54% equity on the flop — you are a slight favourite! The check-raise wins the pot outright when villain folds, and builds a large pot when villain calls into your equity advantage."@]),
            (BoardFavour::IPFavorable, _, _) => concat_spec(seq!["Check-raising on a "@, board_favour_str, " board ("@, board_s, ") with "@, hand_s, " ("@, interaction_str, ") is a bluff into villain's strongest range. This board connects heavily with late-position preflop hands; your check-raise has very low fold equity and risks getting 3-bet off a weak hand."@]),
            _ => concat_spec(seq!["Check-raising with only a "@, interaction_str, " (not a combo draw) may be too aggressive here. Without either a very strong made hand or a combo draw, the check-raise over-commits chips OOP without sufficient equity to back it up."@]),
        },
    };
    seq![
        fold_exp,
        call_exp,
        cr_exp,
    ]
}

/// The question of a check-raise scenario in text style `ts`.
pub open spec fn cr_question(d: CheckRaiseDraw, ts: TextStyle) -> Seq<char> {
    let f = board_favour_spec(d.board@);
    let i = interaction_spec(d.hero_hand@, d.board@);
    let combo = hero_flush_draw_spec(d.hero_hand@, d.board@) && hero_straight_draw_spec(d.hero_hand@, d.board@);
    let pot = d.pot_bb * 2;
    let stack = d.stack_bb * 2;
    let vb = cr_villain_bet(pot, d.villain_bet_pct as int);
    match ts {
        TextStyle::Simple => concat_spec(seq!["You're in the Big Blind (you act first). First three cards: "@, board_chars(d.board@), ". You have "@, hand_chars(d.hero_hand), ". The Button bet "@, decimal(vb as nat), " chips. Pot: "@, decimal(pot as nat), " chips. Stack: "@, decimal(stack as nat), " chips. What do you do?"@]),
        TextStyle::Technical => concat_spec(seq!["You are in the Big Blind (OOP). Flop: "@, board_chars(d.board@), " ("@, favour_text(f), "). You hold "@, hand_chars(d.hero_hand), " ("@, interaction_text(i, combo), "). Villain on the Button bets "@, decimal(vb as nat), " chips ("@, decimal(d.villain_bet_pct as nat), "% pot). Pot is "@, decimal(pot as nat), " chips ("@, decimal(d.pot_bb as nat), " BB). Stack: "@, decimal(stack as nat), " chips ("@, decimal(d.stack_bb as nat), " BB). What is your action?"@]),
    }
}

/// T7 — Check-Raise Spot (CR-).
///
/// RNG order: shuffled deck → hand and flop → stack/pot → villain bet percent.
pub fn generate_check_raise(
    rng: &mut StdRng,
    difficulty: DifficultyLevel,
    scenario_id: String,
    text_style: TextStyle,
) -> (r: TrainingScenario)
    ensures
        exists|d: CheckRaiseDraw|
            cr_draw_valid(d, difficulty) && #[trigger] cr_outcome(d, scenario_id@, r) && r.question@
                == cr_question(d, text_style) && explains(r, cr_explanations(d, text_style)),
{
    let (hero_hand, board) = deal(rng, 3);
    let (stack_bb, pot_bb) = match difficulty {
        DifficultyLevel::Beginner => (100u32, draw_u32(rng, 8, 14)),
        DifficultyLevel::Intermediate => {
            let s = draw_u32(rng, 50, 130);
            let p = draw_u32(rng, 6, 20);
            (s, p)
        },
        DifficultyLevel::Advanced => {
            let s = draw_u32(rng, 20, 200);
            let p = draw_u32(rng, 4, 30);
            (s, p)
        },
    };
    // Villain (IP) bets ~50-70% pot
    let villain_bet_pct: u32 = draw_u32(rng, 50, 70);
    let d = CheckRaiseDraw { hero_hand, board, stack_bb, pot_bb, villain_bet_pct };
    let r = build_check_raise(&d, scenario_id, text_style);
    assert(cr_draw_valid(d, difficulty));
    r
}

/// Build the check-raise scenario for draw `d`.
#[verifier::spinoff_prover]
#[verifier::rlimit(50)]
pub fn build_check_raise(d: &CheckRaiseDraw, scenario_id: String, text_style: TextStyle) -> (r: TrainingScenario)
    requires
        d.board@.len() == 3,
        d.stack_bb <= 200,
        d.pot_bb <= 30,
        d.villain_bet_pct <= 100,
    ensures
        cr_outcome(*d, scenario_id@, r),
        r.question@ == cr_question(*d, text_style),
        explains(r, cr_explanations(*d, text_style)),
{
    let hero_hand = d.hero_hand;
    let stack_bb = d.stack_bb;
    let pot_bb = d.pot_bb;
    let villain_bet_pct = d.villain_bet_pct;
    let board_favour = classify_board(d.board.as_slice());
    let interaction = classify_hand_interaction(hero_hand, d.board.as_slice());
    let combo = is_combo_draw(hero_hand, d.board.as_slice());

    let favour_key = match board_favour {
        BoardFavour::BBFavorable => "BBFav:",
        BoardFavour::IPFavorable => "IPFav:",
    };
    let interaction_key = match interaction {
        HandInteraction::Strong => "Strong",
        HandInteraction::Draw => if combo { "ComboDraw" } else { "Draw" },
        HandInteraction::Weak => "Weak",
    };
    let branch_key = crate::text::cat2(favour_key, interaction_key);

    let bb = 2u32;
    let pot = pot_bb * bb;
    let stack = stack_bb * bb;

    assert(pot * villain_bet_pct <= 6000) by (nonlinear_arith)
        requires pot <= 60, villain_bet_pct <= 100;
    let raw_bet = pot * villain_bet_pct / 100;
    let villain_bet = if raw_bet >= bb { raw_bet } else { bb };
    let cr_size = villain_bet * 5 / 2; // 2.5x raise

    let hero_pos = Position::BB;
    let villain_pos = Position::BTN;

    let board_s = board_str(d.board.as_slice());
    let hand_s = hand_str(hero_hand);
    let board_favour_str = match board_favour {
        BoardFavour::BBFavorable => "BB-favorable (low/connected)",
        BoardFavour::IPFavorable => "IP-favorable (high/dry)",
    };
    let interaction_str = match interaction {
        HandInteraction::Draw => if combo { "combo draw" } else { "draw" },
        HandInteraction::Strong => "strong hand (pairs the board)",
        HandInteraction::Weak => "weak/air",
    };

    let bb_fav_strong = board_favour == BoardFavour::BBFavorable && interaction == HandInteraction::Strong;
    let ip_fav_weak = board_favour == BoardFavour::IPFavorable && interaction == HandInteraction::Weak;
    let correct: usize = if bb_fav_strong {
        2
    } else if interaction == HandInteraction::Draw && combo {
        2
    } else if ip_fav_weak {
        0
    } else {
        1
    };

    let question = match text_style {
        TextStyle::Simple => {
            let qs0 = num(villain_bet as u64);
            let qs1 = num(pot as u64);
            let qs2 = num(stack as u64);
            let parts = ["You're in the Big Blind (you act first). First three cards: ", board_s.as_str(), ". You have ", hand_s.as_str(), ". The Button bet ", qs0.as_str(), " chips. Pot: ", qs1.as_str(), " chips. Stack: ", qs2.as_str(), " chips. What do you do?"];
            proof {
                assert(views_of(parts@) =~= seq!["You're in the Big Blind (you act first). First three cards: "@, board_s@, ". You have "@, hand_s@, ". The Button bet "@, qs0@, " chips. Pot: "@, qs1@, " chips. Stack: "@, qs2@, " chips. What do you do?"@]);
            }
            concat(&parts)
        },
        TextStyle::Technical => {
            let qt0 = num(villain_bet as u64);
            let qt1 = num(villain_bet_pct as u64);
            let qt2 = num(pot as u64);
            let qt3 = num(pot_bb as u64);
            let qt4 = num(stack as u64);
            let qt5 = num(stack_bb as u64);
            let parts = ["You are in the Big Blind (OOP). Flop: ", board_s.as_str(), " (", board_favour_str, "). You hold ", hand_s.as_str(), " (", interaction_str, "). Villain on the Button bets ", qt0.as_str(), " chips (", qt1.as_str(), "% pot). Pot is ", qt2.as_str(), " chips (", qt3.as_str(), " BB). Stack: ", qt4.as_str(), " chips (", qt5.as_str(), " BB). What is your action?"];
            proof {
                assert(views_of(parts@) =~= seq!["You are in the Big Blind (OOP). Flop: "@, board_s@, " ("@, board_favour_str@, "). You hold "@, hand_s@, " ("@, interaction_str@, "). Villain on the Button bets "@, qt0@, " chips ("@, qt1@, "% pot). Pot is "@, qt2@, " chips ("@, qt3@, " BB). Stack: "@, qt4@, " chips ("@, qt5@, " BB). What is your action?"@]);
            }
            concat(&parts)
        },
    };

    let fold_exp = match text_style {
        TextStyle::Simple => if ip_fav_weak {
            "Correct — fold. You have nothing and the cards favour your opponent's hand. Putting more chips in would be throwing them away.".to_owned()
        } else {
            "Folding here is too cautious — you have enough of a hand to continue. Call or raise.".to_owned()
        },
        TextStyle::Technical => if ip_fav_weak {
            { let t1 = num(villain_bet as u64); let parts = ["Correct. With ", interaction_str, " on a ", board_favour_str, " board (", board_s.as_str(), "), you have no pair, no draw, and the board heavily favours villain's preflop range. Calling invests ", t1.as_str(), " chips with almost no equity. Fold."]; proof { assert(views_of(parts@) =~= seq!["Correct. With "@, interaction_str@, " on a "@, board_favour_str@, " board ("@, board_s@, "), you have no pair, no draw, and the board heavily favours villain's preflop range. Calling invests "@, t1@, " chips with almost no equity. Fold."@]); } concat(&parts) }
        } else {
            { let t2 = num(villain_bet_pct as u64); let parts = ["Folding ", hand_s.as_str(), " (", interaction_str, ") here is too tight. You have enough equity or positional leverage to continue, either by calling or check-raising. A fold surrenders too much to villain's ", t2.as_str(), "% pot bet."]; proof { assert(views_of(parts@) =~= seq!["Folding "@, hand_s@, " ("@, interaction_str@, ") here is too tight. You have enough equity or positional leverage to continue, either by calling or check-raising. A fold surrenders too much to villain's "@, t2@, "% pot bet."@]); } concat(&parts) }
        },
    };

    let call_exp = match text_style {
        TextStyle::Simple => if correct == 1 {
            { let t3 = num(villain_bet as u64); let parts = ["Correct — call. You have enough of a hand to continue, but not quite enough to raise. Call ", t3.as_str(), " chips and see the next card."]; proof { assert(views_of(parts@) =~= seq!["Correct — call. You have enough of a hand to continue, but not quite enough to raise. Call "@, t3@, " chips and see the next card."@]); } concat(&parts) }
        } else if bb_fav_strong {
            "Just calling here leaves money on the table. You have a strong hand on a board that favours you — raise to build the pot!".to_owned()
        } else {
            "Just calling here is too passive. With a powerful draw, raise to put maximum pressure on your opponent.".to_owned()
        },
        TextStyle::Technical => if correct == 1 {
            { let t4 = num(villain_bet as u64); let parts = ["Correct. Check-calling with ", hand_s.as_str(), " (", interaction_str, ") on ", board_s.as_str(), " is the best play. You have equity to continue but not the ideal conditions for a check-raise (either the board doesn't favour your range, or your draw alone doesn't justify building a large pot OOP). Call ", t4.as_str(), " and re-evaluate on the turn."]; proof { assert(views_of(parts@) =~= seq!["Correct. Check-calling with "@, hand_s@, " ("@, interaction_str@, ") on "@, board_s@, " is the best play. You have equity to continue but not the ideal conditions for a check-raise (either the board doesn't favour your range, or your draw alone doesn't justify building a large pot OOP). Call "@, t4@, " and re-evaluate on the turn."@]); } concat(&parts) }
        } else if bb_fav_strong {
            { let t5 = num(cr_size as u64); let parts = ["Check-calling with a strong hand on a BB-favorable board leaves value on the table. You should check-raise to ", t5.as_str(), " chips to build the pot while you're ahead and deny villain's equity from backdoor draws and overcards."]; proof { assert(views_of(parts@) =~= seq!["Check-calling with a strong hand on a BB-favorable board leaves value on the table. You should check-raise to "@, t5@, " chips to build the pot while you're ahead and deny villain's equity from backdoor draws and overcards."@]); } concat(&parts) }
        } else {
            { let t6 = num(cr_size as u64); let parts = ["Check-calling is passive here. With ", interaction_str, " on ", board_s.as_str(), ", a check-raise to ", t6.as_str(), " chips extracts more value and applies pressure. Calling gives villain a free turn card to improve or bluff again cheaply."]; proof { assert(views_of(parts@) =~= seq!["Check-calling is passive here. With "@, interaction_str@, " on "@, board_s@, ", a check-raise to "@, t6@, " chips extracts more value and applies pressure. Calling gives villain a free turn card to improve or bluff again cheaply."@]); } concat(&parts) }
        },
    };

    let cr_exp = match text_style {
        TextStyle::Simple => match (board_favour, interaction, correct) {
            (BoardFavour::BBFavorable, HandInteraction::Strong, 2) => { let t7 = num(cr_size as u64); let parts = ["Correct — raise to ", t7.as_str(), " chips! You have a strong hand and the cards are in your favour. Build the pot while you're ahead."]; proof { assert(views_of(parts@) =~= seq!["Correct — raise to "@, t7@, " chips! You have a strong hand and the cards are in your favour. Build the pot while you're ahead."@]); } concat(&parts) },
            (_, HandInteraction::Draw, 2) => { let t8 = num(cr_size as u64); let parts = ["Correct — raise to ", t8.as_str(), " chips! You have a powerful draw with about a 54% chance of winning. Raising wins the pot immediately if your opponent folds, and builds a big pot when they call."]; proof { assert(views_of(parts@) =~= seq!["Correct — raise to "@, t8@, " chips! You have a powerful draw with about a 54% chance of winning. Raising wins the pot immediately if your opponent folds, and builds a big pot when they call."@]); } concat(&parts) },
            (BoardFavour::IPFavorable, _, _) => "Raising here is a bluff into your opponent's strong card range. They're unlikely to fold and you risk a lot of chips with a weak hand.".to_owned(),
            _ => "Raising without a very strong hand or a powerful draw is too aggressive here. Call instead.".to_owned(),
        },
        TextStyle::Technical => match (board_favour, interaction, correct) {
            (BoardFavour::BBFavorable, HandInteraction::Strong, 2) => { let t9 = num(cr_size as u64); let t10 = num(villain_bet as u64); let parts = ["Correct. Check-raising to ", t9.as_str(), " chips (2.5\u{00d7} villain's ", t10.as_str(), ") with ", hand_s.as_str(), " (", interaction_str, ") on a ", board_favour_str, " board (", board_s.as_str(), ") is the highest-EV play. This board hits your BB defending range (low/connected) much harder than villain's late-position range. You protect your hand, build the pot with the best of it, and deny villain cheap equity."]; proof { assert(views_of(parts@) =~= seq!["Correct. Check-raising to "@, t9@, " chips (2.5\u{00d7} villain's "@, t10@, ") with "@, hand_s@, " ("@, interaction_str@, ") on a "@, board_favour_str@, " board ("@, board_s@, ") is the highest-EV play. This board hits your BB defending range (low/connected) much harder than villain's late-position range. You protect your hand, build the pot with the best of it, and deny villain cheap equity."@]); } concat(&parts) },
            (_, HandInteraction::Draw, 2) => { let t11 = num(cr_size as u64); let t12 = num(villain_bet as u64); let parts = ["Correct. Check-raising to ", t11.as_str(), " chips (2.5\u{00d7} villain's ", t12.as_str(), ") as a combo-draw semi-bluff with ", hand_s.as_str(), " on ", board_s.as_str(), " is correct. Your combo draw has ~54% equity on the flop — you are a slight favourite! The check-raise wins the pot outright when villain folds, and builds a large pot when villain calls into your equity advantage."]; proof { assert(views_of(parts@) =~= seq!["Correct. Check-raising to "@, t11@, " chips (2.5\u{00d7} villain's "@, t12@, ") as a combo-draw semi-bluff with "@, hand_s@, " on "@, board_s@, " is correct. Your combo draw has ~54% equity on the flop — you are a slight favourite! The check-raise wins the pot outright when villain folds, and builds a large pot when villain calls into your equity advantage."@]); } concat(&parts) },
            (BoardFavour::IPFavorable, _, _) => {  let parts = ["Check-raising on a ", board_favour_str, " board (", board_s.as_str(), ") with ", hand_s.as_str(), " (", interaction_str, ") is a bluff into villain's strongest range. This board connects heavily with late-position preflop hands; your check-raise has very low fold equity and risks getting 3-bet off a weak hand."]; proof { assert(views_of(parts@) =~= seq!["Check-raising on a "@, board_favour_str@, " board ("@, board_s@, ") with "@, hand_s@, " ("@, interaction_str@, ") is a bluff into villain's strongest range. This board connects heavily with late-position preflop hands; your check-raise has very low fold equity and risks getting 3-bet off a weak hand."@]); } concat(&parts) },
            _ => {  let parts = ["Check-raising with only a ", interaction_str, " (not a combo draw) may be too aggressive here. Without either a very strong made hand or a combo draw, the check-raise over-commits chips OOP without sufficient equity to back it up."]; proof { assert(views_of(parts@) =~= seq!["Check-raising with only a "@, interaction_str@, " (not a combo draw) may be too aggressive here. Without either a very strong made hand or a combo draw, the check-raise over-commits chips OOP without sufficient equity to back it up."@]); } concat(&parts) },
        },
    };

    let explanation_0 = fold_exp;
    let explanation_1 = call_exp;
    let explanation_2 = cr_exp;
    let answers = vec![
        option_at(0, "Fold".to_owned(), correct, explanation_0),
        option_at(1, "Call".to_owned(), correct, explanation_1),
        option_at(2, cat3("Raise to ", num((cr_size / bb) as u64).as_str(), " BB"), correct, explanation_2),
    ];

    let players = vec![
        PlayerState { seat: 1, position: hero_pos, stack, is_hero: true, is_active: true },
        PlayerState { seat: 2, position: villain_pos, stack, is_hero: false, is_active: true },
    ];

    let table_setup = TableSetup {
        game_type: GameType::CashGame,
        hero_position: hero_pos,
        hero_hand,
        board: d.board.clone(),
        players,
        pot_size: pot,
        current_bet: villain_bet,
    };

    TrainingScenario {
        scenario_id,
        topic: TrainingTopic::CheckRaiseSpot,
        branch_key,
        table_setup,
        question,
        answers,
    }
}

// ═══════════════════════════════════════════════════════════════════════════════
// T8 — Semi-Bluff Decision (SB-)
// ═══════════════════════════════════════════════════════════════════════════════

/// Everything drawn at random for a semi-bluff spot.
pub struct SemiBluffDraw {
    pub hero_hand: [Card; 2],
    pub board: Vec<Card>,
    pub stack_bb: u32,
    pub pot_bb: u32,
    pub villain_bet_pct: u32,
    pub hero_is_ip: bool,
}

pub open spec fn sb_draw_valid(d: SemiBluffDraw, diff: DifficultyLevel) -> bool {
    &&& d.board@.len() == 3
    &&& fresh_cards(d.hero_hand@, d.board@)
    &&& match diff {
        DifficultyLevel::Beginner => d.stack_bb == 60 && 8 <= d.pot_bb <= 14,
        DifficultyLevel::Intermediate => 35 <= d.stack_bb <= 120 && 6 <= d.pot_bb <= 20,
        DifficultyLevel::Advanced => 20 <= d.stack_bb <= 200 && 4 <= d.pot_bb <= 30,
    }
    &&& 50 <= d.villain_bet_pct <= 75
}

/// Raise (C) a combo draw, or an open-ender with 40+ BB; fold (A) a gutshot;
/// otherwise call (B).
pub open spec fn sb_correct(dt: DrawType, stack_bb: u32) -> int {
    match dt {
        DrawType::ComboDraw => 2,
        DrawType::OESD => if stack_bb >= 40 { 2 } else { 1 },
        DrawType::FlushDraw => 1,
        DrawType::GutShot => 0,
    }
}

pub open spec fn sb_branch(dt: DrawType, stack_bb: u32) -> Seq<char> {
    match dt {
        DrawType::ComboDraw => "ComboDraw"@,
        DrawType::FlushDraw => "FlushDraw"@,
        DrawType::OESD => "OESD:"@ + if stack_bb >= 40 { "Deep"@ } else { "Short"@ },
        DrawType::GutShot => "GutShot"@,
    }
}

/// Semi-bluff scenario: hero on the Button against the Big Blind when in
/// position, in the Big Blind against the Cutoff otherwise.
pub open spec fn sb_decision(d: SemiBluffDraw) -> Decision {
    let dt = draw_spec(d.board@);
    let stack = (d.stack_bb * 2) as u32;
    let pot = d.pot_bb * 2;
    let hero_pos = if d.hero_is_ip { Position::BTN } else { Position::BB };
    let villain_pos = if d.hero_is_ip { Position::BB } else { Position::CO };
    Decision {
        topic: TrainingTopic::SemiBluffDecision,
        branch: sb_branch(dt, d.stack_bb),
        game_type: GameType::CashGame,
        hero_pos: hero_pos,
        hand: d.hero_hand,
        board: d.board@,
        players: heads_up_spec(hero_pos, villain_pos, stack, stack),
        pot: pot as u32,
        bet: cr_villain_bet(pot, d.villain_bet_pct as int) as u32,
        answers: 3,
        labels: raise_labels(cr_villain_bet(pot, d.villain_bet_pct as int)),
        correct: sb_correct(dt, d.stack_bb),
    }
}

/// Every text of a scenario built from `d` is non-empty: the question, the
/// branch key, and each answer's label and explanation.
#[verifier::spinoff_prover]
#[verifier::rlimit(50)]
pub proof fn lemma_sb_texts_nonempty(d: SemiBluffDraw, ts: TextStyle)
    ensures
        sb_question(d, ts).len() > 0,
        sb_decision(d).branch.len() > 0,
        forall|i: int| 0 <= i < sb_decision(d).labels.len() ==> #[trigger] sb_decision(d).labels[i].len() > 0,
        forall|i: int| 0 <= i < sb_explanations(d, ts).len() ==> #[trigger] sb_explanations(d, ts)[i].len() > 0,
{
    reveal_strlit("% of the time. What do you do?");
    reveal_strlit("% equity. What do you do?");
    reveal_strlit("acting last (good position)");
    reveal_strlit("acting first (tough position)");
    reveal_strlit("in position");
    reveal_strlit("out of position");
    reveal_strlit(" wins often enough to continue.");
    reveal_strlit("% equity — your draw falls well short at 17%. Even with implied odds, a gutshot rarely justifies the call, and raising as a semi-bluff risks too many chips with insufficient raw equity.");
    reveal_strlit("% equity) is too tight here. You have enough equity to continue — either by calling to realise it, or raising as a semi-bluff when conditions are right.");
    reveal_strlit(" puts more pressure on your opponent and wins the pot more often.");
    reveal_strlit(" (IP) is the best play. You have position to control the pot on future streets — check back or bet when you hit, give up cheaply when you miss. Raising risks bloating the pot without the positional advantage needed to navigate it well.");
    reveal_strlit(" BB) and/or position make a semi-bluff raise suboptimal — calling lets you realise equity without bloating the pot OOP or risking a re-raise at shallow depth.");
    reveal_strlit(" chips adds fold equity on top of your draw equity, making raising more profitable.");
    reveal_strlit(" chips! Your two-way draw wins about 54% of the time — you're actually a slight favourite! Raising wins the pot right now if your opponent folds, or builds a big pot when you're favoured.");
    reveal_strlit(" chips! A straight draw on both ends wins about 32% of the time, plus raising might make your opponent fold right now. The raise pays off whether they fold or call.");
    reveal_strlit(" is the highest-EV play. Your combo draw has ~54% equity — you are a slight favourite! Raising wins the pot outright when villain folds (~40% of the time) and builds a large pot when villain calls into your equity edge. Never just call with a combo draw when you can apply maximum pressure.");
    reveal_strlit(" BB the semi-bluff raise sets up a profitable shove on the turn or a clean check when you miss.");
    reveal_strlit(" is too aggressive here. You risk building a large pot without sufficient equity to back it up. Calling is the stronger line.");
    reveal_strlit("Correct — fold. An inside straight draw only wins about 17% of the time (roughly 1 in 6). The price to call is too high for those odds. Save your chips.");
    reveal_strlit("Correct — call. You have a flush draw (~35% chance) and you're in good position (acting last). Call and see the next card — if you hit your flush you can bet big.");
    reveal_strlit("Correct — call. Your draw wins enough of the time to make calling worth it here. Just calling is safer than raising when you're acting first.");
    reveal_strlit("Raising here is too risky. Your draw doesn't win often enough to justify putting in so many chips. Just call.");
    reveal_strlit("ComboDraw");
    reveal_strlit("FlushDraw");
    reveal_strlit("OESD:");
    reveal_strlit("Deep");
    reveal_strlit("Short");
    reveal_strlit("GutShot");
    reveal_strlit("Fold");
    reveal_strlit("Call");
    reveal_strlit("Raise to ");
    reveal_strlit(" BB");
}

/// No text of a scenario built from `d` in text style `ts` is empty.
pub proof fn lemma_sb_scenario_texts(d: SemiBluffDraw, ts: TextStyle, id: Seq<char>, r: TrainingScenario)
    requires
        sb_outcome(d, id, r),
        r.question@ == sb_question(d, ts),
        explains(r, sb_explanations(d, ts)),
    ensures
        texts_non_empty(r),
{
    lemma_sb_texts_nonempty(d, ts);
    lemma_texts_shown(r, id, sb_decision(d), sb_question(d, ts), sb_explanations(d, ts));
}

/// The scenario shows `sb_decision(d)` under `id`.
pub open spec fn sb_outcome(d: SemiBluffDraw, id: Seq<char>, r: TrainingScenario) -> bool {
    shows(r, id, sb_decision(d))
}

/// The explanations of the answers of a semi-bluff scenario, in text style `ts`.
pub open spec fn sb_explanations(d: SemiBluffDraw, ts: TextStyle) -> Seq<Seq<char>> {
    let draw_type = draw_spec(d.board@);
    let hero_is_ip = d.hero_is_ip;
    let stack_bb = d.stack_bb;
    let pot = d.pot_bb * 2;
    let villain_bet = cr_villain_bet(pot, d.villain_bet_pct as int);
    let raise_size = villain_bet * 5 / 2;
    let hero_pos = if hero_is_ip { Position::BTN } else { Position::BB };
    let board_s = board_chars(d.board@);
    let pos_str = hero_pos.name_text();
    let equity = draw_equity_spec(draw_type);
    let position_label = if hero_is_ip { "in position"@ } else { "out of position"@ };
    let need_t = tenths(pct_tenths(villain_bet as nat, (pot + villain_bet) as nat));
    let draw_type_label = draw_type.name_text();
    let draw_type_simple_label = draw_simple_text(draw_type);
    let correct = sb_correct(draw_type, stack_bb) as usize;
    let fold_exp = match ts {
        TextStyle::Simple => if draw_type == DrawType::GutShot {
            "Correct — fold. An inside straight draw only wins about 17% of the time (roughly 1 in 6). The price to call is too high for those odds. Save your chips."@
        } else {
            concat_spec(seq!["Folding is a mistake — your "@, draw_type_simple_label, " wins often enough to continue."@])
        },
        TextStyle::Technical => if draw_type == DrawType::GutShot {
            concat_spec(seq!["Correct. A gutshot (~17% equity) gives you roughly 4 outs. To call "@, decimal((villain_bet) as nat), " chips into a "@, decimal(((pot + villain_bet)) as nat), "-chip pot you need "@, need_t, "% equity — your draw falls well short at 17%. Even with implied odds, a gutshot rarely justifies the call, and raising as a semi-bluff risks too many chips with insufficient raw equity."@])
        } else {
            concat_spec(seq!["Folding a "@, draw_type_label, " (~"@, decimal(((equity)) as nat), "% equity) is too tight here. You have enough equity to continue — either by calling to realise it, or raising as a semi-bluff when conditions are right."@])
        },
    };
    let call_exp = match ts {
        TextStyle::Simple => match (draw_type, hero_is_ip, correct) {
            (DrawType::FlushDraw, true, 1) => "Correct — call. You have a flush draw (~35% chance) and you're in good position (acting last). Call and see the next card — if you hit your flush you can bet big."@,
            (DrawType::FlushDraw, false, 1) | (DrawType::OESD, _, 1) => "Correct — call. Your draw wins enough of the time to make calling worth it here. Just calling is safer than raising when you're acting first."@,
            _ => concat_spec(seq!["Calling is an option, but raising with your "@, draw_type_simple_label, " puts more pressure on your opponent and wins the pot more often."@]),
        },
        TextStyle::Technical => match (draw_type, hero_is_ip, correct) {
            (DrawType::FlushDraw, true, 1) => concat_spec(seq!["Correct. Calling with a "@, draw_type_label, " (~"@, decimal(((equity)) as nat), "% equity) from "@, pos_str, " (IP) is the best play. You have position to control the pot on future streets — check back or bet when you hit, give up cheaply when you miss. Raising risks bloating the pot without the positional advantage needed to navigate it well."@]),
            (DrawType::FlushDraw, false, 1) | (DrawType::OESD, _, 1) => concat_spec(seq!["Correct. Calling with a "@, draw_type_label, " (~"@, decimal(((equity)) as nat), "% equity) "@, position_label, " is correct here. Your stack depth ("@, decimal((stack_bb) as nat), " BB) and/or position make a semi-bluff raise suboptimal — calling lets you realise equity without bloating the pot OOP or risking a re-raise at shallow depth."@]),
            _ => concat_spec(seq!["Calling is an option but not the highest-EV line here. With a "@, draw_type_label, " (~"@, decimal(((equity)) as nat), "% equity) "@, position_label, ", a semi-bluff raise to "@, decimal((raise_size) as nat), " chips adds fold equity on top of your draw equity, making raising more profitable."@]),
        },
    };
    let raise_exp = match ts {
        TextStyle::Simple => match (draw_type, hero_is_ip, correct) {
            (DrawType::ComboDraw, _, 2) => concat_spec(seq!["Correct — raise to "@, decimal((raise_size) as nat), " chips! Your two-way draw wins about 54% of the time — you're actually a slight favourite! Raising wins the pot right now if your opponent folds, or builds a big pot when you're favoured."@]),
            (DrawType::OESD, _, 2) => concat_spec(seq!["Correct — raise to "@, decimal((raise_size) as nat), " chips! A straight draw on both ends wins about 32% of the time, plus raising might make your opponent fold right now. The raise pays off whether they fold or call."@]),
            _ => "Raising here is too risky. Your draw doesn't win often enough to justify putting in so many chips. Just call."@,
        },
        TextStyle::Technical => match (draw_type, hero_is_ip, correct) {
            (DrawType::ComboDraw, _, 2) => concat_spec(seq!["Correct. Raising to "@, decimal((raise_size) as nat), " chips (2.5\u{00d7} villain's "@, decimal((villain_bet) as nat), ") with a "@, draw_type_label, " on "@, board_s, " is the highest-EV play. Your combo draw has ~54% equity — you are a slight favourite! Raising wins the pot outright when villain folds (~40% of the time) and builds a large pot when villain calls into your equity edge. Never just call with a combo draw when you can apply maximum pressure."@]),
            (DrawType::OESD, _, 2) => concat_spec(seq!["Correct. Raising to "@, decimal((raise_size) as nat), " chips (2.5\u{00d7} villain's "@, decimal((villain_bet) as nat), ") with an "@, draw_type_label, " at "@, decimal((stack_bb) as nat), " BB depth is correct. Your OESD has ~32% equity plus significant fold equity: villain must fold hands like top pair to avoid getting stacked. At "@, decimal((stack_bb) as nat), " BB the semi-bluff raise sets up a profitable shove on the turn or a clean check when you miss."@]),
            _ => concat_spec(seq!["Raising to "@, decimal((raise_size) as nat), " chips as a semi-bluff with a "@, draw_type_label, " "@, position_label, " is too aggressive here. You risk building a large pot without sufficient equity to back it up. Calling is the stronger line."@]),
        },
    };
    seq![
        fold_exp,
        call_exp,
        raise_exp,
    ]
}

/// The question of a semi-bluff scenario in text style `ts`.
pub open spec fn sb_question(d: SemiBluffDraw, ts: TextStyle) -> Seq<char> {
    let dt = draw_spec(d.board@);
    let pot = d.pot_bb * 2;
    let hero_pos = if d.hero_is_ip { Position::BTN } else { Position::BB };
    let vb = cr_villain_bet(pot, d.villain_bet_pct as int);
    match ts {
        TextStyle::Simple => concat_spec(seq!["You have "@, hand_chars(d.hero_hand), " and are chasing a "@, draw_simple_text(dt), " after the first three cards: "@, board_chars(d.board@), ". You're "@, (if d.hero_is_ip { "acting last (good position)"@ } else { "acting first (tough position)"@ }), ". Your opponent bet "@, decimal(vb as nat), " chips. Pot: "@, decimal(pot as nat), " chips. Your draw wins roughly "@, decimal((draw_equity_spec(dt)) as nat), "% of the time. What do you do?"@]),
        TextStyle::Technical => concat_spec(seq!["You hold "@, hand_chars(d.hero_hand), " and have a "@, dt.name_text(), " on the flop "@, board_chars(d.board@), ". You are "@, (if d.hero_is_ip { "in position"@ } else { "out of position"@ }), " ("@, hero_pos.name_text(), ", "@, decimal(d.stack_bb as nat), " BB deep). Villain bets "@, decimal(vb as nat), " chips ("@, decimal(d.villain_bet_pct as nat), "% pot). Pot is "@, decimal(pot as nat), " chips ("@, decimal(d.pot_bb as nat), " BB). Your "@, dt.name_text(), " has ~"@, decimal((draw_equity_spec(dt)) as nat), "% equity. What do you do?"@]),
    }
}

/// T8 — Semi-Bluff Decision (SB-).
///
/// RNG order: shuffled deck → hand and flop → stack/pot → villain bet
/// percent → coin flip (hero in position).
pub fn generate_semi_bluff(
    rng: &mut StdRng,
    difficulty: DifficultyLevel,
    scenario_id: String,
    text_style: TextStyle,
) -> (r: TrainingScenario)
    ensures
        exists|d: SemiBluffDraw|
            sb_draw_valid(d, difficulty) && #[trigger] sb_outcome(d, scenario_id@, r) && r.question@
                == sb_question(d, text_style) && explains(r, sb_explanations(d, text_style)),
{
    let (hero_hand, board) = deal(rng, 3);
    let (stack_bb, pot_bb) = match difficulty {
        DifficultyLevel::Beginner => (60u32, draw_u32(rng, 8, 14)),
        DifficultyLevel::Intermediate => {
            let s = draw_u32(rng, 35, 120);
            let p = draw_u32(rng, 6, 20);
            (s, p)
        },
        DifficultyLevel::Advanced => {
            let s = draw_u32(rng, 20, 200);
            let p = draw_u32(rng, 4, 30);
            (s, p)
        },
    };
    // Villain bets 50-75% pot
    let villain_bet_pct: u32 = draw_u32(rng, 50, 75);
    // Hero is randomly IP or OOP
    let hero_is_ip = coin_flip(rng);
    let d = SemiBluffDraw { hero_hand, board, stack_bb, pot_bb, villain_bet_pct, hero_is_ip };
    let r = build_semi_bluff(&d, scenario_id, text_style);
    assert(sb_draw_valid(d, difficulty));
    r
}

/// Build the semi-bluff scenario for draw `d`.
#[verifier::spinoff_prover]
#[verifier::rlimit(50)]
pub fn build_semi_bluff(d: &SemiBluffDraw, scenario_id: String, text_style: TextStyle) -> (r: TrainingScenario)
    requires
        d.stack_bb <= 200,
        4 <= d.pot_bb <= 30,
        d.villain_bet_pct <= 100,
    ensures
        sb_outcome(*d, scenario_id@, r),
        r.question@ == sb_question(*d, text_style),
        explains(r, sb_explanations(*d, text_style)),
{
    let hero_hand = d.hero_hand;
    let stack_bb = d.stack_bb;
    let pot_bb = d.pot_bb;
    let villain_bet_pct = d.villain_bet_pct;
    let hero_is_ip = d.hero_is_ip;
    let draw_type = classify_draw(d.board.as_slice());

    let bb = 2u32;
    let pot = pot_bb * bb;
    let stack = stack_bb * bb;

    assert(pot * villain_bet_pct <= 6000) by (nonlinear_arith)
        requires pot <= 60, villain_bet_pct <= 100;
    let raw_bet = pot * villain_bet_pct / 100;
    let villain_bet = if raw_bet >= bb { raw_bet } else { bb };
    let raise_size = villain_bet * 5 / 2; // 2.5x semi-bluff raise

    let hero_pos = if hero_is_ip { Position::BTN } else { Position::BB };
    let villain_pos = if hero_is_ip { Position::BB } else { Position::CO };

    let branch_key = match draw_type {
        DrawType::ComboDraw => "ComboDraw".to_owned(),
        DrawType::FlushDraw => "FlushDraw".to_owned(),
        DrawType::OESD => crate::text::cat2("OESD:", if stack_bb >= 40 { "Deep" } else { "Short" }),
        DrawType::GutShot => "GutShot".to_owned(),
    };

    let board_s = board_str(d.board.as_slice());
    let hand_s = hand_str(hero_hand);
    let pos_str = hero_pos.name();
    let equity = draw_equity_pct(draw_type);
    let position_label = if hero_is_ip { "in position" } else { "out of position" };
    let position_label_simple = if hero_is_ip { "acting last (good position)" } else { "acting first (tough position)" };
    // break-even equity of a call, one decimal
    let need_t = tenths_text(percent_tenths(villain_bet as u64, (pot + villain_bet) as u64));

    let draw_type_label = draw_type.name();
    let draw_type_simple_label = draw_simple_label(draw_type);

    let correct: usize = match draw_type {
        DrawType::ComboDraw => 2,
        DrawType::OESD => if stack_bb >= 40 { 2 } else { 1 },
        DrawType::FlushDraw => 1,
        DrawType::GutShot => 0,
    };

    let question = match text_style {
        TextStyle::Simple => {
            let qs0 = num(villain_bet as u64);
            let qs1 = num(pot as u64);
            let qs2 = num((equity) as u64);
            let parts = ["You have ", hand_s.as_str(), " and are chasing a ", draw_type_simple_label, " after the first three cards: ", board_s.as_str(), ". You're ", position_label_simple, ". Your opponent bet ", qs0.as_str(), " chips. Pot: ", qs1.as_str(), " chips. Your draw wins roughly ", qs2.as_str(), "% of the time. What do you do?"];
            proof {
                assert(views_of(parts@) =~= seq!["You have "@, hand_s@, " and are chasing a "@, draw_type_simple_label@, " after the first three cards: "@, board_s@, ". You're "@, position_label_simple@, ". Your opponent bet "@, qs0@, " chips. Pot: "@, qs1@, " chips. Your draw wins roughly "@, qs2@, "% of the time. What do you do?"@]);
            }
            concat(&parts)
        },
        TextStyle::Technical => {
            let qt0 = num(stack_bb as u64);
            let qt1 = num(villain_bet as u64);
            let qt2 = num(villain_bet_pct as u64);
            let qt3 = num(pot as u64);
            let qt4 = num(pot_bb as u64);
            let qt5 = num((equity) as u64);
            let parts = ["You hold ", hand_s.as_str(), " and have a ", draw_type_label, " on the flop ", board_s.as_str(), ". You are ", position_label, " (", pos_str, ", ", qt0.as_str(), " BB deep). Villain bets ", qt1.as_str(), " chips (", qt2.as_str(), "% pot). Pot is ", qt3.as_str(), " chips (", qt4.as_str(), " BB). Your ", draw_type_label, " has ~", qt5.as_str(), "% equity. What do you do?"];
            proof {
                assert(views_of(parts@) =~= seq!["You hold "@, hand_s@, " and have a "@, draw_type_label@, " on the flop "@, board_s@, ". You are "@, position_label@, " ("@, pos_str@, ", "@, qt0@, " BB deep). Villain bets "@, qt1@, " chips ("@, qt2@, "% pot). Pot is "@, qt3@, " chips ("@, qt4@, " BB). Your "@, draw_type_label@, " has ~"@, qt5@, "% equity. What do you do?"@]);
            }
            concat(&parts)
        },
    };

    // --- Explanations ---

    let fold_exp = match text_style {
        TextStyle::Simple => if draw_type == DrawType::GutShot {
            "Correct — fold. An inside straight draw only wins about 17% of the time (roughly 1 in 6). The price to call is too high for those odds. Save your chips.".to_owned()
        } else {
            {  let parts = ["Folding is a mistake — your ", draw_type_simple_label, " wins often enough to continue."]; proof { assert(views_of(parts@) =~= seq!["Folding is a mistake — your "@, draw_type_simple_label@, " wins often enough to continue."@]); } concat(&parts) }
        },
        TextStyle::Technical => if draw_type == DrawType::GutShot {
            { let t1 = num(villain_bet as u64); let t2 = num((pot + villain_bet) as u64); let parts = ["Correct. A gutshot (~17% equity) gives you roughly 4 outs. To call ", t1.as_str(), " chips into a ", t2.as_str(), "-chip pot you need ", need_t.as_str(), "% equity — your draw falls well short at 17%. Even with implied odds, a gutshot rarely justifies the call, and raising as a semi-bluff risks too many chips with insufficient raw equity."]; proof { assert(views_of(parts@) =~= seq!["Correct. A gutshot (~17% equity) gives you roughly 4 outs. To call "@, t1@, " chips into a "@, t2@, "-chip pot you need "@, need_t@, "% equity — your draw falls well short at 17%. Even with implied odds, a gutshot rarely justifies the call, and raising as a semi-bluff risks too many chips with insufficient raw equity."@]); } concat(&parts) }
        } else {
            { let t3 = num((equity) as u64); let parts = ["Folding a ", draw_type_label, " (~", t3.as_str(), "% equity) is too tight here. You have enough equity to continue — either by calling to realise it, or raising as a semi-bluff when conditions are right."]; proof { assert(views_of(parts@) =~= seq!["Folding a "@, draw_type_label@, " (~"@, t3@, "% equity) is too tight here. You have enough equity to continue — either by calling to realise it, or raising as a semi-bluff when conditions are right."@]); } concat(&parts) }
        },
    };

    let call_exp = match text_style {
        TextStyle::Simple => match (draw_type, hero_is_ip, correct) {
            (DrawType::FlushDraw, true, 1) => "Correct — call. You have a flush draw (~35% chance) and you're in good position (acting last). Call and see the next card — if you hit your flush you can bet big.".to_owned(),
            (DrawType::FlushDraw, false, 1) | (DrawType::OESD, _, 1) => "Correct — call. Your draw wins enough of the time to make calling worth it here. Just calling is safer than raising when you're acting first.".to_owned(),
            _ => {  let parts = ["Calling is an option, but raising with your ", draw_type_simple_label, " puts more pressure on your opponent and wins the pot more often."]; proof { assert(views_of(parts@) =~= seq!["Calling is an option, but raising with your "@, draw_type_simple_label@, " puts more pressure on your opponent and wins the pot more often."@]); } concat(&parts) },
        },
        TextStyle::Technical => match (draw_type, hero_is_ip, correct) {
            (DrawType::FlushDraw, true, 1) => { let t4 = num((equity) as u64); let parts = ["Correct. Calling with a ", draw_type_label, " (~", t4.as_str(), "% equity) from ", pos_str, " (IP) is the best play. You have position to control the pot on future streets — check back or bet when you hit, give up cheaply when you miss. Raising risks bloating the pot without the positional advantage needed to navigate it well."]; proof { assert(views_of(parts@) =~= seq!["Correct. Calling with a "@, draw_type_label@, " (~"@, t4@, "% equity) from "@, pos_str@, " (IP) is the best play. You have position to control the pot on future streets — check back or bet when you hit, give up cheaply when you miss. Raising risks bloating the pot without the positional advantage needed to navigate it well."@]); } concat(&parts) },
            (DrawType::FlushDraw, false, 1) | (DrawType::OESD, _, 1) => { let t5 = num((equity) as u64); let t6 = num(stack_bb as u64); let parts = ["Correct. Calling with a ", draw_type_label, " (~", t5.as_str(), "% equity) ", position_label, " is correct here. Your stack depth (", t6.as_str(), " BB) and/or position make a semi-bluff raise suboptimal — calling lets you realise equity without bloating the pot OOP or risking a re-raise at shallow depth."]; proof { assert(views_of(parts@) =~= seq!["Correct. Calling with a "@, draw_type_label@, " (~"@, t5@, "% equity) "@, position_label@, " is correct here. Your stack depth ("@, t6@, " BB) and/or position make a semi-bluff raise suboptimal — calling lets you realise equity without bloating the pot OOP or risking a re-raise at shallow depth."@]); } concat(&parts) },
            _ => { let t7 = num((equity) as u64); let t8 = num(raise_size as u64); let parts = ["Calling is an option but not the highest-EV line here. With a ", draw_type_label, " (~", t7.as_str(), "% equity) ", position_label, ", a semi-bluff raise to ", t8.as_str(), " chips adds fold equity on top of your draw equity, making raising more profitable."]; proof { assert(views_of(parts@) =~= seq!["Calling is an option but not the highest-EV line here. With a "@, draw_type_label@, " (~"@, t7@, "% equity) "@, position_label@, ", a semi-bluff raise to "@, t8@, " chips adds fold equity on top of your draw equity, making raising more profitable."@]); } concat(&parts) },
        },
    };

    let raise_exp = match text_style {
        TextStyle::Simple => match (draw_type, hero_is_ip, correct) {
            (DrawType::ComboDraw, _, 2) => { let t9 = num(raise_size as u64); let parts = ["Correct — raise to ", t9.as_str(), " chips! Your two-way draw wins about 54% of the time — you're actually a slight favourite! Raising wins the pot right now if your opponent folds, or builds a big pot when you're favoured."]; proof { assert(views_of(parts@) =~= seq!["Correct — raise to "@, t9@, " chips! Your two-way draw wins about 54% of the time — you're actually a slight favourite! Raising wins the pot right now if your opponent folds, or builds a big pot when you're favoured."@]); } concat(&parts) },
            (DrawType::OESD, _, 2) => { let t10 = num(raise_size as u64); let parts = ["Correct — raise to ", t10.as_str(), " chips! A straight draw on both ends wins about 32% of the time, plus raising might make your opponent fold right now. The raise pays off whether they fold or call."]; proof { assert(views_of(parts@) =~= seq!["Correct — raise to "@, t10@, " chips! A straight draw on both ends wins about 32% of the time, plus raising might make your opponent fold right now. The raise pays off whether they fold or call."@]); } concat(&parts) },
            _ => "Raising here is too risky. Your draw doesn't win often enough to justify putting in so many chips. Just call.".to_owned(),
        },
        TextStyle::Technical => match (draw_type, hero_is_ip, correct) {
            (DrawType::ComboDraw, _, 2) => { let t11 = num(raise_size as u64); let t12 = num(villain_bet as u64); let parts = ["Correct. Raising to ", t11.as_str(), " chips (2.5\u{00d7} villain's ", t12.as_str(), ") with a ", draw_type_label, " on ", board_s.as_str(), " is the highest-EV play. Your combo draw has ~54% equity — you are a slight favourite! Raising wins the pot outright when villain folds (~40% of the time) and builds a large pot when villain calls into your equity edge. Never just call with a combo draw when you can apply maximum pressure."]; proof { assert(views_of(parts@) =~= seq!["Correct. Raising to "@, t11@, " chips (2.5\u{00d7} villain's "@, t12@, ") with a "@, draw_type_label@, " on "@, board_s@, " is the highest-EV play. Your combo draw has ~54% equity — you are a slight favourite! Raising wins the pot outright when villain folds (~40% of the time) and builds a large pot when villain calls into your equity edge. Never just call with a combo draw when you can apply maximum pressure."@]); } concat(&parts) },
            (DrawType::OESD, _, 2) => { let t13 = num(raise_size as u64); let t14 = num(villain_bet as u64); let t15 = num(stack_bb as u64); let t16 = num(stack_bb as u64); let parts = ["Correct. Raising to ", t13.as_str(), " chips (2.5\u{00d7} villain's ", t14.as_str(), ") with an ", draw_type_label, " at ", t15.as_str(), " BB depth is correct. Your OESD has ~32% equity plus significant fold equity: villain must fold hands like top pair to avoid getting stacked. At ", t16.as_str(), " BB the semi-bluff raise sets up a profitable shove on the turn or a clean check when you miss."]; proof { assert(views_of(parts@) =~= seq!["Correct. Raising to "@, t13@, " chips (2.5\u{00d7} villain's "@, t14@, ") with an "@, draw_type_label@, " at "@, t15@, " BB depth is correct. Your OESD has ~32% equity plus significant fold equity: villain must fold hands like top pair to avoid getting stacked. At "@, t16@, " BB the semi-bluff raise sets up a profitable shove on the turn or a clean check when you miss."@]); } concat(&parts) },
            _ => { let t17 = num(raise_size as u64); let parts = ["Raising to ", t17.as_str(), " chips as a semi-bluff with a ", draw_type_label, " ", position_label, " is too aggressive here. You risk building a large pot without sufficient equity to back it up. Calling is the stronger line."]; proof { assert(views_of(parts@) =~= seq!["Raising to "@, t17@, " chips as a semi-bluff with a "@, draw_type_label@, " "@, position_label@, " is too aggressive here. You risk building a large pot without sufficient equity to back it up. Calling is the stronger line."@]); } concat(&parts) },
        },
    };

    let explanation_0 = fold_exp;
    let explanation_1 = call_exp;
    let explanation_2 = raise_exp;
    let answers = vec![
        option_at(0, "Fold".to_owned(), correct, explanation_0),
        option_at(1, "Call".to_owned(), correct, explanation_1),
        option_at(2, cat3("Raise to ", num((raise_size / bb) as u64).as_str(), " BB"), correct, explanation_2),
    ];

    let players = vec![
        PlayerState { seat: 1, position: villain_pos, stack, is_hero: false, is_active: true },
        PlayerState { seat: 2, position: hero_pos, stack, is_hero: true, is_active: true },
    ];

    let table_setup = TableSetup {
        game_type: GameType::CashGame,
        hero_position: hero_pos,
        hero_hand,
        board: d.board.clone(),
        players,
        pot_size: pot,
        current_bet: villain_bet,
    };

    TrainingScenario {
        scenario_id,
        topic: TrainingTopic::SemiBluffDecision,
        branch_key,
        table_setup,
        question,
        answers,
    }
}


// ═══════════════════════════════════════════════════════════════════════════════
// T13 — 3-Bet Pot C-Bet (3B-)
// ═══════════════════════════════════════════════════════════════════════════════

/// Flop texture in a 3-bet pot continuation-bet spot.
#[derive(Debug, Clone, Copy, PartialEq, Eq, Structural)]
pub enum FlopTexture {
    /// Rainbow, uncoordinated — villain's calling range hits infrequently.
    Dry,
    /// Two-tone or connected — villain has many draws and top pairs.
    Wet,
}

/// Hero's flop hand strength as the 3-better.
#[derive(Debug, Clone, Copy, PartialEq, Eq, Structural)]
pub enum FlopStrength {
    /// Top pair+, overpair, set — clear c-bet.
    Strong,
    /// Missed, underpair to board — consider giving up.
    Weak,
}

impl FlopTexture {
    /// The text that `name` returns.
    pub open spec fn name_text(self) -> Seq<char> {
        match self {
            FlopTexture::Dry => "dry (rainbow, uncoordinated)"@,
            FlopTexture::Wet => "wet (two-tone / connected)"@,
        }
    }

    /// Human-readable description.
    pub fn name(&self) -> (s: &'static str)
        ensures
            s@ == self.name_text(),
    {
        match self {
            FlopTexture::Dry => "dry (rainbow, uncoordinated)",
            FlopTexture::Wet => "wet (two-tone / connected)",
        }
    }
}

impl FlopStrength {
    /// The text that `name` returns.
    pub open spec fn name_text(self) -> Seq<char> {
        match self {
            FlopStrength::Strong => "strong (top pair+ / overpair / set)"@,
            FlopStrength::Weak => "weak (missed / underpair to board)"@,
        }
    }

    /// Human-readable description.
    pub fn name(&self) -> (s: &'static str)
        ensures
            s@ == self.name_text(),
    {
        match self {
            FlopStrength::Strong => "strong (top pair+ / overpair / set)",
            FlopStrength::Weak => "weak (missed / underpair to board)",
        }
    }
}

/// Everything drawn at random for a 3-bet pot c-bet spot.
pub struct ThreeBetDraw {
    pub hero_hand: [Card; 2],
    pub board: Vec<Card>,
    pub texture: FlopTexture,
    pub strength: FlopStrength,
    pub pot_bb: u32,
    pub stack_bb: u32,
}

pub open spec fn tb_draw_valid(d: ThreeBetDraw, diff: DifficultyLevel) -> bool {
    &&& d.board@.len() == 3
    &&& fresh_cards(d.hero_hand@, d.board@)
    &&& match diff {
        DifficultyLevel::Beginner => 10 <= d.pot_bb <= 14 && d.stack_bb == 100,
        DifficultyLevel::Intermediate => 8 <= d.pot_bb <= 18 && 50 <= d.stack_bb <= 100,
        DifficultyLevel::Advanced => 6 <= d.pot_bb <= 22 && 30 <= d.stack_bb <= 150,
    }
}

/// Small c-bet (B) with a strong hand on a dry board, large c-bet (C) with a
/// strong hand on a wet board, check (A) with a weak hand.
pub open spec fn tb_correct(t: FlopTexture, s: FlopStrength) -> int {
    match (t, s) {
        (FlopTexture::Dry, FlopStrength::Strong) => 1,
        (FlopTexture::Wet, FlopStrength::Strong) => 2,
        _ => 0,
    }
}

pub open spec fn tb_branch(t: FlopTexture, s: FlopStrength) -> Seq<char> {
    match (t, s) {
        (FlopTexture::Dry, FlopStrength::Strong) => "Dry:Strong:SmallCbet"@,
        (FlopTexture::Wet, FlopStrength::Strong) => "Wet:Strong:LargeCbet"@,
        (FlopTexture::Dry, FlopStrength::Weak) => "Dry:Weak:Check"@,
        (FlopTexture::Wet, FlopStrength::Weak) => "Wet:Weak:Check"@,
    }
}

/// 3-bet pot c-bet scenario: hero on the Button, the Big Blind listed first.
pub open spec fn tb_decision(d: ThreeBetDraw) -> Decision {
    let stack = (d.stack_bb * 2) as u32;
    Decision {
        topic: TrainingTopic::ThreeBetPotCbet,
        branch: tb_branch(d.texture, d.strength),
        game_type: GameType::CashGame,
        hero_pos: Position::BTN,
        hand: d.hero_hand,
        board: d.board@,
        players: heads_up_spec(Position::BTN, Position::BB, stack, stack),
        pot: (d.pot_bb * 2) as u32,
        bet: 0,
        answers: 3,
        labels: seq![
            "Check back"@,
            "C-bet small ("@ + decimal(div_round_half_up(d.pot_bb * 2 * 33, 100) as nat) + " chips ~33%)"@,
            "C-bet large ("@ + decimal(div_round_half_up(d.pot_bb * 2 * 67, 100) as nat) + " chips ~67%)"@,
        ],
        correct: tb_correct(d.texture, d.strength),
    }
}

/// Every text of a scenario built from `d` is non-empty: the question, the
/// branch key, and each answer's label and explanation.
#[verifier::spinoff_prover]
#[verifier::rlimit(50)]
pub proof fn lemma_tb_texts_nonempty(d: ThreeBetDraw, ts: TextStyle)
    ensures
        tb_question(d, ts).len() > 0,
        tb_decision(d).branch.len() > 0,
        forall|i: int| 0 <= i < tb_decision(d).labels.len() ==> #[trigger] tb_decision(d).labels[i].len() > 0,
        forall|i: int| 0 <= i < tb_explanations(d, ts).len() ==> #[trigger] tb_explanations(d, ts)[i].len() > 0,
{
    reveal_strlit(" chips. Your opponent checked to you. What do you do?");
    reveal_strlit("). Villain checks to you. What do you do?");
    reveal_strlit(", any c-bet represents a meaningful commitment — if villain check-raises, folding is costly and calling risks stacking off with poor equity. Check to keep the pot small and preserve the option to bluff a favourable turn card.");
    reveal_strlit(") means bets are decisive — extract now while you have the equity lead. Villain's BB calling range is wide and misses the board frequently. C-bet to build the pot you are likely to win.");
    reveal_strlit(" — starting to build toward a natural stack commitment. Villain must act immediately with limited backdoor outs.");
    reveal_strlit(" board undersizes the protection needed. Villain has many draws (flush draws, straight draws) that can call 33% cheaply and realise equity. A larger bet (~67%) forces them to pay the correct price and extracts more from made hands that call.");
    reveal_strlit(". Any bet is hard to walk back in a 3-bet pot. Check back and reassess on the turn.");
    reveal_strlit(".");
    reveal_strlit(" board slightly over-bets the situation. Dry boards rarely hit villain's calling range — a smaller bet (33%) achieves the same fold equity while sizing more accurately to the low-draw texture. Save larger sizings for boards with more draws.");
    reveal_strlit(" puts a large portion of your stack in with poor equity. If called or raised, you have little fold equity and a tough decision. Check back instead.");
    reveal_strlit("Correct — check. Your hand is weak here. No need to bet — see the next card for free.");
    reveal_strlit("Checking here gives up on a hand worth betting. Take the initiative.");
    reveal_strlit("Correct — bet small. The board is dry (no likely draws). A small bet is enough to collect chips and keep pressure on.");
    reveal_strlit("A small bet isn't enough on this type of board. Bet bigger or check.");
    reveal_strlit("Correct — bet big! The board has possible draws. Make your opponent pay dearly to chase them.");
    reveal_strlit("Betting big here is too much — a check or small bet fits this situation better.");
    reveal_strlit("Check back");
    reveal_strlit("C-bet small (");
    reveal_strlit(" chips ~33%)");
    reveal_strlit("C-bet large (");
    reveal_strlit(" chips ~67%)");
    reveal_strlit("Dry:Strong:SmallCbet");
    reveal_strlit("Wet:Strong:LargeCbet");
    reveal_strlit("Dry:Weak:Check");
    reveal_strlit("Wet:Weak:Check");
}

/// No text of a scenario built from `d` in text style `ts` is empty.
pub proof fn lemma_tb_scenario_texts(d: ThreeBetDraw, ts: TextStyle, id: Seq<char>, r: TrainingScenario)
    requires
        tb_outcome(d, id, r),
        r.question@ == tb_question(d, ts),
        explains(r, tb_explanations(d, ts)),
    ensures
        texts_non_empty(r),
{
    lemma_tb_texts_nonempty(d, ts);
    lemma_texts_shown(r, id, tb_decision(d), tb_question(d, ts), tb_explanations(d, ts));
}

/// The scenario shows `tb_decision(d)` under `id`.
pub open spec fn tb_outcome(d: ThreeBetDraw, id: Seq<char>, r: TrainingScenario) -> bool {
    shows(r, id, tb_decision(d))
}

/// The explanations of the answers of a 3-bet pot c-bet scenario, in text style `ts`.
pub open spec fn tb_explanations(d: ThreeBetDraw, ts: TextStyle) -> Seq<Seq<char>> {
    let texture = d.texture;
    let fstrength = d.strength;
    let pot = d.pot_bb * 2;
    let stack = d.stack_bb * 2;
    let spr_t = tenths(single_tenths_spec(stack as nat, pot as nat));
    let texture_s = texture.name_text();
    let fstrength_s = fstrength.name_text();
    seq![
        match ts {
                TextStyle::Simple => match (texture, fstrength) {
                    (_, FlopStrength::Weak) => "Correct — check. Your hand is weak here. No need to bet — see the next card for free."@,
                    _ => "Checking here gives up on a hand worth betting. Take the initiative."@,
                },
                TextStyle::Technical => match (texture, fstrength) {
                    (_, FlopStrength::Weak) => concat_spec(seq!["Correct. Checking back a "@, fstrength_s, " on a "@, texture_s, " board is right in this 3-bet pot. With SPR ~"@, spr_t, ", any c-bet represents a meaningful commitment — if villain check-raises, folding is costly and calling risks stacking off with poor equity. Check to keep the pot small and preserve the option to bluff a favourable turn card."@]),
                    _ => concat_spec(seq!["Checking a "@, fstrength_s, " in this 3-bet pot surrenders value. The low SPR ("@, spr_t, ") means bets are decisive — extract now while you have the equity lead. Villain's BB calling range is wide and misses the board frequently. C-bet to build the pot you are likely to win."@]),
                },
            },
        match ts {
                TextStyle::Simple => match (texture, fstrength) {
                    (FlopTexture::Dry, FlopStrength::Strong) => "Correct — bet small. The board is dry (no likely draws). A small bet is enough to collect chips and keep pressure on."@,
                    (FlopTexture::Wet, FlopStrength::Strong) => "A small bet isn't enough on this type of board. Bet bigger or check."@,
                    _ => "A small bet isn't enough on this type of board. Bet bigger or check."@,
                },
                TextStyle::Technical => match (texture, fstrength) {
                    (FlopTexture::Dry, FlopStrength::Strong) => concat_spec(seq!["Correct. A small c-bet (~33% pot) with a "@, fstrength_s, " on a "@, texture_s, " board is optimal. Dry boards miss villain's wide BB calling range frequently, so a small probe achieves two goals: it extracts value from any pair or draw while — given SPR ~"@, spr_t, " — starting to build toward a natural stack commitment. Villain must act immediately with limited backdoor outs."@]),
                    (FlopTexture::Wet, FlopStrength::Strong) => concat_spec(seq!["A small c-bet on a "@, texture_s, " board undersizes the protection needed. Villain has many draws (flush draws, straight draws) that can call 33% cheaply and realise equity. A larger bet (~67%) forces them to pay the correct price and extracts more from made hands that call."@]),
                    _ => concat_spec(seq!["C-betting 33% with a "@, fstrength_s, " is still a significant commitment at SPR ~"@, spr_t, ". Any bet is hard to walk back in a 3-bet pot. Check back and reassess on the turn."@]),
                },
            },
        match ts {
                TextStyle::Simple => match (texture, fstrength) {
                    (FlopTexture::Wet, FlopStrength::Strong) => "Correct — bet big! The board has possible draws. Make your opponent pay dearly to chase them."@,
                    (FlopTexture::Dry, FlopStrength::Strong) => "Betting big here is too much — a check or small bet fits this situation better."@,
                    _ => "Betting big here is too much — a check or small bet fits this situation better."@,
                },
                TextStyle::Technical => match (texture, fstrength) {
                    (FlopTexture::Wet, FlopStrength::Strong) => concat_spec(seq!["Correct. A large c-bet (~67% pot) with a "@, fstrength_s, " on a "@, texture_s, " board is the highest-EV line. Wet boards give villain flush draws, straight draws, and top pairs. Betting large charges every draw immediately, denies cheap equity, and naturally commits the remaining stack at SPR ~"@, spr_t, "."@]),
                    (FlopTexture::Dry, FlopStrength::Strong) => concat_spec(seq!["A large c-bet on a "@, texture_s, " board slightly over-bets the situation. Dry boards rarely hit villain's calling range — a smaller bet (33%) achieves the same fold equity while sizing more accurately to the low-draw texture. Save larger sizings for boards with more draws."@]),
                    _ => concat_spec(seq!["C-betting 67% with a "@, fstrength_s, " at SPR ~"@, spr_t, " puts a large portion of your stack in with poor equity. If called or raised, you have little fold equity and a tough decision. Check back instead."@]),
                },
            },
    ]
}

/// The question of a 3-bet pot c-bet scenario in text style `ts`.
pub open spec fn tb_question(d: ThreeBetDraw, ts: TextStyle) -> Seq<char> {
    let pot = d.pot_bb * 2;
    let stack = d.stack_bb * 2;
    match ts {
        TextStyle::Simple => concat_spec(seq!["You re-raised before the flop and your opponent called. First three cards: "@, board_chars(d.board@), ". You have "@, hand_chars(d.hero_hand), " on the Button. Pot: "@, decimal(pot as nat), " chips. Stack: "@, decimal(stack as nat), " chips. Your opponent checked to you. What do you do?"@]),
        TextStyle::Technical => concat_spec(seq!["3-bet pot c-bet. You hold "@, hand_chars(d.hero_hand), " ("@, d.strength.name_text(), ") on the Button (the 3-better). Villain called your 3-bet from the Big Blind. Board: "@, board_chars(d.board@), " ("@, d.texture.name_text(), "). Pot: "@, decimal(pot as nat), " chips ("@, decimal(d.pot_bb as nat), " BB). Stack: "@, decimal(stack as nat), " chips (SPR ~"@, tenths(single_tenths_spec(stack as nat, pot as nat)), "). Villain checks to you. What do you do?"@]),
    }
}

/// T13 — 3-Bet Pot C-Bet (3B-).
///
/// RNG order: shuffled deck → hand and flop → texture coin → strength coin →
/// pot → stack.
pub fn generate_3bet_cbet(
    rng: &mut StdRng,
    difficulty: DifficultyLevel,
    scenario_id: String,
    text_style: TextStyle,
) -> (r: TrainingScenario)
    ensures
        exists|d: ThreeBetDraw|
            tb_draw_valid(d, difficulty) && #[trigger] tb_outcome(d, scenario_id@, r) && r.question@
                == tb_question(d, text_style) && explains(r, tb_explanations(d, text_style)),
{
    let (hero_hand, board) = deal(rng, 3);
    let texture = if coin_flip(rng) { FlopTexture::Dry } else { FlopTexture::Wet };
    let strength = if coin_flip(rng) { FlopStrength::Strong } else { FlopStrength::Weak };
    // 3-bet pots are bigger: pre-flop pot is typically 7-11 BB
    let (pot_bb, stack_bb) = match difficulty {
        DifficultyLevel::Beginner => (draw_u32(rng, 10, 14), 100u32),
        DifficultyLevel::Intermediate => {
            let p = draw_u32(rng, 8, 18);
            let s = draw_u32(rng, 50, 100);
            (p, s)
        },
        DifficultyLevel::Advanced => {
            let p = draw_u32(rng, 6, 22);
            let s = draw_u32(rng, 30, 150);
            (p, s)
        },
    };
    let d = ThreeBetDraw { hero_hand, board, texture, strength, pot_bb, stack_bb };
    let r = build_3bet_cbet(&d, scenario_id, text_style);
    assert(tb_draw_valid(d, difficulty));
    r
}

/// Build the 3-bet pot c-bet scenario for draw `d`.
#[verifier::spinoff_prover]
#[verifier::rlimit(50)]
pub fn build_3bet_cbet(d: &ThreeBetDraw, scenario_id: String, text_style: TextStyle) -> (r: TrainingScenario)
    requires
        6 <= d.pot_bb <= 22,
        d.stack_bb <= 150,
    ensures
        tb_outcome(*d, scenario_id@, r),
        r.question@ == tb_question(*d, text_style),
        explains(r, tb_explanations(*d, text_style)),
{
    let hero_hand = d.hero_hand;
    let texture = d.texture;
    let fstrength = d.strength;
    let pot_bb = d.pot_bb;
    let stack_bb = d.stack_bb;

    let bb = 2u32;
    let pot = pot_bb * bb;
    let stack = stack_bb * bb;

    // SPR is low in 3-bet pots — stacks commit quickly (one decimal)
    let spr_t = tenths_text(single_tenths(stack as u64, pot as u64));
    let small_bet = round_div(pot as u64 * 33, 100);
    let large_bet = round_div(pot as u64 * 67, 100);

    // Dry + Strong -> small c-bet (~33%); Wet + Strong -> large c-bet (~67%);
    // any Weak -> check: in a low-SPR pot any bet is a large commitment.
    let (correct, branch_key): (usize, &str) = match (texture, fstrength) {
        (FlopTexture::Dry, FlopStrength::Strong) => (1, "Dry:Strong:SmallCbet"),
        (FlopTexture::Wet, FlopStrength::Strong) => (2, "Wet:Strong:LargeCbet"),
        (FlopTexture::Dry, FlopStrength::Weak) => (0, "Dry:Weak:Check"),
        (FlopTexture::Wet, FlopStrength::Weak) => (0, "Wet:Weak:Check"),
    };
    let branch_key = branch_key.to_owned();

    let hero_pos = Position::BTN;
    let hand_s = hand_str(hero_hand);
    let board_s = board_str(d.board.as_slice());
    let texture_s = texture.name();
    let fstrength_s = fstrength.name();

    let question = match text_style {
        TextStyle::Simple => {
            let qs0 = num(pot as u64);
            let qs1 = num(stack as u64);
            let parts = ["You re-raised before the flop and your opponent called. First three cards: ", board_s.as_str(), ". You have ", hand_s.as_str(), " on the Button. Pot: ", qs0.as_str(), " chips. Stack: ", qs1.as_str(), " chips. Your opponent checked to you. What do you do?"];
            proof {
                assert(views_of(parts@) =~= seq!["You re-raised before the flop and your opponent called. First three cards: "@, board_s@, ". You have "@, hand_s@, " on the Button. Pot: "@, qs0@, " chips. Stack: "@, qs1@, " chips. Your opponent checked to you. What do you do?"@]);
            }
            concat(&parts)
        },
        TextStyle::Technical => {
            let qt0 = num(pot as u64);
            let qt1 = num(pot_bb as u64);
            let qt2 = num(stack as u64);
            let parts = ["3-bet pot c-bet. You hold ", hand_s.as_str(), " (", fstrength_s, ") on the Button (the 3-better). Villain called your 3-bet from the Big Blind. Board: ", board_s.as_str(), " (", texture_s, "). Pot: ", qt0.as_str(), " chips (", qt1.as_str(), " BB). Stack: ", qt2.as_str(), " chips (SPR ~", spr_t.as_str(), "). Villain checks to you. What do you do?"];
            proof {
                assert(views_of(parts@) =~= seq!["3-bet pot c-bet. You hold "@, hand_s@, " ("@, fstrength_s@, ") on the Button (the 3-better). Villain called your 3-bet from the Big Blind. Board: "@, board_s@, " ("@, texture_s@, "). Pot: "@, qt0@, " chips ("@, qt1@, " BB). Stack: "@, qt2@, " chips (SPR ~"@, spr_t@, "). Villain checks to you. What do you do?"@]);
            }
            concat(&parts)
        },
    };

    let explanation_0 = match text_style {
                TextStyle::Simple => match (texture, fstrength) {
                    (_, FlopStrength::Weak) => "Correct — check. Your hand is weak here. No need to bet — see the next card for free.".to_owned(),
                    _ => "Checking here gives up on a hand worth betting. Take the initiative.".to_owned(),
                },
                TextStyle::Technical => match (texture, fstrength) {
                    (_, FlopStrength::Weak) => {  let parts = ["Correct. Checking back a ", fstrength_s, " on a ", texture_s, " board is right in this 3-bet pot. With SPR ~", spr_t.as_str(), ", any c-bet represents a meaningful commitment — if villain check-raises, folding is costly and calling risks stacking off with poor equity. Check to keep the pot small and preserve the option to bluff a favourable turn card."]; proof { assert(views_of(parts@) =~= seq!["Correct. Checking back a "@, fstrength_s@, " on a "@, texture_s@, " board is right in this 3-bet pot. With SPR ~"@, spr_t@, ", any c-bet represents a meaningful commitment — if villain check-raises, folding is costly and calling risks stacking off with poor equity. Check to keep the pot small and preserve the option to bluff a favourable turn card."@]); } concat(&parts) },
                    _ => {  let parts = ["Checking a ", fstrength_s, " in this 3-bet pot surrenders value. The low SPR (", spr_t.as_str(), ") means bets are decisive — extract now while you have the equity lead. Villain's BB calling range is wide and misses the board frequently. C-bet to build the pot you are likely to win."]; proof { assert(views_of(parts@) =~= seq!["Checking a "@, fstrength_s@, " in this 3-bet pot surrenders value. The low SPR ("@, spr_t@, ") means bets are decisive — extract now while you have the equity lead. Villain's BB calling range is wide and misses the board frequently. C-bet to build the pot you are likely to win."@]); } concat(&parts) },
                },
            };
    let explanation_1 = match text_style {
                TextStyle::Simple => match (texture, fstrength) {
                    (FlopTexture::Dry, FlopStrength::Strong) => "Correct — bet small. The board is dry (no likely draws). A small bet is enough to collect chips and keep pressure on.".to_owned(),
                    (FlopTexture::Wet, FlopStrength::Strong) => "A small bet isn't enough on this type of board. Bet bigger or check.".to_owned(),
                    _ => "A small bet isn't enough on this type of board. Bet bigger or check.".to_owned(),
                },
                TextStyle::Technical => match (texture, fstrength) {
                    (FlopTexture::Dry, FlopStrength::Strong) => {  let parts = ["Correct. A small c-bet (~33% pot) with a ", fstrength_s, " on a ", texture_s, " board is optimal. Dry boards miss villain's wide BB calling range frequently, so a small probe achieves two goals: it extracts value from any pair or draw while — given SPR ~", spr_t.as_str(), " — starting to build toward a natural stack commitment. Villain must act immediately with limited backdoor outs."]; proof { assert(views_of(parts@) =~= seq!["Correct. A small c-bet (~33% pot) with a "@, fstrength_s@, " on a "@, texture_s@, " board is optimal. Dry boards miss villain's wide BB calling range frequently, so a small probe achieves two goals: it extracts value from any pair or draw while — given SPR ~"@, spr_t@, " — starting to build toward a natural stack commitment. Villain must act immediately with limited backdoor outs."@]); } concat(&parts) },
                    (FlopTexture::Wet, FlopStrength::Strong) => {  let parts = ["A small c-bet on a ", texture_s, " board undersizes the protection needed. Villain has many draws (flush draws, straight draws) that can call 33% cheaply and realise equity. A larger bet (~67%) forces them to pay the correct price and extracts more from made hands that call."]; proof { assert(views_of(parts@) =~= seq!["A small c-bet on a "@, texture_s@, " board undersizes the protection needed. Villain has many draws (flush draws, straight draws) that can call 33% cheaply and realise equity. A larger bet (~67%) forces them to pay the correct price and extracts more from made hands that call."@]); } concat(&parts) },
                    _ => {  let parts = ["C-betting 33% with a ", fstrength_s, " is still a significant commitment at SPR ~", spr_t.as_str(), ". Any bet is hard to walk back in a 3-bet pot. Check back and reassess on the turn."]; proof { assert(views_of(parts@) =~= seq!["C-betting 33% with a "@, fstrength_s@, " is still a significant commitment at SPR ~"@, spr_t@, ". Any bet is hard to walk back in a 3-bet pot. Check back and reassess on the turn."@]); } concat(&parts) },
                },
            };
    let explanation_2 = match text_style {
                TextStyle::Simple => match (texture, fstrength) {
                    (FlopTexture::Wet, FlopStrength::Strong) => "Correct — bet big! The board has possible draws. Make your opponent pay dearly to chase them.".to_owned(),
                    (FlopTexture::Dry, FlopStrength::Strong) => "Betting big here is too much — a check or small bet fits this situation better.".to_owned(),
                    _ => "Betting big here is too much — a check or small bet fits this situation better.".to_owned(),
                },
                TextStyle::Technical => match (texture, fstrength) {
                    (FlopTexture::Wet, FlopStrength::Strong) => {  let parts = ["Correct. A large c-bet (~67% pot) with a ", fstrength_s, " on a ", texture_s, " board is the highest-EV line. Wet boards give villain flush draws, straight draws, and top pairs. Betting large charges every draw immediately, denies cheap equity, and naturally commits the remaining stack at SPR ~", spr_t.as_str(), "."]; proof { assert(views_of(parts@) =~= seq!["Correct. A large c-bet (~67% pot) with a "@, fstrength_s@, " on a "@, texture_s@, " board is the highest-EV line. Wet boards give villain flush draws, straight draws, and top pairs. Betting large charges every draw immediately, denies cheap equity, and naturally commits the remaining stack at SPR ~"@, spr_t@, "."@]); } concat(&parts) },
                    (FlopTexture::Dry, FlopStrength::Strong) => {  let parts = ["A large c-bet on a ", texture_s, " board slightly over-bets the situation. Dry boards rarely hit villain's calling range — a smaller bet (33%) achieves the same fold equity while sizing more accurately to the low-draw texture. Save larger sizings for boards with more draws."]; proof { assert(views_of(parts@) =~= seq!["A large c-bet on a "@, texture_s@, " board slightly over-bets the situation. Dry boards rarely hit villain's calling range — a smaller bet (33%) achieves the same fold equity while sizing more accurately to the low-draw texture. Save larger sizings for boards with more draws."@]); } concat(&parts) },
                    _ => {  let parts = ["C-betting 67% with a ", fstrength_s, " at SPR ~", spr_t.as_str(), " puts a large portion of your stack in with poor equity. If called or raised, you have little fold equity and a tough decision. Check back instead."]; proof { assert(views_of(parts@) =~= seq!["C-betting 67% with a "@, fstrength_s@, " at SPR ~"@, spr_t@, " puts a large portion of your stack in with poor equity. If called or raised, you have little fold equity and a tough decision. Check back instead."@]); } concat(&parts) },
                },
            };
    let answers = vec![
        option_at(0, "Check back".to_owned(), correct, explanation_0),
        option_at(1, cat3("C-bet small (", num(small_bet as u64).as_str(), " chips ~33%)"), correct, explanation_1),
        option_at(2, cat3("C-bet large (", num(large_bet as u64).as_str(), " chips ~67%)"), correct, explanation_2),
    ];

    let players = vec![
        PlayerState { seat: 1, position: Position::BB, stack, is_hero: false, is_active: true },
        PlayerState { seat: 2, position: hero_pos, stack, is_hero: true, is_active: true },
    ];

    TrainingScenario {
        scenario_id,
        topic: TrainingTopic::ThreeBetPotCbet,
        branch_key,
        table_setup: TableSetup {
            game_type: GameType::CashGame,
            hero_position: hero_pos,
            hero_hand,
            board: d.board.clone(),
            players,
            pot_size: pot,
            current_bet: 0,
        },
        question,
        answers,
    }
}
} // verus!
