//! River topic generators: bluff spot, value bet, and call-or-fold.
//!
//! All three topics deal a full 5-card board and ask hero to act on the river.
//!
//! - **T4 Bluff Spot** — hero has no showdown value.  The decision depends on
//!   the bluff type (missed flush draw / capped range / bricked overcards) and
//!   the stack-to-pot ratio (SPR): low SPR → check; high SPR → large bluff.
//! - **T10 River Value Bet** — hero has a made hand.  Sizing depends on hand
//!   strength: overbet the nuts, large bet a strong hand, check a medium hand.
//! - **T14 River Call or Fold** — villain bets into hero.  The decision depends
//!   on hero's hand strength against the bet size: raise strong vs small bets,
//!   call marginal vs standard bets, fold weak vs large bets.

use vstd::prelude::*;
use rand::rngs::StdRng;
use crate::helpers::{lemma_texts_shown, texts_non_empty, explains, board_chars, hand_chars, shows, Decision, answers_marked, board_str, deal, fresh_cards, hand_str, heads_up, heads_up_spec, option_at, scenario, setup_is};
use crate::models::{
    AnswerOption, Card, DifficultyLevel, GameType, PlayerState, Position, TableSetup, TextStyle,
    TrainingScenario, TrainingTopic,
};
use crate::binary32::{pct_whole, pct_tenths, pct_rounded, percent_whole, percent_tenths, percent_rounded, single_tenths, single_tenths_spec};
use crate::rng::draw_u32;
use crate::text::{concat_spec, div_round_even, tenths, views_of, pct_of_pot, cat2, cat3, concat, decimal, div_round_half_up, num, round_div, round_div_even, tenths_text};

verus! {

/// Pot and stack (in big blinds) of a river spot.  The beginner pot range and
/// stack, and the upper ends of the intermediate ranges, vary by topic.
pub open spec fn river_sizes_valid(
    pot_bb: u32,
    stack_bb: u32,
    diff: DifficultyLevel,
    beg_lo: u32,
    beg_hi: u32,
    beg_stack: u32,
    int_pot_hi: u32,
    int_stack_hi: u32,
) -> bool {
    match diff {
        DifficultyLevel::Beginner => beg_lo <= pot_bb <= beg_hi && stack_bb == beg_stack,
        DifficultyLevel::Intermediate => 8 <= pot_bb <= int_pot_hi && 30 <= stack_bb <= int_stack_hi,
        DifficultyLevel::Advanced => 6 <= pot_bb <= 40 && 15 <= stack_bb <= 150,
    }
}

/// Draw the pot, then the stack, of a river spot.
fn draw_river_sizes(
    rng: &mut StdRng,
    difficulty: DifficultyLevel,
    beg_lo: u32,
    beg_hi: u32,
    beg_stack: u32,
    int_pot_hi: u32,
    int_stack_hi: u32,
) -> (r: (u32, u32))
    requires
        beg_lo <= beg_hi,
        8 <= int_pot_hi,
        30 <= int_stack_hi,
    ensures
        river_sizes_valid(r.0, r.1, difficulty, beg_lo, beg_hi, beg_stack, int_pot_hi, int_stack_hi),
{
    match difficulty {
        DifficultyLevel::Beginner => (draw_u32(rng, beg_lo, beg_hi), beg_stack),
        DifficultyLevel::Intermediate => {
            let p = draw_u32(rng, 8, int_pot_hi);
            let s = draw_u32(rng, 30, int_stack_hi);
            (p, s)
        },
        DifficultyLevel::Advanced => {
            let p = draw_u32(rng, 6, 40);
            let s = draw_u32(rng, 15, 150);
            (p, s)
        },
    }
}


/// Break-even fold frequency of a bluff of `bet` into `pot`, in tenths of a
/// percent, as single precision computes `bet / (pot + bet) * 100` and the
/// `{:.1}` format shows it.
fn fold_freq_tenths(bet: u64, pot: u64) -> (t: u64)
    requires
        bet <= 1000,
        0 < pot <= 1000,
    ensures
        t == pct_tenths(bet as nat, (pot + bet) as nat),
{
    percent_tenths(bet, pot + bet)
}

// ═══════════════════════════════════════════════════════════════════════════════
// T4 — Bluff Spot (BL-)
//
// Hero holds a busted hand on the river (no showdown value).  Villain checks.
// The correct action depends on the bluff type and SPR:
//   - CappedRange or low SPR (< 2.0) → check (villain calls too wide)
//   - MissedFlushDraw / OvercardBrick + high SPR → bet large (~75% pot)
//
// The break-even fold frequency of a bluff is bet / (pot + bet).
// ═══════════════════════════════════════════════════════════════════════════════

/// Why hero has no showdown value — drives the bluff story.
#[derive(Debug, Clone, Copy, PartialEq, Eq, Structural)]
pub enum BluffType {
    MissedFlushDraw,
    CappedRange,
    OvercardBrick,
}

impl BluffType {
    /// The text that `name` returns.
    pub open spec fn name_text(self) -> Seq<char> {
        match self {
            BluffType::MissedFlushDraw => "missed flush draw"@,
            BluffType::CappedRange => "capped / checked-back range"@,
            BluffType::OvercardBrick => "bricked overcards"@,
        }
    }

    /// Human-readable description.
    pub fn name(&self) -> (s: &'static str)
        ensures
            s@ == self.name_text(),
    {
        match self {
            BluffType::MissedFlushDraw => "missed flush draw",
            BluffType::CappedRange => "capped / checked-back range",
            BluffType::OvercardBrick => "bricked overcards",
        }
    }
}

/// Everything drawn at random for a bluff spot; `board` is all five cards.
pub struct BluffDraw {
    pub hero_hand: [Card; 2],
    pub board: Vec<Card>,
    pub bluff_type: BluffType,
    pub pot_bb: u32,
    pub stack_bb: u32,
}

pub open spec fn bluff_draw_valid(d: BluffDraw, diff: DifficultyLevel) -> bool {
    &&& d.board@.len() == 5
    &&& fresh_cards(d.hero_hand@, d.board@)
    &&& river_sizes_valid(d.pot_bb, d.stack_bb, diff, 10, 16, 50, 24, 80)
}

/// Stack-to-pot ratio below two.
pub open spec fn low_spr(stack_bb: u32, pot_bb: u32) -> bool {
    stack_bb < 2 * pot_bb
}

/// Check (A) a capped range or at a low SPR; otherwise bet large (C).
pub open spec fn bluff_correct(t: BluffType, low: bool) -> int {
    if t == BluffType::CappedRange || low { 0 } else { 2 }
}

pub open spec fn bluff_branch(t: BluffType, low: bool) -> Seq<char> {
    let bucket = if low { "LowSPR"@ } else { "HighSPR"@ };
    match t {
        BluffType::CappedRange => "CappedRange"@,
        BluffType::MissedFlushDraw => "MissedFlushDraw:"@ + bucket,
        BluffType::OvercardBrick => "OvercardBrick:"@ + bucket,
    }
}

/// Bluff scenario: hero on the Button, the Big Blind listed first; four answers.
pub open spec fn bluff_decision(d: BluffDraw) -> Decision {
    let low = low_spr(d.stack_bb, d.pot_bb);
    let stack = (d.stack_bb * 2) as u32;
    Decision {
        topic: TrainingTopic::BluffSpot,
        branch: bluff_branch(d.bluff_type, low),
        game_type: GameType::CashGame,
        hero_pos: Position::BTN,
        hand: d.hero_hand,
        board: d.board@,
        players: heads_up_spec(Position::BTN, Position::BB, stack, stack),
        pot: (d.pot_bb * 2) as u32,
        bet: 0,
        answers: 4,
        labels: seq!["Check"@, "Bet small"@, "Bet large"@, "All-in"@],
        correct: bluff_correct(d.bluff_type, low),
    }
}

/// Every text of a scenario built from `d` is non-empty: the question, the
/// branch key, and each answer's label and explanation.
#[verifier::spinoff_prover]
#[verifier::rlimit(50)]
pub proof fn lemma_bluff_texts_nonempty(d: BluffDraw, ts: TextStyle)
    ensures
        bluff_question(d, ts).len() > 0,
        bluff_decision(d).branch.len() > 0,
        forall|i: int| 0 <= i < bluff_decision(d).labels.len() ==> #[trigger] bluff_decision(d).labels[i].len() > 0,
        forall|i: int| 0 <= i < bluff_explanations(d, ts).len() ==> #[trigger] bluff_explanations(d, ts)[i].len() > 0,
{
    reveal_strlit(" chips). What do you do?");
    reveal_strlit("% of the time (for a large bet), which is unrealistic.");
    reveal_strlit(", you have no showdown value and checking guarantees a loss. A well-sized bluff can generate positive EV.");
    reveal_strlit(". Villain must fold a realistic portion of their range, and blockers in your hand make their strong hands less likely.");
    reveal_strlit("% of the time. A pot-sized or overbet shove can be valid with a polarized range and nut blockers, but is generally too large here unless SPR < 1.5 and villain's range is very capped.");
    reveal_strlit("Correct — check. Your opponent will call any bet you make here, so betting loses more chips than checking.");
    reveal_strlit("Checking gives up — you have no chance to win at showdown, so a bet is your only way to take this pot.");
    reveal_strlit("A small bet works here — it puts just enough pressure on your opponent to fold weak hands.");
    reveal_strlit("A small bet won't scare your opponent into folding. Either bet big enough to be threatening or just check.");
    reveal_strlit("A small bet size is appropriate here — it achieves fold equity at \
                         minimal risk and keeps you unexploitable.");
    reveal_strlit("A small bluff is unlikely to fold out strong hands. Either check \
                         or bet large enough to credibly represent your value range.");
    reveal_strlit("Correct — bet big! You have nothing, so your only way to win is to make your opponent fold. A big bet is the most believable and gives you the best chance they give up.");
    reveal_strlit("A big bet here throws too many chips away — your opponent isn't folding. Check instead.");
    reveal_strlit("A large bluff here over-commits with no fold equity. At this SPR, \
                         villain will call too frequently for this sizing to be profitable.");
    reveal_strlit("Going all-in here is too extreme. Unless you have almost no chips left compared to the pot, a well-sized big bet does the same job at lower risk.");
    reveal_strlit("Check");
    reveal_strlit("Bet small");
    reveal_strlit("Bet large");
    reveal_strlit("All-in");
    reveal_strlit("LowSPR");
    reveal_strlit("HighSPR");
    reveal_strlit("CappedRange");
    reveal_strlit("MissedFlushDraw:");
    reveal_strlit("OvercardBrick:");
}

/// No text of a scenario built from `d` in text style `ts` is empty.
pub proof fn lemma_bluff_scenario_texts(d: BluffDraw, ts: TextStyle, id: Seq<char>, r: TrainingScenario)
    requires
        bluff_outcome(d, id, r),
        r.question@ == bluff_question(d, ts),
        explains(r, bluff_explanations(d, ts)),
    ensures
        texts_non_empty(r),
{
    lemma_bluff_texts_nonempty(d, ts);
    lemma_texts_shown(r, id, bluff_decision(d), bluff_question(d, ts), bluff_explanations(d, ts));
}

/// The scenario shows `bluff_decision(d)` under `id`.
pub open spec fn bluff_outcome(d: BluffDraw, id: Seq<char>, r: TrainingScenario) -> bool {
    shows(r, id, bluff_decision(d))
}

/// The explanations of the answers of a bluff scenario, in text style `ts`.
pub open spec fn bluff_explanations(d: BluffDraw, ts: TextStyle) -> Seq<Seq<char>> {
    let pot = d.pot_bb * 2;
    let stack = d.stack_bb * 2;
    let correct = bluff_correct(d.bluff_type, low_spr(d.stack_bb, d.pot_bb));
    let hs = hand_chars(d.hero_hand);
    let bluff_type_s = d.bluff_type.name_text();
    let hero_pos_s = Position::BTN.name_text();
    let small_bet = div_round_half_up(pot * 40, 100);
    let large_bet = div_round_half_up(pot * 75, 100);
    let shove = stack;
    let spr_t = tenths(single_tenths_spec(stack as nat, pot as nat));
    let fold_small_t = tenths(pct_tenths(small_bet as nat, (pot + small_bet) as nat));
    let fold_large_t = tenths(pct_tenths(large_bet as nat, (pot + large_bet) as nat));
    let fold_shove_t = tenths(pct_tenths(shove as nat, (pot + shove) as nat));
    let fold_large_whole = decimal(pct_whole(large_bet as nat, (pot + large_bet) as nat));
    let check_body = if correct == 0 {
        concat_spec(seq!["Correct. With SPR = "@, spr_t, " and a "@, bluff_type_s, ", villain's calling range is too wide to generate sufficient fold equity. Bluffing here would require villain to fold >"@, fold_large_whole, "% of the time (for a large bet), which is unrealistic."@])
    } else {
        concat_spec(seq!["Checking surrenders value. With a "@, bluff_type_s, " and SPR = "@, spr_t, ", you have no showdown value and checking guarantees a loss. A well-sized bluff can generate positive EV."@])
    };
    seq![
        match ts {
                TextStyle::Simple => if correct == 0 {
                    "Correct — check. Your opponent will call any bet you make here, so betting loses more chips than checking."@
                } else {
                    "Checking gives up — you have no chance to win at showdown, so a bet is your only way to take this pot."@
                },
                TextStyle::Technical => concat_spec(seq!["Checking with a "@, bluff_type_s, " from "@, hero_pos_s, ": "@, check_body]),
            },
        match ts {
                TextStyle::Simple => if correct == 1 {
                    "A small bet works here — it puts just enough pressure on your opponent to fold weak hands."@
                } else {
                    "A small bet won't scare your opponent into folding. Either bet big enough to be threatening or just check."@
                },
                TextStyle::Technical => concat_spec(seq!["Small bluff ("@, decimal((small_bet) as nat), " chips) with "@, hs, " ("@, bluff_type_s, "): Requires villain to fold "@, fold_small_t, "% of the time to break even. "@, if correct == 1 {
                        "A small bet size is appropriate here — it achieves fold equity at \
                         minimal risk and keeps you unexploitable."@
                    } else {
                        "A small bluff is unlikely to fold out strong hands. Either check \
                         or bet large enough to credibly represent your value range."@
                    }]),
            },
        match ts {
                TextStyle::Simple => if correct == 2 {
                    "Correct — bet big! You have nothing, so your only way to win is to make your opponent fold. A big bet is the most believable and gives you the best chance they give up."@
                } else {
                    "A big bet here throws too many chips away — your opponent isn't folding. Check instead."@
                },
                TextStyle::Technical => {
                    let rationale = if correct == 2 {
                        concat_spec(seq!["A 75% pot bluff applies significant pressure and is credible with a "@, bluff_type_s, ". Villain must fold a realistic portion of their range, and blockers in your hand make their strong hands less likely."@])
                    } else {
                        "A large bluff here over-commits with no fold equity. At this SPR, \
                         villain will call too frequently for this sizing to be profitable."@
                    };
                    concat_spec(seq!["Large bluff ("@, decimal((large_bet) as nat), " chips) with "@, hs, " ("@, bluff_type_s, "): Requires villain to fold "@, fold_large_t, "% of the time to break even. SPR = "@, spr_t, ". "@, rationale])
                },
            },
        match ts {
                TextStyle::Simple => "Going all-in here is too extreme. Unless you have almost no chips left compared to the pot, a well-sized big bet does the same job at lower risk."@,
                TextStyle::Technical => concat_spec(seq!["Shoving "@, decimal((shove) as nat), " chips with "@, hs, " ("@, bluff_type_s, "): Requires villain to fold "@, fold_shove_t, "% of the time. A pot-sized or overbet shove can be valid with a polarized range and nut blockers, but is generally too large here unless SPR < 1.5 and villain's range is very capped."@]),
            },
    ]
}

/// The question of a bluff scenario in text style `ts`.
pub open spec fn bluff_question(d: BluffDraw, ts: TextStyle) -> Seq<char> {
    let pot = d.pot_bb * 2;
    let stack = d.stack_bb * 2;
    let small = div_round_half_up(pot * 40, 100);
    let large = div_round_half_up(pot * 75, 100);
    match ts {
        TextStyle::Simple => concat_spec(seq!["Last card. You have "@, hand_chars(d.hero_hand), " and missed — your hand can't win at showdown. Board: "@, board_chars(d.board@), ". Pot: "@, decimal(pot as nat), " chips. Stack: "@, decimal(stack as nat), " chips. Your opponent checks to you. Options: check, bet small ("@, decimal(small as nat), " chips), bet big ("@, decimal(large as nat), " chips), go all-in ("@, decimal(stack as nat), " chips). What do you do?"@]),
        TextStyle::Technical => concat_spec(seq!["River spot. You hold "@, hand_chars(d.hero_hand), " ("@, d.bluff_type.name_text(), ") on "@, Position::BTN.name_text(), ". Board: "@, board_chars(d.board@), ". Pot: "@, decimal(pot as nat), " chips ("@, decimal(d.pot_bb as nat), " BB). Stack: "@, decimal(stack as nat), " chips (SPR = "@, tenths(single_tenths_spec(stack as nat, pot as nat)), "). Villain checks to you. Bet options: small ("@, decimal(small as nat), " chips ~40% pot), large ("@, decimal(large as nat), " chips ~75% pot), or shove ("@, decimal(stack as nat), " chips). What do you do?"@]),
    }
}

/// T4 — Bluff Spot (BL-).
///
/// RNG order: shuffled deck → hand and board → bluff type (one of three) →
/// pot → stack.
pub fn generate_bluff(
    rng: &mut StdRng,
    difficulty: DifficultyLevel,
    scenario_id: String,
    text_style: TextStyle,
) -> (r: TrainingScenario)
    ensures
        exists|d: BluffDraw|
            bluff_draw_valid(d, difficulty) && #[trigger] bluff_outcome(d, scenario_id@, r) && r.question@
                == bluff_question(d, text_style) && explains(r, bluff_explanations(d, text_style)),
{
    let (hero_hand, board) = deal(rng, 5);
    let bluff_type = match draw_u32(rng, 0, 2) {
        0 => BluffType::MissedFlushDraw,
        1 => BluffType::CappedRange,
        _ => BluffType::OvercardBrick,
    };
    let (pot_bb, stack_bb) = draw_river_sizes(rng, difficulty, 10, 16, 50, 24, 80);
    let d = BluffDraw { hero_hand, board, bluff_type, pot_bb, stack_bb };
    let r = build_bluff(&d, scenario_id, text_style);
    assert(bluff_draw_valid(d, difficulty));
    r
}

/// Build the bluff scenario for draw `d`.
#[verifier::spinoff_prover]
#[verifier::rlimit(50)]
pub fn build_bluff(d: &BluffDraw, scenario_id: String, text_style: TextStyle) -> (r: TrainingScenario)
    requires
        6 <= d.pot_bb <= 40,
        d.stack_bb <= 150,
    ensures
        bluff_outcome(*d, scenario_id@, r),
        r.question@ == bluff_question(*d, text_style),
        explains(r, bluff_explanations(*d, text_style)),
{
    let hero_hand = d.hero_hand;
    let bluff_type = d.bluff_type;
    let pot_bb = d.pot_bb;
    let stack_bb = d.stack_bb;

    let bb = 2u32;
    let pot = pot_bb * bb;
    let stack = stack_bb * bb;
    // SPR = stack / pot, shown with one decimal; low below 2.0
    let low = stack < 2 * pot;
    let spr_t = tenths_text(single_tenths(stack as u64, pot as u64));

    let small_bet = pct_of_pot(pot, 40);
    let large_bet = pct_of_pot(pot, 75);
    let shove = stack;

    let spr_bucket = if low { "LowSPR" } else { "HighSPR" };
    let branch_key = match bluff_type {
        BluffType::CappedRange => "CappedRange".to_owned(),
        BluffType::MissedFlushDraw => cat2("MissedFlushDraw:", spr_bucket),
        BluffType::OvercardBrick => cat2("OvercardBrick:", spr_bucket),
    };

    let hero_pos = Position::BTN;
    let hs = hand_str(hero_hand);
    let bs = board_str(d.board.as_slice());
    let bluff_type_s = bluff_type.name();
    let hero_pos_s = hero_pos.name();

    let correct: usize = if bluff_type == BluffType::CappedRange || low { 0 } else { 2 };

    // Break-even fold frequencies (bet / (pot + bet)), shown as percentages
    let fold_small_t = tenths_text(fold_freq_tenths(small_bet, pot as u64));
    let fold_large_t = tenths_text(fold_freq_tenths(large_bet, pot as u64));
    let fold_shove_t = tenths_text(fold_freq_tenths(shove as u64, pot as u64));
    let fold_large_whole = num(percent_whole(large_bet, pot as u64 + large_bet));

    let question = match text_style {
        TextStyle::Simple => {
            let qs0 = num(pot as u64);
            let qs1 = num(stack as u64);
            let qs2 = num(small_bet as u64);
            let qs3 = num(large_bet as u64);
            let qs4 = num(shove as u64);
            let parts = ["Last card. You have ", hs.as_str(), " and missed — your hand can't win at showdown. Board: ", bs.as_str(), ". Pot: ", qs0.as_str(), " chips. Stack: ", qs1.as_str(), " chips. Your opponent checks to you. Options: check, bet small (", qs2.as_str(), " chips), bet big (", qs3.as_str(), " chips), go all-in (", qs4.as_str(), " chips). What do you do?"];
            proof {
                assert(views_of(parts@) =~= seq!["Last card. You have "@, hs@, " and missed — your hand can't win at showdown. Board: "@, bs@, ". Pot: "@, qs0@, " chips. Stack: "@, qs1@, " chips. Your opponent checks to you. Options: check, bet small ("@, qs2@, " chips), bet big ("@, qs3@, " chips), go all-in ("@, qs4@, " chips). What do you do?"@]);
            }
            concat(&parts)
        },
        TextStyle::Technical => {
            let qt0 = num(pot as u64);
            let qt1 = num(pot_bb as u64);
            let qt2 = num(stack as u64);
            let qt3 = num(small_bet as u64);
            let qt4 = num(large_bet as u64);
            let qt5 = num(shove as u64);
            let parts = ["River spot. You hold ", hs.as_str(), " (", bluff_type_s, ") on ", hero_pos_s, ". Board: ", bs.as_str(), ". Pot: ", qt0.as_str(), " chips (", qt1.as_str(), " BB). Stack: ", qt2.as_str(), " chips (SPR = ", spr_t.as_str(), "). Villain checks to you. Bet options: small (", qt3.as_str(), " chips ~40% pot), large (", qt4.as_str(), " chips ~75% pot), or shove (", qt5.as_str(), " chips). What do you do?"];
            proof {
                assert(views_of(parts@) =~= seq!["River spot. You hold "@, hs@, " ("@, bluff_type_s@, ") on "@, hero_pos_s@, ". Board: "@, bs@, ". Pot: "@, qt0@, " chips ("@, qt1@, " BB). Stack: "@, qt2@, " chips (SPR = "@, spr_t@, "). Villain checks to you. Bet options: small ("@, qt3@, " chips ~40% pot), large ("@, qt4@, " chips ~75% pot), or shove ("@, qt5@, " chips). What do you do?"@]);
            }
            concat(&parts)
        },
    };

    let check_body = if correct == 0 {
        {  let parts = ["Correct. With SPR = ", spr_t.as_str(), " and a ", bluff_type_s, ", villain's calling range is too wide to generate sufficient fold equity. Bluffing here would require villain to fold >", fold_large_whole.as_str(), "% of the time (for a large bet), which is unrealistic."]; proof { assert(views_of(parts@) =~= seq!["Correct. With SPR = "@, spr_t@, " and a "@, bluff_type_s@, ", villain's calling range is too wide to generate sufficient fold equity. Bluffing here would require villain to fold >"@, fold_large_whole@, "% of the time (for a large bet), which is unrealistic."@]); } concat(&parts) }
    } else {
        {  let parts = ["Checking surrenders value. With a ", bluff_type_s, " and SPR = ", spr_t.as_str(), ", you have no showdown value and checking guarantees a loss. A well-sized bluff can generate positive EV."]; proof { assert(views_of(parts@) =~= seq!["Checking surrenders value. With a "@, bluff_type_s@, " and SPR = "@, spr_t@, ", you have no showdown value and checking guarantees a loss. A well-sized bluff can generate positive EV."@]); } concat(&parts) }
    };

    let explanation_0 = match text_style {
                TextStyle::Simple => if correct == 0 {
                    "Correct — check. Your opponent will call any bet you make here, so betting loses more chips than checking.".to_owned()
                } else {
                    "Checking gives up — you have no chance to win at showdown, so a bet is your only way to take this pot.".to_owned()
                },
                TextStyle::Technical => {  let parts = ["Checking with a ", bluff_type_s, " from ", hero_pos_s, ": ", check_body.as_str()]; proof { assert(views_of(parts@) =~= seq!["Checking with a "@, bluff_type_s@, " from "@, hero_pos_s@, ": "@, check_body@]); } concat(&parts) },
            };
    let explanation_1 = match text_style {
                TextStyle::Simple => if correct == 1 {
                    "A small bet works here — it puts just enough pressure on your opponent to fold weak hands.".to_owned()
                } else {
                    "A small bet won't scare your opponent into folding. Either bet big enough to be threatening or just check.".to_owned()
                },
                TextStyle::Technical => { let t1 = num(small_bet as u64); let t2: &str = if correct == 1 {
                        "A small bet size is appropriate here — it achieves fold equity at \
                         minimal risk and keeps you unexploitable."
                    } else {
                        "A small bluff is unlikely to fold out strong hands. Either check \
                         or bet large enough to credibly represent your value range."
                    }; let parts = ["Small bluff (", t1.as_str(), " chips) with ", hs.as_str(), " (", bluff_type_s, "): Requires villain to fold ", fold_small_t.as_str(), "% of the time to break even. ", t2]; proof { assert(views_of(parts@) =~= seq!["Small bluff ("@, t1@, " chips) with "@, hs@, " ("@, bluff_type_s@, "): Requires villain to fold "@, fold_small_t@, "% of the time to break even. "@, t2@]); } concat(&parts) },
            };
    let explanation_2 = match text_style {
                TextStyle::Simple => if correct == 2 {
                    "Correct — bet big! You have nothing, so your only way to win is to make your opponent fold. A big bet is the most believable and gives you the best chance they give up.".to_owned()
                } else {
                    "A big bet here throws too many chips away — your opponent isn't folding. Check instead.".to_owned()
                },
                TextStyle::Technical => {
                    let rationale = if correct == 2 {
                        {  let parts = ["A 75% pot bluff applies significant pressure and is credible with a ", bluff_type_s, ". Villain must fold a realistic portion of their range, and blockers in your hand make their strong hands less likely."]; proof { assert(views_of(parts@) =~= seq!["A 75% pot bluff applies significant pressure and is credible with a "@, bluff_type_s@, ". Villain must fold a realistic portion of their range, and blockers in your hand make their strong hands less likely."@]); } concat(&parts) }
                    } else {
                        "A large bluff here over-commits with no fold equity. At this SPR, \
                         villain will call too frequently for this sizing to be profitable."
                            .to_owned()
                    };
                    { let t3 = num(large_bet as u64); let parts = ["Large bluff (", t3.as_str(), " chips) with ", hs.as_str(), " (", bluff_type_s, "): Requires villain to fold ", fold_large_t.as_str(), "% of the time to break even. SPR = ", spr_t.as_str(), ". ", rationale.as_str()]; proof { assert(views_of(parts@) =~= seq!["Large bluff ("@, t3@, " chips) with "@, hs@, " ("@, bluff_type_s@, "): Requires villain to fold "@, fold_large_t@, "% of the time to break even. SPR = "@, spr_t@, ". "@, rationale@]); } concat(&parts) }
                },
            };
    let explanation_3 = match text_style {
                TextStyle::Simple => "Going all-in here is too extreme. Unless you have almost no chips left compared to the pot, a well-sized big bet does the same job at lower risk.".to_owned(),
                TextStyle::Technical => { let t4 = num(shove as u64); let parts = ["Shoving ", t4.as_str(), " chips with ", hs.as_str(), " (", bluff_type_s, "): Requires villain to fold ", fold_shove_t.as_str(), "% of the time. A pot-sized or overbet shove can be valid with a polarized range and nut blockers, but is generally too large here unless SPR < 1.5 and villain's range is very capped."]; proof { assert(views_of(parts@) =~= seq!["Shoving "@, t4@, " chips with "@, hs@, " ("@, bluff_type_s@, "): Requires villain to fold "@, fold_shove_t@, "% of the time. A pot-sized or overbet shove can be valid with a polarized range and nut blockers, but is generally too large here unless SPR < 1.5 and villain's range is very capped."@]); } concat(&parts) },
            };
    let answers = vec![
        option_at(0, "Check".to_owned(), correct, explanation_0),
        option_at(1, "Bet small".to_owned(), correct, explanation_1),
        option_at(2, "Bet large".to_owned(), correct, explanation_2),
        option_at(3, "All-in".to_owned(), correct, explanation_3),
    ];


    let players = heads_up(hero_pos, Position::BB, stack, stack);
    scenario(
        scenario_id,
        TrainingTopic::BluffSpot,
        branch_key,
        GameType::CashGame,
        hero_pos,
        hero_hand,
        d.board.clone(),
        players,
        pot,
        0,
        question,
        answers,
    )
}

// ═══════════════════════════════════════════════════════════════════════════════
// T10 — River Value Bet (RV-)
//
// Hero is on BTN with a made hand; villain checks the river.  Sizing:
//   - Nuts (top set / straight / flush)     → overbet (~125% pot)
//   - Strong (top two pair / second set)    → large bet (~75% pot)
//   - Medium (one pair / weak two pair)     → check (thin-value trap)
//
// This topic has 4 answer options (A-D) unlike the standard 3.
// ═══════════════════════════════════════════════════════════════════════════════

/// How strong hero's made hand is — drives value bet sizing.
#[derive(Debug, Clone, Copy, PartialEq, Eq, Structural)]
pub enum ValueStrength {
    Nuts,
    Strong,
    Medium,
}

impl ValueStrength {
    /// The text that `name` returns.
    pub open spec fn name_text(self) -> Seq<char> {
        match self {
            ValueStrength::Nuts => "nutted hand (top set / straight / flush)"@,
            ValueStrength::Strong => "strong hand (top two pair / second set)"@,
            ValueStrength::Medium => "medium hand (one pair / weak two pair)"@,
        }
    }

    /// Human-readable description.
    pub fn name(&self) -> (s: &'static str)
        ensures
            s@ == self.name_text(),
    {
        match self {
            ValueStrength::Nuts => "nutted hand (top set / straight / flush)",
            ValueStrength::Strong => "strong hand (top two pair / second set)",
            ValueStrength::Medium => "medium hand (one pair / weak two pair)",
        }
    }
}

/// The plain-words text that `value_strength_simple` returns.
pub open spec fn value_simple_text(hs: ValueStrength) -> Seq<char> {
    match hs {
        ValueStrength::Nuts => "very strong hand"@,
        ValueStrength::Strong => "strong hand"@,
        ValueStrength::Medium => "medium hand"@,
    }
}

fn value_strength_simple(hs: ValueStrength) -> (r: &'static str)
    ensures
        r@ == value_simple_text(hs),
{
    match hs {
        ValueStrength::Nuts => "very strong hand",
        ValueStrength::Strong => "strong hand",
        ValueStrength::Medium => "medium hand",
    }
}

/// Everything drawn at random for a value-bet spot; `board` is all five cards.
pub struct ValueDraw {
    pub hero_hand: [Card; 2],
    pub board: Vec<Card>,
    pub strength: ValueStrength,
    pub pot_bb: u32,
    pub stack_bb: u32,
}

pub open spec fn value_draw_valid(d: ValueDraw, diff: DifficultyLevel) -> bool {
    &&& d.board@.len() == 5
    &&& fresh_cards(d.hero_hand@, d.board@)
    &&& river_sizes_valid(d.pot_bb, d.stack_bb, diff, 10, 18, 60, 28, 80)
}

/// Overbet (D) the nuts, bet large (C) a strong hand, check (A) a medium one;
/// the small bet (B) is never right.
pub open spec fn value_correct(s: ValueStrength) -> int {
    match s {
        ValueStrength::Nuts => 3,
        ValueStrength::Strong => 2,
        ValueStrength::Medium => 0,
    }
}

pub open spec fn value_branch(s: ValueStrength) -> Seq<char> {
    match s {
        ValueStrength::Nuts => "Nuts:Overbet"@,
        ValueStrength::Strong => "Strong:LargeBet"@,
        ValueStrength::Medium => "Medium:Check"@,
    }
}

/// Value-bet scenario: hero on the Button, the Big Blind listed first; four answers.
pub open spec fn value_decision(d: ValueDraw) -> Decision {
    let stack = (d.stack_bb * 2) as u32;
    Decision {
        topic: TrainingTopic::RiverValueBet,
        branch: value_branch(d.strength),
        game_type: GameType::CashGame,
        hero_pos: Position::BTN,
        hand: d.hero_hand,
        board: d.board@,
        players: heads_up_spec(Position::BTN, Position::BB, stack, stack),
        pot: (d.pot_bb * 2) as u32,
        bet: 0,
        answers: 4,
        labels: seq![
            "Check"@,
            "Bet small ("@ + decimal(div_round_half_up(d.pot_bb * 2 * 33, 100) as nat) + " chips ~33%)"@,
            "Bet large ("@ + decimal(div_round_half_up(d.pot_bb * 2 * 75, 100) as nat) + " chips ~75%)"@,
            "Overbet ("@ + decimal(div_round_half_up(d.pot_bb * 2 * 125, 100) as nat) + " chips ~125%)"@,
        ],
        correct: value_correct(d.strength),
    }
}

/// Every text of a scenario built from `d` is non-empty: the question, the
/// branch key, and each answer's label and explanation.
#[verifier::spinoff_prover]
#[verifier::rlimit(50)]
pub proof fn lemma_value_texts_nonempty(d: ValueDraw, ts: TextStyle)
    ensures
        value_question(d, ts).len() > 0,
        value_decision(d).branch.len() > 0,
        forall|i: int| 0 <= i < value_decision(d).labels.len() ==> #[trigger] value_decision(d).labels[i].len() > 0,
        forall|i: int| 0 <= i < value_explanations(d, ts).len() ==> #[trigger] value_explanations(d, ts)[i].len() > 0,
{
    reveal_strlit(" chips). What do you do?");
    reveal_strlit(" chips ~125%). What do you do?");
    reveal_strlit(" on the river controls the pot. Betting risks getting check-raised by better hands (two pair, sets) and called only by hands that beat you — a classic thin-value trap. Take the free showdown.");
    reveal_strlit(" surrenders significant value. Villain will rarely bet into you on the river with hands that can pay off a bet. Always bet for value when you have a strong made hand and villain checks.");
    reveal_strlit(" undersizes the value. Villain's calling range is capped by the river action — they will call a larger bet just as often with hands that beat you, and fold the same weak hands. Size up to extract more EV.");
    reveal_strlit(" is optimal. It maximises value from villain's weaker made hands (top pair, second pair) while remaining credible — not so large that villain folds everything that can call. This is the standard value sizing on the river.");
    reveal_strlit(". Consider an overbet — your hand can credibly represent a polarised value range and villain must call off a large portion of their stack.");
    reveal_strlit(" is a risky thin value bet. You risk being called by better hands and raised off a marginal holding. Check is higher EV here.");
    reveal_strlit(" is the highest-EV play. Your hand is at the top of your range — you can represent a polarised range that includes both bluffs and the nuts. Villain cannot fold their strong hands here, and weak hands that would call 75% will also call 125%. Maximise the pot.");
    reveal_strlit(" is too ambitious. An overbet signals a polarised range (nuts or bluff) — villain will call with better hands and fold hands you dominate. Use 75% pot sizing instead.");
    reveal_strlit("Correct — check. Your hand is decent but not dominant. Betting risks giving your opponent a reason to raise and win a big pot.");
    reveal_strlit("Checking here loses value — you have a strong hand and your opponent will likely call a bet. Bet!");
    reveal_strlit("Betting too small here leaves money behind. Your hand is strong — bet bigger to win more.");
    reveal_strlit("Correct — bet big! You have a strong hand and your opponent is likely to call. Get paid as much as possible.");
    reveal_strlit("Going overboard on the bet size risks your opponent folding a hand that would have called a normal big bet.");
    reveal_strlit("Betting big here is risky when your hand isn't quite strong enough for it.");
    reveal_strlit("Correct — go big! You have the strongest possible hand here. Bet as much as you can — your opponent will likely call.");
    reveal_strlit("Check");
    reveal_strlit("Bet small (");
    reveal_strlit(" chips ~33%)");
    reveal_strlit("Bet large (");
    reveal_strlit(" chips ~75%)");
    reveal_strlit("Overbet (");
    reveal_strlit(" chips ~125%)");
    reveal_strlit("Nuts:Overbet");
    reveal_strlit("Strong:LargeBet");
    reveal_strlit("Medium:Check");
}

/// No text of a scenario built from `d` in text style `ts` is empty.
pub proof fn lemma_value_scenario_texts(d: ValueDraw, ts: TextStyle, id: Seq<char>, r: TrainingScenario)
    requires
        value_outcome(d, id, r),
        r.question@ == value_question(d, ts),
        explains(r, value_explanations(d, ts)),
    ensures
        texts_non_empty(r),
{
    lemma_value_texts_nonempty(d, ts);
    lemma_texts_shown(r, id, value_decision(d), value_question(d, ts), value_explanations(d, ts));
}

/// The scenario shows `value_decision(d)` under `id`.
pub open spec fn value_outcome(d: ValueDraw, id: Seq<char>, r: TrainingScenario) -> bool {
    shows(r, id, value_decision(d))
}

/// The explanations of the answers of a river value-bet scenario, in text style `ts`.
pub open spec fn value_explanations(d: ValueDraw, ts: TextStyle) -> Seq<Seq<char>> {
    let strength = d.strength;
    let strength_s = strength.name_text();
    seq![
        match ts {
                TextStyle::Simple => match strength {
                    ValueStrength::Medium => "Correct — check. Your hand is decent but not dominant. Betting risks giving your opponent a reason to raise and win a big pot."@,
                    _ => "Checking here loses value — you have a strong hand and your opponent will likely call a bet. Bet!"@,
                },
                TextStyle::Technical => match strength {
                    ValueStrength::Medium => concat_spec(seq!["Correct. Checking back with a "@, strength_s, " on the river controls the pot. Betting risks getting check-raised by better hands (two pair, sets) and called only by hands that beat you — a classic thin-value trap. Take the free showdown."@]),
                    _ => concat_spec(seq!["Checking with a "@, strength_s, " surrenders significant value. Villain will rarely bet into you on the river with hands that can pay off a bet. Always bet for value when you have a strong made hand and villain checks."@]),
                },
            },
        match ts {
                TextStyle::Simple => "Betting too small here leaves money behind. Your hand is strong — bet bigger to win more."@,
                TextStyle::Technical => concat_spec(seq!["A 33% pot bet with a "@, strength_s, " undersizes the value. Villain's calling range is capped by the river action — they will call a larger bet just as often with hands that beat you, and fold the same weak hands. Size up to extract more EV."@]),
            },
        match ts {
                TextStyle::Simple => match strength {
                    ValueStrength::Strong => "Correct — bet big! You have a strong hand and your opponent is likely to call. Get paid as much as possible."@,
                    ValueStrength::Nuts => "Going overboard on the bet size risks your opponent folding a hand that would have called a normal big bet."@,
                    ValueStrength::Medium => "Betting big here is risky when your hand isn't quite strong enough for it."@,
                },
                TextStyle::Technical => match strength {
                    ValueStrength::Strong => concat_spec(seq!["Correct. A 75% pot value bet with a "@, strength_s, " is optimal. It maximises value from villain's weaker made hands (top pair, second pair) while remaining credible — not so large that villain folds everything that can call. This is the standard value sizing on the river."@]),
                    ValueStrength::Nuts => concat_spec(seq!["A 75% pot bet is good but leaves value on the table with a "@, strength_s, ". Consider an overbet — your hand can credibly represent a polarised value range and villain must call off a large portion of their stack."@]),
                    ValueStrength::Medium => concat_spec(seq!["Betting 75% pot with a "@, strength_s, " is a risky thin value bet. You risk being called by better hands and raised off a marginal holding. Check is higher EV here."@]),
                },
            },
        match ts {
                TextStyle::Simple => match strength {
                    ValueStrength::Nuts => "Correct — go big! You have the strongest possible hand here. Bet as much as you can — your opponent will likely call."@,
                    _ => "Going overboard on the bet size risks your opponent folding a hand that would have called a normal big bet."@,
                },
                TextStyle::Technical => match strength {
                    ValueStrength::Nuts => concat_spec(seq!["Correct. An overbet with a "@, strength_s, " is the highest-EV play. Your hand is at the top of your range — you can represent a polarised range that includes both bluffs and the nuts. Villain cannot fold their strong hands here, and weak hands that would call 75% will also call 125%. Maximise the pot."@]),
                    _ => concat_spec(seq!["Overbetting with a "@, strength_s, " is too ambitious. An overbet signals a polarised range (nuts or bluff) — villain will call with better hands and fold hands you dominate. Use 75% pot sizing instead."@]),
                },
            },
    ]
}

/// The question of a river value-bet scenario in text style `ts`.
pub open spec fn value_question(d: ValueDraw, ts: TextStyle) -> Seq<char> {
    let pot = d.pot_bb * 2;
    let stack = d.stack_bb * 2;
    let small = div_round_half_up(pot * 33, 100);
    let large = div_round_half_up(pot * 75, 100);
    let over = div_round_half_up(pot * 125, 100);
    match ts {
        TextStyle::Simple => concat_spec(seq!["Last card. You have "@, hand_chars(d.hero_hand), " (a "@, value_simple_text(d.strength), ") on the Button. Board: "@, board_chars(d.board@), ". Pot: "@, decimal(pot as nat), " chips. Your opponent checked to you. Options: check, bet small ("@, decimal(small as nat), " chips), bet big ("@, decimal(large as nat), " chips), overbet ("@, decimal(over as nat), " chips). What do you do?"@]),
        TextStyle::Technical => concat_spec(seq!["River spot. You hold "@, hand_chars(d.hero_hand), " ("@, d.strength.name_text(), ") on Button. Board: "@, board_chars(d.board@), ". Pot: "@, decimal(pot as nat), " chips ("@, decimal(d.pot_bb as nat), " BB). Stack: "@, decimal(stack as nat), " chips. Villain checks to you. Bet options: small ("@, decimal(small as nat), " chips ~33%), large ("@, decimal(large as nat), " chips ~75%), overbet ("@, decimal(over as nat), " chips ~125%). What do you do?"@]),
    }
}

/// T10 — River Value Bet (RV-).
///
/// Hero's strength is a drawn label (nuts, strong or medium made hand), not
/// read from the dealt cards: the library has no classifier of river
/// made-hand strength, and the topic's rule is stated over the label —
/// overbet the nuts, bet large with a strong hand, check a medium one.
///
/// RNG order: shuffled deck → hand and board → strength (one of three) →
/// pot → stack.
pub fn generate_value_bet(
    rng: &mut StdRng,
    difficulty: DifficultyLevel,
    scenario_id: String,
    text_style: TextStyle,
) -> (r: TrainingScenario)
    ensures
        exists|d: ValueDraw|
            value_draw_valid(d, difficulty) && #[trigger] value_outcome(d, scenario_id@, r) && r.question@
                == value_question(d, text_style) && explains(r, value_explanations(d, text_style)),
{
    let (hero_hand, board) = deal(rng, 5);
    let strength = match draw_u32(rng, 0, 2) {
        0 => ValueStrength::Nuts,
        1 => ValueStrength::Strong,
        _ => ValueStrength::Medium,
    };
    let (pot_bb, stack_bb) = draw_river_sizes(rng, difficulty, 10, 18, 60, 28, 80);
    let d = ValueDraw { hero_hand, board, strength, pot_bb, stack_bb };
    let r = build_value_bet(&d, scenario_id, text_style);
    assert(value_draw_valid(d, difficulty));
    r
}

/// Build the value-bet scenario for draw `d`.
#[verifier::spinoff_prover]
#[verifier::rlimit(50)]
pub fn build_value_bet(d: &ValueDraw, scenario_id: String, text_style: TextStyle) -> (r: TrainingScenario)
    requires
        d.pot_bb <= 40,
        d.stack_bb <= 150,
    ensures
        value_outcome(*d, scenario_id@, r),
        r.question@ == value_question(*d, text_style),
        explains(r, value_explanations(*d, text_style)),
{
    let hero_hand = d.hero_hand;
    let strength = d.strength;
    let pot_bb = d.pot_bb;
    let stack_bb = d.stack_bb;

    let bb = 2u32;
    let pot = pot_bb * bb;
    let stack = stack_bb * bb;

    let small_bet = pct_of_pot(pot, 33);
    let large_bet = pct_of_pot(pot, 75);
    let overbet = pct_of_pot(pot, 125);

    let correct: usize = match strength {
        ValueStrength::Nuts => 3,
        ValueStrength::Strong => 2,
        ValueStrength::Medium => 0,
    };

    let branch_key = match strength {
        ValueStrength::Nuts => "Nuts:Overbet".to_owned(),
        ValueStrength::Strong => "Strong:LargeBet".to_owned(),
        ValueStrength::Medium => "Medium:Check".to_owned(),
    };

    let hero_pos = Position::BTN;
    let hs = hand_str(hero_hand);
    let bs = board_str(d.board.as_slice());
    let strength_simple = value_strength_simple(strength);
    let strength_s = strength.name();

    let question = match text_style {
        TextStyle::Simple => {
            let qs0 = num(pot as u64);
            let qs1 = num(small_bet as u64);
            let qs2 = num(large_bet as u64);
            let qs3 = num(overbet as u64);
            let parts = ["Last card. You have ", hs.as_str(), " (a ", strength_simple, ") on the Button. Board: ", bs.as_str(), ". Pot: ", qs0.as_str(), " chips. Your opponent checked to you. Options: check, bet small (", qs1.as_str(), " chips), bet big (", qs2.as_str(), " chips), overbet (", qs3.as_str(), " chips). What do you do?"];
            proof {
                assert(views_of(parts@) =~= seq!["Last card. You have "@, hs@, " (a "@, strength_simple@, ") on the Button. Board: "@, bs@, ". Pot: "@, qs0@, " chips. Your opponent checked to you. Options: check, bet small ("@, qs1@, " chips), bet big ("@, qs2@, " chips), overbet ("@, qs3@, " chips). What do you do?"@]);
            }
            concat(&parts)
        },
        TextStyle::Technical => {
            let qt0 = num(pot as u64);
            let qt1 = num(pot_bb as u64);
            let qt2 = num(stack as u64);
            let qt3 = num(small_bet as u64);
            let qt4 = num(large_bet as u64);
            let qt5 = num(overbet as u64);
            let parts = ["River spot. You hold ", hs.as_str(), " (", strength_s, ") on Button. Board: ", bs.as_str(), ". Pot: ", qt0.as_str(), " chips (", qt1.as_str(), " BB). Stack: ", qt2.as_str(), " chips. Villain checks to you. Bet options: small (", qt3.as_str(), " chips ~33%), large (", qt4.as_str(), " chips ~75%), overbet (", qt5.as_str(), " chips ~125%). What do you do?"];
            proof {
                assert(views_of(parts@) =~= seq!["River spot. You hold "@, hs@, " ("@, strength_s@, ") on Button. Board: "@, bs@, ". Pot: "@, qt0@, " chips ("@, qt1@, " BB). Stack: "@, qt2@, " chips. Villain checks to you. Bet options: small ("@, qt3@, " chips ~33%), large ("@, qt4@, " chips ~75%), overbet ("@, qt5@, " chips ~125%). What do you do?"@]);
            }
            concat(&parts)
        },
    };

    let explanation_0 = match text_style {
                TextStyle::Simple => match strength {
                    ValueStrength::Medium => "Correct — check. Your hand is decent but not dominant. Betting risks giving your opponent a reason to raise and win a big pot.".to_owned(),
                    _ => "Checking here loses value — you have a strong hand and your opponent will likely call a bet. Bet!".to_owned(),
                },
                TextStyle::Technical => match strength {
                    ValueStrength::Medium => {  let parts = ["Correct. Checking back with a ", strength_s, " on the river controls the pot. Betting risks getting check-raised by better hands (two pair, sets) and called only by hands that beat you — a classic thin-value trap. Take the free showdown."]; proof { assert(views_of(parts@) =~= seq!["Correct. Checking back with a "@, strength_s@, " on the river controls the pot. Betting risks getting check-raised by better hands (two pair, sets) and called only by hands that beat you — a classic thin-value trap. Take the free showdown."@]); } concat(&parts) },
                    _ => {  let parts = ["Checking with a ", strength_s, " surrenders significant value. Villain will rarely bet into you on the river with hands that can pay off a bet. Always bet for value when you have a strong made hand and villain checks."]; proof { assert(views_of(parts@) =~= seq!["Checking with a "@, strength_s@, " surrenders significant value. Villain will rarely bet into you on the river with hands that can pay off a bet. Always bet for value when you have a strong made hand and villain checks."@]); } concat(&parts) },
                },
            };
    let explanation_1 = match text_style {
                TextStyle::Simple => "Betting too small here leaves money behind. Your hand is strong — bet bigger to win more.".to_owned(),
                TextStyle::Technical => {  let parts = ["A 33% pot bet with a ", strength_s, " undersizes the value. Villain's calling range is capped by the river action — they will call a larger bet just as often with hands that beat you, and fold the same weak hands. Size up to extract more EV."]; proof { assert(views_of(parts@) =~= seq!["A 33% pot bet with a "@, strength_s@, " undersizes the value. Villain's calling range is capped by the river action — they will call a larger bet just as often with hands that beat you, and fold the same weak hands. Size up to extract more EV."@]); } concat(&parts) },
            };
    let explanation_2 = match text_style {
                TextStyle::Simple => match strength {
                    ValueStrength::Strong => "Correct — bet big! You have a strong hand and your opponent is likely to call. Get paid as much as possible.".to_owned(),
                    ValueStrength::Nuts => "Going overboard on the bet size risks your opponent folding a hand that would have called a normal big bet.".to_owned(),
                    ValueStrength::Medium => "Betting big here is risky when your hand isn't quite strong enough for it.".to_owned(),
                },
                TextStyle::Technical => match strength {
                    ValueStrength::Strong => {  let parts = ["Correct. A 75% pot value bet with a ", strength_s, " is optimal. It maximises value from villain's weaker made hands (top pair, second pair) while remaining credible — not so large that villain folds everything that can call. This is the standard value sizing on the river."]; proof { assert(views_of(parts@) =~= seq!["Correct. A 75% pot value bet with a "@, strength_s@, " is optimal. It maximises value from villain's weaker made hands (top pair, second pair) while remaining credible — not so large that villain folds everything that can call. This is the standard value sizing on the river."@]); } concat(&parts) },
                    ValueStrength::Nuts => {  let parts = ["A 75% pot bet is good but leaves value on the table with a ", strength_s, ". Consider an overbet — your hand can credibly represent a polarised value range and villain must call off a large portion of their stack."]; proof { assert(views_of(parts@) =~= seq!["A 75% pot bet is good but leaves value on the table with a "@, strength_s@, ". Consider an overbet — your hand can credibly represent a polarised value range and villain must call off a large portion of their stack."@]); } concat(&parts) },
                    ValueStrength::Medium => {  let parts = ["Betting 75% pot with a ", strength_s, " is a risky thin value bet. You risk being called by better hands and raised off a marginal holding. Check is higher EV here."]; proof { assert(views_of(parts@) =~= seq!["Betting 75% pot with a "@, strength_s@, " is a risky thin value bet. You risk being called by better hands and raised off a marginal holding. Check is higher EV here."@]); } concat(&parts) },
                },
            };
    let explanation_3 = match text_style {
                TextStyle::Simple => match strength {
                    ValueStrength::Nuts => "Correct — go big! You have the strongest possible hand here. Bet as much as you can — your opponent will likely call.".to_owned(),
                    _ => "Going overboard on the bet size risks your opponent folding a hand that would have called a normal big bet.".to_owned(),
                },
                TextStyle::Technical => match strength {
                    ValueStrength::Nuts => {  let parts = ["Correct. An overbet with a ", strength_s, " is the highest-EV play. Your hand is at the top of your range — you can represent a polarised range that includes both bluffs and the nuts. Villain cannot fold their strong hands here, and weak hands that would call 75% will also call 125%. Maximise the pot."]; proof { assert(views_of(parts@) =~= seq!["Correct. An overbet with a "@, strength_s@, " is the highest-EV play. Your hand is at the top of your range — you can represent a polarised range that includes both bluffs and the nuts. Villain cannot fold their strong hands here, and weak hands that would call 75% will also call 125%. Maximise the pot."@]); } concat(&parts) },
                    _ => {  let parts = ["Overbetting with a ", strength_s, " is too ambitious. An overbet signals a polarised range (nuts or bluff) — villain will call with better hands and fold hands you dominate. Use 75% pot sizing instead."]; proof { assert(views_of(parts@) =~= seq!["Overbetting with a "@, strength_s@, " is too ambitious. An overbet signals a polarised range (nuts or bluff) — villain will call with better hands and fold hands you dominate. Use 75% pot sizing instead."@]); } concat(&parts) },
                },
            };
    let answers = vec![
        option_at(0, "Check".to_owned(), correct, explanation_0),
        option_at(1, cat3("Bet small (", num(small_bet as u64).as_str(), " chips ~33%)"), correct, explanation_1),
        option_at(2, cat3("Bet large (", num(large_bet as u64).as_str(), " chips ~75%)"), correct, explanation_2),
        option_at(3, cat3("Overbet (", num(overbet as u64).as_str(), " chips ~125%)"), correct, explanation_3),
    ];


    let players = heads_up(hero_pos, Position::BB, stack, stack);
    scenario(
        scenario_id,
        TrainingTopic::RiverValueBet,
        branch_key,
        GameType::CashGame,
        hero_pos,
        hero_hand,
        d.board.clone(),
        players,
        pot,
        0,
        question,
        answers,
    )
}

// ═══════════════════════════════════════════════════════════════════════════════
// T14 — River Call or Fold (RF-)
//
// Villain bets into hero on the river.  Hero must decide: fold, call, or raise.
// The correct action is a function of (hand strength, bet size):
//   - Strong hand + small bet  → raise (extract value)
//   - Marginal    + standard   → call  (pot odds justify it)
//   - Weak        + large      → fold  (not enough equity)
// ═══════════════════════════════════════════════════════════════════════════════

/// Hero's hand strength when facing a river bet.
#[derive(Debug, Clone, Copy, PartialEq, Eq, Structural)]
pub enum CallerStrength {
    Strong,
    Marginal,
    Weak,
}

/// Size of villain's river bet.
#[derive(Debug, Clone, Copy, PartialEq, Eq, Structural)]
pub enum BetSize {
    Small,
    Standard,
    Large,
}

impl CallerStrength {
    /// The text that `name` returns.
    pub open spec fn name_text(self) -> Seq<char> {
        match self {
            CallerStrength::Strong => "strong hand (two pair+ / top pair strong kicker)"@,
            CallerStrength::Marginal => "marginal hand (top pair weak kicker / middle pair)"@,
            CallerStrength::Weak => "weak hand (bottom pair / missed draw)"@,
        }
    }

    /// Human-readable description.
    pub fn name(&self) -> (s: &'static str)
        ensures
            s@ == self.name_text(),
    {
        match self {
            CallerStrength::Strong => "strong hand (two pair+ / top pair strong kicker)",
            CallerStrength::Marginal => "marginal hand (top pair weak kicker / middle pair)",
            CallerStrength::Weak => "weak hand (bottom pair / missed draw)",
        }
    }
}

impl BetSize {
    /// The text that `name` returns.
    pub open spec fn name_text(self) -> Seq<char> {
        match self {
            BetSize::Small => "small (~33%)"@,
            BetSize::Standard => "standard (~67%)"@,
            BetSize::Large => "large (~pot)"@,
        }
    }

    /// Human-readable description.
    pub fn name(&self) -> (s: &'static str)
        ensures
            s@ == self.name_text(),
    {
        match self {
            BetSize::Small => "small (~33%)",
            BetSize::Standard => "standard (~67%)",
            BetSize::Large => "large (~pot)",
        }
    }
}

/// The plain-words text that `caller_strength_simple` returns.
pub open spec fn caller_simple_text(cs: CallerStrength) -> Seq<char> {
    match cs {
        CallerStrength::Strong => "strong hand"@,
        CallerStrength::Marginal => "medium hand"@,
        CallerStrength::Weak => "weak hand"@,
    }
}

fn caller_strength_simple(cs: CallerStrength) -> (r: &'static str)
    ensures
        r@ == caller_simple_text(cs),
{
    match cs {
        CallerStrength::Strong => "strong hand",
        CallerStrength::Marginal => "medium hand",
        CallerStrength::Weak => "weak hand",
    }
}

/// The plain-words text that `bet_size_simple` returns.
pub open spec fn bet_simple_text(bs: BetSize) -> Seq<char> {
    match bs {
        BetSize::Small => "small bet"@,
        BetSize::Standard => "normal-sized bet"@,
        BetSize::Large => "large bet"@,
    }
}

fn bet_size_simple(bs: BetSize) -> (r: &'static str)
    ensures
        r@ == bet_simple_text(bs),
{
    match bs {
        BetSize::Small => "small bet",
        BetSize::Standard => "normal-sized bet",
        BetSize::Large => "large bet",
    }
}

/// Everything drawn at random for a call-or-fold spot; `board` is all five cards.
pub struct CallFoldDraw {
    pub hero_hand: [Card; 2],
    pub board: Vec<Card>,
    pub strength: CallerStrength,
    pub bet_size: BetSize,
    pub pot_bb: u32,
    pub stack_bb: u32,
}

/// The drawn spots pair a strong hand with a small bet, a marginal hand with
/// a standard bet, and a weak hand with a large bet.
pub open spec fn call_pairing(s: CallerStrength, b: BetSize) -> bool {
    ||| s == CallerStrength::Strong && b == BetSize::Small
    ||| s == CallerStrength::Marginal && b == BetSize::Standard
    ||| s == CallerStrength::Weak && b == BetSize::Large
}

pub open spec fn call_draw_valid(d: CallFoldDraw, diff: DifficultyLevel) -> bool {
    &&& d.board@.len() == 5
    &&& fresh_cards(d.hero_hand@, d.board@)
    &&& call_pairing(d.strength, d.bet_size)
    &&& river_sizes_valid(d.pot_bb, d.stack_bb, diff, 10, 20, 80, 28, 100)
}

/// Villain's bet: a third of the pot, two thirds of it (nearest chip, halves
/// up), or the pot.
pub open spec fn villain_bet_spec(b: BetSize, pot: int) -> int {
    match b {
        BetSize::Small => div_round_half_up(pot * 33, 100),
        BetSize::Standard => div_round_half_up(pot * 67, 100),
        BetSize::Large => pot,
    }
}

/// Raise (C) a strong hand against a small bet, call (B) a marginal hand
/// against a standard bet, fold (A) otherwise.
pub open spec fn call_correct(s: CallerStrength, b: BetSize) -> int {
    if s == CallerStrength::Strong && b == BetSize::Small {
        2
    } else if s == CallerStrength::Marginal && b == BetSize::Standard {
        1
    } else {
        0
    }
}

pub open spec fn call_branch(s: CallerStrength, b: BetSize) -> Seq<char> {
    if s == CallerStrength::Strong && b == BetSize::Small {
        "Strong:SmallBet:Raise"@
    } else if s == CallerStrength::Marginal && b == BetSize::Standard {
        "Marginal:StdBet:Call"@
    } else if s == CallerStrength::Weak && b == BetSize::Large {
        "Weak:LargeBet:Fold"@
    } else {
        "Unknown"@
    }
}

/// Answer labels when facing villain's river bet `villain_bet` (chips): the
/// raise is 2.5x the bet, to the nearest chip (halves up).
pub open spec fn call_labels(villain_bet: int) -> Seq<Seq<char>> {
    seq![
        "Fold"@,
        "Call ("@ + decimal(villain_bet as nat) + " chips)"@,
        "Raise to "@ + decimal(div_round_half_up(5 * villain_bet, 2) as nat) + " chips"@,
    ]
}

/// Call-or-fold scenario: hero on the Button facing villain's bet, the Big
/// Blind listed first.
pub open spec fn call_decision(d: CallFoldDraw) -> Decision {
    let pot = d.pot_bb * 2;
    let stack = (d.stack_bb * 2) as u32;
    Decision {
        topic: TrainingTopic::RiverCallOrFold,
        branch: call_branch(d.strength, d.bet_size),
        game_type: GameType::CashGame,
        hero_pos: Position::BTN,
        hand: d.hero_hand,
        board: d.board@,
        players: heads_up_spec(Position::BTN, Position::BB, stack, stack),
        pot: pot as u32,
        bet: villain_bet_spec(d.bet_size, pot) as u32,
        answers: 3,
        labels: call_labels(villain_bet_spec(d.bet_size, pot)),
        correct: call_correct(d.strength, d.bet_size),
    }
}

/// Every text of a scenario built from `d` is non-empty: the question, the
/// branch key, and each answer's label and explanation.
#[verifier::spinoff_prover]
#[verifier::rlimit(50)]
pub proof fn lemma_call_texts_nonempty(d: CallFoldDraw, ts: TextStyle)
    ensures
        call_question(d, ts).len() > 0,
        call_decision(d).branch.len() > 0,
        forall|i: int| 0 <= i < call_decision(d).labels.len() ==> #[trigger] call_decision(d).labels[i].len() > 0,
        forall|i: int| 0 <= i < call_explanations(d, ts).len() ==> #[trigger] call_explanations(d, ts)[i].len() > 0,
{
    reveal_strlit(") into you. What do you do?");
    reveal_strlit("% equity to break even on a call. What do you do?");
    reveal_strlit(" is unlikely to have that against a polarised river betting range. Villain's large bet signals a strong hand or bluff — your weak hand loses to the former and gains nothing against the latter. Fold.");
    reveal_strlit(" exceeds that. Either call to realise your equity, or raise to extract more value.");
    reveal_strlit("% equity and your hand is likely ahead of villain's bluffing frequency at this sizing. Folding is too tight; raising turns a thin call into an aggressive bluff-raise that few worse hands will call.");
    reveal_strlit(" chips extracts more EV and is credible given your strong range on the river.");
    reveal_strlit("% equity and your hand is unlikely to have it against a polarised river bet at this sizing. Fold.");
    reveal_strlit(" villain bet maximises value. A small river bet from villain often represents a thin value bet or a small bluff — your strong hand is ahead of much of that range. A raise to ~2.5× the bet is credible and extracts significantly more EV than a flat call. Villain will call with weaker top pairs and strong one-pair hands.");
    reveal_strlit(" bet is too aggressive. A raise commits a large portion of the stack with a hand that cannot profitably call many re-raises. Only raise on the river when your hand is strong enough to comfortably stack off.");
    reveal_strlit("Correct — fold. Your hand is weak and your opponent made a large bet. You don't win often enough here to make calling worth it.");
    reveal_strlit("Folding here gives up too easily — you have enough of a hand to call.");
    reveal_strlit("Correct — call. Your hand wins often enough at this price to make calling worthwhile.");
    reveal_strlit("Just calling here misses a chance to win more — raise with this strong hand!");
    reveal_strlit("Correct — raise! Your opponent made a small bet and you have a strong hand. Raise to win more chips — they're likely to call.");
    reveal_strlit("Raising here is too aggressive for your hand strength. Just call or fold.");
    reveal_strlit("Strong:SmallBet:Raise");
    reveal_strlit("Marginal:StdBet:Call");
    reveal_strlit("Weak:LargeBet:Fold");
    reveal_strlit("Unknown");
    reveal_strlit("Fold");
    reveal_strlit("Call (");
    reveal_strlit(" chips)");
    reveal_strlit("Raise to ");
    reveal_strlit(" chips");
}

/// No text of a scenario built from `d` in text style `ts` is empty.
pub proof fn lemma_call_scenario_texts(d: CallFoldDraw, ts: TextStyle, id: Seq<char>, r: TrainingScenario)
    requires
        call_outcome(d, id, r),
        r.question@ == call_question(d, ts),
        explains(r, call_explanations(d, ts)),
    ensures
        texts_non_empty(r),
{
    lemma_call_texts_nonempty(d, ts);
    lemma_texts_shown(r, id, call_decision(d), call_question(d, ts), call_explanations(d, ts));
}

/// The scenario shows `call_decision(d)` under `id`.
pub open spec fn call_outcome(d: CallFoldDraw, id: Seq<char>, r: TrainingScenario) -> bool {
    shows(r, id, call_decision(d))
}

/// The explanations of the answers of a call-or-fold scenario, in text style `ts`.
pub open spec fn call_explanations(d: CallFoldDraw, ts: TextStyle) -> Seq<Seq<char>> {
    let pot = d.pot_bb * 2;
    let strength = d.strength;
    let bet_size = d.bet_size;
    let strength_s = strength.name_text();
    let bet_size_s = bet_size.name_text();
    let villain_bet = villain_bet_spec(bet_size, pot);
    let required_equity_pct = pct_rounded(villain_bet as nat, (pot + 2 * villain_bet) as nat);
    let raise_size = div_round_half_up(5 * villain_bet, 2);
    seq![
        match ts {
                TextStyle::Simple => match (strength, bet_size) {
                    (CallerStrength::Weak, BetSize::Large) =>
                        "Correct — fold. Your hand is weak and your opponent made a large bet. You don't win often enough here to make calling worth it."@,
                    _ =>
                        "Folding here gives up too easily — you have enough of a hand to call."@,
                },
                TextStyle::Technical => match (strength, bet_size) {
                    (CallerStrength::Weak, BetSize::Large) => concat_spec(seq!["Correct. Folding a "@, strength_s, " against a "@, bet_size_s, " bet is right. You need ~"@, decimal((required_equity_pct) as nat), "% equity to break even, but a "@, strength_s, " is unlikely to have that against a polarised river betting range. Villain's large bet signals a strong hand or bluff — your weak hand loses to the former and gains nothing against the latter. Fold."@]),
                    _ => concat_spec(seq!["Folding here surrenders too much value. Against a "@, bet_size_s, " bet you need only ~"@, decimal((required_equity_pct) as nat), "% equity — your "@, strength_s, " exceeds that. Either call to realise your equity, or raise to extract more value."@]),
                },
            },
        match ts {
                TextStyle::Simple => match (strength, bet_size) {
                    (CallerStrength::Marginal, BetSize::Standard) =>
                        "Correct — call. Your hand wins often enough at this price to make calling worthwhile."@,
                    (CallerStrength::Strong, BetSize::Small) =>
                        "Just calling here misses a chance to win more — raise with this strong hand!"@,
                    _ =>
                        "Just calling here misses a chance to win more — raise with this strong hand!"@,
                },
                TextStyle::Technical => match (strength, bet_size) {
                    (CallerStrength::Marginal, BetSize::Standard) => concat_spec(seq!["Correct. Calling "@, decimal((villain_bet) as nat), " chips against a "@, bet_size_s, " bet with a "@, strength_s, " is the right play. You need ~"@, decimal((required_equity_pct) as nat), "% equity and your hand is likely ahead of villain's bluffing frequency at this sizing. Folding is too tight; raising turns a thin call into an aggressive bluff-raise that few worse hands will call."@]),
                    (CallerStrength::Strong, BetSize::Small) => concat_spec(seq!["Calling with a "@, strength_s, " against a "@, bet_size_s, " bet is fine but leaves value behind. Villain is likely betting thin for value with hands you beat — a raise to ~"@, decimal((raise_size) as nat), " chips extracts more EV and is credible given your strong range on the river."@]),
                    _ => concat_spec(seq!["Calling "@, decimal((villain_bet) as nat), " chips with a "@, strength_s, " against a "@, bet_size_s, " bet is -EV. You need ~"@, decimal((required_equity_pct) as nat), "% equity and your hand is unlikely to have it against a polarised river bet at this sizing. Fold."@]),
                },
            },
        match ts {
                TextStyle::Simple => match (strength, bet_size) {
                    (CallerStrength::Strong, BetSize::Small) =>
                        "Correct — raise! Your opponent made a small bet and you have a strong hand. Raise to win more chips — they're likely to call."@,
                    _ =>
                        "Raising here is too aggressive for your hand strength. Just call or fold."@,
                },
                TextStyle::Technical => match (strength, bet_size) {
                    (CallerStrength::Strong, BetSize::Small) => concat_spec(seq!["Correct. Raising to ~"@, decimal((raise_size) as nat), " chips with a "@, strength_s, " against a "@, bet_size_s, " villain bet maximises value. A small river bet from villain often represents a thin value bet or a small bluff — your strong hand is ahead of much of that range. A raise to ~2.5× the bet is credible and extracts significantly more EV than a flat call. Villain will call with weaker top pairs and strong one-pair hands."@]),
                    _ => concat_spec(seq!["Raising with a "@, strength_s, " against a "@, bet_size_s, " bet is too aggressive. A raise commits a large portion of the stack with a hand that cannot profitably call many re-raises. Only raise on the river when your hand is strong enough to comfortably stack off."@]),
                },
            },
    ]
}

/// The question of a call-or-fold scenario in text style `ts`.
pub open spec fn call_question(d: CallFoldDraw, ts: TextStyle) -> Seq<char> {
    let pot = d.pot_bb * 2;
    let stack = d.stack_bb * 2;
    let vb = villain_bet_spec(d.bet_size, pot);
    let req = pct_rounded(vb as nat, (pot + 2 * vb) as nat);
    match ts {
        TextStyle::Simple => concat_spec(seq!["Last card. You have "@, hand_chars(d.hero_hand), " ("@, caller_simple_text(d.strength), ") on the Button. Board: "@, board_chars(d.board@), ". Pot: "@, decimal(pot as nat), " chips. Stack: "@, decimal(stack as nat), " chips. Your opponent bets "@, decimal(vb as nat), " chips ("@, bet_simple_text(d.bet_size), ") into you. What do you do?"@]),
        TextStyle::Technical => concat_spec(seq!["River call or fold. You hold "@, hand_chars(d.hero_hand), " ("@, d.strength.name_text(), ") on the Button. Board: "@, board_chars(d.board@), ". Pot: "@, decimal(pot as nat), " chips ("@, decimal(d.pot_bb as nat), " BB). Stack: "@, decimal(stack as nat), " chips. Villain bets "@, decimal(vb as nat), " chips ("@, d.bet_size.name_text(), ") into you. You need ~"@, decimal(req as nat), "% equity to break even on a call. What do you do?"@]),
    }
}

/// T14 — River Call or Fold (RF-).
///
/// Hero's strength and the bet size are a drawn pairing of labels, not read
/// from the dealt cards: the library has no classifier of river made-hand
/// strength, and the topic's rule is stated over the labels — raise strong
/// against small bets, call marginal against standard bets, fold weak
/// against large bets.
///
/// RNG order: shuffled deck → hand and board → strength/bet pairing (one of
/// three) → pot → stack.
pub fn generate_call_or_fold(
    rng: &mut StdRng,
    difficulty: DifficultyLevel,
    scenario_id: String,
    text_style: TextStyle,
) -> (r: TrainingScenario)
    ensures
        exists|d: CallFoldDraw|
            call_draw_valid(d, difficulty) && #[trigger] call_outcome(d, scenario_id@, r) && r.question@
                == call_question(d, text_style) && explains(r, call_explanations(d, text_style)),
{
    let (hero_hand, board) = deal(rng, 5);
    let (strength, bet_size) = match draw_u32(rng, 0, 2) {
        0 => (CallerStrength::Strong, BetSize::Small),
        1 => (CallerStrength::Marginal, BetSize::Standard),
        _ => (CallerStrength::Weak, BetSize::Large),
    };
    let (pot_bb, stack_bb) = draw_river_sizes(rng, difficulty, 10, 20, 80, 28, 100);
    let d = CallFoldDraw { hero_hand, board, strength, bet_size, pot_bb, stack_bb };
    let r = build_call_or_fold(&d, scenario_id, text_style);
    assert(call_draw_valid(d, difficulty));
    r
}

/// Build the call-or-fold scenario for draw `d`.
#[verifier::spinoff_prover]
#[verifier::rlimit(50)]
pub fn build_call_or_fold(d: &CallFoldDraw, scenario_id: String, text_style: TextStyle) -> (r: TrainingScenario)
    requires
        6 <= d.pot_bb <= 40,
        d.stack_bb <= 150,
    ensures
        call_outcome(*d, scenario_id@, r),
        r.question@ == call_question(*d, text_style),
        explains(r, call_explanations(*d, text_style)),
{
    let hero_hand = d.hero_hand;
    let strength = d.strength;
    let bet_size = d.bet_size;
    let pot_bb = d.pot_bb;
    let stack_bb = d.stack_bb;

    let bb = 2u32;
    let pot = pot_bb * bb;
    let stack = stack_bb * bb;

    let villain_bet: u32 = match bet_size {
        BetSize::Small => pct_of_pot(pot, 33) as u32,
        BetSize::Standard => pct_of_pot(pot, 67) as u32,
        BetSize::Large => pot,
    };

    // Break-even equity of a call: bet / (pot + 2 * bet), nearest percent
    let required_equity_pct = percent_rounded(villain_bet as u64, pot as u64 + 2 * villain_bet as u64);
    // 2.5x the bet, nearest chip
    let raise_size = round_div(5 * villain_bet as u64, 2);

    let correct: usize = match (strength, bet_size) {
        (CallerStrength::Strong, BetSize::Small) => 2,
        (CallerStrength::Marginal, BetSize::Standard) => 1,
        (CallerStrength::Weak, BetSize::Large) => 0,
        _ => 0,
    };

    let branch_key = match (strength, bet_size) {
        (CallerStrength::Strong, BetSize::Small) => "Strong:SmallBet:Raise".to_owned(),
        (CallerStrength::Marginal, BetSize::Standard) => "Marginal:StdBet:Call".to_owned(),
        (CallerStrength::Weak, BetSize::Large) => "Weak:LargeBet:Fold".to_owned(),
        _ => "Unknown".to_owned(),
    };

    let hero_pos = Position::BTN;
    let hs = hand_str(hero_hand);
    let bs = board_str(d.board.as_slice());
    let strength_simple = caller_strength_simple(strength);
    let bet_size_simple_label = bet_size_simple(bet_size);
    let strength_s = strength.name();
    let bet_size_s = bet_size.name();

    let question = match text_style {
        TextStyle::Simple => {
            let qs0 = num(pot as u64);
            let qs1 = num(stack as u64);
            let qs2 = num(villain_bet as u64);
            let parts = ["Last card. You have ", hs.as_str(), " (", strength_simple, ") on the Button. Board: ", bs.as_str(), ". Pot: ", qs0.as_str(), " chips. Stack: ", qs1.as_str(), " chips. Your opponent bets ", qs2.as_str(), " chips (", bet_size_simple_label, ") into you. What do you do?"];
            proof {
                assert(views_of(parts@) =~= seq!["Last card. You have "@, hs@, " ("@, strength_simple@, ") on the Button. Board: "@, bs@, ". Pot: "@, qs0@, " chips. Stack: "@, qs1@, " chips. Your opponent bets "@, qs2@, " chips ("@, bet_size_simple_label@, ") into you. What do you do?"@]);
            }
            concat(&parts)
        },
        TextStyle::Technical => {
            let qt0 = num(pot as u64);
            let qt1 = num(pot_bb as u64);
            let qt2 = num(stack as u64);
            let qt3 = num(villain_bet as u64);
            let qt4 = num(required_equity_pct as u64);
            let parts = ["River call or fold. You hold ", hs.as_str(), " (", strength_s, ") on the Button. Board: ", bs.as_str(), ". Pot: ", qt0.as_str(), " chips (", qt1.as_str(), " BB). Stack: ", qt2.as_str(), " chips. Villain bets ", qt3.as_str(), " chips (", bet_size_s, ") into you. You need ~", qt4.as_str(), "% equity to break even on a call. What do you do?"];
            proof {
                assert(views_of(parts@) =~= seq!["River call or fold. You hold "@, hs@, " ("@, strength_s@, ") on the Button. Board: "@, bs@, ". Pot: "@, qt0@, " chips ("@, qt1@, " BB). Stack: "@, qt2@, " chips. Villain bets "@, qt3@, " chips ("@, bet_size_s@, ") into you. You need ~"@, qt4@, "% equity to break even on a call. What do you do?"@]);
            }
            concat(&parts)
        },
    };

    let explanation_0 = match text_style {
                TextStyle::Simple => match (strength, bet_size) {
                    (CallerStrength::Weak, BetSize::Large) =>
                        "Correct — fold. Your hand is weak and your opponent made a large bet. You don't win often enough here to make calling worth it.".to_owned(),
                    _ =>
                        "Folding here gives up too easily — you have enough of a hand to call.".to_owned(),
                },
                TextStyle::Technical => match (strength, bet_size) {
                    (CallerStrength::Weak, BetSize::Large) => { let t1 = num(required_equity_pct as u64); let parts = ["Correct. Folding a ", strength_s, " against a ", bet_size_s, " bet is right. You need ~", t1.as_str(), "% equity to break even, but a ", strength_s, " is unlikely to have that against a polarised river betting range. Villain's large bet signals a strong hand or bluff — your weak hand loses to the former and gains nothing against the latter. Fold."]; proof { assert(views_of(parts@) =~= seq!["Correct. Folding a "@, strength_s@, " against a "@, bet_size_s@, " bet is right. You need ~"@, t1@, "% equity to break even, but a "@, strength_s@, " is unlikely to have that against a polarised river betting range. Villain's large bet signals a strong hand or bluff — your weak hand loses to the former and gains nothing against the latter. Fold."@]); } concat(&parts) },
                    _ => { let t2 = num(required_equity_pct as u64); let parts = ["Folding here surrenders too much value. Against a ", bet_size_s, " bet you need only ~", t2.as_str(), "% equity — your ", strength_s, " exceeds that. Either call to realise your equity, or raise to extract more value."]; proof { assert(views_of(parts@) =~= seq!["Folding here surrenders too much value. Against a "@, bet_size_s@, " bet you need only ~"@, t2@, "% equity — your "@, strength_s@, " exceeds that. Either call to realise your equity, or raise to extract more value."@]); } concat(&parts) },
                },
            };
    let explanation_1 = match text_style {
                TextStyle::Simple => match (strength, bet_size) {
                    (CallerStrength::Marginal, BetSize::Standard) =>
                        "Correct — call. Your hand wins often enough at this price to make calling worthwhile.".to_owned(),
                    (CallerStrength::Strong, BetSize::Small) =>
                        "Just calling here misses a chance to win more — raise with this strong hand!".to_owned(),
                    _ =>
                        "Just calling here misses a chance to win more — raise with this strong hand!".to_owned(),
                },
                TextStyle::Technical => match (strength, bet_size) {
                    (CallerStrength::Marginal, BetSize::Standard) => { let t3 = num(villain_bet as u64); let t4 = num(required_equity_pct as u64); let parts = ["Correct. Calling ", t3.as_str(), " chips against a ", bet_size_s, " bet with a ", strength_s, " is the right play. You need ~", t4.as_str(), "% equity and your hand is likely ahead of villain's bluffing frequency at this sizing. Folding is too tight; raising turns a thin call into an aggressive bluff-raise that few worse hands will call."]; proof { assert(views_of(parts@) =~= seq!["Correct. Calling "@, t3@, " chips against a "@, bet_size_s@, " bet with a "@, strength_s@, " is the right play. You need ~"@, t4@, "% equity and your hand is likely ahead of villain's bluffing frequency at this sizing. Folding is too tight; raising turns a thin call into an aggressive bluff-raise that few worse hands will call."@]); } concat(&parts) },
                    (CallerStrength::Strong, BetSize::Small) => { let t5 = num(raise_size as u64); let parts = ["Calling with a ", strength_s, " against a ", bet_size_s, " bet is fine but leaves value behind. Villain is likely betting thin for value with hands you beat — a raise to ~", t5.as_str(), " chips extracts more EV and is credible given your strong range on the river."]; proof { assert(views_of(parts@) =~= seq!["Calling with a "@, strength_s@, " against a "@, bet_size_s@, " bet is fine but leaves value behind. Villain is likely betting thin for value with hands you beat — a raise to ~"@, t5@, " chips extracts more EV and is credible given your strong range on the river."@]); } concat(&parts) },
                    _ => { let t6 = num(villain_bet as u64); let t7 = num(required_equity_pct as u64); let parts = ["Calling ", t6.as_str(), " chips with a ", strength_s, " against a ", bet_size_s, " bet is -EV. You need ~", t7.as_str(), "% equity and your hand is unlikely to have it against a polarised river bet at this sizing. Fold."]; proof { assert(views_of(parts@) =~= seq!["Calling "@, t6@, " chips with a "@, strength_s@, " against a "@, bet_size_s@, " bet is -EV. You need ~"@, t7@, "% equity and your hand is unlikely to have it against a polarised river bet at this sizing. Fold."@]); } concat(&parts) },
                },
            };
    let explanation_2 = match text_style {
                TextStyle::Simple => match (strength, bet_size) {
                    (CallerStrength::Strong, BetSize::Small) =>
                        "Correct — raise! Your opponent made a small bet and you have a strong hand. Raise to win more chips — they're likely to call.".to_owned(),
                    _ =>
                        "Raising here is too aggressive for your hand strength. Just call or fold.".to_owned(),
                },
                TextStyle::Technical => match (strength, bet_size) {
                    (CallerStrength::Strong, BetSize::Small) => { let t8 = num(raise_size as u64); let parts = ["Correct. Raising to ~", t8.as_str(), " chips with a ", strength_s, " against a ", bet_size_s, " villain bet maximises value. A small river bet from villain often represents a thin value bet or a small bluff — your strong hand is ahead of much of that range. A raise to ~2.5× the bet is credible and extracts significantly more EV than a flat call. Villain will call with weaker top pairs and strong one-pair hands."]; proof { assert(views_of(parts@) =~= seq!["Correct. Raising to ~"@, t8@, " chips with a "@, strength_s@, " against a "@, bet_size_s@, " villain bet maximises value. A small river bet from villain often represents a thin value bet or a small bluff — your strong hand is ahead of much of that range. A raise to ~2.5× the bet is credible and extracts significantly more EV than a flat call. Villain will call with weaker top pairs and strong one-pair hands."@]); } concat(&parts) },
                    _ => {  let parts = ["Raising with a ", strength_s, " against a ", bet_size_s, " bet is too aggressive. A raise commits a large portion of the stack with a hand that cannot profitably call many re-raises. Only raise on the river when your hand is strong enough to comfortably stack off."]; proof { assert(views_of(parts@) =~= seq!["Raising with a "@, strength_s@, " against a "@, bet_size_s@, " bet is too aggressive. A raise commits a large portion of the stack with a hand that cannot profitably call many re-raises. Only raise on the river when your hand is strong enough to comfortably stack off."@]); } concat(&parts) },
                },
            };
    let answers = vec![
        option_at(0, "Fold".to_owned(), correct, explanation_0),
        option_at(1, cat3("Call (", num(villain_bet as u64).as_str(), " chips)"), correct, explanation_1),
        option_at(2, cat3("Raise to ", num(raise_size as u64).as_str(), " chips"), correct, explanation_2),
    ];


    let players = heads_up(hero_pos, Position::BB, stack, stack);
    scenario(
        scenario_id,
        TrainingTopic::RiverCallOrFold,
        branch_key,
        GameType::CashGame,
        hero_pos,
        hero_hand,
        d.board.clone(),
        players,
        pot,
        villain_bet,
        question,
        answers,
    )
}
} // verus!
