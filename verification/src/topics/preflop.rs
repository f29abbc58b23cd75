//! Preflop topic generators: open-raise, ICM push/fold, anti-limper isolation,
//! squeeze play, and big blind defense.
//!
//! All five topics have an empty board.  Hand strength comes from
//! `evaluator::classify_hand` (5-category system) or, for ICM, from the push
//! tiers below.
//!
//! Each topic is split in two: a generator that draws every random value
//! (cards, positions, stacks) in a fixed order, and a builder that turns
//! those draws into the scenario.  The builder's contract pins everything but
//! the wording: branch key, table setup, answer ids and the correct answer.

use vstd::prelude::*;
use rand::rngs::StdRng;
use crate::evaluator::{
    category_name_spec, classify_hand, classify_hand_spec, hand_category_name, HandCategory,
};
use crate::helpers::{lemma_texts_shown, texts_non_empty, explains, hand_chars, shows, Decision, answers_marked, deal, fresh_cards, hand_str, option_at, setup_is};
use crate::models::{
    AnswerOption, Card, DifficultyLevel, GameType, PlayerState, Position, TableSetup, TextStyle,
    TrainingScenario, TrainingTopic,
};
use crate::binary32::{single_ceil, single_ceil_spec};
use crate::rng::{coin_flip, draw_u32, draw_u8, draw_usize};
use crate::text::{div_round_even, concat_spec, views_of, cat2, cat3, cat4, cat5, concat, decimal, num, round_div_even};

verus! {

// ═══════════════════════════════════════════════════════════════════════════
// T1 — Preflop Decision (PF-)
// ═══════════════════════════════════════════════════════════════════════════

#[derive(Debug, Clone, Copy, PartialEq, Eq, Structural)]
pub enum PreflopSpot {
    /// Everyone folded to hero.
    OpenRaise,
    /// Hero faces a single raise.
    FacingOpen,
    /// Hero faces a 3-bet after having opened.
    ThreeBetPot,
}

/// A random preflop spot, each of the three equally likely.  Every spot can
/// come back; which one rests on the draw alone, so nothing more is stated.
fn select_spot(rng: &mut StdRng) -> PreflopSpot {
    match draw_u32(rng, 0, 2) {
        0 => PreflopSpot::OpenRaise,
        1 => PreflopSpot::FacingOpen,
        _ => PreflopSpot::ThreeBetPot,
    }
}

/// The seats of a 6-max or 9-max table, in seat order.
pub open spec fn table_positions(is_6max: bool) -> Seq<Position> {
    if is_6max {
        seq![Position::UTG, Position::HJ, Position::CO, Position::BTN, Position::SB, Position::BB]
    } else {
        seq![
            Position::UTG,
            Position::UTG1,
            Position::UTG2,
            Position::LJ,
            Position::HJ,
            Position::CO,
            Position::BTN,
            Position::SB,
            Position::BB,
        ]
    }
}

fn positions_for(is_6max: bool) -> (v: Vec<Position>)
    ensures
        v@ == table_positions(is_6max),
{
    if is_6max {
        vec![Position::UTG, Position::HJ, Position::CO, Position::BTN, Position::SB, Position::BB]
    } else {
        vec![
            Position::UTG,
            Position::UTG1,
            Position::UTG2,
            Position::LJ,
            Position::HJ,
            Position::CO,
            Position::BTN,
            Position::SB,
            Position::BB,
        ]
    }
}

/// A random seat of the 6-max or 9-max table, each equally likely.  Every seat
/// of the table can come back; which one rests on the draw alone.
fn random_position(rng: &mut StdRng, is_6max: bool) -> (p: Position)
    ensures
        table_positions(is_6max).contains(p),
{
    let pool = positions_for(is_6max);
    let i = draw_usize(rng, 0, pool.len() - 1);
    assert(table_positions(is_6max)[i as int] == pool@[i as int]);
    pool[i]
}

/// Smallest and largest stack (in chips) drawn for a difficulty.
pub open spec fn stack_bounds(diff: DifficultyLevel) -> (u32, u32) {
    match diff {
        DifficultyLevel::Beginner => (80, 120),
        DifficultyLevel::Intermediate => (40, 150),
        DifficultyLevel::Advanced => (15, 300),
    }
}

fn stack_for_difficulty(rng: &mut StdRng, diff: DifficultyLevel) -> (s: u32)
    ensures
        stack_bounds(diff).0 <= s <= stack_bounds(diff).1,
{
    match diff {
        DifficultyLevel::Beginner => draw_u32(rng, 80, 120),
        DifficultyLevel::Intermediate => draw_u32(rng, 40, 150),
        DifficultyLevel::Advanced => draw_u32(rng, 15, 300),
    }
}

/// Everything drawn at random for a preflop decision.
pub struct OpenDraw {
    pub is_6max: bool,
    pub spot: PreflopSpot,
    pub hero_pos: Position,
    pub effective_stack: u32,
    pub hero_cards: [Card; 2],
    pub players: Vec<PlayerState>,
}

/// A draw the generator can produce at the given difficulty: hero sits at
/// the table, every seat is listed in order with a stack of the difficulty's
/// range, and hero's seat carries the effective stack.
pub open spec fn open_draw_valid(d: OpenDraw, diff: DifficultyLevel) -> bool {
    let pos = table_positions(d.is_6max);
    &&& pos.contains(d.hero_pos)
    &&& stack_bounds(diff).0 <= d.effective_stack <= stack_bounds(diff).1
    &&& fresh_cards(d.hero_cards@, Seq::empty())
    &&& d.players@.len() == pos.len()
    &&& forall|i: int|
        0 <= i < pos.len() ==> {
            let p = #[trigger] d.players@[i];
            &&& p.seat == i + 1
            &&& p.position == pos[i]
            &&& p.is_hero == (pos[i] == d.hero_pos)
            &&& p.is_active
            &&& (p.is_hero ==> p.stack == d.effective_stack)
            &&& stack_bounds(diff).0 <= p.stack <= stack_bounds(diff).1
        }
}

/// Index of the correct answer (A = fold, B = call/raise, C = raise/3-bet/4-bet).
pub open spec fn open_correct(spot: PreflopSpot, cat: HandCategory, late: bool) -> int {
    match spot {
        PreflopSpot::OpenRaise => if cat == HandCategory::Premium || cat == HandCategory::Strong || (late && (
        cat == HandCategory::Playable || cat == HandCategory::Marginal)) {
            1
        } else {
            0
        },
        PreflopSpot::FacingOpen => match cat {
            HandCategory::Premium | HandCategory::Strong => 2,
            HandCategory::Playable => if late {
                2
            } else {
                1
            },
            _ => 0,
        },
        PreflopSpot::ThreeBetPot => match cat {
            HandCategory::Premium => 2,
            HandCategory::Strong | HandCategory::Playable => 1,
            _ => 0,
        },
    }
}

/// Size of the single raise hero faces: 3 BB at 40+ BB deep, else 2 BB (chips, BB = 2).
pub open spec fn open_raise_size(stack: u32) -> u32 {
    if stack / 2 >= 40 { 6 } else { 4 }
}

/// Pot before hero acts (chips).
pub open spec fn open_pot(spot: PreflopSpot, stack: u32) -> u32 {
    match spot {
        PreflopSpot::OpenRaise => 3,
        PreflopSpot::FacingOpen => (3 + open_raise_size(stack)) as u32,
        PreflopSpot::ThreeBetPot => 27,
    }
}

/// The bet hero faces (chips).
pub open spec fn open_bet(spot: PreflopSpot, stack: u32) -> u32 {
    match spot {
        PreflopSpot::OpenRaise => 0,
        PreflopSpot::FacingOpen => open_raise_size(stack),
        PreflopSpot::ThreeBetPot => 18,
    }
}

pub open spec fn open_branch(spot: PreflopSpot, cat: HandCategory, late: bool) -> Seq<char> {
    let pos_type = if late { "IP"@ } else { "OOP"@ };
    match spot {
        PreflopSpot::ThreeBetPot => "ThreeBetPot:"@ + category_name_spec(cat),
        PreflopSpot::OpenRaise => "OpenRaise:"@ + category_name_spec(cat) + ":"@ + pos_type,
        PreflopSpot::FacingOpen => "FacingOpen:"@ + category_name_spec(cat) + ":"@ + pos_type,
    }
}

/// Answer labels of a preflop spot: the raise is the open (2 or 3 BB), the
/// 3-bet (3x the open) or the 4-bet (27 BB).
pub open spec fn open_labels(spot: PreflopSpot, stack: u32) -> Seq<Seq<char>> {
    match spot {
        PreflopSpot::OpenRaise => seq![
            "Fold"@,
            "Raise to "@ + decimal((open_raise_size(stack) / 2) as nat) + " BB"@,
            "Call"@,
        ],
        PreflopSpot::FacingOpen => seq![
            "Fold"@,
            "Call"@,
            "Raise to "@ + decimal((open_raise_size(stack) * 3 / 2) as nat) + " BB"@,
        ],
        PreflopSpot::ThreeBetPot => seq!["Fold"@, "Call"@, "Raise to "@ + decimal(27) + " BB"@],
    }
}

/// The explanations of the answers of a preflop spot, in text style `ts`.
pub open spec fn spot_explanations(spot: PreflopSpot, pos: Position, hand: [Card; 2], stack: u32, ts: TextStyle) -> Seq<Seq<char>> {
    let cat = classify_hand_spec(hand@);
    let cat_name = category_name_spec(cat);
    let hand_str = hand_chars(hand);
    let pos_str = pos.name_text();
    let late = pos.spec_is_late();
    let bb: u32 = 2;
    let stack_bb = stack / 2;
    match spot {
        PreflopSpot::OpenRaise => {
            let open_size: u32 = if stack_bb >= 40 { 6 } else { 4 };
            let should_raise = (cat == HandCategory::Premium || cat == HandCategory::Strong)
                || (late && (cat == HandCategory::Playable || cat == HandCategory::Marginal));
            let correct: usize = if should_raise { 1 } else { 0 };
            let fold_body = if correct == 0 {
                concat_spec(seq!["Correct. A "@, cat_name, " hand from "@, pos_str, " lacks the equity and playability to justify entering the pot against a full range."@])
            } else {
                concat_spec(seq!["Too tight. "@, hand_str, " ("@, cat_name, ") from "@, pos_str, " with "@, decimal((stack_bb) as nat), " BB has enough value to open-raise profitably."@])
            };
            let raise_body = if correct == 1 {
                concat_spec(seq!["Correct. "@, hand_str, " ("@, cat_name, ") from "@, pos_str, " merits an open-raise. A standard 2-3x sizing builds a pot with the best of it and denies equity to weaker holdings."@])
            } else {
                concat_spec(seq!["Raising with a "@, cat_name, " hand from "@, pos_str, " over-commits your stack ("@, decimal((stack_bb) as nat), " BB) with insufficient equity. A fold is better."@])
            };
            seq![
                match ts {
                    TextStyle::Simple => if correct == 0 {
                        concat_spec(seq!["Correct. "@, hand_str, " is too weak for "@, pos_str, ". Folding saves your chips for a better hand."@])
                    } else {
                        concat_spec(seq!["Folding is a mistake here. "@, hand_str, " is strong enough to bet from "@, pos_str, ". Don't throw away the opportunity."@])
                    },
                    TextStyle::Technical => concat_spec(seq!["Folding "@, hand_str, " ("@, cat_name, ") from "@, pos_str, " with "@, decimal((stack_bb) as nat), " BB: "@, fold_body]),
                },
                match ts {
                    TextStyle::Simple => if correct == 1 {
                        concat_spec(seq!["Raise! "@, hand_str, " is a good hand in "@, pos_str, ". Bet "@, decimal((open_size) as nat), " chips and take control of the pot."@])
                    } else {
                        concat_spec(seq!["Raising is too risky here — "@, hand_str, " isn't strong enough from "@, pos_str, " with "@, decimal((stack_bb) as nat), " big blinds. Fold instead."@])
                    },
                    TextStyle::Technical => concat_spec(seq!["Raising to "@, decimal((open_size) as nat), " chips ("@, decimal(((open_size / bb)) as nat), " BB) with "@, hand_str, " ("@, cat_name, ") from "@, pos_str, ": "@, raise_body]),
                },
                match ts {
                    TextStyle::Simple => "Just calling the big blind here is a bad idea. It lets everyone in cheaply, and you lose control of the hand. Either raise or fold."@,
                    TextStyle::Technical => concat_spec(seq!["Limping with "@, hand_str, " from "@, pos_str, ": In most cash game formats limping is a leak — it invites multiway pots with no initiative, weakening your range and giving the BB a free squeeze opportunity."@]),
                },
            ]
        },
        PreflopSpot::FacingOpen => {
            let raiser_size: u32 = if stack_bb >= 40 { 6 } else { 4 };
            let three_bet = raiser_size * 3;
            let correct: usize = match cat {
                HandCategory::Premium => 2,
                HandCategory::Strong => 2,
                HandCategory::Playable => if late { 2 } else { 1 },
                HandCategory::Marginal => 0,
                HandCategory::Trash => 0,
            };
            let fold_body = if correct == 0 {
                concat_spec(seq!["Correct. A "@, cat_name, " hand vs a raise from "@, pos_str, " is an easy fold. This hand lacks equity to continue profitably against a raising range."@])
            } else {
                concat_spec(seq!["Too tight. "@, hand_str, " ("@, cat_name, ") has sufficient equity against a typical raising range to continue from "@, pos_str, "."@])
            };
            let call_body = if correct == 1 {
                concat_spec(seq!["Correct. Calling with "@, hand_str, " ("@, cat_name, ") from "@, pos_str, " retains pot control and lets you realize equity with positional advantage."@])
            } else if correct == 0 {
                concat_spec(seq!["Calling with a "@, cat_name, " hand invests chips without sufficient equity. A fold is cleaner from "@, pos_str, "."@])
            } else {
                concat_spec(seq!["Calling with "@, hand_str, " ("@, cat_name, ") is too passive — a 3-bet for value is higher EV here from "@, pos_str, "."@])
            };
            let threebet_body = if correct == 2 {
                concat_spec(seq!["Correct. A 3-bet with "@, hand_str, " ("@, cat_name, ") from "@, pos_str, " extracts value from worse hands, denies equity, and builds a pot with an equity advantage."@])
            } else {
                concat_spec(seq!["3-betting a "@, cat_name, " hand bloats the pot unfavourably from "@, pos_str, ". You risk a 4-bet or playing a large pot with insufficient hand strength."@])
            };
            seq![
                match ts {
                    TextStyle::Simple => if correct == 0 {
                        concat_spec(seq!["Correct. "@, hand_str, " from "@, pos_str, " isn't strong enough to call or re-raise here. Save your chips."@])
                    } else {
                        concat_spec(seq!["Folding is too cautious — "@, hand_str, " is good enough to continue here."@])
                    },
                    TextStyle::Technical => concat_spec(seq!["Folding "@, hand_str, " ("@, cat_name, ") vs a raise from "@, pos_str, ": "@, fold_body]),
                },
                match ts {
                    TextStyle::Simple => if correct == 1 {
                        concat_spec(seq!["Correct. Call with "@, hand_str, " from "@, pos_str, ". You have a decent hand and a good position — see the flop."@])
                    } else if correct == 0 {
                        concat_spec(seq!["Calling with "@, hand_str, " isn't worth it — this hand can't beat a raise. Fold."@])
                    } else {
                        concat_spec(seq!["Calling is too passive here — re-raise with "@, hand_str, " to build the pot while you have the advantage."@])
                    },
                    TextStyle::Technical => concat_spec(seq!["Calling with "@, hand_str, " ("@, cat_name, ") in "@, pos_str, ": "@, call_body]),
                },
                match ts {
                    TextStyle::Simple => if correct == 2 {
                        concat_spec(seq!["Re-raise! "@, hand_str, " from "@, pos_str, " is strong enough to bet big. This builds the pot when you have the best hand."@])
                    } else {
                        concat_spec(seq!["Re-raising "@, hand_str, " here is too risky. You'd be putting in a lot of chips with a hand that isn't strong enough."@])
                    },
                    TextStyle::Technical => concat_spec(seq!["3-betting to "@, decimal((three_bet) as nat), " with "@, hand_str, " ("@, cat_name, ") from "@, pos_str, ": "@, threebet_body]),
                },
            ]
        },
        PreflopSpot::ThreeBetPot => {
            let four_bet: u32 = 54;
            let correct: usize = match cat {
                HandCategory::Premium => 2,
                HandCategory::Strong => 1,
                HandCategory::Playable => 1,
                HandCategory::Marginal => 0,
                HandCategory::Trash => 0,
            };
            let fold_body = if correct == 0 {
                concat_spec(seq!["Correct. A "@, cat_name, " hand cannot profitably continue vs a 3-bet given the pot odds and likely 3-bet range of your opponent."@])
            } else {
                "Folding is too tight here. Your hand has sufficient equity against a \
                 balanced 3-bet range to continue."@
            };
            let call_body = if correct == 1 {
                "Correct. Calling preserves stack depth and lets you navigate postflop with \
                 good implied odds, avoiding getting all-in preflop with a dominated or \
                 marginal hand."@
            } else {
                "Simply calling here leaves money on the table with a premium holding — \
                 4-betting for value is higher EV against a 3-bet range."@
            };
            let fourbet_body = if correct == 2 {
                "Correct. With a premium hand you should 4-bet for value. This polarizes \
                 your range, forces folds of hands with equity against you, and builds the \
                 pot with the best of it."@
            } else {
                concat_spec(seq!["4-betting a "@, cat_name, " hand turns your hand face-up and gets called (or shoved) by hands that dominate you, resulting in a large pot with negative EV."@])
            };
            seq![
                match ts {
                    TextStyle::Simple => if correct == 0 {
                        concat_spec(seq!["Correct. "@, hand_str, " can't beat your opponent's re-raise range profitably. Let this one go."@])
                    } else {
                        "Folding here is too cautious — you have enough of a hand to continue."@
                    },
                    TextStyle::Technical => concat_spec(seq!["Folding "@, hand_str, " ("@, cat_name, ") vs 3-bet: "@, fold_body]),
                },
                match ts {
                    TextStyle::Simple => if correct == 1 {
                        concat_spec(seq!["Correct. Call and see the flop. "@, hand_str, " has good enough potential and you keep the pot manageable."@])
                    } else {
                        "Just calling here wastes the opportunity — re-raise for value with this strong hand."@
                    },
                    TextStyle::Technical => concat_spec(seq!["Calling the 3-bet with "@, hand_str, " ("@, cat_name, ") from "@, pos_str, ": "@, call_body]),
                },
                match ts {
                    TextStyle::Simple => if correct == 2 {
                        concat_spec(seq!["Correct. Re-raise again! "@, hand_str, " is a premium hand. Build the pot — you have the best of it here."@])
                    } else {
                        concat_spec(seq!["Re-raising here puts too many chips at risk with "@, hand_str, ". Call or fold instead."@])
                    },
                    TextStyle::Technical => concat_spec(seq!["4-betting with "@, hand_str, " ("@, cat_name, "): "@, fourbet_body]),
                },
            ]
        },
    }
}

/// The question of a preflop spot in text style `ts`.
pub open spec fn spot_question(
    spot: PreflopSpot,
    pos: Position,
    hand: [Card; 2],
    stack: u32,
    table_size: u32,
    ts: TextStyle,
) -> Seq<char> {
    let stack_bb = stack / 2;
    match (spot, ts) {
        (PreflopSpot::OpenRaise, TextStyle::Simple) => concat_spec(seq!["You have "@, hand_chars(hand), " in "@, pos.name_text(), " at a "@, decimal(table_size as nat), "-handed table. Stack: "@, decimal(stack_bb as nat), " big blinds. Everyone before you folded. What do you do?"@]),
        (PreflopSpot::OpenRaise, TextStyle::Technical) => concat_spec(seq!["You hold "@, hand_chars(hand), " in "@, pos.name_text(), " at a "@, decimal(table_size as nat), "-handed table. Effective stack is "@, decimal(stack_bb as nat), " BB. Action folds to you. What is your action?"@]),
        (PreflopSpot::FacingOpen, TextStyle::Simple) => concat_spec(seq!["You have "@, hand_chars(hand), " in "@, pos.name_text(), " ("@, decimal(stack_bb as nat), " big blinds). Someone raised to "@, decimal((open_raise_size(stack) / 2) as nat), " big blinds. What do you do?"@]),
        (PreflopSpot::FacingOpen, TextStyle::Technical) => concat_spec(seq!["You hold "@, hand_chars(hand), " in "@, pos.name_text(), " ("@, decimal(stack_bb as nat), " BB deep). A player raises to "@, decimal((open_raise_size(stack) / 2) as nat), " BB. Action is on you. What do you do?"@]),
        (PreflopSpot::ThreeBetPot, TextStyle::Simple) => concat_spec(seq!["You bet "@, decimal(3), " big blinds with "@, hand_chars(hand), " from "@, pos.name_text(), " ("@, decimal(stack_bb as nat), " big blinds). Your opponent re-raised to "@, decimal(9), " big blinds. What do you do?"@]),
        (PreflopSpot::ThreeBetPot, TextStyle::Technical) => concat_spec(seq!["You opened to "@, decimal(3), " BB with "@, hand_chars(hand), " from "@, pos.name_text(), " ("@, decimal(stack_bb as nat), " BB deep). A player re-raises to "@, decimal(9), " BB. What do you do?"@]),
    }
}

/// The question of a preflop-decision scenario in text style `ts`.
pub open spec fn open_question(d: OpenDraw, ts: TextStyle) -> Seq<char> {
    spot_question(d.spot, d.hero_pos, d.hero_cards, d.effective_stack, if d.is_6max { 6 } else { 9 }, ts)
}

/// The explanations of the answers of a preflop-decision scenario, in text style `ts`.
pub open spec fn open_explanations(d: OpenDraw, ts: TextStyle) -> Seq<Seq<char>> {
    spot_explanations(d.spot, d.hero_pos, d.hero_cards, d.effective_stack, ts)
}

/// What a preflop-decision scenario built from draw `d` holds.
pub open spec fn open_decision(d: OpenDraw) -> Decision {
    let cat = classify_hand_spec(d.hero_cards@);
    let late = d.hero_pos.spec_is_late();
    Decision {
        topic: TrainingTopic::PreflopDecision,
        branch: open_branch(d.spot, cat, late),
        game_type: GameType::CashGame,
        hero_pos: d.hero_pos,
        hand: d.hero_cards,
        board: Seq::empty(),
        players: d.players@,
        pot: open_pot(d.spot, d.effective_stack),
        bet: open_bet(d.spot, d.effective_stack),
        answers: 3,
        labels: open_labels(d.spot, d.effective_stack),
        correct: open_correct(d.spot, cat, late),
    }
}

/// Every text of a scenario built from `d` is non-empty: the question, the
/// branch key, and each answer's label and explanation.
#[verifier::spinoff_prover]
#[verifier::rlimit(50)]
pub proof fn lemma_open_texts_nonempty(d: OpenDraw, ts: TextStyle)
    ensures
        open_question(d, ts).len() > 0,
        open_decision(d).branch.len() > 0,
        forall|i: int| 0 <= i < open_decision(d).labels.len() ==> #[trigger] open_decision(d).labels[i].len() > 0,
        forall|i: int| 0 <= i < open_explanations(d, ts).len() ==> #[trigger] open_explanations(d, ts)[i].len() > 0,
{
    reveal_strlit(" big blinds. Everyone before you folded. What do you do?");
    reveal_strlit(" BB. Action folds to you. What is your action?");
    reveal_strlit(" big blinds. What do you do?");
    reveal_strlit(" BB. Action is on you. What do you do?");
    reveal_strlit(" BB. What do you do?");
    reveal_strlit(" lacks the equity and playability to justify entering the pot against a full range.");
    reveal_strlit(" BB has enough value to open-raise profitably.");
    reveal_strlit(" merits an open-raise. A standard 2-3x sizing builds a pot with the best of it and denies equity to weaker holdings.");
    reveal_strlit(" BB) with insufficient equity. A fold is better.");
    reveal_strlit(". Folding saves your chips for a better hand.");
    reveal_strlit(". Don't throw away the opportunity.");
    reveal_strlit(" chips and take control of the pot.");
    reveal_strlit(" big blinds. Fold instead.");
    reveal_strlit(": In most cash game formats limping is a leak — it invites multiway pots with no initiative, weakening your range and giving the BB a free squeeze opportunity.");
    reveal_strlit(" is an easy fold. This hand lacks equity to continue profitably against a raising range.");
    reveal_strlit(".");
    reveal_strlit(" retains pot control and lets you realize equity with positional advantage.");
    reveal_strlit(" extracts value from worse hands, denies equity, and builds a pot with an equity advantage.");
    reveal_strlit(". You risk a 4-bet or playing a large pot with insufficient hand strength.");
    reveal_strlit(" isn't strong enough to call or re-raise here. Save your chips.");
    reveal_strlit(" is good enough to continue here.");
    reveal_strlit(". You have a decent hand and a good position — see the flop.");
    reveal_strlit(" isn't worth it — this hand can't beat a raise. Fold.");
    reveal_strlit(" to build the pot while you have the advantage.");
    reveal_strlit(" is strong enough to bet big. This builds the pot when you have the best hand.");
    reveal_strlit(" here is too risky. You'd be putting in a lot of chips with a hand that isn't strong enough.");
    reveal_strlit(" hand cannot profitably continue vs a 3-bet given the pot odds and likely 3-bet range of your opponent.");
    reveal_strlit(" hand turns your hand face-up and gets called (or shoved) by hands that dominate you, resulting in a large pot with negative EV.");
    reveal_strlit(" can't beat your opponent's re-raise range profitably. Let this one go.");
    reveal_strlit(" has good enough potential and you keep the pot manageable.");
    reveal_strlit(" is a premium hand. Build the pot — you have the best of it here.");
    reveal_strlit(". Call or fold instead.");
    reveal_strlit("Just calling the big blind here is a bad idea. It lets everyone in cheaply, and you lose control of the hand. Either raise or fold.");
    reveal_strlit("Folding is too tight here. Your hand has sufficient equity against a \
                 balanced 3-bet range to continue.");
    reveal_strlit("Correct. Calling preserves stack depth and lets you navigate postflop with \
                 good implied odds, avoiding getting all-in preflop with a dominated or \
                 marginal hand.");
    reveal_strlit("Simply calling here leaves money on the table with a premium holding — \
                 4-betting for value is higher EV against a 3-bet range.");
    reveal_strlit("Correct. With a premium hand you should 4-bet for value. This polarizes \
                 your range, forces folds of hands with equity against you, and builds the \
                 pot with the best of it.");
    reveal_strlit("Folding here is too cautious — you have enough of a hand to continue.");
    reveal_strlit("Just calling here wastes the opportunity — re-raise for value with this strong hand.");
    reveal_strlit("IP");
    reveal_strlit("OOP");
    reveal_strlit("ThreeBetPot:");
    reveal_strlit("OpenRaise:");
    reveal_strlit(":");
    reveal_strlit("FacingOpen:");
    reveal_strlit("Fold");
    reveal_strlit("Raise to ");
    reveal_strlit(" BB");
    reveal_strlit("Call");
}

/// No text of a scenario built from `d` in text style `ts` is empty.
pub proof fn lemma_open_scenario_texts(d: OpenDraw, ts: TextStyle, id: Seq<char>, r: TrainingScenario)
    requires
        open_outcome(d, id, r),
        r.question@ == open_question(d, ts),
        explains(r, open_explanations(d, ts)),
    ensures
        texts_non_empty(r),
{
    lemma_open_texts_nonempty(d, ts);
    lemma_texts_shown(r, id, open_decision(d), open_question(d, ts), open_explanations(d, ts));
}

/// The scenario shows `open_decision(d)` under `id`.
pub open spec fn open_outcome(d: OpenDraw, id: Seq<char>, r: TrainingScenario) -> bool {
    shows(r, id, open_decision(d))
}

/// Backward-compatible entry point — delegates to [`generate_open`].
pub fn generate(rng: &mut StdRng, difficulty: DifficultyLevel, scenario_id: String, text_style: TextStyle) -> (r:
    TrainingScenario)
    ensures
        exists|d: OpenDraw|
            open_draw_valid(d, difficulty) && #[trigger] open_outcome(d, scenario_id@, r) && r.question@
                == open_question(d, text_style) && explains(r, open_explanations(d, text_style)),
{
    generate_open(rng, difficulty, scenario_id, text_style)
}

/// T1 — Preflop Decision (PF-).
///
/// RNG order: coin flip (6-max) → spot → position → stack → shuffled deck →
/// two hole cards → one stack per other seat.
pub fn generate_open(rng: &mut StdRng, difficulty: DifficultyLevel, scenario_id: String, text_style: TextStyle) -> (r:
    TrainingScenario)
    ensures
        exists|d: OpenDraw|
            open_draw_valid(d, difficulty) && #[trigger] open_outcome(d, scenario_id@, r) && r.question@
                == open_question(d, text_style) && explains(r, open_explanations(d, text_style)),
{
    let is_6max = coin_flip(rng);
    let spot = select_spot(rng);
    let hero_pos = random_position(rng, is_6max);
    let effective_stack = stack_for_difficulty(rng, difficulty);
    let (hero_cards, _rest) = deal(rng, 0);

    let positions = positions_for(is_6max);
    let mut players: Vec<PlayerState> = Vec::new();
    let mut i: usize = 0;
    while i < positions.len()
        invariant
            positions@ == table_positions(is_6max),
            i <= positions@.len(),
            players@.len() == i,
            stack_bounds(difficulty).0 <= effective_stack <= stack_bounds(difficulty).1,
            forall|k: int|
                0 <= k < i ==> {
                    let p = #[trigger] players@[k];
                    &&& p.seat == k + 1
                    &&& p.position == positions@[k]
                    &&& p.is_hero == (positions@[k] == hero_pos)
                    &&& p.is_active
                    &&& (p.is_hero ==> p.stack == effective_stack)
                    &&& stack_bounds(difficulty).0 <= p.stack <= stack_bounds(difficulty).1
                },
        decreases positions@.len() - i,
    {
        let pos = positions[i];
        let is_hero = pos == hero_pos;
        let stack = if is_hero { effective_stack } else { stack_for_difficulty(rng, difficulty) };
        players.push(PlayerState { seat: i as u8 + 1, position: pos, stack, is_hero, is_active: true });
        i += 1;
    }
    let d = OpenDraw { is_6max, spot, hero_pos, effective_stack, hero_cards, players };
    let r = build_open(&d, scenario_id, text_style);
    assert(open_draw_valid(d, difficulty));
    r
}

/// Build the preflop-decision scenario for draw `d`.
#[verifier::spinoff_prover]
#[verifier::rlimit(50)]
pub fn build_open(d: &OpenDraw, scenario_id: String, text_style: TextStyle) -> (r: TrainingScenario)
    ensures
        open_outcome(*d, scenario_id@, r),
        r.question@ == open_question(*d, text_style),
        explains(r, open_explanations(*d, text_style)),
{
    let cat = classify_hand(d.hero_cards);
    let pos_type = if d.hero_pos.is_late() { "IP" } else { "OOP" };
    let branch_key = match d.spot {
        PreflopSpot::ThreeBetPot => cat2("ThreeBetPot:", hand_category_name(cat)),
        PreflopSpot::OpenRaise => cat4("OpenRaise:", hand_category_name(cat), ":", pos_type),
        PreflopSpot::FacingOpen => cat4("FacingOpen:", hand_category_name(cat), ":", pos_type),
    };
    let table_size: u32 = if d.is_6max { 6 } else { 9 };
    let (pot_size, current_bet, question, answers) = build_spot(
        d.spot,
        d.hero_pos,
        d.hero_cards,
        d.effective_stack,
        table_size,
        text_style,
    );
    let table_setup = TableSetup {
        game_type: GameType::CashGame,
        hero_position: d.hero_pos,
        hero_hand: d.hero_cards,
        board: Vec::new(),
        players: d.players.clone(),
        pot_size,
        current_bet,
    };
    TrainingScenario {
        scenario_id,
        topic: TrainingTopic::PreflopDecision,
        branch_key,
        table_setup,
        question,
        answers,
    }
}

/// Pot, bet, question and answers of a preflop spot (cash game, big blind of 2 chips).
#[verifier::spinoff_prover]
#[verifier::rlimit(50)]
fn build_spot(
    spot: PreflopSpot,
    pos: Position,
    hand: [Card; 2],
    stack: u32,
    table_size: u32,
    text_style: TextStyle,
) -> (res: (u32, u32, String, Vec<AnswerOption>))
    ensures
        res.0 == open_pot(spot, stack),
        res.1 == open_bet(spot, stack),
        answers_marked(res.3@, 3, open_correct(spot, classify_hand_spec(hand@), pos.spec_is_late())),
        forall|i: int| 0 <= i < 3 ==> (#[trigger] res.3@[i]).text@ == open_labels(spot, stack)[i],
        res.2@ == spot_question(spot, pos, hand, stack, table_size, text_style),
        forall|i: int| 0 <= i < 3 ==> (#[trigger] res.3@[i]).explanation@ == spot_explanations(spot, pos, hand, stack, text_style)[i],
{
    let bb: u32 = 2; // cash-game big blind in chips
    let cat = classify_hand(hand);
    let cat_name = hand_category_name(cat);
    let hand_str = hand_str(hand);
    let pos_str = pos.name();
    let stack_bb = stack / bb;

    match spot {
        // ---- Hero acts first (open-raise spot) ----------------------------
        PreflopSpot::OpenRaise => {
            let pot = bb + bb / 2; // SB + BB already in
            let open_size = if stack_bb >= 40 { bb * 3 } else { bb * 2 };
            let q = match text_style {
                TextStyle::Simple => {
                    let qs0 = num(table_size as u64);
                    let qs1 = num(stack_bb as u64);
                    let parts = ["You have ", hand_str.as_str(), " in ", pos_str, " at a ", qs0.as_str(), "-handed table. Stack: ", qs1.as_str(), " big blinds. Everyone before you folded. What do you do?"];
                    proof {
                        assert(views_of(parts@) =~= seq!["You have "@, hand_str@, " in "@, pos_str@, " at a "@, qs0@, "-handed table. Stack: "@, qs1@, " big blinds. Everyone before you folded. What do you do?"@]);
                    }
                    concat(&parts)
                },
                TextStyle::Technical => {
                    let qt0 = num(table_size as u64);
                    let qt1 = num(stack_bb as u64);
                    let parts = ["You hold ", hand_str.as_str(), " in ", pos_str, " at a ", qt0.as_str(), "-handed table. Effective stack is ", qt1.as_str(), " BB. Action folds to you. What is your action?"];
                    proof {
                        assert(views_of(parts@) =~= seq!["You hold "@, hand_str@, " in "@, pos_str@, " at a "@, qt0@, "-handed table. Effective stack is "@, qt1@, " BB. Action folds to you. What is your action?"@]);
                    }
                    concat(&parts)
                },
            };
            // Single correct answer: raise if hand is strong enough, fold otherwise.
            // Limping is never correct here.
            let should_raise = matches!(cat, HandCategory::Premium | HandCategory::Strong)
                || (pos.is_late() && matches!(cat, HandCategory::Playable | HandCategory::Marginal));
            let correct: usize = if should_raise { 1 } else { 0 };

            let fold_body = if correct == 0 {
                {  let parts = ["Correct. A ", cat_name, " hand from ", pos_str, " lacks the equity and playability to justify entering the pot against a full range."]; proof { assert(views_of(parts@) =~= seq!["Correct. A "@, cat_name@, " hand from "@, pos_str@, " lacks the equity and playability to justify entering the pot against a full range."@]); } concat(&parts) }
            } else {
                { let t1 = num(stack_bb as u64); let parts = ["Too tight. ", hand_str.as_str(), " (", cat_name, ") from ", pos_str, " with ", t1.as_str(), " BB has enough value to open-raise profitably."]; proof { assert(views_of(parts@) =~= seq!["Too tight. "@, hand_str@, " ("@, cat_name@, ") from "@, pos_str@, " with "@, t1@, " BB has enough value to open-raise profitably."@]); } concat(&parts) }
            };
            let raise_body = if correct == 1 {
                {  let parts = ["Correct. ", hand_str.as_str(), " (", cat_name, ") from ", pos_str, " merits an open-raise. A standard 2-3x sizing builds a pot with the best of it and denies equity to weaker holdings."]; proof { assert(views_of(parts@) =~= seq!["Correct. "@, hand_str@, " ("@, cat_name@, ") from "@, pos_str@, " merits an open-raise. A standard 2-3x sizing builds a pot with the best of it and denies equity to weaker holdings."@]); } concat(&parts) }
            } else {
                { let t2 = num(stack_bb as u64); let parts = ["Raising with a ", cat_name, " hand from ", pos_str, " over-commits your stack (", t2.as_str(), " BB) with insufficient equity. A fold is better."]; proof { assert(views_of(parts@) =~= seq!["Raising with a "@, cat_name@, " hand from "@, pos_str@, " over-commits your stack ("@, t2@, " BB) with insufficient equity. A fold is better."@]); } concat(&parts) }
            };

            let explanation_0 = match text_style {
                    TextStyle::Simple => if correct == 0 {
                        {  let parts = ["Correct. ", hand_str.as_str(), " is too weak for ", pos_str, ". Folding saves your chips for a better hand."]; proof { assert(views_of(parts@) =~= seq!["Correct. "@, hand_str@, " is too weak for "@, pos_str@, ". Folding saves your chips for a better hand."@]); } concat(&parts) }
                    } else {
                        {  let parts = ["Folding is a mistake here. ", hand_str.as_str(), " is strong enough to bet from ", pos_str, ". Don't throw away the opportunity."]; proof { assert(views_of(parts@) =~= seq!["Folding is a mistake here. "@, hand_str@, " is strong enough to bet from "@, pos_str@, ". Don't throw away the opportunity."@]); } concat(&parts) }
                    },
                    TextStyle::Technical => { let t3 = num(stack_bb as u64); let parts = ["Folding ", hand_str.as_str(), " (", cat_name, ") from ", pos_str, " with ", t3.as_str(), " BB: ", fold_body.as_str()]; proof { assert(views_of(parts@) =~= seq!["Folding "@, hand_str@, " ("@, cat_name@, ") from "@, pos_str@, " with "@, t3@, " BB: "@, fold_body@]); } concat(&parts) },
                };
            let explanation_1 = match text_style {
                    TextStyle::Simple => if correct == 1 {
                        { let t4 = num(open_size as u64); let parts = ["Raise! ", hand_str.as_str(), " is a good hand in ", pos_str, ". Bet ", t4.as_str(), " chips and take control of the pot."]; proof { assert(views_of(parts@) =~= seq!["Raise! "@, hand_str@, " is a good hand in "@, pos_str@, ". Bet "@, t4@, " chips and take control of the pot."@]); } concat(&parts) }
                    } else {
                        { let t5 = num(stack_bb as u64); let parts = ["Raising is too risky here — ", hand_str.as_str(), " isn't strong enough from ", pos_str, " with ", t5.as_str(), " big blinds. Fold instead."]; proof { assert(views_of(parts@) =~= seq!["Raising is too risky here — "@, hand_str@, " isn't strong enough from "@, pos_str@, " with "@, t5@, " big blinds. Fold instead."@]); } concat(&parts) }
                    },
                    TextStyle::Technical => { let t6 = num(open_size as u64); let t7 = num((open_size / bb) as u64); let parts = ["Raising to ", t6.as_str(), " chips (", t7.as_str(), " BB) with ", hand_str.as_str(), " (", cat_name, ") from ", pos_str, ": ", raise_body.as_str()]; proof { assert(views_of(parts@) =~= seq!["Raising to "@, t6@, " chips ("@, t7@, " BB) with "@, hand_str@, " ("@, cat_name@, ") from "@, pos_str@, ": "@, raise_body@]); } concat(&parts) },
                };
            let explanation_2 = match text_style {
                    TextStyle::Simple => "Just calling the big blind here is a bad idea. It lets everyone in cheaply, and you lose control of the hand. Either raise or fold.".to_owned(),
                    TextStyle::Technical => {  let parts = ["Limping with ", hand_str.as_str(), " from ", pos_str, ": In most cash game formats limping is a leak — it invites multiway pots with no initiative, weakening your range and giving the BB a free squeeze opportunity."]; proof { assert(views_of(parts@) =~= seq!["Limping with "@, hand_str@, " from "@, pos_str@, ": In most cash game formats limping is a leak — it invites multiway pots with no initiative, weakening your range and giving the BB a free squeeze opportunity."@]); } concat(&parts) },
                };
            let answers = vec![
                option_at(0, "Fold".to_owned(), correct, explanation_0),
                option_at(1, cat3("Raise to ", num((open_size / bb) as u64).as_str(), " BB"), correct, explanation_1),
                option_at(2, "Call".to_owned(), correct, explanation_2),
            ];
            (pot, 0, q, answers)
        }

        // ---- Hero faces a single raise ------------------------------------
        PreflopSpot::FacingOpen => {
            let raiser_size = if stack_bb >= 40 { bb * 3 } else { bb * 2 };
            let pot = bb / 2 + bb + raiser_size; // SB + BB + open
            let three_bet = raiser_size * 3;
            let q = match text_style {
                TextStyle::Simple => {
                    let qs0 = num(stack_bb as u64);
                    let qs1 = num((raiser_size / bb) as u64);
                    let parts = ["You have ", hand_str.as_str(), " in ", pos_str, " (", qs0.as_str(), " big blinds). Someone raised to ", qs1.as_str(), " big blinds. What do you do?"];
                    proof {
                        assert(views_of(parts@) =~= seq!["You have "@, hand_str@, " in "@, pos_str@, " ("@, qs0@, " big blinds). Someone raised to "@, qs1@, " big blinds. What do you do?"@]);
                    }
                    concat(&parts)
                },
                TextStyle::Technical => {
                    let qt0 = num(stack_bb as u64);
                    let qt1 = num((raiser_size / bb) as u64);
                    let parts = ["You hold ", hand_str.as_str(), " in ", pos_str, " (", qt0.as_str(), " BB deep). A player raises to ", qt1.as_str(), " BB. Action is on you. What do you do?"];
                    proof {
                        assert(views_of(parts@) =~= seq!["You hold "@, hand_str@, " in "@, pos_str@, " ("@, qt0@, " BB deep). A player raises to "@, qt1@, " BB. Action is on you. What do you do?"@]);
                    }
                    concat(&parts)
                },
            };
            // Single correct answer to guarantee invariant.
            let correct: usize = match cat {
                HandCategory::Premium => 2,  // 3-bet for value
                HandCategory::Strong => 2,  // 3-bet (may also call, 3-bet is cleaner)
                HandCategory::Playable => if pos.is_late() { 2 } else { 1 },
                HandCategory::Marginal => 0,  // fold regardless of position
                HandCategory::Trash => 0,  // always fold trash vs a raise
            };

            let fold_body = if correct == 0 {
                {  let parts = ["Correct. A ", cat_name, " hand vs a raise from ", pos_str, " is an easy fold. This hand lacks equity to continue profitably against a raising range."]; proof { assert(views_of(parts@) =~= seq!["Correct. A "@, cat_name@, " hand vs a raise from "@, pos_str@, " is an easy fold. This hand lacks equity to continue profitably against a raising range."@]); } concat(&parts) }
            } else {
                {  let parts = ["Too tight. ", hand_str.as_str(), " (", cat_name, ") has sufficient equity against a typical raising range to continue from ", pos_str, "."]; proof { assert(views_of(parts@) =~= seq!["Too tight. "@, hand_str@, " ("@, cat_name@, ") has sufficient equity against a typical raising range to continue from "@, pos_str@, "."@]); } concat(&parts) }
            };
            let call_body = if correct == 1 {
                {  let parts = ["Correct. Calling with ", hand_str.as_str(), " (", cat_name, ") from ", pos_str, " retains pot control and lets you realize equity with positional advantage."]; proof { assert(views_of(parts@) =~= seq!["Correct. Calling with "@, hand_str@, " ("@, cat_name@, ") from "@, pos_str@, " retains pot control and lets you realize equity with positional advantage."@]); } concat(&parts) }
            } else if correct == 0 {
                {  let parts = ["Calling with a ", cat_name, " hand invests chips without sufficient equity. A fold is cleaner from ", pos_str, "."]; proof { assert(views_of(parts@) =~= seq!["Calling with a "@, cat_name@, " hand invests chips without sufficient equity. A fold is cleaner from "@, pos_str@, "."@]); } concat(&parts) }
            } else {
                {  let parts = ["Calling with ", hand_str.as_str(), " (", cat_name, ") is too passive — a 3-bet for value is higher EV here from ", pos_str, "."]; proof { assert(views_of(parts@) =~= seq!["Calling with "@, hand_str@, " ("@, cat_name@, ") is too passive — a 3-bet for value is higher EV here from "@, pos_str@, "."@]); } concat(&parts) }
            };
            let threebet_body = if correct == 2 {
                {  let parts = ["Correct. A 3-bet with ", hand_str.as_str(), " (", cat_name, ") from ", pos_str, " extracts value from worse hands, denies equity, and builds a pot with an equity advantage."]; proof { assert(views_of(parts@) =~= seq!["Correct. A 3-bet with "@, hand_str@, " ("@, cat_name@, ") from "@, pos_str@, " extracts value from worse hands, denies equity, and builds a pot with an equity advantage."@]); } concat(&parts) }
            } else {
                {  let parts = ["3-betting a ", cat_name, " hand bloats the pot unfavourably from ", pos_str, ". You risk a 4-bet or playing a large pot with insufficient hand strength."]; proof { assert(views_of(parts@) =~= seq!["3-betting a "@, cat_name@, " hand bloats the pot unfavourably from "@, pos_str@, ". You risk a 4-bet or playing a large pot with insufficient hand strength."@]); } concat(&parts) }
            };

            let explanation_0 = match text_style {
                    TextStyle::Simple => if correct == 0 {
                        {  let parts = ["Correct. ", hand_str.as_str(), " from ", pos_str, " isn't strong enough to call or re-raise here. Save your chips."]; proof { assert(views_of(parts@) =~= seq!["Correct. "@, hand_str@, " from "@, pos_str@, " isn't strong enough to call or re-raise here. Save your chips."@]); } concat(&parts) }
                    } else {
                        {  let parts = ["Folding is too cautious — ", hand_str.as_str(), " is good enough to continue here."]; proof { assert(views_of(parts@) =~= seq!["Folding is too cautious — "@, hand_str@, " is good enough to continue here."@]); } concat(&parts) }
                    },
                    TextStyle::Technical => {  let parts = ["Folding ", hand_str.as_str(), " (", cat_name, ") vs a raise from ", pos_str, ": ", fold_body.as_str()]; proof { assert(views_of(parts@) =~= seq!["Folding "@, hand_str@, " ("@, cat_name@, ") vs a raise from "@, pos_str@, ": "@, fold_body@]); } concat(&parts) },
                };
            let explanation_1 = match text_style {
                    TextStyle::Simple => if correct == 1 {
                        {  let parts = ["Correct. Call with ", hand_str.as_str(), " from ", pos_str, ". You have a decent hand and a good position — see the flop."]; proof { assert(views_of(parts@) =~= seq!["Correct. Call with "@, hand_str@, " from "@, pos_str@, ". You have a decent hand and a good position — see the flop."@]); } concat(&parts) }
                    } else if correct == 0 {
                        {  let parts = ["Calling with ", hand_str.as_str(), " isn't worth it — this hand can't beat a raise. Fold."]; proof { assert(views_of(parts@) =~= seq!["Calling with "@, hand_str@, " isn't worth it — this hand can't beat a raise. Fold."@]); } concat(&parts) }
                    } else {
                        {  let parts = ["Calling is too passive here — re-raise with ", hand_str.as_str(), " to build the pot while you have the advantage."]; proof { assert(views_of(parts@) =~= seq!["Calling is too passive here — re-raise with "@, hand_str@, " to build the pot while you have the advantage."@]); } concat(&parts) }
                    },
                    TextStyle::Technical => {  let parts = ["Calling with ", hand_str.as_str(), " (", cat_name, ") in ", pos_str, ": ", call_body.as_str()]; proof { assert(views_of(parts@) =~= seq!["Calling with "@, hand_str@, " ("@, cat_name@, ") in "@, pos_str@, ": "@, call_body@]); } concat(&parts) },
                };
            let explanation_2 = match text_style {
                    TextStyle::Simple => if correct == 2 {
                        {  let parts = ["Re-raise! ", hand_str.as_str(), " from ", pos_str, " is strong enough to bet big. This builds the pot when you have the best hand."]; proof { assert(views_of(parts@) =~= seq!["Re-raise! "@, hand_str@, " from "@, pos_str@, " is strong enough to bet big. This builds the pot when you have the best hand."@]); } concat(&parts) }
                    } else {
                        {  let parts = ["Re-raising ", hand_str.as_str(), " here is too risky. You'd be putting in a lot of chips with a hand that isn't strong enough."]; proof { assert(views_of(parts@) =~= seq!["Re-raising "@, hand_str@, " here is too risky. You'd be putting in a lot of chips with a hand that isn't strong enough."@]); } concat(&parts) }
                    },
                    TextStyle::Technical => { let t8 = num(three_bet as u64); let parts = ["3-betting to ", t8.as_str(), " with ", hand_str.as_str(), " (", cat_name, ") from ", pos_str, ": ", threebet_body.as_str()]; proof { assert(views_of(parts@) =~= seq!["3-betting to "@, t8@, " with "@, hand_str@, " ("@, cat_name@, ") from "@, pos_str@, ": "@, threebet_body@]); } concat(&parts) },
                };
            let answers = vec![
                option_at(0, "Fold".to_owned(), correct, explanation_0),
                option_at(1, "Call".to_owned(), correct, explanation_1),
                option_at(2, cat3("Raise to ", num((three_bet / bb) as u64).as_str(), " BB"), correct, explanation_2),
            ];
            (pot, raiser_size, q, answers)
        }

        // ---- Hero faces a 3-bet after opening ----------------------------
        PreflopSpot::ThreeBetPot => {
            let hero_open = bb * 3;
            let three_bet_size = hero_open * 3;
            let pot = bb / 2 + bb + hero_open + three_bet_size;
            let four_bet = three_bet_size * 3;
            let q = match text_style {
                TextStyle::Simple => {
                    let qs0 = num((hero_open / bb) as u64);
                    let qs1 = num(stack_bb as u64);
                    let qs2 = num((three_bet_size / bb) as u64);
                    let parts = ["You bet ", qs0.as_str(), " big blinds with ", hand_str.as_str(), " from ", pos_str, " (", qs1.as_str(), " big blinds). Your opponent re-raised to ", qs2.as_str(), " big blinds. What do you do?"];
                    proof {
                        assert(views_of(parts@) =~= seq!["You bet "@, qs0@, " big blinds with "@, hand_str@, " from "@, pos_str@, " ("@, qs1@, " big blinds). Your opponent re-raised to "@, qs2@, " big blinds. What do you do?"@]);
                    }
                    concat(&parts)
                },
                TextStyle::Technical => {
                    let qt0 = num((hero_open / bb) as u64);
                    let qt1 = num(stack_bb as u64);
                    let qt2 = num((three_bet_size / bb) as u64);
                    let parts = ["You opened to ", qt0.as_str(), " BB with ", hand_str.as_str(), " from ", pos_str, " (", qt1.as_str(), " BB deep). A player re-raises to ", qt2.as_str(), " BB. What do you do?"];
                    proof {
                        assert(views_of(parts@) =~= seq!["You opened to "@, qt0@, " BB with "@, hand_str@, " from "@, pos_str@, " ("@, qt1@, " BB deep). A player re-raises to "@, qt2@, " BB. What do you do?"@]);
                    }
                    concat(&parts)
                },
            };
            let correct: usize = match cat {
                HandCategory::Premium => 2, // 4-bet for value
                HandCategory::Strong => 1, // call or small 4-bet
                HandCategory::Playable => 1, // call with implied odds
                HandCategory::Marginal => 0, // fold
                HandCategory::Trash => 0, // fold
            };

            let fold_body = if correct == 0 {
                {  let parts = ["Correct. A ", cat_name, " hand cannot profitably continue vs a 3-bet given the pot odds and likely 3-bet range of your opponent."]; proof { assert(views_of(parts@) =~= seq!["Correct. A "@, cat_name@, " hand cannot profitably continue vs a 3-bet given the pot odds and likely 3-bet range of your opponent."@]); } concat(&parts) }
            } else {
                "Folding is too tight here. Your hand has sufficient equity against a \
                 balanced 3-bet range to continue.".to_owned()
            };
            let call_body = if correct == 1 {
                "Correct. Calling preserves stack depth and lets you navigate postflop with \
                 good implied odds, avoiding getting all-in preflop with a dominated or \
                 marginal hand.".to_owned()
            } else {
                "Simply calling here leaves money on the table with a premium holding — \
                 4-betting for value is higher EV against a 3-bet range.".to_owned()
            };
            let fourbet_body = if correct == 2 {
                "Correct. With a premium hand you should 4-bet for value. This polarizes \
                 your range, forces folds of hands with equity against you, and builds the \
                 pot with the best of it.".to_owned()
            } else {
                {  let parts = ["4-betting a ", cat_name, " hand turns your hand face-up and gets called (or shoved) by hands that dominate you, resulting in a large pot with negative EV."]; proof { assert(views_of(parts@) =~= seq!["4-betting a "@, cat_name@, " hand turns your hand face-up and gets called (or shoved) by hands that dominate you, resulting in a large pot with negative EV."@]); } concat(&parts) }
            };

            let explanation_0 = match text_style {
                    TextStyle::Simple => if correct == 0 {
                        {  let parts = ["Correct. ", hand_str.as_str(), " can't beat your opponent's re-raise range profitably. Let this one go."]; proof { assert(views_of(parts@) =~= seq!["Correct. "@, hand_str@, " can't beat your opponent's re-raise range profitably. Let this one go."@]); } concat(&parts) }
                    } else {
                        "Folding here is too cautious — you have enough of a hand to continue.".to_owned()
                    },
                    TextStyle::Technical => {  let parts = ["Folding ", hand_str.as_str(), " (", cat_name, ") vs 3-bet: ", fold_body.as_str()]; proof { assert(views_of(parts@) =~= seq!["Folding "@, hand_str@, " ("@, cat_name@, ") vs 3-bet: "@, fold_body@]); } concat(&parts) },
                };
            let explanation_1 = match text_style {
                    TextStyle::Simple => if correct == 1 {
                        {  let parts = ["Correct. Call and see the flop. ", hand_str.as_str(), " has good enough potential and you keep the pot manageable."]; proof { assert(views_of(parts@) =~= seq!["Correct. Call and see the flop. "@, hand_str@, " has good enough potential and you keep the pot manageable."@]); } concat(&parts) }
                    } else {
                        "Just calling here wastes the opportunity — re-raise for value with this strong hand.".to_owned()
                    },
                    TextStyle::Technical => {  let parts = ["Calling the 3-bet with ", hand_str.as_str(), " (", cat_name, ") from ", pos_str, ": ", call_body.as_str()]; proof { assert(views_of(parts@) =~= seq!["Calling the 3-bet with "@, hand_str@, " ("@, cat_name@, ") from "@, pos_str@, ": "@, call_body@]); } concat(&parts) },
                };
            let explanation_2 = match text_style {
                    TextStyle::Simple => if correct == 2 {
                        {  let parts = ["Correct. Re-raise again! ", hand_str.as_str(), " is a premium hand. Build the pot — you have the best of it here."]; proof { assert(views_of(parts@) =~= seq!["Correct. Re-raise again! "@, hand_str@, " is a premium hand. Build the pot — you have the best of it here."@]); } concat(&parts) }
                    } else {
                        {  let parts = ["Re-raising here puts too many chips at risk with ", hand_str.as_str(), ". Call or fold instead."]; proof { assert(views_of(parts@) =~= seq!["Re-raising here puts too many chips at risk with "@, hand_str@, ". Call or fold instead."@]); } concat(&parts) }
                    },
                    TextStyle::Technical => {  let parts = ["4-betting with ", hand_str.as_str(), " (", cat_name, "): ", fourbet_body.as_str()]; proof { assert(views_of(parts@) =~= seq!["4-betting with "@, hand_str@, " ("@, cat_name@, "): "@, fourbet_body@]); } concat(&parts) },
                };
            let answers = vec![
                option_at(0, "Fold".to_owned(), correct, explanation_0),
                option_at(1, "Call".to_owned(), correct, explanation_1),
                option_at(2, cat3("Raise to ", num((four_bet / bb) as u64).as_str(), " BB"), correct, explanation_2),
            ];
            (pot, three_bet_size, q, answers)
        }
    }
}

// ═══════════════════════════════════════════════════════════════════════════
// T5 — ICM & Tournament Decision (IC-)
// ═══════════════════════════════════════════════════════════════════════════

#[derive(Debug, Clone, Copy, PartialEq, Eq, Structural)]
pub enum TournamentStage {
    EarlyLevels,
    MiddleStages,
    Bubble,
    FinalTable,
}

impl TournamentStage {
    /// The text that `name` returns.
    pub open spec fn name_text(self) -> Seq<char> {
        match self {
            TournamentStage::EarlyLevels => "Early Levels"@,
            TournamentStage::MiddleStages => "Middle Stages"@,
            TournamentStage::Bubble => "Bubble"@,
            TournamentStage::FinalTable => "Final Table"@,
        }
    }

    /// Display name of the stage ("Early Levels", ...).
    pub fn name(self) -> (s: &'static str)
        ensures
            s@ == self.name_text(),
    {
        match self {
            TournamentStage::EarlyLevels => "Early Levels",
            TournamentStage::MiddleStages => "Middle Stages",
            TournamentStage::Bubble => "Bubble",
            TournamentStage::FinalTable => "Final Table",
        }
    }
}

/// A random tournament stage, each of the four equally likely.  Every stage
/// can come back; which one rests on the draw alone, so nothing more is stated.
fn random_stage(rng: &mut StdRng) -> TournamentStage {
    match draw_u32(rng, 0, 3) {
        0 => TournamentStage::EarlyLevels,
        1 => TournamentStage::MiddleStages,
        2 => TournamentStage::Bubble,
        _ => TournamentStage::FinalTable,
    }
}

/// Hand strength tiers for push/fold.
#[derive(Debug, Clone, Copy, PartialEq, Eq, Structural)]
pub enum PushTier {
    /// QQ+, AKs — always push short stacks.
    Premium,
    /// JJ, TT, AK, AQ — push at moderate depths.
    Strong,
    /// 77-99, ATs+, KQs, KJs, QJs — push only when short.
    Playable,
    /// Everything else — only push when desperate.
    Weak,
}

pub open spec fn push_tier_of(r1: int, r2: int, suited: bool) -> PushTier {
    let pair = r1 == r2;
    if pair && r1 >= 12 {
        PushTier::Premium
    } else if r1 == 14 && r2 == 13 && suited {
        PushTier::Premium
    } else if pair && r1 >= 10 {
        PushTier::Strong
    } else if r1 == 14 && r2 >= 12 {
        PushTier::Strong
    } else if pair && r1 >= 7 {
        PushTier::Playable
    } else if r1 == 14 && r2 >= 10 && suited {
        PushTier::Playable
    } else if r1 >= 12 && r2 >= 11 && suited {
        PushTier::Playable
    } else {
        PushTier::Weak
    }
}

/// Push tier of a two-card hand (higher rank first).
pub open spec fn push_tier_spec(hand: Seq<Card>) -> PushTier {
    push_tier_of(
        crate::evaluator::max_int(hand[0].rank.0 as int, hand[1].rank.0 as int),
        crate::evaluator::min_int(hand[0].rank.0 as int, hand[1].rank.0 as int),
        hand[0].suit == hand[1].suit,
    )
}

pub fn classify_push_tier(hand: [Card; 2]) -> (t: PushTier)
    ensures
        t == push_tier_spec(hand@),
{
    let a = hand[0].rank.0;
    let b = hand[1].rank.0;
    let (r1, r2) = if a >= b { (a, b) } else { (b, a) };
    let suited = hand[0].suit == hand[1].suit;
    let pair = r1 == r2;

    if pair && r1 >= 12 { return PushTier::Premium; }       // QQ+
    if r1 == 14 && r2 == 13 && suited { return PushTier::Premium; } // AKs
    if pair && r1 >= 10 { return PushTier::Strong; }         // JJ, TT
    if r1 == 14 && r2 >= 12 { return PushTier::Strong; }    // AK, AQ
    if pair && r1 >= 7 { return PushTier::Playable; }        // 77-99
    if r1 == 14 && r2 >= 10 && suited { return PushTier::Playable; } // ATs+
    if r1 >= 12 && r2 >= 11 && suited { return PushTier::Playable; } // KQs, KJs, QJs
    PushTier::Weak
}

/// Deepest stack (in BB) at which the tier should push at this stage.
pub open spec fn push_threshold_spec(stage: TournamentStage, tier: PushTier) -> u32 {
    let base: u32 = match stage {
        TournamentStage::EarlyLevels => 20,
        TournamentStage::MiddleStages => 15,
        TournamentStage::Bubble => 10,
        TournamentStage::FinalTable => 12,
    };
    match tier {
        PushTier::Premium => (base + 8) as u32,
        PushTier::Strong => (base + 3) as u32,
        PushTier::Playable => base,
        PushTier::Weak => (base - 4) as u32,
    }
}

/// Simplified ICM pressure: base threshold in BB modified by hand strength.
pub fn push_threshold_bb(stage: TournamentStage, tier: PushTier) -> (t: u32)
    ensures
        t == push_threshold_spec(stage, tier),
{
    let base: u32 = match stage {
        TournamentStage::EarlyLevels => 20,
        TournamentStage::MiddleStages => 15,
        TournamentStage::Bubble => 10,
        TournamentStage::FinalTable => 12,
    };
    match tier {
        PushTier::Premium => base + 8,
        PushTier::Strong => base + 3,
        PushTier::Playable => base,
        PushTier::Weak => base.saturating_sub(4),
    }
}

/// Pushing is stronger for better tiers: a stack that a tier pushes is pushed
/// by every better tier too.
pub proof fn law_push_threshold_monotone(stage: TournamentStage)
    ensures
        push_threshold_spec(stage, PushTier::Weak) < push_threshold_spec(stage, PushTier::Playable),
        push_threshold_spec(stage, PushTier::Playable) < push_threshold_spec(stage, PushTier::Strong),
        push_threshold_spec(stage, PushTier::Strong) < push_threshold_spec(stage, PushTier::Premium),
{
}

/// Everything drawn at random for an ICM decision.
pub struct IcmDraw {
    pub stage: TournamentStage,
    pub hero_stack_bb: u32,
    pub villain_stack_bb: u32,
    pub players_remaining: u32,
    pub hero_hand: [Card; 2],
}

pub open spec fn hero_stack_bounds(diff: DifficultyLevel) -> (u32, u32) {
    match diff {
        DifficultyLevel::Beginner => (6, 18),
        DifficultyLevel::Intermediate => (4, 25),
        DifficultyLevel::Advanced => (3, 30),
    }
}

pub open spec fn players_bounds(stage: TournamentStage) -> (u32, u32) {
    match stage {
        TournamentStage::EarlyLevels => (60, 120),
        TournamentStage::MiddleStages => (25, 60),
        TournamentStage::Bubble => (10, 18),
        TournamentStage::FinalTable => (3, 9),
    }
}

pub open spec fn icm_draw_valid(d: IcmDraw, diff: DifficultyLevel) -> bool {
    &&& hero_stack_bounds(diff).0 <= d.hero_stack_bb <= hero_stack_bounds(diff).1
    &&& 20 <= d.villain_stack_bb <= 60
    &&& players_bounds(d.stage).0 <= d.players_remaining <= players_bounds(d.stage).1
    &&& fresh_cards(d.hero_hand@, Seq::empty())
}

pub open spec fn icm_should_push(d: IcmDraw) -> bool {
    d.hero_stack_bb <= push_threshold_spec(d.stage, push_tier_spec(d.hero_hand@))
}

pub open spec fn stage_key(stage: TournamentStage) -> Seq<char> {
    match stage {
        TournamentStage::EarlyLevels => "Early"@,
        TournamentStage::MiddleStages => "Middle"@,
        TournamentStage::Bubble => "Bubble"@,
        TournamentStage::FinalTable => "FinalTable"@,
    }
}

/// What an ICM scenario built from draw `d` holds: hero on the Button
/// against the Big Blind, all-in (A) correct exactly when pushing.
pub open spec fn icm_decision(d: IcmDraw) -> Decision {
    Decision {
        topic: TrainingTopic::ICMAndTournamentDecision,
        branch: stage_key(d.stage) + ":"@ + if icm_should_push(d) { "Push"@ } else { "Fold"@ },
        game_type: GameType::Tournament,
        hero_pos: Position::BTN,
        hand: d.hero_hand,
        board: Seq::empty(),
        players: crate::helpers::heads_up_spec(
                    Position::BTN,
                    Position::BB,
                    (d.hero_stack_bb * 100) as u32,
                    (d.villain_stack_bb * 100) as u32,
                ),
        pot: 150,
        bet: 0,
        answers: 2,
        labels: seq!["All-in"@, "Fold"@],
        correct: if icm_should_push(d) { 0 } else { 1 },
    }
}

/// Every text of a scenario built from `d` is non-empty: the question, the
/// branch key, and each answer's label and explanation.
#[verifier::spinoff_prover]
#[verifier::rlimit(50)]
pub proof fn lemma_icm_texts_nonempty(d: IcmDraw, ts: TextStyle)
    ensures
        icm_question(d, ts).len() > 0,
        icm_decision(d).branch.len() > 0,
        forall|i: int| 0 <= i < icm_decision(d).labels.len() ==> #[trigger] icm_decision(d).labels[i].len() > 0,
        forall|i: int| 0 <= i < icm_explanations(d, ts).len() ==> #[trigger] icm_explanations(d, ts)[i].len() > 0,
{
    reveal_strlit(" big blinds. Everyone else folded. Go all-in or fold?");
    reveal_strlit(" BB. Action folds to you. Do you shove all-in or fold?");
    reveal_strlit("%, but your hand still has enough equity to profitably shove against a wide BB calling range. Stack preservation via folding only deepens the blinds crisis.");
    reveal_strlit(") means you over-risk your tournament equity. Wait for a better spot or a stronger hand.");
    reveal_strlit(" big blinds, your stack is shrinking fast. Waiting for a perfect hand will cost you too much. Shove now.");
    reveal_strlit(" big blinds risks your tournament life needlessly. You still have time to find a better spot.");
    reveal_strlit("% is rational — a marginal shove risks your entire tournament life for a modest chip gain.");
    reveal_strlit(" BB and increasing blind levels, you must find spots to accumulate chips. Folding here leaves you critically short and forces even worse all-in spots later with less fold equity.");
    reveal_strlit(" big blinds) to wait for a better spot. Don't risk elimination unnecessarily.");
    reveal_strlit(" big blinds your stack is getting dangerously low. You need to shove while you still have some chips to be scary.");
    reveal_strlit(":");
    reveal_strlit("Push");
    reveal_strlit("Fold");
    reveal_strlit("All-in");
    reveal_strlit("Early");
    reveal_strlit("Middle");
    reveal_strlit("Bubble");
    reveal_strlit("FinalTable");
}

/// No text of a scenario built from `d` in text style `ts` is empty.
pub proof fn lemma_icm_scenario_texts(d: IcmDraw, ts: TextStyle, id: Seq<char>, r: TrainingScenario)
    requires
        icm_outcome(d, id, r),
        r.question@ == icm_question(d, ts),
        explains(r, icm_explanations(d, ts)),
    ensures
        texts_non_empty(r),
{
    lemma_icm_texts_nonempty(d, ts);
    lemma_texts_shown(r, id, icm_decision(d), icm_question(d, ts), icm_explanations(d, ts));
}

/// The scenario shows `icm_decision(d)` under `id`.
pub open spec fn icm_outcome(d: IcmDraw, id: Seq<char>, r: TrainingScenario) -> bool {
    shows(r, id, icm_decision(d))
}

/// The explanations of the answers of an ICM scenario, in text style `ts`.
pub open spec fn icm_explanations(d: IcmDraw, ts: TextStyle) -> Seq<Seq<char>> {
    let hero_stack_bb = d.hero_stack_bb;
    let should_push = icm_should_push(d);
    let orbit_pct = div_round_even(100, hero_stack_bb as int);
    let risk_premium_pct: u32 = match d.stage {
        TournamentStage::Bubble => 20,
        TournamentStage::FinalTable => 15,
        TournamentStage::MiddleStages => 8,
        TournamentStage::EarlyLevels => 3,
    };
    let hand_str = hand_chars(d.hero_hand);
    let pos_str = Position::BTN.name_text();
    let stage_s = d.stage.name_text();
    let push_body = if should_push {
        concat_spec(seq!["Correct. At "@, decimal((hero_stack_bb) as nat), " BB, your stack faces significant blind pressure (you'll lose ~"@, decimal(((orbit_pct)) as nat), "% per orbit). ICM risk premium at this stage is ~"@, decimal((risk_premium_pct) as nat), "%, but your hand still has enough equity to profitably shove against a wide BB calling range. Stack preservation via folding only deepens the blinds crisis."@])
    } else {
        concat_spec(seq!["Shoving with "@, decimal((hero_stack_bb) as nat), " BB is premature. At this stack depth the ICM risk premium (~"@, decimal((risk_premium_pct) as nat), "% at "@, stage_s, ") means you over-risk your tournament equity. Wait for a better spot or a stronger hand."@])
    };
    let push_explanation = match ts {
        TextStyle::Simple => if should_push {
            concat_spec(seq!["Correct — go all-in! With only "@, decimal((hero_stack_bb) as nat), " big blinds, your stack is shrinking fast. Waiting for a perfect hand will cost you too much. Shove now."@])
        } else {
            concat_spec(seq!["Going all-in too early at "@, decimal((hero_stack_bb) as nat), " big blinds risks your tournament life needlessly. You still have time to find a better spot."@])
        },
        TextStyle::Technical => concat_spec(seq!["Shoving "@, decimal((hero_stack_bb) as nat), " BB with "@, hand_str, " from "@, pos_str, " during "@, stage_s, ": "@, push_body]),
    };
    let fold_body = if !should_push {
        concat_spec(seq!["Correct. With "@, decimal((hero_stack_bb) as nat), " BB you are not yet in desperation territory. Preserving your stack when ICM pressure is ~"@, decimal((risk_premium_pct) as nat), "% is rational — a marginal shove risks your entire tournament life for a modest chip gain."@])
    } else {
        concat_spec(seq!["Folding is too passive here. With only "@, decimal((hero_stack_bb) as nat), " BB and increasing blind levels, you must find spots to accumulate chips. Folding here leaves you critically short and forces even worse all-in spots later with less fold equity."@])
    };
    let fold_explanation = match ts {
        TextStyle::Simple => if !should_push {
            concat_spec(seq!["Correct — fold. You still have enough chips ("@, decimal((hero_stack_bb) as nat), " big blinds) to wait for a better spot. Don't risk elimination unnecessarily."@])
        } else {
            concat_spec(seq!["Folding here is wrong — with "@, decimal((hero_stack_bb) as nat), " big blinds your stack is getting dangerously low. You need to shove while you still have some chips to be scary."@])
        },
        TextStyle::Technical => concat_spec(seq!["Folding "@, hand_str, " from "@, pos_str, " with "@, decimal((hero_stack_bb) as nat), " BB during "@, stage_s, ": "@, fold_body]),
    };
    seq![
        push_explanation,
        fold_explanation,
    ]
}

/// The question of an ICM scenario in text style `ts`.
pub open spec fn icm_question(d: IcmDraw, ts: TextStyle) -> Seq<char> {
    let paid = single_ceil_spec((d.players_remaining * 5033165) as nat, 0x200_0000);
    match ts {
        TextStyle::Simple => concat_spec(seq!["Tournament: "@, d.stage.name_text(), ". "@, decimal(d.players_remaining as nat), " players left, top "@, decimal(paid as nat), " get paid. You have "@, hand_chars(d.hero_hand), " on the Button with "@, decimal(d.hero_stack_bb as nat), " big blinds. Your opponent in the Big Blind has "@, decimal(d.villain_stack_bb as nat), " big blinds. Everyone else folded. Go all-in or fold?"@]),
        TextStyle::Technical => concat_spec(seq!["Tournament: "@, d.stage.name_text(), ". "@, decimal(d.players_remaining as nat), " players remain, top "@, decimal(paid as nat), " paid. You hold "@, hand_chars(d.hero_hand), " on the "@, Position::BTN.name_text(), " with "@, decimal(d.hero_stack_bb as nat), " BB. Villain on the BB has "@, decimal(d.villain_stack_bb as nat), " BB. Action folds to you. Do you shove all-in or fold?"@]),
    }
}

/// T5 — ICM & Tournament Decision (IC-).
///
/// RNG order: stage → hero stack → villain stack → players remaining →
/// shuffled deck → two hole cards.
pub fn generate_icm(rng: &mut StdRng, difficulty: DifficultyLevel, scenario_id: String, text_style: TextStyle) -> (r:
    TrainingScenario)
    ensures
        exists|d: IcmDraw|
            icm_draw_valid(d, difficulty) && #[trigger] icm_outcome(d, scenario_id@, r) && r.question@
                == icm_question(d, text_style) && explains(r, icm_explanations(d, text_style)),
{
    let stage = random_stage(rng);
    let hero_stack_bb = match difficulty {
        DifficultyLevel::Beginner => draw_u32(rng, 6, 18),
        DifficultyLevel::Intermediate => draw_u32(rng, 4, 25),
        DifficultyLevel::Advanced => draw_u32(rng, 3, 30),
    };
    let villain_stack_bb: u32 = draw_u32(rng, 20, 60);
    let players_remaining = match stage {
        TournamentStage::EarlyLevels => draw_u32(rng, 60, 120),
        TournamentStage::MiddleStages => draw_u32(rng, 25, 60),
        TournamentStage::Bubble => draw_u32(rng, 10, 18),
        TournamentStage::FinalTable => draw_u32(rng, 3, 9),
    };
    let (hero_hand, _rest) = deal(rng, 0);
    let d = IcmDraw { stage, hero_stack_bb, villain_stack_bb, players_remaining, hero_hand };
    let r = build_icm(&d, scenario_id, text_style);
    assert(icm_draw_valid(d, difficulty));
    r
}

/// Build the ICM scenario for draw `d`.
#[verifier::spinoff_prover]
#[verifier::rlimit(50)]
pub fn build_icm(d: &IcmDraw, scenario_id: String, text_style: TextStyle) -> (r: TrainingScenario)
    requires
        1 <= d.hero_stack_bb <= 30,
        d.villain_stack_bb <= 60,
        d.players_remaining <= 120,
    ensures
        icm_outcome(*d, scenario_id@, r),
        r.question@ == icm_question(*d, text_style),
        explains(r, icm_explanations(*d, text_style)),
{
    let stage = d.stage;
    let hero_stack_bb = d.hero_stack_bb;
    let villain_stack_bb = d.villain_stack_bb;
    let players_remaining = d.players_remaining;
    let hero_hand = d.hero_hand;
    let bb = 100u32; // tournament chips, 100 = 1 BB
    let hero_stack = hero_stack_bb * bb;
    let villain_stack = villain_stack_bb * bb;
    // 15% of the field, rounded up, as single precision computes it
    // (`0.15f32` is 5033165 / 2^25)
    let paid_spots = single_ceil(players_remaining as u64 * 5033165, 0x200_0000);

    let hero_pos = Position::BTN;
    let pos_str = hero_pos.name();
    let hand_str = hand_str(hero_hand);
    let stage_s = stage.name();

    let push_tier = classify_push_tier(hero_hand);
    let threshold = push_threshold_bb(stage, push_tier);
    let should_push = hero_stack_bb <= threshold;

    let stage_name = match stage {
        TournamentStage::EarlyLevels => "Early",
        TournamentStage::MiddleStages => "Middle",
        TournamentStage::Bubble => "Bubble",
        TournamentStage::FinalTable => "FinalTable",
    };
    let branch_key = cat3(stage_name, ":", if should_push { "Push" } else { "Fold" });

    let pot = bb + bb / 2; // standard antes + blinds estimate

    let risk_premium_pct: u32 = match stage {
        TournamentStage::Bubble => 20,
        TournamentStage::FinalTable => 15,
        TournamentStage::MiddleStages => 8,
        TournamentStage::EarlyLevels => 3,
    };
    // 100 / stack, the share lost per orbit, rounded half to even
    let orbit_pct = round_div_even(100, hero_stack_bb as u64);

    let question = match text_style {
        TextStyle::Simple => {
            let qs0 = num(players_remaining as u64);
            let qs1 = num(paid_spots as u64);
            let qs2 = num(hero_stack_bb as u64);
            let qs3 = num(villain_stack_bb as u64);
            let parts = ["Tournament: ", stage_s, ". ", qs0.as_str(), " players left, top ", qs1.as_str(), " get paid. You have ", hand_str.as_str(), " on the Button with ", qs2.as_str(), " big blinds. Your opponent in the Big Blind has ", qs3.as_str(), " big blinds. Everyone else folded. Go all-in or fold?"];
            proof {
                assert(views_of(parts@) =~= seq!["Tournament: "@, stage_s@, ". "@, qs0@, " players left, top "@, qs1@, " get paid. You have "@, hand_str@, " on the Button with "@, qs2@, " big blinds. Your opponent in the Big Blind has "@, qs3@, " big blinds. Everyone else folded. Go all-in or fold?"@]);
            }
            concat(&parts)
        },
        TextStyle::Technical => {
            let qt0 = num(players_remaining as u64);
            let qt1 = num(paid_spots as u64);
            let qt2 = num(hero_stack_bb as u64);
            let qt3 = num(villain_stack_bb as u64);
            let parts = ["Tournament: ", stage_s, ". ", qt0.as_str(), " players remain, top ", qt1.as_str(), " paid. You hold ", hand_str.as_str(), " on the ", pos_str, " with ", qt2.as_str(), " BB. Villain on the BB has ", qt3.as_str(), " BB. Action folds to you. Do you shove all-in or fold?"];
            proof {
                assert(views_of(parts@) =~= seq!["Tournament: "@, stage_s@, ". "@, qt0@, " players remain, top "@, qt1@, " paid. You hold "@, hand_str@, " on the "@, pos_str@, " with "@, qt2@, " BB. Villain on the BB has "@, qt3@, " BB. Action folds to you. Do you shove all-in or fold?"@]);
            }
            concat(&parts)
        },
    };

    let push_body = if should_push {
        { let t1 = num(hero_stack_bb as u64); let t2 = num((orbit_pct) as u64); let t3 = num(risk_premium_pct as u64); let parts = ["Correct. At ", t1.as_str(), " BB, your stack faces significant blind pressure (you'll lose ~", t2.as_str(), "% per orbit). ICM risk premium at this stage is ~", t3.as_str(), "%, but your hand still has enough equity to profitably shove against a wide BB calling range. Stack preservation via folding only deepens the blinds crisis."]; proof { assert(views_of(parts@) =~= seq!["Correct. At "@, t1@, " BB, your stack faces significant blind pressure (you'll lose ~"@, t2@, "% per orbit). ICM risk premium at this stage is ~"@, t3@, "%, but your hand still has enough equity to profitably shove against a wide BB calling range. Stack preservation via folding only deepens the blinds crisis."@]); } concat(&parts) }
    } else {
        { let t4 = num(hero_stack_bb as u64); let t5 = num(risk_premium_pct as u64); let parts = ["Shoving with ", t4.as_str(), " BB is premature. At this stack depth the ICM risk premium (~", t5.as_str(), "% at ", stage_s, ") means you over-risk your tournament equity. Wait for a better spot or a stronger hand."]; proof { assert(views_of(parts@) =~= seq!["Shoving with "@, t4@, " BB is premature. At this stack depth the ICM risk premium (~"@, t5@, "% at "@, stage_s@, ") means you over-risk your tournament equity. Wait for a better spot or a stronger hand."@]); } concat(&parts) }
    };
    let push_explanation = match text_style {
        TextStyle::Simple => if should_push {
            { let t6 = num(hero_stack_bb as u64); let parts = ["Correct — go all-in! With only ", t6.as_str(), " big blinds, your stack is shrinking fast. Waiting for a perfect hand will cost you too much. Shove now."]; proof { assert(views_of(parts@) =~= seq!["Correct — go all-in! With only "@, t6@, " big blinds, your stack is shrinking fast. Waiting for a perfect hand will cost you too much. Shove now."@]); } concat(&parts) }
        } else {
            { let t7 = num(hero_stack_bb as u64); let parts = ["Going all-in too early at ", t7.as_str(), " big blinds risks your tournament life needlessly. You still have time to find a better spot."]; proof { assert(views_of(parts@) =~= seq!["Going all-in too early at "@, t7@, " big blinds risks your tournament life needlessly. You still have time to find a better spot."@]); } concat(&parts) }
        },
        TextStyle::Technical => { let t8 = num(hero_stack_bb as u64); let parts = ["Shoving ", t8.as_str(), " BB with ", hand_str.as_str(), " from ", pos_str, " during ", stage_s, ": ", push_body.as_str()]; proof { assert(views_of(parts@) =~= seq!["Shoving "@, t8@, " BB with "@, hand_str@, " from "@, pos_str@, " during "@, stage_s@, ": "@, push_body@]); } concat(&parts) },
    };

    let fold_body = if !should_push {
        { let t9 = num(hero_stack_bb as u64); let t10 = num(risk_premium_pct as u64); let parts = ["Correct. With ", t9.as_str(), " BB you are not yet in desperation territory. Preserving your stack when ICM pressure is ~", t10.as_str(), "% is rational — a marginal shove risks your entire tournament life for a modest chip gain."]; proof { assert(views_of(parts@) =~= seq!["Correct. With "@, t9@, " BB you are not yet in desperation territory. Preserving your stack when ICM pressure is ~"@, t10@, "% is rational — a marginal shove risks your entire tournament life for a modest chip gain."@]); } concat(&parts) }
    } else {
        { let t11 = num(hero_stack_bb as u64); let parts = ["Folding is too passive here. With only ", t11.as_str(), " BB and increasing blind levels, you must find spots to accumulate chips. Folding here leaves you critically short and forces even worse all-in spots later with less fold equity."]; proof { assert(views_of(parts@) =~= seq!["Folding is too passive here. With only "@, t11@, " BB and increasing blind levels, you must find spots to accumulate chips. Folding here leaves you critically short and forces even worse all-in spots later with less fold equity."@]); } concat(&parts) }
    };
    let fold_explanation = match text_style {
        TextStyle::Simple => if !should_push {
            { let t12 = num(hero_stack_bb as u64); let parts = ["Correct — fold. You still have enough chips (", t12.as_str(), " big blinds) to wait for a better spot. Don't risk elimination unnecessarily."]; proof { assert(views_of(parts@) =~= seq!["Correct — fold. You still have enough chips ("@, t12@, " big blinds) to wait for a better spot. Don't risk elimination unnecessarily."@]); } concat(&parts) }
        } else {
            { let t13 = num(hero_stack_bb as u64); let parts = ["Folding here is wrong — with ", t13.as_str(), " big blinds your stack is getting dangerously low. You need to shove while you still have some chips to be scary."]; proof { assert(views_of(parts@) =~= seq!["Folding here is wrong — with "@, t13@, " big blinds your stack is getting dangerously low. You need to shove while you still have some chips to be scary."@]); } concat(&parts) }
        },
        TextStyle::Technical => { let t14 = num(hero_stack_bb as u64); let parts = ["Folding ", hand_str.as_str(), " from ", pos_str, " with ", t14.as_str(), " BB during ", stage_s, ": ", fold_body.as_str()]; proof { assert(views_of(parts@) =~= seq!["Folding "@, hand_str@, " from "@, pos_str@, " with "@, t14@, " BB during "@, stage_s@, ": "@, fold_body@]); } concat(&parts) },
    };

    let correct: usize = if should_push { 0 } else { 1 };
    let explanation_0 = push_explanation;
    let explanation_1 = fold_explanation;
    let answers = vec![
        option_at(0, "All-in".to_owned(), correct, explanation_0),
        option_at(1, "Fold".to_owned(), correct, explanation_1),
    ];

    let players = vec![
        PlayerState { seat: 1, position: Position::BB, stack: villain_stack, is_hero: false, is_active: true },
        PlayerState { seat: 2, position: hero_pos, stack: hero_stack, is_hero: true, is_active: true },
    ];

    let table_setup = TableSetup {
        game_type: GameType::Tournament,
        hero_position: hero_pos,
        hero_hand,
        board: Vec::new(),
        players,
        pot_size: pot,
        current_bet: 0,
    };

    TrainingScenario {
        scenario_id,
        topic: TrainingTopic::ICMAndTournamentDecision,
        branch_key,
        table_setup,
        question,
        answers,
    }
}

// ═══════════════════════════════════════════════════════════════════════════
// T9 — Anti-Limper Isolation (AL-)
// ═══════════════════════════════════════════════════════════════════════════

pub open spec fn iso_raise_spec(limper_count: u8) -> u32 {
    if limper_count == 1 { 4 } else if limper_count == 2 { 5 } else { 6 }
}

/// Iso-raise size in BB for the number of limpers.
pub fn iso_raise_bb(limper_count: u8) -> (s: u32)
    ensures
        s == iso_raise_spec(limper_count),
{
    match limper_count {
        1 => 4,
        2 => 5,
        _ => 6, // 3+ limpers
    }
}

/// In position (acts last postflop): Cutoff or Button.
pub fn al_is_in_position(pos: Position) -> (b: bool)
    ensures
        b == (pos == Position::CO || pos == Position::BTN),
{
    matches!(pos, Position::CO | Position::BTN)
}

/// How the anti-limper question names hero's seat.
pub open spec fn al_label_text(pos: Position) -> Seq<char> {
    match pos {
        Position::CO => "Cutoff"@,
        Position::BTN => "Button"@,
        Position::SB => "Small Blind"@,
        _ => "Unknown"@,
    }
}

fn al_position_label(pos: Position) -> (r: &'static str)
    ensures
        r@ == al_label_text(pos),
{
    match pos {
        Position::CO => "Cutoff",
        Position::BTN => "Button",
        Position::SB => "Small Blind",
        _ => "Unknown",
    }
}

/// Everything drawn at random for an anti-limper spot.
pub struct AntiLimperDraw {
    pub hero_hand: [Card; 2],
    pub hero_pos: Position,
    pub limper_count: u8,
    pub stack_bb: u32,
}

pub open spec fn al_stack_bounds(diff: DifficultyLevel) -> (u32, u32) {
    match diff {
        DifficultyLevel::Beginner => (60, 120),
        DifficultyLevel::Intermediate => (30, 150),
        DifficultyLevel::Advanced => (15, 200),
    }
}

pub open spec fn al_draw_valid(d: AntiLimperDraw, diff: DifficultyLevel) -> bool {
    &&& fresh_cards(d.hero_hand@, Seq::empty())
    &&& (d.hero_pos == Position::CO || d.hero_pos == Position::BTN || d.hero_pos == Position::SB)
    &&& 1 <= d.limper_count <= 3
    &&& al_stack_bounds(diff).0 <= d.stack_bb <= al_stack_bounds(diff).1
}

/// Correct answer: fold (A) with marginal/trash, overlimp (B) with a
/// playable hand out of position, iso-raise (C) otherwise.
pub open spec fn al_correct(cat: HandCategory, ip: bool) -> int {
    match cat {
        HandCategory::Premium | HandCategory::Strong => 2,
        HandCategory::Playable => if ip { 2 } else { 1 },
        _ => 0,
    }
}

pub open spec fn al_branch(cat: HandCategory, ip: bool) -> Seq<char> {
    match cat {
        HandCategory::Premium => "Premium"@,
        HandCategory::Strong => "Strong"@,
        HandCategory::Playable => if ip { "Playable:IP"@ } else { "Playable:OOP"@ },
        HandCategory::Marginal => "Marginal"@,
        HandCategory::Trash => "Trash"@,
    }
}

pub open spec fn al_decision(d: AntiLimperDraw) -> Decision {
    let cat = classify_hand_spec(d.hero_hand@);
    let ip = d.hero_pos == Position::CO || d.hero_pos == Position::BTN;
    let stack = (d.stack_bb * 2) as u32;
    Decision {
        topic: TrainingTopic::AntiLimperIsolation,
        branch: al_branch(cat, ip),
        game_type: GameType::CashGame,
        hero_pos: d.hero_pos,
        hand: d.hero_hand,
        board: Seq::empty(),
        players: crate::helpers::heads_up_spec(d.hero_pos, Position::UTG, stack, stack),
        pot: (3 + 2 * d.limper_count) as u32,
        bet: 2,
        answers: 3,
        labels: seq!["Fold"@, "Call"@, "Raise to "@ + decimal(iso_raise_spec(d.limper_count) as nat) + " BB"@],
        correct: al_correct(cat, ip),
    }
}

/// Every text of a scenario built from `d` is non-empty: the question, the
/// branch key, and each answer's label and explanation.
#[verifier::spinoff_prover]
#[verifier::rlimit(50)]
pub proof fn lemma_al_texts_nonempty(d: AntiLimperDraw, ts: TextStyle)
    ensures
        al_question(d, ts).len() > 0,
        al_decision(d).branch.len() > 0,
        forall|i: int| 0 <= i < al_decision(d).labels.len() ==> #[trigger] al_decision(d).labels[i].len() > 0,
        forall|i: int| 0 <= i < al_explanations(d, ts).len() ==> #[trigger] al_explanations(d, ts)[i].len() > 0,
{
    reveal_strlit(" chips. What do you do?");
    reveal_strlit(" chips. What is your action?");
    reveal_strlit("in position");
    reveal_strlit("out of position");
    reveal_strlit(" isn't strong enough here, even against players who just called. Wait for a better hand.");
    reveal_strlit(" here is too cautious — you have enough of a hand to bet and take control.");
    reveal_strlit(" builds a large pot without sufficient equity against even limping ranges. Overlimping is even worse — it invites more players and removes any initiative. Fold and wait for a stronger hand.");
    reveal_strlit(" is too tight. You have enough hand strength and/or positional advantage to profitably enter the pot here. Limpers have shown weakness — exploit it.");
    reveal_strlit(" from the Small Blind (you'll act first all game), raising is risky. Call cheaply and see if you hit the flop.");
    reveal_strlit(". Raise — you have a strong enough hand to take control.");
    reveal_strlit(" chips would build a large pot that you'll play from the worst position at the table (OOP every street). Instead, calling 1 BB lets you see a cheap flop with a speculative hand and realise implied odds without committing too many chips. Note: iso-raise from CO or BTN with this hand.");
    reveal_strlit(" BB) is higher EV. It denies limpers' cheap flops, wins dead money outright sometimes, and sets up a profitable postflop spot in position.");
    reveal_strlit(" BB) to punish the limpers and build the pot with initiative.");
    reveal_strlit(" big blinds)! You have a strong hand. Don't let the other players see a cheap flop — make them pay or fold.");
    reveal_strlit(" big blinds)! You'll be acting last all hand, which is a big advantage. Raise to play heads-up in a strong position.");
    reveal_strlit(". Call or fold instead.");
    reveal_strlit(" limper(s) already in the pot.");
    reveal_strlit(" already limped.");
    reveal_strlit(" hand OOP, overlimping or folding is better than iso-raising.");
    reveal_strlit("limper");
    reveal_strlit("limpers");
    reveal_strlit("Just calling here wastes your positional advantage. You're acting last — raise to take control and play heads-up.");
    reveal_strlit("Fold");
    reveal_strlit("Call");
    reveal_strlit("Raise to ");
    reveal_strlit(" BB");
    reveal_strlit("Premium");
    reveal_strlit("Strong");
    reveal_strlit("Playable:IP");
    reveal_strlit("Playable:OOP");
    reveal_strlit("Marginal");
    reveal_strlit("Trash");
}

/// No text of a scenario built from `d` in text style `ts` is empty.
pub proof fn lemma_al_scenario_texts(d: AntiLimperDraw, ts: TextStyle, id: Seq<char>, r: TrainingScenario)
    requires
        al_outcome(d, id, r),
        r.question@ == al_question(d, ts),
        explains(r, al_explanations(d, ts)),
    ensures
        texts_non_empty(r),
{
    lemma_al_texts_nonempty(d, ts);
    lemma_texts_shown(r, id, al_decision(d), al_question(d, ts), al_explanations(d, ts));
}

/// The scenario shows `al_decision(d)` under `id`.
pub open spec fn al_outcome(d: AntiLimperDraw, id: Seq<char>, r: TrainingScenario) -> bool {
    shows(r, id, al_decision(d))
}

/// The explanations of the answers of an anti-limper scenario, in text style `ts`.
pub open spec fn al_explanations(d: AntiLimperDraw, ts: TextStyle) -> Seq<Seq<char>> {
    let cat = classify_hand_spec(d.hero_hand@);
    let ip = d.hero_pos == Position::CO || d.hero_pos == Position::BTN;
    let limper_count = d.limper_count;
    let hand_str = hand_chars(d.hero_hand);
    let pos_str = al_label_text(d.hero_pos);
    let cat_name = category_name_spec(cat);
    let limper_word = if limper_count == 1 { "limper"@ } else { "limpers"@ };
    let iso_bb = iso_raise_spec(limper_count);
    let iso_chips = iso_bb * 2;
    let weak = cat == HandCategory::Marginal || cat == HandCategory::Trash;
    let playable_oop = cat == HandCategory::Playable && !ip;
    let strong = cat == HandCategory::Premium || cat == HandCategory::Strong;
    let playable_ip = cat == HandCategory::Playable && ip;
    let fold_exp = match ts {
        TextStyle::Simple => if weak {
            concat_spec(seq!["Correct — fold. "@, hand_str, " isn't strong enough here, even against players who just called. Wait for a better hand."@])
        } else {
            concat_spec(seq!["Folding "@, hand_str, " here is too cautious — you have enough of a hand to bet and take control."@])
        },
        TextStyle::Technical => if weak {
            concat_spec(seq!["Correct. A "@, cat_name, " hand from "@, pos_str, " against "@, decimal((limper_count) as nat), " "@, limper_word, " is a clear fold. Iso-raising with "@, hand_str, " builds a large pot without sufficient equity against even limping ranges. Overlimping is even worse — it invites more players and removes any initiative. Fold and wait for a stronger hand."@])
        } else {
            concat_spec(seq!["Folding "@, hand_str, " ("@, cat_name, ") from "@, pos_str, " is too tight. You have enough hand strength and/or positional advantage to profitably enter the pot here. Limpers have shown weakness — exploit it."@])
        },
    };
    let overlimp_exp = match ts {
        TextStyle::Simple => if playable_oop {
            concat_spec(seq!["Correct — just call. With "@, hand_str, " from the Small Blind (you'll act first all game), raising is risky. Call cheaply and see if you hit the flop."@])
        } else if ip {
            "Just calling here wastes your positional advantage. You're acting last — raise to take control and play heads-up."@
        } else {
            concat_spec(seq!["Just calling here is too passive with "@, hand_str, ". Raise — you have a strong enough hand to take control."@])
        },
        TextStyle::Technical => if playable_oop {
            concat_spec(seq!["Correct. Overlimping with "@, hand_str, " ("@, cat_name, ") from the Small Blind is the best play. Iso-raising to "@, decimal((iso_chips) as nat), " chips would build a large pot that you'll play from the worst position at the table (OOP every street). Instead, calling 1 BB lets you see a cheap flop with a speculative hand and realise implied odds without committing too many chips. Note: iso-raise from CO or BTN with this hand."@])
        } else {
            let tail = if ip {
                concat_spec(seq!["You have positional advantage (IP) — iso-raising to "@, decimal((iso_chips) as nat), " chips ("@, decimal((iso_bb) as nat), " BB) is higher EV. It denies limpers' cheap flops, wins dead money outright sometimes, and sets up a profitable postflop spot in position."@])
            } else {
                concat_spec(seq!["This hand is too strong to just call — iso-raise to "@, decimal((iso_chips) as nat), " chips ("@, decimal((iso_bb) as nat), " BB) to punish the limpers and build the pot with initiative."@])
            };
            concat_spec(seq!["Overlimping with "@, hand_str, " ("@, cat_name, ") from "@, pos_str, " is too passive. "@, tail])
        },
    };
    let iso_exp = match ts {
        TextStyle::Simple => if strong {
            concat_spec(seq!["Correct — raise to "@, decimal((iso_chips) as nat), " chips ("@, decimal((iso_bb) as nat), " big blinds)! You have a strong hand. Don't let the other players see a cheap flop — make them pay or fold."@])
        } else if playable_ip {
            concat_spec(seq!["Correct — raise to "@, decimal((iso_chips) as nat), " chips ("@, decimal((iso_bb) as nat), " big blinds)! You'll be acting last all hand, which is a big advantage. Raise to play heads-up in a strong position."@])
        } else {
            concat_spec(seq!["Raising here puts a lot of chips into a pot where you'll be acting first every street — a tough spot with "@, hand_str, ". Call or fold instead."@])
        },
        TextStyle::Technical => if strong {
            concat_spec(seq!["Correct. Iso-raising to "@, decimal((iso_chips) as nat), " chips ("@, decimal((iso_bb) as nat), " BB) with "@, hand_str, " ("@, cat_name, ") is mandatory from "@, pos_str, ". You never let limpers see a cheap flop with a premium or strong hand. The raise: (1) defines your hand as strong, (2) builds a pot with an equity advantage, (3) often wins uncontested vs "@, decimal((limper_count) as nat), " "@, limper_word, ". Size is "@, decimal((iso_bb) as nat), " BB to account for "@, decimal((limper_count) as nat), " limper(s) already in the pot."@])
        } else if playable_ip {
            concat_spec(seq!["Correct. Iso-raising to "@, decimal((iso_chips) as nat), " chips ("@, decimal((iso_bb) as nat), " BB) with "@, hand_str, " ("@, cat_name, ") from "@, pos_str, " (IP) is correct. Limpers are almost always weaker than a raiser's range. With positional advantage postflop you can: c-bet profitably on a wide range of boards, win with fold equity, and extract value when you connect. "@, decimal((iso_bb) as nat), " BB accounts for "@, decimal((limper_count) as nat), " "@, limper_word, " already limped."@])
        } else {
            concat_spec(seq!["Iso-raising to "@, decimal((iso_chips) as nat), " chips with "@, hand_str, " ("@, cat_name, ") from "@, pos_str, " (OOP) builds too large a pot to play from the worst position at the table. With a "@, cat_name, " hand OOP, overlimping or folding is better than iso-raising."@])
        },
    };
    seq![
        fold_exp,
        overlimp_exp,
        iso_exp,
    ]
}

/// The question of an anti-limper scenario in text style `ts`.
pub open spec fn al_question(d: AntiLimperDraw, ts: TextStyle) -> Seq<char> {
    let cat = classify_hand_spec(d.hero_hand@);
    let ip = d.hero_pos == Position::CO || d.hero_pos == Position::BTN;
    let pot = 3 + 2 * d.limper_count;
    match ts {
        TextStyle::Simple => concat_spec(seq!["You have "@, hand_chars(d.hero_hand), " in "@, al_label_text(d.hero_pos), " ("@, decimal(d.stack_bb as nat), " big blinds). "@, decimal(d.limper_count as nat), " player(s) just called the big blind without raising. Pot: "@, decimal(pot as nat), " chips. What do you do?"@]),
        TextStyle::Technical => concat_spec(seq!["You hold "@, hand_chars(d.hero_hand), " ("@, category_name_spec(cat), ") on the "@, al_label_text(d.hero_pos), " ("@, (if ip { "in position"@ } else { "out of position"@ }), ", "@, decimal(d.stack_bb as nat), " BB deep). "@, decimal(d.limper_count as nat), " player(s) limp in front of you. Pot is "@, decimal(pot as nat), " chips. What is your action?"@]),
    }
}

/// T9 — Anti-Limper Isolation (AL-).
///
/// RNG order: shuffled deck → two hole cards → position → limper count → stack.
pub fn generate_anti_limper(
    rng: &mut StdRng,
    difficulty: DifficultyLevel,
    scenario_id: String,
    text_style: TextStyle,
) -> (r: TrainingScenario)
    ensures
        exists|d: AntiLimperDraw|
            al_draw_valid(d, difficulty) && #[trigger] al_outcome(d, scenario_id@, r) && r.question@
                == al_question(d, text_style) && explains(r, al_explanations(d, text_style)),
{
    let (hero_hand, _rest) = deal(rng, 0);
    let hero_pos = match draw_u32(rng, 0, 2) {
        0 => Position::CO,
        1 => Position::BTN,
        _ => Position::SB,
    };
    let limper_count: u8 = draw_u8(rng, 1, 3);
    let stack_bb: u32 = match difficulty {
        DifficultyLevel::Beginner => draw_u32(rng, 60, 120),
        DifficultyLevel::Intermediate => draw_u32(rng, 30, 150),
        DifficultyLevel::Advanced => draw_u32(rng, 15, 200),
    };
    let d = AntiLimperDraw { hero_hand, hero_pos, limper_count, stack_bb };
    let r = build_anti_limper(&d, scenario_id, text_style);
    assert(al_draw_valid(d, difficulty));
    r
}

/// Build the anti-limper scenario for draw `d`.
#[verifier::spinoff_prover]
#[verifier::rlimit(50)]
pub fn build_anti_limper(d: &AntiLimperDraw, scenario_id: String, text_style: TextStyle) -> (r: TrainingScenario)
    requires
        1 <= d.limper_count <= 3,
        d.stack_bb <= 200,
    ensures
        al_outcome(*d, scenario_id@, r),
        r.question@ == al_question(*d, text_style),
        explains(r, al_explanations(*d, text_style)),
{
    let hero_hand = d.hero_hand;
    let hero_pos = d.hero_pos;
    let limper_count = d.limper_count;
    let stack_bb = d.stack_bb;
    let ip = al_is_in_position(hero_pos);

    let bb = 2u32;
    let stack = stack_bb * bb;
    let pot = bb + (bb / 2) + (bb * limper_count as u32); // BB + SB + limpers

    let cat = classify_hand(hero_hand);
    let cat_name = hand_category_name(cat);
    let iso_bb = iso_raise_bb(limper_count);
    let iso_chips = iso_bb * bb;

    let hand_str = hand_str(hero_hand);
    let pos_str = al_position_label(hero_pos);
    let limper_word = if limper_count == 1 { "limper" } else { "limpers" };
    let pos_qualifier = if ip { "in position" } else { "out of position" };

    // Premium/Strong → iso-raise; Playable → iso-raise in position, overlimp
    // from the Small Blind; Marginal/Trash → fold.
    let correct: usize = match cat {
        HandCategory::Premium | HandCategory::Strong => 2,
        HandCategory::Playable => if ip { 2 } else { 1 },
        HandCategory::Marginal | HandCategory::Trash => 0,
    };

    let branch_key = match cat {
        HandCategory::Premium => "Premium".to_owned(),
        HandCategory::Strong => "Strong".to_owned(),
        HandCategory::Playable => if ip { "Playable:IP".to_owned() } else { "Playable:OOP".to_owned() },
        HandCategory::Marginal => "Marginal".to_owned(),
        HandCategory::Trash => "Trash".to_owned(),
    };

    let question = match text_style {
        TextStyle::Simple => {
            let qs0 = num(stack_bb as u64);
            let qs1 = num(limper_count as u64);
            let qs2 = num(pot as u64);
            let parts = ["You have ", hand_str.as_str(), " in ", pos_str, " (", qs0.as_str(), " big blinds). ", qs1.as_str(), " player(s) just called the big blind without raising. Pot: ", qs2.as_str(), " chips. What do you do?"];
            proof {
                assert(views_of(parts@) =~= seq!["You have "@, hand_str@, " in "@, pos_str@, " ("@, qs0@, " big blinds). "@, qs1@, " player(s) just called the big blind without raising. Pot: "@, qs2@, " chips. What do you do?"@]);
            }
            concat(&parts)
        },
        TextStyle::Technical => {
            let qt0 = num(stack_bb as u64);
            let qt1 = num(limper_count as u64);
            let qt2 = num(pot as u64);
            let parts = ["You hold ", hand_str.as_str(), " (", cat_name, ") on the ", pos_str, " (", pos_qualifier, ", ", qt0.as_str(), " BB deep). ", qt1.as_str(), " player(s) limp in front of you. Pot is ", qt2.as_str(), " chips. What is your action?"];
            proof {
                assert(views_of(parts@) =~= seq!["You hold "@, hand_str@, " ("@, cat_name@, ") on the "@, pos_str@, " ("@, pos_qualifier@, ", "@, qt0@, " BB deep). "@, qt1@, " player(s) limp in front of you. Pot is "@, qt2@, " chips. What is your action?"@]);
            }
            concat(&parts)
        },
    };

    let weak = matches!(cat, HandCategory::Marginal | HandCategory::Trash);
    let fold_exp = match text_style {
        TextStyle::Simple => if weak {
            {  let parts = ["Correct — fold. ", hand_str.as_str(), " isn't strong enough here, even against players who just called. Wait for a better hand."]; proof { assert(views_of(parts@) =~= seq!["Correct — fold. "@, hand_str@, " isn't strong enough here, even against players who just called. Wait for a better hand."@]); } concat(&parts) }
        } else {
            {  let parts = ["Folding ", hand_str.as_str(), " here is too cautious — you have enough of a hand to bet and take control."]; proof { assert(views_of(parts@) =~= seq!["Folding "@, hand_str@, " here is too cautious — you have enough of a hand to bet and take control."@]); } concat(&parts) }
        },
        TextStyle::Technical => if weak {
            { let t1 = num(limper_count as u64); let parts = ["Correct. A ", cat_name, " hand from ", pos_str, " against ", t1.as_str(), " ", limper_word, " is a clear fold. Iso-raising with ", hand_str.as_str(), " builds a large pot without sufficient equity against even limping ranges. Overlimping is even worse — it invites more players and removes any initiative. Fold and wait for a stronger hand."]; proof { assert(views_of(parts@) =~= seq!["Correct. A "@, cat_name@, " hand from "@, pos_str@, " against "@, t1@, " "@, limper_word@, " is a clear fold. Iso-raising with "@, hand_str@, " builds a large pot without sufficient equity against even limping ranges. Overlimping is even worse — it invites more players and removes any initiative. Fold and wait for a stronger hand."@]); } concat(&parts) }
        } else {
            {  let parts = ["Folding ", hand_str.as_str(), " (", cat_name, ") from ", pos_str, " is too tight. You have enough hand strength and/or positional advantage to profitably enter the pot here. Limpers have shown weakness — exploit it."]; proof { assert(views_of(parts@) =~= seq!["Folding "@, hand_str@, " ("@, cat_name@, ") from "@, pos_str@, " is too tight. You have enough hand strength and/or positional advantage to profitably enter the pot here. Limpers have shown weakness — exploit it."@]); } concat(&parts) }
        },
    };

    let playable_oop = cat == HandCategory::Playable && !ip;
    let overlimp_exp = match text_style {
        TextStyle::Simple => if playable_oop {
            {  let parts = ["Correct — just call. With ", hand_str.as_str(), " from the Small Blind (you'll act first all game), raising is risky. Call cheaply and see if you hit the flop."]; proof { assert(views_of(parts@) =~= seq!["Correct — just call. With "@, hand_str@, " from the Small Blind (you'll act first all game), raising is risky. Call cheaply and see if you hit the flop."@]); } concat(&parts) }
        } else if ip {
            "Just calling here wastes your positional advantage. You're acting last — raise to take control and play heads-up.".to_owned()
        } else {
            {  let parts = ["Just calling here is too passive with ", hand_str.as_str(), ". Raise — you have a strong enough hand to take control."]; proof { assert(views_of(parts@) =~= seq!["Just calling here is too passive with "@, hand_str@, ". Raise — you have a strong enough hand to take control."@]); } concat(&parts) }
        },
        TextStyle::Technical => if playable_oop {
            { let t2 = num(iso_chips as u64); let parts = ["Correct. Overlimping with ", hand_str.as_str(), " (", cat_name, ") from the Small Blind is the best play. Iso-raising to ", t2.as_str(), " chips would build a large pot that you'll play from the worst position at the table (OOP every street). Instead, calling 1 BB lets you see a cheap flop with a speculative hand and realise implied odds without committing too many chips. Note: iso-raise from CO or BTN with this hand."]; proof { assert(views_of(parts@) =~= seq!["Correct. Overlimping with "@, hand_str@, " ("@, cat_name@, ") from the Small Blind is the best play. Iso-raising to "@, t2@, " chips would build a large pot that you'll play from the worst position at the table (OOP every street). Instead, calling 1 BB lets you see a cheap flop with a speculative hand and realise implied odds without committing too many chips. Note: iso-raise from CO or BTN with this hand."@]); } concat(&parts) }
        } else {
            let tail = if ip {
                { let t3 = num(iso_chips as u64); let t4 = num(iso_bb as u64); let parts = ["You have positional advantage (IP) — iso-raising to ", t3.as_str(), " chips (", t4.as_str(), " BB) is higher EV. It denies limpers' cheap flops, wins dead money outright sometimes, and sets up a profitable postflop spot in position."]; proof { assert(views_of(parts@) =~= seq!["You have positional advantage (IP) — iso-raising to "@, t3@, " chips ("@, t4@, " BB) is higher EV. It denies limpers' cheap flops, wins dead money outright sometimes, and sets up a profitable postflop spot in position."@]); } concat(&parts) }
            } else {
                { let t5 = num(iso_chips as u64); let t6 = num(iso_bb as u64); let parts = ["This hand is too strong to just call — iso-raise to ", t5.as_str(), " chips (", t6.as_str(), " BB) to punish the limpers and build the pot with initiative."]; proof { assert(views_of(parts@) =~= seq!["This hand is too strong to just call — iso-raise to "@, t5@, " chips ("@, t6@, " BB) to punish the limpers and build the pot with initiative."@]); } concat(&parts) }
            };
            {  let parts = ["Overlimping with ", hand_str.as_str(), " (", cat_name, ") from ", pos_str, " is too passive. ", tail.as_str()]; proof { assert(views_of(parts@) =~= seq!["Overlimping with "@, hand_str@, " ("@, cat_name@, ") from "@, pos_str@, " is too passive. "@, tail@]); } concat(&parts) }
        },
    };

    let strong = matches!(cat, HandCategory::Premium | HandCategory::Strong);
    let playable_ip = cat == HandCategory::Playable && ip;
    let iso_exp = match text_style {
        TextStyle::Simple => if strong {
            { let t7 = num(iso_chips as u64); let t8 = num(iso_bb as u64); let parts = ["Correct — raise to ", t7.as_str(), " chips (", t8.as_str(), " big blinds)! You have a strong hand. Don't let the other players see a cheap flop — make them pay or fold."]; proof { assert(views_of(parts@) =~= seq!["Correct — raise to "@, t7@, " chips ("@, t8@, " big blinds)! You have a strong hand. Don't let the other players see a cheap flop — make them pay or fold."@]); } concat(&parts) }
        } else if playable_ip {
            { let t9 = num(iso_chips as u64); let t10 = num(iso_bb as u64); let parts = ["Correct — raise to ", t9.as_str(), " chips (", t10.as_str(), " big blinds)! You'll be acting last all hand, which is a big advantage. Raise to play heads-up in a strong position."]; proof { assert(views_of(parts@) =~= seq!["Correct — raise to "@, t9@, " chips ("@, t10@, " big blinds)! You'll be acting last all hand, which is a big advantage. Raise to play heads-up in a strong position."@]); } concat(&parts) }
        } else {
            {  let parts = ["Raising here puts a lot of chips into a pot where you'll be acting first every street — a tough spot with ", hand_str.as_str(), ". Call or fold instead."]; proof { assert(views_of(parts@) =~= seq!["Raising here puts a lot of chips into a pot where you'll be acting first every street — a tough spot with "@, hand_str@, ". Call or fold instead."@]); } concat(&parts) }
        },
        TextStyle::Technical => if strong {
            { let t11 = num(iso_chips as u64); let t12 = num(iso_bb as u64); let t13 = num(limper_count as u64); let t14 = num(iso_bb as u64); let t15 = num(limper_count as u64); let parts = ["Correct. Iso-raising to ", t11.as_str(), " chips (", t12.as_str(), " BB) with ", hand_str.as_str(), " (", cat_name, ") is mandatory from ", pos_str, ". You never let limpers see a cheap flop with a premium or strong hand. The raise: (1) defines your hand as strong, (2) builds a pot with an equity advantage, (3) often wins uncontested vs ", t13.as_str(), " ", limper_word, ". Size is ", t14.as_str(), " BB to account for ", t15.as_str(), " limper(s) already in the pot."]; proof { assert(views_of(parts@) =~= seq!["Correct. Iso-raising to "@, t11@, " chips ("@, t12@, " BB) with "@, hand_str@, " ("@, cat_name@, ") is mandatory from "@, pos_str@, ". You never let limpers see a cheap flop with a premium or strong hand. The raise: (1) defines your hand as strong, (2) builds a pot with an equity advantage, (3) often wins uncontested vs "@, t13@, " "@, limper_word@, ". Size is "@, t14@, " BB to account for "@, t15@, " limper(s) already in the pot."@]); } concat(&parts) }
        } else if playable_ip {
            { let t16 = num(iso_chips as u64); let t17 = num(iso_bb as u64); let t18 = num(iso_bb as u64); let t19 = num(limper_count as u64); let parts = ["Correct. Iso-raising to ", t16.as_str(), " chips (", t17.as_str(), " BB) with ", hand_str.as_str(), " (", cat_name, ") from ", pos_str, " (IP) is correct. Limpers are almost always weaker than a raiser's range. With positional advantage postflop you can: c-bet profitably on a wide range of boards, win with fold equity, and extract value when you connect. ", t18.as_str(), " BB accounts for ", t19.as_str(), " ", limper_word, " already limped."]; proof { assert(views_of(parts@) =~= seq!["Correct. Iso-raising to "@, t16@, " chips ("@, t17@, " BB) with "@, hand_str@, " ("@, cat_name@, ") from "@, pos_str@, " (IP) is correct. Limpers are almost always weaker than a raiser's range. With positional advantage postflop you can: c-bet profitably on a wide range of boards, win with fold equity, and extract value when you connect. "@, t18@, " BB accounts for "@, t19@, " "@, limper_word@, " already limped."@]); } concat(&parts) }
        } else {
            { let t20 = num(iso_chips as u64); let parts = ["Iso-raising to ", t20.as_str(), " chips with ", hand_str.as_str(), " (", cat_name, ") from ", pos_str, " (OOP) builds too large a pot to play from the worst position at the table. With a ", cat_name, " hand OOP, overlimping or folding is better than iso-raising."]; proof { assert(views_of(parts@) =~= seq!["Iso-raising to "@, t20@, " chips with "@, hand_str@, " ("@, cat_name@, ") from "@, pos_str@, " (OOP) builds too large a pot to play from the worst position at the table. With a "@, cat_name@, " hand OOP, overlimping or folding is better than iso-raising."@]); } concat(&parts) }
        },
    };

    // Simplified: show one limper + hero
    let players = vec![
        PlayerState { seat: 1, position: Position::UTG, stack, is_hero: false, is_active: true },
        PlayerState { seat: 2, position: hero_pos, stack, is_hero: true, is_active: true },
    ];

    let explanation_0 = fold_exp;
    let explanation_1 = overlimp_exp;
    let explanation_2 = iso_exp;
    let answers = vec![
        option_at(0, "Fold".to_owned(), correct, explanation_0),
        option_at(1, "Call".to_owned(), correct, explanation_1),
        option_at(2, cat3("Raise to ", num((iso_bb) as u64).as_str(), " BB"), correct, explanation_2),
    ];

    let table_setup = TableSetup {
        game_type: GameType::CashGame,
        hero_position: hero_pos,
        hero_hand,
        board: Vec::new(),
        players,
        pot_size: pot,
        current_bet: bb, // the limp amount
    };

    TrainingScenario {
        scenario_id,
        topic: TrainingTopic::AntiLimperIsolation,
        branch_key,
        table_setup,
        question,
        answers,
    }
}

// ═══════════════════════════════════════════════════════════════════════════
// T11 — Squeeze Play (SQ-)
// ═══════════════════════════════════════════════════════════════════════════

/// Strength of hero's holding in a preflop squeeze spot.
#[derive(Debug, Clone, Copy, PartialEq, Eq, Structural)]
pub enum HoleStrength {
    /// Premium and strong hands (QQ+, AKs; JJ, TT, AK, AQ) — squeeze for maximum value.
    Premium,
    /// Playable hands (mid pairs 77–99, suited connectors) — call for implied odds.
    Speculative,
    /// Marginal hands and trash (off-suit rag, dominated holdings) — fold.
    Weak,
}

impl HoleStrength {
    /// The text that `name` returns.
    pub open spec fn name_text(self) -> Seq<char> {
        match self {
            HoleStrength::Premium => "premium (AA/KK/QQ/AKs)"@,
            HoleStrength::Speculative => "speculative (mid pair / suited connector)"@,
            HoleStrength::Weak => "weak (off-suit rag / dominated hand)"@,
        }
    }

    /// Display name of the strength.
    pub fn name(self) -> (s: &'static str)
        ensures
            s@ == self.name_text(),
    {
        match self {
            HoleStrength::Premium => "premium (AA/KK/QQ/AKs)",
            HoleStrength::Speculative => "speculative (mid pair / suited connector)",
            HoleStrength::Weak => "weak (off-suit rag / dominated hand)",
        }
    }
}

/// Squeeze strength of a hand category: premium and strong hands squeeze,
/// playable hands call for implied odds, marginal hands and trash fold.
pub open spec fn squeeze_strength_spec(cat: HandCategory) -> HoleStrength {
    match cat {
        HandCategory::Premium | HandCategory::Strong => HoleStrength::Premium,
        HandCategory::Playable => HoleStrength::Speculative,
        HandCategory::Marginal | HandCategory::Trash => HoleStrength::Weak,
    }
}

/// The squeeze strength of hand category `cat`.
pub fn squeeze_strength(cat: HandCategory) -> (s: HoleStrength)
    ensures
        s == squeeze_strength_spec(cat),
{
    match cat {
        HandCategory::Premium | HandCategory::Strong => HoleStrength::Premium,
        HandCategory::Playable => HoleStrength::Speculative,
        HandCategory::Marginal | HandCategory::Trash => HoleStrength::Weak,
    }
}

/// Everything drawn at random for a squeeze spot.
pub struct SqueezeDraw {
    pub hero_hand: [Card; 2],
    pub callers: u32,
    pub open_bb: u32,
    pub stack_bb: u32,
}

pub open spec fn sq_draw_valid(d: SqueezeDraw, diff: DifficultyLevel) -> bool {
    &&& fresh_cards(d.hero_hand@, Seq::empty())
    &&& match diff {
        DifficultyLevel::Beginner => d.callers == 1 && d.open_bb == 3 && d.stack_bb == 100,
        DifficultyLevel::Intermediate => 1 <= d.callers <= 2 && 2 <= d.open_bb <= 4 && 60 <= d.stack_bb <= 120,
        DifficultyLevel::Advanced => 1 <= d.callers <= 3 && 2 <= d.open_bb <= 5 && 25 <= d.stack_bb <= 150,
    }
}

/// Squeeze (C) with premium, call (B) with speculative, fold (A) with weak.
pub open spec fn sq_correct(s: HoleStrength) -> int {
    match s {
        HoleStrength::Premium => 2,
        HoleStrength::Speculative => 1,
        HoleStrength::Weak => 0,
    }
}

pub open spec fn sq_branch(s: HoleStrength) -> Seq<char> {
    match s {
        HoleStrength::Premium => "Premium:Squeeze"@,
        HoleStrength::Speculative => "Speculative:Call"@,
        HoleStrength::Weak => "Weak:Fold"@,
    }
}

/// How the squeeze question counts the callers.
pub open spec fn callers_text(callers: u32) -> Seq<char> {
    if callers == 1 { "1 caller"@ } else { decimal(callers as nat) + " callers"@ }
}

/// Answer labels of a squeeze spot: the squeeze is 3x the open plus one
/// open per caller.
pub open spec fn sq_labels(open_bb: u32, callers: u32) -> Seq<Seq<char>> {
    let squeeze_bb = open_bb * 3 + callers * open_bb;
    seq![
        "Fold"@,
        "Call ("@ + decimal(open_bb as nat) + " BB)"@,
        "Squeeze to "@ + decimal((squeeze_bb * 2) as nat) + " chips ("@ + decimal(squeeze_bb as nat) + " BB)"@,
    ]
}

/// Squeeze scenario: hero on the Button against a UTG opener; the pot holds
/// the open, each caller's call and the blinds (1 BB).
pub open spec fn sq_decision(d: SqueezeDraw) -> Decision {
    let stack = (d.stack_bb * 2) as u32;
    Decision {
        topic: TrainingTopic::SqueezePlay,
        branch: sq_branch(squeeze_strength_spec(classify_hand_spec(d.hero_hand@))),
        game_type: GameType::CashGame,
        hero_pos: Position::BTN,
        hand: d.hero_hand,
        board: Seq::empty(),
        players: crate::helpers::heads_up_spec(Position::BTN, Position::UTG, stack, stack),
        pot: ((d.open_bb + d.callers * d.open_bb + 1) * 2) as u32,
        bet: (d.open_bb * 2) as u32,
        answers: 3,
        labels: sq_labels(d.open_bb, d.callers),
        correct: sq_correct(squeeze_strength_spec(classify_hand_spec(d.hero_hand@))),
    }
}

/// Every text of a scenario built from `d` is non-empty: the question, the
/// branch key, and each answer's label and explanation.
#[verifier::spinoff_prover]
#[verifier::rlimit(50)]
pub proof fn lemma_sq_texts_nonempty(d: SqueezeDraw, ts: TextStyle)
    ensures
        sq_question(d, ts).len() > 0,
        sq_decision(d).branch.len() > 0,
        forall|i: int| 0 <= i < sq_decision(d).labels.len() ==> #[trigger] sq_decision(d).labels[i].len() > 0,
        forall|i: int| 0 <= i < sq_explanations(d, ts).len() ==> #[trigger] sq_explanations(d, ts)[i].len() > 0,
{
    reveal_strlit(" big blinds. What do you do?");
    reveal_strlit(" BB). What do you do?");
    reveal_strlit(" in this squeeze spot is the right play. Your hand has poor equity against the opener's range and the callers — even the BTN pot-odds discount doesn't compensate for dominated equity. Wait for a better spot.");
    reveal_strlit(" gives up significant equity. Premium hands profit most when the pot is large and opponents are dominated. Speculative hands need callers for implied odds. Only fold genuinely weak holdings.");
    reveal_strlit(" is optimal. Multiple callers create a large pot and improve your implied odds for sets, straights, and flushes. Squeezing bloats the pot where you may be dominated. Calling keeps your range disguised and preserves the implied-odds edge.");
    reveal_strlit(" leaves too much value on the table. You have a massive equity edge — squeezing forces dominated hands to pay a steep price, often winning the dead money outright or playing a large pot as a significant favourite.");
    reveal_strlit(" is -EV. You have poor equity against both the opener and the callers with no strong implied-odds potential. Fold.");
    reveal_strlit(" you have a great hand. A big re-raise will often win the pot right now, or leave you heads-up against one player with the best hand.");
    reveal_strlit(" isn't justified. Your hand isn't strong enough to play a huge pot.");
    reveal_strlit(" is the highest-EV play. Your hand has dominant equity over the field. A squeeze isolates, collects dead money when folds come, and builds a large pot played as a heavy favourite when called. Never limp or flat with premium hands in a squeeze spot.");
    reveal_strlit(" turns a good implied-odds hand into a commitment bluff. If called, you are out of position with a hand that needs to hit the board — facing a range that calls 3-bets and likely dominates you. Calling is higher EV.");
    reveal_strlit(" is a low-equity bluff. The opener and callers have uncapped ranges — expect 4-bets and calls from better hands. This play has strongly negative expected value.");
    reveal_strlit("Correct — fold. Your hand isn't strong enough to enter a large pot against multiple active players.");
    reveal_strlit("Folding here is too cautious — you have a good enough hand to re-raise or call.");
    reveal_strlit("Correct — call. With a hand that plays well in big pots, you can call and try to hit a big hand on the flop.");
    reveal_strlit("Just calling isn't the best play here — re-raise to take control and thin the field.");
    reveal_strlit("Premium:Squeeze");
    reveal_strlit("Speculative:Call");
    reveal_strlit("Weak:Fold");
    reveal_strlit("Fold");
    reveal_strlit("Call (");
    reveal_strlit(" BB)");
    reveal_strlit("Squeeze to ");
    reveal_strlit(" chips (");
}

/// No text of a scenario built from `d` in text style `ts` is empty.
pub proof fn lemma_sq_scenario_texts(d: SqueezeDraw, ts: TextStyle, id: Seq<char>, r: TrainingScenario)
    requires
        sq_outcome(d, id, r),
        r.question@ == sq_question(d, ts),
        explains(r, sq_explanations(d, ts)),
    ensures
        texts_non_empty(r),
{
    lemma_sq_texts_nonempty(d, ts);
    lemma_texts_shown(r, id, sq_decision(d), sq_question(d, ts), sq_explanations(d, ts));
}

/// The squeeze answer follows the hero's hand category: squeeze (C) with a
/// premium or strong hand, call (B) with a playable one, fold (A) with a
/// marginal hand or trash.
pub proof fn law_squeeze_answer_follows_hand_category(d: SqueezeDraw)
    ensures
        sq_decision(d).correct == match classify_hand_spec(d.hero_hand@) {
            HandCategory::Premium | HandCategory::Strong => 2int,
            HandCategory::Playable => 1int,
            HandCategory::Marginal | HandCategory::Trash => 0int,
        },
{
}

/// The scenario shows `sq_decision(d)` under `id`.
pub open spec fn sq_outcome(d: SqueezeDraw, id: Seq<char>, r: TrainingScenario) -> bool {
    shows(r, id, sq_decision(d))
}

/// The explanations of the answers of a squeeze scenario, in text style `ts`.
pub open spec fn sq_explanations(d: SqueezeDraw, ts: TextStyle) -> Seq<Seq<char>> {
    let strength = squeeze_strength_spec(classify_hand_spec(d.hero_hand@));
    let strength_s = strength.name_text();
    let hand_str = hand_chars(d.hero_hand);
    let squeeze_bb = d.open_bb * 3 + d.callers * d.open_bb;
    seq![
        match ts {
                TextStyle::Simple => match strength {
                    HoleStrength::Weak => "Correct — fold. Your hand isn't strong enough to enter a large pot against multiple active players."@,
                    _ => "Folding here is too cautious — you have a good enough hand to re-raise or call."@,
                },
                TextStyle::Technical => match strength {
                    HoleStrength::Weak => concat_spec(seq!["Correct. Folding a "@, strength_s, " in this squeeze spot is the right play. Your hand has poor equity against the opener's range and the callers — even the BTN pot-odds discount doesn't compensate for dominated equity. Wait for a better spot."@]),
                    _ => concat_spec(seq!["Folding a "@, strength_s, " gives up significant equity. Premium hands profit most when the pot is large and opponents are dominated. Speculative hands need callers for implied odds. Only fold genuinely weak holdings."@]),
                },
            },
        match ts {
                TextStyle::Simple => match strength {
                    HoleStrength::Speculative => "Correct — call. With a hand that plays well in big pots, you can call and try to hit a big hand on the flop."@,
                    HoleStrength::Premium => "Just calling isn't the best play here — re-raise to take control and thin the field."@,
                    HoleStrength::Weak => "Just calling isn't the best play here — re-raise to take control and thin the field."@,
                },
                TextStyle::Technical => match strength {
                    HoleStrength::Speculative => concat_spec(seq!["Correct. Calling with a "@, strength_s, " is optimal. Multiple callers create a large pot and improve your implied odds for sets, straights, and flushes. Squeezing bloats the pot where you may be dominated. Calling keeps your range disguised and preserves the implied-odds edge."@]),
                    HoleStrength::Premium => concat_spec(seq!["Calling with a "@, strength_s, " leaves too much value on the table. You have a massive equity edge — squeezing forces dominated hands to pay a steep price, often winning the dead money outright or playing a large pot as a significant favourite."@]),
                    HoleStrength::Weak => concat_spec(seq!["Calling with a "@, strength_s, " is -EV. You have poor equity against both the opener and the callers with no strong implied-odds potential. Fold."@]),
                },
            },
        match ts {
                TextStyle::Simple => match strength {
                    HoleStrength::Premium => concat_spec(seq!["Correct — re-raise big! With "@, hand_str, " you have a great hand. A big re-raise will often win the pot right now, or leave you heads-up against one player with the best hand."@]),
                    HoleStrength::Speculative => concat_spec(seq!["Re-raising here with "@, hand_str, " isn't justified. Your hand isn't strong enough to play a huge pot."@]),
                    HoleStrength::Weak => concat_spec(seq!["Re-raising here with "@, hand_str, " isn't justified. Your hand isn't strong enough to play a huge pot."@]),
                },
                TextStyle::Technical => match strength {
                    HoleStrength::Premium => concat_spec(seq!["Correct. Squeezing to "@, decimal((squeeze_bb) as nat), " BB with a "@, strength_s, " is the highest-EV play. Your hand has dominant equity over the field. A squeeze isolates, collects dead money when folds come, and builds a large pot played as a heavy favourite when called. Never limp or flat with premium hands in a squeeze spot."@]),
                    HoleStrength::Speculative => concat_spec(seq!["Squeezing with a "@, strength_s, " turns a good implied-odds hand into a commitment bluff. If called, you are out of position with a hand that needs to hit the board — facing a range that calls 3-bets and likely dominates you. Calling is higher EV."@]),
                    HoleStrength::Weak => concat_spec(seq!["Squeezing with a "@, strength_s, " is a low-equity bluff. The opener and callers have uncapped ranges — expect 4-bets and calls from better hands. This play has strongly negative expected value."@]),
                },
            },
    ]
}

/// The question of a squeeze scenario in text style `ts`.
pub open spec fn sq_question(d: SqueezeDraw, ts: TextStyle) -> Seq<char> {
    let pot_bb = d.open_bb + d.callers * d.open_bb + 1;
    let pot = pot_bb * 2;
    let stack = d.stack_bb * 2;
    let squeeze_bb = d.open_bb * 3 + d.callers * d.open_bb;
    match ts {
        TextStyle::Simple => concat_spec(seq!["Before the flop. You have "@, hand_chars(d.hero_hand), " on the Button. One player raised to "@, decimal(d.open_bb as nat), " big blinds and "@, callers_text(d.callers), " called. Pot: "@, decimal(pot as nat), " chips. Stack: "@, decimal(stack as nat), " chips. A big re-raise would be ~"@, decimal(squeeze_bb as nat), " big blinds. What do you do?"@]),
        TextStyle::Technical => concat_spec(seq!["Preflop squeeze. You hold "@, hand_chars(d.hero_hand), " ("@, squeeze_strength_spec(classify_hand_spec(d.hero_hand@)).name_text(), ") on the Button. UTG opens to "@, decimal(d.open_bb as nat), " BB, "@, callers_text(d.callers), " in between. Pot: "@, decimal(pot as nat), " chips ("@, decimal(pot_bb as nat), " BB). Stack: "@, decimal(stack as nat), " chips. A squeeze would be ~"@, decimal((squeeze_bb * 2) as nat), " chips ("@, decimal(squeeze_bb as nat), " BB). What do you do?"@]),
    }
}

/// T11 — Squeeze Play (SQ-).
///
/// RNG order: shuffled deck → two hole cards → callers → sizing.
pub fn generate_squeeze(rng: &mut StdRng, difficulty: DifficultyLevel, scenario_id: String, text_style: TextStyle) -> (r:
    TrainingScenario)
    ensures
        exists|d: SqueezeDraw|
            sq_draw_valid(d, difficulty) && #[trigger] sq_outcome(d, scenario_id@, r) && r.question@
                == sq_question(d, text_style) && explains(r, sq_explanations(d, text_style)),
{
    let (hero_hand, _rest) = deal(rng, 0);
    let callers: u32 = match difficulty {
        DifficultyLevel::Beginner => 1,
        DifficultyLevel::Intermediate => draw_u32(rng, 1, 2),
        DifficultyLevel::Advanced => draw_u32(rng, 1, 3),
    };
    let (open_bb, stack_bb) = match difficulty {
        DifficultyLevel::Beginner => (3u32, 100u32),
        DifficultyLevel::Intermediate => {
            let o = draw_u32(rng, 2, 4);
            let s = draw_u32(rng, 60, 120);
            (o, s)
        },
        DifficultyLevel::Advanced => {
            let o = draw_u32(rng, 2, 5);
            let s = draw_u32(rng, 25, 150);
            (o, s)
        },
    };
    let d = SqueezeDraw { hero_hand, callers, open_bb, stack_bb };
    let r = build_squeeze(&d, scenario_id, text_style);
    assert(sq_draw_valid(d, difficulty));
    r
}

/// Build the squeeze scenario for draw `d`.
#[verifier::spinoff_prover]
#[verifier::rlimit(50)]
pub fn build_squeeze(d: &SqueezeDraw, scenario_id: String, text_style: TextStyle) -> (r: TrainingScenario)
    requires
        1 <= d.callers <= 3,
        d.open_bb <= 5,
        d.stack_bb <= 150,
    ensures
        sq_outcome(*d, scenario_id@, r),
        r.question@ == sq_question(*d, text_style),
        explains(r, sq_explanations(*d, text_style)),
{
    let hero_hand = d.hero_hand;
    let strength = squeeze_strength(classify_hand(hero_hand));
    let callers = d.callers;
    let open_bb = d.open_bb;
    let stack_bb = d.stack_bb;
    let strength_s = strength.name();

    let bb = 2u32;
    assert(callers * open_bb <= 15) by (nonlinear_arith)
        requires
            callers <= 3,
            open_bb <= 5,
    ;
    // Dead money before hero acts: open + callers × open + SB (1 BB simplified)
    let pot_bb = open_bb + callers * open_bb + 1;
    let pot = pot_bb * bb;
    let stack = stack_bb * bb;

    // Squeeze sizing: ~3× the open + 1 open per caller (isolation premium)
    let squeeze_bb = open_bb * 3 + callers * open_bb;
    let squeeze = squeeze_bb * bb;

    let correct: usize = match strength {
        HoleStrength::Premium => 2,
        HoleStrength::Speculative => 1,
        HoleStrength::Weak => 0,
    };

    let branch_key = match strength {
        HoleStrength::Premium => "Premium:Squeeze",
        HoleStrength::Speculative => "Speculative:Call",
        HoleStrength::Weak => "Weak:Fold",
    }.to_owned();

    let hero_pos = Position::BTN;
    let opener_pos = Position::UTG;
    let hand_str = hand_str(hero_hand);
    let caller_str = if callers == 1 {
        "1 caller".to_owned()
    } else {
        cat2(num(callers as u64).as_str(), " callers")
    };

    let question = match text_style {
        TextStyle::Simple => {
            let qs0 = num(open_bb as u64);
            let qs1 = num(pot as u64);
            let qs2 = num(stack as u64);
            let qs3 = num(squeeze_bb as u64);
            let parts = ["Before the flop. You have ", hand_str.as_str(), " on the Button. One player raised to ", qs0.as_str(), " big blinds and ", caller_str.as_str(), " called. Pot: ", qs1.as_str(), " chips. Stack: ", qs2.as_str(), " chips. A big re-raise would be ~", qs3.as_str(), " big blinds. What do you do?"];
            proof {
                assert(views_of(parts@) =~= seq!["Before the flop. You have "@, hand_str@, " on the Button. One player raised to "@, qs0@, " big blinds and "@, caller_str@, " called. Pot: "@, qs1@, " chips. Stack: "@, qs2@, " chips. A big re-raise would be ~"@, qs3@, " big blinds. What do you do?"@]);
            }
            concat(&parts)
        },
        TextStyle::Technical => {
            let qt0 = num(open_bb as u64);
            let qt1 = num(pot as u64);
            let qt2 = num(pot_bb as u64);
            let qt3 = num(stack as u64);
            let qt4 = num(squeeze as u64);
            let qt5 = num(squeeze_bb as u64);
            let parts = ["Preflop squeeze. You hold ", hand_str.as_str(), " (", strength_s, ") on the Button. UTG opens to ", qt0.as_str(), " BB, ", caller_str.as_str(), " in between. Pot: ", qt1.as_str(), " chips (", qt2.as_str(), " BB). Stack: ", qt3.as_str(), " chips. A squeeze would be ~", qt4.as_str(), " chips (", qt5.as_str(), " BB). What do you do?"];
            proof {
                assert(views_of(parts@) =~= seq!["Preflop squeeze. You hold "@, hand_str@, " ("@, strength_s@, ") on the Button. UTG opens to "@, qt0@, " BB, "@, caller_str@, " in between. Pot: "@, qt1@, " chips ("@, qt2@, " BB). Stack: "@, qt3@, " chips. A squeeze would be ~"@, qt4@, " chips ("@, qt5@, " BB). What do you do?"@]);
            }
            concat(&parts)
        },
    };

    let explanation_0 = match text_style {
                TextStyle::Simple => match strength {
                    HoleStrength::Weak => "Correct — fold. Your hand isn't strong enough to enter a large pot against multiple active players.".to_owned(),
                    _ => "Folding here is too cautious — you have a good enough hand to re-raise or call.".to_owned(),
                },
                TextStyle::Technical => match strength {
                    HoleStrength::Weak => {  let parts = ["Correct. Folding a ", strength_s, " in this squeeze spot is the right play. Your hand has poor equity against the opener's range and the callers — even the BTN pot-odds discount doesn't compensate for dominated equity. Wait for a better spot."]; proof { assert(views_of(parts@) =~= seq!["Correct. Folding a "@, strength_s@, " in this squeeze spot is the right play. Your hand has poor equity against the opener's range and the callers — even the BTN pot-odds discount doesn't compensate for dominated equity. Wait for a better spot."@]); } concat(&parts) },
                    _ => {  let parts = ["Folding a ", strength_s, " gives up significant equity. Premium hands profit most when the pot is large and opponents are dominated. Speculative hands need callers for implied odds. Only fold genuinely weak holdings."]; proof { assert(views_of(parts@) =~= seq!["Folding a "@, strength_s@, " gives up significant equity. Premium hands profit most when the pot is large and opponents are dominated. Speculative hands need callers for implied odds. Only fold genuinely weak holdings."@]); } concat(&parts) },
                },
            };
    let explanation_1 = match text_style {
                TextStyle::Simple => match strength {
                    HoleStrength::Speculative => "Correct — call. With a hand that plays well in big pots, you can call and try to hit a big hand on the flop.".to_owned(),
                    HoleStrength::Premium => "Just calling isn't the best play here — re-raise to take control and thin the field.".to_owned(),
                    HoleStrength::Weak => "Just calling isn't the best play here — re-raise to take control and thin the field.".to_owned(),
                },
                TextStyle::Technical => match strength {
                    HoleStrength::Speculative => {  let parts = ["Correct. Calling with a ", strength_s, " is optimal. Multiple callers create a large pot and improve your implied odds for sets, straights, and flushes. Squeezing bloats the pot where you may be dominated. Calling keeps your range disguised and preserves the implied-odds edge."]; proof { assert(views_of(parts@) =~= seq!["Correct. Calling with a "@, strength_s@, " is optimal. Multiple callers create a large pot and improve your implied odds for sets, straights, and flushes. Squeezing bloats the pot where you may be dominated. Calling keeps your range disguised and preserves the implied-odds edge."@]); } concat(&parts) },
                    HoleStrength::Premium => {  let parts = ["Calling with a ", strength_s, " leaves too much value on the table. You have a massive equity edge — squeezing forces dominated hands to pay a steep price, often winning the dead money outright or playing a large pot as a significant favourite."]; proof { assert(views_of(parts@) =~= seq!["Calling with a "@, strength_s@, " leaves too much value on the table. You have a massive equity edge — squeezing forces dominated hands to pay a steep price, often winning the dead money outright or playing a large pot as a significant favourite."@]); } concat(&parts) },
                    HoleStrength::Weak => {  let parts = ["Calling with a ", strength_s, " is -EV. You have poor equity against both the opener and the callers with no strong implied-odds potential. Fold."]; proof { assert(views_of(parts@) =~= seq!["Calling with a "@, strength_s@, " is -EV. You have poor equity against both the opener and the callers with no strong implied-odds potential. Fold."@]); } concat(&parts) },
                },
            };
    let explanation_2 = match text_style {
                TextStyle::Simple => match strength {
                    HoleStrength::Premium => {  let parts = ["Correct — re-raise big! With ", hand_str.as_str(), " you have a great hand. A big re-raise will often win the pot right now, or leave you heads-up against one player with the best hand."]; proof { assert(views_of(parts@) =~= seq!["Correct — re-raise big! With "@, hand_str@, " you have a great hand. A big re-raise will often win the pot right now, or leave you heads-up against one player with the best hand."@]); } concat(&parts) },
                    HoleStrength::Speculative => {  let parts = ["Re-raising here with ", hand_str.as_str(), " isn't justified. Your hand isn't strong enough to play a huge pot."]; proof { assert(views_of(parts@) =~= seq!["Re-raising here with "@, hand_str@, " isn't justified. Your hand isn't strong enough to play a huge pot."@]); } concat(&parts) },
                    HoleStrength::Weak => {  let parts = ["Re-raising here with ", hand_str.as_str(), " isn't justified. Your hand isn't strong enough to play a huge pot."]; proof { assert(views_of(parts@) =~= seq!["Re-raising here with "@, hand_str@, " isn't justified. Your hand isn't strong enough to play a huge pot."@]); } concat(&parts) },
                },
                TextStyle::Technical => match strength {
                    HoleStrength::Premium => { let t1 = num(squeeze_bb as u64); let parts = ["Correct. Squeezing to ", t1.as_str(), " BB with a ", strength_s, " is the highest-EV play. Your hand has dominant equity over the field. A squeeze isolates, collects dead money when folds come, and builds a large pot played as a heavy favourite when called. Never limp or flat with premium hands in a squeeze spot."]; proof { assert(views_of(parts@) =~= seq!["Correct. Squeezing to "@, t1@, " BB with a "@, strength_s@, " is the highest-EV play. Your hand has dominant equity over the field. A squeeze isolates, collects dead money when folds come, and builds a large pot played as a heavy favourite when called. Never limp or flat with premium hands in a squeeze spot."@]); } concat(&parts) },
                    HoleStrength::Speculative => {  let parts = ["Squeezing with a ", strength_s, " turns a good implied-odds hand into a commitment bluff. If called, you are out of position with a hand that needs to hit the board — facing a range that calls 3-bets and likely dominates you. Calling is higher EV."]; proof { assert(views_of(parts@) =~= seq!["Squeezing with a "@, strength_s@, " turns a good implied-odds hand into a commitment bluff. If called, you are out of position with a hand that needs to hit the board — facing a range that calls 3-bets and likely dominates you. Calling is higher EV."@]); } concat(&parts) },
                    HoleStrength::Weak => {  let parts = ["Squeezing with a ", strength_s, " is a low-equity bluff. The opener and callers have uncapped ranges — expect 4-bets and calls from better hands. This play has strongly negative expected value."]; proof { assert(views_of(parts@) =~= seq!["Squeezing with a "@, strength_s@, " is a low-equity bluff. The opener and callers have uncapped ranges — expect 4-bets and calls from better hands. This play has strongly negative expected value."@]); } concat(&parts) },
                },
            };
    let answers = vec![
        option_at(0, "Fold".to_owned(), correct, explanation_0),
        option_at(1, cat3("Call (", num(open_bb as u64).as_str(), " BB)"), correct, explanation_1),
        option_at(2, cat5("Squeeze to ", num(squeeze as u64).as_str(), " chips (", num(squeeze_bb as u64).as_str(), " BB)"), correct, explanation_2),
    ];


    let players = vec![
        PlayerState { seat: 1, position: opener_pos, stack, is_hero: false, is_active: true },
        PlayerState { seat: 2, position: hero_pos, stack, is_hero: true, is_active: true },
    ];

    TrainingScenario {
        scenario_id,
        topic: TrainingTopic::SqueezePlay,
        branch_key,
        table_setup: TableSetup {
            game_type: GameType::CashGame,
            hero_position: hero_pos,
            hero_hand,
            board: Vec::new(),
            players,
            pot_size: pot,
            current_bet: open_bb * bb,
        },
        question,
        answers,
    }
}

// ═══════════════════════════════════════════════════════════════════════════
// T12 — Big Blind Defense (BD-)
// ═══════════════════════════════════════════════════════════════════════════

/// Hero's holding category when defending the Big Blind against a single raise.
#[derive(Debug, Clone, Copy, PartialEq, Eq, Structural)]
pub enum DefenseStrength {
    /// Premium and strong hands (TT+, AQ+) — 3-bet for value from the BB.
    Strong,
    /// Playable and marginal hands (pairs, suited connectors, broadways) — call with pot-odds discount.
    Playable,
    /// Trash (off-suit non-broadway) — fold even from the BB.
    Weak,
}

impl DefenseStrength {
    /// The text that `name` returns.
    pub open spec fn name_text(self) -> Seq<char> {
        match self {
            DefenseStrength::Strong => "strong (JJ+/AK/AQs)"@,
            DefenseStrength::Playable => "playable (mid pair / suited connector / broadway)"@,
            DefenseStrength::Weak => "weak (off-suit trash)"@,
        }
    }

    /// Display name of the strength.
    pub fn name(self) -> (s: &'static str)
        ensures
            s@ == self.name_text(),
    {
        match self {
            DefenseStrength::Strong => "strong (JJ+/AK/AQs)",
            DefenseStrength::Playable => "playable (mid pair / suited connector / broadway)",
            DefenseStrength::Weak => "weak (off-suit trash)",
        }
    }
}

/// Defense strength of a hand category: premium and strong hands 3-bet,
/// playable and marginal hands (pairs, connectors, broadways) call with the
/// big blind's discount, trash folds.
pub open spec fn defense_strength_spec(cat: HandCategory) -> DefenseStrength {
    match cat {
        HandCategory::Premium | HandCategory::Strong => DefenseStrength::Strong,
        HandCategory::Playable | HandCategory::Marginal => DefenseStrength::Playable,
        HandCategory::Trash => DefenseStrength::Weak,
    }
}

/// The defense strength of hand category `cat`.
pub fn defense_strength(cat: HandCategory) -> (s: DefenseStrength)
    ensures
        s == defense_strength_spec(cat),
{
    match cat {
        HandCategory::Premium | HandCategory::Strong => DefenseStrength::Strong,
        HandCategory::Playable | HandCategory::Marginal => DefenseStrength::Playable,
        HandCategory::Trash => DefenseStrength::Weak,
    }
}

/// Everything drawn at random for a Big Blind defense spot.
pub struct BbDefenseDraw {
    pub hero_hand: [Card; 2],
    pub villain_pos: Position,
    pub raise_bb: u32,
    pub stack_bb: u32,
}

pub open spec fn bd_draw_valid(d: BbDefenseDraw, diff: DifficultyLevel) -> bool {
    &&& fresh_cards(d.hero_hand@, Seq::empty())
    &&& (d.villain_pos == Position::UTG || d.villain_pos == Position::CO || d.villain_pos == Position::BTN)
    &&& match diff {
        DifficultyLevel::Beginner => d.raise_bb == 3 && d.stack_bb == 100,
        DifficultyLevel::Intermediate => 2 <= d.raise_bb <= 4 && 60 <= d.stack_bb <= 120,
        DifficultyLevel::Advanced => 2 <= d.raise_bb <= 5 && 25 <= d.stack_bb <= 150,
    }
}

/// 3-bet (C) strong, call (B) playable, fold (A) weak.
pub open spec fn bd_correct(s: DefenseStrength) -> int {
    match s {
        DefenseStrength::Strong => 2,
        DefenseStrength::Playable => 1,
        DefenseStrength::Weak => 0,
    }
}

pub open spec fn bd_branch(s: DefenseStrength) -> Seq<char> {
    match s {
        DefenseStrength::Strong => "Strong:ThreeBet"@,
        DefenseStrength::Playable => "Playable:Call"@,
        DefenseStrength::Weak => "Weak:Fold"@,
    }
}

/// Answer labels of a big blind defense: the 3-bet is 3x the raise plus one BB.
pub open spec fn bd_labels(raise_bb: u32) -> Seq<Seq<char>> {
    let three_bet_bb = raise_bb * 3 + 1;
    seq![
        "Fold"@,
        "Call ("@ + decimal(raise_bb as nat) + " BB)"@,
        "3-bet to "@ + decimal((three_bet_bb * 2) as nat) + " chips ("@ + decimal(three_bet_bb as nat) + " BB)"@,
    ]
}

/// Big Blind defense scenario: hero in the Big Blind facing one raise; the
/// pot holds the raise and hero's big blind.
pub open spec fn bd_decision(d: BbDefenseDraw) -> Decision {
    let stack = (d.stack_bb * 2) as u32;
    Decision {
        topic: TrainingTopic::BigBlindDefense,
        branch: bd_branch(defense_strength_spec(classify_hand_spec(d.hero_hand@))),
        game_type: GameType::CashGame,
        hero_pos: Position::BB,
        hand: d.hero_hand,
        board: Seq::empty(),
        players: crate::helpers::heads_up_spec(Position::BB, d.villain_pos, stack, stack),
        pot: ((d.raise_bb + 1) * 2) as u32,
        bet: (d.raise_bb * 2) as u32,
        answers: 3,
        labels: bd_labels(d.raise_bb),
        correct: bd_correct(defense_strength_spec(classify_hand_spec(d.hero_hand@))),
    }
}

/// Every text of a scenario built from `d` is non-empty: the question, the
/// branch key, and each answer's label and explanation.
#[verifier::spinoff_prover]
#[verifier::rlimit(50)]
pub proof fn lemma_bd_texts_nonempty(d: BbDefenseDraw, ts: TextStyle)
    ensures
        bd_question(d, ts).len() > 0,
        bd_decision(d).branch.len() > 0,
        forall|i: int| 0 <= i < bd_decision(d).labels.len() ==> #[trigger] bd_decision(d).labels[i].len() > 0,
        forall|i: int| 0 <= i < bd_explanations(d, ts).len() ==> #[trigger] bd_explanations(d, ts)[i].len() > 0,
{
    reveal_strlit(" big blinds. What do you do?");
    reveal_strlit(" BB). What do you do?");
    reveal_strlit(" isn't strong enough to continue against this raise.");
    reveal_strlit(" from the BB is correct even with the pot-odds discount. Off-suit non-broadway hands have poor equity and will routinely flop dominated pairs, no draws, and difficult second-best spots. Save the chips for a better hand.");
    reveal_strlit(" from the BB is too tight. You already have 1 BB invested and are getting a direct pot-odds discount. Strong hands should 3-bet; playable hands should call. Only trash warrants a fold here.");
    reveal_strlit(" can see a flop at a discount. Don't fold this away.");
    reveal_strlit(" BB and seeing a flop. Avoid 3-betting marginal hands OOP.");
    reveal_strlit("'s range — a 3-bet builds the pot while you're ahead and may win the dead money outright. Calling allows villain to realise their equity cheaply.");
    reveal_strlit(" from the BB is still -EV. The pot-odds discount helps but doesn't overcome the fact that off-suit trash has minimal equity, poor flop-hit rate, and faces a strong opening range. Fold and wait.");
    reveal_strlit(" is a strong hand. Make your opponent pay to continue and take control of the pot.");
    reveal_strlit(". Just call and see the flop.");
    reveal_strlit("'s opening range. A 3-bet builds the pot while you're ahead, denies equity to dominated hands, and forces a tough decision. Against a wide opener (CO/BTN) this is even more profitable.");
    reveal_strlit(" from the BB turns a +EV call into a marginal bluff-raise. Playable hands do not have enough raw equity to 3-bet for value against most opening ranges, and bloating the pot OOP with a speculative hand is risky. Calling preserves implied odds.");
    reveal_strlit(" from the BB is a bluff with no equity foundation. Even if it works occasionally, this play has poor risk-to-reward — villain can 4-bet or call with many better hands. Fold instead.");
    reveal_strlit("Folding here throws away money you already put in. You have a playable hand — call at minimum.");
    reveal_strlit("Just calling is too passive — re-raise with this strong hand to build the pot.");
    reveal_strlit("Strong:ThreeBet");
    reveal_strlit("Playable:Call");
    reveal_strlit("Weak:Fold");
    reveal_strlit("Fold");
    reveal_strlit("Call (");
    reveal_strlit(" BB)");
    reveal_strlit("3-bet to ");
    reveal_strlit(" chips (");
}

/// No text of a scenario built from `d` in text style `ts` is empty.
pub proof fn lemma_bd_scenario_texts(d: BbDefenseDraw, ts: TextStyle, id: Seq<char>, r: TrainingScenario)
    requires
        bd_outcome(d, id, r),
        r.question@ == bd_question(d, ts),
        explains(r, bd_explanations(d, ts)),
    ensures
        texts_non_empty(r),
{
    lemma_bd_texts_nonempty(d, ts);
    lemma_texts_shown(r, id, bd_decision(d), bd_question(d, ts), bd_explanations(d, ts));
}

/// The big blind defense answer follows the hero's hand category: 3-bet (C)
/// with a premium or strong hand, call (B) with a playable or marginal one,
/// fold (A) with trash; for every draw the generator makes, the pot is the
/// raise plus the big blind's two chips.
pub proof fn law_defense_answer_follows_hand_category(d: BbDefenseDraw, diff: DifficultyLevel)
    requires
        bd_draw_valid(d, diff),
    ensures
        bd_decision(d).correct == match classify_hand_spec(d.hero_hand@) {
            HandCategory::Premium | HandCategory::Strong => 2int,
            HandCategory::Playable | HandCategory::Marginal => 1int,
            HandCategory::Trash => 0int,
        },
        bd_decision(d).pot == bd_decision(d).bet + 2,
{
}

/// The scenario shows `bd_decision(d)` under `id`.
pub open spec fn bd_outcome(d: BbDefenseDraw, id: Seq<char>, r: TrainingScenario) -> bool {
    shows(r, id, bd_decision(d))
}

/// The explanations of the answers of a big blind defense scenario, in text style `ts`.
pub open spec fn bd_explanations(d: BbDefenseDraw, ts: TextStyle) -> Seq<Seq<char>> {
    let strength = defense_strength_spec(classify_hand_spec(d.hero_hand@));
    let strength_s = strength.name_text();
    let villain_pos_s = d.villain_pos.name_text();
    let hand_str = hand_chars(d.hero_hand);
    let raise_bb = d.raise_bb;
    let three_bet_bb = d.raise_bb * 3 + 1;
    seq![
        match ts {
                TextStyle::Simple => match strength {
                    DefenseStrength::Weak => concat_spec(seq!["Correct — fold. Even with your money already in, "@, hand_str, " isn't strong enough to continue against this raise."@]),
                    _ => "Folding here throws away money you already put in. You have a playable hand — call at minimum."@,
                },
                TextStyle::Technical => match strength {
                    DefenseStrength::Weak => concat_spec(seq!["Correct. Folding a "@, strength_s, " from the BB is correct even with the pot-odds discount. Off-suit non-broadway hands have poor equity and will routinely flop dominated pairs, no draws, and difficult second-best spots. Save the chips for a better hand."@]),
                    _ => concat_spec(seq!["Folding a "@, strength_s, " from the BB is too tight. You already have 1 BB invested and are getting a direct pot-odds discount. Strong hands should 3-bet; playable hands should call. Only trash warrants a fold here."@]),
                },
            },
        match ts {
                TextStyle::Simple => match strength {
                    DefenseStrength::Playable => concat_spec(seq!["Correct — call! You're already part-way in with the Big Blind and "@, hand_str, " can see a flop at a discount. Don't fold this away."@]),
                    DefenseStrength::Strong => "Just calling is too passive — re-raise with this strong hand to build the pot."@,
                    DefenseStrength::Weak => "Just calling is too passive — re-raise with this strong hand to build the pot."@,
                },
                TextStyle::Technical => match strength {
                    DefenseStrength::Playable => concat_spec(seq!["Correct. Calling with a "@, strength_s, " from the BB is the best play. Your pot-odds discount and direct equity make defence profitable. Playable hands (pairs, suited connectors, broadways) have enough equity and implied odds to justify calling "@, decimal((raise_bb) as nat), " BB and seeing a flop. Avoid 3-betting marginal hands OOP."@]),
                    DefenseStrength::Strong => concat_spec(seq!["Calling with a "@, strength_s, " from the BB misses a value opportunity. You have a large equity advantage over "@, villain_pos_s, "'s range — a 3-bet builds the pot while you're ahead and may win the dead money outright. Calling allows villain to realise their equity cheaply."@]),
                    DefenseStrength::Weak => concat_spec(seq!["Calling with a "@, strength_s, " from the BB is still -EV. The pot-odds discount helps but doesn't overcome the fact that off-suit trash has minimal equity, poor flop-hit rate, and faces a strong opening range. Fold and wait."@]),
                },
            },
        match ts {
                TextStyle::Simple => match strength {
                    DefenseStrength::Strong => concat_spec(seq!["Correct — re-raise to "@, decimal((three_bet_bb) as nat), " big blinds! "@, hand_str, " is a strong hand. Make your opponent pay to continue and take control of the pot."@]),
                    _ => concat_spec(seq!["Re-raising here is too aggressive with "@, hand_str, ". Just call and see the flop."@]),
                },
                TextStyle::Technical => match strength {
                    DefenseStrength::Strong => concat_spec(seq!["Correct. 3-betting to "@, decimal((three_bet_bb) as nat), " BB with a "@, strength_s, " from the BB is the highest-EV play. You have a significant equity advantage over "@, villain_pos_s, "'s opening range. A 3-bet builds the pot while you're ahead, denies equity to dominated hands, and forces a tough decision. Against a wide opener (CO/BTN) this is even more profitable."@]),
                    DefenseStrength::Playable => concat_spec(seq!["3-betting with a "@, strength_s, " from the BB turns a +EV call into a marginal bluff-raise. Playable hands do not have enough raw equity to 3-bet for value against most opening ranges, and bloating the pot OOP with a speculative hand is risky. Calling preserves implied odds."@]),
                    DefenseStrength::Weak => concat_spec(seq!["3-betting with a "@, strength_s, " from the BB is a bluff with no equity foundation. Even if it works occasionally, this play has poor risk-to-reward — villain can 4-bet or call with many better hands. Fold instead."@]),
                },
            },
    ]
}

/// The question of a big blind defense scenario in text style `ts`.
pub open spec fn bd_question(d: BbDefenseDraw, ts: TextStyle) -> Seq<char> {
    let pot_bb = d.raise_bb + 1;
    let pot = pot_bb * 2;
    let stack = d.stack_bb * 2;
    let three_bet_bb = d.raise_bb * 3 + 1;
    match ts {
        TextStyle::Simple => concat_spec(seq!["Before the flop. You have "@, hand_chars(d.hero_hand), " in the Big Blind. "@, d.villain_pos.name_text(), " raised to "@, decimal(d.raise_bb as nat), " big blinds. Everyone else folded. Pot: "@, decimal(pot as nat), " chips. Stack: "@, decimal(stack as nat), " chips. A re-raise would be ~"@, decimal(three_bet_bb as nat), " big blinds. What do you do?"@]),
        TextStyle::Technical => concat_spec(seq!["Big Blind defense. You hold "@, hand_chars(d.hero_hand), " ("@, defense_strength_spec(classify_hand_spec(d.hero_hand@)).name_text(), ") in the Big Blind. "@, d.villain_pos.name_text(), " raises to "@, decimal(d.raise_bb as nat), " BB. Action folds to you. Pot: "@, decimal(pot as nat), " chips ("@, decimal(pot_bb as nat), " BB). Stack: "@, decimal(stack as nat), " chips. A 3-bet would be ~"@, decimal((three_bet_bb * 2) as nat), " chips ("@, decimal(three_bet_bb as nat), " BB). What do you do?"@]),
    }
}

/// T12 — Big Blind Defense (BD-).
///
/// RNG order: shuffled deck → two hole cards → villain position →
/// sizing.
pub fn generate_bb_defense(
    rng: &mut StdRng,
    difficulty: DifficultyLevel,
    scenario_id: String,
    text_style: TextStyle,
) -> (r: TrainingScenario)
    ensures
        exists|d: BbDefenseDraw|
            bd_draw_valid(d, difficulty) && #[trigger] bd_outcome(d, scenario_id@, r) && r.question@
                == bd_question(d, text_style) && explains(r, bd_explanations(d, text_style)),
{
    let (hero_hand, _rest) = deal(rng, 0);
    // Villain's position determines their opening range width
    let villain_pos = match draw_u32(rng, 0, 2) {
        0 => Position::UTG,
        1 => Position::CO,
        _ => Position::BTN,
    };
    let (raise_bb, stack_bb) = match difficulty {
        DifficultyLevel::Beginner => (3u32, 100u32),
        DifficultyLevel::Intermediate => {
            let a = draw_u32(rng, 2, 4);
            let s = draw_u32(rng, 60, 120);
            (a, s)
        },
        DifficultyLevel::Advanced => {
            let a = draw_u32(rng, 2, 5);
            let s = draw_u32(rng, 25, 150);
            (a, s)
        },
    };
    let d = BbDefenseDraw { hero_hand, villain_pos, raise_bb, stack_bb };
    let r = build_bb_defense(&d, scenario_id, text_style);
    assert(bd_draw_valid(d, difficulty));
    r
}

/// Build the Big Blind defense scenario for draw `d`.
#[verifier::spinoff_prover]
#[verifier::rlimit(50)]
pub fn build_bb_defense(d: &BbDefenseDraw, scenario_id: String, text_style: TextStyle) -> (r: TrainingScenario)
    requires
        d.raise_bb <= 5,
        d.stack_bb <= 150,
    ensures
        bd_outcome(*d, scenario_id@, r),
        r.question@ == bd_question(*d, text_style),
        explains(r, bd_explanations(*d, text_style)),
{
    let hero_hand = d.hero_hand;
    let strength = defense_strength(classify_hand(hero_hand));
    let villain_pos = d.villain_pos;
    let raise_bb = d.raise_bb;
    let stack_bb = d.stack_bb;
    let strength_s = strength.name();
    let villain_pos_s = villain_pos.name();

    let bb = 2u32;
    // Pot before hero acts: raise + 1 BB (hero's dead big blind; SB folds)
    let pot_bb = raise_bb + 1;
    let pot = pot_bb * bb;
    let stack = stack_bb * bb;

    // Standard BB 3-bet sizing: ~3× raise + 1 dead BB re-invested
    let three_bet_bb = raise_bb * 3 + 1;
    let three_bet = three_bet_bb * bb;

    let correct: usize = match strength {
        DefenseStrength::Strong => 2,
        DefenseStrength::Playable => 1,
        DefenseStrength::Weak => 0,
    };

    let branch_key = match strength {
        DefenseStrength::Strong => "Strong:ThreeBet",
        DefenseStrength::Playable => "Playable:Call",
        DefenseStrength::Weak => "Weak:Fold",
    }.to_owned();

    let hero_pos = Position::BB;
    let hand_str = hand_str(hero_hand);

    let question = match text_style {
        TextStyle::Simple => {
            let qs0 = num(raise_bb as u64);
            let qs1 = num(pot as u64);
            let qs2 = num(stack as u64);
            let qs3 = num(three_bet_bb as u64);
            let parts = ["Before the flop. You have ", hand_str.as_str(), " in the Big Blind. ", villain_pos_s, " raised to ", qs0.as_str(), " big blinds. Everyone else folded. Pot: ", qs1.as_str(), " chips. Stack: ", qs2.as_str(), " chips. A re-raise would be ~", qs3.as_str(), " big blinds. What do you do?"];
            proof {
                assert(views_of(parts@) =~= seq!["Before the flop. You have "@, hand_str@, " in the Big Blind. "@, villain_pos_s@, " raised to "@, qs0@, " big blinds. Everyone else folded. Pot: "@, qs1@, " chips. Stack: "@, qs2@, " chips. A re-raise would be ~"@, qs3@, " big blinds. What do you do?"@]);
            }
            concat(&parts)
        },
        TextStyle::Technical => {
            let qt0 = num(raise_bb as u64);
            let qt1 = num(pot as u64);
            let qt2 = num(pot_bb as u64);
            let qt3 = num(stack as u64);
            let qt4 = num(three_bet as u64);
            let qt5 = num(three_bet_bb as u64);
            let parts = ["Big Blind defense. You hold ", hand_str.as_str(), " (", strength_s, ") in the Big Blind. ", villain_pos_s, " raises to ", qt0.as_str(), " BB. Action folds to you. Pot: ", qt1.as_str(), " chips (", qt2.as_str(), " BB). Stack: ", qt3.as_str(), " chips. A 3-bet would be ~", qt4.as_str(), " chips (", qt5.as_str(), " BB). What do you do?"];
            proof {
                assert(views_of(parts@) =~= seq!["Big Blind defense. You hold "@, hand_str@, " ("@, strength_s@, ") in the Big Blind. "@, villain_pos_s@, " raises to "@, qt0@, " BB. Action folds to you. Pot: "@, qt1@, " chips ("@, qt2@, " BB). Stack: "@, qt3@, " chips. A 3-bet would be ~"@, qt4@, " chips ("@, qt5@, " BB). What do you do?"@]);
            }
            concat(&parts)
        },
    };

    let explanation_0 = match text_style {
                TextStyle::Simple => match strength {
                    DefenseStrength::Weak => {  let parts = ["Correct — fold. Even with your money already in, ", hand_str.as_str(), " isn't strong enough to continue against this raise."]; proof { assert(views_of(parts@) =~= seq!["Correct — fold. Even with your money already in, "@, hand_str@, " isn't strong enough to continue against this raise."@]); } concat(&parts) },
                    _ => "Folding here throws away money you already put in. You have a playable hand — call at minimum.".to_owned(),
                },
                TextStyle::Technical => match strength {
                    DefenseStrength::Weak => {  let parts = ["Correct. Folding a ", strength_s, " from the BB is correct even with the pot-odds discount. Off-suit non-broadway hands have poor equity and will routinely flop dominated pairs, no draws, and difficult second-best spots. Save the chips for a better hand."]; proof { assert(views_of(parts@) =~= seq!["Correct. Folding a "@, strength_s@, " from the BB is correct even with the pot-odds discount. Off-suit non-broadway hands have poor equity and will routinely flop dominated pairs, no draws, and difficult second-best spots. Save the chips for a better hand."@]); } concat(&parts) },
                    _ => {  let parts = ["Folding a ", strength_s, " from the BB is too tight. You already have 1 BB invested and are getting a direct pot-odds discount. Strong hands should 3-bet; playable hands should call. Only trash warrants a fold here."]; proof { assert(views_of(parts@) =~= seq!["Folding a "@, strength_s@, " from the BB is too tight. You already have 1 BB invested and are getting a direct pot-odds discount. Strong hands should 3-bet; playable hands should call. Only trash warrants a fold here."@]); } concat(&parts) },
                },
            };
    let explanation_1 = match text_style {
                TextStyle::Simple => match strength {
                    DefenseStrength::Playable => {  let parts = ["Correct — call! You're already part-way in with the Big Blind and ", hand_str.as_str(), " can see a flop at a discount. Don't fold this away."]; proof { assert(views_of(parts@) =~= seq!["Correct — call! You're already part-way in with the Big Blind and "@, hand_str@, " can see a flop at a discount. Don't fold this away."@]); } concat(&parts) },
                    DefenseStrength::Strong => "Just calling is too passive — re-raise with this strong hand to build the pot.".to_owned(),
                    DefenseStrength::Weak => "Just calling is too passive — re-raise with this strong hand to build the pot.".to_owned(),
                },
                TextStyle::Technical => match strength {
                    DefenseStrength::Playable => { let t1 = num(raise_bb as u64); let parts = ["Correct. Calling with a ", strength_s, " from the BB is the best play. Your pot-odds discount and direct equity make defence profitable. Playable hands (pairs, suited connectors, broadways) have enough equity and implied odds to justify calling ", t1.as_str(), " BB and seeing a flop. Avoid 3-betting marginal hands OOP."]; proof { assert(views_of(parts@) =~= seq!["Correct. Calling with a "@, strength_s@, " from the BB is the best play. Your pot-odds discount and direct equity make defence profitable. Playable hands (pairs, suited connectors, broadways) have enough equity and implied odds to justify calling "@, t1@, " BB and seeing a flop. Avoid 3-betting marginal hands OOP."@]); } concat(&parts) },
                    DefenseStrength::Strong => {  let parts = ["Calling with a ", strength_s, " from the BB misses a value opportunity. You have a large equity advantage over ", villain_pos_s, "'s range — a 3-bet builds the pot while you're ahead and may win the dead money outright. Calling allows villain to realise their equity cheaply."]; proof { assert(views_of(parts@) =~= seq!["Calling with a "@, strength_s@, " from the BB misses a value opportunity. You have a large equity advantage over "@, villain_pos_s@, "'s range — a 3-bet builds the pot while you're ahead and may win the dead money outright. Calling allows villain to realise their equity cheaply."@]); } concat(&parts) },
                    DefenseStrength::Weak => {  let parts = ["Calling with a ", strength_s, " from the BB is still -EV. The pot-odds discount helps but doesn't overcome the fact that off-suit trash has minimal equity, poor flop-hit rate, and faces a strong opening range. Fold and wait."]; proof { assert(views_of(parts@) =~= seq!["Calling with a "@, strength_s@, " from the BB is still -EV. The pot-odds discount helps but doesn't overcome the fact that off-suit trash has minimal equity, poor flop-hit rate, and faces a strong opening range. Fold and wait."@]); } concat(&parts) },
                },
            };
    let explanation_2 = match text_style {
                TextStyle::Simple => match strength {
                    DefenseStrength::Strong => { let t2 = num(three_bet_bb as u64); let parts = ["Correct — re-raise to ", t2.as_str(), " big blinds! ", hand_str.as_str(), " is a strong hand. Make your opponent pay to continue and take control of the pot."]; proof { assert(views_of(parts@) =~= seq!["Correct — re-raise to "@, t2@, " big blinds! "@, hand_str@, " is a strong hand. Make your opponent pay to continue and take control of the pot."@]); } concat(&parts) },
                    _ => {  let parts = ["Re-raising here is too aggressive with ", hand_str.as_str(), ". Just call and see the flop."]; proof { assert(views_of(parts@) =~= seq!["Re-raising here is too aggressive with "@, hand_str@, ". Just call and see the flop."@]); } concat(&parts) },
                },
                TextStyle::Technical => match strength {
                    DefenseStrength::Strong => { let t3 = num(three_bet_bb as u64); let parts = ["Correct. 3-betting to ", t3.as_str(), " BB with a ", strength_s, " from the BB is the highest-EV play. You have a significant equity advantage over ", villain_pos_s, "'s opening range. A 3-bet builds the pot while you're ahead, denies equity to dominated hands, and forces a tough decision. Against a wide opener (CO/BTN) this is even more profitable."]; proof { assert(views_of(parts@) =~= seq!["Correct. 3-betting to "@, t3@, " BB with a "@, strength_s@, " from the BB is the highest-EV play. You have a significant equity advantage over "@, villain_pos_s@, "'s opening range. A 3-bet builds the pot while you're ahead, denies equity to dominated hands, and forces a tough decision. Against a wide opener (CO/BTN) this is even more profitable."@]); } concat(&parts) },
                    DefenseStrength::Playable => {  let parts = ["3-betting with a ", strength_s, " from the BB turns a +EV call into a marginal bluff-raise. Playable hands do not have enough raw equity to 3-bet for value against most opening ranges, and bloating the pot OOP with a speculative hand is risky. Calling preserves implied odds."]; proof { assert(views_of(parts@) =~= seq!["3-betting with a "@, strength_s@, " from the BB turns a +EV call into a marginal bluff-raise. Playable hands do not have enough raw equity to 3-bet for value against most opening ranges, and bloating the pot OOP with a speculative hand is risky. Calling preserves implied odds."@]); } concat(&parts) },
                    DefenseStrength::Weak => {  let parts = ["3-betting with a ", strength_s, " from the BB is a bluff with no equity foundation. Even if it works occasionally, this play has poor risk-to-reward — villain can 4-bet or call with many better hands. Fold instead."]; proof { assert(views_of(parts@) =~= seq!["3-betting with a "@, strength_s@, " from the BB is a bluff with no equity foundation. Even if it works occasionally, this play has poor risk-to-reward — villain can 4-bet or call with many better hands. Fold instead."@]); } concat(&parts) },
                },
            };
    let answers = vec![
        option_at(0, "Fold".to_owned(), correct, explanation_0),
        option_at(1, cat3("Call (", num(raise_bb as u64).as_str(), " BB)"), correct, explanation_1),
        option_at(2, cat5("3-bet to ", num(three_bet as u64).as_str(), " chips (", num(three_bet_bb as u64).as_str(), " BB)"), correct, explanation_2),
    ];

    let players = vec![
        PlayerState { seat: 1, position: villain_pos, stack, is_hero: false, is_active: true },
        PlayerState { seat: 2, position: hero_pos, stack, is_hero: true, is_active: true },
    ];

    TrainingScenario {
        scenario_id,
        topic: TrainingTopic::BigBlindDefense,
        branch_key,
        table_setup: TableSetup {
            game_type: GameType::CashGame,
            hero_position: hero_pos,
            hero_hand,
            board: Vec::new(),
            players,
            pot_size: pot,
            current_bet: raise_bb * bb,
        },
        question,
        answers,
    }
}

} // verus!
