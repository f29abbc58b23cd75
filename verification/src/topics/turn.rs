//! Turn topic generators: barrel, probe bet, and delayed c-bet.
//!
//! All three topics deal a 4-card board (flop + turn) and ask hero what to do
//! on the turn.  The key analysis in each:
//!
//! - **T6 Turn Barrel** — classifies the turn card (Blank / ScareBroadway /
//!   DrawComplete) and the flop texture to decide whether to double-barrel IP.
//! - **T15 Turn Probe** — hero is OOP (BB) after the flop checks through;
//!   hand strength (Strong / Medium / Weak) determines probe sizing.
//! - **T16 Delayed C-Bet** — hero is IP (BTN) after checking back the flop;
//!   hand strength and turn-card type (Blank / Scare) decide whether to fire
//!   a delayed c-bet and at what size.

use vstd::prelude::*;
use rand::rngs::StdRng;
use crate::evaluator::{
    board_texture, count_suit, four_close_ranks, has_four_close_ranks, max_int, suit_count, texture_spec,
    BoardTexture,
};
use crate::helpers::{lemma_texts_shown, texts_non_empty, explains, board_chars, hand_chars, shows, Decision, answers_marked, board_str, deal, fresh_cards, hand_str, heads_up, heads_up_spec, option_at, scenario, setup_is};
use crate::models::{
    card_chars, AnswerOption, Card, DifficultyLevel, GameType, PlayerState, Position, TableSetup, TextStyle,
    TrainingScenario, TrainingTopic,
};
use crate::rng::{coin_flip, draw_u32};
use crate::text::{concat_spec, views_of, pct_of_pot, cat3, concat, decimal, div_round_half_up, num, round_div};

verus! {

/// The flop together with the turn card.
pub open spec fn with_turn(flop: Seq<Card>, turn: Card) -> Seq<Card> {
    flop.push(turn)
}

fn flop_and_turn(flop: &[Card], turn: &Card) -> (v: Vec<Card>)
    ensures
        v@ == with_turn(flop@, *turn),
{
    let mut v = vstd::slice::slice_to_vec(flop);
    v.push(*turn);
    v
}

/// Highest rank on the board (0 on an empty board).
pub open spec fn max_rank(board: Seq<Card>) -> int
    decreases board.len(),
{
    if board.len() == 0 {
        0
    } else {
        max_int(max_rank(board.drop_last()), board.last().rank.0 as int)
    }
}

fn highest_rank(board: &[Card]) -> (r: u8)
    ensures
        r == max_rank(board@),
{
    let mut r: u8 = 0;
    let mut i: usize = 0;
    while i < board.len()
        invariant
            i <= board@.len(),
            r == max_rank(board@.take(i as int)),
        decreases board@.len() - i,
    {
        assert(board@.take(i + 1).drop_last() =~= board@.take(i as int));
        if board[i].rank.0 > r {
            r = board[i].rank.0;
        }
        i += 1;
    }
    assert(board@.take(board@.len() as int) =~= board@);
    r
}

/// Some board card has rank `r`.
pub open spec fn rank_on_board(board: Seq<Card>, r: int) -> bool {
    exists|i: int| 0 <= i < board.len() && #[trigger] board[i].rank.0 == r
}

fn has_rank(board: &[Card], r: u8) -> (b: bool)
    ensures
        b == rank_on_board(board@, r as int),
{
    let mut i: usize = 0;
    while i < board.len()
        invariant
            i <= board@.len(),
            forall|j: int| 0 <= j < i ==> board@[j].rank.0 != r,
        decreases board@.len() - i,
    {
        if board[i].rank.0 == r {
            assert(board@[i as int].rank.0 == r);
            return true;
        }
        i += 1;
    }
    false
}


// ═══════════════════════════════════════════════════════════════════════════════
// T6 — Turn Barrel Decision (TB-)
//
// Hero c-bet the flop and villain called.  Now the turn is dealt.  Should hero
// fire a second barrel?  The answer depends on the turn card type:
//   - DrawComplete  → check (villain's range improved)
//   - ScareBroadway → bet large (credible threat from IP range)
//   - Blank + Wet   → bet medium (charge draws)
//   - Blank + Dry   → check (no reason to barrel without value)
// ═══════════════════════════════════════════════════════════════════════════════

/// How the turn card changes the board relative to the flop.
#[derive(Debug, Clone, Copy, PartialEq, Eq, Structural)]
pub enum BarrelTurnCard {
    /// Low card, doesn't complete draws or add scare cards.
    Blank,
    /// Broadway card (T+) that favours the IP opener's range.
    ScareBroadway,
    /// Card that completes a likely flush or straight draw.
    DrawComplete,
}

/// DrawComplete when the turn is the third card of a flop suit or makes four
/// distinct ranks within a span of four; otherwise ScareBroadway for a turn
/// of rank ten or higher; otherwise Blank.
pub open spec fn barrel_turn_spec(flop: Seq<Card>, turn: Card) -> BarrelTurnCard {
    if count_suit(flop, turn.suit) >= 2 {
        BarrelTurnCard::DrawComplete
    } else if four_close_ranks(with_turn(flop, turn)) {
        BarrelTurnCard::DrawComplete
    } else if turn.rank.0 >= 10 {
        BarrelTurnCard::ScareBroadway
    } else {
        BarrelTurnCard::Blank
    }
}

pub fn classify_barrel_turn(flop: &[Card], turn: &Card) -> (t: BarrelTurnCard)
    ensures
        t == barrel_turn_spec(flop@, *turn),
{
    let turn_suit_count = suit_count(flop, turn.suit);
    if turn_suit_count >= 2 {
        return BarrelTurnCard::DrawComplete;
    }
    let ranks = flop_and_turn(flop, turn);
    if has_four_close_ranks(ranks.as_slice()) {
        return BarrelTurnCard::DrawComplete;
    }
    if turn.rank.0 >= 10 {
        return BarrelTurnCard::ScareBroadway;
    }
    BarrelTurnCard::Blank
}

/// How the question names the turn card.
pub open spec fn barrel_label(tt: BarrelTurnCard) -> Seq<char> {
    match tt {
        BarrelTurnCard::Blank => "blank"@,
        BarrelTurnCard::ScareBroadway => "scare Broadway card"@,
        BarrelTurnCard::DrawComplete => "draw-completing card"@,
    }
}

/// How the plain-words question names the turn card.
pub open spec fn barrel_label_simple(tt: BarrelTurnCard) -> Seq<char> {
    match tt {
        BarrelTurnCard::Blank => "blank (doesn't help either player much)"@,
        BarrelTurnCard::ScareBroadway => "big card (J, Q, K, or A)"@,
        BarrelTurnCard::DrawComplete => "possible draw-completing card"@,
    }
}

/// Everything drawn at random for a turn barrel spot; `board` is the flop
/// followed by the turn.
pub struct BarrelDraw {
    pub hero_hand: [Card; 2],
    pub board: Vec<Card>,
    pub stack_bb: u32,
    pub pot_bb: u32,
    pub hero_pos: Position,
}

pub open spec fn barrel_draw_valid(d: BarrelDraw, diff: DifficultyLevel) -> bool {
    &&& d.board@.len() == 4
    &&& fresh_cards(d.hero_hand@, d.board@)
    &&& (d.hero_pos == Position::BTN || d.hero_pos == Position::CO)
    &&& match diff {
        DifficultyLevel::Beginner => d.stack_bb == 100 && 14 <= d.pot_bb <= 22,
        DifficultyLevel::Intermediate => 50 <= d.stack_bb <= 130 && 10 <= d.pot_bb <= 28,
        DifficultyLevel::Advanced => 25 <= d.stack_bb <= 200 && 8 <= d.pot_bb <= 40,
    }
}

/// The turn card of a 4-card board, classified against its flop.
pub open spec fn barrel_turn_of(board: Seq<Card>) -> BarrelTurnCard {
    barrel_turn_spec(board.subrange(0, 3), board[3])
}

/// Check (A) a draw-completing turn, bet large (C) a scare Broadway turn, bet
/// medium (B) a blank on a wet or semi-wet flop, check (A) a blank on a dry one.
pub open spec fn barrel_correct(tt: BarrelTurnCard, flop_texture: BoardTexture) -> int {
    match tt {
        BarrelTurnCard::DrawComplete => 0,
        BarrelTurnCard::ScareBroadway => 2,
        BarrelTurnCard::Blank => if flop_texture == BoardTexture::Dry { 0 } else { 1 },
    }
}

pub open spec fn barrel_branch(tt: BarrelTurnCard, flop_texture: BoardTexture) -> Seq<char> {
    match tt {
        BarrelTurnCard::DrawComplete => "DrawComplete"@,
        BarrelTurnCard::ScareBroadway => "ScareBroadway"@,
        BarrelTurnCard::Blank => if flop_texture == BoardTexture::Dry { "Blank:Dry"@ } else { "Blank:Wet"@ },
    }
}

/// Turn barrel scenario: hero in late position, the Big Blind listed first.
pub open spec fn barrel_decision(d: BarrelDraw) -> Decision {
    let tt = barrel_turn_of(d.board@);
    let tex = texture_spec(d.board@.subrange(0, 3));
    let stack = (d.stack_bb * 2) as u32;
    Decision {
        topic: TrainingTopic::TurnBarrelDecision,
        branch: barrel_branch(tt, tex),
        game_type: GameType::CashGame,
        hero_pos: d.hero_pos,
        hand: d.hero_hand,
        board: d.board@,
        players: heads_up_spec(d.hero_pos, Position::BB, stack, stack),
        pot: (d.pot_bb * 2) as u32,
        bet: 0,
        answers: 3,
        labels: seq!["Check"@, "Bet medium"@, "Bet large"@],
        correct: barrel_correct(tt, tex),
    }
}

/// Every text of a scenario built from `d` is non-empty: the question, the
/// branch key, and each answer's label and explanation.
#[verifier::spinoff_prover]
#[verifier::rlimit(50)]
pub proof fn lemma_barrel_texts_nonempty(d: BarrelDraw, ts: TextStyle)
    ensures
        barrel_question(d, ts).len() > 0,
        barrel_decision(d).branch.len() > 0,
        forall|i: int| 0 <= i < barrel_decision(d).labels.len() ==> #[trigger] barrel_decision(d).labels[i].len() > 0,
        forall|i: int| 0 <= i < barrel_explanations(d, ts).len() ==> #[trigger] barrel_explanations(d, ts)[i].len() > 0,
{
    reveal_strlit(" chips). What do you do?");
    reveal_strlit(" completes potential draws — villain's check-calling range is now stronger and your bluff equity has collapsed. Checking back controls the pot and takes a free showdown or river spot.");
    reveal_strlit(" is a scare card that actually hits your late-position preflop range harder than villain's calling range. Checking surrenders fold equity when barrelling is profitable.");
    reveal_strlit(") gives you no reason to barrel without a value hand or clear draw. Checking back to control pot size is the strongest play.");
    reveal_strlit(" board with draws still live gives villain a free card. You should charge draws with a medium-sized bet.");
    reveal_strlit(" strengthens villain's check-calling range; a bet risks getting check-raised or called by made hands that now beat you.");
    reveal_strlit(") hits, your polarised range can support a larger barrel to maximise fold equity from villain's medium-strength hands.");
    reveal_strlit(" board gives villain incorrect pot odds to continue with flush draws (~20% equity on the turn). It charges draws without over-committing.");
    reveal_strlit(" dry board without a value hand or draw is a marginal bluff with little fold equity. Checking back is higher EV.");
    reveal_strlit("; an 80% pot bet as a bluff has very low fold equity and costs you a lot when called.");
    reveal_strlit(") is heavily weighted toward Broadway cards, making this bet highly credible and difficult for villain's medium pairs and draws to continue against.");
    reveal_strlit(" boards without the nuts can become difficult to follow through on the river.");
    reveal_strlit("Correct — check. The new card may have completed your opponent's draw. Betting here is risky — take a free look at the next card.");
    reveal_strlit("Checking here lets your opponent off the hook. The big card actually helps your story — bet to take the pot.");
    reveal_strlit("Correct — check. The new card doesn't change much on a dry board. No need to bet without a strong hand.");
    reveal_strlit("Checking gives your opponent a free card when draws are still possible. Bet to make them pay.");
    reveal_strlit("Betting into a possible completed draw is risky — your opponent may now have a better hand than you. Check.");
    reveal_strlit("A medium bet works but a bigger bet puts more pressure on your opponent when the big card hits.");
    reveal_strlit("Correct — bet medium. Draws are still possible and a medium bet makes it expensive for your opponent to chase them.");
    reveal_strlit("Betting medium on a dry board without a strong hand wastes chips. Check instead.");
    reveal_strlit("Betting big into a possible completed draw is a big mistake — you could be betting into a made hand.");
    reveal_strlit("Correct — bet big! The big card (J/Q/K/A) looks scary to your opponent and suggests you have a strong hand. A big bet here forces tough decisions.");
    reveal_strlit("Betting big without a good reason on this board is too aggressive. Check or bet medium.");
    reveal_strlit("Check");
    reveal_strlit("Bet medium");
    reveal_strlit("Bet large");
    reveal_strlit("DrawComplete");
    reveal_strlit("ScareBroadway");
    reveal_strlit("Blank:Dry");
    reveal_strlit("Blank:Wet");
}

/// No text of a scenario built from `d` in text style `ts` is empty.
pub proof fn lemma_barrel_scenario_texts(d: BarrelDraw, ts: TextStyle, id: Seq<char>, r: TrainingScenario)
    requires
        barrel_outcome(d, id, r),
        r.question@ == barrel_question(d, ts),
        explains(r, barrel_explanations(d, ts)),
    ensures
        texts_non_empty(r),
{
    lemma_barrel_texts_nonempty(d, ts);
    lemma_texts_shown(r, id, barrel_decision(d), barrel_question(d, ts), barrel_explanations(d, ts));
}

/// The scenario shows `barrel_decision(d)` under `id`.
pub open spec fn barrel_outcome(d: BarrelDraw, id: Seq<char>, r: TrainingScenario) -> bool {
    shows(r, id, barrel_decision(d))
}

/// The explanations of the answers of a turn barrel scenario, in text style `ts`.
pub open spec fn barrel_explanations(d: BarrelDraw, ts: TextStyle) -> Seq<Seq<char>> {
    let flop = d.board@.subrange(0, 3);
    let turn_type = barrel_turn_of(d.board@);
    let texture = texture_spec(flop);
    let correct = barrel_correct(turn_type, texture);
    let turn_str = card_chars(d.board@[3]);
    let texture_str = texture.name_text();
    let pos_str = d.hero_pos.name_text();
    let check_exp = match ts {
        TextStyle::Simple => match turn_type {
            BarrelTurnCard::DrawComplete => "Correct — check. The new card may have completed your opponent's draw. Betting here is risky — take a free look at the next card."@,
            BarrelTurnCard::ScareBroadway => "Checking here lets your opponent off the hook. The big card actually helps your story — bet to take the pot."@,
            BarrelTurnCard::Blank => {
                if correct == 0 {
                    "Correct — check. The new card doesn't change much on a dry board. No need to bet without a strong hand."@
                } else {
                    "Checking gives your opponent a free card when draws are still possible. Bet to make them pay."@
                }
            }
        },
        TextStyle::Technical => match turn_type {
            BarrelTurnCard::DrawComplete => concat_spec(seq!["Correct. The "@, turn_str, " completes potential draws — villain's check-calling range is now stronger and your bluff equity has collapsed. Checking back controls the pot and takes a free showdown or river spot."@]),
            BarrelTurnCard::ScareBroadway => concat_spec(seq!["The "@, turn_str, " is a scare card that actually hits your late-position preflop range harder than villain's calling range. Checking surrenders fold equity when barrelling is profitable."@]),
            BarrelTurnCard::Blank => {
                if correct == 0 {
                    concat_spec(seq!["Correct. On a "@, texture_str, " dry board a blank turn ("@, turn_str, ") gives you no reason to barrel without a value hand or clear draw. Checking back to control pot size is the strongest play."@])
                } else {
                    concat_spec(seq!["Checking on a "@, texture_str, " board with draws still live gives villain a free card. You should charge draws with a medium-sized bet."@])
                }
            }
        },
    };
    let bet50_exp = match ts {
        TextStyle::Simple => match turn_type {
            BarrelTurnCard::DrawComplete => "Betting into a possible completed draw is risky — your opponent may now have a better hand than you. Check."@,
            BarrelTurnCard::ScareBroadway => "A medium bet works but a bigger bet puts more pressure on your opponent when the big card hits."@,
            BarrelTurnCard::Blank => {
                if correct == 1 {
                    "Correct — bet medium. Draws are still possible and a medium bet makes it expensive for your opponent to chase them."@
                } else {
                    "Betting medium on a dry board without a strong hand wastes chips. Check instead."@
                }
            }
        },
        TextStyle::Technical => match turn_type {
            BarrelTurnCard::DrawComplete => concat_spec(seq!["Barrelling into a completed draw is a leak. The "@, turn_str, " strengthens villain's check-calling range; a bet risks getting check-raised or called by made hands that now beat you."@]),
            BarrelTurnCard::ScareBroadway => concat_spec(seq!["A 50% pot bet is an option but undersizes the scare-card advantage. When a Broadway card ("@, turn_str, ") hits, your polarised range can support a larger barrel to maximise fold equity from villain's medium-strength hands."@]),
            BarrelTurnCard::Blank => {
                if correct == 1 {
                    concat_spec(seq!["Correct. A ~50% pot barrel on a "@, texture_str, " board gives villain incorrect pot odds to continue with flush draws (~20% equity on the turn). It charges draws without over-committing."@])
                } else {
                    concat_spec(seq!["Betting 50% pot on a "@, texture_str, " dry board without a value hand or draw is a marginal bluff with little fold equity. Checking back is higher EV."@])
                }
            }
        },
    };
    let bet80_exp = match ts {
        TextStyle::Simple => match turn_type {
            BarrelTurnCard::DrawComplete => "Betting big into a possible completed draw is a big mistake — you could be betting into a made hand."@,
            BarrelTurnCard::ScareBroadway => "Correct — bet big! The big card (J/Q/K/A) looks scary to your opponent and suggests you have a strong hand. A big bet here forces tough decisions."@,
            BarrelTurnCard::Blank => "Betting big without a good reason on this board is too aggressive. Check or bet medium."@,
        },
        TextStyle::Technical => match turn_type {
            BarrelTurnCard::DrawComplete => concat_spec(seq!["A large barrel into a completed draw board is a significant mistake. Villain's check-calling range is polarised toward made hands after the "@, turn_str, "; an 80% pot bet as a bluff has very low fold equity and costs you a lot when called."@]),
            BarrelTurnCard::ScareBroadway => concat_spec(seq!["Correct. An ~80% pot barrel on the "@, turn_str, " leverages the scare card to maximise fold equity. Your range (opening from "@, pos_str, ") is heavily weighted toward Broadway cards, making this bet highly credible and difficult for villain's medium pairs and draws to continue against."@]),
            BarrelTurnCard::Blank => concat_spec(seq!["An 80% pot bet on a blank turn without a strong hand or draw over-commits resources. Size down or check back — large barrels on "@, texture_str, " boards without the nuts can become difficult to follow through on the river."@]),
        },
    };
    seq![
        check_exp,
        bet50_exp,
        bet80_exp,
    ]
}

/// The question of a turn barrel scenario in text style `ts`.
pub open spec fn barrel_question(d: BarrelDraw, ts: TextStyle) -> Seq<char> {
    let flop = d.board@.subrange(0, 3);
    let tt = barrel_turn_of(d.board@);
    let tex = texture_spec(flop);
    let pot = d.pot_bb * 2;
    let stack = d.stack_bb * 2;
    match ts {
        TextStyle::Simple => concat_spec(seq!["You bet after the first three cards and your opponent called. You have "@, hand_chars(d.hero_hand), " in "@, d.hero_pos.name_text(), ". First three cards: "@, board_chars(flop), ". Fourth card: "@, card_chars(d.board@[3]), " (a "@, barrel_label_simple(tt), "). Pot: "@, decimal(pot as nat), " chips. Stack: "@, decimal(stack as nat), " chips. Your opponent checks to you. Options: check, bet medium (~"@, decimal((pot / 2) as nat), " chips), bet big (~"@, decimal((pot * 4 / 5) as nat), " chips). What do you do?"@]),
        TextStyle::Technical => concat_spec(seq!["You c-bet the flop and villain called. You hold "@, hand_chars(d.hero_hand), " from "@, d.hero_pos.name_text(), ". Flop: "@, board_chars(flop), " ("@, tex.name_text(), "). Turn: "@, card_chars(d.board@[3]), " (a "@, barrel_label(tt), "). Pot is "@, decimal(pot as nat), " chips ("@, decimal(d.pot_bb as nat), " BB), stack "@, decimal(stack as nat), " chips ("@, decimal(d.stack_bb as nat), " BB). Villain checks to you. Bet options: medium (~50% pot = "@, decimal((pot / 2) as nat), " chips) or large (~80% pot = "@, decimal((pot * 4 / 5) as nat), " chips). What do you do?"@]),
    }
}

/// T6 — Turn Barrel Decision (TB-).
///
/// RNG order: shuffled deck → hand, flop and turn → stack/pot → position coin.
pub fn generate_barrel(
    rng: &mut StdRng,
    difficulty: DifficultyLevel,
    scenario_id: String,
    text_style: TextStyle,
) -> (r: TrainingScenario)
    ensures
        exists|d: BarrelDraw|
            barrel_draw_valid(d, difficulty) && #[trigger] barrel_outcome(d, scenario_id@, r) && r.question@
                == barrel_question(d, text_style) && explains(r, barrel_explanations(d, text_style)),
{
    let (hero_hand, board) = deal(rng, 4);
    let (stack_bb, pot_bb) = match difficulty {
        DifficultyLevel::Beginner => (100u32, draw_u32(rng, 14, 22)),
        DifficultyLevel::Intermediate => {
            let s = draw_u32(rng, 50, 130);
            let p = draw_u32(rng, 10, 28);
            (s, p)
        },
        DifficultyLevel::Advanced => {
            let s = draw_u32(rng, 25, 200);
            let p = draw_u32(rng, 8, 40);
            (s, p)
        },
    };
    let hero_pos = if coin_flip(rng) { Position::BTN } else { Position::CO };
    let d = BarrelDraw { hero_hand, board, stack_bb, pot_bb, hero_pos };
    let r = build_barrel(&d, scenario_id, text_style);
    assert(barrel_draw_valid(d, difficulty));
    r
}

/// Build the turn barrel scenario for draw `d`.
#[verifier::spinoff_prover]
#[verifier::rlimit(50)]
pub fn build_barrel(d: &BarrelDraw, scenario_id: String, text_style: TextStyle) -> (r: TrainingScenario)
    requires
        d.board@.len() == 4,
        d.stack_bb <= 200,
        d.pot_bb <= 40,
    ensures
        barrel_outcome(*d, scenario_id@, r),
        r.question@ == barrel_question(*d, text_style),
        explains(r, barrel_explanations(*d, text_style)),
{
    let hero_hand = d.hero_hand;
    let stack_bb = d.stack_bb;
    let pot_bb = d.pot_bb;
    let hero_pos = d.hero_pos;
    let flop = vstd::slice::slice_subrange(d.board.as_slice(), 0, 3);
    let turn = &d.board[3];

    let texture = board_texture(flop);
    let turn_type = classify_barrel_turn(flop, turn);

    let bb = 2u32;
    let pot = pot_bb * bb;
    let stack = stack_bb * bb;

    let players = heads_up(hero_pos, Position::BB, stack, stack);

    let branch_key = match turn_type {
        BarrelTurnCard::DrawComplete => "DrawComplete".to_owned(),
        BarrelTurnCard::ScareBroadway => "ScareBroadway".to_owned(),
        BarrelTurnCard::Blank => match texture {
            BoardTexture::Wet | BoardTexture::SemiWet => "Blank:Wet".to_owned(),
            BoardTexture::Dry => "Blank:Dry".to_owned(),
        },
    };

    let flop_str = board_str(flop);
    let hs = hand_str(hero_hand);
    let pos_str = hero_pos.name();
    let texture_str = texture.name();
    let turn_str = turn.text();

    let turn_label = match turn_type {
        BarrelTurnCard::Blank => "blank",
        BarrelTurnCard::ScareBroadway => "scare Broadway card",
        BarrelTurnCard::DrawComplete => "draw-completing card",
    };
    let turn_label_simple = match turn_type {
        BarrelTurnCard::Blank => "blank (doesn't help either player much)",
        BarrelTurnCard::ScareBroadway => "big card (J, Q, K, or A)",
        BarrelTurnCard::DrawComplete => "possible draw-completing card",
    };

    let question = match text_style {
        TextStyle::Simple => {
            let qs0 = num(pot as u64);
            let qs1 = num(stack as u64);
            let qs2 = num((pot / 2) as u64);
            let qs3 = num((pot * 4 / 5) as u64);
            let parts = ["You bet after the first three cards and your opponent called. You have ", hs.as_str(), " in ", pos_str, ". First three cards: ", flop_str.as_str(), ". Fourth card: ", turn_str.as_str(), " (a ", turn_label_simple, "). Pot: ", qs0.as_str(), " chips. Stack: ", qs1.as_str(), " chips. Your opponent checks to you. Options: check, bet medium (~", qs2.as_str(), " chips), bet big (~", qs3.as_str(), " chips). What do you do?"];
            proof {
                assert(views_of(parts@) =~= seq!["You bet after the first three cards and your opponent called. You have "@, hs@, " in "@, pos_str@, ". First three cards: "@, flop_str@, ". Fourth card: "@, turn_str@, " (a "@, turn_label_simple@, "). Pot: "@, qs0@, " chips. Stack: "@, qs1@, " chips. Your opponent checks to you. Options: check, bet medium (~"@, qs2@, " chips), bet big (~"@, qs3@, " chips). What do you do?"@]);
            }
            concat(&parts)
        },
        TextStyle::Technical => {
            let qt0 = num(pot as u64);
            let qt1 = num(pot_bb as u64);
            let qt2 = num(stack as u64);
            let qt3 = num(stack_bb as u64);
            let qt4 = num((pot / 2) as u64);
            let qt5 = num((pot * 4 / 5) as u64);
            let parts = ["You c-bet the flop and villain called. You hold ", hs.as_str(), " from ", pos_str, ". Flop: ", flop_str.as_str(), " (", texture_str, "). Turn: ", turn_str.as_str(), " (a ", turn_label, "). Pot is ", qt0.as_str(), " chips (", qt1.as_str(), " BB), stack ", qt2.as_str(), " chips (", qt3.as_str(), " BB). Villain checks to you. Bet options: medium (~50% pot = ", qt4.as_str(), " chips) or large (~80% pot = ", qt5.as_str(), " chips). What do you do?"];
            proof {
                assert(views_of(parts@) =~= seq!["You c-bet the flop and villain called. You hold "@, hs@, " from "@, pos_str@, ". Flop: "@, flop_str@, " ("@, texture_str@, "). Turn: "@, turn_str@, " (a "@, turn_label@, "). Pot is "@, qt0@, " chips ("@, qt1@, " BB), stack "@, qt2@, " chips ("@, qt3@, " BB). Villain checks to you. Bet options: medium (~50% pot = "@, qt4@, " chips) or large (~80% pot = "@, qt5@, " chips). What do you do?"@]);
            }
            concat(&parts)
        },
    };

    let correct: usize = match turn_type {
        BarrelTurnCard::DrawComplete => 0,
        BarrelTurnCard::ScareBroadway => 2,
        BarrelTurnCard::Blank => if texture == BoardTexture::Dry { 0 } else { 1 },
    };

    let check_exp = match text_style {
        TextStyle::Simple => match turn_type {
            BarrelTurnCard::DrawComplete => "Correct — check. The new card may have completed your opponent's draw. Betting here is risky — take a free look at the next card.".to_owned(),
            BarrelTurnCard::ScareBroadway => "Checking here lets your opponent off the hook. The big card actually helps your story — bet to take the pot.".to_owned(),
            BarrelTurnCard::Blank => {
                if correct == 0 {
                    "Correct — check. The new card doesn't change much on a dry board. No need to bet without a strong hand.".to_owned()
                } else {
                    "Checking gives your opponent a free card when draws are still possible. Bet to make them pay.".to_owned()
                }
            }
        },
        TextStyle::Technical => match turn_type {
            BarrelTurnCard::DrawComplete => {  let parts = ["Correct. The ", turn_str.as_str(), " completes potential draws — villain's check-calling range is now stronger and your bluff equity has collapsed. Checking back controls the pot and takes a free showdown or river spot."]; proof { assert(views_of(parts@) =~= seq!["Correct. The "@, turn_str@, " completes potential draws — villain's check-calling range is now stronger and your bluff equity has collapsed. Checking back controls the pot and takes a free showdown or river spot."@]); } concat(&parts) },
            BarrelTurnCard::ScareBroadway => {  let parts = ["The ", turn_str.as_str(), " is a scare card that actually hits your late-position preflop range harder than villain's calling range. Checking surrenders fold equity when barrelling is profitable."]; proof { assert(views_of(parts@) =~= seq!["The "@, turn_str@, " is a scare card that actually hits your late-position preflop range harder than villain's calling range. Checking surrenders fold equity when barrelling is profitable."@]); } concat(&parts) },
            BarrelTurnCard::Blank => {
                if correct == 0 {
                    {  let parts = ["Correct. On a ", texture_str, " dry board a blank turn (", turn_str.as_str(), ") gives you no reason to barrel without a value hand or clear draw. Checking back to control pot size is the strongest play."]; proof { assert(views_of(parts@) =~= seq!["Correct. On a "@, texture_str@, " dry board a blank turn ("@, turn_str@, ") gives you no reason to barrel without a value hand or clear draw. Checking back to control pot size is the strongest play."@]); } concat(&parts) }
                } else {
                    {  let parts = ["Checking on a ", texture_str, " board with draws still live gives villain a free card. You should charge draws with a medium-sized bet."]; proof { assert(views_of(parts@) =~= seq!["Checking on a "@, texture_str@, " board with draws still live gives villain a free card. You should charge draws with a medium-sized bet."@]); } concat(&parts) }
                }
            }
        },
    };

    let bet50_exp = match text_style {
        TextStyle::Simple => match turn_type {
            BarrelTurnCard::DrawComplete => "Betting into a possible completed draw is risky — your opponent may now have a better hand than you. Check.".to_owned(),
            BarrelTurnCard::ScareBroadway => "A medium bet works but a bigger bet puts more pressure on your opponent when the big card hits.".to_owned(),
            BarrelTurnCard::Blank => {
                if correct == 1 {
                    "Correct — bet medium. Draws are still possible and a medium bet makes it expensive for your opponent to chase them.".to_owned()
                } else {
                    "Betting medium on a dry board without a strong hand wastes chips. Check instead.".to_owned()
                }
            }
        },
        TextStyle::Technical => match turn_type {
            BarrelTurnCard::DrawComplete => {  let parts = ["Barrelling into a completed draw is a leak. The ", turn_str.as_str(), " strengthens villain's check-calling range; a bet risks getting check-raised or called by made hands that now beat you."]; proof { assert(views_of(parts@) =~= seq!["Barrelling into a completed draw is a leak. The "@, turn_str@, " strengthens villain's check-calling range; a bet risks getting check-raised or called by made hands that now beat you."@]); } concat(&parts) },
            BarrelTurnCard::ScareBroadway => {  let parts = ["A 50% pot bet is an option but undersizes the scare-card advantage. When a Broadway card (", turn_str.as_str(), ") hits, your polarised range can support a larger barrel to maximise fold equity from villain's medium-strength hands."]; proof { assert(views_of(parts@) =~= seq!["A 50% pot bet is an option but undersizes the scare-card advantage. When a Broadway card ("@, turn_str@, ") hits, your polarised range can support a larger barrel to maximise fold equity from villain's medium-strength hands."@]); } concat(&parts) },
            BarrelTurnCard::Blank => {
                if correct == 1 {
                    {  let parts = ["Correct. A ~50% pot barrel on a ", texture_str, " board gives villain incorrect pot odds to continue with flush draws (~20% equity on the turn). It charges draws without over-committing."]; proof { assert(views_of(parts@) =~= seq!["Correct. A ~50% pot barrel on a "@, texture_str@, " board gives villain incorrect pot odds to continue with flush draws (~20% equity on the turn). It charges draws without over-committing."@]); } concat(&parts) }
                } else {
                    {  let parts = ["Betting 50% pot on a ", texture_str, " dry board without a value hand or draw is a marginal bluff with little fold equity. Checking back is higher EV."]; proof { assert(views_of(parts@) =~= seq!["Betting 50% pot on a "@, texture_str@, " dry board without a value hand or draw is a marginal bluff with little fold equity. Checking back is higher EV."@]); } concat(&parts) }
                }
            }
        },
    };

    let bet80_exp = match text_style {
        TextStyle::Simple => match turn_type {
            BarrelTurnCard::DrawComplete => "Betting big into a possible completed draw is a big mistake — you could be betting into a made hand.".to_owned(),
            BarrelTurnCard::ScareBroadway => "Correct — bet big! The big card (J/Q/K/A) looks scary to your opponent and suggests you have a strong hand. A big bet here forces tough decisions.".to_owned(),
            BarrelTurnCard::Blank => "Betting big without a good reason on this board is too aggressive. Check or bet medium.".to_owned(),
        },
        TextStyle::Technical => match turn_type {
            BarrelTurnCard::DrawComplete => {  let parts = ["A large barrel into a completed draw board is a significant mistake. Villain's check-calling range is polarised toward made hands after the ", turn_str.as_str(), "; an 80% pot bet as a bluff has very low fold equity and costs you a lot when called."]; proof { assert(views_of(parts@) =~= seq!["A large barrel into a completed draw board is a significant mistake. Villain's check-calling range is polarised toward made hands after the "@, turn_str@, "; an 80% pot bet as a bluff has very low fold equity and costs you a lot when called."@]); } concat(&parts) },
            BarrelTurnCard::ScareBroadway => {  let parts = ["Correct. An ~80% pot barrel on the ", turn_str.as_str(), " leverages the scare card to maximise fold equity. Your range (opening from ", pos_str, ") is heavily weighted toward Broadway cards, making this bet highly credible and difficult for villain's medium pairs and draws to continue against."]; proof { assert(views_of(parts@) =~= seq!["Correct. An ~80% pot barrel on the "@, turn_str@, " leverages the scare card to maximise fold equity. Your range (opening from "@, pos_str@, ") is heavily weighted toward Broadway cards, making this bet highly credible and difficult for villain's medium pairs and draws to continue against."@]); } concat(&parts) },
            BarrelTurnCard::Blank => {  let parts = ["An 80% pot bet on a blank turn without a strong hand or draw over-commits resources. Size down or check back — large barrels on ", texture_str, " boards without the nuts can become difficult to follow through on the river."]; proof { assert(views_of(parts@) =~= seq!["An 80% pot bet on a blank turn without a strong hand or draw over-commits resources. Size down or check back — large barrels on "@, texture_str@, " boards without the nuts can become difficult to follow through on the river."@]); } concat(&parts) },
        },
    };

    let explanation_0 = check_exp;
    let explanation_1 = bet50_exp;
    let explanation_2 = bet80_exp;
    let answers = vec![
        option_at(0, "Check".to_owned(), correct, explanation_0),
        option_at(1, "Bet medium".to_owned(), correct, explanation_1),
        option_at(2, "Bet large".to_owned(), correct, explanation_2),
    ];

    scenario(
        scenario_id,
        TrainingTopic::TurnBarrelDecision,
        branch_key,
        GameType::CashGame,
        hero_pos,
        hero_hand,
        d.board.clone(),
        players,
        pot,
        0,
        question,
        answers,
    )
}

// ═══════════════════════════════════════════════════════════════════════════════
// T15 — Turn Probe Bet (PB-)
//
// Hero is in the Big Blind (OOP).  Both players checked the flop — villain's
// range is capped (no sets, no strong top pairs).  On the turn hero can
// "probe" — bet to exploit villain's capped range:
//   - Strong hand → large probe (~70% pot) for max value
//   - Medium hand → small probe (~40% pot) for thin value
//   - Weak hand   → check (no equity to justify a bluff)
// ═══════════════════════════════════════════════════════════════════════════════

/// Hero's hand strength for the probe-bet decision.
#[derive(Debug, Clone, Copy, PartialEq, Eq, Structural)]
pub enum ProbeStrength {
    Strong,
    Medium,
    Weak,
}

impl ProbeStrength {
    /// The text that `name` returns.
    pub open spec fn name_text(self) -> Seq<char> {
        match self {
            ProbeStrength::Strong => "strong (top pair+ / strong draw)"@,
            ProbeStrength::Medium => "medium (middle pair / weak draw)"@,
            ProbeStrength::Weak => "weak (bottom pair / air)"@,
        }
    }

    /// Human-readable description.
    pub fn name(&self) -> (s: &'static str)
        ensures
            s@ == self.name_text(),
    {
        match self {
            ProbeStrength::Strong => "strong (top pair+ / strong draw)",
            ProbeStrength::Medium => "medium (middle pair / weak draw)",
            ProbeStrength::Weak => "weak (bottom pair / air)",
        }
    }
}

/// Plain-words strength of a probe-bet hand.
pub open spec fn probe_simple_text(ps: ProbeStrength) -> Seq<char> {
    match ps {
        ProbeStrength::Strong => "strong hand"@,
        ProbeStrength::Medium => "medium hand"@,
        ProbeStrength::Weak => "weak hand"@,
    }
}

fn probe_strength_simple(ps: ProbeStrength) -> (r: &'static str)
    ensures
        r@ == probe_simple_text(ps),
{
    match ps {
        ProbeStrength::Strong => "strong hand",
        ProbeStrength::Medium => "medium hand",
        ProbeStrength::Weak => "weak hand",
    }
}

/// Pot and stack (in big blinds) of a turn spot after a checked flop.
pub open spec fn turn_sizes_valid(pot_bb: u32, stack_bb: u32, diff: DifficultyLevel) -> bool {
    match diff {
        DifficultyLevel::Beginner => 6 <= pot_bb <= 14 && stack_bb == 80,
        DifficultyLevel::Intermediate => 4 <= pot_bb <= 20 && 40 <= stack_bb <= 100,
        DifficultyLevel::Advanced => 4 <= pot_bb <= 30 && 20 <= stack_bb <= 150,
    }
}

/// Draw the pot, then the stack, for a turn spot after a checked flop.
fn draw_turn_sizes(rng: &mut StdRng, difficulty: DifficultyLevel) -> (r: (u32, u32))
    ensures
        turn_sizes_valid(r.0, r.1, difficulty),
{
    match difficulty {
        DifficultyLevel::Beginner => (draw_u32(rng, 6, 14), 80u32),
        DifficultyLevel::Intermediate => {
            let p = draw_u32(rng, 4, 20);
            let s = draw_u32(rng, 40, 100);
            (p, s)
        },
        DifficultyLevel::Advanced => {
            let p = draw_u32(rng, 4, 30);
            let s = draw_u32(rng, 20, 150);
            (p, s)
        },
    }
}

/// Everything drawn at random for a probe spot; `board` is flop and turn.
pub struct ProbeDraw {
    pub hero_hand: [Card; 2],
    pub board: Vec<Card>,
    pub strength: ProbeStrength,
    pub pot_bb: u32,
    pub stack_bb: u32,
}

pub open spec fn probe_draw_valid(d: ProbeDraw, diff: DifficultyLevel) -> bool {
    &&& d.board@.len() == 4
    &&& fresh_cards(d.hero_hand@, d.board@)
    &&& turn_sizes_valid(d.pot_bb, d.stack_bb, diff)
}

/// Probe large (C) a strong hand, small (B) a medium one, check (A) a weak one.
pub open spec fn probe_correct(s: ProbeStrength) -> int {
    match s {
        ProbeStrength::Strong => 2,
        ProbeStrength::Medium => 1,
        ProbeStrength::Weak => 0,
    }
}

pub open spec fn probe_branch(s: ProbeStrength) -> Seq<char> {
    match s {
        ProbeStrength::Strong => "Strong:ProbeLarge"@,
        ProbeStrength::Medium => "Medium:ProbeSmall"@,
        ProbeStrength::Weak => "Weak:Check"@,
    }
}

/// Probe scenario: hero in the Big Blind, the Button listed first.
pub open spec fn probe_decision(d: ProbeDraw) -> Decision {
    let stack = (d.stack_bb * 2) as u32;
    Decision {
        topic: TrainingTopic::TurnProbeBet,
        branch: probe_branch(d.strength),
        game_type: GameType::CashGame,
        hero_pos: Position::BB,
        hand: d.hero_hand,
        board: d.board@,
        players: heads_up_spec(Position::BB, Position::BTN, stack, stack),
        pot: (d.pot_bb * 2) as u32,
        bet: 0,
        answers: 3,
        labels: seq![
            "Check"@,
            "Probe small ("@ + decimal(div_round_half_up(d.pot_bb * 2 * 40, 100) as nat) + " chips ~40%)"@,
            "Probe large ("@ + decimal(div_round_half_up(d.pot_bb * 2 * 70, 100) as nat) + " chips ~70%)"@,
        ],
        correct: probe_correct(d.strength),
    }
}

/// Every text of a scenario built from `d` is non-empty: the question, the
/// branch key, and each answer's label and explanation.
#[verifier::spinoff_prover]
#[verifier::rlimit(50)]
pub proof fn lemma_probe_texts_nonempty(d: ProbeDraw, ts: TextStyle)
    ensures
        probe_question(d, ts).len() > 0,
        probe_decision(d).branch.len() > 0,
        forall|i: int| 0 <= i < probe_decision(d).labels.len() ==> #[trigger] probe_decision(d).labels[i].len() > 0,
        forall|i: int| 0 <= i < probe_explanations(d, ts).len() ==> #[trigger] probe_explanations(d, ts)[i].len() > 0,
{
    reveal_strlit(" chips). What do you do?");
    reveal_strlit(" chips ~70%). What do you do?");
    reveal_strlit(" in this OOP probe spot is right. You have no equity justification to bet — a probe would be a pure bluff into a player who checked back the flop (a capped but still medium-strong range). Check, and consider check-folding if villain bets.");
    reveal_strlit(" when you can take the initiative is too passive. Villain checked back the flop — their range is capped (no sets, no strong top pairs). Use that information and probe to build the pot or apply pressure.");
    reveal_strlit(" is the best line. Your hand has some equity (a pair or draw) and a small bet applies pressure without over-committing. If called, you have reasonable pot odds for a river bet or free showdown. If raised, you can fold without a catastrophic loss.");
    reveal_strlit(" undersizes the value available. Villain's flop check-back range includes top pairs and floats — a larger probe (~70%) extracts more from one-pair hands and charges any draws more effectively.");
    reveal_strlit(" is a bluff with poor equity. Villain may have floated the flop with a medium hand and will call or raise. Without equity to fall back on, this bet risks chips without justification.");
    reveal_strlit(" is the highest-EV play. Villain's check-back range is capped and contains many one-pair and draw hands. A larger bet extracts maximum value, charges draws effectively, and builds a significant pot worth fighting for on the river.");
    reveal_strlit(" over-commits to a hand with moderate equity. If raised, you face a tough spot with a middle pair or weak draw. A smaller probe (~40%) achieves semi-bluff value at lower risk.");
    reveal_strlit(" is a high-risk bluff with minimal equity. Villain's check-back range often contains medium-strength hands that call or raise large bets. Check to preserve your stack.");
    reveal_strlit("Correct — check. Your hand is weak and your opponent didn't bet on the flop — no reason to bet now.");
    reveal_strlit("Checking here misses an opportunity. Your hand is strong enough to bet and take the pot.");
    reveal_strlit("Correct — bet small. Your hand is decent but not great. A small bet tests the water and may win the pot without risking too much.");
    reveal_strlit("A small bet doesn't do enough here — bet bigger to put real pressure on, or just check.");
    reveal_strlit("Correct — bet big! You have a strong hand and the Button didn't bet after the flop (a sign of weakness). Take the pot now with a big bet.");
    reveal_strlit("Betting big here is too aggressive for your hand strength. Bet small or check.");
    reveal_strlit("Check");
    reveal_strlit("Probe small (");
    reveal_strlit(" chips ~40%)");
    reveal_strlit("Probe large (");
    reveal_strlit(" chips ~70%)");
    reveal_strlit("Strong:ProbeLarge");
    reveal_strlit("Medium:ProbeSmall");
    reveal_strlit("Weak:Check");
}

/// No text of a scenario built from `d` in text style `ts` is empty.
pub proof fn lemma_probe_scenario_texts(d: ProbeDraw, ts: TextStyle, id: Seq<char>, r: TrainingScenario)
    requires
        probe_outcome(d, id, r),
        r.question@ == probe_question(d, ts),
        explains(r, probe_explanations(d, ts)),
    ensures
        texts_non_empty(r),
{
    lemma_probe_texts_nonempty(d, ts);
    lemma_texts_shown(r, id, probe_decision(d), probe_question(d, ts), probe_explanations(d, ts));
}

/// The scenario shows `probe_decision(d)` under `id`.
pub open spec fn probe_outcome(d: ProbeDraw, id: Seq<char>, r: TrainingScenario) -> bool {
    shows(r, id, probe_decision(d))
}

/// The explanations of the answers of a turn probe scenario, in text style `ts`.
pub open spec fn probe_explanations(d: ProbeDraw, ts: TextStyle) -> Seq<Seq<char>> {
    let strength = d.strength;
    let strength_s = strength.name_text();
    seq![
        match ts {
                TextStyle::Simple => match strength {
                    ProbeStrength::Weak => "Correct — check. Your hand is weak and your opponent didn't bet on the flop — no reason to bet now."@,
                    _ => "Checking here misses an opportunity. Your hand is strong enough to bet and take the pot."@,
                },
                TextStyle::Technical => match strength {
                    ProbeStrength::Weak => concat_spec(seq!["Correct. Checking a "@, strength_s, " in this OOP probe spot is right. You have no equity justification to bet — a probe would be a pure bluff into a player who checked back the flop (a capped but still medium-strong range). Check, and consider check-folding if villain bets."@]),
                    _ => concat_spec(seq!["Checking a "@, strength_s, " when you can take the initiative is too passive. Villain checked back the flop — their range is capped (no sets, no strong top pairs). Use that information and probe to build the pot or apply pressure."@]),
                },
            },
        match ts {
                TextStyle::Simple => match strength {
                    ProbeStrength::Medium => "Correct — bet small. Your hand is decent but not great. A small bet tests the water and may win the pot without risking too much."@,
                    ProbeStrength::Strong => "A small bet doesn't do enough here — bet bigger to put real pressure on, or just check."@,
                    ProbeStrength::Weak   => "A small bet doesn't do enough here — bet bigger to put real pressure on, or just check."@,
                },
                TextStyle::Technical => match strength {
                    ProbeStrength::Medium => concat_spec(seq!["Correct. A small probe (~40% pot) with a "@, strength_s, " is the best line. Your hand has some equity (a pair or draw) and a small bet applies pressure without over-committing. If called, you have reasonable pot odds for a river bet or free showdown. If raised, you can fold without a catastrophic loss."@]),
                    ProbeStrength::Strong => concat_spec(seq!["A small probe with a "@, strength_s, " undersizes the value available. Villain's flop check-back range includes top pairs and floats — a larger probe (~70%) extracts more from one-pair hands and charges any draws more effectively."@]),
                    ProbeStrength::Weak => concat_spec(seq!["Probing small with a "@, strength_s, " is a bluff with poor equity. Villain may have floated the flop with a medium hand and will call or raise. Without equity to fall back on, this bet risks chips without justification."@]),
                },
            },
        match ts {
                TextStyle::Simple => match strength {
                    ProbeStrength::Strong => "Correct — bet big! You have a strong hand and the Button didn't bet after the flop (a sign of weakness). Take the pot now with a big bet."@,
                    ProbeStrength::Medium => "Betting big here is too aggressive for your hand strength. Bet small or check."@,
                    ProbeStrength::Weak   => "Betting big here is too aggressive for your hand strength. Bet small or check."@,
                },
                TextStyle::Technical => match strength {
                    ProbeStrength::Strong => concat_spec(seq!["Correct. A large probe (~70% pot) with a "@, strength_s, " is the highest-EV play. Villain's check-back range is capped and contains many one-pair and draw hands. A larger bet extracts maximum value, charges draws effectively, and builds a significant pot worth fighting for on the river."@]),
                    ProbeStrength::Medium => concat_spec(seq!["A large probe with a "@, strength_s, " over-commits to a hand with moderate equity. If raised, you face a tough spot with a middle pair or weak draw. A smaller probe (~40%) achieves semi-bluff value at lower risk."@]),
                    ProbeStrength::Weak => concat_spec(seq!["Probing large with a "@, strength_s, " is a high-risk bluff with minimal equity. Villain's check-back range often contains medium-strength hands that call or raise large bets. Check to preserve your stack."@]),
                },
            },
    ]
}

/// The question of a turn probe scenario in text style `ts`.
pub open spec fn probe_question(d: ProbeDraw, ts: TextStyle) -> Seq<char> {
    let pot = d.pot_bb * 2;
    let stack = d.stack_bb * 2;
    let small = div_round_half_up(pot * 40, 100);
    let large = div_round_half_up(pot * 70, 100);
    match ts {
        TextStyle::Simple => concat_spec(seq!["Both players checked after the first three cards. Fourth card: "@, board_chars(d.board@), ". You have "@, hand_chars(d.hero_hand), " ("@, probe_simple_text(d.strength), ") in the Big Blind (you act first). Pot: "@, decimal(pot as nat), " chips. Stack: "@, decimal(stack as nat), " chips. Options: check, bet small ("@, decimal(small as nat), " chips), bet big ("@, decimal(large as nat), " chips). What do you do?"@]),
        TextStyle::Technical => concat_spec(seq!["Turn probe spot. You hold "@, hand_chars(d.hero_hand), " ("@, d.strength.name_text(), ") in the Big Blind (OOP). The flop was checked through by both players. Board (flop + turn): "@, board_chars(d.board@), ". Pot: "@, decimal(pot as nat), " chips ("@, decimal(d.pot_bb as nat), " BB). Stack: "@, decimal(stack as nat), " chips. You are first to act on the turn. Probe options: small ("@, decimal(small as nat), " chips ~40%), large ("@, decimal(large as nat), " chips ~70%). What do you do?"@]),
    }
}

/// T15 — Turn Probe Bet (PB-).
///
/// Hero's strength is a drawn label (strong, medium or weak), not read from
/// the dealt cards: the topic's classes count draws (a strong draw is
/// strong, a weak draw medium), which the made-hand classifier of the
/// delayed c-bet does not see, and the topic's rule is stated over the
/// label, which decides the probe sizing.
///
/// RNG order: shuffled deck → hand and board → strength (one of three) →
/// pot → stack.
pub fn generate_probe(
    rng: &mut StdRng,
    difficulty: DifficultyLevel,
    scenario_id: String,
    text_style: TextStyle,
) -> (r: TrainingScenario)
    ensures
        exists|d: ProbeDraw|
            probe_draw_valid(d, difficulty) && #[trigger] probe_outcome(d, scenario_id@, r) && r.question@
                == probe_question(d, text_style) && explains(r, probe_explanations(d, text_style)),
{
    let (hero_hand, board) = deal(rng, 4);
    let strength = match draw_u32(rng, 0, 2) {
        0 => ProbeStrength::Strong,
        1 => ProbeStrength::Medium,
        _ => ProbeStrength::Weak,
    };
    let (pot_bb, stack_bb) = draw_turn_sizes(rng, difficulty);
    let d = ProbeDraw { hero_hand, board, strength, pot_bb, stack_bb };
    let r = build_probe(&d, scenario_id, text_style);
    assert(probe_draw_valid(d, difficulty));
    r
}

/// Build the probe scenario for draw `d`.
#[verifier::spinoff_prover]
#[verifier::rlimit(50)]
pub fn build_probe(d: &ProbeDraw, scenario_id: String, text_style: TextStyle) -> (r: TrainingScenario)
    requires
        d.pot_bb <= 30,
        d.stack_bb <= 150,
    ensures
        probe_outcome(*d, scenario_id@, r),
        r.question@ == probe_question(*d, text_style),
        explains(r, probe_explanations(*d, text_style)),
{
    let hero_hand = d.hero_hand;
    let strength = d.strength;
    let pot_bb = d.pot_bb;
    let stack_bb = d.stack_bb;

    let bb = 2u32;
    let pot = pot_bb * bb;
    let stack = stack_bb * bb;

    let small_probe = pct_of_pot(pot, 40);
    let large_probe = pct_of_pot(pot, 70);

    let correct: usize = match strength {
        ProbeStrength::Strong => 2,
        ProbeStrength::Medium => 1,
        ProbeStrength::Weak => 0,
    };

    let branch_key = match strength {
        ProbeStrength::Strong => "Strong:ProbeLarge".to_owned(),
        ProbeStrength::Medium => "Medium:ProbeSmall".to_owned(),
        ProbeStrength::Weak => "Weak:Check".to_owned(),
    };

    let hero_pos = Position::BB;
    let hs = hand_str(hero_hand);
    let bs = board_str(d.board.as_slice());
    let strength_simple = probe_strength_simple(strength);
    let strength_s = strength.name();

    let question = match text_style {
        TextStyle::Simple => {
            let qs0 = num(pot as u64);
            let qs1 = num(stack as u64);
            let qs2 = num(small_probe as u64);
            let qs3 = num(large_probe as u64);
            let parts = ["Both players checked after the first three cards. Fourth card: ", bs.as_str(), ". You have ", hs.as_str(), " (", strength_simple, ") in the Big Blind (you act first). Pot: ", qs0.as_str(), " chips. Stack: ", qs1.as_str(), " chips. Options: check, bet small (", qs2.as_str(), " chips), bet big (", qs3.as_str(), " chips). What do you do?"];
            proof {
                assert(views_of(parts@) =~= seq!["Both players checked after the first three cards. Fourth card: "@, bs@, ". You have "@, hs@, " ("@, strength_simple@, ") in the Big Blind (you act first). Pot: "@, qs0@, " chips. Stack: "@, qs1@, " chips. Options: check, bet small ("@, qs2@, " chips), bet big ("@, qs3@, " chips). What do you do?"@]);
            }
            concat(&parts)
        },
        TextStyle::Technical => {
            let qt0 = num(pot as u64);
            let qt1 = num(pot_bb as u64);
            let qt2 = num(stack as u64);
            let qt3 = num(small_probe as u64);
            let qt4 = num(large_probe as u64);
            let parts = ["Turn probe spot. You hold ", hs.as_str(), " (", strength_s, ") in the Big Blind (OOP). The flop was checked through by both players. Board (flop + turn): ", bs.as_str(), ". Pot: ", qt0.as_str(), " chips (", qt1.as_str(), " BB). Stack: ", qt2.as_str(), " chips. You are first to act on the turn. Probe options: small (", qt3.as_str(), " chips ~40%), large (", qt4.as_str(), " chips ~70%). What do you do?"];
            proof {
                assert(views_of(parts@) =~= seq!["Turn probe spot. You hold "@, hs@, " ("@, strength_s@, ") in the Big Blind (OOP). The flop was checked through by both players. Board (flop + turn): "@, bs@, ". Pot: "@, qt0@, " chips ("@, qt1@, " BB). Stack: "@, qt2@, " chips. You are first to act on the turn. Probe options: small ("@, qt3@, " chips ~40%), large ("@, qt4@, " chips ~70%). What do you do?"@]);
            }
            concat(&parts)
        },
    };

    let explanation_0 = match text_style {
                TextStyle::Simple => match strength {
                    ProbeStrength::Weak => "Correct — check. Your hand is weak and your opponent didn't bet on the flop — no reason to bet now.".to_owned(),
                    _ => "Checking here misses an opportunity. Your hand is strong enough to bet and take the pot.".to_owned(),
                },
                TextStyle::Technical => match strength {
                    ProbeStrength::Weak => {  let parts = ["Correct. Checking a ", strength_s, " in this OOP probe spot is right. You have no equity justification to bet — a probe would be a pure bluff into a player who checked back the flop (a capped but still medium-strong range). Check, and consider check-folding if villain bets."]; proof { assert(views_of(parts@) =~= seq!["Correct. Checking a "@, strength_s@, " in this OOP probe spot is right. You have no equity justification to bet — a probe would be a pure bluff into a player who checked back the flop (a capped but still medium-strong range). Check, and consider check-folding if villain bets."@]); } concat(&parts) },
                    _ => {  let parts = ["Checking a ", strength_s, " when you can take the initiative is too passive. Villain checked back the flop — their range is capped (no sets, no strong top pairs). Use that information and probe to build the pot or apply pressure."]; proof { assert(views_of(parts@) =~= seq!["Checking a "@, strength_s@, " when you can take the initiative is too passive. Villain checked back the flop — their range is capped (no sets, no strong top pairs). Use that information and probe to build the pot or apply pressure."@]); } concat(&parts) },
                },
            };
    let explanation_1 = match text_style {
                TextStyle::Simple => match strength {
                    ProbeStrength::Medium => "Correct — bet small. Your hand is decent but not great. A small bet tests the water and may win the pot without risking too much.".to_owned(),
                    ProbeStrength::Strong => "A small bet doesn't do enough here — bet bigger to put real pressure on, or just check.".to_owned(),
                    ProbeStrength::Weak   => "A small bet doesn't do enough here — bet bigger to put real pressure on, or just check.".to_owned(),
                },
                TextStyle::Technical => match strength {
                    ProbeStrength::Medium => {  let parts = ["Correct. A small probe (~40% pot) with a ", strength_s, " is the best line. Your hand has some equity (a pair or draw) and a small bet applies pressure without over-committing. If called, you have reasonable pot odds for a river bet or free showdown. If raised, you can fold without a catastrophic loss."]; proof { assert(views_of(parts@) =~= seq!["Correct. A small probe (~40% pot) with a "@, strength_s@, " is the best line. Your hand has some equity (a pair or draw) and a small bet applies pressure without over-committing. If called, you have reasonable pot odds for a river bet or free showdown. If raised, you can fold without a catastrophic loss."@]); } concat(&parts) },
                    ProbeStrength::Strong => {  let parts = ["A small probe with a ", strength_s, " undersizes the value available. Villain's flop check-back range includes top pairs and floats — a larger probe (~70%) extracts more from one-pair hands and charges any draws more effectively."]; proof { assert(views_of(parts@) =~= seq!["A small probe with a "@, strength_s@, " undersizes the value available. Villain's flop check-back range includes top pairs and floats — a larger probe (~70%) extracts more from one-pair hands and charges any draws more effectively."@]); } concat(&parts) },
                    ProbeStrength::Weak => {  let parts = ["Probing small with a ", strength_s, " is a bluff with poor equity. Villain may have floated the flop with a medium hand and will call or raise. Without equity to fall back on, this bet risks chips without justification."]; proof { assert(views_of(parts@) =~= seq!["Probing small with a "@, strength_s@, " is a bluff with poor equity. Villain may have floated the flop with a medium hand and will call or raise. Without equity to fall back on, this bet risks chips without justification."@]); } concat(&parts) },
                },
            };
    let explanation_2 = match text_style {
                TextStyle::Simple => match strength {
                    ProbeStrength::Strong => "Correct — bet big! You have a strong hand and the Button didn't bet after the flop (a sign of weakness). Take the pot now with a big bet.".to_owned(),
                    ProbeStrength::Medium => "Betting big here is too aggressive for your hand strength. Bet small or check.".to_owned(),
                    ProbeStrength::Weak   => "Betting big here is too aggressive for your hand strength. Bet small or check.".to_owned(),
                },
                TextStyle::Technical => match strength {
                    ProbeStrength::Strong => {  let parts = ["Correct. A large probe (~70% pot) with a ", strength_s, " is the highest-EV play. Villain's check-back range is capped and contains many one-pair and draw hands. A larger bet extracts maximum value, charges draws effectively, and builds a significant pot worth fighting for on the river."]; proof { assert(views_of(parts@) =~= seq!["Correct. A large probe (~70% pot) with a "@, strength_s@, " is the highest-EV play. Villain's check-back range is capped and contains many one-pair and draw hands. A larger bet extracts maximum value, charges draws effectively, and builds a significant pot worth fighting for on the river."@]); } concat(&parts) },
                    ProbeStrength::Medium => {  let parts = ["A large probe with a ", strength_s, " over-commits to a hand with moderate equity. If raised, you face a tough spot with a middle pair or weak draw. A smaller probe (~40%) achieves semi-bluff value at lower risk."]; proof { assert(views_of(parts@) =~= seq!["A large probe with a "@, strength_s@, " over-commits to a hand with moderate equity. If raised, you face a tough spot with a middle pair or weak draw. A smaller probe (~40%) achieves semi-bluff value at lower risk."@]); } concat(&parts) },
                    ProbeStrength::Weak => {  let parts = ["Probing large with a ", strength_s, " is a high-risk bluff with minimal equity. Villain's check-back range often contains medium-strength hands that call or raise large bets. Check to preserve your stack."]; proof { assert(views_of(parts@) =~= seq!["Probing large with a "@, strength_s@, " is a high-risk bluff with minimal equity. Villain's check-back range often contains medium-strength hands that call or raise large bets. Check to preserve your stack."@]); } concat(&parts) },
                },
            };
    let answers = vec![
        option_at(0, "Check".to_owned(), correct, explanation_0),
        option_at(1, cat3("Probe small (", num(small_probe as u64).as_str(), " chips ~40%)"), correct, explanation_1),
        option_at(2, cat3("Probe large (", num(large_probe as u64).as_str(), " chips ~70%)"), correct, explanation_2),
    ];


    let players = heads_up(hero_pos, Position::BTN, stack, stack);
    scenario(
        scenario_id,
        TrainingTopic::TurnProbeBet,
        branch_key,
        GameType::CashGame,
        hero_pos,
        hero_hand,
        d.board.clone(),
        players,
        pot,
        0,
        question,
        answers,
    )
}

// ═══════════════════════════════════════════════════════════════════════════════
// T16 — Delayed C-Bet (DC-)
//
// Hero opened from BTN, BB called, and hero checked back the flop (no c-bet).
// On the turn hero can fire a "delayed c-bet".  Decision matrix:
//   - Strong hand (any turn)       → medium c-bet (~60%)
//   - Medium hand + Blank turn     → small c-bet (~33%)
//   - Medium hand + Scare turn     → check (pot control)
//   - Weak hand   (any turn)       → check (no equity to bluff)
// ═══════════════════════════════════════════════════════════════════════════════

/// Hero's hand strength on a 4-card board.
#[derive(Debug, Clone, Copy, PartialEq, Eq, Structural)]
pub enum TurnStrength {
    Strong,
    Medium,
    Weak,
}

impl TurnStrength {
    /// The text that `name` returns.
    pub open spec fn name_text(self) -> Seq<char> {
        match self {
            TurnStrength::Strong => "strong (overpair / top pair good kicker / two pair / set)"@,
            TurnStrength::Medium => "medium (middle pair / weak top pair / underpair)"@,
            TurnStrength::Weak => "weak (missed / low pair / air)"@,
        }
    }

    /// Human-readable description.
    pub fn name(&self) -> (s: &'static str)
        ensures
            s@ == self.name_text(),
    {
        match self {
            TurnStrength::Strong => "strong (overpair / top pair good kicker / two pair / set)",
            TurnStrength::Medium => "medium (middle pair / weak top pair / underpair)",
            TurnStrength::Weak => "weak (missed / low pair / air)",
        }
    }
}

/// Plain-words strength of a delayed c-bet hand.
pub open spec fn delayed_simple_text(s: TurnStrength) -> Seq<char> {
    match s {
        TurnStrength::Strong => "strong hand"@,
        TurnStrength::Medium => "medium hand"@,
        TurnStrength::Weak => "weak hand"@,
    }
}

fn delayed_strength_simple(s: TurnStrength) -> (r: &'static str)
    ensures
        r@ == delayed_simple_text(s),
{
    match s {
        TurnStrength::Strong => "strong hand",
        TurnStrength::Medium => "medium hand",
        TurnStrength::Weak => "weak hand",
    }
}

/// Hand strength against the board:
/// - a pocket pair is strong when it makes a set or is an overpair, else medium;
/// - two unpaired hole cards that both pair the board are strong;
/// - one paired hole card is strong when it pairs the top board rank with a
///   kicker of Jack or better, else medium;
/// - otherwise weak.
pub open spec fn turn_strength_spec(hand: Seq<Card>, board: Seq<Card>) -> TurnStrength {
    let h0 = hand[0].rank.0 as int;
    let h1 = hand[1].rank.0 as int;
    let top = max_rank(board);
    let on0 = rank_on_board(board, h0);
    let on1 = rank_on_board(board, h1);
    if h0 == h1 {
        if on0 || h0 > top { TurnStrength::Strong } else { TurnStrength::Medium }
    } else if on0 && on1 {
        TurnStrength::Strong
    } else if on0 || on1 {
        let paired = if on0 { h0 } else { h1 };
        let kicker = if on0 { h1 } else { h0 };
        if paired == top && kicker >= 11 { TurnStrength::Strong } else { TurnStrength::Medium }
    } else {
        TurnStrength::Weak
    }
}

/// Classify hero's hand strength on the board.
pub fn classify_turn_strength(hero: [Card; 2], board: &[Card]) -> (s: TurnStrength)
    ensures
        s == turn_strength_spec(hero@, board@),
{
    let h0 = hero[0].rank.0;
    let h1 = hero[1].rank.0;
    let high = if h0 >= h1 { h0 } else { h1 };
    let board_max = highest_rank(board);

    let pocket_pair = h0 == h1;
    let matches_h0 = has_rank(board, h0);
    let matches_h1 = has_rank(board, h1);

    if pocket_pair {
        if matches_h0 {
            return TurnStrength::Strong;
        }
        if high > board_max {
            return TurnStrength::Strong;
        }
        return TurnStrength::Medium;
    }

    let paired_both = matches_h0 && matches_h1;
    let paired_any = matches_h0 || matches_h1;

    if paired_both {
        return TurnStrength::Strong;
    }

    if paired_any {
        let paired_rank = if matches_h0 { h0 } else { h1 };
        if paired_rank == board_max {
            let kicker = if paired_rank == h0 { h1 } else { h0 };
            if kicker >= 11 {
                return TurnStrength::Strong;
            }
            return TurnStrength::Medium;
        }
        return TurnStrength::Medium;
    }

    TurnStrength::Weak
}

/// How the turn card changes the flop.
#[derive(Debug, Clone, Copy, PartialEq, Eq, Structural)]
pub enum TurnCard {
    Blank,
    Scare,
}

/// Scare when the turn overcards the flop, is the third card of a flop suit,
/// or makes four distinct ranks within a span of four; otherwise Blank.
pub open spec fn turn_card_spec(flop: Seq<Card>, turn: Card) -> TurnCard {
    if turn.rank.0 > max_rank(flop) {
        TurnCard::Scare
    } else if count_suit(flop, turn.suit) >= 2 {
        TurnCard::Scare
    } else if four_close_ranks(with_turn(flop, turn)) {
        TurnCard::Scare
    } else {
        TurnCard::Blank
    }
}

/// Classify the turn card against the flop.
pub fn classify_turn_card(flop: &[Card], turn: &Card) -> (t: TurnCard)
    ensures
        t == turn_card_spec(flop@, *turn),
{
    let flop_max = highest_rank(flop);
    if turn.rank.0 > flop_max {
        return TurnCard::Scare;
    }
    let turn_suit_count = suit_count(flop, turn.suit);
    if turn_suit_count >= 2 {
        return TurnCard::Scare;
    }
    let all_ranks = flop_and_turn(flop, turn);
    if has_four_close_ranks(all_ranks.as_slice()) {
        return TurnCard::Scare;
    }
    TurnCard::Blank
}

/// Everything drawn at random for a delayed c-bet spot; `board` is flop and turn.
pub struct DelayedDraw {
    pub hero_hand: [Card; 2],
    pub board: Vec<Card>,
    pub pot_bb: u32,
    pub stack_bb: u32,
}

pub open spec fn delayed_draw_valid(d: DelayedDraw, diff: DifficultyLevel) -> bool {
    &&& d.board@.len() == 4
    &&& fresh_cards(d.hero_hand@, d.board@)
    &&& turn_sizes_valid(d.pot_bb, d.stack_bb, diff)
}

/// The turn card of a 4-card board, classified against its flop.
pub open spec fn turn_card_of(board: Seq<Card>) -> TurnCard {
    turn_card_spec(board.subrange(0, 3), board[3])
}

/// Medium c-bet (C) a strong hand; small c-bet (B) a medium hand on a blank;
/// check (A) a medium hand on a scare card and any weak hand.
pub open spec fn delayed_correct(s: TurnStrength, t: TurnCard) -> int {
    match (s, t) {
        (TurnStrength::Strong, _) => 2,
        (TurnStrength::Medium, TurnCard::Blank) => 1,
        _ => 0,
    }
}

pub open spec fn delayed_branch(s: TurnStrength, t: TurnCard) -> Seq<char> {
    (match s {
        TurnStrength::Strong => "Strong"@,
        TurnStrength::Medium => "Medium"@,
        TurnStrength::Weak => "Weak"@,
    }) + ":"@ + (match t {
        TurnCard::Blank => "Blank"@,
        TurnCard::Scare => "Scare"@,
    })
}

/// Delayed c-bet scenario: hero on the Button, the Big Blind listed first.
pub open spec fn delayed_decision(d: DelayedDraw) -> Decision {
    let s = turn_strength_spec(d.hero_hand@, d.board@);
    let t = turn_card_of(d.board@);
    let stack = (d.stack_bb * 2) as u32;
    Decision {
        topic: TrainingTopic::DelayedCbet,
        branch: delayed_branch(s, t),
        game_type: GameType::CashGame,
        hero_pos: Position::BTN,
        hand: d.hero_hand,
        board: d.board@,
        players: heads_up_spec(Position::BTN, Position::BB, stack, stack),
        pot: (d.pot_bb * 2) as u32,
        bet: 0,
        answers: 3,
        labels: seq![
            "Check"@,
            "Small delayed c-bet ("@ + decimal(div_round_half_up(d.pot_bb * 2 * 33, 100) as nat) + " chips ~33%)"@,
            "Medium delayed c-bet ("@ + decimal(div_round_half_up(d.pot_bb * 2 * 60, 100) as nat) + " chips ~60%)"@,
        ],
        correct: delayed_correct(s, t),
    }
}

/// Every text of a scenario built from `d` is non-empty: the question, the
/// branch key, and each answer's label and explanation.
#[verifier::spinoff_prover]
#[verifier::rlimit(50)]
pub proof fn lemma_delayed_texts_nonempty(d: DelayedDraw, ts: TextStyle)
    ensures
        delayed_question(d, ts).len() > 0,
        delayed_decision(d).branch.len() > 0,
        forall|i: int| 0 <= i < delayed_decision(d).labels.len() ==> #[trigger] delayed_decision(d).labels[i].len() > 0,
        forall|i: int| 0 <= i < delayed_explanations(d, ts).len() ==> #[trigger] delayed_explanations(d, ts)[i].len() > 0,
{
    reveal_strlit(" chips. Villain checks to you. What do you do?");
    reveal_strlit(" ~60%), or check. What is your play?");
    reveal_strlit("Blank");
    reveal_strlit("Scare");
    reveal_strlit(" you have no equity to justify a delayed c-bet. Villain's flop check/check line doesn't cap their range enough to bluff profitably. Check and realise any equity you have.");
    reveal_strlit(". A delayed c-bet here bloats the pot when villain's continuing range has improved. Check for pot control and reassess on the river.");
    reveal_strlit(" on a blank turn is too passive. The blank didn't change the board — a small delayed c-bet (~33%) extracts thin value and denies equity to overcards.");
    reveal_strlit(" on the turn after already checking the flop forfeits too much value. You must fire a delayed c-bet to build the pot — villain's range includes many hands that will call a medium sizing.");
    reveal_strlit(" on a blank turn is optimal. You extract thin value, deny equity to overcards and gutshots, and keep the pot manageable if raised.");
    reveal_strlit(" leaves too much value on the table. Villain's range includes one-pair and draw hands that will call ~60%. Size up to maximise EV.");
    reveal_strlit(" risks getting raised off the best hand. The scare card improves villain's continuing range — pot control via check is preferred.");
    reveal_strlit(" is a bluff with poor equity. Villain's calling range on this runout beats you. Save chips and check.");
    reveal_strlit(" is highest-EV. After checking the flop your range is perceived as weak, so villain will call more liberally. This sizing extracts max value from one-pair and draw hands while setting up a river shove.");
    reveal_strlit(". If raised, you're in a tough spot with a marginal hand. A smaller sizing (~33%) achieves the same protection at lower risk, or check on a scare card.");
    reveal_strlit(" is a high-risk bluff. Villain's range after calling preflop and seeing a check-through includes many sticky hands. Check to preserve your stack.");
    reveal_strlit("Correct — check. Your hand missed the board. Betting here with nothing \
                         risks chips for no reason. Check and see a free river.");
    reveal_strlit("Correct — check for pot control. The turn card changed the board and \
                         your medium hand may no longer be best. Keep the pot small.");
    reveal_strlit("Checking here is too passive. You have a decent hand on a quiet turn card — \
                         a small bet would get value and protect against draws.");
    reveal_strlit("Checking here wastes your strong hand. You skipped the flop — \
                         now is the time to bet and build the pot.");
    reveal_strlit("Correct — bet small. You have a decent hand on a quiet board. A small bet \
                         gets value from worse hands and makes draws pay a bit, without risking too much.");
    reveal_strlit("A small bet is too timid with a strong hand. Bet bigger to build the pot \
                         and charge draws properly.");
    reveal_strlit("A small bet here doesn't accomplish much. With your hand, either check back \
                         or bet bigger.");
    reveal_strlit("Correct — bet medium! You have a strong hand and you already checked \
                         the flop. Time to get value. A ~60% pot bet puts pressure on weaker \
                         hands and makes draws pay.");
    reveal_strlit("A medium bet is too big for your hand strength. You risk too many chips \
                         when you might not have the best hand.");
    reveal_strlit("Betting big with a weak hand is reckless. Check and save your chips.");
    reveal_strlit("Check");
    reveal_strlit("Small delayed c-bet (");
    reveal_strlit(" chips ~33%)");
    reveal_strlit("Medium delayed c-bet (");
    reveal_strlit(" chips ~60%)");
    reveal_strlit("Strong");
    reveal_strlit("Medium");
    reveal_strlit("Weak");
    reveal_strlit(":");
}

/// No text of a scenario built from `d` in text style `ts` is empty.
pub proof fn lemma_delayed_scenario_texts(d: DelayedDraw, ts: TextStyle, id: Seq<char>, r: TrainingScenario)
    requires
        delayed_outcome(d, id, r),
        r.question@ == delayed_question(d, ts),
        explains(r, delayed_explanations(d, ts)),
    ensures
        texts_non_empty(r),
{
    lemma_delayed_texts_nonempty(d, ts);
    lemma_texts_shown(r, id, delayed_decision(d), delayed_question(d, ts), delayed_explanations(d, ts));
}

/// The scenario shows `delayed_decision(d)` under `id`.
pub open spec fn delayed_outcome(d: DelayedDraw, id: Seq<char>, r: TrainingScenario) -> bool {
    shows(r, id, delayed_decision(d))
}

/// The explanations of the answers of a delayed c-bet scenario, in text style `ts`.
pub open spec fn delayed_explanations(d: DelayedDraw, ts: TextStyle) -> Seq<Seq<char>> {
    let strength = turn_strength_spec(d.hero_hand@, d.board@);
    let turn_type = turn_card_of(d.board@);
    let strength_s = strength.name_text();
    seq![
        match ts {
                TextStyle::Simple => match (strength, turn_type) {
                    (TurnStrength::Weak, _) =>
                        "Correct — check. Your hand missed the board. Betting here with nothing \
                         risks chips for no reason. Check and see a free river."@,
                    (TurnStrength::Medium, TurnCard::Scare) =>
                        "Correct — check for pot control. The turn card changed the board and \
                         your medium hand may no longer be best. Keep the pot small."@,
                    (TurnStrength::Medium, TurnCard::Blank) =>
                        "Checking here is too passive. You have a decent hand on a quiet turn card — \
                         a small bet would get value and protect against draws."@,
                    (TurnStrength::Strong, _) =>
                        "Checking here wastes your strong hand. You skipped the flop — \
                         now is the time to bet and build the pot."@,
                },
                TextStyle::Technical => match (strength, turn_type) {
                    (TurnStrength::Weak, _) => concat_spec(seq!["Correct. With a "@, strength_s, " you have no equity to justify a delayed c-bet. Villain's flop check/check line doesn't cap their range enough to bluff profitably. Check and realise any equity you have."@]),
                    (TurnStrength::Medium, TurnCard::Scare) => concat_spec(seq!["Correct. The scare turn card (overcard / draw completion) devalues your "@, strength_s, ". A delayed c-bet here bloats the pot when villain's continuing range has improved. Check for pot control and reassess on the river."@]),
                    (TurnStrength::Medium, TurnCard::Blank) => concat_spec(seq!["Checking a "@, strength_s, " on a blank turn is too passive. The blank didn't change the board — a small delayed c-bet (~33%) extracts thin value and denies equity to overcards."@]),
                    (TurnStrength::Strong, _) => concat_spec(seq!["Checking a "@, strength_s, " on the turn after already checking the flop forfeits too much value. You must fire a delayed c-bet to build the pot — villain's range includes many hands that will call a medium sizing."@]),
                },
            },
        match ts {
                TextStyle::Simple => match (strength, turn_type) {
                    (TurnStrength::Medium, TurnCard::Blank) =>
                        "Correct — bet small. You have a decent hand on a quiet board. A small bet \
                         gets value from worse hands and makes draws pay a bit, without risking too much."@,
                    (TurnStrength::Strong, _) =>
                        "A small bet is too timid with a strong hand. Bet bigger to build the pot \
                         and charge draws properly."@,
                    _ =>
                        "A small bet here doesn't accomplish much. With your hand, either check back \
                         or bet bigger."@,
                },
                TextStyle::Technical => match (strength, turn_type) {
                    (TurnStrength::Medium, TurnCard::Blank) => concat_spec(seq!["Correct. A small delayed c-bet (~33% pot) with a "@, strength_s, " on a blank turn is optimal. You extract thin value, deny equity to overcards and gutshots, and keep the pot manageable if raised."@]),
                    (TurnStrength::Strong, _) => concat_spec(seq!["A 33% sizing with a "@, strength_s, " leaves too much value on the table. Villain's range includes one-pair and draw hands that will call ~60%. Size up to maximise EV."@]),
                    (TurnStrength::Medium, TurnCard::Scare) => concat_spec(seq!["Betting small on a scare turn with a "@, strength_s, " risks getting raised off the best hand. The scare card improves villain's continuing range — pot control via check is preferred."@]),
                    (TurnStrength::Weak, _) => concat_spec(seq!["A small delayed c-bet with a "@, strength_s, " is a bluff with poor equity. Villain's calling range on this runout beats you. Save chips and check."@]),
                },
            },
        match ts {
                TextStyle::Simple => match strength {
                    TurnStrength::Strong =>
                        "Correct — bet medium! You have a strong hand and you already checked \
                         the flop. Time to get value. A ~60% pot bet puts pressure on weaker \
                         hands and makes draws pay."@,
                    TurnStrength::Medium =>
                        "A medium bet is too big for your hand strength. You risk too many chips \
                         when you might not have the best hand."@,
                    TurnStrength::Weak =>
                        "Betting big with a weak hand is reckless. Check and save your chips."@,
                },
                TextStyle::Technical => match strength {
                    TurnStrength::Strong => concat_spec(seq!["Correct. A medium delayed c-bet (~60% pot) with a "@, strength_s, " is highest-EV. After checking the flop your range is perceived as weak, so villain will call more liberally. This sizing extracts max value from one-pair and draw hands while setting up a river shove."@]),
                    TurnStrength::Medium => concat_spec(seq!["A 60% pot delayed c-bet over-commits a "@, strength_s, ". If raised, you're in a tough spot with a marginal hand. A smaller sizing (~33%) achieves the same protection at lower risk, or check on a scare card."@]),
                    TurnStrength::Weak => concat_spec(seq!["A large delayed c-bet with a "@, strength_s, " is a high-risk bluff. Villain's range after calling preflop and seeing a check-through includes many sticky hands. Check to preserve your stack."@]),
                },
            },
    ]
}

/// The question of a delayed c-bet scenario in text style `ts`.
pub open spec fn delayed_question(d: DelayedDraw, ts: TextStyle) -> Seq<char> {
    let s = turn_strength_spec(d.hero_hand@, d.board@);
    let t = turn_card_of(d.board@);
    let pot = d.pot_bb * 2;
    let stack = d.stack_bb * 2;
    let small = div_round_half_up(pot * 33, 100);
    let medium = div_round_half_up(pot * 60, 100);
    match ts {
        TextStyle::Simple => concat_spec(seq!["You raised before the flop from the Button. The Big Blind called. On the flop you checked behind. Now on the turn the board is: "@, board_chars(d.board@), ". You have "@, hand_chars(d.hero_hand), " ("@, delayed_simple_text(s), "). Pot: "@, decimal(pot as nat), " chips. Stack: "@, decimal(stack as nat), " chips. Villain checks to you. What do you do?"@]),
        TextStyle::Technical => concat_spec(seq!["Delayed c-bet spot. You opened BTN, BB called. You checked back the flop (no c-bet). Board: "@, board_chars(d.board@), " ("@, texture_spec(d.board@).name_text(), "). You hold "@, hand_chars(d.hero_hand), " ("@, s.name_text(), "). Turn card is a "@, (if t == TurnCard::Blank { "Blank"@ } else { "Scare"@ }), ". Pot: "@, decimal(pot as nat), " chips ("@, decimal(d.pot_bb as nat), " BB). Stack: "@, decimal(stack as nat), " chips. Villain checks. Delayed c-bet options: small ("@, decimal(small as nat), " ~33%), medium ("@, decimal(medium as nat), " ~60%), or check. What is your play?"@]),
    }
}

/// T16 — Delayed C-Bet (DC-).
///
/// RNG order: shuffled deck → hand and board → pot → stack.
pub fn generate_delayed_cbet(
    rng: &mut StdRng,
    difficulty: DifficultyLevel,
    scenario_id: String,
    text_style: TextStyle,
) -> (r: TrainingScenario)
    ensures
        exists|d: DelayedDraw|
            delayed_draw_valid(d, difficulty) && #[trigger] delayed_outcome(d, scenario_id@, r) && r.question@
                == delayed_question(d, text_style) && explains(r, delayed_explanations(d, text_style)),
{
    let (hero_hand, board) = deal(rng, 4);
    let (pot_bb, stack_bb) = draw_turn_sizes(rng, difficulty);
    let d = DelayedDraw { hero_hand, board, pot_bb, stack_bb };
    let r = build_delayed_cbet(&d, scenario_id, text_style);
    assert(delayed_draw_valid(d, difficulty));
    r
}

/// Build the delayed c-bet scenario for draw `d`.
#[verifier::spinoff_prover]
#[verifier::rlimit(50)]
pub fn build_delayed_cbet(d: &DelayedDraw, scenario_id: String, text_style: TextStyle) -> (r: TrainingScenario)
    requires
        d.board@.len() == 4,
        d.pot_bb <= 30,
        d.stack_bb <= 150,
    ensures
        delayed_outcome(*d, scenario_id@, r),
        r.question@ == delayed_question(*d, text_style),
        explains(r, delayed_explanations(*d, text_style)),
{
    let hero_hand = d.hero_hand;
    let pot_bb = d.pot_bb;
    let stack_bb = d.stack_bb;
    let flop = vstd::slice::slice_subrange(d.board.as_slice(), 0, 3);
    let turn = &d.board[3];

    let strength = classify_turn_strength(hero_hand, d.board.as_slice());
    let turn_type = classify_turn_card(flop, turn);

    let bb = 2u32;
    let pot = pot_bb * bb;
    let stack = stack_bb * bb;

    let small_cbet = pct_of_pot(pot, 33);
    let medium_cbet = pct_of_pot(pot, 60);

    let correct: usize = match (strength, turn_type) {
        (TurnStrength::Strong, _) => 2,
        (TurnStrength::Medium, TurnCard::Blank) => 1,
        (TurnStrength::Medium, TurnCard::Scare) => 0,
        (TurnStrength::Weak, _) => 0,
    };

    let turn_label = match turn_type {
        TurnCard::Blank => "Blank",
        TurnCard::Scare => "Scare",
    };
    let strength_label = match strength {
        TurnStrength::Strong => "Strong",
        TurnStrength::Medium => "Medium",
        TurnStrength::Weak => "Weak",
    };
    let branch_key = cat3(strength_label, ":", turn_label);

    let hero_pos = Position::BTN;
    let hs = hand_str(hero_hand);
    let bs = board_str(d.board.as_slice());
    let texture = board_texture(d.board.as_slice());
    let texture_s = texture.name();
    let strength_simple = delayed_strength_simple(strength);
    let strength_s = strength.name();

    let question = match text_style {
        TextStyle::Simple => {
            let qs0 = num(pot as u64);
            let qs1 = num(stack as u64);
            let parts = ["You raised before the flop from the Button. The Big Blind called. On the flop you checked behind. Now on the turn the board is: ", bs.as_str(), ". You have ", hs.as_str(), " (", strength_simple, "). Pot: ", qs0.as_str(), " chips. Stack: ", qs1.as_str(), " chips. Villain checks to you. What do you do?"];
            proof {
                assert(views_of(parts@) =~= seq!["You raised before the flop from the Button. The Big Blind called. On the flop you checked behind. Now on the turn the board is: "@, bs@, ". You have "@, hs@, " ("@, strength_simple@, "). Pot: "@, qs0@, " chips. Stack: "@, qs1@, " chips. Villain checks to you. What do you do?"@]);
            }
            concat(&parts)
        },
        TextStyle::Technical => {
            let qt0 = num(pot as u64);
            let qt1 = num(pot_bb as u64);
            let qt2 = num(stack as u64);
            let qt3 = num(small_cbet as u64);
            let qt4 = num(medium_cbet as u64);
            let parts = ["Delayed c-bet spot. You opened BTN, BB called. You checked back the flop (no c-bet). Board: ", bs.as_str(), " (", texture_s, "). You hold ", hs.as_str(), " (", strength_s, "). Turn card is a ", turn_label, ". Pot: ", qt0.as_str(), " chips (", qt1.as_str(), " BB). Stack: ", qt2.as_str(), " chips. Villain checks. Delayed c-bet options: small (", qt3.as_str(), " ~33%), medium (", qt4.as_str(), " ~60%), or check. What is your play?"];
            proof {
                assert(views_of(parts@) =~= seq!["Delayed c-bet spot. You opened BTN, BB called. You checked back the flop (no c-bet). Board: "@, bs@, " ("@, texture_s@, "). You hold "@, hs@, " ("@, strength_s@, "). Turn card is a "@, turn_label@, ". Pot: "@, qt0@, " chips ("@, qt1@, " BB). Stack: "@, qt2@, " chips. Villain checks. Delayed c-bet options: small ("@, qt3@, " ~33%), medium ("@, qt4@, " ~60%), or check. What is your play?"@]);
            }
            concat(&parts)
        },
    };

    let explanation_0 = match text_style {
                TextStyle::Simple => match (strength, turn_type) {
                    (TurnStrength::Weak, _) =>
                        "Correct — check. Your hand missed the board. Betting here with nothing \
                         risks chips for no reason. Check and see a free river.".to_owned(),
                    (TurnStrength::Medium, TurnCard::Scare) =>
                        "Correct — check for pot control. The turn card changed the board and \
                         your medium hand may no longer be best. Keep the pot small.".to_owned(),
                    (TurnStrength::Medium, TurnCard::Blank) =>
                        "Checking here is too passive. You have a decent hand on a quiet turn card — \
                         a small bet would get value and protect against draws.".to_owned(),
                    (TurnStrength::Strong, _) =>
                        "Checking here wastes your strong hand. You skipped the flop — \
                         now is the time to bet and build the pot.".to_owned(),
                },
                TextStyle::Technical => match (strength, turn_type) {
                    (TurnStrength::Weak, _) => {  let parts = ["Correct. With a ", strength_s, " you have no equity to justify a delayed c-bet. Villain's flop check/check line doesn't cap their range enough to bluff profitably. Check and realise any equity you have."]; proof { assert(views_of(parts@) =~= seq!["Correct. With a "@, strength_s@, " you have no equity to justify a delayed c-bet. Villain's flop check/check line doesn't cap their range enough to bluff profitably. Check and realise any equity you have."@]); } concat(&parts) },
                    (TurnStrength::Medium, TurnCard::Scare) => {  let parts = ["Correct. The scare turn card (overcard / draw completion) devalues your ", strength_s, ". A delayed c-bet here bloats the pot when villain's continuing range has improved. Check for pot control and reassess on the river."]; proof { assert(views_of(parts@) =~= seq!["Correct. The scare turn card (overcard / draw completion) devalues your "@, strength_s@, ". A delayed c-bet here bloats the pot when villain's continuing range has improved. Check for pot control and reassess on the river."@]); } concat(&parts) },
                    (TurnStrength::Medium, TurnCard::Blank) => {  let parts = ["Checking a ", strength_s, " on a blank turn is too passive. The blank didn't change the board — a small delayed c-bet (~33%) extracts thin value and denies equity to overcards."]; proof { assert(views_of(parts@) =~= seq!["Checking a "@, strength_s@, " on a blank turn is too passive. The blank didn't change the board — a small delayed c-bet (~33%) extracts thin value and denies equity to overcards."@]); } concat(&parts) },
                    (TurnStrength::Strong, _) => {  let parts = ["Checking a ", strength_s, " on the turn after already checking the flop forfeits too much value. You must fire a delayed c-bet to build the pot — villain's range includes many hands that will call a medium sizing."]; proof { assert(views_of(parts@) =~= seq!["Checking a "@, strength_s@, " on the turn after already checking the flop forfeits too much value. You must fire a delayed c-bet to build the pot — villain's range includes many hands that will call a medium sizing."@]); } concat(&parts) },
                },
            };
    let explanation_1 = match text_style {
                TextStyle::Simple => match (strength, turn_type) {
                    (TurnStrength::Medium, TurnCard::Blank) =>
                        "Correct — bet small. You have a decent hand on a quiet board. A small bet \
                         gets value from worse hands and makes draws pay a bit, without risking too much.".to_owned(),
                    (TurnStrength::Strong, _) =>
                        "A small bet is too timid with a strong hand. Bet bigger to build the pot \
                         and charge draws properly.".to_owned(),
                    _ =>
                        "A small bet here doesn't accomplish much. With your hand, either check back \
                         or bet bigger.".to_owned(),
                },
                TextStyle::Technical => match (strength, turn_type) {
                    (TurnStrength::Medium, TurnCard::Blank) => {  let parts = ["Correct. A small delayed c-bet (~33% pot) with a ", strength_s, " on a blank turn is optimal. You extract thin value, deny equity to overcards and gutshots, and keep the pot manageable if raised."]; proof { assert(views_of(parts@) =~= seq!["Correct. A small delayed c-bet (~33% pot) with a "@, strength_s@, " on a blank turn is optimal. You extract thin value, deny equity to overcards and gutshots, and keep the pot manageable if raised."@]); } concat(&parts) },
                    (TurnStrength::Strong, _) => {  let parts = ["A 33% sizing with a ", strength_s, " leaves too much value on the table. Villain's range includes one-pair and draw hands that will call ~60%. Size up to maximise EV."]; proof { assert(views_of(parts@) =~= seq!["A 33% sizing with a "@, strength_s@, " leaves too much value on the table. Villain's range includes one-pair and draw hands that will call ~60%. Size up to maximise EV."@]); } concat(&parts) },
                    (TurnStrength::Medium, TurnCard::Scare) => {  let parts = ["Betting small on a scare turn with a ", strength_s, " risks getting raised off the best hand. The scare card improves villain's continuing range — pot control via check is preferred."]; proof { assert(views_of(parts@) =~= seq!["Betting small on a scare turn with a "@, strength_s@, " risks getting raised off the best hand. The scare card improves villain's continuing range — pot control via check is preferred."@]); } concat(&parts) },
                    (TurnStrength::Weak, _) => {  let parts = ["A small delayed c-bet with a ", strength_s, " is a bluff with poor equity. Villain's calling range on this runout beats you. Save chips and check."]; proof { assert(views_of(parts@) =~= seq!["A small delayed c-bet with a "@, strength_s@, " is a bluff with poor equity. Villain's calling range on this runout beats you. Save chips and check."@]); } concat(&parts) },
                },
            };
    let explanation_2 = match text_style {
                TextStyle::Simple => match strength {
                    TurnStrength::Strong =>
                        "Correct — bet medium! You have a strong hand and you already checked \
                         the flop. Time to get value. A ~60% pot bet puts pressure on weaker \
                         hands and makes draws pay.".to_owned(),
                    TurnStrength::Medium =>
                        "A medium bet is too big for your hand strength. You risk too many chips \
                         when you might not have the best hand.".to_owned(),
                    TurnStrength::Weak =>
                        "Betting big with a weak hand is reckless. Check and save your chips.".to_owned(),
                },
                TextStyle::Technical => match strength {
                    TurnStrength::Strong => {  let parts = ["Correct. A medium delayed c-bet (~60% pot) with a ", strength_s, " is highest-EV. After checking the flop your range is perceived as weak, so villain will call more liberally. This sizing extracts max value from one-pair and draw hands while setting up a river shove."]; proof { assert(views_of(parts@) =~= seq!["Correct. A medium delayed c-bet (~60% pot) with a "@, strength_s@, " is highest-EV. After checking the flop your range is perceived as weak, so villain will call more liberally. This sizing extracts max value from one-pair and draw hands while setting up a river shove."@]); } concat(&parts) },
                    TurnStrength::Medium => {  let parts = ["A 60% pot delayed c-bet over-commits a ", strength_s, ". If raised, you're in a tough spot with a marginal hand. A smaller sizing (~33%) achieves the same protection at lower risk, or check on a scare card."]; proof { assert(views_of(parts@) =~= seq!["A 60% pot delayed c-bet over-commits a "@, strength_s@, ". If raised, you're in a tough spot with a marginal hand. A smaller sizing (~33%) achieves the same protection at lower risk, or check on a scare card."@]); } concat(&parts) },
                    TurnStrength::Weak => {  let parts = ["A large delayed c-bet with a ", strength_s, " is a high-risk bluff. Villain's range after calling preflop and seeing a check-through includes many sticky hands. Check to preserve your stack."]; proof { assert(views_of(parts@) =~= seq!["A large delayed c-bet with a "@, strength_s@, " is a high-risk bluff. Villain's range after calling preflop and seeing a check-through includes many sticky hands. Check to preserve your stack."@]); } concat(&parts) },
                },
            };
    let answers = vec![
        option_at(0, "Check".to_owned(), correct, explanation_0),
        option_at(1, cat3("Small delayed c-bet (", num(small_cbet as u64).as_str(), " chips ~33%)"), correct, explanation_1),
        option_at(2, cat3("Medium delayed c-bet (", num(medium_cbet as u64).as_str(), " chips ~60%)"), correct, explanation_2),
    ];


    let players = heads_up(hero_pos, Position::BB, stack, stack);
    scenario(
        scenario_id,
        TrainingTopic::DelayedCbet,
        branch_key,
        GameType::CashGame,
        hero_pos,
        hero_hand,
        d.board.clone(),
        players,
        pot,
        0,
        question,
        answers,
    )
}
} // verus!
