//! Single entry point for scenario generation.
//!
//! `generate_training()`:
//!
//! 1. creates a deterministic or entropy-based RNG from the request seed;
//! 2. resolves a street selector to one of that street's topics (one draw);
//! 3. makes the scenario id (2-letter prefix + 8 hex digits, one `next_u32`);
//! 4. dispatches to the topic generator, which draws the rest.
//!
//! The order of the draws is what makes a seed reproduce a scenario.

use vstd::prelude::*;
use crate::helpers::{texts_non_empty, explains, count_correct, fresh_cards, law_exactly_one_correct, shows, Decision};
use crate::models::{
    law_street_topics_match_topic_street, street_topics, topic_street, DifficultyLevel, GameType, Position, Street,
    TextStyle, TopicSelector, TrainingRequest, TrainingScenario, TrainingTopic,
};
use crate::rng::{draw_usize, next_u32, try_rng_from_entropy, rng_from_seed};
use crate::text::{cat3, hex8, hex_digits};
use crate::topics::{flop, preflop, river, turn};
use rand::rngs::StdRng;

verus! {

/// The two-letter id prefix of each topic.
pub open spec fn topic_prefix(t: TrainingTopic) -> Seq<char> {
    match t {
        TrainingTopic::PreflopDecision => "PF"@,
        TrainingTopic::PostflopContinuationBet => "CB"@,
        TrainingTopic::PotOddsAndEquity => "PO"@,
        TrainingTopic::BluffSpot => "BL"@,
        TrainingTopic::ICMAndTournamentDecision => "IC"@,
        TrainingTopic::TurnBarrelDecision => "TB"@,
        TrainingTopic::CheckRaiseSpot => "CR"@,
        TrainingTopic::SemiBluffDecision => "SB"@,
        TrainingTopic::AntiLimperIsolation => "AL"@,
        TrainingTopic::RiverValueBet => "RV"@,
        TrainingTopic::SqueezePlay => "SQ"@,
        TrainingTopic::BigBlindDefense => "BD"@,
        TrainingTopic::ThreeBetPotCbet => "3B"@,
        TrainingTopic::RiverCallOrFold => "RF"@,
        TrainingTopic::TurnProbeBet => "PB"@,
        TrainingTopic::DelayedCbet => "DC"@,
    }
}

fn prefix_of(t: TrainingTopic) -> (p: &'static str)
    ensures
        p@ == topic_prefix(t),
{
    match t {
        TrainingTopic::PreflopDecision => "PF",
        TrainingTopic::PostflopContinuationBet => "CB",
        TrainingTopic::PotOddsAndEquity => "PO",
        TrainingTopic::BluffSpot => "BL",
        TrainingTopic::ICMAndTournamentDecision => "IC",
        TrainingTopic::TurnBarrelDecision => "TB",
        TrainingTopic::CheckRaiseSpot => "CR",
        TrainingTopic::SemiBluffDecision => "SB",
        TrainingTopic::AntiLimperIsolation => "AL",
        TrainingTopic::RiverValueBet => "RV",
        TrainingTopic::SqueezePlay => "SQ",
        TrainingTopic::BigBlindDefense => "BD",
        TrainingTopic::ThreeBetPotCbet => "3B",
        TrainingTopic::RiverCallOrFold => "RF",
        TrainingTopic::TurnProbeBet => "PB",
        TrainingTopic::DelayedCbet => "DC",
    }
}

/// The id of a scenario of topic `t` whose drawn number is `n`:
/// the topic prefix, a hyphen, and `n` as eight upper-case hex digits.
pub open spec fn scenario_id_spec(t: TrainingTopic, n: u32) -> Seq<char> {
    topic_prefix(t) + "-"@ + hex_digits(n as nat, 8)
}

/// The scenario id for topic `t` and drawn number `n` (`"{prefix}-{n:08X}"`).
pub fn scenario_id_for(t: TrainingTopic, n: u32) -> (s: String)
    ensures
        s@ == scenario_id_spec(t, n),
{
    let hex = hex8(n);
    cat3(prefix_of(t), "-", hex.as_str())
}

/// Make the scenario id; consumes one `next_u32` from the RNG.
fn make_scenario_id(topic: TrainingTopic, rng: &mut StdRng) -> (s: String)
    ensures
        exists|n: u32| s@ == #[trigger] scenario_id_spec(topic, n),
{
    let n = next_u32(rng);
    scenario_id_for(topic, n)
}

/// Topic `t` is one that `selector` allows: the topic itself, or any topic
/// played on the selected street.
pub open spec fn selector_allows(selector: TopicSelector, t: TrainingTopic) -> bool {
    match selector {
        TopicSelector::Topic(x) => t == x,
        TopicSelector::Street(s) => topic_street(t) == s,
    }
}

/// Resolve a selector to a concrete topic.  A street selector draws one of
/// the street's topics, each index equally likely (one `gen_range` draw).
fn resolve_topic(selector: TopicSelector, rng: &mut StdRng) -> (t: TrainingTopic)
    ensures
        selector_allows(selector, t),
{
    match selector {
        TopicSelector::Topic(t) => t,
        TopicSelector::Street(s) => {
            let topics = s.topics();
            let i = draw_usize(rng, 0, topics.len() - 1);
            let t = topics[i];
            proof {
                assert(street_topics(s)[i as int] == t);
                law_street_topics_match_topic_street(s, t);
            }
            t
        },
    }
}

/// Number of board cards dealt on each street.
pub open spec fn street_board_len(s: Street) -> nat {
    match s {
        Street::Preflop => 0,
        Street::Flop => 3,
        Street::Turn => 4,
        Street::River => 5,
    }
}

/// `r` is a scenario that the generator of topic `t` produces at difficulty
/// `diff` in text style `ts` under id `id`: it shows the decision of some
/// draw that is valid for `diff`, and asks that draw's question in `ts`.
pub open spec fn generated(
    t: TrainingTopic,
    diff: DifficultyLevel,
    ts: TextStyle,
    id: Seq<char>,
    r: TrainingScenario,
) -> bool {
    match t {
        TrainingTopic::PreflopDecision => exists|d: preflop::OpenDraw|
            preflop::open_draw_valid(d, diff) && #[trigger] preflop::open_outcome(d, id, r) && r.question@ == preflop::open_question(d, ts) && explains(r, preflop::open_explanations(d, ts)),
        TrainingTopic::ICMAndTournamentDecision => exists|d: preflop::IcmDraw|
            preflop::icm_draw_valid(d, diff) && #[trigger] preflop::icm_outcome(d, id, r) && r.question@ == preflop::icm_question(d, ts) && explains(r, preflop::icm_explanations(d, ts)),
        TrainingTopic::AntiLimperIsolation => exists|d: preflop::AntiLimperDraw|
            preflop::al_draw_valid(d, diff) && #[trigger] preflop::al_outcome(d, id, r) && r.question@ == preflop::al_question(d, ts) && explains(r, preflop::al_explanations(d, ts)),
        TrainingTopic::SqueezePlay => exists|d: preflop::SqueezeDraw|
            preflop::sq_draw_valid(d, diff) && #[trigger] preflop::sq_outcome(d, id, r) && r.question@ == preflop::sq_question(d, ts) && explains(r, preflop::sq_explanations(d, ts)),
        TrainingTopic::BigBlindDefense => exists|d: preflop::BbDefenseDraw|
            preflop::bd_draw_valid(d, diff) && #[trigger] preflop::bd_outcome(d, id, r) && r.question@ == preflop::bd_question(d, ts) && explains(r, preflop::bd_explanations(d, ts)),
        TrainingTopic::PostflopContinuationBet => exists|d: flop::CbetDraw|
            flop::cbet_draw_valid(d, diff) && #[trigger] flop::cbet_outcome(d, id, r) && r.question@ == flop::cbet_question(d, ts) && explains(r, flop::cbet_explanations(d, ts)),
        TrainingTopic::PotOddsAndEquity => exists|d: flop::PotOddsDraw|
            flop::po_draw_valid(d, diff) && #[trigger] flop::po_outcome(d, id, r) && r.question@ == flop::po_question(d, ts) && explains(r, flop::po_explanations(d, ts)),
        TrainingTopic::CheckRaiseSpot => exists|d: flop::CheckRaiseDraw|
            flop::cr_draw_valid(d, diff) && #[trigger] flop::cr_outcome(d, id, r) && r.question@ == flop::cr_question(d, ts) && explains(r, flop::cr_explanations(d, ts)),
        TrainingTopic::SemiBluffDecision => exists|d: flop::SemiBluffDraw|
            flop::sb_draw_valid(d, diff) && #[trigger] flop::sb_outcome(d, id, r) && r.question@ == flop::sb_question(d, ts) && explains(r, flop::sb_explanations(d, ts)),
        TrainingTopic::ThreeBetPotCbet => exists|d: flop::ThreeBetDraw|
            flop::tb_draw_valid(d, diff) && #[trigger] flop::tb_outcome(d, id, r) && r.question@ == flop::tb_question(d, ts) && explains(r, flop::tb_explanations(d, ts)),
        TrainingTopic::TurnBarrelDecision => exists|d: turn::BarrelDraw|
            turn::barrel_draw_valid(d, diff) && #[trigger] turn::barrel_outcome(d, id, r) && r.question@ == turn::barrel_question(d, ts) && explains(r, turn::barrel_explanations(d, ts)),
        TrainingTopic::TurnProbeBet => exists|d: turn::ProbeDraw|
            turn::probe_draw_valid(d, diff) && #[trigger] turn::probe_outcome(d, id, r) && r.question@ == turn::probe_question(d, ts) && explains(r, turn::probe_explanations(d, ts)),
        TrainingTopic::DelayedCbet => exists|d: turn::DelayedDraw|
            turn::delayed_draw_valid(d, diff) && #[trigger] turn::delayed_outcome(d, id, r) && r.question@ == turn::delayed_question(d, ts) && explains(r, turn::delayed_explanations(d, ts)),
        TrainingTopic::BluffSpot => exists|d: river::BluffDraw|
            river::bluff_draw_valid(d, diff) && #[trigger] river::bluff_outcome(d, id, r) && r.question@ == river::bluff_question(d, ts) && explains(r, river::bluff_explanations(d, ts)),
        TrainingTopic::RiverValueBet => exists|d: river::ValueDraw|
            river::value_draw_valid(d, diff) && #[trigger] river::value_outcome(d, id, r) && r.question@ == river::value_question(d, ts) && explains(r, river::value_explanations(d, ts)),
        TrainingTopic::RiverCallOrFold => exists|d: river::CallFoldDraw|
            river::call_draw_valid(d, diff) && #[trigger] river::call_outcome(d, id, r) && r.question@ == river::call_question(d, ts) && explains(r, river::call_explanations(d, ts)),
    }
}

/// What holds of every shown decision with at most four answers: its
/// answers, and its table's hand and board.
proof fn lemma_shown(r: TrainingScenario, id: Seq<char>, dec: Decision)
    requires
        shows(r, id, dec),
        2 <= dec.answers <= 4,
        fresh_cards(dec.hand@, dec.board),
    ensures
        count_correct(r.answers@) == 1,
        2 <= r.answers@.len() <= 4,
        r.table_setup.hero_hand == dec.hand,
        r.table_setup.board@ == dec.board,
        fresh_cards(r.table_setup.hero_hand@, r.table_setup.board@),
{
    law_exactly_one_correct(r.answers@, dec.answers, dec.correct);
}

/// Every generated scenario is of its topic, has between two and four
/// answers of which exactly one is correct, deals hero two cards that are not
/// on the board and a board of distinct cards, and deals as many board cards
/// as its street has.
#[verifier::spinoff_prover]
#[verifier::rlimit(50)]
pub proof fn law_generated_scenario_is_well_formed(
    t: TrainingTopic,
    diff: DifficultyLevel,
    ts: TextStyle,
    id: Seq<char>,
    r: TrainingScenario,
)
    requires
        generated(t, diff, ts, id, r),
    ensures
        r.topic == t,
        r.scenario_id@ == id,
        count_correct(r.answers@) == 1,
        2 <= r.answers@.len() <= 4,
        fresh_cards(r.table_setup.hero_hand@, r.table_setup.board@),
        r.table_setup.board@.len() == street_board_len(topic_street(t)),
{
    match t {
        TrainingTopic::PreflopDecision => {
            let d = choose|d: preflop::OpenDraw| preflop::open_draw_valid(d, diff) && #[trigger] preflop::open_outcome(d, id, r) && r.question@ == preflop::open_question(d, ts) && explains(r, preflop::open_explanations(d, ts));
            lemma_shown(r, id, preflop::open_decision(d));
        },
        TrainingTopic::ICMAndTournamentDecision => {
            let d = choose|d: preflop::IcmDraw| preflop::icm_draw_valid(d, diff) && #[trigger] preflop::icm_outcome(d, id, r) && r.question@ == preflop::icm_question(d, ts) && explains(r, preflop::icm_explanations(d, ts));
            lemma_shown(r, id, preflop::icm_decision(d));
        },
        TrainingTopic::AntiLimperIsolation => {
            let d = choose|d: preflop::AntiLimperDraw| preflop::al_draw_valid(d, diff) && #[trigger] preflop::al_outcome(d, id, r) && r.question@ == preflop::al_question(d, ts) && explains(r, preflop::al_explanations(d, ts));
            lemma_shown(r, id, preflop::al_decision(d));
        },
        TrainingTopic::SqueezePlay => {
            let d = choose|d: preflop::SqueezeDraw| preflop::sq_draw_valid(d, diff) && #[trigger] preflop::sq_outcome(d, id, r) && r.question@ == preflop::sq_question(d, ts) && explains(r, preflop::sq_explanations(d, ts));
            lemma_shown(r, id, preflop::sq_decision(d));
        },
        TrainingTopic::BigBlindDefense => {
            let d = choose|d: preflop::BbDefenseDraw| preflop::bd_draw_valid(d, diff) && #[trigger] preflop::bd_outcome(d, id, r) && r.question@ == preflop::bd_question(d, ts) && explains(r, preflop::bd_explanations(d, ts));
            lemma_shown(r, id, preflop::bd_decision(d));
        },
        TrainingTopic::PostflopContinuationBet => {
            let d = choose|d: flop::CbetDraw| flop::cbet_draw_valid(d, diff) && #[trigger] flop::cbet_outcome(d, id, r) && r.question@ == flop::cbet_question(d, ts) && explains(r, flop::cbet_explanations(d, ts));
            lemma_shown(r, id, flop::cbet_decision(d));
        },
        TrainingTopic::PotOddsAndEquity => {
            let d = choose|d: flop::PotOddsDraw| flop::po_draw_valid(d, diff) && #[trigger] flop::po_outcome(d, id, r) && r.question@ == flop::po_question(d, ts) && explains(r, flop::po_explanations(d, ts));
            lemma_shown(r, id, flop::po_decision(d));
        },
        TrainingTopic::CheckRaiseSpot => {
            let d = choose|d: flop::CheckRaiseDraw| flop::cr_draw_valid(d, diff) && #[trigger] flop::cr_outcome(d, id, r) && r.question@ == flop::cr_question(d, ts) && explains(r, flop::cr_explanations(d, ts));
            lemma_shown(r, id, flop::cr_decision(d));
        },
        TrainingTopic::SemiBluffDecision => {
            let d = choose|d: flop::SemiBluffDraw| flop::sb_draw_valid(d, diff) && #[trigger] flop::sb_outcome(d, id, r) && r.question@ == flop::sb_question(d, ts) && explains(r, flop::sb_explanations(d, ts));
            lemma_shown(r, id, flop::sb_decision(d));
        },
        TrainingTopic::ThreeBetPotCbet => {
            let d = choose|d: flop::ThreeBetDraw| flop::tb_draw_valid(d, diff) && #[trigger] flop::tb_outcome(d, id, r) && r.question@ == flop::tb_question(d, ts) && explains(r, flop::tb_explanations(d, ts));
            lemma_shown(r, id, flop::tb_decision(d));
        },
        TrainingTopic::TurnBarrelDecision => {
            let d = choose|d: turn::BarrelDraw| turn::barrel_draw_valid(d, diff) && #[trigger] turn::barrel_outcome(d, id, r) && r.question@ == turn::barrel_question(d, ts) && explains(r, turn::barrel_explanations(d, ts));
            lemma_shown(r, id, turn::barrel_decision(d));
        },
        TrainingTopic::TurnProbeBet => {
            let d = choose|d: turn::ProbeDraw| turn::probe_draw_valid(d, diff) && #[trigger] turn::probe_outcome(d, id, r) && r.question@ == turn::probe_question(d, ts) && explains(r, turn::probe_explanations(d, ts));
            lemma_shown(r, id, turn::probe_decision(d));
        },
        TrainingTopic::DelayedCbet => {
            let d = choose|d: turn::DelayedDraw| turn::delayed_draw_valid(d, diff) && #[trigger] turn::delayed_outcome(d, id, r) && r.question@ == turn::delayed_question(d, ts) && explains(r, turn::delayed_explanations(d, ts));
            lemma_shown(r, id, turn::delayed_decision(d));
        },
        TrainingTopic::BluffSpot => {
            let d = choose|d: river::BluffDraw| river::bluff_draw_valid(d, diff) && #[trigger] river::bluff_outcome(d, id, r) && r.question@ == river::bluff_question(d, ts) && explains(r, river::bluff_explanations(d, ts));
            lemma_shown(r, id, river::bluff_decision(d));
        },
        TrainingTopic::RiverValueBet => {
            let d = choose|d: river::ValueDraw| river::value_draw_valid(d, diff) && #[trigger] river::value_outcome(d, id, r) && r.question@ == river::value_question(d, ts) && explains(r, river::value_explanations(d, ts));
            lemma_shown(r, id, river::value_decision(d));
        },
        TrainingTopic::RiverCallOrFold => {
            let d = choose|d: river::CallFoldDraw| river::call_draw_valid(d, diff) && #[trigger] river::call_outcome(d, id, r) && r.question@ == river::call_question(d, ts) && explains(r, river::call_explanations(d, ts));
            lemma_shown(r, id, river::call_decision(d));
        },
    }
}

/// No text of a generated scenario is empty: its question, its branch key,
/// and every answer's label and explanation have at least one character.
#[verifier::spinoff_prover]
#[verifier::rlimit(50)]
pub proof fn law_generated_texts_are_non_empty(
    t: TrainingTopic,
    diff: DifficultyLevel,
    ts: TextStyle,
    id: Seq<char>,
    r: TrainingScenario,
)
    requires
        generated(t, diff, ts, id, r),
    ensures
        texts_non_empty(r),
{
    match t {
        TrainingTopic::PreflopDecision => {
            let d = choose|d: preflop::OpenDraw| preflop::open_draw_valid(d, diff) && #[trigger] preflop::open_outcome(d, id, r) && r.question@ == preflop::open_question(d, ts) && explains(r, preflop::open_explanations(d, ts));
            preflop::lemma_open_scenario_texts(d, ts, id, r);
        },
        TrainingTopic::ICMAndTournamentDecision => {
            let d = choose|d: preflop::IcmDraw| preflop::icm_draw_valid(d, diff) && #[trigger] preflop::icm_outcome(d, id, r) && r.question@ == preflop::icm_question(d, ts) && explains(r, preflop::icm_explanations(d, ts));
            preflop::lemma_icm_scenario_texts(d, ts, id, r);
        },
        TrainingTopic::AntiLimperIsolation => {
            let d = choose|d: preflop::AntiLimperDraw| preflop::al_draw_valid(d, diff) && #[trigger] preflop::al_outcome(d, id, r) && r.question@ == preflop::al_question(d, ts) && explains(r, preflop::al_explanations(d, ts));
            preflop::lemma_al_scenario_texts(d, ts, id, r);
        },
        TrainingTopic::SqueezePlay => {
            let d = choose|d: preflop::SqueezeDraw| preflop::sq_draw_valid(d, diff) && #[trigger] preflop::sq_outcome(d, id, r) && r.question@ == preflop::sq_question(d, ts) && explains(r, preflop::sq_explanations(d, ts));
            preflop::lemma_sq_scenario_texts(d, ts, id, r);
        },
        TrainingTopic::BigBlindDefense => {
            let d = choose|d: preflop::BbDefenseDraw| preflop::bd_draw_valid(d, diff) && #[trigger] preflop::bd_outcome(d, id, r) && r.question@ == preflop::bd_question(d, ts) && explains(r, preflop::bd_explanations(d, ts));
            preflop::lemma_bd_scenario_texts(d, ts, id, r);
        },
        TrainingTopic::PostflopContinuationBet => {
            let d = choose|d: flop::CbetDraw| flop::cbet_draw_valid(d, diff) && #[trigger] flop::cbet_outcome(d, id, r) && r.question@ == flop::cbet_question(d, ts) && explains(r, flop::cbet_explanations(d, ts));
            flop::lemma_cbet_scenario_texts(d, ts, id, r);
        },
        TrainingTopic::PotOddsAndEquity => {
            let d = choose|d: flop::PotOddsDraw| flop::po_draw_valid(d, diff) && #[trigger] flop::po_outcome(d, id, r) && r.question@ == flop::po_question(d, ts) && explains(r, flop::po_explanations(d, ts));
            flop::lemma_po_scenario_texts(d, ts, id, r);
        },
        TrainingTopic::CheckRaiseSpot => {
            let d = choose|d: flop::CheckRaiseDraw| flop::cr_draw_valid(d, diff) && #[trigger] flop::cr_outcome(d, id, r) && r.question@ == flop::cr_question(d, ts) && explains(r, flop::cr_explanations(d, ts));
            flop::lemma_cr_scenario_texts(d, ts, id, r);
        },
        TrainingTopic::SemiBluffDecision => {
            let d = choose|d: flop::SemiBluffDraw| flop::sb_draw_valid(d, diff) && #[trigger] flop::sb_outcome(d, id, r) && r.question@ == flop::sb_question(d, ts) && explains(r, flop::sb_explanations(d, ts));
            flop::lemma_sb_scenario_texts(d, ts, id, r);
        },
        TrainingTopic::ThreeBetPotCbet => {
            let d = choose|d: flop::ThreeBetDraw| flop::tb_draw_valid(d, diff) && #[trigger] flop::tb_outcome(d, id, r) && r.question@ == flop::tb_question(d, ts) && explains(r, flop::tb_explanations(d, ts));
            flop::lemma_tb_scenario_texts(d, ts, id, r);
        },
        TrainingTopic::TurnBarrelDecision => {
            let d = choose|d: turn::BarrelDraw| turn::barrel_draw_valid(d, diff) && #[trigger] turn::barrel_outcome(d, id, r) && r.question@ == turn::barrel_question(d, ts) && explains(r, turn::barrel_explanations(d, ts));
            turn::lemma_barrel_scenario_texts(d, ts, id, r);
        },
        TrainingTopic::TurnProbeBet => {
            let d = choose|d: turn::ProbeDraw| turn::probe_draw_valid(d, diff) && #[trigger] turn::probe_outcome(d, id, r) && r.question@ == turn::probe_question(d, ts) && explains(r, turn::probe_explanations(d, ts));
            turn::lemma_probe_scenario_texts(d, ts, id, r);
        },
        TrainingTopic::DelayedCbet => {
            let d = choose|d: turn::DelayedDraw| turn::delayed_draw_valid(d, diff) && #[trigger] turn::delayed_outcome(d, id, r) && r.question@ == turn::delayed_question(d, ts) && explains(r, turn::delayed_explanations(d, ts));
            turn::lemma_delayed_scenario_texts(d, ts, id, r);
        },
        TrainingTopic::BluffSpot => {
            let d = choose|d: river::BluffDraw| river::bluff_draw_valid(d, diff) && #[trigger] river::bluff_outcome(d, id, r) && r.question@ == river::bluff_question(d, ts) && explains(r, river::bluff_explanations(d, ts));
            river::lemma_bluff_scenario_texts(d, ts, id, r);
        },
        TrainingTopic::RiverValueBet => {
            let d = choose|d: river::ValueDraw| river::value_draw_valid(d, diff) && #[trigger] river::value_outcome(d, id, r) && r.question@ == river::value_question(d, ts) && explains(r, river::value_explanations(d, ts));
            river::lemma_value_scenario_texts(d, ts, id, r);
        },
        TrainingTopic::RiverCallOrFold => {
            let d = choose|d: river::CallFoldDraw| river::call_draw_valid(d, diff) && #[trigger] river::call_outcome(d, id, r) && r.question@ == river::call_question(d, ts) && explains(r, river::call_explanations(d, ts));
            river::lemma_call_scenario_texts(d, ts, id, r);
        },
    }
}

/// Hero's seat in every scenario of a topic, for the topics that fix it.
pub open spec fn fixed_hero_position(t: TrainingTopic) -> Option<Position> {
    match t {
        TrainingTopic::ICMAndTournamentDecision => Some(Position::BTN),
        TrainingTopic::SqueezePlay => Some(Position::BTN),
        TrainingTopic::BigBlindDefense => Some(Position::BB),
        TrainingTopic::PotOddsAndEquity => Some(Position::BB),
        TrainingTopic::CheckRaiseSpot => Some(Position::BB),
        TrainingTopic::ThreeBetPotCbet => Some(Position::BTN),
        TrainingTopic::TurnProbeBet => Some(Position::BB),
        TrainingTopic::DelayedCbet => Some(Position::BTN),
        TrainingTopic::BluffSpot => Some(Position::BTN),
        TrainingTopic::RiverValueBet => Some(Position::BTN),
        TrainingTopic::RiverCallOrFold => Some(Position::BTN),
        _ => None,
    }
}

/// Whether hero of a topic always faces a bet (`Some(true)`), is always
/// first to act or checked to (`Some(false)`), or either (`None`).
pub open spec fn faces_bet(t: TrainingTopic) -> Option<bool> {
    match t {
        TrainingTopic::PotOddsAndEquity
        | TrainingTopic::CheckRaiseSpot
        | TrainingTopic::SemiBluffDecision
        | TrainingTopic::AntiLimperIsolation
        | TrainingTopic::SqueezePlay
        | TrainingTopic::BigBlindDefense
        | TrainingTopic::RiverCallOrFold => Some(true),
        TrainingTopic::PreflopDecision => None,
        _ => Some(false),
    }
}

/// The per-topic facts of scenario `r` of topic `t`: only the ICM topic is
/// a tournament; the topics that fix hero's seat put hero there; hero faces
/// a bet exactly in the topics about reacting to one, and is first to act or
/// checked to in the others (the preflop decision has both kinds of spot).
pub open spec fn table_facts(t: TrainingTopic, r: TrainingScenario) -> bool {
    &&& (r.table_setup.game_type == GameType::Tournament) <==> (t == TrainingTopic::ICMAndTournamentDecision)
    &&& (fixed_hero_position(t) matches Some(p) ==> r.table_setup.hero_position == p)
    &&& (faces_bet(t) == Some(true) ==> r.table_setup.current_bet > 0)
    &&& (faces_bet(t) == Some(false) ==> r.table_setup.current_bet == 0)
}

/// Every generated scenario has the per-topic facts of its topic.
#[verifier::spinoff_prover]
#[verifier::rlimit(50)]
pub proof fn law_topic_table_facts(
    t: TrainingTopic,
    diff: DifficultyLevel,
    ts: TextStyle,
    id: Seq<char>,
    r: TrainingScenario,
)
    requires
        generated(t, diff, ts, id, r),
    ensures
        table_facts(t, r),
{
    match t {
        TrainingTopic::PreflopDecision => facts_open(diff, ts, id, r),
        TrainingTopic::ICMAndTournamentDecision => facts_icm(diff, ts, id, r),
        TrainingTopic::AntiLimperIsolation => facts_al(diff, ts, id, r),
        TrainingTopic::SqueezePlay => facts_sq(diff, ts, id, r),
        TrainingTopic::BigBlindDefense => facts_bd(diff, ts, id, r),
        TrainingTopic::PostflopContinuationBet => facts_cbet(diff, ts, id, r),
        TrainingTopic::PotOddsAndEquity => facts_po(diff, ts, id, r),
        TrainingTopic::CheckRaiseSpot => facts_cr(diff, ts, id, r),
        TrainingTopic::SemiBluffDecision => facts_sb(diff, ts, id, r),
        TrainingTopic::ThreeBetPotCbet => facts_tb(diff, ts, id, r),
        TrainingTopic::TurnBarrelDecision => facts_barrel(diff, ts, id, r),
        TrainingTopic::TurnProbeBet => facts_probe(diff, ts, id, r),
        TrainingTopic::DelayedCbet => facts_delayed(diff, ts, id, r),
        TrainingTopic::BluffSpot => facts_bluff(diff, ts, id, r),
        TrainingTopic::RiverValueBet => facts_value(diff, ts, id, r),
        TrainingTopic::RiverCallOrFold => facts_call(diff, ts, id, r),
    }
}

proof fn facts_open(diff: DifficultyLevel, ts: TextStyle, id: Seq<char>, r: TrainingScenario)
    requires
        generated(TrainingTopic::PreflopDecision, diff, ts, id, r),
    ensures
        table_facts(TrainingTopic::PreflopDecision, r),
{
    let d = choose|d: preflop::OpenDraw| preflop::open_draw_valid(d, diff) && #[trigger] preflop::open_outcome(d, id, r) && r.question@ == preflop::open_question(d, ts) && explains(r, preflop::open_explanations(d, ts));
    assert(shows(r, id, preflop::open_decision(d)));
}

proof fn facts_icm(diff: DifficultyLevel, ts: TextStyle, id: Seq<char>, r: TrainingScenario)
    requires
        generated(TrainingTopic::ICMAndTournamentDecision, diff, ts, id, r),
    ensures
        table_facts(TrainingTopic::ICMAndTournamentDecision, r),
{
    let d = choose|d: preflop::IcmDraw| preflop::icm_draw_valid(d, diff) && #[trigger] preflop::icm_outcome(d, id, r) && r.question@ == preflop::icm_question(d, ts) && explains(r, preflop::icm_explanations(d, ts));
    assert(shows(r, id, preflop::icm_decision(d)));
}

proof fn facts_al(diff: DifficultyLevel, ts: TextStyle, id: Seq<char>, r: TrainingScenario)
    requires
        generated(TrainingTopic::AntiLimperIsolation, diff, ts, id, r),
    ensures
        table_facts(TrainingTopic::AntiLimperIsolation, r),
{
    let d = choose|d: preflop::AntiLimperDraw| preflop::al_draw_valid(d, diff) && #[trigger] preflop::al_outcome(d, id, r) && r.question@ == preflop::al_question(d, ts) && explains(r, preflop::al_explanations(d, ts));
    assert(shows(r, id, preflop::al_decision(d)));
}

proof fn facts_sq(diff: DifficultyLevel, ts: TextStyle, id: Seq<char>, r: TrainingScenario)
    requires
        generated(TrainingTopic::SqueezePlay, diff, ts, id, r),
    ensures
        table_facts(TrainingTopic::SqueezePlay, r),
{
    let d = choose|d: preflop::SqueezeDraw| preflop::sq_draw_valid(d, diff) && #[trigger] preflop::sq_outcome(d, id, r) && r.question@ == preflop::sq_question(d, ts) && explains(r, preflop::sq_explanations(d, ts));
    assert(shows(r, id, preflop::sq_decision(d)));
}

proof fn facts_bd(diff: DifficultyLevel, ts: TextStyle, id: Seq<char>, r: TrainingScenario)
    requires
        generated(TrainingTopic::BigBlindDefense, diff, ts, id, r),
    ensures
        table_facts(TrainingTopic::BigBlindDefense, r),
{
    let d = choose|d: preflop::BbDefenseDraw| preflop::bd_draw_valid(d, diff) && #[trigger] preflop::bd_outcome(d, id, r) && r.question@ == preflop::bd_question(d, ts) && explains(r, preflop::bd_explanations(d, ts));
    assert(shows(r, id, preflop::bd_decision(d)));
}

proof fn facts_cbet(diff: DifficultyLevel, ts: TextStyle, id: Seq<char>, r: TrainingScenario)
    requires
        generated(TrainingTopic::PostflopContinuationBet, diff, ts, id, r),
    ensures
        table_facts(TrainingTopic::PostflopContinuationBet, r),
{
    let d = choose|d: flop::CbetDraw| flop::cbet_draw_valid(d, diff) && #[trigger] flop::cbet_outcome(d, id, r) && r.question@ == flop::cbet_question(d, ts) && explains(r, flop::cbet_explanations(d, ts));
    assert(shows(r, id, flop::cbet_decision(d)));
}

proof fn facts_po(diff: DifficultyLevel, ts: TextStyle, id: Seq<char>, r: TrainingScenario)
    requires
        generated(TrainingTopic::PotOddsAndEquity, diff, ts, id, r),
    ensures
        table_facts(TrainingTopic::PotOddsAndEquity, r),
{
    let d = choose|d: flop::PotOddsDraw| flop::po_draw_valid(d, diff) && #[trigger] flop::po_outcome(d, id, r) && r.question@ == flop::po_question(d, ts) && explains(r, flop::po_explanations(d, ts));
    flop::lemma_po_bet_at_least_two(d, diff);
    lemma_bet_fits(d);
    assert(shows(r, id, flop::po_decision(d)));
}

proof fn facts_cr(diff: DifficultyLevel, ts: TextStyle, id: Seq<char>, r: TrainingScenario)
    requires
        generated(TrainingTopic::CheckRaiseSpot, diff, ts, id, r),
    ensures
        table_facts(TrainingTopic::CheckRaiseSpot, r),
{
    let d = choose|d: flop::CheckRaiseDraw| flop::cr_draw_valid(d, diff) && #[trigger] flop::cr_outcome(d, id, r) && r.question@ == flop::cr_question(d, ts) && explains(r, flop::cr_explanations(d, ts));
    lemma_villain_bet_fits(d.pot_bb, d.villain_bet_pct);
    assert(shows(r, id, flop::cr_decision(d)));
}

proof fn facts_sb(diff: DifficultyLevel, ts: TextStyle, id: Seq<char>, r: TrainingScenario)
    requires
        generated(TrainingTopic::SemiBluffDecision, diff, ts, id, r),
    ensures
        table_facts(TrainingTopic::SemiBluffDecision, r),
{
    let d = choose|d: flop::SemiBluffDraw| flop::sb_draw_valid(d, diff) && #[trigger] flop::sb_outcome(d, id, r) && r.question@ == flop::sb_question(d, ts) && explains(r, flop::sb_explanations(d, ts));
    lemma_villain_bet_fits(d.pot_bb, d.villain_bet_pct);
    assert(shows(r, id, flop::sb_decision(d)));
}

proof fn facts_tb(diff: DifficultyLevel, ts: TextStyle, id: Seq<char>, r: TrainingScenario)
    requires
        generated(TrainingTopic::ThreeBetPotCbet, diff, ts, id, r),
    ensures
        table_facts(TrainingTopic::ThreeBetPotCbet, r),
{
    let d = choose|d: flop::ThreeBetDraw| flop::tb_draw_valid(d, diff) && #[trigger] flop::tb_outcome(d, id, r) && r.question@ == flop::tb_question(d, ts) && explains(r, flop::tb_explanations(d, ts));
    assert(shows(r, id, flop::tb_decision(d)));
}

proof fn facts_barrel(diff: DifficultyLevel, ts: TextStyle, id: Seq<char>, r: TrainingScenario)
    requires
        generated(TrainingTopic::TurnBarrelDecision, diff, ts, id, r),
    ensures
        table_facts(TrainingTopic::TurnBarrelDecision, r),
{
    let d = choose|d: turn::BarrelDraw| turn::barrel_draw_valid(d, diff) && #[trigger] turn::barrel_outcome(d, id, r) && r.question@ == turn::barrel_question(d, ts) && explains(r, turn::barrel_explanations(d, ts));
    assert(shows(r, id, turn::barrel_decision(d)));
}

proof fn facts_probe(diff: DifficultyLevel, ts: TextStyle, id: Seq<char>, r: TrainingScenario)
    requires
        generated(TrainingTopic::TurnProbeBet, diff, ts, id, r),
    ensures
        table_facts(TrainingTopic::TurnProbeBet, r),
{
    let d = choose|d: turn::ProbeDraw| turn::probe_draw_valid(d, diff) && #[trigger] turn::probe_outcome(d, id, r) && r.question@ == turn::probe_question(d, ts) && explains(r, turn::probe_explanations(d, ts));
    assert(shows(r, id, turn::probe_decision(d)));
}

proof fn facts_delayed(diff: DifficultyLevel, ts: TextStyle, id: Seq<char>, r: TrainingScenario)
    requires
        generated(TrainingTopic::DelayedCbet, diff, ts, id, r),
    ensures
        table_facts(TrainingTopic::DelayedCbet, r),
{
    let d = choose|d: turn::DelayedDraw| turn::delayed_draw_valid(d, diff) && #[trigger] turn::delayed_outcome(d, id, r) && r.question@ == turn::delayed_question(d, ts) && explains(r, turn::delayed_explanations(d, ts));
    assert(shows(r, id, turn::delayed_decision(d)));
}

proof fn facts_bluff(diff: DifficultyLevel, ts: TextStyle, id: Seq<char>, r: TrainingScenario)
    requires
        generated(TrainingTopic::BluffSpot, diff, ts, id, r),
    ensures
        table_facts(TrainingTopic::BluffSpot, r),
{
    let d = choose|d: river::BluffDraw| river::bluff_draw_valid(d, diff) && #[trigger] river::bluff_outcome(d, id, r) && r.question@ == river::bluff_question(d, ts) && explains(r, river::bluff_explanations(d, ts));
    assert(shows(r, id, river::bluff_decision(d)));
}

proof fn facts_value(diff: DifficultyLevel, ts: TextStyle, id: Seq<char>, r: TrainingScenario)
    requires
        generated(TrainingTopic::RiverValueBet, diff, ts, id, r),
    ensures
        table_facts(TrainingTopic::RiverValueBet, r),
{
    let d = choose|d: river::ValueDraw| river::value_draw_valid(d, diff) && #[trigger] river::value_outcome(d, id, r) && r.question@ == river::value_question(d, ts) && explains(r, river::value_explanations(d, ts));
    assert(shows(r, id, river::value_decision(d)));
}

proof fn facts_call(diff: DifficultyLevel, ts: TextStyle, id: Seq<char>, r: TrainingScenario)
    requires
        generated(TrainingTopic::RiverCallOrFold, diff, ts, id, r),
    ensures
        table_facts(TrainingTopic::RiverCallOrFold, r),
{
    let d = choose|d: river::CallFoldDraw| river::call_draw_valid(d, diff) && #[trigger] river::call_outcome(d, id, r) && r.question@ == river::call_question(d, ts) && explains(r, river::call_explanations(d, ts));
    assert(shows(r, id, river::call_decision(d)));
}

proof fn lemma_villain_bet_fits(pot_bb: u32, pct: u32)
    requires
        pot_bb <= 30,
        pct <= 75,
    ensures
        2 <= flop::cr_villain_bet(pot_bb * 2, pct as int) <= 45,
{
    assert(pot_bb * 2 * pct <= 4500) by (nonlinear_arith)
        requires pot_bb <= 30, pct <= 75;
}

proof fn lemma_bet_fits(d: flop::PotOddsDraw)
    requires
        d.pot_bb <= 30,
        0x80_0000 <= d.bet_frac <= 0x1000_0000,
    ensures
        flop::po_bet(d) <= 8 * 60,
{
    let n = d.pot_bb * 2 * d.bet_frac;
    if d.pot_bb > 0 {
        assert(0 < n <= (8 * 60) * 0x200_0000) by (nonlinear_arith)
            requires n == d.pot_bb * 2 * d.bet_frac, 0 < d.pot_bb <= 30, 0x80_0000 <= d.bet_frac <= 0x1000_0000;
        crate::binary32::lemma_single_rounded_le(n as nat, 0x200_0000, 8 * 60);
    }
}

/// Run the generator of topic `topic`.
fn dispatch(
    topic: TrainingTopic,
    rng: &mut StdRng,
    difficulty: DifficultyLevel,
    scenario_id: String,
    ts: TextStyle,
) -> (r: TrainingScenario)
    ensures
        generated(topic, difficulty, ts, scenario_id@, r),
{
    match topic {
        // Preflop topics
        TrainingTopic::PreflopDecision => preflop::generate(rng, difficulty, scenario_id, ts),
        TrainingTopic::ICMAndTournamentDecision => preflop::generate_icm(rng, difficulty, scenario_id, ts),
        TrainingTopic::AntiLimperIsolation => preflop::generate_anti_limper(rng, difficulty, scenario_id, ts),
        TrainingTopic::SqueezePlay => preflop::generate_squeeze(rng, difficulty, scenario_id, ts),
        TrainingTopic::BigBlindDefense => preflop::generate_bb_defense(rng, difficulty, scenario_id, ts),
        // Flop topics
        TrainingTopic::PostflopContinuationBet => flop::generate_cbet(rng, difficulty, scenario_id, ts),
        TrainingTopic::PotOddsAndEquity => flop::generate_pot_odds(rng, difficulty, scenario_id, ts),
        TrainingTopic::CheckRaiseSpot => flop::generate_check_raise(rng, difficulty, scenario_id, ts),
        TrainingTopic::SemiBluffDecision => flop::generate_semi_bluff(rng, difficulty, scenario_id, ts),
        TrainingTopic::ThreeBetPotCbet => flop::generate_3bet_cbet(rng, difficulty, scenario_id, ts),
        // Turn topics
        TrainingTopic::TurnBarrelDecision => turn::generate_barrel(rng, difficulty, scenario_id, ts),
        TrainingTopic::TurnProbeBet => turn::generate_probe(rng, difficulty, scenario_id, ts),
        TrainingTopic::DelayedCbet => turn::generate_delayed_cbet(rng, difficulty, scenario_id, ts),
        // River topics
        TrainingTopic::BluffSpot => river::generate_bluff(rng, difficulty, scenario_id, ts),
        TrainingTopic::RiverValueBet => river::generate_value_bet(rng, difficulty, scenario_id, ts),
        TrainingTopic::RiverCallOrFold => river::generate_call_or_fold(rng, difficulty, scenario_id, ts),
    }
}

/// Seed used when a request without a seed finds the operating system
/// unable to supply entropy.
pub const ENTROPY_FALLBACK_SEED: u64 = 0;

/// Generate a complete poker training scenario.
///
/// The topic is the requested one, or one of the requested street's topics;
/// the id is the topic's prefix, a hyphen and eight hex digits; the scenario
/// is what the topic's generator makes of a valid draw at the requested
/// difficulty.  With a seed the RNG is `StdRng::seed_from_u64(seed)`, without
/// one it is seeded from the operating system, or from
/// [`ENTROPY_FALLBACK_SEED`] when the operating system has no entropy to give.
pub fn generate_training(request: TrainingRequest) -> (r: TrainingScenario)
    ensures
        selector_allows(request.topic, r.topic),
        exists|n: u32| r.scenario_id@ == #[trigger] scenario_id_spec(r.topic, n),
        generated(r.topic, request.difficulty, request.text_style, r.scenario_id@, r),
        count_correct(r.answers@) == 1,
        2 <= r.answers@.len() <= 4,
        fresh_cards(r.table_setup.hero_hand@, r.table_setup.board@),
        r.table_setup.board@.len() == street_board_len(topic_street(r.topic)),
        table_facts(r.topic, r),
        texts_non_empty(r),
{
    let mut rng = match request.rng_seed {
        Some(seed) => rng_from_seed(seed),
        None => match try_rng_from_entropy() {
            Some(r) => r,
            // The operating system gave no entropy: fall back to a fixed seed
            // rather than fail.
            None => rng_from_seed(ENTROPY_FALLBACK_SEED),
        },
    };
    // Resolve a street selector to a concrete topic (consumes RNG in street mode).
    let topic = resolve_topic(request.topic, &mut rng);
    let scenario_id = make_scenario_id(topic, &mut rng);
    let ghost id = scenario_id@;
    let r = dispatch(topic, &mut rng, request.difficulty, scenario_id, request.text_style);
    proof {
        law_generated_scenario_is_well_formed(topic, request.difficulty, request.text_style, id, r);
        law_topic_table_facts(topic, request.difficulty, request.text_style, id, r);
        law_generated_texts_are_non_empty(topic, request.difficulty, request.text_style, id, r);
    }
    r
}

} // verus!
