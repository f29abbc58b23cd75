//! Shared builders used by every topic generator: dealing, card text, answer
//! options, player lists, and the final scenario; plus the facts that all
//! scenarios share (answer ids, the single correct answer, fresh cards).

use vstd::prelude::*;
use rand::rngs::StdRng;
use crate::deck::{all_valid, ordered_deck, shuffle_draws_valid, shuffled, Deck};
use crate::models::{AnswerOption, Card, GameType, PlayerState, Position, TableSetup, TextStyle, TrainingScenario, TrainingTopic, card_chars};
use crate::text::push_char;

verus! {

// ---------------------------------------------------------------------------
// Facts shared by all scenarios
// ---------------------------------------------------------------------------

/// Hero's cards and the board are cards of the deck, none of them twice.
pub open spec fn fresh_cards(hand: Seq<Card>, board: Seq<Card>) -> bool {
    &&& hand.len() == 2
    &&& all_valid(hand + board)
    &&& (hand + board).no_duplicates()
}

/// The id of the `i`-th answer option.
pub open spec fn answer_id(i: int) -> Seq<char> {
    if i == 0 {
        "A"@
    } else if i == 1 {
        "B"@
    } else if i == 2 {
        "C"@
    } else {
        "D"@
    }
}

/// `n` answers with ids A, B, C, ... in order; exactly the one at index
/// `correct` is marked correct.
pub open spec fn answers_marked(answers: Seq<AnswerOption>, n: nat, correct: int) -> bool {
    &&& answers.len() == n
    &&& 0 <= correct < n
    &&& forall|i: int|
        0 <= i < n ==> (#[trigger] answers[i]).id@ == answer_id(i) && (answers[i].is_correct <==> i
            == correct)
}

/// Number of answers marked correct.
pub open spec fn count_correct(answers: Seq<AnswerOption>) -> nat
    decreases answers.len(),
{
    if answers.len() == 0 {
        0
    } else {
        count_correct(answers.drop_last()) + if answers.last().is_correct { 1nat } else { 0nat }
    }
}

proof fn lemma_count_correct(answers: Seq<AnswerOption>, correct: int)
    requires
        0 <= correct,
        forall|i: int| 0 <= i < answers.len() ==> ((#[trigger] answers[i]).is_correct <==> i == correct),
    ensures
        count_correct(answers) == if correct < answers.len() { 1nat } else { 0nat },
    decreases answers.len(),
{
    if answers.len() > 0 {
        let init = answers.drop_last();
        assert forall|i: int| 0 <= i < init.len() implies ((#[trigger] init[i]).is_correct <==> i
            == correct) by {
            assert(init[i] == answers[i]);
        }
        lemma_count_correct(init, correct);
    }
}

/// Every scenario built from marked answers has exactly one correct answer,
/// and all answer ids differ.
pub proof fn law_exactly_one_correct(answers: Seq<AnswerOption>, n: nat, correct: int)
    requires
        answers_marked(answers, n, correct),
        n <= 4,
    ensures
        count_correct(answers) == 1,
        forall|i: int, j: int| 0 <= i < j < n ==> answers[i].id@ != answers[j].id@,
{
    lemma_count_correct(answers, correct);
    lemma_answer_ids_differ();
    assert forall|i: int, j: int| 0 <= i < j < n implies answers[i].id@ != answers[j].id@ by {
        assert(answers[i].id@ == answer_id(i));
        assert(answers[j].id@ == answer_id(j));
    }
}

/// The four answer ids are pairwise different.
pub proof fn lemma_answer_ids_differ()
    ensures
        forall|i: int, j: int| 0 <= i < j < 4 ==> answer_id(i) != answer_id(j),
{
    reveal_strlit("A");
    reveal_strlit("B");
    reveal_strlit("C");
    reveal_strlit("D");
    assert("A"@[0] != "B"@[0]);
    assert("A"@[0] != "C"@[0]);
    assert("A"@[0] != "D"@[0]);
    assert("B"@[0] != "C"@[0]);
    assert("B"@[0] != "D"@[0]);
    assert("C"@[0] != "D"@[0]);
}

/// The table setup has exactly these fields.
pub open spec fn setup_is(
    t: TableSetup,
    game_type: GameType,
    hero_pos: Position,
    hand: [Card; 2],
    board: Seq<Card>,
    players: Seq<PlayerState>,
    pot: u32,
    bet: u32,
) -> bool {
    &&& t.game_type == game_type
    &&& t.hero_position == hero_pos
    &&& t.hero_hand == hand
    &&& t.board@ == board
    &&& t.players@ == players
    &&& t.pot_size == pot
    &&& t.current_bet == bet
}

/// The texts of a scenario that shows `dec` and asks `question` with
/// explanations `texts` are non-empty when those of `dec`, `question` and
/// `texts` are.
pub proof fn lemma_texts_shown(r: TrainingScenario, id: Seq<char>, dec: Decision, question: Seq<char>, texts: Seq<Seq<char>>)
    requires
        shows(r, id, dec),
        r.question@ == question,
        explains(r, texts),
        question.len() > 0,
        dec.branch.len() > 0,
        forall|i: int| 0 <= i < dec.labels.len() ==> #[trigger] dec.labels[i].len() > 0,
        forall|i: int| 0 <= i < texts.len() ==> #[trigger] texts[i].len() > 0,
    ensures
        texts_non_empty(r),
{
    assert forall|i: int| 0 <= i < r.answers@.len() implies (#[trigger] r.answers@[i]).text@.len() > 0
        && r.answers@[i].explanation@.len() > 0 by {
        assert(r.answers@[i].text@ == dec.labels[i]);
        assert(r.answers@[i].explanation@ == texts[i]);
        assert(dec.labels[i].len() > 0);
        assert(texts[i].len() > 0);
    }
}

/// The question, the branch key, and every answer's label and explanation
/// of `r` have at least one character.
pub open spec fn texts_non_empty(r: TrainingScenario) -> bool {
    &&& r.question@.len() > 0
    &&& r.branch_key@.len() > 0
    &&& forall|i: int|
        0 <= i < r.answers@.len() ==> (#[trigger] r.answers@[i]).text@.len() > 0 && r.answers@[i].explanation@.len() > 0
}

/// What a scenario decides, apart from its wording: the topic, the decision
/// branch, the table, the labels of its `answers` options, and which of them
/// is the correct one.
pub struct Decision {
    pub topic: TrainingTopic,
    pub branch: Seq<char>,
    pub game_type: GameType,
    pub hero_pos: Position,
    pub hand: [Card; 2],
    pub board: Seq<Card>,
    pub players: Seq<PlayerState>,
    pub pot: u32,
    pub bet: u32,
    pub answers: nat,
    pub labels: Seq<Seq<char>>,
    pub correct: int,
}

/// Scenario `r`, with id `id`, shows decision `dec`.
pub open spec fn shows(r: TrainingScenario, id: Seq<char>, dec: Decision) -> bool {
    &&& r.scenario_id@ == id
    &&& r.topic == dec.topic
    &&& r.branch_key@ == dec.branch
    &&& setup_is(r.table_setup, dec.game_type, dec.hero_pos, dec.hand, dec.board, dec.players, dec.pot, dec.bet)
    &&& answers_marked(r.answers@, dec.answers, dec.correct)
    &&& dec.labels.len() == dec.answers
    &&& forall|i: int| 0 <= i < dec.answers ==> (#[trigger] r.answers@[i]).text@ == dec.labels[i]
}

/// The answers of `r` carry exactly the explanations `texts`, in order.
pub open spec fn explains(r: TrainingScenario, texts: Seq<Seq<char>>) -> bool {
    &&& r.answers@.len() == texts.len()
    &&& forall|i: int| 0 <= i < texts.len() ==> (#[trigger] r.answers@[i]).explanation@ == texts[i]
}

/// Two scenarios that show the same decision differ at most in their wording
/// (question and explanations): topic, branch, table, answer ids and labels,
/// and which answer is correct all agree.  Every topic builder states
/// its result as `shows(r, id, decision(draw))` whatever the text style, so
/// the text style never changes the correct answer.
pub proof fn law_decision_fixes_all_but_wording(r1: TrainingScenario, r2: TrainingScenario, id: Seq<char>, dec: Decision)
    requires
        shows(r1, id, dec),
        shows(r2, id, dec),
    ensures
        r1.scenario_id@ == r2.scenario_id@,
        r1.topic == r2.topic,
        r1.branch_key@ == r2.branch_key@,
        r1.table_setup.game_type == r2.table_setup.game_type,
        r1.table_setup.hero_position == r2.table_setup.hero_position,
        r1.table_setup.hero_hand == r2.table_setup.hero_hand,
        r1.table_setup.board@ == r2.table_setup.board@,
        r1.table_setup.players@ == r2.table_setup.players@,
        r1.table_setup.pot_size == r2.table_setup.pot_size,
        r1.table_setup.current_bet == r2.table_setup.current_bet,
        r1.answers@.len() == r2.answers@.len(),
        forall|i: int|
            0 <= i < r1.answers@.len() ==> (#[trigger] r1.answers@[i]).id@ == r2.answers@[i].id@
                && r1.answers@[i].text@ == r2.answers@[i].text@
                && r1.answers@[i].is_correct == r2.answers@[i].is_correct,
{
    assert forall|i: int| 0 <= i < r1.answers@.len() implies (#[trigger] r1.answers@[i]).id@ == r2.answers@[i].id@
        && r1.answers@[i].text@ == r2.answers@[i].text@
        && r1.answers@[i].is_correct == r2.answers@[i].is_correct by {
        assert(r1.answers@[i].id@ == answer_id(i));
        assert(r2.answers@[i].id@ == answer_id(i));
        assert(r1.answers@[i].text@ == dec.labels[i]);
        assert(r2.answers@[i].text@ == dec.labels[i]);
    }
}

/// A scenario is a function of what it shows and of its wording: two
/// scenarios that show the same decision under the same id, ask the same
/// question and carry the same explanations agree in every field.  With the
/// topic builders' contracts this says that a scenario depends on nothing but
/// its draw, its id and the text style.
pub proof fn law_scenario_fixed_by_decision_and_wording(
    r1: TrainingScenario,
    r2: TrainingScenario,
    id: Seq<char>,
    dec: Decision,
    question: Seq<char>,
    texts: Seq<Seq<char>>,
)
    requires
        shows(r1, id, dec),
        shows(r2, id, dec),
        r1.question@ == question,
        r2.question@ == question,
        explains(r1, texts),
        explains(r2, texts),
    ensures
        r1.scenario_id@ == r2.scenario_id@,
        r1.topic == r2.topic,
        r1.branch_key@ == r2.branch_key@,
        r1.table_setup.game_type == r2.table_setup.game_type,
        r1.table_setup.hero_position == r2.table_setup.hero_position,
        r1.table_setup.hero_hand == r2.table_setup.hero_hand,
        r1.table_setup.board@ == r2.table_setup.board@,
        r1.table_setup.players@ == r2.table_setup.players@,
        r1.table_setup.pot_size == r2.table_setup.pot_size,
        r1.table_setup.current_bet == r2.table_setup.current_bet,
        r1.question@ == r2.question@,
        r1.answers@.len() == r2.answers@.len(),
        forall|i: int|
            0 <= i < r1.answers@.len() ==> (#[trigger] r1.answers@[i]).id@ == r2.answers@[i].id@
                && r1.answers@[i].text@ == r2.answers@[i].text@
                && r1.answers@[i].is_correct == r2.answers@[i].is_correct
                && r1.answers@[i].explanation@ == r2.answers@[i].explanation@,
{
    law_decision_fixes_all_but_wording(r1, r2, id, dec);
    assert forall|i: int| 0 <= i < r1.answers@.len() implies (#[trigger] r1.answers@[i]).explanation@
        == r2.answers@[i].explanation@ by {
        assert(r1.answers@[i].explanation@ == texts[i]);
        assert(r2.answers@[i].explanation@ == texts[i]);
    }
}

/// The standard heads-up player list: villain in seat 1, hero in seat 2.
pub open spec fn heads_up_spec(
    hero_pos: Position,
    villain_pos: Position,
    hero_stack: u32,
    villain_stack: u32,
) -> Seq<PlayerState> {
    seq![
        PlayerState { seat: 1, position: villain_pos, stack: villain_stack, is_hero: false, is_active: true },
        PlayerState { seat: 2, position: hero_pos, stack: hero_stack, is_hero: true, is_active: true },
    ]
}

// ---------------------------------------------------------------------------
// Builders
// ---------------------------------------------------------------------------

proof fn lemma_subrange_keeps_distinct(s: Seq<Card>, a: int, b: int)
    requires
        0 <= a <= b <= s.len(),
        s.no_duplicates(),
        all_valid(s),
    ensures
        s.subrange(a, b).no_duplicates(),
        all_valid(s.subrange(a, b)),
{
    let t = s.subrange(a, b);
    assert forall|i: int, j: int| 0 <= i < t.len() && 0 <= j < t.len() && i != j implies t[i] != t[j] by {
        assert(t[i] == s[a + i]);
        assert(t[j] == s[a + j]);
    }
    assert forall|i: int| 0 <= i < t.len() implies (#[trigger] t[i]).valid() by {
        assert(t[i] == s[a + i]);
    }
}

/// Deal hero hand (2 cards) + `board_cards` board cards from a freshly
/// shuffled deck, in that order: hand and board are the top `2 +
/// board_cards` cards of the Fisher–Yates shuffle of the ordered deck by the
/// drawn swap partners.
pub fn deal(rng: &mut StdRng, board_cards: usize) -> (res: ([Card; 2], Vec<Card>))
    requires
        board_cards <= 50,
    ensures
        res.1@.len() == board_cards,
        fresh_cards(res.0@, res.1@),
        exists|js: Seq<usize>|
            shuffle_draws_valid(js) && res.0@ + res.1@ == #[trigger] shuffled(ordered_deck(), js).subrange(
                0,
                2 + board_cards as int,
            ),
{
    let mut deck = Deck::new_shuffled(rng);
    let ghost cards = deck@.cards;
    let ghost js = choose|js: Seq<usize>| shuffle_draws_valid(js) && cards == #[trigger] shuffled(ordered_deck(), js);
    let c0 = deck.deal();
    let c1 = deck.deal();
    let hand = [c0, c1];
    let board = deck.deal_n(board_cards);
    proof {
        assert(hand@ + board@ =~= cards.subrange(0, 2 + board_cards as int));
        lemma_subrange_keeps_distinct(cards, 0, 2 + board_cards as int);
        assert(shuffle_draws_valid(js) && hand@ + board@ == shuffled(ordered_deck(), js).subrange(0, 2 + board_cards as int));
    }
    (hand, board)
}

/// Text of the cards joined by single spaces.
pub open spec fn board_chars(board: Seq<Card>) -> Seq<char>
    decreases board.len(),
{
    if board.len() == 0 {
        Seq::empty()
    } else if board.len() == 1 {
        card_chars(board[0])
    } else {
        board_chars(board.drop_last()).push(' ') + card_chars(board.last())
    }
}

/// Text of hero's two cards, e.g. "AcKs".
pub open spec fn hand_chars(hand: [Card; 2]) -> Seq<char> {
    card_chars(hand[0]) + card_chars(hand[1])
}

/// Format hero hand as string (e.g. "AcKs").
pub fn hand_str(hand: [Card; 2]) -> (s: String)
    ensures
        s@ == card_chars(hand[0]) + card_chars(hand[1]),
{
    let mut s = String::new();
    push_char(&mut s, hand[0].rank.symbol_char());
    push_char(&mut s, hand[0].suit.symbol_char());
    push_char(&mut s, hand[1].rank.symbol_char());
    push_char(&mut s, hand[1].suit.symbol_char());
    assert(s@ =~= card_chars(hand[0]) + card_chars(hand[1]));
    s
}

/// Format board as space-separated string (e.g. "Ac Ks 7h").
pub fn board_str(board: &[Card]) -> (s: String)
    ensures
        s@ == board_chars(board@),
{
    let mut s = String::new();
    let mut i: usize = 0;
    while i < board.len()
        invariant
            i <= board@.len(),
            s@ == board_chars(board@.take(i as int)),
        decreases board@.len() - i,
    {
        let ghost prev = board@.take(i as int);
        if i > 0 {
            push_char(&mut s, ' ');
        }
        push_char(&mut s, board[i].rank.symbol_char());
        push_char(&mut s, board[i].suit.symbol_char());
        proof {
            let next = board@.take(i + 1);
            assert(next.drop_last() =~= prev);
            if i == 0 {
                assert(s@ =~= card_chars(next[0]));
            } else {
                assert(s@ =~= board_chars(prev).push(' ') + card_chars(next.last()));
            }
        }
        i += 1;
    }
    assert(board@.take(board@.len() as int) =~= board@);
    s
}

pub open spec fn styled_spec(ts: TextStyle, simple: String, technical: String) -> String {
    match ts {
        TextStyle::Simple => simple,
        TextStyle::Technical => technical,
    }
}

/// Pick the wording for the active text style: `Simple` gets the plain
/// English text, `Technical` the poker-jargon text.
pub fn styled(ts: TextStyle, simple: String, technical: String) -> (s: String)
    ensures
        s == styled_spec(ts, simple, technical),
{
    match ts {
        TextStyle::Simple => simple,
        TextStyle::Technical => technical,
    }
}

/// Whether two strings hold the same characters.
pub fn str_eq(a: &str, b: &str) -> (r: bool)
    ensures
        r == (a@ == b@),
{
    let n = a.unicode_len();
    if n != b.unicode_len() {
        return false;
    }
    let mut i: usize = 0;
    while i < n
        invariant
            n == a@.len(),
            n == b@.len(),
            i <= n,
            forall|k: int| 0 <= k < i ==> a@[k] == b@[k],
        decreases n - i,
    {
        if a.get_char(i) != b.get_char(i) {
            return false;
        }
        i += 1;
    }
    assert(a@ =~= b@);
    true
}

/// Build one answer option; `is_correct` is `id == correct`, and the
/// explanation is chosen by the text style.
pub fn answer(id: &str, text: String, correct: &str, ts: TextStyle, simple: String, tech: String) -> (a:
    AnswerOption)
    ensures
        a.id@ == id@,
        a.text == text,
        a.is_correct == (id@ == correct@),
        a.explanation == styled_spec(ts, simple, tech),
{
    AnswerOption { id: id.to_owned(), text, is_correct: str_eq(id, correct), explanation: styled(ts, simple, tech) }
}

/// The `i`-th answer option (id A, B, C or D), correct when `i == correct`.
pub fn option_at(i: usize, text: String, correct: usize, explanation: String) -> (a: AnswerOption)
    requires
        i < 4,
    ensures
        a.id@ == answer_id(i as int),
        a.text == text,
        a.is_correct == (i == correct),
        a.explanation == explanation,
{
    let id = match i {
        0 => "A",
        1 => "B",
        2 => "C",
        _ => "D",
    };
    AnswerOption { id: id.to_owned(), text, is_correct: i == correct, explanation }
}

/// Build a standard 2-player heads-up setup.
pub fn heads_up(hero_pos: Position, villain_pos: Position, hero_stack: u32, villain_stack: u32) -> (v: Vec<
    PlayerState,
>)
    ensures
        v@ == heads_up_spec(hero_pos, villain_pos, hero_stack, villain_stack),
{
    vec![
        PlayerState { seat: 1, position: villain_pos, stack: villain_stack, is_hero: false, is_active: true },
        PlayerState { seat: 2, position: hero_pos, stack: hero_stack, is_hero: true, is_active: true },
    ]
}

/// Assemble the final scenario from its parts.
pub fn scenario(
    id: String,
    topic: TrainingTopic,
    branch_key: String,
    game_type: GameType,
    hero_pos: Position,
    hero_hand: [Card; 2],
    board: Vec<Card>,
    players: Vec<PlayerState>,
    pot: u32,
    bet: u32,
    question: String,
    answers: Vec<AnswerOption>,
) -> (s: TrainingScenario)
    ensures
        s.scenario_id == id,
        s.topic == topic,
        s.branch_key == branch_key,
        setup_is(s.table_setup, game_type, hero_pos, hero_hand, board@, players@, pot, bet),
        s.question == question,
        s.answers == answers,
{
    TrainingScenario {
        scenario_id: id,
        topic,
        branch_key,
        table_setup: TableSetup {
            game_type,
            hero_position: hero_pos,
            hero_hand,
            board,
            players,
            pot_size: pot,
            current_bet: bet,
        },
        question,
        answers,
    }
}

} // verus!
