//! Shared data types: cards, table metadata, and the request / scenario types
//! of the public API.
//!
//! A card is a (rank, suit) pair; rank 2..=14 where 14 is the ace.  Text forms
//! follow the usual notation: "As" is the ace of spades, "Tc" the ten of clubs.

use vstd::prelude::*;
use crate::text::push_char;
use vstd::std_specs::convert::IntoSpec;

verus! {

// ---------------------------------------------------------------------------
// Card primitives
// ---------------------------------------------------------------------------

#[derive(Debug, Clone, Copy, PartialEq, Eq, Hash, Structural)]
pub enum Suit {
    Clubs,
    Diamonds,
    Hearts,
    Spades,
}

/// Rank 2..=14 where 14 = Ace.
#[derive(Debug, Clone, Copy, PartialEq, Eq, PartialOrd, Ord, Hash, Structural)]
pub struct Rank(pub u8);

#[derive(Debug, Clone, Copy, PartialEq, Eq, Hash, Structural)]
pub struct Card {
    pub rank: Rank,
    pub suit: Suit,
}

/// One-letter symbol of a rank: digits for 2..9, then T J Q K A; '?' otherwise.
pub open spec fn rank_char(r: u8) -> char {
    if 2 <= r <= 9 {
        crate::text::digit_char(r as nat)
    } else if r == 10 {
        'T'
    } else if r == 11 {
        'J'
    } else if r == 12 {
        'Q'
    } else if r == 13 {
        'K'
    } else if r == 14 {
        'A'
    } else {
        '?'
    }
}

/// One-letter symbol of a suit.
pub open spec fn suit_char(s: Suit) -> char {
    match s {
        Suit::Clubs => 'c',
        Suit::Diamonds => 'd',
        Suit::Hearts => 'h',
        Suit::Spades => 's',
    }
}

/// Text of a card: rank symbol followed by suit symbol ("As", "Tc").
pub open spec fn card_chars(c: Card) -> Seq<char> {
    seq![rank_char(c.rank.0), suit_char(c.suit)]
}

/// The string that `Rank::symbol` returns for rank value `r`.
pub open spec fn rank_symbol_text(r: u8) -> Seq<char> {
    if r == 2 { "2"@ }
    else if r == 3 { "3"@ }
    else if r == 4 { "4"@ }
    else if r == 5 { "5"@ }
    else if r == 6 { "6"@ }
    else if r == 7 { "7"@ }
    else if r == 8 { "8"@ }
    else if r == 9 { "9"@ }
    else if r == 10 { "T"@ }
    else if r == 11 { "J"@ }
    else if r == 12 { "Q"@ }
    else if r == 13 { "K"@ }
    else if r == 14 { "A"@ }
    else { "?"@ }
}

impl Rank {
    pub fn symbol(self) -> (s: &'static str)
        ensures
            s@ == rank_symbol_text(self.0),
    {
        match self.0 {
            2 => "2",
            3 => "3",
            4 => "4",
            5 => "5",
            6 => "6",
            7 => "7",
            8 => "8",
            9 => "9",
            10 => "T",
            11 => "J",
            12 => "Q",
            13 => "K",
            14 => "A",
            _ => "?",
        }
    }

    /// The rank symbol as a character.
    pub fn symbol_char(self) -> (c: char)
        ensures
            c == rank_char(self.0),
    {
        match self.0 {
            2 => '2',
            3 => '3',
            4 => '4',
            5 => '5',
            6 => '6',
            7 => '7',
            8 => '8',
            9 => '9',
            10 => 'T',
            11 => 'J',
            12 => 'Q',
            13 => 'K',
            14 => 'A',
            _ => '?',
        }
    }
}

impl Suit {
    /// The suit symbol: c, d, h or s.
    pub fn symbol_char(self) -> (c: char)
        ensures
            c == suit_char(self),
    {
        match self {
            Suit::Clubs => 'c',
            Suit::Diamonds => 'd',
            Suit::Hearts => 'h',
            Suit::Spades => 's',
        }
    }
}

impl Card {
    /// A card of the standard deck: rank between 2 and 14.
    pub open spec fn valid(self) -> bool {
        2 <= self.rank.0 <= 14
    }

    /// The card in standard notation, e.g. "As" or "Tc".
    pub fn text(&self) -> (s: String)
        ensures
            s@ == card_chars(*self),
    {
        let mut s = String::new();
        push_char(&mut s, self.rank.symbol_char());
        push_char(&mut s, self.suit.symbol_char());
        assert(s@ =~= card_chars(*self));
        s
    }
}

// ---------------------------------------------------------------------------
// Table / game metadata
// ---------------------------------------------------------------------------

#[derive(Debug, Clone, Copy, PartialEq, Eq, Structural)]
pub enum GameType {
    CashGame,
    Tournament,
}

impl GameType {
    /// The text that `name` returns.
    pub open spec fn name_text(self) -> Seq<char> {
        match self {
            GameType::CashGame => "Cash Game"@,
            GameType::Tournament => "Tournament"@,
        }
    }

    /// Display name ("Cash Game" / "Tournament").
    pub fn name(self) -> (s: &'static str)
        ensures
            s@ == self.name_text(),
    {
        match self {
            GameType::CashGame => "Cash Game",
            GameType::Tournament => "Tournament",
        }
    }
}

#[derive(Debug, Clone, Copy, PartialEq, Eq, Structural)]
pub enum Position {
    UTG,
    UTG1,
    UTG2,
    LJ,
    HJ,
    CO,
    BTN,
    SB,
    BB,
}

impl Position {
    /// Is this position considered "in position" (acts last postflop)?
    pub open spec fn spec_is_late(self) -> bool {
        self == Position::CO || self == Position::BTN
    }

    pub fn is_late(self) -> (b: bool)
        ensures
            b == self.spec_is_late(),
    {
        matches!(self, Position::CO | Position::BTN)
    }

    /// The text that `name` returns.
    pub open spec fn name_text(self) -> Seq<char> {
        match self {
            Position::UTG => "UTG"@,
            Position::UTG1 => "UTG+1"@,
            Position::UTG2 => "UTG+2"@,
            Position::LJ => "Lojack"@,
            Position::HJ => "Hijack"@,
            Position::CO => "Cutoff"@,
            Position::BTN => "Button"@,
            Position::SB => "Small Blind"@,
            Position::BB => "Big Blind"@,
        }
    }

    /// Display name ("UTG+1", "Cutoff", "Big Blind", ...).
    pub fn name(self) -> (s: &'static str)
        ensures
            s@ == self.name_text(),
    {
        match self {
            Position::UTG => "UTG",
            Position::UTG1 => "UTG+1",
            Position::UTG2 => "UTG+2",
            Position::LJ => "Lojack",
            Position::HJ => "Hijack",
            Position::CO => "Cutoff",
            Position::BTN => "Button",
            Position::SB => "Small Blind",
            Position::BB => "Big Blind",
        }
    }
}

#[derive(Debug, Clone, Copy, PartialEq, Eq, Structural)]
pub struct PlayerState {
    pub seat: u8,
    pub position: Position,
    pub stack: u32,
    pub is_hero: bool,
    pub is_active: bool,
}

// ---------------------------------------------------------------------------
// Training request / response types
// ---------------------------------------------------------------------------

/// The four streets of a poker hand.
#[derive(Debug, Clone, Copy, PartialEq, Eq, Structural)]
pub enum Street {
    /// Before community cards — open-raise, 3-bet, squeeze, ICM push/fold.
    Preflop,
    /// First three community cards — c-bet, pot odds, check-raise, semi-bluff.
    Flop,
    /// Fourth community card — barrel, probe bet, delayed c-bet.
    Turn,
    /// Fifth community card — bluff, value bet, call-or-fold.
    River,
}

/// The 16 poker skills the engine can generate drills for.
#[derive(Debug, Clone, Copy, PartialEq, Eq, Hash, Structural)]
pub enum TrainingTopic {
    /// (PF-) Open-raise vs fold based on hand strength and position.
    PreflopDecision,
    /// (CB-) C-bet sizing on the flop: small on dry boards, large on wet.
    PostflopContinuationBet,
    /// (PO-) Call vs fold with a draw — compare pot odds to draw equity.
    PotOddsAndEquity,
    /// (BL-) River bluff sizing when hero has no showdown value.
    BluffSpot,
    /// (IC-) Tournament push/fold adjusted by ICM pressure.
    ICMAndTournamentDecision,
    /// (TB-) Double-barrel the turn vs check back based on the turn card.
    TurnBarrelDecision,
    /// (CR-) Check-raise, check-call, or fold from the BB on the flop.
    CheckRaiseSpot,
    /// (SB-) Semi-bluff raise with a draw on the flop.
    SemiBluffDecision,
    /// (AL-) Iso-raise a preflop limper vs overlimp vs fold.
    AntiLimperIsolation,
    /// (RV-) River value bet sizing: overbet nuts, large strong, check medium.
    RiverValueBet,
    /// (SQ-) Squeeze preflop vs an open and one or more callers.
    SqueezePlay,
    /// (BD-) Big Blind defense: 3-bet, call, or fold facing a single raise.
    BigBlindDefense,
    /// (3B-) C-bet sizing in 3-bet pots (smaller SPR, different dynamics).
    ThreeBetPotCbet,
    /// (RF-) Facing a river bet: call, fold, or raise.
    RiverCallOrFold,
    /// (PB-) Turn probe bet OOP after the flop checks through.
    TurnProbeBet,
    /// (DC-) Delayed c-bet on the turn after checking back the flop IP.
    DelayedCbet,
}

/// The topics of each street, in their canonical order.
pub open spec fn street_topics(s: Street) -> Seq<TrainingTopic> {
    match s {
        Street::Preflop => seq![
            TrainingTopic::PreflopDecision,
            TrainingTopic::ICMAndTournamentDecision,
            TrainingTopic::AntiLimperIsolation,
            TrainingTopic::SqueezePlay,
            TrainingTopic::BigBlindDefense,
        ],
        Street::Flop => seq![
            TrainingTopic::PostflopContinuationBet,
            TrainingTopic::PotOddsAndEquity,
            TrainingTopic::CheckRaiseSpot,
            TrainingTopic::SemiBluffDecision,
            TrainingTopic::ThreeBetPotCbet,
        ],
        Street::Turn => seq![
            TrainingTopic::TurnBarrelDecision,
            TrainingTopic::TurnProbeBet,
            TrainingTopic::DelayedCbet,
        ],
        Street::River => seq![
            TrainingTopic::BluffSpot,
            TrainingTopic::RiverValueBet,
            TrainingTopic::RiverCallOrFold,
        ],
    }
}

/// The street each topic is played on.
pub open spec fn topic_street(t: TrainingTopic) -> Street {
    match t {
        TrainingTopic::PreflopDecision
        | TrainingTopic::ICMAndTournamentDecision
        | TrainingTopic::AntiLimperIsolation
        | TrainingTopic::SqueezePlay
        | TrainingTopic::BigBlindDefense => Street::Preflop,
        TrainingTopic::PostflopContinuationBet
        | TrainingTopic::PotOddsAndEquity
        | TrainingTopic::CheckRaiseSpot
        | TrainingTopic::SemiBluffDecision
        | TrainingTopic::ThreeBetPotCbet => Street::Flop,
        TrainingTopic::TurnBarrelDecision
        | TrainingTopic::TurnProbeBet
        | TrainingTopic::DelayedCbet => Street::Turn,
        TrainingTopic::BluffSpot
        | TrainingTopic::RiverValueBet
        | TrainingTopic::RiverCallOrFold => Street::River,
    }
}

impl Street {
    /// All training topics that belong to this street.
    pub fn topics(self) -> (ts: Vec<TrainingTopic>)
        ensures
            ts@ == street_topics(self),
    {
        match self {
            Street::Preflop => vec![
                TrainingTopic::PreflopDecision,
                TrainingTopic::ICMAndTournamentDecision,
                TrainingTopic::AntiLimperIsolation,
                TrainingTopic::SqueezePlay,
                TrainingTopic::BigBlindDefense,
            ],
            Street::Flop => vec![
                TrainingTopic::PostflopContinuationBet,
                TrainingTopic::PotOddsAndEquity,
                TrainingTopic::CheckRaiseSpot,
                TrainingTopic::SemiBluffDecision,
                TrainingTopic::ThreeBetPotCbet,
            ],
            Street::Turn => vec![
                TrainingTopic::TurnBarrelDecision,
                TrainingTopic::TurnProbeBet,
                TrainingTopic::DelayedCbet,
            ],
            Street::River => vec![
                TrainingTopic::BluffSpot,
                TrainingTopic::RiverValueBet,
                TrainingTopic::RiverCallOrFold,
            ],
        }
    }

    /// The text that `name` returns.
    pub open spec fn name_text(self) -> Seq<char> {
        match self {
            Street::Preflop => "Preflop"@,
            Street::Flop => "Flop"@,
            Street::Turn => "Turn"@,
            Street::River => "River"@,
        }
    }

    /// Display name of the street.
    pub fn name(self) -> (s: &'static str)
        ensures
            s@ == self.name_text(),
    {
        match self {
            Street::Preflop => "Preflop",
            Street::Flop => "Flop",
            Street::Turn => "Turn",
            Street::River => "River",
        }
    }
}

/// Every topic is listed under exactly its own street: `t` is among the topics
/// of street `s` if and only if `t` is played on `s`.
pub proof fn law_street_topics_match_topic_street(s: Street, t: TrainingTopic)
    ensures
        street_topics(s).contains(t) <==> topic_street(t) == s,
{
    if topic_street(t) == s {
        let ts = street_topics(s);
        let i: int = match t {
            TrainingTopic::PreflopDecision => 0,
            TrainingTopic::ICMAndTournamentDecision => 1,
            TrainingTopic::AntiLimperIsolation => 2,
            TrainingTopic::SqueezePlay => 3,
            TrainingTopic::BigBlindDefense => 4,
            TrainingTopic::PostflopContinuationBet => 0,
            TrainingTopic::PotOddsAndEquity => 1,
            TrainingTopic::CheckRaiseSpot => 2,
            TrainingTopic::SemiBluffDecision => 3,
            TrainingTopic::ThreeBetPotCbet => 4,
            TrainingTopic::TurnBarrelDecision => 0,
            TrainingTopic::TurnProbeBet => 1,
            TrainingTopic::DelayedCbet => 2,
            TrainingTopic::BluffSpot => 0,
            TrainingTopic::RiverValueBet => 1,
            TrainingTopic::RiverCallOrFold => 2,
        };
        assert(ts[i] == t);
    } else {
        let ts = street_topics(s);
        assert forall|i: int| 0 <= i < ts.len() implies ts[i] != t by {
            assert(topic_street(ts[i]) == s);
        }
    }
}

impl TrainingTopic {
    /// Which street this topic belongs to.
    pub fn street(self) -> (s: Street)
        ensures
            s == topic_street(self),
    {
        match self {
            TrainingTopic::PreflopDecision
            | TrainingTopic::ICMAndTournamentDecision
            | TrainingTopic::AntiLimperIsolation
            | TrainingTopic::SqueezePlay
            | TrainingTopic::BigBlindDefense => Street::Preflop,
            TrainingTopic::PostflopContinuationBet
            | TrainingTopic::PotOddsAndEquity
            | TrainingTopic::CheckRaiseSpot
            | TrainingTopic::SemiBluffDecision
            | TrainingTopic::ThreeBetPotCbet => Street::Flop,
            TrainingTopic::TurnBarrelDecision
            | TrainingTopic::TurnProbeBet
            | TrainingTopic::DelayedCbet => Street::Turn,
            TrainingTopic::BluffSpot
            | TrainingTopic::RiverValueBet
            | TrainingTopic::RiverCallOrFold => Street::River,
        }
    }

    /// The text that `name` returns.
    pub open spec fn name_text(self) -> Seq<char> {
        match self {
            TrainingTopic::PreflopDecision => "Preflop Decision"@,
            TrainingTopic::PostflopContinuationBet => "Postflop Continuation Bet"@,
            TrainingTopic::PotOddsAndEquity => "Pot Odds & Equity"@,
            TrainingTopic::BluffSpot => "Bluff Spot"@,
            TrainingTopic::ICMAndTournamentDecision => "ICM & Tournament Decision"@,
            TrainingTopic::TurnBarrelDecision => "Turn Barrel Decision"@,
            TrainingTopic::CheckRaiseSpot => "Check-Raise Spot"@,
            TrainingTopic::SemiBluffDecision => "Semi-Bluff Decision"@,
            TrainingTopic::AntiLimperIsolation => "Anti-Limper Isolation"@,
            TrainingTopic::RiverValueBet => "River Value Bet"@,
            TrainingTopic::SqueezePlay => "Squeeze Play"@,
            TrainingTopic::BigBlindDefense => "Big Blind Defense"@,
            TrainingTopic::ThreeBetPotCbet => "3-Bet Pot C-Bet"@,
            TrainingTopic::RiverCallOrFold => "River Call or Fold"@,
            TrainingTopic::TurnProbeBet => "Turn Probe Bet"@,
            TrainingTopic::DelayedCbet => "Delayed C-Bet"@,
        }
    }

    /// Display name of the topic ("Pot Odds & Equity", ...).
    pub fn name(self) -> (s: &'static str)
        ensures
            s@ == self.name_text(),
    {
        match self {
            TrainingTopic::PreflopDecision => "Preflop Decision",
            TrainingTopic::PostflopContinuationBet => "Postflop Continuation Bet",
            TrainingTopic::PotOddsAndEquity => "Pot Odds & Equity",
            TrainingTopic::BluffSpot => "Bluff Spot",
            TrainingTopic::ICMAndTournamentDecision => "ICM & Tournament Decision",
            TrainingTopic::TurnBarrelDecision => "Turn Barrel Decision",
            TrainingTopic::CheckRaiseSpot => "Check-Raise Spot",
            TrainingTopic::SemiBluffDecision => "Semi-Bluff Decision",
            TrainingTopic::AntiLimperIsolation => "Anti-Limper Isolation",
            TrainingTopic::RiverValueBet => "River Value Bet",
            TrainingTopic::SqueezePlay => "Squeeze Play",
            TrainingTopic::BigBlindDefense => "Big Blind Defense",
            TrainingTopic::ThreeBetPotCbet => "3-Bet Pot C-Bet",
            TrainingTopic::RiverCallOrFold => "River Call or Fold",
            TrainingTopic::TurnProbeBet => "Turn Probe Bet",
            TrainingTopic::DelayedCbet => "Delayed C-Bet",
        }
    }
}

/// Controls stack-depth ranges and bet-size variance.  `Beginner` is the default.
#[derive(Debug, Clone, Copy, PartialEq, Eq, Structural)]
pub enum DifficultyLevel {
    Beginner,
    Intermediate,
    Advanced,
}

impl Default for DifficultyLevel {
    fn default() -> (d: Self)
        ensures
            d == DifficultyLevel::Beginner,
    {
        DifficultyLevel::Beginner
    }
}

impl DifficultyLevel {
    /// The text that `name` returns.
    pub open spec fn name_text(self) -> Seq<char> {
        match self {
            DifficultyLevel::Beginner => "Beginner"@,
            DifficultyLevel::Intermediate => "Intermediate"@,
            DifficultyLevel::Advanced => "Advanced"@,
        }
    }

    /// Display name of the level.
    pub fn name(self) -> (s: &'static str)
        ensures
            s@ == self.name_text(),
    {
        match self {
            DifficultyLevel::Beginner => "Beginner",
            DifficultyLevel::Intermediate => "Intermediate",
            DifficultyLevel::Advanced => "Advanced",
        }
    }
}

/// Controls the language style of question and explanation text.
/// `Simple` (the default) is plain English; `Technical` uses poker terminology.
#[derive(Debug, Clone, Copy, PartialEq, Eq, Structural)]
pub enum TextStyle {
    /// Plain English, no jargon.  This is the default.
    Simple,
    /// Standard poker terminology — SPR, EV, fold equity, c-bet, etc.
    Technical,
}

impl Default for TextStyle {
    fn default() -> (t: Self)
        ensures
            t == TextStyle::Simple,
    {
        TextStyle::Simple
    }
}

/// Choose what to drill: a specific topic or a random topic from a street.
#[derive(Debug, Clone, Copy, PartialEq, Eq, Structural)]
pub enum TopicSelector {
    /// A specific training topic.
    Topic(TrainingTopic),
    /// Any random topic from this street (chosen by the RNG).
    Street(Street),
}

impl From<TrainingTopic> for TopicSelector {
    fn from(t: TrainingTopic) -> (s: Self) {
        TopicSelector::Topic(t)
    }
}

impl vstd::std_specs::convert::FromSpecImpl<TrainingTopic> for TopicSelector {
    open spec fn obeys_from_spec() -> bool {
        true
    }

    open spec fn from_spec(t: TrainingTopic) -> Self {
        TopicSelector::Topic(t)
    }
}

impl From<Street> for TopicSelector {
    fn from(s: Street) -> (r: Self) {
        TopicSelector::Street(s)
    }
}

impl vstd::std_specs::convert::FromSpecImpl<Street> for TopicSelector {
    open spec fn obeys_from_spec() -> bool {
        true
    }

    open spec fn from_spec(s: Street) -> Self {
        TopicSelector::Street(s)
    }
}

/// Input to `generate_training`.  Only `topic` is required; the defaults are
/// Beginner difficulty, an entropy seed, and Simple text.
#[derive(Debug, Clone, Copy, PartialEq, Eq, Structural)]
pub struct TrainingRequest {
    /// What to drill — a specific topic or any topic from a street.
    pub topic: TopicSelector,
    /// Controls stack-depth ranges and bet-size variance.
    pub difficulty: DifficultyLevel,
    /// `Some(seed)` for reproducible output; `None` for entropy.
    pub rng_seed: Option<u64>,
    /// Language style for question and explanation text.
    pub text_style: TextStyle,
}

impl TrainingRequest {
    /// A request with just a topic (or street); all other fields take their
    /// defaults: Beginner difficulty, entropy seed, Simple text.
    pub fn new<T: Into<TopicSelector>>(topic: T) -> (r: Self)
        ensures
            T::obeys_into_spec() ==> r.topic == topic.into_spec(),
            r.difficulty == DifficultyLevel::Beginner,
            r.rng_seed.is_none(),
            r.text_style == TextStyle::Simple,
    {
        TrainingRequest {
            topic: topic.into(),
            difficulty: DifficultyLevel::default(),
            rng_seed: None,
            text_style: TextStyle::default(),
        }
    }
}

/// The physical table state: cards, positions, stacks, and pot.
///
/// `board` holds 0 (preflop), 3 (flop), 4 (turn) or 5 (river) cards;
/// `current_bet` is 0 when hero is first to act.
#[derive(Debug, Clone)]
pub struct TableSetup {
    pub game_type: GameType,
    pub hero_position: Position,
    /// Hero's two hole cards — never on the board.
    pub hero_hand: [Card; 2],
    /// Community cards dealt so far (unique, disjoint from `hero_hand`).
    pub board: Vec<Card>,
    pub players: Vec<PlayerState>,
    pub pot_size: u32,
    /// The bet hero must call (0 = hero acts first / no bet to face).
    pub current_bet: u32,
}

/// One answer choice.  Exactly one per scenario has `is_correct: true`.
#[derive(Debug, Clone)]
pub struct AnswerOption {
    /// Short ID shown in the UI ("A", "B", "C", ...).
    pub id: String,
    /// Human-readable label ("Raise to 6 BB", "Fold").
    pub text: String,
    /// True for exactly one answer per scenario.
    pub is_correct: bool,
    /// Why this choice is right or wrong, worded for the active text style.
    pub explanation: String,
}

/// The complete output of `generate_training`.
#[derive(Debug, Clone)]
pub struct TrainingScenario {
    /// ID with a 2-letter topic prefix, e.g. "PF-3A1C8F02".
    pub scenario_id: String,
    pub topic: TrainingTopic,
    /// Logical decision branch — stable across seeds.
    pub branch_key: String,
    pub table_setup: TableSetup,
    /// The question posed to the player (worded for the text style).
    pub question: String,
    /// All answer choices — exactly one has `is_correct: true`.
    pub answers: Vec<AnswerOption>,
}

} // verus!
