//! Concrete checks of the library's laws, formulas and edge cases.

use poker_drill_gen::deck::Deck;
use poker_drill_gen::evaluator::{
    classify_draw, has_straight_draw, hero_has_flush_draw, hero_has_straight_draw, suit_index, DrawType,
};
use poker_drill_gen::topics::preflop::{iso_raise_bb, push_threshold_bb, PushTier, TournamentStage};
use rand::rngs::StdRng;
use rand::SeedableRng;
use poker_drill_gen::drill::{grade_answer, parse_difficulty, parse_topic, ScenarioCache, CACHE_CAPACITY};
use poker_drill_gen::generator::scenario_id_for;
use poker_drill_gen::models::{Card, Rank, Suit};
use poker_drill_gen::nt_adapter::{game_state_str, position_seats, table_view, to_client_card};
use poker_drill_gen::text::{hex8, num, round_div, round_div_even, tenths_text};
use poker_drill_gen::topics::river::{build_call_or_fold, BetSize, CallFoldDraw, CallerStrength};
use poker_drill_gen::topics::turn::{build_barrel, classify_barrel_turn, BarrelDraw, BarrelTurnCard};
use poker_drill_gen::{
    generate_training, DifficultyLevel, Position, Street, TextStyle, TopicSelector, TrainingRequest,
    TrainingScenario, TrainingTopic,
};

fn c(r: u8, s: Suit) -> Card {
    Card { rank: Rank(r), suit: s }
}

fn seeded(topic: TrainingTopic, seed: u64) -> TrainingScenario {
    generate_training(TrainingRequest {
        topic: topic.into(),
        difficulty: DifficultyLevel::Advanced,
        rng_seed: Some(seed),
        text_style: TextStyle::Technical,
    })
}

// ── text formatting ──────────────────────────────────────────────────────────

#[test]
fn number_and_hex_text() {
    assert_eq!(num(0), "0");
    assert_eq!(num(1050), "1050");
    assert_eq!(hex8(0x2A), "0000002A");
    assert_eq!(hex8(0xDEAD_BEEF), "DEADBEEF");
    assert_eq!(tenths_text(123), "12.3");
    assert_eq!(tenths_text(5), "0.5");
}

#[test]
fn rounding_half_up_and_half_even() {
    // 2.5 rounds up with half-up and down to the even 2 with half-even
    assert_eq!(round_div(5, 2), 3);
    assert_eq!(round_div_even(5, 2), 2);
    assert_eq!(round_div_even(7, 2), 4);
    assert_eq!(round_div(1650, 100), 17);
    assert_eq!(round_div(1649, 100), 16);
}

#[test]
fn scenario_id_is_prefix_hyphen_and_eight_hex_digits() {
    assert_eq!(scenario_id_for(TrainingTopic::ThreeBetPotCbet, 0x2A), "3B-0000002A");
    assert_eq!(scenario_id_for(TrainingTopic::PreflopDecision, 0xDEAD_BEEF), "PF-DEADBEEF");
    let s = seeded(TrainingTopic::DelayedCbet, 5);
    assert!(s.scenario_id.starts_with("DC-"));
    assert_eq!(s.scenario_id.len(), 11);
    assert!(s.scenario_id[3..].chars().all(|ch| ch.is_ascii_hexdigit() && !ch.is_ascii_lowercase()));
}

// ── requests and topic resolution ────────────────────────────────────────────

#[test]
fn request_new_takes_the_defaults() {
    let r = TrainingRequest::new(TrainingTopic::BluffSpot);
    assert!(matches!(r.topic, TopicSelector::Topic(TrainingTopic::BluffSpot)));
    assert_eq!(r.difficulty, DifficultyLevel::Beginner);
    assert_eq!(r.rng_seed, None);
    assert_eq!(r.text_style, TextStyle::Simple);
    let r = TrainingRequest::new(Street::Flop);
    assert!(matches!(r.topic, TopicSelector::Street(Street::Flop)));
}

#[test]
fn street_selector_picks_a_topic_of_that_street() {
    for street in [Street::Preflop, Street::Flop, Street::Turn, Street::River] {
        for seed in 0..20u64 {
            let s = generate_training(TrainingRequest {
                topic: street.into(),
                difficulty: DifficultyLevel::Intermediate,
                rng_seed: Some(seed),
                text_style: TextStyle::Simple,
            });
            assert_eq!(s.topic.street(), street);
            assert!(street.topics().contains(&s.topic));
        }
    }
}

#[test]
fn every_topic_is_listed_under_its_own_street() {
    for street in [Street::Preflop, Street::Flop, Street::Turn, Street::River] {
        for t in street.topics() {
            assert_eq!(t.street(), street);
        }
    }
    let total: usize = [Street::Preflop, Street::Flop, Street::Turn, Street::River]
        .iter()
        .map(|s| s.topics().len())
        .sum();
    assert_eq!(total, 16);
}

#[test]
fn board_length_matches_street_for_every_difficulty() {
    let topics = [
        TrainingTopic::PreflopDecision,
        TrainingTopic::ICMAndTournamentDecision,
        TrainingTopic::PotOddsAndEquity,
        TrainingTopic::ThreeBetPotCbet,
        TrainingTopic::TurnProbeBet,
        TrainingTopic::RiverCallOrFold,
    ];
    for diff in [DifficultyLevel::Beginner, DifficultyLevel::Intermediate, DifficultyLevel::Advanced] {
        for t in topics {
            let s = generate_training(TrainingRequest {
                topic: t.into(),
                difficulty: diff,
                rng_seed: Some(3),
                text_style: TextStyle::Simple,
            });
            let expected = match t.street() {
                Street::Preflop => 0,
                Street::Flop => 3,
                Street::Turn => 4,
                Street::River => 5,
            };
            assert_eq!(s.table_setup.board.len(), expected);
            assert_eq!(s.answers.iter().filter(|a| a.is_correct).count(), 1);
        }
    }
}

#[test]
fn drawn_sizes_stay_in_their_ranges() {
    // Beginner turn barrel: 100 BB stacks, pot 14..=22 BB (in chips: x2)
    for seed in 0..30u64 {
        let s = generate_training(TrainingRequest {
            topic: TrainingTopic::TurnBarrelDecision.into(),
            difficulty: DifficultyLevel::Beginner,
            rng_seed: Some(seed),
            text_style: TextStyle::Simple,
        });
        let pot = s.table_setup.pot_size;
        assert!((28..=44).contains(&pot), "pot {pot}");
        assert!(s.table_setup.players.iter().all(|p| p.stack == 200));
    }
}

#[test]
fn same_seed_both_styles_same_decision() {
    for seed in [3u64, 8, 21] {
        for t in [TrainingTopic::CheckRaiseSpot, TrainingTopic::RiverValueBet, TrainingTopic::SqueezePlay] {
            let a = generate_training(TrainingRequest {
                topic: t.into(),
                difficulty: DifficultyLevel::Intermediate,
                rng_seed: Some(seed),
                text_style: TextStyle::Simple,
            });
            let b = generate_training(TrainingRequest {
                topic: t.into(),
                difficulty: DifficultyLevel::Intermediate,
                rng_seed: Some(seed),
                text_style: TextStyle::Technical,
            });
            assert_eq!(a.branch_key, b.branch_key);
            assert_eq!(a.table_setup.pot_size, b.table_setup.pot_size);
            assert_eq!(a.table_setup.board, b.table_setup.board);
            let ca: Vec<bool> = a.answers.iter().map(|x| x.is_correct).collect();
            let cb: Vec<bool> = b.answers.iter().map(|x| x.is_correct).collect();
            assert_eq!(ca, cb);
        }
    }
}

// ── turn barrel classification and a fixed draw ─────────────────────────────

#[test]
fn barrel_turn_card_classes() {
    let flop = [c(12, Suit::Hearts), c(7, Suit::Hearts), c(2, Suit::Clubs)];
    assert_eq!(classify_barrel_turn(&flop, &c(4, Suit::Hearts)), BarrelTurnCard::DrawComplete);
    let flop = [c(9, Suit::Clubs), c(7, Suit::Diamonds), c(2, Suit::Hearts)];
    assert_eq!(classify_barrel_turn(&flop, &c(8, Suit::Spades)), BarrelTurnCard::Blank);
    let flop = [c(9, Suit::Clubs), c(7, Suit::Diamonds), c(6, Suit::Hearts)];
    assert_eq!(classify_barrel_turn(&flop, &c(8, Suit::Spades)), BarrelTurnCard::DrawComplete);
    let flop = [c(9, Suit::Clubs), c(4, Suit::Diamonds), c(2, Suit::Hearts)];
    assert_eq!(classify_barrel_turn(&flop, &c(13, Suit::Spades)), BarrelTurnCard::ScareBroadway);
}

#[test]
fn barrel_blank_on_wet_flop_bets_medium() {
    // Flop 9c 8c 2h is wet (two clubs, connected); the 3d turn is a blank.
    let d = BarrelDraw {
        hero_hand: [c(14, Suit::Spades), c(13, Suit::Diamonds)],
        board: vec![c(9, Suit::Clubs), c(8, Suit::Clubs), c(2, Suit::Hearts), c(3, Suit::Diamonds)],
        stack_bb: 100,
        pot_bb: 20,
        hero_pos: Position::CO,
    };
    for ts in [TextStyle::Simple, TextStyle::Technical] {
        let s = build_barrel(&d, "TB-00000001".to_owned(), ts);
        assert_eq!(s.branch_key, "Blank:Wet");
        assert_eq!(s.answers.len(), 3);
        assert!(s.answers[1].is_correct);
        assert_eq!(s.answers[1].id, "B");
        assert_eq!(s.table_setup.pot_size, 40);
        assert_eq!(s.table_setup.players[0].position, Position::BB);
        assert_eq!(s.table_setup.players[1].position, Position::CO);
    }
}

// ── river call-or-fold arithmetic ────────────────────────────────────────────

#[test]
fn call_or_fold_small_bet_rounds_half_up() {
    // Pot 50 chips: a third of it is 16.5, shown as 17; the raise is 2.5 x 17 = 42.5 -> 43.
    let d = CallFoldDraw {
        hero_hand: [c(14, Suit::Spades), c(13, Suit::Spades)],
        board: vec![
            c(14, Suit::Hearts),
            c(13, Suit::Clubs),
            c(7, Suit::Diamonds),
            c(4, Suit::Clubs),
            c(2, Suit::Hearts),
        ],
        strength: CallerStrength::Strong,
        bet_size: BetSize::Small,
        pot_bb: 25,
        stack_bb: 100,
    };
    let s = build_call_or_fold(&d, "RF-00000002".to_owned(), TextStyle::Technical);
    assert_eq!(s.table_setup.pot_size, 50);
    assert_eq!(s.table_setup.current_bet, 17);
    assert_eq!(s.answers[2].text, "Raise to 43 chips");
    assert!(s.answers[2].is_correct);
    assert_eq!(s.branch_key, "Strong:SmallBet:Raise");
    // break-even equity 17 / (50 + 34) = 20.2% -> 20
    assert!(s.question.contains("~20% equity"));
}

#[test]
fn call_or_fold_large_bet_is_the_pot() {
    let d = CallFoldDraw {
        hero_hand: [c(5, Suit::Spades), c(3, Suit::Spades)],
        board: vec![
            c(14, Suit::Hearts),
            c(13, Suit::Clubs),
            c(7, Suit::Diamonds),
            c(4, Suit::Clubs),
            c(2, Suit::Hearts),
        ],
        strength: CallerStrength::Weak,
        bet_size: BetSize::Large,
        pot_bb: 10,
        stack_bb: 40,
    };
    let s = build_call_or_fold(&d, "RF-00000003".to_owned(), TextStyle::Simple);
    assert_eq!(s.table_setup.current_bet, 20);
    assert!(s.answers[0].is_correct);
    assert_eq!(s.branch_key, "Weak:LargeBet:Fold");
}

// ── client view ──────────────────────────────────────────────────────────────

#[test]
fn client_card_notation() {
    assert_eq!(to_client_card(&c(10, Suit::Hearts)), "10h");
    assert_eq!(to_client_card(&c(14, Suit::Spades)), "As");
    assert_eq!(to_client_card(&c(2, Suit::Clubs)), "2c");
}

#[test]
fn game_state_names() {
    assert_eq!(game_state_str(0), "PreFlop");
    assert_eq!(game_state_str(3), "Flop");
    assert_eq!(game_state_str(4), "Turn");
    assert_eq!(game_state_str(5), "River");
    assert_eq!(game_state_str(7), "River");
}

#[test]
fn blind_and_button_seats() {
    assert_eq!(position_seats(Position::BTN, Position::BB), (2, 0, 1));
    assert_eq!(position_seats(Position::BB, Position::BTN), (1, 0, 2));
    assert_eq!(position_seats(Position::SB, Position::BB), (2, 1, 0));
    assert_eq!(position_seats(Position::CO, Position::UTG), (0, 0, 0));
    assert_eq!(position_seats(Position::BB, Position::BB), (1, 0, 0));
}

#[test]
fn table_view_of_a_river_call() {
    let s = seeded(TrainingTopic::RiverCallOrFold, 11);
    let v = table_view(&s);
    assert_eq!(v.display_table_id, format!("training/{}", s.scenario_id));
    assert_eq!(v.game_state, "River");
    assert_eq!(v.community.len(), 5);
    assert!(v.community.iter().all(|x| !x.is_empty()));
    assert_eq!((v.seat_bb, v.seat_sb, v.seat_button), (2, 0, 1));
    assert_eq!(v.villain_last_action, "Bet");
    assert_eq!(v.current_bet, s.table_setup.current_bet);
    assert_eq!(v.hero_cards[0], to_client_card(&s.table_setup.hero_hand[0]));

    let p = seeded(TrainingTopic::SqueezePlay, 11);
    let v = table_view(&p);
    assert_eq!(v.game_state, "PreFlop");
    assert!(v.community.iter().all(|x| x.is_empty()));
}

// ── drill service logic ──────────────────────────────────────────────────────

#[test]
fn topic_and_difficulty_names_parse() {
    assert_eq!(parse_topic("BluffSpot"), Some(TrainingTopic::BluffSpot));
    assert_eq!(parse_topic("ThreeBetPotCbet"), Some(TrainingTopic::ThreeBetPotCbet));
    assert_eq!(parse_topic("bluffspot"), None);
    assert_eq!(parse_topic(""), None);
    assert_eq!(parse_difficulty("Advanced"), Some(DifficultyLevel::Advanced));
    assert_eq!(parse_difficulty("Expert"), None);
}

#[test]
fn grading_answers() {
    let s = seeded(TrainingTopic::BigBlindDefense, 4);
    let correct = s.answers.iter().find(|a| a.is_correct).unwrap().id.clone();
    let wrong = s.answers.iter().find(|a| !a.is_correct).unwrap().id.clone();
    let r = grade_answer(&s, &correct).unwrap();
    assert!(r.is_correct);
    assert_eq!(r.correct_id, correct);
    let r = grade_answer(&s, &wrong).unwrap();
    assert!(!r.is_correct);
    assert_eq!(r.correct_id, correct);
    assert!(!r.explanation.is_empty());
    assert!(grade_answer(&s, "Z").is_none());
}

#[test]
fn cache_gives_back_what_was_stored() {
    let mut cache = ScenarioCache::new();
    assert!(cache.get("PF-00000000").is_none());
    let a = seeded(TrainingTopic::PreflopDecision, 1);
    let b = seeded(TrainingTopic::BluffSpot, 2);
    cache.insert(a.clone());
    cache.insert(b.clone());
    assert_eq!(cache.len(), 2);
    assert_eq!(cache.get(&a.scenario_id).unwrap().question, a.question);
    assert_eq!(cache.get(&b.scenario_id).unwrap().question, b.question);
    // storing under an existing id replaces the entry
    let mut a2 = a.clone();
    a2.question = "replaced".to_owned();
    cache.insert(a2);
    assert_eq!(cache.len(), 2);
    assert_eq!(cache.get(&a.scenario_id).unwrap().question, "replaced");
}

#[test]
fn full_cache_evicts_the_oldest() {
    let mut cache = ScenarioCache::new();
    let base = seeded(TrainingTopic::TurnProbeBet, 9);
    for i in 0..CACHE_CAPACITY {
        let mut s = base.clone();
        s.scenario_id = format!("PB-{i:08X}");
        cache.insert(s);
    }
    assert_eq!(cache.len(), CACHE_CAPACITY);
    let mut extra = base.clone();
    extra.scenario_id = "PB-FFFFFFFF".to_owned();
    cache.insert(extra);
    assert_eq!(cache.len(), CACHE_CAPACITY);
    assert!(cache.get("PB-00000000").is_none());
    assert!(cache.get("PB-00000001").is_some());
    assert!(cache.get("PB-FFFFFFFF").is_some());
}

// ── deck, evaluator and preflop formulas ─────────────────────────────────────

#[test]
fn deck_counts_dealt_and_remaining_cards() {
    let mut rng = StdRng::seed_from_u64(7);
    let mut deck = Deck::new_shuffled(&mut rng);
    assert_eq!(deck.remaining(), 52);
    assert!(deck.dealt_cards().is_empty());
    let a = deck.deal();
    let rest = deck.deal_n(4);
    assert_eq!(deck.remaining(), 47);
    assert_eq!(deck.dealt_cards().len(), 5);
    assert_eq!(deck.dealt_cards()[0], a);
    assert_eq!(&deck.dealt_cards()[1..], &rest[..]);
    assert!(!rest.contains(&a));
}

#[test]
fn evaluator_draws_and_suits() {
    assert_eq!(suit_index(Suit::Clubs), 0);
    assert_eq!(suit_index(Suit::Spades), 3);
    let flush_and_straight = [c(9, Suit::Hearts), c(8, Suit::Hearts), c(2, Suit::Clubs)];
    assert_eq!(classify_draw(&flush_and_straight), DrawType::ComboDraw);
    let rainbow_gap = [c(13, Suit::Hearts), c(9, Suit::Clubs), c(2, Suit::Spades)];
    assert!(!has_straight_draw(&rainbow_gap));
    let one_gap = [c(5, Suit::Clubs), c(7, Suit::Diamonds), c(13, Suit::Hearts)];
    assert!(has_straight_draw(&one_gap));
    let two_gap = [c(5, Suit::Clubs), c(8, Suit::Diamonds), c(13, Suit::Hearts)];
    assert!(!has_straight_draw(&two_gap));
    assert!(hero_has_flush_draw([c(4, Suit::Hearts), c(5, Suit::Clubs)], &flush_and_straight));
    assert!(!hero_has_flush_draw([c(4, Suit::Spades), c(5, Suit::Clubs)], &flush_and_straight));
    assert!(hero_has_straight_draw([c(10, Suit::Spades), c(3, Suit::Clubs)], &flush_and_straight));
}

#[test]
fn preflop_sizing_formulas() {
    assert_eq!(iso_raise_bb(1), 4);
    assert_eq!(iso_raise_bb(2), 5);
    assert_eq!(iso_raise_bb(3), 6);
    assert_eq!(push_threshold_bb(TournamentStage::Bubble, PushTier::Premium), 18);
    assert_eq!(push_threshold_bb(TournamentStage::Bubble, PushTier::Weak), 6);
    assert_eq!(push_threshold_bb(TournamentStage::EarlyLevels, PushTier::Strong), 23);
    // better tiers push deeper stacks at every stage
    for stage in [
        TournamentStage::EarlyLevels,
        TournamentStage::MiddleStages,
        TournamentStage::Bubble,
        TournamentStage::FinalTable,
    ] {
        let w = push_threshold_bb(stage, PushTier::Weak);
        let p = push_threshold_bb(stage, PushTier::Playable);
        let s = push_threshold_bb(stage, PushTier::Strong);
        let q = push_threshold_bb(stage, PushTier::Premium);
        assert!(w < p && p < s && s < q);
    }
}

#[test]
fn facing_bet_topics_have_a_bet_and_checked_topics_do_not() {
    let facing = [
        TrainingTopic::PotOddsAndEquity,
        TrainingTopic::CheckRaiseSpot,
        TrainingTopic::SemiBluffDecision,
        TrainingTopic::AntiLimperIsolation,
        TrainingTopic::SqueezePlay,
        TrainingTopic::BigBlindDefense,
        TrainingTopic::RiverCallOrFold,
    ];
    let checked = [
        TrainingTopic::PostflopContinuationBet,
        TrainingTopic::ThreeBetPotCbet,
        TrainingTopic::TurnBarrelDecision,
        TrainingTopic::TurnProbeBet,
        TrainingTopic::DelayedCbet,
        TrainingTopic::BluffSpot,
        TrainingTopic::RiverValueBet,
        TrainingTopic::ICMAndTournamentDecision,
    ];
    for seed in 0..10u64 {
        for t in facing {
            assert!(seeded(t, seed).table_setup.current_bet > 0, "{t:?}");
        }
        for t in checked {
            assert_eq!(seeded(t, seed).table_setup.current_bet, 0, "{t:?}");
        }
    }
}

// ── squeeze and big blind defense follow the hand category ──────────────────

use poker_drill_gen::topics::preflop::{build_bb_defense, build_squeeze, BbDefenseDraw, SqueezeDraw};

fn correct_index(s: &TrainingScenario) -> usize {
    s.answers.iter().position(|a| a.is_correct).unwrap()
}

#[test]
fn squeeze_answer_follows_hand_category() {
    let squeeze = |hand: [Card; 2]| {
        let d = SqueezeDraw { hero_hand: hand, callers: 2, open_bb: 3, stack_bb: 100 };
        build_squeeze(&d, "SQ-00000001".to_owned(), TextStyle::Simple)
    };
    // pocket aces (premium) squeeze
    let s = squeeze([c(14, Suit::Spades), c(14, Suit::Hearts)]);
    assert_eq!(correct_index(&s), 2);
    assert_eq!(s.branch_key, "Premium:Squeeze");
    // jacks (strong) squeeze too
    assert_eq!(correct_index(&squeeze([c(11, Suit::Spades), c(11, Suit::Hearts)])), 2);
    // eights (playable) call
    let s = squeeze([c(8, Suit::Spades), c(8, Suit::Hearts)]);
    assert_eq!(correct_index(&s), 1);
    assert_eq!(s.branch_key, "Speculative:Call");
    // 7-2 offsuit (trash) and fours (marginal) fold
    assert_eq!(correct_index(&squeeze([c(7, Suit::Spades), c(2, Suit::Hearts)])), 0);
    assert_eq!(correct_index(&squeeze([c(4, Suit::Spades), c(4, Suit::Hearts)])), 0);
}

#[test]
fn bb_defense_answer_follows_hand_category() {
    let defend = |hand: [Card; 2]| {
        let d = BbDefenseDraw { hero_hand: hand, villain_pos: Position::CO, raise_bb: 3, stack_bb: 100 };
        build_bb_defense(&d, "BD-00000001".to_owned(), TextStyle::Technical)
    };
    // ace-king suited (premium) and ace-queen offsuit (strong) 3-bet
    let s = defend([c(14, Suit::Spades), c(13, Suit::Spades)]);
    assert_eq!(correct_index(&s), 2);
    assert_eq!(s.branch_key, "Strong:ThreeBet");
    assert_eq!(correct_index(&defend([c(14, Suit::Spades), c(12, Suit::Hearts)])), 2);
    // nines (playable) and king-queen offsuit (marginal) call
    assert_eq!(correct_index(&defend([c(9, Suit::Spades), c(9, Suit::Hearts)])), 1);
    assert_eq!(correct_index(&defend([c(13, Suit::Spades), c(12, Suit::Hearts)])), 1);
    // 8-3 offsuit (trash) folds
    let s = defend([c(8, Suit::Spades), c(3, Suit::Hearts)]);
    assert_eq!(correct_index(&s), 0);
    assert_eq!(s.branch_key, "Weak:Fold");
    assert_eq!(s.table_setup.pot_size, s.table_setup.current_bet + 2);
}

// ── single-precision displays agree with f32 arithmetic ─────────────────────

use poker_drill_gen::binary32::{percent_rounded, percent_tenths, percent_whole, single_ceil, single_tenths};

#[test]
fn spr_display_matches_f32() {
    for stack in 1u32..=400 {
        for pot in 2u32..=120 {
            let shown = format!("{:.1}", stack as f32 / pot as f32);
            assert_eq!(tenths_text(single_tenths(stack as u64, pot as u64)), shown, "{stack}/{pot}");
        }
    }
    // 62 / 40 is 1.5499999523 as f32
    assert_eq!(tenths_text(single_tenths(62, 40)), "1.5");
}

#[test]
fn icm_paid_spots_match_f32() {
    for p in 0u32..=120 {
        let expected = (p as f32 * 0.15).ceil() as u64;
        assert_eq!(single_ceil(p as u64 * 5033165, 1 << 25), expected, "{p} players");
    }
    assert_eq!(single_ceil(100 * 5033165, 1 << 25), 16);
}

#[test]
fn percentages_match_f32() {
    for pot in 2u32..=200 {
        for bet in 1u32..=300 {
            let q = bet as f32 / (pot + bet) as f32 * 100.0;
            assert_eq!(tenths_text(percent_tenths(bet as u64, (pot + bet) as u64)), format!("{:.1}", q));
            assert_eq!(num(percent_whole(bet as u64, (pot + bet) as u64)), format!("{:.0}", q));
            let r = (bet as f32 / (pot as f32 + bet as f32 * 2.0) * 100.0).round() as u64;
            assert_eq!(percent_rounded(bet as u64, (pot + 2 * bet) as u64), r);
        }
    }
    // 94 / (66 + 94) shows 58.7 in single precision
    assert_eq!(tenths_text(percent_tenths(94, 160)), "58.7");
}

use poker_drill_gen::topics::flop::{build_pot_odds, fraction_of_word, PotOddsDraw};

fn f32_fraction(u: u32, lo: f32, hi: f32) -> f32 {
    let g = u as f32 * (1.0 / (1u32 << 24) as f32);
    lo + g * (hi - lo)
}

#[test]
fn drawn_bet_fraction_matches_f32() {
    let mut u: u32 = 0;
    while u < (1 << 24) {
        let inter = f32_fraction(u, 0.33, 1.0);
        assert_eq!(fraction_of_word(u as u64, 11072963, 11240734, 24) as f32 / 33554432.0, inter, "u = {u}");
        let adv = f32_fraction(u, 0.25, 1.5);
        assert_eq!(fraction_of_word(u as u64, 0x80_0000, 10485760, 23) as f32 / 33554432.0, adv, "u = {u}");
        u += 997;
    }
    for u in [0u32, 1, 2, 6563278, (1 << 24) - 1] {
        assert_eq!(fraction_of_word(u as u64, 11072963, 11240734, 24) as f32 / 33554432.0, f32_fraction(u, 0.33, 1.0));
        assert_eq!(fraction_of_word(u as u64, 0x80_0000, 10485760, 23) as f32 / 33554432.0, f32_fraction(u, 0.25, 1.5));
    }
}

#[test]
fn pot_odds_bet_is_computed_in_single_precision() {
    // pot 38 chips, fraction 0.33 + g * 0.67 with the 24-bit word 6563278:
    // 38 * 0.5921053 rounds to 23 chips in f32 (22.4999... exactly)
    let frac = fraction_of_word(6563278, 11072963, 11240734, 24);
    let d = PotOddsDraw {
        hero_hand: [c(14, Suit::Hearts), c(5, Suit::Hearts)],
        board: vec![c(9, Suit::Hearts), c(2, Suit::Hearts), c(13, Suit::Clubs)],
        pot_bb: 19,
        bet_frac: frac,
    };
    let b = f32_fraction(6563278, 0.33, 1.0);
    let s = build_pot_odds(&d, "PO-00000001".to_owned(), TextStyle::Technical);
    assert_eq!(s.table_setup.current_bet, (38.0f32 * b).round() as u32);
    assert_eq!(s.table_setup.current_bet, 23);
    assert!(s.question.contains(&format!("({:.0}% of pot)", b * 100.0)), "{}", s.question);
}

// ── the deck is the Fisher–Yates shuffle of the ordered deck ────────────────

use poker_drill_gen::deck::fisher_yates;
use rand::Rng;

fn ordered_deck() -> Vec<Card> {
    let mut v = Vec::new();
    for s in [Suit::Clubs, Suit::Diamonds, Suit::Hearts, Suit::Spades] {
        for r in 2u8..=14 {
            v.push(c(r, s));
        }
    }
    v
}

#[test]
fn deck_order_is_the_shuffle_of_its_draws() {
    // the draws a seeded generator makes: partner of position 51 down to 1
    let mut rng = StdRng::seed_from_u64(99);
    let js: Vec<usize> = (1..52usize).rev().map(|i| rng.gen_range(0..=i)).collect();
    let mut cards = ordered_deck();
    fisher_yates(&mut cards, &js);
    let mut deck = Deck::new_shuffled(&mut StdRng::seed_from_u64(99));
    assert_eq!(deck.deal_n(52), cards);
}

#[test]
fn fisher_yates_swaps_from_the_top() {
    // every partner is the position itself: nothing moves
    let mut cards = ordered_deck();
    let stay: Vec<usize> = (1..52usize).rev().collect();
    fisher_yates(&mut cards, &stay);
    assert_eq!(cards, ordered_deck());
    // every partner is 0: the deck rotates by one, the two of clubs going last
    let mut cards = ordered_deck();
    fisher_yates(&mut cards, &vec![0; 51]);
    assert_eq!(cards[51], c(2, Suit::Clubs));
    assert_eq!(cards[0], c(3, Suit::Clubs));
}
