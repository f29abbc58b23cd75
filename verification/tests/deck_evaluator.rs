//! Deck and board-evaluator tests.

use poker_drill_gen::deck::Deck;
use poker_drill_gen::evaluator::{board_texture, BoardTexture};
use poker_drill_gen::models::{Card, Rank, Suit};
use rand::rngs::StdRng;
use rand::SeedableRng;

fn card(r: u8, s: Suit) -> Card {
    Card { rank: Rank(r), suit: s }
}

#[test]
fn deck_has_52_unique_cards() {
    let mut rng = StdRng::seed_from_u64(42);
    let mut deck = Deck::new_shuffled(&mut rng);
    let all: Vec<Card> = (0..52).map(|_| deck.deal()).collect();

    // All unique
    let mut seen = std::collections::HashSet::new();
    for c in &all {
        let key = (c.rank.0, c.suit as u8);
        assert!(seen.insert(key), "Duplicate card: {}", c.text());
    }
    assert_eq!(all.len(), 52);
}

#[test]
fn deck_is_deterministic_with_seed() {
    let make = |seed: u64| -> Vec<Card> {
        let mut rng = StdRng::seed_from_u64(seed);
        let mut deck = Deck::new_shuffled(&mut rng);
        deck.deal_n(5)
    };
    assert_eq!(make(99), make(99));
    assert_ne!(make(99), make(100));
}

#[test]
fn dry_board_detected() {
    let board = vec![
        card(2, Suit::Clubs),
        card(7, Suit::Diamonds),
        card(13, Suit::Hearts),
    ];
    assert_eq!(board_texture(&board), BoardTexture::Dry);
}

#[test]
fn flush_draw_board_detected() {
    let board = vec![
        card(2, Suit::Clubs),
        card(7, Suit::Clubs),
        card(13, Suit::Hearts),
    ];
    assert_eq!(board_texture(&board), BoardTexture::SemiWet);
}
