//! Topic generators grouped by street.
//!
//! Every generator has the same shape: it takes the random-number source,
//! the difficulty, the scenario id and the text style, and returns a
//! `TrainingScenario`.

/// Preflop topics: PF-, IC-, AL-, SQ-, BD-.
pub mod preflop;
/// Flop topics: CB-, PO-, CR-, SB-, 3B-.
pub mod flop;
/// Turn topics: TB-, PB-, DC-.
pub mod turn;
/// River topics: BL-, RV-, RF-.
pub mod river;
/// Which answer each drill marks correct, stated over the draw.
pub mod answers;
