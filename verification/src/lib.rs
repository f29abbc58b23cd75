//! Poker training drill generation with verified decision logic.
//!
//! `generate_training` turns a `TrainingRequest` (topic or street,
//! difficulty, optional seed, text style) into a `TrainingScenario`: a dealt
//! table, a question, and answer options of which exactly one is correct.

pub mod binary32;
pub mod deck;
pub mod drill;
pub mod evaluator;
pub mod generator;
pub mod helpers;
pub mod models;
pub mod nt_adapter;
pub mod rng;
pub mod text;
pub mod topics;

pub use generator::generate_training;
pub use models::{
    AnswerOption, DifficultyLevel, GameType, PlayerState, Position, Street, TableSetup, TextStyle, TopicSelector,
    TrainingRequest, TrainingScenario, TrainingTopic,
};
