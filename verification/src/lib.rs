//! A two-player terminal contest built around a wrapping counter: each round,
//! a player tries to halt a free-running 0..=100 counter as close as possible
//! to a randomly drawn target, and the score difference is applied as damage
//! to the opponent's vitality.
//!
//! This crate holds the verified core: the counter state machine, the players,
//! the scoring rules, and the round bookkeeping. Thread scheduling, terminal
//! rendering and user input belong to the surrounding program.

pub mod counter;
pub mod error;
pub mod game;
pub mod player;
pub mod scoring;
pub mod ui;

