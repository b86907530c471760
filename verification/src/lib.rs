//! A verified tic-tac-toe game engine.
//!
//! The engine is a pure state machine: [`game::initialize`] produces a fresh
//! game, and [`game::make_move`] validates and applies one move, detecting
//! wins and draws and alternating turns. Every operation carries a contract
//! that pins down its result; the laws that relate several operations are
//! proved in [`laws`].

pub mod game;
pub mod laws;
