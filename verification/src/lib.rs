//! A grid-based snake simulation: direction control, tick-paced movement,
//! growth bookkeeping and prize placement, with every rule stated as a
//! contract and proved.
//!
//! The library holds the state of a game and the rules that change it; it
//! draws nothing and reads no keyboard. A host feeds it, once per frame and
//! in this order,
//!
//! 1. the direction keys that went down, to [`movement::movement_system`];
//! 2. the time that passed, to [`snake::update_snake`], which moves the snake
//!    when the clock fires and reports what the move did;
//! 3. the clock, to [`prize::spawn_prize`], which replaces a missing prize on
//!    the frame of a move.
//!
//! What the host draws it may tag with handles of its own, which the game
//! keeps beside each segment and the prize and hands back when they leave.

pub mod config;
pub mod movement;
pub mod prize;
pub mod setup;
pub mod snake;
