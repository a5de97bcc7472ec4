//! Core logic of an endless-runner game: a six-state character state
//! machine with per-state physics rules, an obstacle/collision model,
//! and a scrolling world controller with a procedural-generation
//! timeline. Rendering, input polling and asset loading are left to the
//! embedding application; this crate works on plain values and proves
//! its per-tick rules.

pub mod game;
pub mod geometry;
pub mod obstacle;
pub mod red_hat_boy_states;
pub mod red_hat_boy;
pub mod sheet;
pub mod state_machine;
pub mod walk;
