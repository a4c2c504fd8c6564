//! The deterministic combat core of a grid-based tactical game.

pub mod models;
pub mod grid;
pub mod search;
pub mod audio;
pub mod combat;
pub mod ai;
pub mod encounter;
pub mod state;
pub mod input;
pub mod localization;
pub mod frontend;
pub mod ui;
