//! The puzzle itself: its state, its moves and how they transform a state.

pub mod compressed;
pub mod display;
pub mod face;
pub mod laws;
pub mod moves;
pub mod plane;
pub mod scramble;
pub mod sequence;
pub mod state;
pub mod tables;

