//! A move engine for the 3x3x3 cube together with a bounded, exhaustive search
//! that explores CFOP-style staged solutions.

pub mod cube;
pub mod simulator;
pub mod solver;
