//! Goal predicates for the stages of a solve, and the searches over them.

pub mod auf;
pub mod cross;
pub mod enumerate;
pub mod f2l;
pub mod greedy;
pub mod oll;
pub mod pll;
pub mod solved;
pub mod stages;
