//! Monte Carlo scoring of potion-order strategies.
//!
//! Orders of three potions are drawn from a weighted catalog, and seven
//! completion strategies are scored over the same order sequence by the
//! points they spend and the points they earn on each of three axes.

pub mod generate;
pub mod order;
pub mod points;
pub mod potion;
pub mod sampler;
pub mod score;
pub mod strategy;
pub mod tally;
