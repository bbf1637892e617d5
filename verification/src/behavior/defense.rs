//! Keeping the ball out of our goal.
pub mod defense;
