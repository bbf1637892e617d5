//! The behaviors that the library provides.
pub mod defense;
pub mod higher_order;
pub mod kickoff;
pub mod movement;
pub mod root;
