//! The primitive motions.
pub mod jump_and_dodge;
pub mod simple_arc;
