//! Rough estimates that the planners of a straight drive lean on.
pub mod drive;
pub mod hit_angle;
