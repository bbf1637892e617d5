//! Behaviors that are made of other behaviors, or of none.
pub mod chain;
pub mod null;
