//! What every behavior shares: the world it sees, the action it answers
//! with, and the loop that runs it for one tick.
pub mod behavior;
pub mod context;
pub mod runner;
