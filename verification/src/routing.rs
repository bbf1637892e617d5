//! Plans of motion: the segments a route is made of, and the route.
pub mod models;
pub mod plan;
pub mod segments;
