//! Behaviors that move the car.
pub mod drive_towards;
pub mod get_to_flat_ground;
pub mod skid_recover;
pub mod yielder;
