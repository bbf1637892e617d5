//! Motion planning and execution core for a car in a physics-simulated arena.
//!
//! Every quantity is a fixed-point integer:
//!
//! | quantity            | unit                                   |
//! |---------------------|----------------------------------------|
//! | length, coordinate  | thousandths of a field unit            |
//! | speed, velocity     | thousandths of a field unit per second |
//! | time                | microseconds                           |
//! | angle               | microradians                           |
//! | boost reserve       | thousandths of a boost point           |
//! | control axis        | thousandths, from -1000 to 1000        |
//! | unit-vector part    | millionths                             |
//!
//! The library has no trigonometry. Directions are unit vectors, and where an
//! angle in radians is needed (the length of an arc, a steering angle) the
//! caller measures it and hands it in.
pub mod behavior;
pub mod car1d;
pub mod math;
pub mod plan;
pub mod rl;
pub mod routing;
pub mod strategy;
pub mod tables;
pub mod vector;
