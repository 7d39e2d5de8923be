//! The chaos game: starting from a seed point, repeatedly move halfway toward
//! a randomly chosen anchor vertex and record every position the tracer
//! visits. Over many iterations the recorded points approximate a
//! self-similar fractal (a Sierpinski triangle for three vertices).

pub mod game;
pub mod point;
mod rng;

pub use game::ChaosGame;
pub use game::HistoryMode;
pub use game::InvariantViolation;
pub use game::VertexSet;
pub use point::Color;
pub use point::Point;
