//! Simulation core of a two-player paddle-and-ball arcade game.
//!
//! The library owns the authoritative positions and velocities of a ball and
//! two paddles confined to a bounded arena, detects contact between the ball
//! and the arena's obstacles, computes bounce responses, advances a
//! deterministic fixed-timestep simulation, and drives a scoring state
//! machine when the ball exits the playfield horizontally.
//!
//! All coordinates are held in micro-units (one millionth of a world unit)
//! and all velocities in world units per second, so that the fixed
//! simulation step, the boundary tolerance and every bounce response are
//! exact integer quantities. Window creation, input polling and rendering
//! are external collaborators: the core consumes abstracted input events
//! and exposes draw-ready geometry and score values.

pub mod ball;
pub mod border;
pub mod geometry;
pub mod obstacle;
pub mod player;
pub mod score;
pub mod tick;
pub mod vec2;

pub use ball::Ball;
pub use border::Border;
pub use geometry::Rectangle;
pub use obstacle::Obstacle;
pub use player::Player;
pub use score::ScoreBoard;
pub use vec2::Vec2;
