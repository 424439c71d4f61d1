//! The state engine of a snake game on a bounded plane, in fixed-point arithmetic.
//!
//! A [`Snake`] advances one step per tick and grows when its head reaches the
//! [`Food`]; [`game::tick`] ties the two together and [`render::render`] works out
//! what a frame shows. The engine opens no window, reads no key and starts no
//! thread: a host hands it the player's requested heading and the size of the
//! window, and draws what it gets back.
pub mod direction;
pub mod fixed;
pub mod food;
pub mod game;
pub mod geometry;
mod random;
pub mod render;
pub mod snake;

pub use crate::direction::Direction;
pub use crate::food::Food;
pub use crate::game::SnakeGame;
pub use crate::geometry::Position;
pub use crate::snake::BodySegment;
pub use crate::snake::Snake;
