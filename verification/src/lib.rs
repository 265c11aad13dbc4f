//! Grid movement, growth and collision-detection engine for a snake game.
//!
//! The snake is an ordered sequence of grid cells (head first) with a current
//! heading. Each tick the head advances one cell, the body shifts, terminal
//! conditions (leaving the arena, hitting the body) are detected, and eating
//! food appends a segment at the cell the tail vacated on the same tick.

pub mod collision;
pub mod game;
pub mod grid;
pub mod snake;

pub use collision::CollisionKind;
pub use game::GameSession;
pub use game::TickEvents;
pub use grid::Direction;
pub use grid::Position;
pub use snake::SnakeState;
