//! Rule engine of a grid snake game: board occupancy, snake movement with a
//! replayed turn queue, apple placement and the per-tick state machine.

pub mod board;
pub mod game;
pub mod laws;
pub mod snake;

pub use board::{BMember, Board};
pub use game::{Apple, Game, Scrn, StartPos};
pub use snake::{Dir, Instruction, Snake};
