//! Click-to-move interaction for a graphical chess board: pixel and square
//! coordinates, a display mirror of the engine's board, and the two-click
//! selection state machine that turns clicks into move requests.
pub mod board;
pub mod coords;
pub mod selection;
