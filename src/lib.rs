//! Tic-tac-toe game state: signs, a square board, win detection and the
//! move/reset state machine that an outer event loop drives.

pub mod board;
pub mod game;
mod grid;
pub mod sign;

pub use board::{Board, BOARD_DIM};
pub use board::TicTacWin;
pub use game::{Game, TicTacToe};
pub use sign::{GameError, TicTacSign};
