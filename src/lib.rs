//! Move generation and legality checking for a tile-placement game on a
//! 20 by 20 board: pieces of one player may touch each other at corners only.
pub mod board;
pub mod cell;
pub mod color;
pub mod ingest;
pub mod laws;
mod outside;
pub mod piece;
pub mod rules;
pub mod server;

pub use board::{decode_board, BlockusMap, GameError};
pub use cell::{Case, Grid, Move, Orientation};
pub use color::{classify_pixel, parse_color, Color};
pub use ingest::ingest;
pub use piece::{Piece, Pieces};
pub use rules::check_edge;
pub use server::{check_shape, NewResponse, ResponsePiece};
