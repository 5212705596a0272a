//! A chess position library built around Forsyth-Edwards Notation (FEN).
//!
//! The crate decodes a FEN string into a compact bitboard representation of
//! a chess position and offers the coordinate codec and single-piece
//! mutations that the decoder and its consumers need.

pub mod board;
pub mod coords;
pub mod error;
pub mod fen;
pub mod text;
