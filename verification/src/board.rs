//! The position model: twelve bit-per-square occupancy masks, one per piece
//! kind, together with side to move, castling rights, en-passant target and
//! the two move counters.

use vstd::prelude::*;

use crate::coords::Coords;
use crate::coords::coords_wf;

verus! {

// Indices into the array of occupancy masks, one per piece kind.
pub const WHITE_PAWN: usize = 0;

pub const WHITE_KNIGHT: usize = 1;

pub const WHITE_BISHOP: usize = 2;

pub const WHITE_ROOK: usize = 3;

pub const WHITE_QUEEN: usize = 4;

pub const WHITE_KING: usize = 5;

pub const BLACK_PAWN: usize = 6;

pub const BLACK_KNIGHT: usize = 7;

pub const BLACK_BISHOP: usize = 8;

pub const BLACK_ROOK: usize = 9;

pub const BLACK_QUEEN: usize = 10;

pub const BLACK_KING: usize = 11;

/// The side to move.
#[derive(Debug, Clone, Copy, PartialEq, Eq, Structural)]
pub enum Color {
    White,
    Black,
}

/// A chess position: one 64-bit occupancy mask per piece kind, in which bit
/// `rank * 8 + file` stands for that square, plus the remaining FEN state.
#[derive(Debug, Clone, Copy)]
pub struct Board {
    /// Piece placement, one mask per piece kind, indexed by the constants
    /// above.
    pub bit_boards: [u64; 12],
    /// The side to move.
    pub active_color: Color,
    /// White may castle kingside.
    pub white_oo: bool,
    /// White may castle queenside.
    pub white_ooo: bool,
    /// Black may castle kingside.
    pub black_oo: bool,
    /// Black may castle queenside.
    pub black_ooo: bool,
    /// The square a pawn could be captured on en passant, if any.
    pub en_passant: Option<Coords>,
    /// Plies since the last capture or pawn advance (fifty-move rule).
    pub half_moves: u16,
    /// The full-move number; FEN starts it at 1.
    pub full_moves: u16,
}

/// The single bit that stands for a square: bit `rank * 8 + file`.
pub open spec fn spec_square_mask(c: Coords) -> u64 {
    1u64 << (c.y * 8 + c.x)
}

/// The piece kind a FEN letter names: uppercase for White, lowercase for
/// Black, in the fixed order pawn, knight, bishop, rook, queen, king; any
/// other character names none.
pub open spec fn spec_piece_from_char(c: char) -> Option<usize> {
    if c == 'P' {
        Some(WHITE_PAWN)
    } else if c == 'N' {
        Some(WHITE_KNIGHT)
    } else if c == 'B' {
        Some(WHITE_BISHOP)
    } else if c == 'R' {
        Some(WHITE_ROOK)
    } else if c == 'Q' {
        Some(WHITE_QUEEN)
    } else if c == 'K' {
        Some(WHITE_KING)
    } else if c == 'p' {
        Some(BLACK_PAWN)
    } else if c == 'n' {
        Some(BLACK_KNIGHT)
    } else if c == 'b' {
        Some(BLACK_BISHOP)
    } else if c == 'r' {
        Some(BLACK_ROOK)
    } else if c == 'q' {
        Some(BLACK_QUEEN)
    } else if c == 'k' {
        Some(BLACK_KING)
    } else {
        None
    }
}

/// The given piece kind occupies the given square of the position.
pub open spec fn spec_occupies(b: Board, piece_type: int, c: Coords) -> bool {
    b.bit_boards@[piece_type] & spec_square_mask(c) != 0
}

impl Board {
    /// A position with no pieces, White to move, no castling rights, no
    /// en-passant target and both counters zero.
    pub fn empty_board() -> (r: Board)
        ensures
            forall|i: int| 0 <= i < 12 ==> r.bit_boards@[i] == 0,
            r.active_color == Color::White,
            !r.white_oo && !r.white_ooo && !r.black_oo && !r.black_ooo,
            r.en_passant is None,
            r.half_moves == 0,
            r.full_moves == 0,
    {
        Board {
            bit_boards: [0u64; 12],
            active_color: Color::White,
            white_oo: false,
            white_ooo: false,
            black_oo: false,
            black_ooo: false,
            en_passant: None,
            half_moves: 0,
            full_moves: 0,
        }
    }

    /// Sets the bit for `position` in the mask for `piece_type`; every other
    /// mask bit and every other field keeps its value. The coordinate must
    /// already lie on the board: this is the trusted-mutation side of the
    /// design, where out-of-range input is a caller error, not a parse
    /// error.
    pub fn place_piece(&mut self, piece_type: usize, position: Coords)
        requires
            piece_type < 12,
            coords_wf(position),
        ensures
            final(self).bit_boards@ =~= old(self).bit_boards@.update(
                piece_type as int,
                old(self).bit_boards@[piece_type as int] | spec_square_mask(position),
            ),
            *final(self) == (Board { bit_boards: final(self).bit_boards, ..*old(self) }),
    {
        let sq: u8 = position.y * 8 + position.x;
        let mask: u64 = 1u64 << (sq as u64);
        self.bit_boards[piece_type] = self.bit_boards[piece_type] | mask;
    }

    /// Clears the bit for `position` in the mask for `piece_type`; every
    /// other mask bit and every other field keeps its value. Same caller
    /// contract as `place_piece`.
    pub fn remove_piece(&mut self, piece_type: usize, position: Coords)
        requires
            piece_type < 12,
            coords_wf(position),
        ensures
            final(self).bit_boards@ =~= old(self).bit_boards@.update(
                piece_type as int,
                old(self).bit_boards@[piece_type as int] & !spec_square_mask(position),
            ),
            *final(self) == (Board { bit_boards: final(self).bit_boards, ..*old(self) }),
    {
        let sq: u8 = position.y * 8 + position.x;
        let mask: u64 = !(1u64 << (sq as u64));
        self.bit_boards[piece_type] = self.bit_boards[piece_type] & mask;
    }

    /// Maps a FEN piece letter to its mask index; returns `None` for any
    /// character outside `PNBRQKpnbrqk`.
    pub fn piece_from_char(c: char) -> (r: Option<usize>)
        ensures
            r == spec_piece_from_char(c),
            r matches Some(i) ==> i < 12,
    {
        match c {
            'P' => Some(WHITE_PAWN),
            'N' => Some(WHITE_KNIGHT),
            'B' => Some(WHITE_BISHOP),
            'R' => Some(WHITE_ROOK),
            'Q' => Some(WHITE_QUEEN),
            'K' => Some(WHITE_KING),
            'p' => Some(BLACK_PAWN),
            'n' => Some(BLACK_KNIGHT),
            'b' => Some(BLACK_BISHOP),
            'r' => Some(BLACK_ROOK),
            'q' => Some(BLACK_QUEEN),
            'k' => Some(BLACK_KING),
            _ => None,
        }
    }

    /// Whether the given piece kind occupies the given square: the bit test
    /// that a rendering consumer enumerates the position with.
    pub fn occupies(&self, piece_type: usize, position: Coords) -> (r: bool)
        requires
            piece_type < 12,
            coords_wf(position),
        ensures
            r == spec_occupies(*self, piece_type as int, position),
    {
        let sq: u8 = position.y * 8 + position.x;
        let mask: u64 = 1u64 << (sq as u64);
        (self.bit_boards[piece_type] & mask) != 0
    }
}

} // verus!
