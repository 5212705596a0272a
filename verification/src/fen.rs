//! The FEN decoder: tokenizes a FEN string into its six fields and
//! populates a position from them, stopping at the first failing field.

use vstd::prelude::*;

use crate::board::Board;
use crate::board::Color;
use crate::board::spec_piece_from_char;
use crate::board::spec_square_mask;
use crate::coords::Coords;
use crate::coords::parse_label;
use crate::coords::spec_coords_from;
use crate::error::FenError;
use crate::text::chars_of;
use crate::text::contains_char;
use crate::text::parse_u16_digits;
use crate::text::spec_fields;
use crate::text::spec_parse_u16;
use crate::text::split_ws;

verus! {

/// Twelve empty occupancy masks: the piece placement of an empty board.
pub open spec fn spec_zero_masks() -> Seq<u64> {
    seq![0u64, 0u64, 0u64, 0u64, 0u64, 0u64, 0u64, 0u64, 0u64, 0u64, 0u64, 0u64]
}

/// One left-to-right pass over the piece-placement field, carried on from
/// cursor (x, y) and the given masks. A '/' returns the cursor to file 0
/// and moves one rank down, stopping at rank 0; a digit advances the file
/// cursor by its value (capped once it has left the board); a piece letter
/// places that piece at the cursor when the cursor is on the board, and is
/// dropped silently otherwise; any other character fails the pass.
pub open spec fn spec_place(s: Seq<char>, x: nat, y: nat, masks: Seq<u64>) -> Option<Seq<u64>>
    decreases s.len(),
{
    if s.len() == 0 {
        Some(masks)
    } else {
        let c = s[0];
        if c == '/' {
            spec_place(s.skip(1), 0, if y > 0 { (y - 1) as nat } else { 0 }, masks)
        } else if '0' <= c <= '9' {
            let d = (c as int - '0' as int) as nat;
            spec_place(s.skip(1), if x + d > 8 { 8 as nat } else { x + d }, y, masks)
        } else if spec_piece_from_char(c) is Some {
            let pt = spec_piece_from_char(c).unwrap() as int;
            if x < 8 && y < 8 {
                let m = masks.update(
                    pt,
                    masks[pt] | spec_square_mask(Coords { x: x as u8, y: y as u8 }),
                );
                spec_place(s.skip(1), x + 1, y, m)
            } else {
                spec_place(s.skip(1), x, y, masks)
            }
        } else {
            None
        }
    }
}

/// What the whole piece-placement field yields, scanned from the a8
/// corner over empty masks.
pub open spec fn spec_placement(s: Seq<char>) -> Option<Seq<u64>> {
    spec_place(s, 0, 7, spec_zero_masks())
}

/// What the side-to-move field yields: exactly "w" or exactly "b".
pub open spec fn spec_color(s: Seq<char>) -> Option<Color> {
    if s.len() == 1 && s[0] == 'w' {
        Some(Color::White)
    } else if s.len() == 1 && s[0] == 'b' {
        Some(Color::Black)
    } else {
        None
    }
}

/// What the en-passant field yields: "-" is no target, anything else is
/// decoded as a square label and any failure there propagates.
pub open spec fn spec_en_passant(s: Seq<char>) -> Result<Option<Coords>, FenError> {
    if s.len() == 1 && s[0] == '-' {
        Ok(None)
    } else {
        match spec_coords_from(s) {
            Ok(c) => Ok(Some(c)),
            Err(e) => Err(e),
        }
    }
}

/// Every field of the FEN string decodes: there are exactly six fields
/// and each field-level parse succeeds. The castling field cannot fail.
pub open spec fn spec_fen_ok(s: Seq<char>) -> bool {
    let f = spec_fields(s);
    &&& f.len() == 6
    &&& spec_placement(f[0]) is Some
    &&& spec_color(f[1]) is Some
    &&& spec_en_passant(f[3]) is Ok
    &&& spec_parse_u16(f[4]) is Some
    &&& spec_parse_u16(f[5]) is Some
}

/// The first error the decoder reports, in field order.
pub open spec fn spec_fen_err(s: Seq<char>) -> FenError
    recommends
        !spec_fen_ok(s),
{
    let f = spec_fields(s);
    if f.len() != 6 {
        FenError::MalformedFen
    } else if spec_placement(f[0]) is None {
        FenError::InvalidPiecePlacementChar
    } else if spec_color(f[1]) is None {
        FenError::InvalidActiveColor
    } else if spec_en_passant(f[3]) is Err {
        spec_en_passant(f[3]).unwrap_err()
    } else if spec_parse_u16(f[4]) is None {
        FenError::InvalidHalfmoveClock
    } else {
        FenError::InvalidFullmoveNumber
    }
}

/// The position the six fields dictate.
pub open spec fn spec_fen_board(s: Seq<char>, b: Board) -> bool
    recommends
        spec_fen_ok(s),
{
    let f = spec_fields(s);
    &&& b.bit_boards@ == spec_placement(f[0]).unwrap()
    &&& b.active_color == spec_color(f[1]).unwrap()
    &&& b.white_oo == f[2].contains('K')
    &&& b.white_ooo == f[2].contains('Q')
    &&& b.black_oo == f[2].contains('k')
    &&& b.black_ooo == f[2].contains('q')
    &&& b.en_passant == spec_en_passant(f[3]).unwrap()
    &&& b.half_moves == spec_parse_u16(f[4]).unwrap()
    &&& b.full_moves == spec_parse_u16(f[5]).unwrap()
}

/// Any FEN string that does not split into exactly six fields fails with
/// `MalformedFen`, whatever its fields hold.
pub proof fn lemma_wrong_field_count(s: Seq<char>)
    requires
        spec_fields(s).len() != 6,
    ensures
        !spec_fen_ok(s),
        spec_fen_err(s) == FenError::MalformedFen,
{
}

/// Scans the piece-placement field, placing pieces on the board. Returns
/// whether every character was understood; on failure the board's masks
/// are left in an unspecified intermediate state and the caller discards
/// them.
fn parse_placement(board: &mut Board, field: &Vec<char>) -> (ok: bool)
    ensures
        ok <==> spec_place(field@, 0, 7, old(board).bit_boards@) is Some,
        ok ==> final(board).bit_boards@ == spec_place(
            field@,
            0,
            7,
            old(board).bit_boards@,
        ).unwrap(),
        *final(board) == (Board { bit_boards: final(board).bit_boards, ..*old(board) }),
{
    let n = field.len();
    let mut i: usize = 0;
    let mut x: u8 = 0;
    let mut y: u8 = 7;
    proof {
        assert(field@.skip(0) =~= field@);
    }
    while i < n
        invariant
            i <= n == field@.len(),
            x <= 8,
            y <= 7,
            spec_place(field@, 0, 7, old(board).bit_boards@) == spec_place(
                field@.skip(i as int),
                x as nat,
                y as nat,
                board.bit_boards@,
            ),
            *board == (Board { bit_boards: board.bit_boards, ..*old(board) }),
        decreases n - i,
    {
        let c = field[i];
        proof {
            assert(field@.skip(i as int)[0] == field@[i as int]);
            assert(field@.skip(i as int).skip(1) =~= field@.skip(i + 1));
        }
        if c == '/' {
            x = 0;
            if y > 0 {
                y = y - 1;
            }
        } else if c >= '0' && c <= '9' {
            let d = c as u8 - 48;
            x = if x as u16 + d as u16 > 8 {
                8
            } else {
                x + d
            };
        } else {
            match Board::piece_from_char(c) {
                Some(piece_type) => {
                    if x < 8 {
                        let pos = Coords { x, y };
                        board.place_piece(piece_type, pos);
                        x = x + 1;
                    }
                },
                None => {
                    return false;
                },
            }
        }
        i = i + 1;
    }
    proof {
        assert(field@.skip(n as int) =~= Seq::<char>::empty());
    }
    true
}

/// The placement field of the start FEN is understood in full: its scan
/// places a piece or moves the cursor at every character.
#[verifier::rlimit(100)]
proof fn lemma_start_placement()
    ensures
        spec_placement("rnbqkbnr/pppppppp/8/8/8/8/PPPPPPPP/RNBQKBNR"@) is Some,
{
    reveal_strlit("rnbqkbnr/pppppppp/8/8/8/8/PPPPPPPP/RNBQKBNR");
    reveal_with_fuel(spec_place, 45);
    assert(spec_place("rnbqkbnr/pppppppp/8/8/8/8/PPPPPPPP/RNBQKBNR"@, 0, 7, spec_zero_masks())
        is Some);
}

/// The fixed start FEN splits into exactly its six fields, and every
/// field decodes, so the start-position decode never fails.
proof fn lemma_start_fen_ok()
    ensures
        spec_fen_ok(spec_start_fen()),
{
    reveal_strlit("rnbqkbnr/pppppppp/8/8/8/8/PPPPPPPP/RNBQKBNR w KQkq - 0 1");
    reveal_strlit("rnbqkbnr/pppppppp/8/8/8/8/PPPPPPPP/RNBQKBNR");
    reveal_strlit("w");
    reveal_strlit("KQkq");
    reveal_strlit("-");
    reveal_strlit("0");
    reveal_strlit("1");
    let f0 = "rnbqkbnr/pppppppp/8/8/8/8/PPPPPPPP/RNBQKBNR"@;
    let f1 = "w"@;
    let f2 = "KQkq"@;
    let f3 = "-"@;
    let f4 = "0"@;
    let f5 = "1"@;
    let sp = seq![' '];
    let e = Seq::<char>::empty();

    assert(f5 + e =~= f5);
    crate::text::lemma_fields_token(f5, e);
    assert(spec_fields(f5) == seq![f5] + spec_fields(e));
    assert(seq![f5] + spec_fields(e) =~= seq![f5]);

    let r4 = f4 + (sp + f5);
    crate::text::lemma_fields_space(f5);
    assert((sp + f5)[0] == ' ');
    crate::text::lemma_fields_token(f4, sp + f5);
    assert(spec_fields(r4) == seq![f4] + seq![f5]);
    assert(seq![f4] + seq![f5] =~= seq![f4, f5]);

    let r3 = f3 + (sp + r4);
    crate::text::lemma_fields_space(r4);
    assert((sp + r4)[0] == ' ');
    crate::text::lemma_fields_token(f3, sp + r4);
    assert(spec_fields(r3) == seq![f3] + seq![f4, f5]);
    assert(seq![f3] + seq![f4, f5] =~= seq![f3, f4, f5]);

    let r2 = f2 + (sp + r3);
    crate::text::lemma_fields_space(r3);
    assert((sp + r3)[0] == ' ');
    crate::text::lemma_fields_token(f2, sp + r3);
    assert(spec_fields(r2) == seq![f2] + seq![f3, f4, f5]);
    assert(seq![f2] + seq![f3, f4, f5] =~= seq![f2, f3, f4, f5]);

    let r1 = f1 + (sp + r2);
    crate::text::lemma_fields_space(r2);
    assert((sp + r2)[0] == ' ');
    crate::text::lemma_fields_token(f1, sp + r2);
    assert(spec_fields(r1) == seq![f1] + seq![f2, f3, f4, f5]);
    assert(seq![f1] + seq![f2, f3, f4, f5] =~= seq![f1, f2, f3, f4, f5]);

    let r0 = f0 + (sp + r1);
    crate::text::lemma_fields_space(r1);
    assert((sp + r1)[0] == ' ');
    crate::text::lemma_fields_token(f0, sp + r1);
    assert(spec_fields(r0) == seq![f0] + seq![f1, f2, f3, f4, f5]);
    assert(seq![f0] + seq![f1, f2, f3, f4, f5] =~= seq![f0, f1, f2, f3, f4, f5]);

    assert(spec_start_fen() =~= r0);
    let f = spec_fields(spec_start_fen());
    assert(f == seq![f0, f1, f2, f3, f4, f5]);
    assert(f.len() == 6);
    assert(f[0] == f0 && f[1] == f1 && f[2] == f2 && f[3] == f3 && f[4] == f4 && f[5] == f5);

    lemma_start_placement();
    assert(spec_color(f1) is Some);
    assert(spec_en_passant(f3) is Ok);

    assert(crate::text::dec_val(e) == 0);
    assert(f4.drop_last() =~= e);
    assert(f4.last() == '0');
    assert(crate::text::dec_val(f4) == 0);
    assert(spec_parse_u16(f4) == Some(0u16));

    assert(f5.drop_last() =~= e);
    assert(f5.last() == '1');
    assert(crate::text::dec_val(f5) == 1);
    assert(spec_parse_u16(f5) == Some(1u16));
}

/// The FEN string of the standard chess starting position.
pub open spec fn spec_start_fen() -> Seq<char> {
    "rnbqkbnr/pppppppp/8/8/8/8/PPPPPPPP/RNBQKBNR w KQkq - 0 1"@
}

impl Board {
    /// Decodes a FEN string into a position.
    ///
    /// The string must hold exactly six whitespace-separated fields: piece
    /// placement, side to move, castling availability, en-passant target,
    /// half-move clock and full-move number. Decoding stops at the first
    /// failing field and returns its error; on success every part of the
    /// returned position is exactly what its field dictates. In the
    /// castling field only the characters 'K', 'Q', 'k' and 'q' are
    /// looked for; everything else there is ignored.
    pub fn from_fen(fen: &str) -> (r: Result<Board, FenError>)
        ensures
            r is Ok <==> spec_fen_ok(fen@),
            r matches Err(e) ==> e == spec_fen_err(fen@),
            r matches Ok(b) ==> spec_fen_board(fen@, b),
    {
        let chars = chars_of(fen);
        let fields = split_ws(&chars);
        if fields.len() != 6 {
            return Err(FenError::MalformedFen);
        }
        let ghost f = spec_fields(fen@);
        let mut board = Board::empty_board();
        proof {
            assert(board.bit_boards@ =~= spec_zero_masks());
        }
        let ok = parse_placement(&mut board, &fields[0]);
        if !ok {
            return Err(FenError::InvalidPiecePlacementChar);
        }
        let active = &fields[1];
        if active.len() == 1 && active[0] == 'w' {
            board.active_color = Color::White;
        } else if active.len() == 1 && active[0] == 'b' {
            board.active_color = Color::Black;
        } else {
            return Err(FenError::InvalidActiveColor);
        }
        board.white_oo = contains_char(&fields[2], 'K');
        board.white_ooo = contains_char(&fields[2], 'Q');
        board.black_oo = contains_char(&fields[2], 'k');
        board.black_ooo = contains_char(&fields[2], 'q');
        let ep = &fields[3];
        if ep.len() == 1 && ep[0] == '-' {
            board.en_passant = None;
        } else {
            match parse_label(ep) {
                Ok(c) => {
                    board.en_passant = Some(c);
                },
                Err(e) => {
                    return Err(e);
                },
            }
        }
        match parse_u16_digits(&fields[4]) {
            Some(v) => {
                board.half_moves = v;
            },
            None => {
                return Err(FenError::InvalidHalfmoveClock);
            },
        }
        match parse_u16_digits(&fields[5]) {
            Some(v) => {
                board.full_moves = v;
            },
            None => {
                return Err(FenError::InvalidFullmoveNumber);
            },
        }
        Ok(board)
    }

    /// The standard chess starting position: the decode of the fixed
    /// start FEN, which never fails.
    pub fn startpos() -> (r: Board)
        ensures
            spec_fen_ok(spec_start_fen()),
            spec_fen_board(spec_start_fen(), r),
    {
        let decoded = Board::from_fen("rnbqkbnr/pppppppp/8/8/8/8/PPPPPPPP/RNBQKBNR w KQkq - 0 1");
        proof {
            lemma_start_fen_ok();
        }
        match decoded {
            Ok(b) => b,
            Err(_) => Board::empty_board(),
        }
    }
}

} // verus!
