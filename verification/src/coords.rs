//! The coordinate codec: algebraic square labels such as "e4" against
//! zero-based (file, rank) pairs.

use vstd::prelude::*;

use crate::error::FenError;
use crate::text::chars_of;
use crate::text::push_char;

verus! {

/// A square on the board: `x` is the file (0 = 'a'), `y` is the rank
/// (0 = '1'). A coordinate is well formed when both components are at
/// most 7.
#[derive(Debug, Clone, Copy, PartialEq, Eq, Structural)]
pub struct Coords {
    pub x: u8,
    pub y: u8,
}

/// Both components of the coordinate lie on the 8x8 board.
pub open spec fn coords_wf(c: Coords) -> bool {
    c.x <= 7 && c.y <= 7
}

/// What decoding a square label yields: the label must be exactly two
/// characters, a file letter in 'a'..'h' followed by a rank digit in
/// '1'..'8', and maps to the zero-based pair (letter - 'a', digit - '1').
pub open spec fn spec_coords_from(s: Seq<char>) -> Result<Coords, FenError> {
    if s.len() != 2 {
        Err(FenError::MalformedCoordinate)
    } else if s[0] < 'a' || s[0] > 'h' || s[1] < '1' || s[1] > '8' {
        Err(FenError::OutOfRangeCoordinate)
    } else {
        Ok(Coords { x: (s[0] as u8 - 'a' as u8) as u8, y: (s[1] as u8 - '1' as u8) as u8 })
    }
}

/// The two-character label of a well-formed coordinate: file letter then
/// rank digit.
pub open spec fn spec_label_of(c: Coords) -> Seq<char> {
    seq![(('a' as u8 + c.x) as char), (('1' as u8 + c.y) as char)]
}

/// Decodes a square label given as a character vector.
pub fn parse_label(s: &Vec<char>) -> (r: Result<Coords, FenError>)
    ensures
        r == spec_coords_from(s@),
        r matches Ok(c) ==> coords_wf(c),
{
    if s.len() != 2 {
        return Err(FenError::MalformedCoordinate);
    }
    let file = s[0];
    let rank = s[1];
    if file < 'a' || file > 'h' || rank < '1' || rank > '8' {
        return Err(FenError::OutOfRangeCoordinate);
    }
    Ok(Coords { x: file as u8 - 97, y: rank as u8 - 49 })
}

impl Coords {
    /// Decodes an algebraic square label: fails with `MalformedCoordinate`
    /// when the label is not exactly two characters, with
    /// `OutOfRangeCoordinate` when the file letter is outside 'a'..'h'
    /// (lowercase only) or the rank digit is outside '1'..'8'.
    pub fn from_str(coord: &str) -> (r: Result<Coords, FenError>)
        ensures
            r == spec_coords_from(coord@),
            r matches Ok(c) ==> coords_wf(c),
    {
        let chars = chars_of(coord);
        parse_label(&chars)
    }

    /// Encodes a well-formed coordinate back into its two-character label;
    /// the exact left-inverse of `from_str`.
    pub fn to_label(&self) -> (r: String)
        requires
            coords_wf(*self),
        ensures
            r@ =~= spec_label_of(*self),
    {
        let mut r = String::new();
        push_char(&mut r, (97 + self.x) as char);
        push_char(&mut r, (49 + self.y) as char);
        r
    }
}

/// Round trip of the coordinate codec: every valid two-character label,
/// with a file letter in 'a'..'h' and a rank digit in '1'..'8', decodes
/// successfully, and encoding the decoded coordinate yields the original
/// label again.
pub proof fn lemma_label_round_trip(s: Seq<char>)
    requires
        s.len() == 2,
        'a' <= s[0] <= 'h',
        '1' <= s[1] <= '8',
    ensures
        spec_coords_from(s) matches Ok(c) && spec_label_of(c) =~= s,
{
    let c = spec_coords_from(s).unwrap();
    assert(('a' as u8 + c.x) as char == s[0]);
    assert(('1' as u8 + c.y) as char == s[1]);
}

} // verus!
