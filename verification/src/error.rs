use vstd::prelude::*;

verus! {

/// The ways a FEN string or a coordinate label can fail to decode.
///
/// Decoding stops at the first failing field and reports that error alone;
/// no partial position is ever produced.
#[derive(Debug, Clone, Copy, PartialEq, Eq, Structural)]
pub enum FenError {
    /// The FEN string does not consist of exactly six whitespace-separated
    /// fields.
    MalformedFen,
    /// A square label is not exactly two characters long.
    MalformedCoordinate,
    /// A square label's file letter is outside 'a'..'h' or its rank digit is
    /// outside '1'..'8'.
    OutOfRangeCoordinate,
    /// The piece-placement field holds a character that is neither a digit,
    /// a '/' nor a recognized piece letter.
    InvalidPiecePlacementChar,
    /// The side-to-move field is neither "w" nor "b".
    InvalidActiveColor,
    /// The half-move clock field is not a decimal number that fits the
    /// counter.
    InvalidHalfmoveClock,
    /// The full-move number field is not a decimal number that fits the
    /// counter.
    InvalidFullmoveNumber,
}

} // verus!
