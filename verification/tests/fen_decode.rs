use fenboard::board::Board;
use fenboard::board::Color;
use fenboard::board::BLACK_KING;
use fenboard::board::WHITE_PAWN;
use fenboard::board::BLACK_PAWN;
use fenboard::coords::Coords;

#[test]
fn test_from_fen_valid() {
    let board =
        Board::from_fen("rnbqkb1r/pp2pppp/2p2n2/3p4/3P4/2P2N2/PP2PPPP/RNBQKB1R w KQkq - 0 5")
            .unwrap();
    assert_eq!(board.active_color, Color::White);
    assert!(board.white_oo);
    assert!(board.white_ooo);
    assert!(board.black_oo);
    assert!(board.black_ooo);
    assert_eq!(board.en_passant, None);
    assert_eq!(board.half_moves, 0);
    assert_eq!(board.full_moves, 5);
}

#[test]
fn test_from_fen_invalid() {
    assert!(Board::from_fen("invalid_fen").is_err());
}

#[test]
fn test_place_piece() {
    let mut board = Board::empty_board();
    board.place_piece(WHITE_PAWN, Coords { x: 0, y: 1 });
    assert_eq!(board.bit_boards[WHITE_PAWN], 1u64 << 8);
}

#[test]
fn test_piece_from_char() {
    assert_eq!(Board::piece_from_char('P'), Some(WHITE_PAWN));
    assert_eq!(Board::piece_from_char('k'), Some(BLACK_KING));
    assert_eq!(Board::piece_from_char('Z'), None);
}

#[test]
fn test_castling_ability_parsing() {
    let board = Board::from_fen("8/8/8/8/8/8/8/8 w KQkq - 0 1").unwrap();
    assert!(board.white_oo);
    assert!(board.white_ooo);
    assert!(board.black_oo);
    assert!(board.black_ooo);

    let board2 = Board::from_fen("8/8/8/8/8/8/8/8 w - - 0 1").unwrap();
    assert!(!board2.white_oo);
    assert!(!board2.white_ooo);
    assert!(!board2.black_oo);
    assert!(!board2.black_ooo);
}

#[test]
fn test_en_passant_square_parsing() {
    let board = Board::from_fen("8/8/8/8/4pP2/8/8/8 b - f3 0 1").unwrap();
    assert_eq!(board.en_passant, Some(Coords { x: 5, y: 2 }));

    let board2 = Board::from_fen("8/8/8/8/8/8/8/8 w KQkq - 0 1").unwrap();
    assert_eq!(board2.en_passant, None);
}

#[test]
fn test_half_and_full_moves() {
    let board1 = Board::from_fen("8/8/8/8/8/8/8/8 w KQkq - 5 10").unwrap();
    assert_eq!(board1.half_moves, 5);
    assert_eq!(board1.full_moves, 10);

    let board2 =
        Board::from_fen("rnbqkbnr/pppppppp/8/8/8/8/PPPPPPPP/RNBQKBNR w KQkq - 0 1").unwrap();
    assert_eq!(board2.half_moves, 0);
    assert_eq!(board2.full_moves, 1);
}

#[test]
fn test_active_color_parsing() {
    let board_white = Board::from_fen("8/8/8/8/8/8/8/8 w - - 0 1").unwrap();
    assert_eq!(board_white.active_color, Color::White);

    let board_black = Board::from_fen("8/8/8/8/8/8/8/8 b - - 0 1").unwrap();
    assert_eq!(board_black.active_color, Color::Black);
}

#[test]
fn test_full_board_fen_parsing() {
    let board =
        Board::from_fen("rnbqkbnr/pppppppp/8/8/8/8/PPPPPPPP/RNBQKBNR w KQkq - 0 1").unwrap();
    let white_pawn_board: u64 =
        0b00000000_00000000_00000000_00000000_00000000_00000000_11111111_00000000;
    let black_pawn_board: u64 =
        0b00000000_11111111_00000000_00000000_00000000_00000000_00000000_00000000;
    assert_eq!(board.bit_boards[WHITE_PAWN], white_pawn_board);
    assert_eq!(board.bit_boards[BLACK_PAWN], black_pawn_board);
}

#[test]
fn test_empty_board() {
    let board = Board::empty_board();
    for piece_type in board.bit_boards.iter() {
        assert_eq!(*piece_type, 0);
    }
    assert_eq!(board.active_color, Color::White);
    assert!(!board.white_oo);
    assert!(!board.white_ooo);
    assert!(!board.black_oo);
    assert!(!board.black_ooo);
    assert_eq!(board.en_passant, None);
    assert_eq!(board.half_moves, 0);
    assert_eq!(board.full_moves, 0);
}

#[test]
fn test_coords_from_str_valid() {
    let coords = Coords::from_str("a1").unwrap();
    assert_eq!(coords, Coords { x: 0, y: 0 });

    let coords = Coords::from_str("h8").unwrap();
    assert_eq!(coords, Coords { x: 7, y: 7 });
}

#[test]
fn test_coords_from_str_invalid() {
    assert!(Coords::from_str("i1").is_err());
    assert!(Coords::from_str("a9").is_err());
    assert!(Coords::from_str("ab").is_err());
}
