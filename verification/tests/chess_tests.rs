//! FEN parsing acceptance and rejection.
use chess::fen::parse_fen;
use chess::game::GameState;
use chess::piece::ChessPiece::{King, Knight, Pawn, Rook};
use chess::piece::ChessTeam::{self, Black, White};
use chess::piece::TeamedChessPiece;
use chess::tile::Tile;
use chess::tile::Tile::{C4, D3, E3, F3, F7, F8, G2, G3, G4, G6, H1, H2, H3};

fn assert_game(
    game: &mut GameState,
    piece_locations: Vec<(Tile, TeamedChessPiece)>,
    whose_turn: ChessTeam,
    castling_rights: (bool, bool, bool, bool),
    ep_square: Option<Tile>,
    fifty_move_counter: u32,
    full_move_counter: u32,
) {
    let board = game.get_board();
    assert_eq!(board.find_all_pieces().len(), piece_locations.len());
    for (tile, piece) in piece_locations {
        assert_eq!(board.get_piece(tile), Some(piece));
    }
    assert_eq!(game.whose_turn(), whose_turn);
    assert_eq!(game.get_board().castling_rights(), castling_rights);
    assert_eq!(game.en_passant_square(), ep_square);
    assert_eq!(game.fifty_move_counter(), fifty_move_counter);
    assert_eq!(game.starting_move_count(), full_move_counter);
}

fn chess_pieces() -> Vec<(Tile, TeamedChessPiece)> {
    vec![
        (F8, TeamedChessPiece(Black, King)),
        (F7, TeamedChessPiece(Black, Pawn)),
        (G6, TeamedChessPiece(Black, Pawn)),
        (C4, TeamedChessPiece(Black, Knight)),
        (H3, TeamedChessPiece(Black, Pawn)),
        (G2, TeamedChessPiece(Black, Rook)),
        (G4, TeamedChessPiece(White, Pawn)),
        (F3, TeamedChessPiece(White, Pawn)),
        (H2, TeamedChessPiece(White, Pawn)),
        (D3, TeamedChessPiece(White, Rook)),
        (G3, TeamedChessPiece(White, Knight)),
        (H1, TeamedChessPiece(White, King)),
    ]
}

#[test]
fn correct_fens() {
    // no ep square, no castling
    let mut game = parse_fen("5k2/5p2/6p1/8/2n3P1/3R1PNp/6rP/7K w - - 0 54".to_string()).unwrap();
    assert_game(
        &mut game,
        chess_pieces(),
        ChessTeam::White,
        (false, false, false, false),
        None,
        0,
        54,
    );

    // testing castling, no ep square
    let mut game = parse_fen("5k2/5p2/6p1/8/2n3P1/3R1PNp/6rP/7K w KQ - 0 54".to_string()).unwrap();
    assert_game(
        &mut game,
        chess_pieces(),
        ChessTeam::White,
        (true, true, false, false),
        None,
        0,
        54,
    );

    let mut game =
        parse_fen("5k2/5p2/6p1/8/2n3P1/3R1PNp/6rP/7K w KQkq - 0 54".to_string()).unwrap();
    assert_game(&mut game, chess_pieces(), ChessTeam::White, (true, true, true, true), None, 0, 54);

    let mut game = parse_fen("5k2/5p2/6p1/8/2n3P1/3R1PNp/6rP/7K w kq - 0 54".to_string()).unwrap();
    assert_game(
        &mut game,
        chess_pieces(),
        ChessTeam::White,
        (false, false, true, true),
        None,
        0,
        54,
    );

    let mut game =
        parse_fen("5k2/5p2/6p1/8/2n3P1/3R1PNp/6rP/7K w KQk - 0 54".to_string()).unwrap();
    assert_game(
        &mut game,
        chess_pieces(),
        ChessTeam::White,
        (true, true, true, false),
        None,
        0,
        54,
    );

    let mut game = parse_fen("5k2/5p2/6p1/8/2n3P1/3R1PNp/6rP/7K w Qq - 0 54".to_string()).unwrap();
    assert_game(
        &mut game,
        chess_pieces(),
        ChessTeam::White,
        (false, true, false, true),
        None,
        0,
        54,
    );

    // ep square and castling
    let mut game =
        parse_fen("5k2/5p2/6p1/8/2n3P1/3R1PNp/6rP/7K w Qq e3 0 54".to_string()).unwrap();
    assert_game(
        &mut game,
        chess_pieces(),
        ChessTeam::White,
        (false, true, false, true),
        Some(E3),
        0,
        54,
    );

    // ep square and no castling
    let mut game =
        parse_fen("5k2/5p2/6p1/8/2n3P1/3R1PNp/6rP/7K w - e3 0 54".to_string()).unwrap();
    assert_game(
        &mut game,
        chess_pieces(),
        ChessTeam::White,
        (false, false, false, false),
        Some(E3),
        0,
        54,
    );
}

#[test]
fn incorrect_fens() {
    // ep square and no castling
    assert!(parse_fen("5k2/5p2/6p1/8/2n3P1/3R1PNp/6rP/7K w - e3 0 ".to_string()).is_none());
    assert!(parse_fen("5k2/5p2/6p1/8/2n3P1/3R1Pp/6rP/7K w - e3 0 54".to_string()).is_none());
    assert!(parse_fen("5k2/5p2/6p1/8/2n3P1/3R1PNp/2rP/7K w - e3 0 54".to_string()).is_none());
    assert!(parse_fen("5k2/5p2/6p1/8/2n3P1/3R1PNp/6rPw/7K e3 0 54".to_string()).is_none());
    assert!(parse_fen("5k2/5p2/6p1/8/2n3P1/3R1PNp/6rPw/7K e".to_string()).is_none());
    assert!(parse_fen("w - e3 0 2".to_string()).is_none());
}
