//! End-to-end scenarios: legality, endings, notation and FEN
//! round-trips on concrete positions.
use chess::board::Board;
use chess::coord::Coord;
use chess::fen::{get_test, parse_fen};
use chess::game::GameState;
use chess::move_processor::{parse_move, MoveParseError};
use chess::piece::{ChessPiece, ChessTeam, GameEndState, Move, MoveError};
use chess::tile::Tile;

fn boards_equal(b1: &Board, b2: &Board) -> bool {
    for x in 0..8i32 {
        for y in 0..8i32 {
            let t = Tile::from_coord(Coord { x, y }).unwrap();
            if b1.get_piece(t) != b2.get_piece(t) {
                return false;
            }
        }
    }
    true
}

#[test]
fn opening_pawn_push() {
    let mut game = GameState::init();
    let mv = parse_move("e4".to_string(), &mut game).unwrap();
    assert_eq!(game.perform_move(mv), Ok(()));
    assert_eq!(
        game.get_fen(),
        "rnbqkbnr/pppppppp/8/8/4P3/8/PPPP1PPP/RNBQKBNR b KQkq e3 0 1".to_string()
    );
}

#[test]
fn ambiguous_knight_move() {
    // knights on b1 and f3 can both reach d2
    let mut game = parse_fen("k7/8/8/8/8/5N2/8/KN6 w - - 0 1".to_string()).unwrap();
    assert_eq!(parse_move("Nd2".to_string(), &mut game), Err(MoveParseError::Ambiguous));
    let mv = parse_move("Nbd2".to_string(), &mut game).unwrap();
    assert_eq!(
        mv,
        Move::PieceMove {
            piece: ChessPiece::Knight,
            tile_from: Tile::B1,
            tile_to: Tile::D2,
            is_en_passant: false,
        }
    );
    assert_eq!(game.perform_move(mv), Ok(()));
}

#[test]
fn promotion_without_specifier() {
    let mut game = get_test("promotion-test".to_string()).unwrap();
    let mv = Move::PieceMove {
        piece: ChessPiece::Pawn,
        tile_from: Tile::D7,
        tile_to: Tile::D8,
        is_en_passant: false,
    };
    assert_eq!(game.perform_move(mv), Err(MoveError::PromotionPieceNotSpecified));
}

#[test]
fn promotion_errors() {
    let mut game = get_test("promotion-test".to_string()).unwrap();
    // not on the back rank
    let mv = Move::PieceMoveWithPromotion {
        tile_from: Tile::H3,
        tile_to: Tile::H4,
        promotion: ChessPiece::Queen,
    };
    assert_eq!(game.perform_move(mv), Err(MoveError::PromotionNotLegal));
    // promoting to a king
    let mv = Move::PieceMoveWithPromotion {
        tile_from: Tile::D7,
        tile_to: Tile::D8,
        promotion: ChessPiece::King,
    };
    assert_eq!(game.perform_move(mv), Err(MoveError::PromotionWrongPiece));
    // a legal promotion goes through
    let mv = Move::PieceMoveWithPromotion {
        tile_from: Tile::D7,
        tile_to: Tile::D8,
        promotion: ChessPiece::Queen,
    };
    assert_eq!(game.perform_move(mv), Ok(()));
    assert_eq!(game.get_board().get_piece(Tile::D8),
        Some(chess::piece::TeamedChessPiece(ChessTeam::White, ChessPiece::Queen)));
}

#[test]
fn castling_blocked_by_check() {
    // rights and a clear path, but the f1 transit square is attacked
    let mut game = parse_fen("5r1k/8/8/8/8/8/8/4K2R w K - 0 1".to_string()).unwrap();
    assert_eq!(game.perform_move(Move::CastleShort), Err(MoveError::CastlingThroughCheck));
}

#[test]
fn castling_other_errors() {
    // no rights at all
    let mut game = parse_fen("5r1k/8/8/8/8/8/8/4K2R w - - 0 1".to_string()).unwrap();
    assert_eq!(game.perform_move(Move::CastleShort), Err(MoveError::CastlingNoRights));
    // a piece stands between king and rook
    let mut game = parse_fen("7k/8/8/8/8/8/8/4KB1R w K - 0 1".to_string()).unwrap();
    assert_eq!(game.perform_move(Move::CastleShort), Err(MoveError::CastlingTilesInBetweenNotFree));
    // with rights, a clear path and no checks, castling goes through
    let mut game = parse_fen("7k/8/8/8/8/8/8/4K2R w K - 0 1".to_string()).unwrap();
    assert_eq!(game.perform_move(Move::CastleShort), Ok(()));
    let board = game.get_board();
    assert_eq!(board.get_piece(Tile::G1),
        Some(chess::piece::TeamedChessPiece(ChessTeam::White, ChessPiece::King)));
    assert_eq!(board.get_piece(Tile::F1),
        Some(chess::piece::TeamedChessPiece(ChessTeam::White, ChessPiece::Rook)));
}

#[test]
fn checkmate_detection() {
    // a back-rank mate delivered by Ra8
    let mut game = parse_fen("6k1/5ppp/8/8/8/8/8/R5K1 w - - 0 1".to_string()).unwrap();
    let mv = parse_move("Ra8".to_string(), &mut game).unwrap();
    assert_eq!(game.perform_move(mv), Ok(()));
    assert!(game.get_end_state() == GameEndState::Checkmate);
    let notation = game.get_move_in_chess_notation(0);
    assert_eq!(notation, "Ra8#".to_string());
}

#[test]
fn fifty_move_draw() {
    // the half-move clock reaches 50 after one more quiet move
    let mut game = parse_fen("k7/8/8/8/8/8/8/K6R w - - 49 30".to_string()).unwrap();
    assert!(game.get_end_state() == GameEndState::Running);
    let mv = parse_move("Rh2".to_string(), &mut game).unwrap();
    assert_eq!(game.perform_move(mv), Ok(()));
    assert_eq!(game.fifty_move_counter(), 50);
    assert!(game.get_end_state() == GameEndState::Draw);
}

#[test]
fn en_passant_window() {
    // the capture is available on the very next move...
    let mut game =
        parse_fen("rnbqkbnr/ppp1pppp/8/8/3p4/8/PPPPPPPP/RNBQKBNR w KQkq - 0 1".to_string())
            .unwrap();
    let mv = parse_move("e4".to_string(), &mut game).unwrap();
    assert_eq!(game.perform_move(mv), Ok(()));
    assert_eq!(game.en_passant_square(), Some(Tile::E3));
    let cap = parse_move("dxe3".to_string(), &mut game).unwrap();
    assert_eq!(
        cap,
        Move::PieceMove {
            piece: ChessPiece::Pawn,
            tile_from: Tile::D4,
            tile_to: Tile::E3,
            is_en_passant: true,
        }
    );
    assert_eq!(game.perform_move(cap), Ok(()));
    // the captured pawn is lifted from e4
    assert_eq!(game.get_board().get_piece(Tile::E4), None);

    // ...but one ply later the same capture is gone
    let mut game =
        parse_fen("rnbqkbnr/ppp1pppp/8/8/3p4/8/PPPPPPPP/RNBQKBNR w KQkq - 0 1".to_string())
            .unwrap();
    let mv = parse_move("e4".to_string(), &mut game).unwrap();
    assert_eq!(game.perform_move(mv), Ok(()));
    let mv = parse_move("h6".to_string(), &mut game).unwrap();
    assert_eq!(game.perform_move(mv), Ok(()));
    let mv = parse_move("h3".to_string(), &mut game).unwrap();
    assert_eq!(game.perform_move(mv), Ok(()));
    assert_eq!(game.en_passant_square(), None);
    assert_eq!(parse_move("dxe3".to_string(), &mut game), Err(MoveParseError::NoPiece));
}

#[test]
fn self_check_rejected() {
    // the d2 pawn is pinned against the king by the e3 bishop
    let mut game = parse_fen("k7/8/8/8/8/4b3/3P4/2K5 w - - 0 1".to_string()).unwrap();
    let mv = Move::PieceMove {
        piece: ChessPiece::Pawn,
        tile_from: Tile::D2,
        tile_to: Tile::D3,
        is_en_passant: false,
    };
    assert_eq!(game.perform_move(mv), Err(MoveError::InCheck));
}

#[test]
fn turn_alternation() {
    let mut game = GameState::init();
    assert_eq!(game.whose_turn(), ChessTeam::White);
    let mv = parse_move("e4".to_string(), &mut game).unwrap();
    assert_eq!(game.perform_move(mv), Ok(()));
    assert_eq!(game.whose_turn(), ChessTeam::Black);
    // a failed attempt leaves the turn (and the game) unchanged
    let bad = Move::PieceMove {
        piece: ChessPiece::Pawn,
        tile_from: Tile::A4,
        tile_to: Tile::A5,
        is_en_passant: false,
    };
    assert_eq!(game.perform_move(bad), Err(MoveError::TileFromIsEmpty));
    assert_eq!(game.whose_turn(), ChessTeam::Black);
    // grabbing the opponent's piece is refused
    let bad = Move::PieceMove {
        piece: ChessPiece::Pawn,
        tile_from: Tile::E4,
        tile_to: Tile::E5,
        is_en_passant: false,
    };
    assert_eq!(game.perform_move(bad), Err(MoveError::TileFromIsEnemyPiece));
    // a move against the piece's geometry is refused
    let bad = Move::PieceMove {
        piece: ChessPiece::Pawn,
        tile_from: Tile::E7,
        tile_to: Tile::E3,
        is_en_passant: false,
    };
    assert_eq!(game.perform_move(bad), Err(MoveError::PieceDoesNotMoveLikeThat));
}

#[test]
fn replay_determinism() {
    let mut game = GameState::init();
    for text in ["e4", "e5", "Nf3", "Nc6", "Bb5"] {
        let mv = parse_move(text.to_string(), &mut game).unwrap();
        assert_eq!(game.perform_move(mv), Ok(()));
    }
    let cached = game.get_board();
    let replayed = game.get_board_at(game.move_count());
    assert!(boards_equal(&cached, &replayed));
}

#[test]
fn fen_round_trip() {
    // a canonical serialization parses back to the same text
    for fen in [
        "rnbqkbnr/pppppppp/8/8/4P3/8/PPPP1PPP/RNBQKBNR b KQkq e3 0 1",
        "5k2/5p2/6p1/8/2n3P1/3R1PNp/6rP/7K w - - 0 54",
        "5k2/5p2/6p1/8/2n3P1/3R1PNp/6rP/7K w Qq e3 0 54",
        "k7/8/8/8/8/8/8/K6R w - - 49 30",
    ] {
        let mut game = parse_fen(fen.to_string()).unwrap();
        assert_eq!(game.get_fen(), fen.to_string());
        let mut game2 = parse_fen(game.get_fen()).unwrap();
        assert_eq!(game2.get_fen(), fen.to_string());
    }
    // the standard starting position serializes canonically
    let mut game = GameState::init();
    assert_eq!(
        game.get_fen(),
        "rnbqkbnr/pppppppp/8/8/8/8/PPPPPPPP/RNBQKBNR w KQkq - 0 1".to_string()
    );
}

#[test]
fn stalemate_draw() {
    // Black to move has no legal move and is not in check
    let mut game = parse_fen("k7/8/1Q6/8/8/8/8/K7 b - - 0 1".to_string()).unwrap();
    assert!(game.get_end_state() == GameEndState::Draw);
}

#[test]
fn notation_fixture() {
    // the notation exercise position resolves disambiguation
    let mut game = get_test("notation-test".to_string()).unwrap();
    assert_eq!(game.whose_turn(), ChessTeam::White);
    // three queens can reach e1, so file and rank are both needed
    let mv = parse_move("Qh4e1".to_string(), &mut game);
    assert!(mv.is_ok());
}

#[test]
fn legal_destinations() {
    let mut game = GameState::init();
    let board = game.get_board();
    // a knight on b1 has two legal destinations at the start
    let dests = board.get_legal_moves_of_piece_in_tile(Tile::B1, None).unwrap();
    assert_eq!(dests.len(), 2);
    assert!(dests.contains(&Coord { x: 0, y: 2 }));
    assert!(dests.contains(&Coord { x: 2, y: 2 }));
    // an empty square yields no list at all
    assert!(board.get_legal_moves_of_piece_in_tile(Tile::E4, None).is_none());
    // a blocked rook has no legal destinations
    let dests = board.get_legal_moves_of_piece_in_tile(Tile::A1, None).unwrap();
    assert_eq!(dests.len(), 0);
}

#[test]
fn coordinate_arithmetic() {
    let a = Coord { x: 2, y: 3 };
    let b = Coord { x: 5, y: 6 };
    let d = a.distance(b);
    assert_eq!(d, Coord { x: 3, y: 3 });
    assert_eq!(d.magnitude(), Some(3));
    assert_eq!(d.unit(), Coord { x: 1, y: 1 });
    assert_eq!(Coord { x: 2, y: 5 }.magnitude(), None);
    assert_eq!(Coord { x: 0, y: -4 }.magnitude(), Some(4));
    assert_eq!(a.get_file_char(), 'c');
    assert_eq!(a.get_rank_char(), '4');
    // tile and coordinate conversion round-trips
    let t = Tile::from_coord(Coord { x: 4, y: 3 }).unwrap();
    assert_eq!(t, Tile::E4);
    assert_eq!(t.to_coord(), Coord { x: 4, y: 3 });
    assert!(Tile::from_coord(Coord { x: 8, y: 0 }).is_none());
    assert!(Tile::from_coord(Coord { x: 0, y: -1 }).is_none());
}

#[test]
fn unknown_test_name() {
    assert!(get_test("something-else".to_string()).is_none());
    assert!(chess::fen::get_test("notation-test".to_string()).is_some());
}

#[test]
fn unparsable_moves() {
    let mut game = GameState::init();
    assert_eq!(parse_move("??".to_string(), &mut game), Err(MoveParseError::CantParse));
    assert_eq!(parse_move("".to_string(), &mut game), Err(MoveParseError::CantParse));
    assert_eq!(parse_move("Nd5".to_string(), &mut game), Err(MoveParseError::NoPiece));
}
