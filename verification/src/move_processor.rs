//! The move resolver: turns a candidate parse into one concrete
//! [`Move`] by finding, on the current board, the single piece able to
//! make the parsed move -- or reports why it could not.
use vstd::prelude::*;

use crate::board::{Board, BoardView, file_pieces_upto, pieces_by_file};
use crate::coord::{Coord, on_board};
use crate::fen::{file_of, digit_val};
use crate::game::GameState;
use crate::legality::{piece_move_ok, is_ep_capture, is_piece_move_legal};
use crate::move_parser::{self, MovePrimary, spec_parse};
use crate::piece::{ChessTeam, ChessPiece, TeamedChessPiece, Move};
use crate::strutil::char_code;
use crate::tile::{Tile, tile_x, tile_y, tile_of_idx, lemma_tile_of_idx};

verus! {

broadcast use vstd::seq_lib::group_seq_properties, crate::tile::lemma_tile_bounds;

/// Why a notation string did not resolve to a move.
#[derive(Clone, Copy, Debug, Eq, PartialEq, Structural)]
pub enum MoveParseError {
    /// More than one piece of that kind can make the move.
    Ambiguous,
    /// No piece of that kind can make the move.
    NoPiece,
    /// The destination tile is incomplete.
    NoDestination,
    /// The text matches no move shape.
    CantParse,
}

/// The elements among the first `n` of `s` that satisfy `p`, in order.
pub open spec fn keep_upto(s: Seq<Coord>, p: spec_fn(Coord) -> bool, n: int) -> Seq<Coord>
    decreases n,
{
    if n <= 0 {
        Seq::empty()
    } else {
        let prefix = keep_upto(s, p, n - 1);
        if p(s[n - 1]) {
            prefix.push(s[n - 1])
        } else {
            prefix
        }
    }
}

/// The piece kind a letter names, in either case.
pub open spec fn piece_of_char(c: char) -> Option<ChessPiece> {
    if c == 'r' || c == 'R' {
        Some(ChessPiece::Rook)
    } else if c == 'q' || c == 'Q' {
        Some(ChessPiece::Queen)
    } else if c == 'b' || c == 'B' {
        Some(ChessPiece::Bishop)
    } else if c == 'n' || c == 'N' {
        Some(ChessPiece::Knight)
    } else if c == 'k' || c == 'K' {
        Some(ChessPiece::King)
    } else {
        None
    }
}

/// The destination coordinates a candidate parse names: its file
/// letter and rank digit (the rank may fall outside the board when
/// the digit does).
pub open spec fn spec_dest(pm: move_parser::Move) -> Result<(int, int), MoveParseError> {
    match pm.primary {
        MovePrimary::PieceMove { destination, .. } => {
            match file_of(destination.0) {
                None => Err(MoveParseError::NoDestination),
                Some(fx) => match digit_val(destination.1) {
                    None => Err(MoveParseError::NoDestination),
                    Some(d) => Ok((fx, d - 1)),
                },
            }
        },
        _ => Err(MoveParseError::NoDestination),
    }
}

/// The square of the friendly pawn that could have advanced to the
/// given destination: walking back up to two ranks, the first
/// occupied square must hold a pawn of the side to move.
pub open spec fn spec_moved_pawn(bv: BoardView, dx: int, dy: int) -> Result<
    (int, int),
    MoveParseError,
> {
    let tf: int = match bv.turn {
        ChessTeam::White => -1,
        ChessTeam::Black => 1,
    };
    let y1 = dy + tf;
    if on_board(dx, y1) && bv.at(dx, y1) is Some {
        if bv.at(dx, y1) == Some(TeamedChessPiece(bv.turn, ChessPiece::Pawn)) {
            Ok((dx, y1))
        } else {
            Err(MoveParseError::NoPiece)
        }
    } else {
        let y2 = dy + 2 * tf;
        if on_board(dx, y2) && bv.at(dx, y2) is Some {
            if bv.at(dx, y2) == Some(TeamedChessPiece(bv.turn, ChessPiece::Pawn)) {
                Ok((dx, y2))
            } else {
                Err(MoveParseError::NoPiece)
            }
        } else {
            Err(MoveParseError::NoPiece)
        }
    }
}

/// A plain pawn advance (no origin file written): the destination
/// must be a tile, the advancing pawn must be found behind it, and
/// any written promotion letter picks the promotion piece.
pub open spec fn spec_pawn_move(pm: move_parser::Move, bv: BoardView) -> Result<
    Move,
    MoveParseError,
> {
    match spec_dest(pm) {
        Err(e) => Err(e),
        Ok((dx, dy)) => match spec_moved_pawn(bv, dx, dy) {
            Err(e) => Err(e),
            Ok((fx, fy)) => {
                if !on_board(dx, dy) {
                    Err(MoveParseError::NoPiece)
                } else {
                    let promotion = promo_char(pm);
                    let tile_from = tile_of_idx((7 - fy) * 8 + fx);
                    let tile_to = tile_of_idx((7 - dy) * 8 + dx);
                    if promotion != '-' {
                        match piece_of_char(promotion) {
                            None => Err(MoveParseError::NoPiece),
                            Some(pk) => Ok(
                                Move::PieceMoveWithPromotion { tile_from, tile_to, promotion: pk },
                            ),
                        }
                    } else {
                        Ok(
                            Move::PieceMove {
                                piece: ChessPiece::Pawn,
                                tile_from,
                                tile_to,
                                is_en_passant: false,
                            },
                        )
                    }
                }
            },
        },
    }
}

/// The promotion letter of a candidate parse, `'-'` when none.
pub open spec fn promo_char(pm: move_parser::Move) -> char {
    match pm.primary {
        MovePrimary::PieceMove { promotion, .. } => promotion,
        _ => '-',
    }
}

/// The piece letters of a candidate parse.
pub open spec fn piece_chars(pm: move_parser::Move) -> (char, char, char) {
    match pm.primary {
        MovePrimary::PieceMove { piece, .. } => piece,
        _ => ('-', '-', '-'),
    }
}

/// The destination letters of a candidate parse.
pub open spec fn dest_chars(pm: move_parser::Move) -> (char, char) {
    match pm.primary {
        MovePrimary::PieceMove { destination, .. } => destination,
        _ => ('-', '-'),
    }
}

/// The pawn that a written pawn capture selects: a friendly pawn on
/// the written origin file whose single diagonal capture onto the
/// written destination file is legal (en passant included), with the
/// written rank, if any, matching the landing rank exactly.
pub open spec fn pawn_capture_pred(
    bv: BoardView,
    ep: Option<Tile>,
    file: int,
    rank: Option<int>,
    tf: int,
) -> spec_fn(Coord) -> bool {
    |p: Coord|
        {
            let ty = p.y as int + tf;
            &&& (match rank {
                Some(rv) => rv - 1 == ty,
                None => true,
            })
            &&& on_board(file, ty)
            &&& piece_move_ok(
                TeamedChessPiece(bv.turn, ChessPiece::Pawn),
                p.x as int,
                p.y as int,
                file,
                ty,
                ep,
                bv,
            )
        }
}

/// A written pawn capture: the friendly pawns on the written origin
/// file are filtered to those whose capture onto the destination is
/// legal; none is `NoPiece`, several are `Ambiguous`, and the single
/// survivor makes the move (a promotion when a promotion letter was
/// written).
pub open spec fn spec_pawn_capture_resolve(
    pm: move_parser::Move,
    ep: Option<Tile>,
    bv: BoardView,
) -> Result<Move, MoveParseError> {
    let piece = piece_chars(pm);
    let destination = dest_chars(pm);
    let promotion = promo_char(pm);
    let tf: int = match bv.turn {
        ChessTeam::White => 1,
        ChessTeam::Black => -1,
    };
    match file_of(destination.0) {
        None => Err(MoveParseError::NoPiece),
        Some(file) => match file_of(piece.1) {
            None => Err(MoveParseError::NoPiece),
            Some(file_from) => {
                let rank = digit_val(destination.1);
                let pawns = file_pieces_upto(bv, bv.turn, ChessPiece::Pawn, file_from, 8);
                let kept = keep_upto(pawns, pawn_capture_pred(bv, ep, file, rank, tf), pawns.len() as int);
                if kept.len() > 1 {
                    Err(MoveParseError::Ambiguous)
                } else if kept.len() == 0 {
                    Err(MoveParseError::NoPiece)
                } else {
                    let p = kept[0];
                    let ty = p.y as int + tf;
                    let tile_from = tile_of_idx((7 - p.y as int) * 8 + p.x as int);
                    let tile_to = tile_of_idx((7 - ty) * 8 + file);
                    if promotion != '-' {
                        match piece_of_char(promotion) {
                            None => Err(MoveParseError::NoPiece),
                            Some(pk) => Ok(
                                Move::PieceMoveWithPromotion { tile_from, tile_to, promotion: pk },
                            ),
                        }
                    } else {
                        Ok(
                            Move::PieceMove {
                                piece: ChessPiece::Pawn,
                                tile_from,
                                tile_to,
                                is_en_passant: is_ep_capture(
                                    TeamedChessPiece(bv.turn, ChessPiece::Pawn),
                                    p.x as int,
                                    p.y as int,
                                    file,
                                    ty,
                                    ep,
                                    bv,
                                ),
                            },
                        )
                    }
                }
            },
        },
    }
}

/// The piece that a written piece move selects, after the optional
/// file and rank disambiguation and the legality filter.
pub open spec fn non_pawn_pred(
    bv: BoardView,
    kind: ChessPiece,
    file_spec: Option<int>,
    rank_spec: Option<int>,
    tx: int,
    ty: int,
) -> spec_fn(Coord) -> bool {
    |p: Coord|
        {
            &&& (match file_spec {
                Some(fs) => p.x as int == fs,
                None => true,
            })
            &&& (match rank_spec {
                Some(rs) => p.y as int == rs - 1,
                None => true,
            })
            &&& piece_move_ok(
                TeamedChessPiece(bv.turn, kind),
                p.x as int,
                p.y as int,
                tx,
                ty,
                None,
                bv,
            )
        }
}

/// A written piece move: the friendly pieces of the written kind are
/// filtered by the written file or rank disambiguation and by
/// legality onto the destination; none is `NoPiece`, several are
/// `Ambiguous`, and the single survivor makes the move.
pub open spec fn spec_non_pawn_resolve(pm: move_parser::Move, bv: BoardView) -> Result<
    Move,
    MoveParseError,
> {
    let piece = piece_chars(pm);
    match piece_of_char(piece.0) {
        None => Err(MoveParseError::NoPiece),
        Some(kind) => match spec_dest(pm) {
            Err(e) => Err(e),
            Ok((tx, ty)) => {
                if !on_board(tx, ty) {
                    Err(MoveParseError::NoPiece)
                } else {
                    let file_spec = file_of(piece.1);
                    let rank_spec = digit_val(piece.2);
                    let pieces = pieces_by_file(bv, bv.turn, kind, 8);
                    let kept = keep_upto(
                        pieces,
                        non_pawn_pred(bv, kind, file_spec, rank_spec, tx, ty),
                        pieces.len() as int,
                    );
                    if kept.len() > 1 {
                        Err(MoveParseError::Ambiguous)
                    } else if kept.len() == 0 {
                        Err(MoveParseError::NoPiece)
                    } else {
                        let p = kept[0];
                        let tile_from = tile_of_idx((7 - p.y as int) * 8 + p.x as int);
                        let tile_to = tile_of_idx((7 - ty) * 8 + tx);
                        Ok(
                            Move::PieceMove {
                                piece: kind,
                                tile_from,
                                tile_to,
                                is_en_passant: false,
                            },
                        )
                    }
                }
            },
        },
    }
}

/// What one candidate parse resolves to on the current board.
pub open spec fn spec_resolve_candidate(
    pm: move_parser::Move,
    ep: Option<Tile>,
    bv: BoardView,
) -> Result<Move, MoveParseError> {
    match pm.primary {
        MovePrimary::CastleShort => Ok(Move::CastleShort),
        MovePrimary::CastleLong => Ok(Move::CastleLong),
        MovePrimary::PieceMove { piece, .. } => {
            if piece == ('-', '-', '-') {
                spec_pawn_move(pm, bv)
            } else if piece.0 == '-' {
                spec_pawn_capture_resolve(pm, ep, bv)
            } else {
                spec_non_pawn_resolve(pm, bv)
            }
        },
    }
}

/// The candidates are tried in order; the first to resolve wins, and
/// when every candidate fails only the last error is surfaced.
pub open spec fn resolve_from(
    cands: Seq<move_parser::Move>,
    k: int,
    ep: Option<Tile>,
    bv: BoardView,
    last: MoveParseError,
) -> Result<Move, MoveParseError>
    decreases cands.len() - k,
{
    if k < 0 || k >= cands.len() {
        Err(last)
    } else {
        match spec_resolve_candidate(cands[k], ep, bv) {
            Ok(m) => Ok(m),
            Err(e) => resolve_from(cands, k + 1, ep, bv, e),
        }
    }
}

/// The character is one of the four ASCII whitespace characters that
/// move text is stripped of.
pub open spec fn is_space_c(c: char) -> bool {
    c == ' ' || c == '\t' || c == '\n' || c == '\r'
}

/// The text with its whitespace removed, up to position `n`.
pub open spec fn stripped_upto(s: Seq<char>, n: int) -> Seq<char>
    decreases n,
{
    if n <= 0 {
        Seq::empty()
    } else {
        let prefix = stripped_upto(s, n - 1);
        if is_space_c(s[n - 1]) {
            prefix
        } else {
            prefix.push(s[n - 1])
        }
    }
}

/// What a typed move resolves to in a game: the text is stripped of
/// whitespace, read into candidate parses, and the candidates are
/// tried against the current board in order.
pub open spec fn spec_parse_move(s: Seq<char>, bv: BoardView, ep: Option<Tile>) -> Result<
    Move,
    MoveParseError,
> {
    resolve_from(
        spec_parse(stripped_upto(s, s.len() as int)),
        0,
        ep,
        bv,
        MoveParseError::CantParse,
    )
}

/// Elements kept by a filter come from the filtered sequence.
proof fn lemma_keep_in(s: Seq<Coord>, p: spec_fn(Coord) -> bool, n: int, j: int)
    requires
        0 <= n <= s.len(),
        0 <= j < keep_upto(s, p, n).len(),
    ensures
        exists|i: int| 0 <= i < n && s[i] == keep_upto(s, p, n)[j],
        p(keep_upto(s, p, n)[j]),
    decreases n,
{
    if n > 0 {
        let prefix = keep_upto(s, p, n - 1);
        if j < prefix.len() {
            lemma_keep_in(s, p, n - 1, j);
            let i = choose|i: int| 0 <= i < n - 1 && s[i] == prefix[j];
            assert(s[i] == keep_upto(s, p, n)[j]);
        } else {
            assert(s[n - 1] == keep_upto(s, p, n)[j]);
        }
    }
}

/// The piece kind a letter names.
fn get_piece(p: char) -> (r: Option<ChessPiece>)
    ensures
        r == piece_of_char(p),
{
    if p == 'r' || p == 'R' {
        Some(ChessPiece::Rook)
    } else if p == 'q' || p == 'Q' {
        Some(ChessPiece::Queen)
    } else if p == 'b' || p == 'B' {
        Some(ChessPiece::Bishop)
    } else if p == 'n' || p == 'N' {
        Some(ChessPiece::Knight)
    } else if p == 'k' || p == 'K' {
        Some(ChessPiece::King)
    } else {
        None
    }
}

/// The file a letter names.
fn file_to_coord(f: char) -> (r: Option<i32>)
    ensures
        (match r {
            Some(v) => file_of(f) == Some(v as int) && 0 <= v < 8,
            None => file_of(f) is None,
        }),
{
    if f == 'a' {
        Some(0)
    } else if f == 'b' {
        Some(1)
    } else if f == 'c' {
        Some(2)
    } else if f == 'd' {
        Some(3)
    } else if f == 'e' {
        Some(4)
    } else if f == 'f' {
        Some(5)
    } else if f == 'g' {
        Some(6)
    } else if f == 'h' {
        Some(7)
    } else {
        None
    }
}

/// The value of a rank or digit character.
fn rank_to_coord(r: char) -> (v: Option<i32>)
    ensures
        (match v {
            Some(d) => digit_val(r) == Some(d as int) && 0 <= d <= 9,
            None => digit_val(r) is None,
        }),
{
    let u = char_code(r);
    if 48 <= u && u <= 57 {
        Some((u - 48) as i32)
    } else {
        None
    }
}

/// The destination coordinates a candidate parse names.
fn get_dest_tile(the_move: &move_parser::Move) -> (r: Result<(i32, i32), MoveParseError>)
    ensures
        (match r {
            Ok(d) => spec_dest(*the_move) == Ok::<(int, int), MoveParseError>(
                (d.0 as int, d.1 as int),
            ),
            Err(e) => spec_dest(*the_move) == Err::<(int, int), MoveParseError>(e),
        }),
{
    match &the_move.primary {
        MovePrimary::PieceMove { destination, .. } => {
            let d = *destination;
            match file_to_coord(d.0) {
                None => Err(MoveParseError::NoDestination),
                Some(fx) => match rank_to_coord(d.1) {
                    None => Err(MoveParseError::NoDestination),
                    Some(rv) => Ok((fx, rv - 1)),
                },
            }
        },
        _ => Err(MoveParseError::NoDestination),
    }
}

/// The square of the friendly pawn that could have advanced to the
/// given destination.
fn get_moved_pawn(dest: Coord, board: &Board) -> (r: Result<Coord, MoveParseError>)
    requires
        board.wf(),
        -2 <= dest.y as int <= 9,
        0 <= dest.x as int <= 8,
    ensures
        (match r {
            Ok(c) => spec_moved_pawn(board@, dest.x as int, dest.y as int) == Ok::<
                (int, int),
                MoveParseError,
            >((c.x as int, c.y as int)),
            Err(e) => spec_moved_pawn(board@, dest.x as int, dest.y as int) == Err::<
                (int, int),
                MoveParseError,
            >(e),
        }),
{
    let team_factor: i32 = match board.whose_turn() {
        ChessTeam::White => -1,
        ChessTeam::Black => 1,
    };
    let y1 = dest.y + team_factor;
    let c1 = Coord { x: dest.x, y: y1 };
    let p1 = if 0 <= c1.x && c1.x < 8 && 0 <= c1.y && c1.y < 8 {
        board.square_at(((7 - c1.y) * 8 + c1.x) as usize)
    } else {
        None
    };
    if let Some(TeamedChessPiece(t, p)) = p1 {
        if p == ChessPiece::Pawn && t == board.whose_turn() {
            return Ok(c1);
        } else {
            return Err(MoveParseError::NoPiece);
        }
    }
    let y2 = dest.y + 2 * team_factor;
    let c2 = Coord { x: dest.x, y: y2 };
    let p2 = if 0 <= c2.x && c2.x < 8 && 0 <= c2.y && c2.y < 8 {
        board.square_at(((7 - c2.y) * 8 + c2.x) as usize)
    } else {
        None
    };
    if let Some(TeamedChessPiece(t, p)) = p2 {
        if p == ChessPiece::Pawn && t == board.whose_turn() {
            return Ok(c2);
        } else {
            return Err(MoveParseError::NoPiece);
        }
    }
    Err(MoveParseError::NoPiece)
}

/// The named square at a coordinate known to lie on the board.
fn tile_at(c: Coord) -> (t: Tile)
    requires
        c.valid(),
    ensures
        t == tile_of_idx((7 - c.y as int) * 8 + c.x as int),
        tile_x(t) == c.x as int,
        tile_y(t) == c.y as int,
{
    let t = crate::tile::tile_from_index(((7 - c.y) * 8 + c.x) as usize);
    proof {
        lemma_tile_of_idx(t);
    }
    t
}

/// Resolves a plain pawn advance.
fn get_pawn_move(the_move: &move_parser::Move, board: &Board) -> (r: Result<Move, MoveParseError>)
    requires
        board.wf(),
    ensures
        r == spec_pawn_move(*the_move, board@),
{
    let coord_dest = match get_dest_tile(the_move) {
        Ok(d) => Coord { x: d.0, y: d.1 },
        Err(e) => {
            return Err(e);
        },
    };
    let coord_from = match get_moved_pawn(coord_dest, board) {
        Ok(c) => c,
        Err(e) => {
            return Err(e);
        },
    };
    if !(0 <= coord_dest.x && coord_dest.x < 8 && 0 <= coord_dest.y && coord_dest.y < 8) {
        return Err(MoveParseError::NoPiece);
    }
    let promotion = match &the_move.primary {
        MovePrimary::PieceMove { promotion, .. } => *promotion,
        _ => '-',
    };
    let tile_from = tile_at(coord_from);
    let tile_to = tile_at(coord_dest);
    if promotion != '-' {
        match get_piece(promotion) {
            None => Err(MoveParseError::NoPiece),
            Some(pk) => Ok(Move::PieceMoveWithPromotion { tile_from, tile_to, promotion: pk }),
        }
    } else {
        Ok(Move::PieceMove { piece: ChessPiece::Pawn, tile_from, tile_to, is_en_passant: false })
    }
}

/// Resolves a written pawn capture.
fn get_pawn_capture(
    the_move: &move_parser::Move,
    ep_square: Option<Tile>,
    board: &Board,
) -> (r: Result<Move, MoveParseError>)
    requires
        board.wf(),
    ensures
        r == spec_pawn_capture_resolve(*the_move, ep_square, board@),
{
    let ghost bv = board@;
    let piece = match &the_move.primary {
        MovePrimary::PieceMove { piece, .. } => *piece,
        _ => ('-', '-', '-'),
    };
    let destination = match &the_move.primary {
        MovePrimary::PieceMove { destination, .. } => *destination,
        _ => ('-', '-'),
    };
    let promotion = match &the_move.primary {
        MovePrimary::PieceMove { promotion, .. } => *promotion,
        _ => '-',
    };
    let team_factor: i32 = match board.whose_turn() {
        ChessTeam::White => 1,
        ChessTeam::Black => -1,
    };
    let file = match file_to_coord(destination.0) {
        Some(f) => f,
        None => {
            return Err(MoveParseError::NoPiece);
        },
    };
    let file_from = match file_to_coord(piece.1) {
        Some(f) => f,
        None => {
            return Err(MoveParseError::NoPiece);
        },
    };
    let rank = rank_to_coord(destination.1);

    let pawns: Vec<Coord> = board.find_pieces_in_file(
        board.whose_turn(),
        ChessPiece::Pawn,
        file_from,
    );
    let ghost pred = pawn_capture_pred(
        bv,
        ep_square,
        file as int,
        (match digit_val(destination.1) {
            Some(d) => Some(d),
            None => None,
        }),
        team_factor as int,
    );
    let mut kept: Vec<Coord> = Vec::new();
    let mut i: usize = 0;
    while i < pawns.len()
        invariant
            i <= pawns@.len(),
            board.wf(),
            board@ == bv,
            pawns@ == file_pieces_upto(bv, bv.turn, ChessPiece::Pawn, file_from as int, 8),
            0 <= file < 8,
            0 <= file_from < 8,
            kept@ == keep_upto(pawns@, pred, i as int),
        decreases pawns@.len() - i,
    {
        let p = pawns[i];
        proof {
            crate::board::lemma_file_pieces_valid(
                bv,
                bv.turn,
                ChessPiece::Pawn,
                file_from as int,
                8,
                i as int,
            );
        }
        let ty = p.y + team_factor;
        let rank_ok = match rank {
            Some(rv) => rv - 1 == ty,
            None => true,
        };
        let mut cond = false;
        if rank_ok && 0 <= ty && ty < 8 {
            let target = Coord { x: file, y: ty };
            let t_from = tile_at(p);
            let t_to = tile_at(target);
            let mut flag = false;
            if is_piece_move_legal(
                TeamedChessPiece(board.whose_turn(), ChessPiece::Pawn),
                t_from,
                t_to,
                ep_square,
                board,
                &mut flag,
            ) {
                cond = true;
            }
        }
        proof {
            assert(cond == pred(p));
        }
        if cond {
            kept.push(p);
        }
        i += 1;
    }

    if kept.len() > 1 {
        return Err(MoveParseError::Ambiguous);
    }
    if kept.len() == 0 {
        return Err(MoveParseError::NoPiece);
    }
    let p = kept[0];
    proof {
        lemma_keep_in(pawns@, pred, pawns@.len() as int, 0);
        let i0 = choose|i0: int| 0 <= i0 < pawns@.len() && pawns@[i0] == kept@[0];
        crate::board::lemma_file_pieces_valid(
            bv,
            bv.turn,
            ChessPiece::Pawn,
            file_from as int,
            8,
            i0,
        );
    }
    let ty = p.y + team_factor;
    let tile_from = tile_at(p);
    let tile_to = tile_at(Coord { x: file, y: ty });
    if promotion != '-' {
        match get_piece(promotion) {
            None => Err(MoveParseError::NoPiece),
            Some(pk) => Ok(Move::PieceMoveWithPromotion { tile_from, tile_to, promotion: pk }),
        }
    } else {
        let mut is_en_passant = false;
        let _legal = is_piece_move_legal(
            TeamedChessPiece(board.whose_turn(), ChessPiece::Pawn),
            tile_from,
            tile_to,
            ep_square,
            board,
            &mut is_en_passant,
        );
        Ok(
            Move::PieceMove {
                piece: ChessPiece::Pawn,
                tile_from,
                tile_to,
                is_en_passant,
            },
        )
    }
}

/// Resolves a written piece move.
fn get_non_pawn_move(the_move: &move_parser::Move, board: &Board) -> (r: Result<
    Move,
    MoveParseError,
>)
    requires
        board.wf(),
    ensures
        r == spec_non_pawn_resolve(*the_move, board@),
{
    let ghost bv = board@;
    let piece = match &the_move.primary {
        MovePrimary::PieceMove { piece, .. } => *piece,
        _ => ('-', '-', '-'),
    };
    let kind = match get_piece(piece.0) {
        Some(k) => k,
        None => {
            return Err(MoveParseError::NoPiece);
        },
    };
    let (tx, ty) = match get_dest_tile(the_move) {
        Ok(d) => d,
        Err(e) => {
            return Err(e);
        },
    };
    if !(0 <= tx && tx < 8 && 0 <= ty && ty < 8) {
        return Err(MoveParseError::NoPiece);
    }
    let file_spec = file_to_coord(piece.1);
    let rank_spec = rank_to_coord(piece.2);

    let pieces: Vec<Coord> = board.find_pieces(board.whose_turn(), kind);
    let ghost pred = non_pawn_pred(
        bv,
        kind,
        file_of(piece.1),
        digit_val(piece.2),
        tx as int,
        ty as int,
    );
    let t_to = tile_at(Coord { x: tx, y: ty });
    let mut kept: Vec<Coord> = Vec::new();
    let mut i: usize = 0;
    while i < pieces.len()
        invariant
            i <= pieces@.len(),
            board.wf(),
            board@ == bv,
            pieces@ == pieces_by_file(bv, bv.turn, kind, 8),
            0 <= tx < 8,
            0 <= ty < 8,
            tile_x(t_to) == tx as int,
            tile_y(t_to) == ty as int,
            kept@ == keep_upto(pieces@, pred, i as int),
        decreases pieces@.len() - i,
    {
        let p = pieces[i];
        proof {
            crate::board::lemma_pieces_by_file_valid(bv, bv.turn, kind, 8, i as int);
        }
        let file_ok = match file_spec {
            Some(fs) => p.x == fs,
            None => true,
        };
        let rank_ok = match rank_spec {
            Some(rs) => p.y + 1 == rs,
            None => true,
        };
        let mut cond = false;
        if file_ok && rank_ok {
            let t_from = tile_at(p);
            let mut flag = false;
            if is_piece_move_legal(
                TeamedChessPiece(board.whose_turn(), kind),
                t_from,
                t_to,
                None,
                board,
                &mut flag,
            ) {
                cond = true;
            }
        }
        proof {
            assert(cond == pred(p));
        }
        if cond {
            kept.push(p);
        }
        i += 1;
    }

    if kept.len() > 1 {
        return Err(MoveParseError::Ambiguous);
    }
    if kept.len() == 0 {
        return Err(MoveParseError::NoPiece);
    }
    let p = kept[0];
    proof {
        lemma_keep_in(pieces@, pred, pieces@.len() as int, 0);
        let i0 = choose|i0: int| 0 <= i0 < pieces@.len() && pieces@[i0] == kept@[0];
        crate::board::lemma_pieces_by_file_valid(bv, bv.turn, kind, 8, i0);
    }
    let tile_from = tile_at(p);
    Ok(Move::PieceMove { piece: kind, tile_from, tile_to: t_to, is_en_passant: false })
}

/// Resolves a typed move against the game's current position: the
/// text is read into candidate parses, the candidates are tried in
/// order, and the first that resolves wins. When all fail, the last
/// error seen is surfaced.
pub fn parse_move(move_input: String, game: &mut GameState) -> (r: Result<Move, MoveParseError>)
    requires
        old(game).wf(),
    ensures
        final(game)@ == old(game)@,
        final(game).wf(),
        r == spec_parse_move(move_input@, old(game)@.current_board(), old(game)@.ep),
{
        let raw = crate::strutil::chars_of(move_input.as_str());
        let mut input: Vec<char> = Vec::new();
        let mut i: usize = 0;
        while i < raw.len()
            invariant
                i <= raw@.len(),
                raw@ == move_input@,
                input@ == stripped_upto(raw@, i as int),
            decreases raw@.len() - i,
        {
            let c = raw[i];
            if !(c == ' ' || c == '\t' || c == '\n' || c == '\r') {
                input.push(c);
            }
            i += 1;
        }

        let moves = match move_parser::parse(input) {
            Ok(m) => m,
            Err(()) => {
                return Err(MoveParseError::CantParse);
            },
        };
        let ghost cands = moves@;

    let ep_square = game.en_passant_square();
    let board = game.get_board();
        let ghost bv = board@;

        let mut last_error = MoveParseError::CantParse;
        let mut k: usize = 0;
        while k < moves.len()
            invariant
                k <= cands.len(),
                moves@ == cands,
                board.wf(),
                board@ == bv,
                resolve_from(cands, 0, ep_square, bv, MoveParseError::CantParse) == resolve_from(
                    cands,
                    k as int,
                    ep_square,
                    bv,
                    last_error,
                ),
            decreases cands.len() - k,
        {
            let mi = &moves[k];
            match &mi.primary {
                MovePrimary::PieceMove { piece, .. } => {
                    let p = *piece;
                    let res = if p.0 == '-' && p.1 == '-' && p.2 == '-' {
                        get_pawn_move(mi, &board)
                    } else if p.0 == '-' {
                        get_pawn_capture(mi, ep_square, &board)
                    } else {
                        get_non_pawn_move(mi, &board)
                    };
                    match res {
                        Ok(m) => {
                            return Ok(m);
                        },
                        Err(e) => {
                            last_error = e;
                        },
                    }
                },
                MovePrimary::CastleShort => {
                    return Ok(Move::CastleShort);
                },
                MovePrimary::CastleLong => {
                    return Ok(Move::CastleLong);
                },
            }
            k += 1;
        }
    Err(last_error)
}

} // verus!
