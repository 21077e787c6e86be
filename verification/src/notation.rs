//! Reconstructing display notation for a played move from the move
//! and the board it was played on.
use vstd::prelude::*;

use crate::board::{Board, BoardView, spec_apply, pieces_by_file};
use crate::coord::{Coord, file_char, rank_char};
use crate::game::{GameState, GameStateView, replay_upto, end_state_of};
use crate::legality::{piece_move_ok, in_check, is_piece_move_legal};
use crate::move_processor::keep_upto;
use crate::piece::{ChessPiece, TeamedChessPiece, Move, GameEndState};
use crate::strutil::push_char;
use crate::tile::{Tile, tile_x, tile_y};

verus! {

broadcast use vstd::seq_lib::group_seq_properties, crate::tile::lemma_tile_bounds;

/// The letter a piece kind prints as; pawns print nothing.
pub open spec fn piece_letter(p: ChessPiece) -> Seq<char> {
    match p {
        ChessPiece::Pawn => Seq::empty(),
        ChessPiece::Rook => seq!['R'],
        ChessPiece::Knight => seq!['N'],
        ChessPiece::Bishop => seq!['B'],
        ChessPiece::Queen => seq!['Q'],
        ChessPiece::King => seq!['K'],
    }
}

/// The name of a square, file letter then rank digit.
pub open spec fn tile_str(t: Tile) -> Seq<char> {
    seq![file_char(tile_x(t)), rank_char(tile_y(t))]
}

/// The other pieces of the mover's kind and side that could also have
/// made the move (the mover itself excluded).
pub open spec fn rival_pred(prev: BoardView, kind: ChessPiece, from: Tile, to: Tile) -> spec_fn(
    Coord,
) -> bool {
    |p: Coord|
        {
            &&& piece_move_ok(
                TeamedChessPiece(prev.turn, kind),
                p.x as int,
                p.y as int,
                tile_x(to),
                tile_y(to),
                None,
                prev,
            )
            &&& !(p.x as int == tile_x(from) && p.y as int == tile_y(from))
        }
}

/// The coordinates of the rivals of a move, in board scan order.
pub open spec fn notation_rivals(
    prev: BoardView,
    kind: ChessPiece,
    from: Tile,
    to: Tile,
) -> Seq<Coord> {
    let pieces = pieces_by_file(prev, prev.turn, kind, 8);
    keep_upto(pieces, rival_pred(prev, kind, from, to), pieces.len() as int)
}

/// No listed coordinate lies on file `x`.
pub open spec fn none_on_file(s: Seq<Coord>, x: int) -> bool {
    forall|j: int| 0 <= j < s.len() ==> (#[trigger] s[j]).x as int != x
}

/// No listed coordinate lies on rank `y`.
pub open spec fn none_on_rank(s: Seq<Coord>, y: int) -> bool {
    forall|j: int| 0 <= j < s.len() ==> (#[trigger] s[j]).y as int != y
}

/// The body of a plain piece move's notation: a capturing pawn shows
/// its origin file; other pieces show their letter, preceded by the
/// minimal file/rank disambiguation whenever a rival could make the
/// same move.
#[verifier::opaque]
pub open spec fn basic_piece_move(
    prev: BoardView,
    piece: ChessPiece,
    tile_from: Tile,
    tile_to: Tile,
    was: bool,
) -> Seq<char> {
    let cap: Seq<char> = if was {
        seq!['x']
    } else {
        Seq::empty()
    };
    if piece == ChessPiece::Pawn && was {
        seq![file_char(tile_x(tile_from))] + cap + tile_str(tile_to)
    } else {
        let rivals = notation_rivals(prev, piece, tile_from, tile_to);
        if rivals.len() == 0 {
            piece_letter(piece) + cap + tile_str(tile_to)
        } else {
            let fx = tile_x(tile_from);
            let fy = tile_y(tile_from);
            let specif: Seq<char> = if none_on_file(rivals, fx) {
                seq![file_char(fx)]
            } else if none_on_rank(rivals, fy) {
                seq![rank_char(fy)]
            } else {
                seq![file_char(fx), rank_char(fy)]
            };
            specif + piece_letter(piece) + cap + tile_str(tile_to)
        }
    }
}

/// The display notation of move `i` of a game: the piece letter (or a
/// pawn's origin file on a capture), the minimal file/rank
/// disambiguation against the rivals, `x` on a capture, the
/// destination square, a promotion suffix, castle notation, a
/// trailing ` e.p.` marker, and `#` or `+` recomputed from the
/// resulting position.
pub open spec fn notation_of(g: GameStateView, i: int) -> Seq<char> {
    let m = g.moves[i];
    let prev = replay_upto(g.start, g.moves, i);
    let nb = spec_apply(prev, m).0;
    let was = spec_apply(prev, m).1;
    let cap: Seq<char> = if was {
        seq!['x']
    } else {
        Seq::empty()
    };
    let basic = match m {
        Move::PieceMove { piece, tile_from, tile_to, .. } => basic_piece_move(
            prev,
            piece,
            tile_from,
            tile_to,
            was,
        ),
        Move::PieceMoveWithPromotion { tile_from, tile_to, promotion } => {
            if was {
                seq![file_char(tile_x(tile_from)), 'x'] + tile_str(tile_to) + seq!['=']
                    + piece_letter(promotion)
            } else {
                tile_str(tile_to) + seq!['='] + piece_letter(promotion)
            }
        },
        Move::CastleShort => seq!['O', '-', 'O'],
        Move::CastleLong => seq!['O', '-', 'O', '-', 'O'],
    };
    let ep_sfx: Seq<char> = match m {
        Move::PieceMove { is_en_passant, .. } => if is_en_passant {
            seq![' ', 'e', '.', 'p', '.']
        } else {
            Seq::empty()
        },
        _ => Seq::empty(),
    };
    let end_sfx: Seq<char> = if i == g.moves.len() - 1 && end_state_of(
        g.current_board(),
        g.ep,
        g.fifty,
    ) == GameEndState::Checkmate {
        seq!['#']
    } else if in_check(nb, nb.turn, None) {
        seq!['+']
    } else {
        Seq::empty()
    };
    basic + ep_sfx + end_sfx
}

/// The letter a piece kind prints as, pushed onto the text.
fn push_piece_letter(out: &mut String, p: ChessPiece)
    ensures
        final(out)@ == old(out)@ + piece_letter(p),
{
    match p {
        ChessPiece::Pawn => {},
        ChessPiece::Rook => push_char(out, 'R'),
        ChessPiece::Knight => push_char(out, 'N'),
        ChessPiece::Bishop => push_char(out, 'B'),
        ChessPiece::Queen => push_char(out, 'Q'),
        ChessPiece::King => push_char(out, 'K'),
    }
}

/// The name of a square, pushed onto the text.
fn push_tile(out: &mut String, t: Tile)
    ensures
        final(out)@ == old(out)@ + tile_str(t),
{
    let c = t.to_coord();
    push_char(out, c.get_file_char());
    push_char(out, c.get_rank_char());
}

/// Writes the body of a plain piece move's notation.
#[verifier::spinoff_prover]
#[verifier::rlimit(100)]
fn push_basic_piece_move(
    res: &mut String,
    prev_board: &Board,
    piece: ChessPiece,
    tile_from: Tile,
    tile_to: Tile,
    was_capture: bool,
)
    requires
        prev_board.wf(),
    ensures
        final(res)@ == old(res)@ + basic_piece_move(
            prev_board@,
            piece,
            tile_from,
            tile_to,
            was_capture,
        ),
{
    proof {
        reveal(basic_piece_move);
    }
    let ghost prev = prev_board@;
    if piece == ChessPiece::Pawn && was_capture {
        let c = tile_from.to_coord();
        push_char(res, c.get_file_char());
        push_char(res, 'x');
        push_tile(res, tile_to);
    } else {
        let pieces = prev_board.find_pieces(prev_board.whose_turn(), piece);
        let ghost pred = rival_pred(prev, piece, tile_from, tile_to);
        let coord_from = tile_from.to_coord();
        let mut rivals: Vec<Coord> = Vec::new();
        let mut i: usize = 0;
        while i < pieces.len()
            invariant
                i <= pieces@.len(),
                prev_board.wf(),
                prev_board@ == prev,
                pieces@ == pieces_by_file(prev, prev.turn, piece, 8),
                coord_from.x as int == tile_x(tile_from),
                coord_from.y as int == tile_y(tile_from),
                rivals@ == keep_upto(pieces@, pred, i as int),
            decreases pieces@.len() - i,
        {
            let p = pieces[i];
            proof {
                crate::board::lemma_pieces_by_file_valid(prev, prev.turn, piece, 8, i as int);
            }
            let mut cond = false;
            if !(p.x == coord_from.x && p.y == coord_from.y) {
                let t_from = match Tile::from_coord(p) {
                    Some(t) => t,
                    None => {
                        proof {
                            assert(false);
                        }
                        tile_from
                    },
                };
                let mut flag = false;
                if is_piece_move_legal(
                    TeamedChessPiece(prev_board.whose_turn(), piece),
                    t_from,
                    tile_to,
                    None,
                    prev_board,
                    &mut flag,
                ) {
                    cond = true;
                }
            }
            proof {
                assert(cond == pred(p));
            }
            if cond {
                rivals.push(p);
            }
            i += 1;
        }

        if rivals.len() == 0 {
            push_piece_letter(res, piece);
            if was_capture {
                push_char(res, 'x');
            }
            push_tile(res, tile_to);
        } else {
            let mut unique_file = true;
            let mut unique_rank = true;
            let mut j: usize = 0;
            while j < rivals.len()
                invariant
                    j <= rivals@.len(),
                    coord_from.x as int == tile_x(tile_from),
                    coord_from.y as int == tile_y(tile_from),
                    unique_file == (forall|k: int|
                        0 <= k < j ==> (#[trigger] rivals@[k]).x as int != tile_x(tile_from)),
                    unique_rank == (forall|k: int|
                        0 <= k < j ==> (#[trigger] rivals@[k]).y as int != tile_y(tile_from)),
                decreases rivals@.len() - j,
            {
                let p = rivals[j];
                if p.x == coord_from.x {
                    unique_file = false;
                }
                if p.y == coord_from.y {
                    unique_rank = false;
                }
                j += 1;
            }
            if unique_file {
                push_char(res, coord_from.get_file_char());
            } else if unique_rank {
                push_char(res, coord_from.get_rank_char());
            } else {
                push_char(res, coord_from.get_file_char());
                push_char(res, coord_from.get_rank_char());
            }
            push_piece_letter(res, piece);
            if was_capture {
                push_char(res, 'x');
            }
            push_tile(res, tile_to);
        }
    }
}

impl GameState {
    /// The display notation of a recorded move: exactly
    /// [`notation_of`] of this game at that move.
    #[verifier::spinoff_prover]
    #[verifier::rlimit(100)]
    pub fn get_move_in_chess_notation(&mut self, move_i: usize) -> (res: String)
        requires
            old(self).wf(),
            move_i < old(self)@.moves.len(),
        ensures
            final(self)@ == old(self)@,
            final(self).wf(),
            res@ == notation_of(old(self)@, move_i as int),
    {
        let ghost g = self@;
        let the_move = self.get_move(move_i);
        let prev_board = self.get_board_at(move_i);
        let ghost prev = prev_board@;
        let mut board = prev_board.clone_board();
        proof {
            crate::game::lemma_wf_step_ok(self, move_i as int);
        }
        let was_capture = board.apply_move(the_move);

        let mut res = String::new();

        match the_move {
            Move::PieceMove { piece, tile_from, tile_to, .. } => {
                push_basic_piece_move(&mut res, &prev_board, piece, tile_from, tile_to, was_capture);
            },
            Move::PieceMoveWithPromotion { tile_from, tile_to, promotion } => {
                if was_capture {
                    let c = tile_from.to_coord();
                    push_char(&mut res, c.get_file_char());
                    push_char(&mut res, 'x');
                    push_tile(&mut res, tile_to);
                    push_char(&mut res, '=');
                    push_piece_letter(&mut res, promotion);
                } else {
                    push_tile(&mut res, tile_to);
                    push_char(&mut res, '=');
                    push_piece_letter(&mut res, promotion);
                }
            },
            Move::CastleShort => {
                push_char(&mut res, 'O');
                push_char(&mut res, '-');
                push_char(&mut res, 'O');
            },
            Move::CastleLong => {
                push_char(&mut res, 'O');
                push_char(&mut res, '-');
                push_char(&mut res, 'O');
                push_char(&mut res, '-');
                push_char(&mut res, 'O');
            },
        }

        if let Move::PieceMove { is_en_passant, .. } = the_move {
            if is_en_passant {
                push_char(&mut res, ' ');
                push_char(&mut res, 'e');
                push_char(&mut res, '.');
                push_char(&mut res, 'p');
                push_char(&mut res, '.');
            }
        }

        let is_last = move_i == self.move_count() - 1;
        if is_last && self.get_end_state() == GameEndState::Checkmate {
            push_char(&mut res, '#');
        } else if board.is_team_in_check(board.whose_turn(), None) {
            push_char(&mut res, '+');
        }
        res
    }
}

} // verus!
