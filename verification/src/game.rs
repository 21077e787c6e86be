//! The game state: the starting position, the moves played since, and
//! the move-acceptance state machine built on them.
use vstd::prelude::*;

use crate::board::{Board, BoardView, spec_apply, apply_req, team_pieces_upto,
    lemma_team_pieces_sound, lemma_team_pieces_complete};
use crate::coord::Coord;
use crate::legality::{piece_move_ok, is_ep_capture, in_check, tile_attacked, is_piece_move_legal};
use crate::movegen::legal_dest;
use crate::piece::{ChessTeam, ChessPiece, Move, MoveError, GameEndState, spec_ep_square};
use crate::tile::{Tile, tile_x, tile_y, tile_idx};

verus! {

broadcast use vstd::seq_lib::group_seq_properties, crate::tile::lemma_tile_bounds;

/// The mathematical model of a [`GameState`]: the starting position,
/// the moves played since, and the auxiliary counters. The board
/// cache is pure memoization and has no place in the model.
pub struct GameStateView {
    /// The position the game started from.
    pub start: BoardView,
    /// The moves played since the start, in order.
    pub moves: Seq<Move>,
    /// Half-moves since the last capture or pawn advance.
    pub fifty: u32,
    /// The full-move number the game started at.
    pub start_count: u32,
    /// The current en-passant target square, if any.
    pub ep: Option<Tile>,
}

/// The board after the first `n` of the given moves have been applied
/// to `start`.
pub open spec fn replay_upto(start: BoardView, moves: Seq<Move>, n: int) -> BoardView
    decreases n,
{
    if n <= 0 {
        start
    } else {
        spec_apply(replay_upto(start, moves, n - 1), moves[n - 1]).0
    }
}

/// Move `k` of the sequence can be applied to the board it meets.
pub open spec fn step_ok(start: BoardView, moves: Seq<Move>, k: int) -> bool {
    apply_req(replay_upto(start, moves, k), moves[k])
}

impl GameStateView {
    /// The current position: the starting position with every recorded
    /// move applied.
    pub open spec fn current_board(self) -> BoardView {
        replay_upto(self.start, self.moves, self.moves.len() as int)
    }
}

/// `replay_upto` reads only the first `n` moves: appending a move does
/// not change the boards reached before it.
pub proof fn lemma_replay_upto_push(start: BoardView, moves: Seq<Move>, m: Move, n: int)
    requires
        0 <= n <= moves.len(),
    ensures
        replay_upto(start, moves.push(m), n) == replay_upto(start, moves, n),
    decreases n,
{
    if n > 0 {
        lemma_replay_upto_push(start, moves, m, n - 1);
    }
}

/// A well-formed game may apply any recorded move to the board that
/// move meets during replay.
pub proof fn lemma_wf_step_ok(g: &GameState, k: int)
    requires
        g.wf(),
        0 <= k < g@.moves.len(),
    ensures
        step_ok(g@.start, g@.moves, k),
{
}

/// Applying moves never changes how many squares the board models.
pub proof fn lemma_replay_wf(start: BoardView, moves: Seq<Move>, n: int)
    requires
        start.wf(),
    ensures
        replay_upto(start, moves, n).wf(),
    decreases n,
{
    if n > 0 {
        lemma_replay_wf(start, moves, n - 1);
        let b = replay_upto(start, moves, n - 1);
        let m = moves[n - 1];
        match m {
            Move::PieceMove { .. } => {
                assert(spec_apply(b, m).0.squares.len() == b.squares.len());
            },
            Move::PieceMoveWithPromotion { .. } => {
                assert(spec_apply(b, m).0.squares.len() == b.squares.len());
            },
            Move::CastleShort => {
                assert(spec_apply(b, m).0.squares.len() == b.squares.len());
            },
            Move::CastleLong => {
                assert(spec_apply(b, m).0.squares.len() == b.squares.len());
            },
        }
    }
}

/// Replay is a function of the starting position and the move list
/// alone: two games that share both pass through the same boards.
pub proof fn lemma_replay_deterministic(g1: GameStateView, g2: GameStateView)
    requires
        g1.start == g2.start,
        g1.moves == g2.moves,
    ensures
        g1.current_board() == g2.current_board(),
{
}

/// Owns the move history and the starting position; derives the
/// current board by replay (memoized), validates and performs moves,
/// and tracks the fifty-move clock, the full-move count and the
/// en-passant target square.
pub struct GameState {
    moves: Vec<Move>,
    cached_current_board: Option<Board>,
    fifty_move_counter: u32,
    starting_board: Board,
    starting_move_count: u32,
    en_passant_square: Option<Tile>,
}

impl View for GameState {
    type V = GameStateView;

    closed spec fn view(&self) -> GameStateView {
        GameStateView {
            start: self.starting_board@,
            moves: self.moves@,
            fifty: self.fifty_move_counter,
            start_count: self.starting_move_count,
            ep: self.en_passant_square,
        }
    }
}

impl GameState {
    /// The starting board is well formed, every recorded move applies
    /// to the board it meets, and the cache, when present, holds
    /// exactly the replayed current board.
    pub closed spec fn wf(self) -> bool {
        &&& self.starting_board.wf()
        &&& forall|k: int| 0 <= k < self.moves@.len() ==> #[trigger] step_ok(
            self.starting_board@,
            self.moves@,
            k,
        )
        &&& match self.cached_current_board {
            Some(b) => b@ == self@.current_board() && b.wf(),
            None => true,
        }
    }

    /// A fresh game from the standard starting position.
    pub fn init() -> (g: GameState)
        ensures
            g@ == (GameStateView {
                start: crate::board::start_board_view(),
                moves: Seq::empty(),
                fifty: 0,
                start_count: 1,
                ep: None,
            }),
            g.wf(),
    {
        GameState {
            moves: Vec::new(),
            starting_board: Board::start_position(),
            cached_current_board: None,
            fifty_move_counter: 0,
            starting_move_count: 1,
            en_passant_square: None,
        }
    }

    /// A game assembled from a parsed position and counters, with an
    /// empty move history.
    pub(crate) fn from_parts(
        board: Board,
        fifty: u32,
        start_count: u32,
        ep: Option<Tile>,
    ) -> (g: GameState)
        requires
            board.wf(),
        ensures
            g@ == (GameStateView {
                start: board@,
                moves: Seq::empty(),
                fifty,
                start_count,
                ep,
            }),
            g.wf(),
    {
        GameState {
            moves: Vec::new(),
            starting_board: board,
            cached_current_board: None,
            fifty_move_counter: fifty,
            starting_move_count: start_count,
            en_passant_square: ep,
        }
    }

    /// A game that starts from the given position with fresh counters.
    fn init_from_custom_position(board: Board) -> (g: GameState)
        requires
            board.wf(),
        ensures
            g@ == (GameStateView {
                start: board@,
                moves: Seq::empty(),
                fifty: 0,
                start_count: 1,
                ep: None,
            }),
            g.wf(),
    {
        GameState::from_parts(board, 0, 1, None)
    }

    /// Half-moves since the last capture or pawn advance.
    pub fn fifty_move_counter(&self) -> (r: u32)
        ensures
            r == self@.fifty,
    {
        self.fifty_move_counter
    }

    /// The full-move number the game started at.
    pub fn starting_move_count(&self) -> (r: u32)
        ensures
            r == self@.start_count,
    {
        self.starting_move_count
    }

    /// The en-passant target square a pawn may capture onto this turn.
    pub fn en_passant_square(&self) -> (r: Option<Tile>)
        ensures
            r == self@.ep,
    {
        self.en_passant_square
    }

    /// The number of recorded moves (not the game's full-move number).
    pub fn move_count(&self) -> (r: usize)
        ensures
            r == self@.moves.len(),
    {
        self.moves.len()
    }

    /// The recorded move at a position of the history.
    pub fn get_move(&self, move_i: usize) -> (r: Move)
        requires
            move_i < self@.moves.len(),
        ensures
            r == self@.moves[move_i as int],
    {
        self.moves[move_i]
    }

    /// The most recently played move, if any move has been played.
    pub fn get_last_move(&self) -> (r: Option<Move>)
        ensures
            match r {
                Some(m) => self@.moves.len() > 0 && m == self@.moves.last(),
                None => self@.moves.len() == 0,
            },
    {
        if self.moves.len() > 0 {
            Some(self.moves[self.moves.len() - 1])
        } else {
            None
        }
    }

    /// The board after the first `move_i` recorded moves (all of them
    /// when `move_i` exceeds the history).
    pub fn get_board_at(&self, move_i: usize) -> (b: Board)
        requires
            self.wf(),
        ensures
            b@ == replay_upto(
                self@.start,
                self@.moves,
                if move_i <= self@.moves.len() {
                    move_i as int
                } else {
                    self@.moves.len() as int
                },
            ),
            b.wf(),
    {
        let n = if move_i <= self.moves.len() {
            move_i
        } else {
            self.moves.len()
        };
        let mut board = self.starting_board.clone_board();
        let mut i: usize = 0;
        while i < n
            invariant
                i <= n <= self@.moves.len(),
                board@ == replay_upto(self@.start, self@.moves, i as int),
                board.wf(),
            decreases n - i,
        {
            proof {
                assert(step_ok(self@.start, self@.moves, i as int));
            }
            board.apply_move(self.moves[i]);
            i += 1;
        }
        board
    }

    /// The current board position, memoized: the starting position
    /// with every recorded move applied.
    pub fn get_board(&mut self) -> (b: Board)
        requires
            old(self).wf(),
        ensures
            final(self)@ == old(self)@,
            final(self).wf(),
            b@ == final(self)@.current_board(),
            b.wf(),
    {
        if self.cached_current_board.is_none() {
            let board = self.get_board_at(self.moves.len());
            self.cached_current_board = Some(board);
        }
        match &self.cached_current_board {
            Some(b) => b.clone_board(),
            None => self.starting_board.clone_board(),  // unreachable: the cache was just filled
        }
    }

    /// Whose turn it is in the current position.
    pub fn whose_turn(&mut self) -> (r: ChessTeam)
        requires
            old(self).wf(),
        ensures
            final(self)@ == old(self)@,
            final(self).wf(),
            r == final(self)@.current_board().turn,
    {
        let b = self.get_board();
        b.whose_turn()
    }

    /// The full-move number of the current position: the starting
    /// number plus one for each completed Black move.
    pub fn get_full_move_count(&self) -> (r: u32)
        requires
            self.wf(),
        ensures
            r == spec_full_move_count(self@),
    {
        let move_count_small: u32 = if self.moves.len() < 0xffff_ffffusize {
            self.moves.len() as u32
        } else {
            0xffff_ffffu32
        };
        let added_moves: u32 = match self.starting_board.whose_turn() {
            ChessTeam::Black => move_count_small / 2 + move_count_small % 2,
            ChessTeam::White => move_count_small / 2,
        };
        if self.starting_move_count <= 0xffff_ffffu32 - added_moves {
            self.starting_move_count + added_moves
        } else {
            0xffff_ffffu32
        }
    }
}

/// The side to move may castle on the given wing.
pub open spec fn castle_rights_ok(bv: BoardView, short: bool) -> bool {
    match bv.turn {
        ChessTeam::Black => if short {
            bv.rights.2
        } else {
            bv.rights.3
        },
        ChessTeam::White => if short {
            bv.rights.0
        } else {
            bv.rights.1
        },
    }
}

/// Every square strictly between the side to move's king and the
/// castling rook is empty.
pub open spec fn castle_between_free(bv: BoardView, short: bool) -> bool {
    match bv.turn {
        ChessTeam::Black => if short {
            bv.at_tile(Tile::F8) is None && bv.at_tile(Tile::G8) is None
        } else {
            bv.at_tile(Tile::B8) is None && bv.at_tile(Tile::C8) is None && bv.at_tile(
                Tile::D8,
            ) is None
        },
        ChessTeam::White => if short {
            bv.at_tile(Tile::F1) is None && bv.at_tile(Tile::G1) is None
        } else {
            bv.at_tile(Tile::B1) is None && bv.at_tile(Tile::C1) is None && bv.at_tile(
                Tile::D1,
            ) is None
        },
    }
}

/// The opponent attacks no square of the side to move's king path:
/// neither where the king stands, nor where it passes, nor where it
/// lands.
pub open spec fn castle_path_safe(bv: BoardView, short: bool, ep: Option<Tile>) -> bool {
    match bv.turn {
        ChessTeam::Black => if short {
            tile_safe(bv, Tile::E8, ep) && tile_safe(bv, Tile::F8, ep) && tile_safe(
                bv,
                Tile::G8,
                ep,
            )
        } else {
            tile_safe(bv, Tile::C8, ep) && tile_safe(bv, Tile::D8, ep) && tile_safe(
                bv,
                Tile::E8,
                ep,
            )
        },
        ChessTeam::White => if short {
            tile_safe(bv, Tile::E1, ep) && tile_safe(bv, Tile::F1, ep) && tile_safe(
                bv,
                Tile::G1,
                ep,
            )
        } else {
            tile_safe(bv, Tile::C1, ep) && tile_safe(bv, Tile::D1, ep) && tile_safe(
                bv,
                Tile::E1,
                ep,
            )
        },
    }
}

/// No piece of the opponent attacks the given square.
pub open spec fn tile_safe(bv: BoardView, t: Tile, ep: Option<Tile>) -> bool {
    !tile_attacked(bv, bv.turn.spec_other(), tile_x(t), tile_y(t), ep)
}

/// The castle-specific checks, in the order they are made: rights,
/// then free squares, then the king's path; `None` when all pass.
pub open spec fn castle_pre(bv: BoardView, short: bool, ep: Option<Tile>) -> Option<MoveError> {
    if !castle_rights_ok(bv, short) {
        Some(MoveError::CastlingNoRights)
    } else if !castle_between_free(bv, short) {
        Some(MoveError::CastlingTilesInBetweenNotFree)
    } else if !castle_path_safe(bv, short, ep) {
        Some(MoveError::CastlingThroughCheck)
    } else {
        None
    }
}

/// The final gate of every move: simulate it, and reject it when it
/// leaves the mover's own king attacked.
pub open spec fn self_check_result(bv: BoardView, corrected: Move) -> Result<Move, MoveError> {
    if in_check(spec_apply(bv, corrected).0, bv.turn, spec_ep_square(corrected)) {
        Err(MoveError::InCheck)
    } else {
        Ok(corrected)
    }
}

/// What a proposed move comes to on a given board and en-passant
/// context: the corrected move that will be recorded (with the
/// en-passant flag derived by the validator), or the first error of
/// the validation order.
pub open spec fn move_outcome(bv: BoardView, ep: Option<Tile>, m: Move) -> Result<Move, MoveError> {
    match m {
        Move::PieceMove { piece: piece_type, tile_from, tile_to, .. } => {
            let fx = tile_x(tile_from);
            let fy = tile_y(tile_from);
            let tx = tile_x(tile_to);
            let ty = tile_y(tile_to);
            match bv.at_tile(tile_from) {
                None => Err(MoveError::TileFromIsEmpty),
                Some(p) => if p.0 != bv.turn {
                    Err(MoveError::TileFromIsEnemyPiece)
                } else if !piece_move_ok(p, fx, fy, tx, ty, ep, bv) {
                    Err(MoveError::PieceDoesNotMoveLikeThat)
                } else if piece_type == ChessPiece::Pawn && ty == bv.turn.back_rank() {
                    Err(MoveError::PromotionPieceNotSpecified)
                } else {
                    self_check_result(
                        bv,
                        Move::PieceMove {
                            piece: piece_type,
                            tile_from,
                            tile_to,
                            is_en_passant: is_ep_capture(p, fx, fy, tx, ty, ep, bv),
                        },
                    )
                },
            }
        },
        Move::PieceMoveWithPromotion { tile_from, tile_to, promotion } => {
            let fx = tile_x(tile_from);
            let fy = tile_y(tile_from);
            let tx = tile_x(tile_to);
            let ty = tile_y(tile_to);
            match bv.at_tile(tile_from) {
                None => Err(MoveError::TileFromIsEmpty),
                Some(p) => if p.0 != bv.turn {
                    Err(MoveError::TileFromIsEnemyPiece)
                } else if !piece_move_ok(p, fx, fy, tx, ty, ep, bv) {
                    Err(MoveError::PieceDoesNotMoveLikeThat)
                } else if ty != bv.turn.back_rank() {
                    Err(MoveError::PromotionNotLegal)
                } else if promotion == ChessPiece::Pawn || promotion == ChessPiece::King {
                    Err(MoveError::PromotionWrongPiece)
                } else {
                    self_check_result(bv, m)
                },
            }
        },
        Move::CastleShort => match castle_pre(bv, true, ep) {
            Some(e) => Err(e),
            None => self_check_result(bv, m),
        },
        Move::CastleLong => match castle_pre(bv, false, ep) {
            Some(e) => Err(e),
            None => self_check_result(bv, m),
        },
    }
}

/// The fifty-move clock resets when a pawn moves (promotions
/// included) or a piece is captured.
pub open spec fn resets_fifty(bv: BoardView, cm: Move) -> bool {
    ||| (cm matches Move::PieceMove { piece: ChessPiece::Pawn, .. })
    ||| (cm matches Move::PieceMoveWithPromotion { .. })
    ||| spec_apply(bv, cm).1
}

/// The fifty-move clock after a successful move: reset on a capture
/// or pawn move, otherwise one more (saturating at the counter's
/// range).
pub open spec fn next_fifty(bv: BoardView, cm: Move, fifty: u32) -> u32 {
    if resets_fifty(bv, cm) {
        0u32
    } else if fifty == 0xffff_ffffu32 {
        0xffff_ffffu32
    } else {
        (fifty + 1) as u32
    }
}

/// The castle-specific checks of [`castle_pre`], made on the board.
fn check_castle(board: &Board, short: bool, ep_square: Option<Tile>) -> (r: Option<MoveError>)
    requires
        board.wf(),
    ensures
        r == castle_pre(board@, short, ep_square),
{
    let whose_turn = board.whose_turn();
    let rights = board.castling_rights();
    let rights_ok = match whose_turn {
        ChessTeam::Black => if short {
            rights.2
        } else {
            rights.3
        },
        ChessTeam::White => if short {
            rights.0
        } else {
            rights.1
        },
    };
    if !rights_ok {
        return Some(MoveError::CastlingNoRights);
    }
    let free = match whose_turn {
        ChessTeam::Black => if short {
            board.get_piece(Tile::F8).is_none() && board.get_piece(Tile::G8).is_none()
        } else {
            board.get_piece(Tile::B8).is_none() && board.get_piece(Tile::C8).is_none()
                && board.get_piece(Tile::D8).is_none()
        },
        ChessTeam::White => if short {
            board.get_piece(Tile::F1).is_none() && board.get_piece(Tile::G1).is_none()
        } else {
            board.get_piece(Tile::B1).is_none() && board.get_piece(Tile::C1).is_none()
                && board.get_piece(Tile::D1).is_none()
        },
    };
    if !free {
        return Some(MoveError::CastlingTilesInBetweenNotFree);
    }
    let other = whose_turn.the_other_one();
    let safe = match whose_turn {
        ChessTeam::Black => if short {
            !board.is_tile_attacked_by(other, Tile::E8, ep_square) && !board.is_tile_attacked_by(
                other,
                Tile::F8,
                ep_square,
            ) && !board.is_tile_attacked_by(other, Tile::G8, ep_square)
        } else {
            !board.is_tile_attacked_by(other, Tile::C8, ep_square) && !board.is_tile_attacked_by(
                other,
                Tile::D8,
                ep_square,
            ) && !board.is_tile_attacked_by(other, Tile::E8, ep_square)
        },
        ChessTeam::White => if short {
            !board.is_tile_attacked_by(other, Tile::E1, ep_square) && !board.is_tile_attacked_by(
                other,
                Tile::F1,
                ep_square,
            ) && !board.is_tile_attacked_by(other, Tile::G1, ep_square)
        } else {
            !board.is_tile_attacked_by(other, Tile::C1, ep_square) && !board.is_tile_attacked_by(
                other,
                Tile::D1,
                ep_square,
            ) && !board.is_tile_attacked_by(other, Tile::E1, ep_square)
        },
    };
    if !safe {
        return Some(MoveError::CastlingThroughCheck);
    }
    None
}

impl GameState {
    /// Validates a proposed move and, when it is legal, records the
    /// corrected move and updates the en-passant target and the
    /// fifty-move clock; a rejected move leaves the game unchanged.
    /// The exact outcome, success and each error alike, is
    /// [`move_outcome`] on the current board.
    pub fn perform_move(&mut self, chess_move: Move) -> (r: Result<(), MoveError>)
        requires
            old(self).wf(),
        ensures
            final(self).wf(),
            ({
                let bv = old(self)@.current_board();
                let oc = move_outcome(bv, old(self)@.ep, chess_move);
                match r {
                    Ok(()) => {
                        &&& oc is Ok
                        &&& ({
                            let cm = oc->Ok_0;
                            &&& final(self)@.moves == old(self)@.moves.push(cm)
                            &&& final(self)@.start == old(self)@.start
                            &&& final(self)@.start_count == old(self)@.start_count
                            &&& final(self)@.ep == spec_ep_square(cm)
                            &&& final(self)@.fifty == next_fifty(bv, cm, old(self)@.fifty)
                            &&& final(self)@.current_board() == spec_apply(bv, cm).0
                            &&& final(self)@.current_board().turn == bv.turn.spec_other()
                        })
                    },
                    Err(e) => {
                        &&& oc == Err::<Move, MoveError>(e)
                        &&& final(self)@ == old(self)@
                    },
                }
            }),
    {
        let whose_turn = self.whose_turn();
        let ep_square = self.en_passant_square;
        let board = self.get_board();
        let ghost bv = board@;
        let mut was_capture_or_pawn_move = false;

        let corrected: Move = match chess_move {
            Move::PieceMove { piece: piece_type, tile_from, tile_to, .. } => {
                let piece = match board.get_piece(tile_from) {
                    Some(p) => p,
                    None => {
                        return Err(MoveError::TileFromIsEmpty);
                    },
                };
                if piece.0 != whose_turn {
                    return Err(MoveError::TileFromIsEnemyPiece);
                }
                let mut is_en_passant = false;
                if !is_piece_move_legal(
                    piece,
                    tile_from,
                    tile_to,
                    ep_square,
                    &board,
                    &mut is_en_passant,
                ) {
                    return Err(MoveError::PieceDoesNotMoveLikeThat);
                }
                let tile_to_coord = tile_to.to_coord();
                let back_rank: i32 = match whose_turn {
                    ChessTeam::Black => 0,
                    ChessTeam::White => 7,
                };
                if piece_type == ChessPiece::Pawn && tile_to_coord.y == back_rank {
                    return Err(MoveError::PromotionPieceNotSpecified);
                }
                if piece_type == ChessPiece::Pawn {
                    was_capture_or_pawn_move = true;
                }
                Move::PieceMove { piece: piece_type, tile_from, tile_to, is_en_passant }
            },
            Move::PieceMoveWithPromotion { tile_from, tile_to, promotion } => {
                let piece = match board.get_piece(tile_from) {
                    Some(p) => p,
                    None => {
                        return Err(MoveError::TileFromIsEmpty);
                    },
                };
                if piece.0 != whose_turn {
                    return Err(MoveError::TileFromIsEnemyPiece);
                }
                let mut dummy = false;
                if !is_piece_move_legal(piece, tile_from, tile_to, ep_square, &board, &mut dummy) {
                    return Err(MoveError::PieceDoesNotMoveLikeThat);
                }
                let tile_to_coord = tile_to.to_coord();
                let back_rank: i32 = match whose_turn {
                    ChessTeam::Black => 0,
                    ChessTeam::White => 7,
                };
                if tile_to_coord.y != back_rank {
                    return Err(MoveError::PromotionNotLegal);
                }
                if promotion == ChessPiece::Pawn || promotion == ChessPiece::King {
                    return Err(MoveError::PromotionWrongPiece);
                }
                was_capture_or_pawn_move = true;
                chess_move
            },
            Move::CastleShort => {
                if let Some(e) = check_castle(&board, true, ep_square) {
                    return Err(e);
                }
                chess_move
            },
            Move::CastleLong => {
                if let Some(e) = check_castle(&board, false, ep_square) {
                    return Err(e);
                }
                chess_move
            },
        };

        proof {
            assert(apply_req(bv, corrected));
        }

        let next_ep_square = corrected.get_en_passant_square();
        let mut future_board = board.clone_board();
        if future_board.apply_move(corrected) {
            was_capture_or_pawn_move = true;
        }
        if future_board.is_team_in_check(whose_turn, next_ep_square) {
            return Err(MoveError::InCheck);
        }

        proof {
            assert(move_outcome(bv, old(self)@.ep, chess_move) == Ok::<Move, MoveError>(corrected));
        }
        let ghost old_view = self@;

        self.moves.push(corrected);
        self.cached_current_board = None;
        self.en_passant_square = next_ep_square;
        if was_capture_or_pawn_move {
            self.fifty_move_counter = 0;
        } else if self.fifty_move_counter < 0xffff_ffffu32 {
            self.fifty_move_counter = self.fifty_move_counter + 1;
        }

        proof {
            assert(self@.moves == old_view.moves.push(corrected));
            assert forall|k: int| 0 <= k < self@.moves.len() implies #[trigger] step_ok(
                self@.start,
                self@.moves,
                k,
            ) by {
                lemma_replay_upto_push(old_view.start, old_view.moves, corrected, k);
                if k < old_view.moves.len() {
                    assert(step_ok(old_view.start, old_view.moves, k));
                }
            }
            lemma_replay_upto_push(
                old_view.start,
                old_view.moves,
                corrected,
                old_view.moves.len() as int,
            );
        }
        Ok(())
    }
}

/// A piece of the side to move stands on `ft` and may legally move to
/// (`x`, `y`).
pub open spec fn can_move_from(bv: BoardView, ft: Tile, x: int, y: int, ep: Option<Tile>) -> bool {
    match bv.at_tile(ft) {
        Some(p) => p.0 == bv.turn && legal_dest(bv, ft, x, y, ep),
        None => false,
    }
}

/// The side to move has at least one legal piece move (castling not
/// counted, as the end-state rules scan piece moves only).
pub open spec fn team_has_legal_move(bv: BoardView, ep: Option<Tile>) -> bool {
    exists|ft: Tile, x: int, y: int| can_move_from(bv, ft, x, y, ep)
}

/// No destination is legal for the piece on `ft`.
pub open spec fn piece_has_no_move(bv: BoardView, ft: Tile, ep: Option<Tile>) -> bool {
    forall|x: int, y: int| !legal_dest(bv, ft, x, y, ep)
}

/// How a position stands for the side to move: an immediate draw once
/// the fifty-move clock reaches 50; otherwise running while any legal
/// piece move exists; otherwise checkmate if the side is in check and
/// a stalemate draw if not.
#[verifier::opaque]
pub open spec fn end_state_of(bv: BoardView, ep: Option<Tile>, fifty: u32) -> GameEndState {
    if fifty == 50 {
        GameEndState::Draw
    } else if team_has_legal_move(bv, ep) {
        GameEndState::Running
    } else if in_check(bv, bv.turn, ep) {
        GameEndState::Checkmate
    } else {
        GameEndState::Draw
    }
}

impl GameState {
    /// Whether the game is over in the current position, and how:
    /// exactly [`end_state_of`] on the current board.
    pub fn get_end_state(&mut self) -> (r: GameEndState)
        requires
            old(self).wf(),
        ensures
            final(self)@ == old(self)@,
            final(self).wf(),
            r == end_state_of(old(self)@.current_board(), old(self)@.ep, old(self)@.fifty),
    {
        proof {
            reveal(end_state_of);
        }
        if self.fifty_move_counter == 50 {
            return GameEndState::Draw;
        }
        let whose_turn = self.whose_turn();
        let ep_square = self.en_passant_square;
        let board = self.get_board();
        let ghost bv = board@;

        let team_pieces = board.find_pieces_of_team(whose_turn);
        let mut has_legal_moves = false;
        let mut pi: usize = 0;
        while pi < team_pieces.len() && !has_legal_moves
            invariant
                team_pieces@ == team_pieces_upto(bv, bv.turn, 64),
                pi <= team_pieces@.len(),
                board.wf(),
                board@ == bv,
                has_legal_moves ==> team_has_legal_move(bv, ep_square),
                !has_legal_moves ==> forall|k: int|
                    0 <= k < pi ==> piece_has_no_move(bv, (#[trigger] team_pieces@[k]).1, ep_square),
            decreases team_pieces@.len() - pi,
        {
            let tile_i = team_pieces[pi].1;
            proof {
                lemma_team_pieces_sound(bv, bv.turn, 64, pi as int);
            }
            match board.get_legal_moves_of_piece_in_tile(tile_i, ep_square) {
                Some(v) => {
                    if v.len() > 0 {
                        proof {
                            assert(legal_dest(bv, tile_i, v@[0].x as int, v@[0].y as int, ep_square));
                            assert(can_move_from(bv, tile_i, v@[0].x as int, v@[0].y as int, ep_square));
                        }
                        has_legal_moves = true;
                    } else {
                        proof {
                            assert forall|x: int, y: int| !legal_dest(
                                bv,
                                tile_i,
                                x,
                                y,
                                ep_square,
                            ) by {
                                if legal_dest(bv, tile_i, x, y, ep_square) {
                                    assert(v@.contains(Coord { x: x as i32, y: y as i32 }));
                                }
                            }
                        }
                    }
                },
                None => {
                    proof {
                        assert(false);
                    }
                },
            }
            pi += 1;
        }

        if has_legal_moves {
            return GameEndState::Running;
        }
        proof {
            assert forall|ft: Tile, x: int, y: int| !can_move_from(bv, ft, x, y, ep_square) by {
                if can_move_from(bv, ft, x, y, ep_square) {
                    let p = bv.at_tile(ft)->Some_0;
                    lemma_team_pieces_complete(bv, bv.turn, 64, tile_idx(ft));
                    crate::tile::lemma_tile_of_idx(ft);
                    let s = team_pieces_upto(bv, bv.turn, 64);
                    let k = choose|k: int| 0 <= k < s.len() && s[k] == (p, ft);
                    assert(piece_has_no_move(bv, s[k].1, ep_square));
                    assert(!legal_dest(bv, ft, x, y, ep_square));
                }
            }
        }
        if board.is_team_in_check(whose_turn, ep_square) {
            GameEndState::Checkmate
        } else {
            GameEndState::Draw
        }
    }
}

/// The full-move number of the current position: the starting number
/// plus the number of completed Black moves, saturating at the `u32`
/// range like the counter arithmetic itself.
pub open spec fn spec_full_move_count(g: GameStateView) -> u32 {
    let len = if g.moves.len() <= 0xffff_ffff {
        g.moves.len() as int
    } else {
        0xffff_ffff
    };
    let added = match g.start.turn {
        ChessTeam::Black => (len + 1) / 2,
        ChessTeam::White => len / 2,
    };
    if g.start_count + added <= 0xffff_ffff {
        (g.start_count + added) as u32
    } else {
        0xffff_ffffu32
    }
}

} // verus!
