//! Full legal-destination generation for one piece: its movement
//! rules filtered by the rule that a move may not leave the side to
//! move's own king attacked.
use vstd::prelude::*;

use crate::board::{Board, BoardView, spec_apply};
use crate::coord::{Coord, on_board};
use crate::legality::{piece_move_ok, in_check, is_piece_move_legal};
use crate::piece::{Move, spec_ep_square};
use crate::tile::{Tile, tile_x, tile_y, tile_idx, tile_of_idx, lemma_tile_of_idx};

verus! {

broadcast use vstd::seq_lib::group_seq_properties;

/// The move that is simulated when testing whether moving the piece on
/// `from` to (`x`, `y`) leaves the king attacked: a plain piece move,
/// with promotion and the en-passant flag ignored, since neither can
/// change whether the mover's king is attacked.
pub open spec fn sim_move(bv: BoardView, from: Tile, x: int, y: int) -> Move {
    Move::PieceMove {
        piece: bv.at_tile(from)->Some_0.1,
        tile_from: from,
        tile_to: tile_of_idx((7 - y) * 8 + x),
        is_en_passant: false,
    }
}

/// The piece standing on `from` may move to (`x`, `y`): the square is
/// on the board, the piece's movement rules allow the move, and after
/// simulating it the side to move is not in check.
pub open spec fn legal_dest(bv: BoardView, from: Tile, x: int, y: int, ep: Option<Tile>) -> bool {
    &&& bv.at_tile(from) is Some
    &&& on_board(x, y)
    &&& piece_move_ok(bv.at_tile(from)->Some_0, tile_x(from), tile_y(from), x, y, ep, bv)
    &&& !in_check(
        spec_apply(bv, sim_move(bv, from, x, y)).0,
        bv.turn,
        spec_ep_square(sim_move(bv, from, x, y)),
    )
}

impl Board {
    /// The coordinates of every square the piece on `tile` may legally
    /// move to (castling excluded; see the game-state layer for castle
    /// legality): exactly those destinations satisfying
    /// [`legal_dest`]. `None` when `tile` is empty. Callers must not
    /// rely on the order of the returned list.
    pub fn get_legal_moves_of_piece_in_tile(&self, tile: Tile, ep_square: Option<Tile>) -> (r:
        Option<Vec<Coord>>)
        requires
            self.wf(),
        ensures
            (match r {
                None => self@.at_tile(tile) is None,
                Some(v) => {
                    &&& self@.at_tile(tile) is Some
                    &&& forall|j: int|
                        0 <= j < v@.len() ==> legal_dest(
                            self@,
                            tile,
                            (#[trigger] v@[j]).x as int,
                            v@[j].y as int,
                            ep_square,
                        )
                    &&& forall|x: int, y: int|
                        #[trigger] legal_dest(self@, tile, x, y, ep_square) ==> v@.contains(
                            Coord { x: x as i32, y: y as i32 },
                        )
                },
            }),
    {
        let piece = match self.get_piece(tile) {
            Some(p) => p,
            None => {
                return None;
            },
        };
        let piece_type = piece.1;
        let mut result: Vec<Coord> = Vec::new();

        let mut x: i32 = 0;
        while x < 8
            invariant
                0 <= x <= 8,
                self@.at_tile(tile) == Some(piece),
                forall|j: int|
                    0 <= j < result@.len() ==> legal_dest(
                        self@,
                        tile,
                        (#[trigger] result@[j]).x as int,
                        result@[j].y as int,
                        ep_square,
                    ),
                forall|px: int, py: int|
                    0 <= px < x && #[trigger] legal_dest(self@, tile, px, py, ep_square)
                        ==> result@.contains(Coord { x: px as i32, y: py as i32 }),
            decreases 8 - x,
        {
            let mut y: i32 = 0;
            while y < 8
                invariant
                    0 <= x < 8,
                    0 <= y <= 8,
                    self@.at_tile(tile) == Some(piece),
                    forall|j: int|
                        0 <= j < result@.len() ==> legal_dest(
                            self@,
                            tile,
                            (#[trigger] result@[j]).x as int,
                            result@[j].y as int,
                            ep_square,
                        ),
                    forall|px: int, py: int|
                        0 <= px < x && #[trigger] legal_dest(self@, tile, px, py, ep_square)
                            ==> result@.contains(Coord { x: px as i32, y: py as i32 }),
                    forall|py: int|
                        0 <= py < y && #[trigger] legal_dest(self@, tile, x as int, py, ep_square)
                            ==> result@.contains(Coord { x: x as i32, y: py as i32 }),
                decreases 8 - y,
            {
                let c = Coord { x, y };
                let tile_to = match Tile::from_coord(c) {
                    Some(t) => t,
                    None => {
                        return None;  // unreachable: c is on the board
                    },
                };
                proof {
                    assert(tile_idx(tile_to) == (7 - tile_y(tile_to)) * 8 + tile_x(tile_to));
                    lemma_tile_of_idx(tile_to);
                }
                let mut dummy = false;
                if is_piece_move_legal(piece, tile, tile_to, ep_square, self, &mut dummy) {
                    let the_move = Move::PieceMove {
                        piece: piece_type,
                        tile_from: tile,
                        tile_to,
                        is_en_passant: false,
                    };
                    let mut future_board = self.clone_board();
                    future_board.apply_move(the_move);
                    let next_ep = the_move.get_en_passant_square();
                    if !future_board.is_team_in_check(self.whose_turn(), next_ep) {
                        proof {
                            assert(legal_dest(self@, tile, x as int, y as int, ep_square));
                        }
                        result.push(c);
                    } else {
                        proof {
                            assert(!legal_dest(self@, tile, x as int, y as int, ep_square));
                        }
                    }
                } else {
                    proof {
                        assert(!legal_dest(self@, tile, x as int, y as int, ep_square));
                    }
                }
                y += 1;
            }
            x += 1;
        }
        Some(result)
    }
}

} // verus!
