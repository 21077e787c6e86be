//! Pure move-geometry legality: whether a piece may make a given move
//! on a given board, ignoring whether it leaves the mover's own king
//! in check. Also the attack and check predicates built on it.
use vstd::prelude::*;

use crate::board::{Board, BoardView};
use crate::coord::{abs, line_mag, on_board};
use crate::piece::{ChessPiece, ChessTeam, TeamedChessPiece};
use crate::tile::{Tile, tile_from_index, tile_x, tile_y};

verus! {

/// The supplied en-passant target square is exactly (`x`, `y`).
pub open spec fn ep_at(ep: Option<Tile>, x: int, y: int) -> bool {
    match ep {
        Some(e) => tile_x(e) == x && tile_y(e) == y,
        None => false,
    }
}

/// The move is a pawn capture onto the en-passant target square: a
/// one-square diagonal pawn step onto an empty square that the
/// en-passant context names.
pub open spec fn is_ep_capture(
    piece: TeamedChessPiece,
    fx: int,
    fy: int,
    tx: int,
    ty: int,
    ep: Option<Tile>,
    bv: BoardView,
) -> bool {
    &&& piece.1 == ChessPiece::Pawn
    &&& abs(tx - fx) == 1
    &&& ty - fy == piece.0.pawn_dir()
    &&& bv.at(tx, ty) is None
    &&& ep_at(ep, tx, ty)
}

/// Whether `piece`, standing at (`fx`, `fy`), may move to (`tx`, `ty`)
/// by its own movement rules on board `bv`: pawn pushes and captures
/// (en passant included), the king's single step, rook and bishop
/// lines with a clear path, their union for the queen, and the
/// knight's jump onto any non-friendly square. Whether the move leaves
/// the mover's king in check is deliberately not considered here.
pub open spec fn piece_move_ok(
    piece: TeamedChessPiece,
    fx: int,
    fy: int,
    tx: int,
    ty: int,
    ep: Option<Tile>,
    bv: BoardView,
) -> bool {
    let dx = tx - fx;
    let dy = ty - fy;
    match piece.1 {
        ChessPiece::Pawn => {
            let dir = piece.0.pawn_dir();
            ||| (dx == 0 && dy == dir && bv.at(tx, ty) is None)
            ||| (fy == piece.0.pawn_start_rank() && dx == 0 && dy == 2 * dir && bv.at(
                fx,
                fy + dir,
            ) is None && bv.at(tx, ty) is None)
            ||| (abs(dx) == 1 && dy == dir && match bv.at(tx, ty) {
                Some(target) => target.0 != piece.0,
                None => ep_at(ep, tx, ty),
            })
        },
        ChessPiece::King => line_mag(dx, dy) == Some(1int) && bv.path_clear(
            piece.0,
            fx,
            fy,
            tx,
            ty,
        ),
        ChessPiece::Rook => (dy == 0 || dx == 0) && bv.path_clear(piece.0, fx, fy, tx, ty)
            && line_mag(dx, dy) is Some,
        ChessPiece::Bishop => line_mag(dx, dy) is Some && abs(dx) == abs(dy) && bv.path_clear(
            piece.0,
            fx,
            fy,
            tx,
            ty,
        ),
        ChessPiece::Queen => line_mag(dx, dy) is Some && bv.path_clear(piece.0, fx, fy, tx, ty),
        ChessPiece::Knight => ((abs(dx) == 2 && abs(dy) == 1) || (abs(dx) == 1 && abs(dy) == 2))
            && !bv.friendly_at(piece.0, tx, ty),
    }
}

/// Validates a piece move's geometry and path rules, and derives the
/// en-passant flag; does not consider whether the move leaves the
/// mover's own king in check.
pub fn is_piece_move_legal(
    piece: TeamedChessPiece,
    tile_from: Tile,
    tile_to: Tile,
    ep_square: Option<Tile>,
    board: &Board,
    is_en_passant: &mut bool,
) -> (r: bool)
    requires
        board.wf(),
    ensures
        r == piece_move_ok(
            piece,
            tile_x(tile_from),
            tile_y(tile_from),
            tile_x(tile_to),
            tile_y(tile_to),
            ep_square,
            board@,
        ),
        *final(is_en_passant) == is_ep_capture(
            piece,
            tile_x(tile_from),
            tile_y(tile_from),
            tile_x(tile_to),
            tile_y(tile_to),
            ep_square,
            board@,
        ),
{
    *is_en_passant = false;

    let tile_from_coord = tile_from.to_coord();
    let tile_to_coord = tile_to.to_coord();
    let coord_distance = tile_from_coord.distance(tile_to_coord);
    proof {
        assert(board@.at(tile_x(tile_to), tile_y(tile_to)) == board@.at_tile(tile_to));
    }

    match piece {
        TeamedChessPiece(team, ChessPiece::Pawn) => {
            let team_factor: i32 = match team {
                ChessTeam::White => 1,
                ChessTeam::Black => -1,
            };

            if coord_distance.y == team_factor && coord_distance.x == 0 {
                if board.get_piece(tile_to).is_none() {
                    return true;
                }
            }
            let starting_position_y: i32 = match team {
                ChessTeam::White => 1,
                ChessTeam::Black => 6,
            };

            if starting_position_y == tile_from_coord.y && coord_distance.y == 2 * team_factor
                && coord_distance.x == 0 {
                let mid_y: i32 = tile_from_coord.y + team_factor;
                let mid_i: usize = ((7 - mid_y) * 8 + tile_from_coord.x) as usize;
                let mid_piece = board.square_at(mid_i);
                if mid_piece.is_none() && board.get_piece(tile_to).is_none() {
                    return true;
                }
            }
            if (coord_distance.x == 1 || coord_distance.x == -1) && coord_distance.y
                == team_factor {
                let target_piece_option = board.get_piece(tile_to);
                if let Some(target_piece) = target_piece_option {
                    if team != target_piece.0 {
                        return true;
                    }
                } else if let Some(e) = ep_square {
                    let ec = e.to_coord();
                    if ec.x == tile_to_coord.x && ec.y == tile_to_coord.y {
                        *is_en_passant = true;
                        return true;
                    }
                }
            }
            false
        },
        TeamedChessPiece(_, ChessPiece::King) => {
            let magn = coord_distance.magnitude();
            if magn.is_none() {
                false
            } else if magn.unwrap() != 1 {
                false
            } else {
                board.is_path_clear(piece, tile_from, tile_to)
            }
        },
        TeamedChessPiece(_, ChessPiece::Rook) => {
            if coord_distance.y == 0 || coord_distance.x == 0 {
                board.is_path_clear(piece, tile_from, tile_to)
            } else {
                false
            }
        },
        TeamedChessPiece(_, ChessPiece::Bishop) => {
            let ax: i32 = if coord_distance.x >= 0 {
                coord_distance.x
            } else {
                -coord_distance.x
            };
            let ay: i32 = if coord_distance.y >= 0 {
                coord_distance.y
            } else {
                -coord_distance.y
            };
            if ax == ay {
                board.is_path_clear(piece, tile_from, tile_to)
            } else {
                false
            }
        },
        TeamedChessPiece(_, ChessPiece::Queen) => {
            let magn = coord_distance.magnitude();
            if magn.is_some() {
                board.is_path_clear(piece, tile_from, tile_to)
            } else {
                false
            }
        },
        TeamedChessPiece(_, ChessPiece::Knight) => {
            let ax: i32 = if coord_distance.x >= 0 {
                coord_distance.x
            } else {
                -coord_distance.x
            };
            let ay: i32 = if coord_distance.y >= 0 {
                coord_distance.y
            } else {
                -coord_distance.y
            };
            if (ax == 2 && ay == 1) || (ax == 1 && ay == 2) {
                !board.is_friendly_piece_at_destination(piece, tile_to)
            } else {
                false
            }
        },
    }
}

/// A piece of `team` stands at (`x`, `y`) and may capture onto
/// (`tx`, `ty`) by its movement rules.
pub open spec fn attacks_from(
    bv: BoardView,
    team: ChessTeam,
    x: int,
    y: int,
    tx: int,
    ty: int,
    ep: Option<Tile>,
) -> bool {
    &&& on_board(x, y)
    &&& match bv.at(x, y) {
        Some(p) => p.0 == team && piece_move_ok(p, x, y, tx, ty, ep, bv),
        None => false,
    }
}

/// Some piece of `team` has a pseudo-legal move onto (`tx`, `ty`).
pub open spec fn tile_attacked(
    bv: BoardView,
    team: ChessTeam,
    tx: int,
    ty: int,
    ep: Option<Tile>,
) -> bool {
    exists|x: int, y: int| attacks_from(bv, team, x, y, tx, ty, ep)
}

/// The coordinates of the first piece of the given side and kind in
/// file-major scan order (the a-file bottom to top, then the b-file,
/// and so on), starting the scan at position `n` of that order.
pub open spec fn first_piece_at(
    bv: BoardView,
    team: ChessTeam,
    kind: ChessPiece,
    n: int,
) -> Option<(int, int)>
    decreases 64 - n,
{
    if n < 0 || n >= 64 {
        None
    } else if bv.at(n / 8, n % 8) == Some(TeamedChessPiece(team, kind)) {
        Some((n / 8, n % 8))
    } else {
        first_piece_at(bv, team, kind, n + 1)
    }
}

/// The side's first king (in scan order) is attacked by the opponent.
/// A board without a king of that side is not in check.
pub open spec fn in_check(bv: BoardView, team: ChessTeam, ep: Option<Tile>) -> bool {
    match first_piece_at(bv, team, ChessPiece::King, 0) {
        Some(k) => tile_attacked(bv, team.spec_other(), k.0, k.1, ep),
        None => false,
    }
}

impl Board {
    /// Whether any piece of `team` has a pseudo-legal move onto
    /// `tile` under the given en-passant context.
    pub fn is_tile_attacked_by(&self, team: ChessTeam, tile: Tile, ep_square: Option<Tile>) -> (r:
        bool)
        requires
            self.wf(),
        ensures
            r == tile_attacked(self@, team, tile_x(tile), tile_y(tile), ep_square),
    {
        let ghost tx = tile_x(tile);
        let ghost ty = tile_y(tile);
        let mut x: i32 = 0;
        while x < 8
            invariant
                0 <= x <= 8,
                forall|px: int, py: int|
                    0 <= px < x && 0 <= py < 8 ==> !attacks_from(self@, team, px, py, tx, ty, ep_square),
            decreases 8 - x,
        {
            let mut y: i32 = 0;
            while y < 8
                invariant
                    0 <= x < 8,
                    0 <= y <= 8,
                    forall|px: int, py: int|
                        0 <= px < x && 0 <= py < 8 ==> !attacks_from(
                            self@,
                            team,
                            px,
                            py,
                            tx,
                            ty,
                            ep_square,
                        ),
                    forall|py: int|
                        0 <= py < y ==> !attacks_from(self@, team, x as int, py, tx, ty, ep_square),
                decreases 8 - y,
            {
                let i: usize = ((7 - y) * 8 + x) as usize;
                let sq = self.square_at(i);
                if let Some(p) = sq {
                    if p.0 == team {
                        let t_from = tile_from_index(i);
                        let mut dummy = false;
                        if is_piece_move_legal(p, t_from, tile, ep_square, self, &mut dummy) {
                            proof {
                                assert(attacks_from(
                                    self@,
                                    team,
                                    x as int,
                                    y as int,
                                    tx,
                                    ty,
                                    ep_square,
                                ));
                            }
                            return true;
                        }
                    }
                }
                proof {
                    assert(!attacks_from(self@, team, x as int, y as int, tx, ty, ep_square));
                }
                y += 1;
            }
            x += 1;
        }
        proof {
            assert forall|px: int, py: int| !attacks_from(
                self@,
                team,
                px,
                py,
                tx,
                ty,
                ep_square,
            ) by {
                if on_board(px, py) {
                    assert(!attacks_from(self@, team, px, py, tx, ty, ep_square));
                }
            }
        }
        false
    }

    /// Whether the given side's king is attacked by the opponent under
    /// the given en-passant context.
    pub fn is_team_in_check(&self, team: ChessTeam, ep_square: Option<Tile>) -> (r: bool)
        requires
            self.wf(),
        ensures
            r == in_check(self@, team, ep_square),
    {
        let mut n: i32 = 0;
        while n < 64
            invariant
                0 <= n <= 64,
                first_piece_at(self@, team, ChessPiece::King, 0) == first_piece_at(
                    self@,
                    team,
                    ChessPiece::King,
                    n as int,
                ),
            decreases 64 - n,
        {
            let x: i32 = n / 8;
            let y: i32 = n % 8;
            let i: usize = ((7 - y) * 8 + x) as usize;
            let sq = self.square_at(i);
            if let Some(p) = sq {
                if p.0 == team && p.1 == ChessPiece::King {
                    let king_tile = tile_from_index(i);
                    return self.is_tile_attacked_by(team.the_other_one(), king_tile, ep_square);
                }
            }
            n += 1;
        }
        false
    }
}

} // verus!
