//! Teams, piece kinds, moves, and the outcome types of the engine.
use vstd::prelude::*;

use crate::tile::{Tile, tile_x, tile_y, tile_idx, tile_of_idx, lemma_tile_of_idx};

verus! {

/// One of the two sides of a game.
#[derive(Clone, Copy, PartialEq, Eq, Structural, Debug, Hash)]
pub enum ChessTeam {
    Black,
    White,
}

impl ChessTeam {
    /// The opponent of this side.
    pub open spec fn spec_other(self) -> ChessTeam {
        match self {
            ChessTeam::White => ChessTeam::Black,
            ChessTeam::Black => ChessTeam::White,
        }
    }

    /// The opponent of this side.
    pub fn the_other_one(&self) -> (r: ChessTeam)
        ensures
            r == self.spec_other(),
    {
        match self {
            ChessTeam::White => ChessTeam::Black,
            ChessTeam::Black => ChessTeam::White,
        }
    }

    /// The direction this side's pawns advance in: up for White, down
    /// for Black.
    pub open spec fn pawn_dir(self) -> int {
        match self {
            ChessTeam::White => 1,
            ChessTeam::Black => -1,
        }
    }

    /// The rank this side's pawns start on.
    pub open spec fn pawn_start_rank(self) -> int {
        match self {
            ChessTeam::White => 1,
            ChessTeam::Black => 6,
        }
    }

    /// The rank this side's pawns promote on.
    pub open spec fn back_rank(self) -> int {
        match self {
            ChessTeam::White => 7,
            ChessTeam::Black => 0,
        }
    }
}

/// A kind of chess piece.
#[derive(Clone, Copy, PartialEq, Eq, Structural, Debug, Hash)]
pub enum ChessPiece {
    Pawn,
    Rook,
    Knight,
    Bishop,
    Queen,
    King,
}

/// A piece together with the side it belongs to. Its position is
/// supplied by the containing board.
#[derive(Clone, Copy, PartialEq, Eq, Structural, Debug, Hash)]
pub struct TeamedChessPiece(pub ChessTeam, pub ChessPiece);

/// Why a proposed move was rejected.
#[derive(Clone, Copy, PartialEq, Eq, Structural, Debug)]
pub enum MoveError {
    /// There is nothing at the origin square.
    TileFromIsEmpty,
    /// The origin square holds an opponent piece.
    TileFromIsEnemyPiece,
    /// The piece does not move that way.
    PieceDoesNotMoveLikeThat,
    /// A pawn reached the last rank without a promotion piece.
    PromotionPieceNotSpecified,
    /// A promotion was requested short of the last rank.
    PromotionNotLegal,
    /// A promotion to a pawn or a king.
    PromotionWrongPiece,
    /// Castling after the right was lost.
    CastlingNoRights,
    /// Castling with occupied squares between king and rook.
    CastlingTilesInBetweenNotFree,
    /// Castling out of, through, or into check.
    CastlingThroughCheck,
    /// The move would leave the mover's own king attacked.
    InCheck,
}

/// How a finished or ongoing game stands.
#[derive(Clone, Copy, PartialEq, Eq, Structural, Debug)]
pub enum GameEndState {
    Checkmate,
    Draw,
    Running,
}

/// A move, as validated and recorded by the engine.
#[derive(Clone, Copy, PartialEq, Eq, Structural, Debug)]
pub enum Move {
    /// An ordinary piece move. The `is_en_passant` flag is derived by
    /// the validator; callers may pass `false` and the engine corrects
    /// it during validation.
    PieceMove { piece: ChessPiece, tile_from: Tile, tile_to: Tile, is_en_passant: bool },
    /// A pawn move to the last rank, promoting to `promotion`.
    PieceMoveWithPromotion { tile_from: Tile, tile_to: Tile, promotion: ChessPiece },
    CastleShort,
    CastleLong,
}

/// The coordinates of the en-passant target square that this move
/// opens, if it is a two-square pawn advance: the square one rank
/// behind the pawn's destination.
pub open spec fn spec_ep_coords(m: Move) -> Option<(int, int)> {
    match m {
        Move::PieceMove { piece, tile_from, tile_to, .. } => {
            if piece == ChessPiece::Pawn && ((tile_y(tile_from) == 1 && tile_y(tile_to) == 3) || (
            tile_y(tile_from) == 6 && tile_y(tile_to) == 4)) {
                if tile_y(tile_to) == 3 {
                    Some((tile_x(tile_from), 2))
                } else {
                    Some((tile_x(tile_from), 5))
                }
            } else {
                None
            }
        },
        _ => None,
    }
}

/// The en-passant target square a move opens, as a spec value.
pub open spec fn spec_ep_square(m: Move) -> Option<Tile> {
    match spec_ep_coords(m) {
        Some(c) => Some(tile_of_idx((7 - c.1) * 8 + c.0)),
        None => None,
    }
}

impl Move {
    /// The en-passant target square this move opens for the opponent's
    /// next move: a two-square pawn advance yields the square it
    /// skipped, any other move yields `None`.
    pub fn get_en_passant_square(&self) -> (r: Option<Tile>)
        ensures
            r == spec_ep_square(*self),
    {
        if let Move::PieceMove { piece, tile_from, tile_to, .. } = self {
            let from = tile_from.to_coord();
            let to = tile_to.to_coord();
            if *piece == ChessPiece::Pawn && ((from.y == 1 && to.y == 3) || (from.y == 6 && to.y
                == 4)) {
                let ep_y: i32 = if to.y == 3 {
                    2
                } else {
                    5
                };
                let t = Tile::from_coord(crate::coord::Coord { x: from.x, y: ep_y });
                proof {
                    let et = t->Some_0;
                    assert(tile_idx(et) == (7 - tile_y(et)) * 8 + tile_x(et));
                    lemma_tile_of_idx(et);
                }
                return t;
            }
        }
        None
    }
}

} // verus!
