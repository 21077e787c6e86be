//! A snapshot of one position: piece placement, side to move and
//! castling rights, together with its mathematical model.
use vstd::prelude::*;
use vstd::pervasive::VecAdditionalExecFns;

use crate::coord::{Coord, on_board, abs, sgn, line_mag};
use crate::piece::{ChessTeam, ChessPiece, TeamedChessPiece, Move};
use crate::tile::{Tile, tile_idx, tile_x, tile_y, tile_of_idx, tile_from_index, lemma_tile_of_idx, lemma_tile_idx_of_idx};

verus! {

/// The mathematical model of a [`Board`]: a sequence of 64 optionally
/// occupied squares in enumeration order (a8 first, h1 last), the side
/// to move, and the four castling rights.
pub struct BoardView {
    /// Square contents, indexed by [`tile_idx`].
    pub squares: Seq<Option<TeamedChessPiece>>,
    /// The side to move.
    pub turn: ChessTeam,
    /// (white kingside, white queenside, black kingside, black queenside)
    pub rights: (bool, bool, bool, bool),
}

impl BoardView {
    /// The model has exactly one entry per square.
    pub open spec fn wf(self) -> bool {
        self.squares.len() == 64
    }

    /// The contents of the square at coordinate (`x`, `y`).
    pub open spec fn at(self, x: int, y: int) -> Option<TeamedChessPiece>
        recommends
            on_board(x, y),
    {
        self.squares[(7 - y) * 8 + x]
    }

    /// The contents of a named square.
    pub open spec fn at_tile(self, t: Tile) -> Option<TeamedChessPiece> {
        self.squares[tile_idx(t)]
    }

    /// A piece of `team` stands at (`x`, `y`).
    pub open spec fn friendly_at(self, team: ChessTeam, x: int, y: int) -> bool {
        match self.at(x, y) {
            Some(p) => p.0 == team,
            None => false,
        }
    }

    /// The `i`-th square along the line from (`fx`, `fy`) towards
    /// (`tx`, `ty`) is empty.
    pub open spec fn empty_at_step(self, fx: int, fy: int, tx: int, ty: int, i: int) -> bool {
        self.at(fx + i * sgn(tx - fx), fy + i * sgn(ty - fy)) is None
    }

    /// Every square strictly between (`fx`, `fy`) and (`tx`, `ty`) --
    /// which must lie on a common line -- is empty, and no piece of
    /// `team` stands on the destination.
    pub open spec fn path_clear(self, team: ChessTeam, fx: int, fy: int, tx: int, ty: int) -> bool
        recommends
            line_mag(tx - fx, ty - fy) is Some,
    {
        let m = line_mag(tx - fx, ty - fy)->Some_0;
        &&& forall|i: int| 1 <= i < m ==> #[trigger] self.empty_at_step(fx, fy, tx, ty, i)
        &&& !self.friendly_at(team, tx, ty)
    }
}

/// The contents of square `i` (in enumeration order) in the standard
/// starting position.
pub open spec fn start_square(i: int) -> Option<TeamedChessPiece> {
    if 0 <= i < 8 {
        Some(TeamedChessPiece(ChessTeam::Black, home_rank_kind(i % 8)))
    } else if 8 <= i < 16 {
        Some(TeamedChessPiece(ChessTeam::Black, ChessPiece::Pawn))
    } else if 48 <= i < 56 {
        Some(TeamedChessPiece(ChessTeam::White, ChessPiece::Pawn))
    } else if 56 <= i < 64 {
        Some(TeamedChessPiece(ChessTeam::White, home_rank_kind(i % 8)))
    } else {
        None
    }
}

/// The piece kind on file `x` of either side's home rank.
pub open spec fn home_rank_kind(x: int) -> ChessPiece {
    if x == 0 || x == 7 {
        ChessPiece::Rook
    } else if x == 1 || x == 6 {
        ChessPiece::Knight
    } else if x == 2 || x == 5 {
        ChessPiece::Bishop
    } else if x == 3 {
        ChessPiece::Queen
    } else {
        ChessPiece::King
    }
}

/// The model of the standard starting position.
pub open spec fn start_board_view() -> BoardView {
    BoardView {
        squares: Seq::new(64, |i: int| start_square(i)),
        turn: ChessTeam::White,
        rights: (true, true, true, true),
    }
}

/// A snapshot of the board on a given position: what pieces there are,
/// where they are, whose turn it is, and the remaining castling rights.
pub struct Board {
    whose_turn: ChessTeam,
    squares: Vec<Option<TeamedChessPiece>>,
    castling_rights: (bool, bool, bool, bool),
}

impl View for Board {
    type V = BoardView;

    closed spec fn view(&self) -> BoardView {
        BoardView { squares: self.squares@, turn: self.whose_turn, rights: self.castling_rights }
    }
}

/// The pieces standing on squares `0..n`, with their squares, in
/// enumeration order.
pub open spec fn all_pieces_upto(bv: BoardView, n: int) -> Seq<(TeamedChessPiece, Tile)>
    decreases n,
{
    if n <= 0 {
        Seq::empty()
    } else {
        let prefix = all_pieces_upto(bv, n - 1);
        match bv.squares[n - 1] {
            Some(p) => prefix.push((p, tile_of_idx(n - 1))),
            None => prefix,
        }
    }
}

/// The pieces of `team` standing on squares `0..n`, with their squares,
/// in enumeration order.
pub open spec fn team_pieces_upto(bv: BoardView, team: ChessTeam, n: int) -> Seq<
    (TeamedChessPiece, Tile),
>
    decreases n,
{
    if n <= 0 {
        Seq::empty()
    } else {
        let prefix = team_pieces_upto(bv, team, n - 1);
        match bv.squares[n - 1] {
            Some(p) => if p.0 == team {
                prefix.push((p, tile_of_idx(n - 1)))
            } else {
                prefix
            },
            None => prefix,
        }
    }
}

/// The coordinates, on file `file` and ranks `0..n`, of pieces of the
/// given side and kind, lowest rank first.
pub open spec fn file_pieces_upto(
    bv: BoardView,
    team: ChessTeam,
    kind: ChessPiece,
    file: int,
    n: int,
) -> Seq<Coord>
    decreases n,
{
    if n <= 0 {
        Seq::empty()
    } else {
        let prefix = file_pieces_upto(bv, team, kind, file, n - 1);
        if bv.at(file, n - 1) == Some(TeamedChessPiece(team, kind)) {
            prefix.push(Coord { x: file as i32, y: (n - 1) as i32 })
        } else {
            prefix
        }
    }
}

/// The coordinates of all pieces of the given side and kind on files
/// `0..nf`, file by file, lowest rank first within a file.
pub open spec fn pieces_by_file(bv: BoardView, team: ChessTeam, kind: ChessPiece, nf: int) -> Seq<
    Coord,
>
    decreases nf,
{
    if nf <= 0 {
        Seq::empty()
    } else {
        pieces_by_file(bv, team, kind, nf - 1) + file_pieces_upto(bv, team, kind, nf - 1, 8)
    }
}

impl Board {
    /// The board models 64 squares.
    pub open spec fn wf(self) -> bool {
        self@.wf()
    }

    /// The side to move.
    pub fn whose_turn(&self) -> (r: ChessTeam)
        ensures
            r == self@.turn,
    {
        self.whose_turn
    }

    /// The four castling rights: (white kingside, white queenside,
    /// black kingside, black queenside).
    pub fn castling_rights(&self) -> (r: (bool, bool, bool, bool))
        ensures
            r == self@.rights,
    {
        self.castling_rights
    }

    /// The piece standing on a square, if any.
    pub fn get_piece(&self, tile: Tile) -> (r: Option<TeamedChessPiece>)
        requires
            self.wf(),
        ensures
            r == self@.at_tile(tile),
    {
        let i = tile.index();
        self.squares[i]
    }

    /// The contents of square `i` in enumeration order.
    pub(crate) fn square_at(&self, i: usize) -> (r: Option<TeamedChessPiece>)
        requires
            self.wf(),
            i < 64,
        ensures
            r == self@.squares[i as int],
    {
        self.squares[i]
    }

    /// A piece of the same side as `piece` stands on `tile`.
    pub fn is_friendly_piece_at_destination(&self, piece: TeamedChessPiece, tile: Tile) -> (r:
        bool)
        requires
            self.wf(),
        ensures
            r == self@.friendly_at(piece.0, tile_x(tile), tile_y(tile)),
    {
        let piece_dest = self.get_piece(tile);
        proof {
            assert(tile_idx(tile) == (7 - tile_y(tile)) * 8 + tile_x(tile));
        }
        if let Some(TeamedChessPiece(team, _)) = piece_dest {
            team == piece.0
        } else {
            false
        }
    }

    /// An identical snapshot of this board.
    pub fn clone_board(&self) -> (b: Board)
        requires
            self.wf(),
        ensures
            b@ == self@,
            b.wf(),
    {
        let mut squares: Vec<Option<TeamedChessPiece>> = Vec::new();
        let mut i: usize = 0;
        while i < 64
            invariant
                i <= 64,
                squares@.len() == i,
                forall|j: int| 0 <= j < i ==> squares@[j] == self.squares@[j],
            decreases 64 - i,
        {
            squares.push(self.squares[i]);
            i += 1;
        }
        let b = Board {
            whose_turn: self.whose_turn,
            squares,
            castling_rights: self.castling_rights,
        };
        proof {
            assert(b@.squares =~= self@.squares);
        }
        b
    }

    /// The standard starting position, White to move, all castling
    /// rights intact.
    pub fn start_position() -> (b: Board)
        ensures
            b@ == start_board_view(),
            b.wf(),
    {
        let mut squares: Vec<Option<TeamedChessPiece>> = Vec::new();
        let mut i: usize = 0;
        while i < 64
            invariant
                i <= 64,
                squares@.len() == i,
                forall|j: int| 0 <= j < i ==> squares@[j] == start_square(j),
            decreases 64 - i,
        {
            squares.push(start_square_at(i));
            i += 1;
        }
        let b = Board { whose_turn: ChessTeam::White, squares, castling_rights: (
            true,
            true,
            true,
            true,
        ) };
        proof {
            assert(b@.squares =~= start_board_view().squares);
        }
        b
    }

    /// A board with no pieces, the given side to move and the given
    /// castling rights.
    pub fn new_empty(turn: ChessTeam, rights: (bool, bool, bool, bool)) -> (b: Board)
        ensures
            b@.turn == turn,
            b@.rights == rights,
            forall|i: int| 0 <= i < 64 ==> b@.squares[i] is None,
            b.wf(),
    {
        let mut squares: Vec<Option<TeamedChessPiece>> = Vec::new();
        let mut i: usize = 0;
        while i < 64
            invariant
                i <= 64,
                squares@.len() == i,
                forall|j: int| 0 <= j < i ==> squares@[j] is None,
            decreases 64 - i,
        {
            squares.push(None);
            i += 1;
        }
        Board { whose_turn: turn, squares, castling_rights: rights }
    }

    /// Puts a piece on a square, replacing whatever stood there.
    pub fn place_piece(&mut self, tile: Tile, p: TeamedChessPiece)
        requires
            old(self).wf(),
        ensures
            final(self)@.squares == old(self)@.squares.update(tile_idx(tile), Some(p)),
            final(self)@.turn == old(self)@.turn,
            final(self)@.rights == old(self)@.rights,
            final(self).wf(),
    {
        let i = tile.index();
        self.squares.set(i, Some(p));
    }

    /// Sets the side to move of a board under construction.
    pub(crate) fn set_turn(&mut self, t: ChessTeam)
        ensures
            final(self)@ == (BoardView { turn: t, ..old(self)@ }),
    {
        self.whose_turn = t;
    }

    /// Sets the castling rights of a board under construction.
    pub(crate) fn set_castling_rights(&mut self, r: (bool, bool, bool, bool))
        ensures
            final(self)@ == (BoardView { rights: r, ..old(self)@ }),
    {
        self.castling_rights = r;
    }

    /// All pieces on the board, each with its square, in square
    /// enumeration order. Callers must not rely on the order beyond
    /// its determinism.
    pub fn find_all_pieces(&self) -> (r: Vec<(TeamedChessPiece, Tile)>)
        requires
            self.wf(),
        ensures
            r@ == all_pieces_upto(self@, 64),
    {
        let mut result: Vec<(TeamedChessPiece, Tile)> = Vec::new();
        let mut i: usize = 0;
        while i < 64
            invariant
                i <= 64,
                result@ == all_pieces_upto(self@, i as int),
            decreases 64 - i,
        {
            if let Some(p) = self.squares[i] {
                let t = tile_from_index(i);
                proof {
                    lemma_tile_of_idx(t);
                }
                result.push((p, t));
            }
            i += 1;
        }
        result
    }

    /// The pieces of one side, each with its square, in square
    /// enumeration order.
    pub fn find_pieces_of_team(&self, team: ChessTeam) -> (r: Vec<(TeamedChessPiece, Tile)>)
        requires
            self.wf(),
        ensures
            r@ == team_pieces_upto(self@, team, 64),
    {
        let mut result: Vec<(TeamedChessPiece, Tile)> = Vec::new();
        let mut i: usize = 0;
        while i < 64
            invariant
                i <= 64,
                result@ == team_pieces_upto(self@, team, i as int),
            decreases 64 - i,
        {
            if let Some(p) = self.squares[i] {
                if p.0 == team {
                    let t = tile_from_index(i);
                    proof {
                        lemma_tile_of_idx(t);
                    }
                    result.push((p, t));
                }
            }
            i += 1;
        }
        result
    }

    /// The coordinates of the pieces of the given side and kind on one
    /// file, lowest rank first.
    pub fn find_pieces_in_file(&self, team: ChessTeam, piece_type: ChessPiece, file: i32) -> (r:
        Vec<Coord>)
        requires
            self.wf(),
            0 <= file < 8,
        ensures
            r@ == file_pieces_upto(self@, team, piece_type, file as int, 8),
    {
        let mut result: Vec<Coord> = Vec::new();
        let mut rank: i32 = 0;
        while rank < 8
            invariant
                0 <= rank <= 8,
                result@ == file_pieces_upto(self@, team, piece_type, file as int, rank as int),
            decreases 8 - rank,
        {
            let i: usize = ((7 - rank) * 8 + file) as usize;
            if let Some(p) = self.squares[i] {
                if p.0 == team && p.1 == piece_type {
                    result.push(Coord { x: file, y: rank });
                }
            }
            rank += 1;
        }
        result
    }

    /// The coordinates of all pieces of the given side and kind, file
    /// by file from the a-file, lowest rank first within a file.
    pub fn find_pieces(&self, team: ChessTeam, piece_type: ChessPiece) -> (r: Vec<Coord>)
        requires
            self.wf(),
        ensures
            r@ == pieces_by_file(self@, team, piece_type, 8),
    {
        let mut result: Vec<Coord> = Vec::new();
        let mut file: i32 = 0;
        while file < 8
            invariant
                0 <= file <= 8,
                result@ == pieces_by_file(self@, team, piece_type, file as int),
            decreases 8 - file,
        {
            let mut result_file = self.find_pieces_in_file(team, piece_type, file);
            result.append(&mut result_file);
            file += 1;
        }
        result
    }

    /// The path from `tile_from` to `tile_to` (which must lie on a
    /// common line) has no piece strictly between the two squares, and
    /// no piece of `piece`'s own side on the destination.
    pub fn is_path_clear(&self, piece: TeamedChessPiece, tile_from: Tile, tile_to: Tile) -> (r:
        bool)
        requires
            self.wf(),
            line_mag(
                tile_x(tile_to) - tile_x(tile_from),
                tile_y(tile_to) - tile_y(tile_from),
            ) is Some,
        ensures
            r == self@.path_clear(
                piece.0,
                tile_x(tile_from),
                tile_y(tile_from),
                tile_x(tile_to),
                tile_y(tile_to),
            ),
    {
        let tile_from_coord = tile_from.to_coord();
        let tile_to_coord = tile_to.to_coord();
        let ghost fx = tile_x(tile_from);
        let ghost fy = tile_y(tile_from);
        let ghost tx = tile_x(tile_to);
        let ghost ty = tile_y(tile_to);
        let ghost m = line_mag(tx - fx, ty - fy)->Some_0;

        let coord_distance = tile_from_coord.distance(tile_to_coord);
        let magn = coord_distance.magnitude().unwrap();

        if magn > 0 {
            let unit = coord_distance.unit();
            let mut i: i32 = 1;
            while i < magn
                invariant
                    1 <= i <= m,
                    forall|j: int| 1 <= j < i ==> #[trigger] self@.empty_at_step(fx, fy, tx, ty, j),
                decreases magn - i,
            {
                let cx: i32 = tile_from_coord.x + unit.x * i;
                let cy: i32 = tile_from_coord.y + unit.y * i;
                proof {
                    lemma_line_point_on_board(fx, fy, tx, ty, i as int);
                }
                let idx: usize = ((7 - cy) * 8 + cx) as usize;
                if self.squares[idx].is_some() {
                    proof {
                        assert(cx as int == fx + (i as int) * sgn(tx - fx));
                        assert(cy as int == fy + (i as int) * sgn(ty - fy));
                        assert(!self@.empty_at_step(fx, fy, tx, ty, i as int));
                    }
                    return false;
                }
                i += 1;
            }
        }
        if self.is_friendly_piece_at_destination(piece, tile_to) {
            return false;
        }
        true
    }
}

/// What a move may assume of the board it is applied to: the origin
/// square of a piece move is occupied, and the pawn captured en
/// passant stands on the board.
pub open spec fn apply_req(bv: BoardView, m: Move) -> bool {
    match m {
        Move::PieceMove { tile_from, tile_to, is_en_passant, .. } => {
            &&& bv.at_tile(tile_from) is Some
            &&& (is_en_passant ==> 0 <= tile_y(tile_to) - bv.turn.pawn_dir() < 8)
        },
        _ => true,
    }
}

/// The castling rights left after the side to move plays the given
/// piece kind from the given square: moving a rook off its home square
/// revokes the matching right, moving the king revokes both.
pub open spec fn rights_after_move(
    r: (bool, bool, bool, bool),
    turn: ChessTeam,
    kind: ChessPiece,
    from: Tile,
) -> (bool, bool, bool, bool) {
    if kind == ChessPiece::Rook {
        match turn {
            ChessTeam::Black => if from == Tile::A8 {
                (r.0, r.1, r.2, false)
            } else if from == Tile::H8 {
                (r.0, r.1, false, r.3)
            } else {
                r
            },
            ChessTeam::White => if from == Tile::A1 {
                (r.0, false, r.2, r.3)
            } else if from == Tile::H1 {
                (false, r.1, r.2, r.3)
            } else {
                r
            },
        }
    } else if kind == ChessPiece::King {
        match turn {
            ChessTeam::Black => (r.0, r.1, false, false),
            ChessTeam::White => (false, false, r.2, r.3),
        }
    } else {
        r
    }
}

/// The board after a move is applied, together with whether the move
/// captured a piece. This is the sole way placement changes: the moved
/// piece is relocated, an en-passant victim is lifted from behind the
/// destination, a promotion replaces the pawn, castling relocates king
/// and rook, castling rights are revoked as they lapse, and the side
/// to move flips.
pub open spec fn spec_apply(bv: BoardView, m: Move) -> (BoardView, bool) {
    match m {
        Move::PieceMove { piece, tile_from, tile_to, is_en_passant } => {
            let moved = bv.at_tile(tile_from);
            let s1 = bv.squares.update(tile_idx(tile_from), None);
            let captured = s1[tile_idx(tile_to)] is Some;
            let s2 = s1.update(tile_idx(tile_to), moved);
            let cap_idx = (7 - (tile_y(tile_to) - bv.turn.pawn_dir())) * 8 + tile_x(tile_to);
            let s3 = if is_en_passant && 0 <= cap_idx < s2.len() {
                s2.update(cap_idx, None)
            } else {
                s2
            };
            (
                BoardView {
                    squares: s3,
                    turn: bv.turn.spec_other(),
                    rights: rights_after_move(bv.rights, bv.turn, piece, tile_from),
                },
                captured || is_en_passant,
            )
        },
        Move::PieceMoveWithPromotion { tile_from, tile_to, promotion } => {
            let s1 = bv.squares.update(tile_idx(tile_from), None);
            let captured = s1[tile_idx(tile_to)] is Some;
            let s2 = s1.update(tile_idx(tile_to), Some(TeamedChessPiece(bv.turn, promotion)));
            (BoardView { squares: s2, turn: bv.turn.spec_other(), rights: bv.rights }, captured)
        },
        Move::CastleShort => {
            let (rook_from, king_from, rook_to, king_to) = match bv.turn {
                ChessTeam::Black => (Tile::H8, Tile::E8, Tile::F8, Tile::G8),
                ChessTeam::White => (Tile::H1, Tile::E1, Tile::F1, Tile::G1),
            };
            (castle_result(bv, rook_from, king_from, rook_to, king_to), false)
        },
        Move::CastleLong => {
            let (rook_from, king_from, rook_to, king_to) = match bv.turn {
                ChessTeam::Black => (Tile::A8, Tile::E8, Tile::D8, Tile::C8),
                ChessTeam::White => (Tile::A1, Tile::E1, Tile::D1, Tile::C1),
            };
            (castle_result(bv, rook_from, king_from, rook_to, king_to), false)
        },
    }
}

/// The board after the side to move castles with the given rook and
/// king relocation: both home squares are emptied, rook and king stand
/// on their fixed destinations, both of that side's rights lapse, and
/// the turn flips.
pub open spec fn castle_result(
    bv: BoardView,
    rook_from: Tile,
    king_from: Tile,
    rook_to: Tile,
    king_to: Tile,
) -> BoardView {
    let s = bv.squares.update(tile_idx(rook_from), None).update(tile_idx(king_from), None).update(
        tile_idx(rook_to),
        Some(TeamedChessPiece(bv.turn, ChessPiece::Rook)),
    ).update(tile_idx(king_to), Some(TeamedChessPiece(bv.turn, ChessPiece::King)));
    let rights = match bv.turn {
        ChessTeam::Black => (bv.rights.0, bv.rights.1, false, false),
        ChessTeam::White => (false, false, bv.rights.2, bv.rights.3),
    };
    BoardView { squares: s, turn: bv.turn.spec_other(), rights }
}

impl Board {
    /// Applies a move to this position, mutating placement, castling
    /// rights and the side to move exactly as [`spec_apply`] states.
    /// Returns whether a piece was captured (en passant included).
    pub fn apply_move(&mut self, chess_move: Move) -> (was_capture: bool)
        requires
            old(self).wf(),
            apply_req(old(self)@, chess_move),
        ensures
            final(self)@ == spec_apply(old(self)@, chess_move).0,
            was_capture == spec_apply(old(self)@, chess_move).1,
            final(self).wf(),
    {
        let mut was_capture = false;

        match chess_move {
            Move::PieceMove { piece: piece_type, tile_from, tile_to, is_en_passant } => {
                let from_i = tile_from.index();
                let piece = self.squares[from_i].unwrap();
                self.squares.set(from_i, None);
                let to_i = tile_to.index();
                if self.squares[to_i].is_some() {
                    was_capture = true;
                }
                self.squares.set(to_i, Some(piece));

                if is_en_passant {
                    let to_coord = tile_to.to_coord();
                    let cap_y: i32 = match self.whose_turn {
                        ChessTeam::Black => to_coord.y + 1,
                        ChessTeam::White => to_coord.y - 1,
                    };
                    let cap_i: usize = ((7 - cap_y) * 8 + to_coord.x) as usize;
                    self.squares.set(cap_i, None);
                    was_capture = true;
                }
                if piece_type == ChessPiece::Rook {
                    match self.whose_turn {
                        ChessTeam::Black => {
                            if tile_from == Tile::A8 {
                                let r = self.castling_rights;
                                self.castling_rights = (r.0, r.1, r.2, false);
                            } else if tile_from == Tile::H8 {
                                let r = self.castling_rights;
                                self.castling_rights = (r.0, r.1, false, r.3);
                            }
                        },
                        ChessTeam::White => {
                            if tile_from == Tile::A1 {
                                let r = self.castling_rights;
                                self.castling_rights = (r.0, false, r.2, r.3);
                            } else if tile_from == Tile::H1 {
                                let r = self.castling_rights;
                                self.castling_rights = (false, r.1, r.2, r.3);
                            }
                        },
                    }
                }
                if piece_type == ChessPiece::King {
                    match self.whose_turn {
                        ChessTeam::Black => {
                            let r = self.castling_rights;
                            self.castling_rights = (r.0, r.1, false, false);
                        },
                        ChessTeam::White => {
                            let r = self.castling_rights;
                            self.castling_rights = (false, false, r.2, r.3);
                        },
                    }
                }
            },
            Move::PieceMoveWithPromotion { tile_from, tile_to, promotion } => {
                let from_i = tile_from.index();
                self.squares.set(from_i, None);
                let to_i = tile_to.index();
                if self.squares[to_i].is_some() {
                    was_capture = true;
                }
                self.squares.set(to_i, Some(TeamedChessPiece(self.whose_turn, promotion)));
            },
            Move::CastleShort => {
                match self.whose_turn {
                    ChessTeam::Black => {
                        self.castle_relocate(Tile::H8, Tile::E8, Tile::F8, Tile::G8);
                    },
                    ChessTeam::White => {
                        self.castle_relocate(Tile::H1, Tile::E1, Tile::F1, Tile::G1);
                    },
                }
            },
            Move::CastleLong => {
                match self.whose_turn {
                    ChessTeam::Black => {
                        self.castle_relocate(Tile::A8, Tile::E8, Tile::D8, Tile::C8);
                    },
                    ChessTeam::White => {
                        self.castle_relocate(Tile::A1, Tile::E1, Tile::D1, Tile::C1);
                    },
                }
            },
        }

        self.whose_turn = self.the_other_turn();
        was_capture
    }

    /// Moves this side's rook and king to their castling destinations
    /// and revokes both of its castling rights.
    fn castle_relocate(&mut self, rook_from: Tile, king_from: Tile, rook_to: Tile, king_to: Tile)
        requires
            old(self).wf(),
        ensures
            final(self)@ == (BoardView {
                turn: old(self)@.turn,
                ..castle_result(old(self)@, rook_from, king_from, rook_to, king_to)
            }),
            final(self).wf(),
    {
        self.squares.set(rook_from.index(), None);
        self.squares.set(king_from.index(), None);
        self.squares.set(rook_to.index(), Some(TeamedChessPiece(self.whose_turn, ChessPiece::Rook)));
        self.squares.set(king_to.index(), Some(TeamedChessPiece(self.whose_turn, ChessPiece::King)));
        let r = self.castling_rights;
        match self.whose_turn {
            ChessTeam::Black => {
                self.castling_rights = (r.0, r.1, false, false);
            },
            ChessTeam::White => {
                self.castling_rights = (false, false, r.2, r.3);
            },
        }
    }

    /// The side that is not to move.
    fn the_other_turn(&self) -> (r: ChessTeam)
        ensures
            r == self.whose_turn.spec_other(),
    {
        match self.whose_turn {
            ChessTeam::White => ChessTeam::Black,
            ChessTeam::Black => ChessTeam::White,
        }
    }
}

/// Every pair listed by `team_pieces_upto` stands on the board as
/// listed and belongs to the team.
pub proof fn lemma_team_pieces_sound(bv: BoardView, team: ChessTeam, n: int, j: int)
    requires
        0 <= n <= 64,
        0 <= j < team_pieces_upto(bv, team, n).len(),
    ensures
        ({
            let e = team_pieces_upto(bv, team, n)[j];
            &&& bv.at_tile(e.1) == Some(e.0)
            &&& e.0.0 == team
            &&& tile_idx(e.1) < n
        }),
    decreases n,
{
    if n > 0 {
        let prefix = team_pieces_upto(bv, team, n - 1);
        if j < prefix.len() {
            lemma_team_pieces_sound(bv, team, n - 1, j);
        } else {
            lemma_tile_idx_of_idx(n - 1);
        }
    }
}

/// Every piece of the team on a square below `n` is listed by
/// `team_pieces_upto`.
pub proof fn lemma_team_pieces_complete(bv: BoardView, team: ChessTeam, n: int, i: int)
    requires
        0 <= i < n <= 64,
        bv.squares[i] is Some,
        bv.squares[i]->Some_0.0 == team,
    ensures
        team_pieces_upto(bv, team, n).contains((bv.squares[i]->Some_0, tile_of_idx(i))),
    decreases n,
{
    let p = bv.squares[i]->Some_0;
    if i == n - 1 {
        let s = team_pieces_upto(bv, team, n);
        assert(s[s.len() - 1] == (p, tile_of_idx(i)));
    } else {
        lemma_team_pieces_complete(bv, team, n - 1, i);
        let prefix = team_pieces_upto(bv, team, n - 1);
        let k = choose|k: int| 0 <= k < prefix.len() && prefix[k] == (p, tile_of_idx(i));
        assert(team_pieces_upto(bv, team, n)[k] == (p, tile_of_idx(i)));
    }
}

/// Coordinates listed for one file lie on that file and on the board.
pub proof fn lemma_file_pieces_valid(
    bv: BoardView,
    team: ChessTeam,
    kind: ChessPiece,
    file: int,
    n: int,
    j: int,
)
    requires
        0 <= file < 8,
        0 <= n <= 8,
        0 <= j,
        j < file_pieces_upto(bv, team, kind, file, n).len(),
    ensures
        file_pieces_upto(bv, team, kind, file, n)[j].x as int == file,
        0 <= file_pieces_upto(bv, team, kind, file, n)[j].y as int,
        (file_pieces_upto(bv, team, kind, file, n)[j].y as int) < n,
    decreases n,
{
    if n > 0 {
        let prefix = file_pieces_upto(bv, team, kind, file, n - 1);
        if j < prefix.len() {
            lemma_file_pieces_valid(bv, team, kind, file, n - 1, j);
        }
    }
}

/// Coordinates listed file by file lie on the board.
pub proof fn lemma_pieces_by_file_valid(
    bv: BoardView,
    team: ChessTeam,
    kind: ChessPiece,
    nf: int,
    j: int,
)
    requires
        0 <= nf <= 8,
        0 <= j,
        j < pieces_by_file(bv, team, kind, nf).len(),
    ensures
        0 <= pieces_by_file(bv, team, kind, nf)[j].x as int,
        (pieces_by_file(bv, team, kind, nf)[j].x as int) < nf,
        0 <= pieces_by_file(bv, team, kind, nf)[j].y as int,
        (pieces_by_file(bv, team, kind, nf)[j].y as int) < 8,
    decreases nf,
{
    if nf > 0 {
        let prefix = pieces_by_file(bv, team, kind, nf - 1);
        if j < prefix.len() {
            lemma_pieces_by_file_valid(bv, team, kind, nf - 1, j);
        } else {
            lemma_file_pieces_valid(bv, team, kind, nf - 1, 8, j - prefix.len());
        }
    }
}

/// Points strictly between two squares of a common line are themselves
/// on the board.
pub proof fn lemma_line_point_on_board(fx: int, fy: int, tx: int, ty: int, i: int)
    requires
        on_board(fx, fy),
        on_board(tx, ty),
        line_mag(tx - fx, ty - fy) is Some,
        0 <= i <= line_mag(tx - fx, ty - fy)->Some_0,
    ensures
        on_board(fx + i * sgn(tx - fx), fy + i * sgn(ty - fy)),
        i == line_mag(tx - fx, ty - fy)->Some_0 ==> fx + i * sgn(tx - fx) == tx && fy + i * sgn(
            ty - fy,
        ) == ty,
{
    let dx = tx - fx;
    let dy = ty - fy;
    let m = line_mag(dx, dy)->Some_0;
    assert(dx == 0 || abs(dx) == m) by {
        if dx != 0 && dy != 0 {
            assert(abs(dx) == abs(dy));
        }
    }
    assert(dy == 0 || abs(dy) == m);
    assert(i * sgn(dx) == if dx == 0 {
        0
    } else if dx > 0 {
        i
    } else {
        -i
    }) by (nonlinear_arith);
    assert(i * sgn(dy) == if dy == 0 {
        0
    } else if dy > 0 {
        i
    } else {
        -i
    }) by (nonlinear_arith);
}

/// The piece on square `i` of the starting position.
fn start_square_at(i: usize) -> (r: Option<TeamedChessPiece>)
    requires
        i < 64,
    ensures
        r == start_square(i as int),
{
    let x = i % 8;
    if i < 8 {
        Some(TeamedChessPiece(ChessTeam::Black, home_rank_kind_at(x)))
    } else if i < 16 {
        Some(TeamedChessPiece(ChessTeam::Black, ChessPiece::Pawn))
    } else if i < 48 {
        None
    } else if i < 56 {
        Some(TeamedChessPiece(ChessTeam::White, ChessPiece::Pawn))
    } else {
        Some(TeamedChessPiece(ChessTeam::White, home_rank_kind_at(x)))
    }
}

/// The piece kind on file `x` of either side's home rank.
fn home_rank_kind_at(x: usize) -> (r: ChessPiece)
    requires
        x < 8,
    ensures
        r == home_rank_kind(x as int),
{
    if x == 0 || x == 7 {
        ChessPiece::Rook
    } else if x == 1 || x == 6 {
        ChessPiece::Knight
    } else if x == 2 || x == 5 {
        ChessPiece::Bishop
    } else if x == 3 {
        ChessPiece::Queen
    } else {
        ChessPiece::King
    }
}

} // verus!
