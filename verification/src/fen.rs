//! The FEN position-exchange text format: serializing a game's
//! current position, and parsing FEN text into a fresh game.
use vstd::prelude::*;

use crate::board::{Board, BoardView};
use crate::game::{GameState, GameStateView, spec_full_move_count};
use crate::piece::{ChessTeam, ChessPiece, TeamedChessPiece};
use crate::coord::on_board;
use crate::strutil::{push_char, char_code};
use vstd::string::StringExecFns;
use crate::tile::{Tile, tile_x, tile_y, tile_idx};

verus! {

broadcast use vstd::seq_lib::group_seq_properties, crate::tile::lemma_tile_bounds;

/// The FEN letter for a piece: uppercase for White, lowercase for
/// Black.
pub open spec fn piece_char(p: TeamedChessPiece) -> char {
    match p {
        TeamedChessPiece(ChessTeam::Black, ChessPiece::Pawn) => 'p',
        TeamedChessPiece(ChessTeam::Black, ChessPiece::Rook) => 'r',
        TeamedChessPiece(ChessTeam::Black, ChessPiece::Knight) => 'n',
        TeamedChessPiece(ChessTeam::Black, ChessPiece::Bishop) => 'b',
        TeamedChessPiece(ChessTeam::Black, ChessPiece::Queen) => 'q',
        TeamedChessPiece(ChessTeam::Black, ChessPiece::King) => 'k',
        TeamedChessPiece(ChessTeam::White, ChessPiece::Pawn) => 'P',
        TeamedChessPiece(ChessTeam::White, ChessPiece::Rook) => 'R',
        TeamedChessPiece(ChessTeam::White, ChessPiece::Knight) => 'N',
        TeamedChessPiece(ChessTeam::White, ChessPiece::Bishop) => 'B',
        TeamedChessPiece(ChessTeam::White, ChessPiece::Queen) => 'Q',
        TeamedChessPiece(ChessTeam::White, ChessPiece::King) => 'K',
    }
}

/// The character for decimal digit `d`.
pub open spec fn dec_digit(d: int) -> char {
    if d == 0 {
        '0'
    } else if d == 1 {
        '1'
    } else if d == 2 {
        '2'
    } else if d == 3 {
        '3'
    } else if d == 4 {
        '4'
    } else if d == 5 {
        '5'
    } else if d == 6 {
        '6'
    } else if d == 7 {
        '7'
    } else if d == 8 {
        '8'
    } else {
        '9'
    }
}

/// The placement text of rank `r` from file `f` on, with `empties`
/// empty squares pending before it: runs of empty squares become one
/// digit, pieces their letter.
pub open spec fn rank_chars_from(bv: BoardView, r: int, f: int, empties: int) -> Seq<char>
    decreases 8 - f,
{
    if f >= 8 {
        if empties > 0 {
            seq![dec_digit(empties)]
        } else {
            Seq::empty()
        }
    } else {
        match bv.at(f, r) {
            Some(p) => {
                let lead: Seq<char> = if empties > 0 {
                    seq![dec_digit(empties)]
                } else {
                    Seq::empty()
                };
                lead + seq![piece_char(p)] + rank_chars_from(bv, r, f + 1, 0)
            },
            None => rank_chars_from(bv, r, f + 1, empties + 1),
        }
    }
}

/// The placement text of ranks `r` down to 1, `/`-separated, highest
/// rank first.
pub open spec fn placement_from_rank(bv: BoardView, r: int) -> Seq<char>
    decreases r + 1,
{
    if r < 0 {
        Seq::empty()
    } else if r == 0 {
        rank_chars_from(bv, 0, 0, 0)
    } else {
        rank_chars_from(bv, r, 0, 0) + seq!['/'] + placement_from_rank(bv, r - 1)
    }
}

/// The FEN side-to-move letter.
pub open spec fn turn_char(t: ChessTeam) -> char {
    match t {
        ChessTeam::Black => 'b',
        ChessTeam::White => 'w',
    }
}

/// The FEN castling field: the letters of the remaining rights in
/// `KQkq` order, or `-` when none remain.
pub open spec fn castle_chars(rights: (bool, bool, bool, bool)) -> Seq<char> {
    if rights == (false, false, false, false) {
        seq!['-']
    } else {
        (if rights.0 {
            seq!['K']
        } else {
            Seq::empty()
        }) + (if rights.1 {
            seq!['Q']
        } else {
            Seq::empty()
        }) + (if rights.2 {
            seq!['k']
        } else {
            Seq::empty()
        }) + (if rights.3 {
            seq!['q']
        } else {
            Seq::empty()
        })
    }
}

/// The FEN en-passant field: the target square's name, or `-`.
pub open spec fn ep_chars(ep: Option<Tile>) -> Seq<char> {
    match ep {
        Some(t) => seq![crate::coord::file_char(tile_x(t)), crate::coord::rank_char(tile_y(t))],
        None => seq!['-'],
    }
}

/// The decimal text of a non-negative number.
pub open spec fn dec_chars(n: int) -> Seq<char>
    decreases n,
{
    if n < 10 {
        seq![dec_digit(n)]
    } else {
        dec_chars(n / 10) + seq![dec_digit(n % 10)]
    }
}

/// The six space-separated FEN fields of a game's current position.
pub open spec fn fen_chars(g: GameStateView) -> Seq<char> {
    let bv = g.current_board();
    placement_from_rank(bv, 7) + seq![' '] + seq![turn_char(bv.turn)] + seq![' '] + castle_chars(
        bv.rights,
    ) + seq![' '] + ep_chars(g.ep) + seq![' '] + dec_chars(g.fifty as int) + seq![' ']
        + dec_chars(spec_full_move_count(g) as int)
}

/// The FEN letter for a piece.
fn piece_char_at(p: TeamedChessPiece) -> (c: char)
    ensures
        c == piece_char(p),
{
    match p {
        TeamedChessPiece(ChessTeam::Black, ChessPiece::Pawn) => 'p',
        TeamedChessPiece(ChessTeam::Black, ChessPiece::Rook) => 'r',
        TeamedChessPiece(ChessTeam::Black, ChessPiece::Knight) => 'n',
        TeamedChessPiece(ChessTeam::Black, ChessPiece::Bishop) => 'b',
        TeamedChessPiece(ChessTeam::Black, ChessPiece::Queen) => 'q',
        TeamedChessPiece(ChessTeam::Black, ChessPiece::King) => 'k',
        TeamedChessPiece(ChessTeam::White, ChessPiece::Pawn) => 'P',
        TeamedChessPiece(ChessTeam::White, ChessPiece::Rook) => 'R',
        TeamedChessPiece(ChessTeam::White, ChessPiece::Knight) => 'N',
        TeamedChessPiece(ChessTeam::White, ChessPiece::Bishop) => 'B',
        TeamedChessPiece(ChessTeam::White, ChessPiece::Queen) => 'Q',
        TeamedChessPiece(ChessTeam::White, ChessPiece::King) => 'K',
    }
}

/// The character for decimal digit `d`.
fn dec_digit_at(d: u32) -> (c: char)
    requires
        d < 10,
    ensures
        c == dec_digit(d as int),
{
    match d {
        0 => '0',
        1 => '1',
        2 => '2',
        3 => '3',
        4 => '4',
        5 => '5',
        6 => '6',
        7 => '7',
        8 => '8',
        _ => '9',
    }
}

/// Appends the decimal text of `n`.
fn push_dec(out: &mut String, n: u32)
    ensures
        final(out)@ == old(out)@ + dec_chars(n as int),
    decreases n,
{
    if n < 10 {
        push_char(out, dec_digit_at(n));
    } else {
        push_dec(out, n / 10);
        push_char(out, dec_digit_at(n % 10));
    }
}

/// The placement field of the FEN text: the eight ranks of the
/// board, highest first.
fn placement_string(board: &Board) -> (s: String)
    requires
        board.wf(),
    ensures
        s@ == placement_from_rank(board@, 7),
{
    let ghost bv = board@;
    let mut res = String::new();
    let mut r: i32 = 7;
    while r >= 0
        invariant
            -1 <= r <= 7,
            board.wf(),
            board@ == bv,
            res@ + placement_from_rank(bv, r as int) == placement_from_rank(bv, 7),
        decreases r + 1,
    {
        let mut empty_tiles: u32 = 0;
        let mut f: i32 = 0;
        while f < 8
            invariant
                0 <= f <= 8,
                0 <= r <= 7,
                empty_tiles as int <= f as int,
                board.wf(),
                board@ == bv,
                res@ + rank_chars_from(bv, r as int, f as int, empty_tiles as int) + (if r > 0 {
                    seq!['/'] + placement_from_rank(bv, r as int - 1)
                } else {
                    Seq::<char>::empty()
                }) == placement_from_rank(bv, 7),
            decreases 8 - f,
        {
            let i: usize = ((7 - r) * 8 + f) as usize;
            let sq = board.square_at(i);
            if let Some(tp) = sq {
                if empty_tiles > 0 {
                    push_char(&mut res, dec_digit_at(empty_tiles));
                }
                push_char(&mut res, piece_char_at(tp));
                empty_tiles = 0;
            } else {
                empty_tiles = empty_tiles + 1;
            }
            f += 1;
        }
        if empty_tiles > 0 {
            push_char(&mut res, dec_digit_at(empty_tiles));
        }
        if r != 0 {
            push_char(&mut res, '/');
        }
        r -= 1;
    }
    res
}

impl GameState {
    /// The FEN text of the current position, exactly [`fen_chars`] of
    /// this game.
    #[verifier::spinoff_prover]
    #[verifier::rlimit(100)]
    pub fn get_fen(&mut self) -> (res: String)
        requires
            old(self).wf(),
        ensures
            final(self)@ == old(self)@,
            final(self).wf(),
            res@ == fen_chars(old(self)@),
    {
        let board = self.get_board();
        let ghost bv = board@;
        let ghost g = self@;

        let mut res = placement_string(&board);

        push_char(&mut res, ' ');
        push_char(&mut res, match board.whose_turn() {
            ChessTeam::Black => 'b',
            ChessTeam::White => 'w',
        });
        let ghost part1 = placement_from_rank(bv, 7) + seq![' '] + seq![turn_char(bv.turn)];
        proof {
            assert(res@ == part1);
        }

        push_char(&mut res, ' ');
        let rights = board.castling_rights();
        if rights.0 {
            push_char(&mut res, 'K');
        }
        if rights.1 {
            push_char(&mut res, 'Q');
        }
        if rights.2 {
            push_char(&mut res, 'k');
        }
        if rights.3 {
            push_char(&mut res, 'q');
        }
        if !rights.0 && !rights.1 && !rights.2 && !rights.3 {
            push_char(&mut res, '-');
        }
        let ghost part2 = part1 + seq![' '] + castle_chars(bv.rights);
        proof {
            assert(res@ == part2);
        }

        push_char(&mut res, ' ');
        match self.en_passant_square() {
            Some(tile) => {
                let c = tile.to_coord();
                push_char(&mut res, c.get_file_char());
                push_char(&mut res, c.get_rank_char());
            },
            None => {
                push_char(&mut res, '-');
            },
        }
        let ghost part3 = part2 + seq![' '] + ep_chars(g.ep);
        proof {
            assert(res@ == part3);
        }

        push_char(&mut res, ' ');
        push_dec(&mut res, self.fifty_move_counter());
        let ghost part4 = part3 + seq![' '] + dec_chars(g.fifty as int);
        proof {
            assert(res@ == part4);
        }

        push_char(&mut res, ' ');
        let full = self.get_full_move_count();
        push_dec(&mut res, full);

        proof {
            assert(res@ == part4 + seq![' '] + dec_chars(spec_full_move_count(g) as int));
            assert(res@ == fen_chars(g));
        }
        res
    }
}

/// The piece a FEN placement letter denotes, if any.
pub open spec fn teamed_piece_of(c: char) -> Option<TeamedChessPiece> {
    if c == 'r' {
        Some(TeamedChessPiece(ChessTeam::Black, ChessPiece::Rook))
    } else if c == 'n' {
        Some(TeamedChessPiece(ChessTeam::Black, ChessPiece::Knight))
    } else if c == 'b' {
        Some(TeamedChessPiece(ChessTeam::Black, ChessPiece::Bishop))
    } else if c == 'q' {
        Some(TeamedChessPiece(ChessTeam::Black, ChessPiece::Queen))
    } else if c == 'k' {
        Some(TeamedChessPiece(ChessTeam::Black, ChessPiece::King))
    } else if c == 'p' {
        Some(TeamedChessPiece(ChessTeam::Black, ChessPiece::Pawn))
    } else if c == 'R' {
        Some(TeamedChessPiece(ChessTeam::White, ChessPiece::Rook))
    } else if c == 'N' {
        Some(TeamedChessPiece(ChessTeam::White, ChessPiece::Knight))
    } else if c == 'B' {
        Some(TeamedChessPiece(ChessTeam::White, ChessPiece::Bishop))
    } else if c == 'Q' {
        Some(TeamedChessPiece(ChessTeam::White, ChessPiece::Queen))
    } else if c == 'K' {
        Some(TeamedChessPiece(ChessTeam::White, ChessPiece::King))
    } else if c == 'P' {
        Some(TeamedChessPiece(ChessTeam::White, ChessPiece::Pawn))
    } else {
        None
    }
}

/// All 64 squares empty.
pub open spec fn empty_squares() -> Seq<Option<TeamedChessPiece>> {
    Seq::new(64, |i: int| None::<TeamedChessPiece>)
}

/// Parses the FEN placement field from position `i` on, with the
/// current rank and file and the squares placed so far: a digit skips
/// files, `/` closes a rank of exactly eight files, a piece letter
/// places a piece, and unknown characters are passed over. Yields the
/// placed squares and the position where the field ends, or `None`
/// for a malformed field.
pub open spec fn parse_placement(
    s: Seq<char>,
    i: int,
    rank: int,
    file: int,
    sq: Seq<Option<TeamedChessPiece>>,
) -> Option<(Seq<Option<TeamedChessPiece>>, int)>
    decreases s.len() - i,
{
    if i >= s.len() || rank < 0 || s[i] == ' ' {
        if rank != 0 || file != 8 {
            None
        } else {
            Some((sq, i))
        }
    } else if s[i] == '/' {
        if file != 8 {
            None
        } else {
            parse_placement(s, i + 1, rank - 1, 0, sq)
        }
    } else if 49 <= s[i] as int <= 56 {
        if file + (s[i] as int - 48) > 8 {
            None
        } else {
            parse_placement(s, i + 1, rank, file + (s[i] as int - 48), sq)
        }
    } else {
        match teamed_piece_of(s[i]) {
            Some(p) => if on_board(file, rank) {
                parse_placement(s, i + 1, rank, file + 1, sq.update((7 - rank) * 8 + file, Some(p)))
            } else {
                None
            },
            None => parse_placement(s, i + 1, rank, file, sq),
        }
    }
}

/// Collects castling-right letters until the space that ends the
/// field; unknown letters are passed over. Yields the rights and the
/// position of the space.
pub open spec fn parse_castles(s: Seq<char>, i: int, r: (bool, bool, bool, bool)) -> Option<
    ((bool, bool, bool, bool), int),
>
    decreases s.len() - i,
{
    if i < 0 || i >= s.len() {
        None
    } else if s[i] == ' ' {
        Some((r, i))
    } else {
        let r2 = if s[i] == 'K' {
            (true, r.1, r.2, r.3)
        } else if s[i] == 'Q' {
            (r.0, true, r.2, r.3)
        } else if s[i] == 'k' {
            (r.0, r.1, true, r.3)
        } else if s[i] == 'q' {
            (r.0, r.1, r.2, true)
        } else {
            r
        };
        parse_castles(s, i + 1, r2)
    }
}

/// The file a letter `a`..`h` denotes.
pub open spec fn file_of(c: char) -> Option<int> {
    if c == 'a' {
        Some(0int)
    } else if c == 'b' {
        Some(1int)
    } else if c == 'c' {
        Some(2int)
    } else if c == 'd' {
        Some(3int)
    } else if c == 'e' {
        Some(4int)
    } else if c == 'f' {
        Some(5int)
    } else if c == 'g' {
        Some(6int)
    } else if c == 'h' {
        Some(7int)
    } else {
        None
    }
}

/// The character is a decimal digit.
pub open spec fn is_digit_char(c: char) -> bool {
    48 <= c as int <= 57
}

/// The value of a decimal digit character.
pub open spec fn digit_val(c: char) -> Option<int> {
    if 48 <= c as int <= 57 {
        Some(c as int - 48)
    } else {
        None
    }
}

/// The length of the run of decimal digits starting at `i`.
pub open spec fn digit_run(s: Seq<char>, i: int) -> int
    decreases s.len() - i,
{
    if i < 0 || i >= s.len() {
        0
    } else if 48 <= s[i] as int <= 57 {
        1 + digit_run(s, i + 1)
    } else {
        0
    }
}

/// The value of the `n` digits starting at `i`.
pub open spec fn num_val(s: Seq<char>, i: int, n: int) -> int
    decreases n,
{
    if n <= 0 {
        0
    } else {
        num_val(s, i, n - 1) * 10 + (s[i + n - 1] as int - 48)
    }
}

/// Parses the two numeric FEN fields (`i` names the space before the
/// first) and assembles the parsed game. The first number must be
/// followed by further text; either must be a digit run whose value
/// fits the counter.
pub open spec fn parse_counters(
    s: Seq<char>,
    i: int,
    sq: Seq<Option<TeamedChessPiece>>,
    turn: ChessTeam,
    rights: (bool, bool, bool, bool),
    ep: Option<Tile>,
) -> Option<GameStateView> {
    let i1 = i + 1;
    let n1 = digit_run(s, i1);
    if i1 + n1 >= s.len() {
        None
    } else if n1 == 0 {
        None
    } else if num_val(s, i1, n1) > 0xffff_ffff {
        None
    } else {
        let i2 = i1 + n1 + 1;
        let n2 = digit_run(s, i2);
        if n2 == 0 {
            None
        } else if num_val(s, i2, n2) > 0xffff_ffff {
            None
        } else {
            Some(
                GameStateView {
                    start: BoardView { squares: sq, turn, rights },
                    moves: Seq::empty(),
                    fifty: num_val(s, i1, n1) as u32,
                    start_count: num_val(s, i2, n2) as u32,
                    ep,
                },
            )
        }
    }
}

/// Parses the en-passant field at `i` (a square name or `-`) and the
/// numeric fields after it.
pub open spec fn parse_after_castles(
    s: Seq<char>,
    i: int,
    sq: Seq<Option<TeamedChessPiece>>,
    turn: ChessTeam,
    rights: (bool, bool, bool, bool),
) -> Option<GameStateView> {
    if i >= s.len() {
        None
    } else if s[i] == '-' {
        parse_counters(s, i + 1, sq, turn, rights, None)
    } else if i + 1 >= s.len() {
        None
    } else {
        match file_of(s[i]) {
            None => None,
            Some(fx) => match digit_val(s[i + 1]) {
                None => None,
                Some(d) => {
                    let ry = d - 1;
                    if !on_board(fx, ry) {
                        None
                    } else {
                        parse_counters(
                            s,
                            i + 2,
                            sq,
                            turn,
                            rights,
                            Some(crate::tile::tile_of_idx((7 - ry) * 8 + fx)),
                        )
                    }
                },
            },
        }
    }
}

/// Parses the side to move, the castling field, and everything after
/// them, `i` naming the position where the placement field ended.
pub open spec fn parse_after_placement(
    s: Seq<char>,
    i: int,
    sq: Seq<Option<TeamedChessPiece>>,
) -> Option<GameStateView> {
    let i1 = i + 1;
    if i1 >= s.len() {
        None
    } else {
        let turn = if s[i1] == 'b' {
            ChessTeam::Black
        } else {
            ChessTeam::White
        };
        let i2 = i1 + 2;
        if i2 >= s.len() {
            None
        } else if s[i2] != '-' {
            match parse_castles(s, i2, (false, false, false, false)) {
                None => None,
                Some((rights, i3)) => parse_after_castles(s, i3 + 1, sq, turn, rights),
            }
        } else {
            parse_after_castles(s, i2 + 2, sq, turn, (false, false, false, false))
        }
    }
}

/// What FEN text parses to: the game, or `None` for any structural
/// violation, with no partial result. Text longer than any plausible
/// FEN is rejected outright.
pub open spec fn spec_parse_fen(s: Seq<char>) -> Option<GameStateView> {
    if s.len() > 0x0fff_ffff {
        None
    } else {
        spec_parse_fen_fields(s)
    }
}

/// The six FEN fields in order: placement, then everything after it.
pub open spec fn spec_parse_fen_fields(s: Seq<char>) -> Option<GameStateView> {
    match parse_placement(s, 0, 7, 0, empty_squares()) {
        None => None,
        Some((sq, i)) => parse_after_placement(s, i, sq),
    }
}

/// The piece a FEN placement letter denotes, if any.
fn teamed_piece_at(c: char) -> (r: Option<TeamedChessPiece>)
    ensures
        r == teamed_piece_of(c),
{
    if c == 'r' {
        Some(TeamedChessPiece(ChessTeam::Black, ChessPiece::Rook))
    } else if c == 'n' {
        Some(TeamedChessPiece(ChessTeam::Black, ChessPiece::Knight))
    } else if c == 'b' {
        Some(TeamedChessPiece(ChessTeam::Black, ChessPiece::Bishop))
    } else if c == 'q' {
        Some(TeamedChessPiece(ChessTeam::Black, ChessPiece::Queen))
    } else if c == 'k' {
        Some(TeamedChessPiece(ChessTeam::Black, ChessPiece::King))
    } else if c == 'p' {
        Some(TeamedChessPiece(ChessTeam::Black, ChessPiece::Pawn))
    } else if c == 'R' {
        Some(TeamedChessPiece(ChessTeam::White, ChessPiece::Rook))
    } else if c == 'N' {
        Some(TeamedChessPiece(ChessTeam::White, ChessPiece::Knight))
    } else if c == 'B' {
        Some(TeamedChessPiece(ChessTeam::White, ChessPiece::Bishop))
    } else if c == 'Q' {
        Some(TeamedChessPiece(ChessTeam::White, ChessPiece::Queen))
    } else if c == 'K' {
        Some(TeamedChessPiece(ChessTeam::White, ChessPiece::King))
    } else if c == 'P' {
        Some(TeamedChessPiece(ChessTeam::White, ChessPiece::Pawn))
    } else {
        None
    }
}

/// Monotonicity of digit values: extending a digit run cannot shrink
/// the value.
proof fn lemma_num_val_grows(s: Seq<char>, i: int, k: int, m: int)
    requires
        0 <= k <= m,
        forall|j: int| i <= j < i + m ==> is_digit_char(#[trigger] s[j]),
    ensures
        num_val(s, i, k) <= num_val(s, i, m),
        num_val(s, i, k) >= 0,
    decreases m,
{
    if m > k {
        lemma_num_val_grows(s, i, k, m - 1);
        assert(num_val(s, i, m) == num_val(s, i, m - 1) * 10 + (s[i + m - 1] as int - 48));
    } else if k > 0 {
        lemma_num_val_grows(s, i, 0, k - 1);
    }
}

/// Reads the digit run starting at `i` as a `u32`; `None` when the
/// run is empty or its value does not fit. `until_end` demands that
/// the run end before the end of the text.
fn read_number(chars: &Vec<char>, i: usize, until_end: bool) -> (r: Option<(u32, usize)>)
    ensures
        ({
            let n = digit_run(chars@, i as int);
            match r {
                Some((v, nl)) => {
                    &&& nl == n
                    &&& n > 0
                    &&& num_val(chars@, i as int, n) == v as int
                    &&& (until_end ==> i + n < chars@.len())
                },
                None => {
                    ||| (until_end && i as int + n >= chars@.len())
                    ||| n == 0
                    ||| num_val(chars@, i as int, n) > 0xffff_ffff
                },
            }
        }),
{
    let ghost s = chars@;
    let n_chars = chars.len();
    if i >= n_chars {
        proof {
            assert(digit_run(s, i as int) == 0);
        }
        return None;
    }
    let mut num_len: usize = 0;
    #[verifier::loop_isolation(true)]
    loop
        invariant
            chars@ == s,
            i < n_chars,
            i + num_len <= n_chars,
            n_chars == s.len(),
            digit_run(s, i as int) == num_len + digit_run(s, i as int + num_len as int),
            forall|j: int| i <= j < i + num_len ==> is_digit_char(#[trigger] s[j]),
        ensures
            digit_run(s, i as int) == num_len,
            forall|j: int| i <= j < i + num_len ==> is_digit_char(#[trigger] s[j]),
            i + num_len < n_chars || !until_end,
            i + num_len <= n_chars,
        decreases n_chars - i - num_len,
    {
        if i + num_len >= n_chars {
            proof {
                assert(digit_run(s, i as int + num_len as int) == 0);
            }
            if until_end {
                return None;
            } else {
                break;
            }
        }
        let c = crate::strutil::char_code(chars[i + num_len]);
        if c >= 48 && c <= 57 {
            proof {
                assert(is_digit_char(s[i as int + num_len as int]));
                assert(digit_run(s, i as int + num_len as int) == 1 + digit_run(
                    s,
                    i as int + num_len as int + 1,
                ));
            }
            num_len += 1;
        } else {
            proof {
                assert(digit_run(s, i as int + num_len as int) == 0);
            }
            break;
        }
    }
    if num_len == 0 {
        return None;
    }
    let ghost n1 = num_len as int;
    let mut val: u32 = 0;
    let mut k: usize = 0;
    while k < num_len
        invariant
            k <= num_len,
            i + num_len <= n_chars,
            n_chars == s.len(),
            digit_run(s, i as int) == num_len,
            forall|j: int| i <= j < i + num_len ==> is_digit_char(#[trigger] s[j]),
            val as int == num_val(s, i as int, k as int),
        decreases num_len - k,
    {
        let d: u32 = crate::strutil::char_code(chars[i + k]) - 48;
        if val > (0xffff_ffffu32 - d) / 10 {
            proof {
                assert(num_val(s, i as int, k as int + 1) == val as int * 10 + d);
                lemma_num_val_grows(s, i as int, k as int + 1, num_len as int);
            }
            return None;
        }
        val = val * 10 + d;
        k += 1;
    }
    Some((val, num_len))
}

/// Parses the FEN placement field of the text into a board (side to
/// move and rights still unset), yielding the position where the
/// field ends.
#[verifier::rlimit(100)]
fn parse_placement_exec(chars: &Vec<char>) -> (r: Option<(Board, usize)>)
    requires
        chars@.len() <= 0x0fff_ffff,
    ensures
        (match r {
            Some(bi) => {
                &&& parse_placement(chars@, 0, 7, 0, empty_squares()) == Some(
                    (bi.0@.squares, bi.1 as int),
                )
                &&& bi.0.wf()
                &&& bi.0@.turn == ChessTeam::White
                &&& bi.1 <= chars@.len()
            },
            None => parse_placement(chars@, 0, 7, 0, empty_squares()) is None,
        }),
{
    let n = chars.len();
    let ghost s = chars@;
    let mut board = Board::new_empty(ChessTeam::White, (false, false, false, false));
    proof {
        assert(board@.squares =~= empty_squares());
    }

    let mut i: usize = 0;
    let mut rank: i32 = 7;
    let mut file: i32 = 0;

    #[verifier::loop_isolation(true)]
    loop
        invariant
            chars@ == s,
            i <= n,
            n == s.len(),
            n <= 0x0fff_ffff,
            0 <= file <= 8,
            rank <= 7,
            board.wf(),
            board@.turn == ChessTeam::White,
            parse_placement(s, i as int, rank as int, file as int, board@.squares)
                == parse_placement(s, 0, 7, 0, empty_squares()),
        ensures
            i <= n,
            board.wf(),
            board@.turn == ChessTeam::White,
            parse_placement(s, i as int, rank as int, file as int, board@.squares)
                == parse_placement(s, 0, 7, 0, empty_squares()),
            i >= n || rank < 0 || s[i as int] == ' ',
        decreases n - i,
    {
        if i >= n || rank < 0 {
            break;
        }
        let c = chars[i];
        if c == ' ' {
            break;
        }
        if c == '/' {
            if file != 8 {
                return None;
            }
            rank = rank - 1;
            file = 0;
        } else if (char_code(c)) >= 49 && (char_code(c)) <= 56 {
            let d: i32 = (char_code(c) - 48) as i32;
            if file + d > 8 {
                return None;
            }
            file = file + d;
        } else {
            match teamed_piece_at(c) {
                Some(p) => {
                    if !(0 <= file && file < 8 && 0 <= rank && rank < 8) {
                        return None;
                    }
                    let t = crate::tile::tile_from_index(((7 - rank) * 8 + file) as usize);
                    board.place_piece(t, p);
                    file = file + 1;
                },
                None => {},
            }
        }
        i += 1;
    }
    if rank != 0 || file != 8 {
        return None;
    }
    Some((board, i))
}

/// Collects the castling-right letters of the field starting at `i`,
/// yielding the rights and the position of the terminating space.
fn parse_castles_exec(chars: &Vec<char>, i: usize) -> (r: Option<((bool, bool, bool, bool), usize)>)
    requires
        i <= chars@.len(),
    ensures
        (match r {
            Some(ri) => {
                &&& parse_castles(chars@, i as int, (false, false, false, false)) == Some(
                    (ri.0, ri.1 as int),
                )
                &&& ri.1 < chars@.len()
            },
            None => parse_castles(chars@, i as int, (false, false, false, false)) is None,
        }),
{
    let n = chars.len();
    let ghost s = chars@;
    let ghost i0 = i as int;
    let mut j = i;
    let mut castling_rights = (false, false, false, false);
    #[verifier::loop_isolation(true)]
    loop
        invariant
            chars@ == s,
            i0 == i as int,
            j <= n,
            n == s.len(),
            parse_castles(s, j as int, castling_rights) == parse_castles(
                s,
                i0,
                (false, false, false, false),
            ),
        ensures
            j < n,
            s[j as int] == ' ',
            parse_castles(s, i0, (false, false, false, false)) == Some(
                (castling_rights, j as int),
            ),
        decreases n - j,
    {
        if j >= n {
            proof {
                assert(parse_castles(s, j as int, castling_rights) is None);
            }
            return None;
        }
        let c = chars[j];
        if c == ' ' {
            break;
        }
        let cr = castling_rights;
        if c == 'K' {
            castling_rights = (true, cr.1, cr.2, cr.3);
        } else if c == 'Q' {
            castling_rights = (cr.0, true, cr.2, cr.3);
        } else if c == 'k' {
            castling_rights = (cr.0, cr.1, true, cr.3);
        } else if c == 'q' {
            castling_rights = (cr.0, cr.1, cr.2, true);
        }
        j += 1;
    }
    Some((castling_rights, j))
}

/// Parses six-field FEN text into a fresh game: exactly
/// [`spec_parse_fen`] of the text, with no partial result on failure.
#[verifier::rlimit(100)]
pub fn parse_fen(fen: String) -> (r: Option<GameState>)
    ensures
        (match r {
            Some(g) => spec_parse_fen(fen@) == Some(g@) && g.wf(),
            None => spec_parse_fen(fen@) is None,
        }),
{
    let chars: Vec<char> = crate::strutil::chars_of(fen.as_str());
    let n = chars.len();
    let ghost s = chars@;
    if n > 0x0fff_ffffusize {
        return None;
    }

    let (mut board, placement_end) = match parse_placement_exec(&chars) {
        Some(bi) => bi,
        None => {
            return None;
        },
    };
    let ghost sq = board@.squares;
    let mut i = placement_end;
    proof {
        assert(spec_parse_fen(s) == parse_after_placement(s, i as int, sq));
    }

    // side to move
    if i >= n {
        return None;
    }
    i += 1;
    if i >= n {
        return None;
    }
    let active_color = chars[i];
    let whose_turn: ChessTeam = if active_color == 'b' {
        ChessTeam::Black
    } else {
        ChessTeam::White
    };

    // castling rights
    i += 2;
    if i >= n {
        return None;
    }
    let castling_rights: (bool, bool, bool, bool);
    if chars[i] != '-' {
        match parse_castles_exec(&chars, i) {
            Some(ri) => {
                castling_rights = ri.0;
                i = ri.1 + 1;
            },
            None => {
                return None;
            },
        }
    } else {
        castling_rights = (false, false, false, false);
        i += 2;
    }

    // en-passant square
    let en_passant_square: Option<Tile>;
    if i >= n {
        return None;
    }
    if chars[i] == '-' {
        en_passant_square = None;
        i += 1;
    } else {
        if i + 1 >= n {
            return None;
        }
        let tile_file: i32 = match chars[i] {
            'a' => 0,
            'b' => 1,
            'c' => 2,
            'd' => 3,
            'e' => 4,
            'f' => 5,
            'g' => 6,
            'h' => 7,
            _ => {
                return None;
            },
        };
        let rc = crate::strutil::char_code(chars[i + 1]);
        if !(48 <= rc && rc <= 57) {
            return None;
        }
        let tile_rank: i32 = (rc as i32) - 48 - 1;
        if !(0 <= tile_rank && tile_rank < 8) {
            return None;
        }
        let t = crate::tile::tile_from_index(((7 - tile_rank) * 8 + tile_file) as usize);
        proof {
            crate::tile::lemma_tile_of_idx(t);
        }
        en_passant_square = Some(t);
        i += 2;
    }

    // half-move clock, then full-move number
    let (fifty_move_counter, len1) = match read_number(&chars, i + 1, true) {
        Some(v) => v,
        None => {
            return None;
        },
    };
    let (full_move_counter, _len2) = match read_number(&chars, i + 1 + len1 + 1, false) {
        Some(v) => v,
        None => {
            return None;
        },
    };

    board.set_turn(whose_turn);
    board.set_castling_rights(castling_rights);
    let g = GameState::from_parts(board, fifty_move_counter, full_move_counter, en_passant_square);
    Some(g)
}

/// The piece placement of the promotion test position.
pub open spec fn promotion_fixture_squares() -> Seq<Option<TeamedChessPiece>> {
    empty_squares().update(
        tile_idx(Tile::A1),
        Some(TeamedChessPiece(ChessTeam::White, ChessPiece::King)),
    ).update(tile_idx(Tile::A8), Some(TeamedChessPiece(ChessTeam::Black, ChessPiece::King))).update(
        tile_idx(Tile::D7),
        Some(TeamedChessPiece(ChessTeam::White, ChessPiece::Pawn)),
    ).update(tile_idx(Tile::E7), Some(TeamedChessPiece(ChessTeam::White, ChessPiece::Pawn))).update(
        tile_idx(Tile::D2),
        Some(TeamedChessPiece(ChessTeam::Black, ChessPiece::Pawn)),
    ).update(tile_idx(Tile::E2), Some(TeamedChessPiece(ChessTeam::Black, ChessPiece::Pawn))).update(
        tile_idx(Tile::H3),
        Some(TeamedChessPiece(ChessTeam::White, ChessPiece::Pawn)),
    ).update(tile_idx(Tile::F8), Some(TeamedChessPiece(ChessTeam::Black, ChessPiece::Rook))).update(
        tile_idx(Tile::G4),
        Some(TeamedChessPiece(ChessTeam::Black, ChessPiece::Pawn)),
    ).update(tile_idx(Tile::C4), Some(TeamedChessPiece(ChessTeam::Black, ChessPiece::Pawn))).update(
        tile_idx(Tile::B2),
        Some(TeamedChessPiece(ChessTeam::White, ChessPiece::Pawn)),
    )
}

/// The game state of the promotion test position: White to move, no
/// castling rights, fresh counters.
pub open spec fn promotion_fixture() -> GameStateView {
    GameStateView {
        start: BoardView {
            squares: promotion_fixture_squares(),
            turn: ChessTeam::White,
            rights: (false, false, false, false),
        },
        moves: Seq::empty(),
        fifty: 0,
        start_count: 1,
        ep: None,
    }
}

/// A named test position: a fixed promotion exercise, or a notation
/// exercise given by FEN. Any other name yields `None`.
pub fn get_test(test: String) -> (r: Option<GameState>)
    ensures
        (match r {
            Some(g) => {
                &&& g.wf()
                &&& ((test@ == "promotion-test"@ && g@ == promotion_fixture()) || (test@
                    == "notation-test"@ && Some(g@) == spec_parse_fen(
                    "3r3r/1K1k4/8/R7/4Q2Q/8/8/R6Q w - - 0 54"@,
                )))
            },
            None => {
                &&& test@ != "promotion-test"@
                &&& (test@ != "notation-test"@ || spec_parse_fen(
                    "3r3r/1K1k4/8/R7/4Q2Q/8/8/R6Q w - - 0 54"@,
                ) is None)
            },
        }),
{
    if test == String::from_str("promotion-test") {
        let mut board = Board::new_empty(ChessTeam::White, (false, false, false, false));
        proof {
            assert(board@.squares =~= empty_squares());
        }
        board.place_piece(Tile::A1, TeamedChessPiece(ChessTeam::White, ChessPiece::King));
        board.place_piece(Tile::A8, TeamedChessPiece(ChessTeam::Black, ChessPiece::King));
        board.place_piece(Tile::D7, TeamedChessPiece(ChessTeam::White, ChessPiece::Pawn));
        board.place_piece(Tile::E7, TeamedChessPiece(ChessTeam::White, ChessPiece::Pawn));
        board.place_piece(Tile::D2, TeamedChessPiece(ChessTeam::Black, ChessPiece::Pawn));
        board.place_piece(Tile::E2, TeamedChessPiece(ChessTeam::Black, ChessPiece::Pawn));
        board.place_piece(Tile::H3, TeamedChessPiece(ChessTeam::White, ChessPiece::Pawn));
        board.place_piece(Tile::F8, TeamedChessPiece(ChessTeam::Black, ChessPiece::Rook));
        board.place_piece(Tile::G4, TeamedChessPiece(ChessTeam::Black, ChessPiece::Pawn));
        board.place_piece(Tile::C4, TeamedChessPiece(ChessTeam::Black, ChessPiece::Pawn));
        board.place_piece(Tile::B2, TeamedChessPiece(ChessTeam::White, ChessPiece::Pawn));
        return Some(GameState::from_parts(board, 0, 1, None));
    }
    if test == String::from_str("notation-test") {
        return parse_fen(String::from_str("3r3r/1K1k4/8/R7/4Q2Q/8/8/R6Q w - - 0 54"));
    }
    None
}

} // verus!
