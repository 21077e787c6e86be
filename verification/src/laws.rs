//! The engine's general laws, stated and proved over the same spec
//! functions its contracts use.
use vstd::prelude::*;

use crate::board::{BoardView, spec_apply};
use crate::coord::{abs, sgn, line_mag, on_board};
use crate::fen::{castle_chars, turn_char, dec_chars, dec_digit, digit_run, digit_val, file_of, is_digit_char, num_val, parse_castles};
use crate::coord::{file_char, rank_char};
use crate::game::move_outcome;
use crate::legality::{piece_move_ok, in_check, ep_at, is_ep_capture};
use crate::piece::{ChessPiece, ChessTeam, TeamedChessPiece, Move, MoveError, spec_ep_square};
use crate::tile::{Tile, tile_x, tile_y};

verus! {

/// Turn alternation: applying any move, of any kind, flips the side
/// to move. Together with `perform_move`'s contract -- which leaves a
/// game unchanged on every rejected move -- the side to move flips
/// after every successful move and never after a failed attempt.
pub proof fn lemma_apply_flips_turn(bv: BoardView, m: Move)
    ensures
        spec_apply(bv, m).0.turn == bv.turn.spec_other(),
{
}

/// Path blocking: a rook, bishop or queen move is illegal whenever
/// any square strictly between origin and destination is occupied,
/// whichever side occupies it.
pub proof fn lemma_blocked_path_illegal(
    piece: TeamedChessPiece,
    fx: int,
    fy: int,
    tx: int,
    ty: int,
    i: int,
    ep: Option<Tile>,
    bv: BoardView,
)
    requires
        piece.1 == ChessPiece::Rook || piece.1 == ChessPiece::Bishop || piece.1
            == ChessPiece::Queen,
        line_mag(tx - fx, ty - fy) is Some,
        1 <= i < line_mag(tx - fx, ty - fy)->Some_0,
        bv.at(fx + i * sgn(tx - fx), fy + i * sgn(ty - fy)) is Some,
    ensures
        !piece_move_ok(piece, fx, fy, tx, ty, ep, bv),
{
    assert(!bv.empty_at_step(fx, fy, tx, ty, i));
}

/// Path blocking, the permissive side: with an empty path, a rook,
/// bishop or queen move of the right geometry is legal exactly onto
/// an empty or enemy-occupied destination.
pub proof fn lemma_clear_path_legal(
    piece: TeamedChessPiece,
    fx: int,
    fy: int,
    tx: int,
    ty: int,
    ep: Option<Tile>,
    bv: BoardView,
)
    requires
        piece.1 == ChessPiece::Rook || piece.1 == ChessPiece::Bishop || piece.1
            == ChessPiece::Queen,
        line_mag(tx - fx, ty - fy) is Some,
        piece.1 == ChessPiece::Rook ==> (tx - fx == 0 || ty - fy == 0),
        piece.1 == ChessPiece::Bishop ==> abs(tx - fx) == abs(ty - fy),
        forall|i: int|
            1 <= i < line_mag(tx - fx, ty - fy)->Some_0 ==> #[trigger] bv.empty_at_step(
                fx,
                fy,
                tx,
                ty,
                i,
            ),
    ensures
        piece_move_ok(piece, fx, fy, tx, ty, ep, bv) <==> !bv.friendly_at(piece.0, tx, ty),
{
}

/// Path blocking, the friendly-destination side: a rook, bishop or
/// queen may never land on a square its own side occupies.
pub proof fn lemma_friendly_destination_illegal(
    piece: TeamedChessPiece,
    fx: int,
    fy: int,
    tx: int,
    ty: int,
    ep: Option<Tile>,
    bv: BoardView,
)
    requires
        piece.1 == ChessPiece::Rook || piece.1 == ChessPiece::Bishop || piece.1
            == ChessPiece::Queen,
        bv.friendly_at(piece.0, tx, ty),
    ensures
        !piece_move_ok(piece, fx, fy, tx, ty, ep, bv),
{
}

/// The en-passant window, legality side: a one-square diagonal pawn
/// move onto an empty square is legal exactly when the current
/// en-passant context names that square (and the pawn advances the
/// right way).
pub proof fn lemma_ep_window_legality(
    piece: TeamedChessPiece,
    fx: int,
    fy: int,
    tx: int,
    ty: int,
    ep: Option<Tile>,
    bv: BoardView,
)
    requires
        piece.1 == ChessPiece::Pawn,
        abs(tx - fx) == 1,
        bv.at(tx, ty) is None,
    ensures
        piece_move_ok(piece, fx, fy, tx, ty, ep, bv) <==> (ty - fy == piece.0.pawn_dir() && ep_at(
            ep,
            tx,
            ty,
        )),
        piece_move_ok(piece, fx, fy, tx, ty, ep, bv) <==> is_ep_capture(
            piece,
            fx,
            fy,
            tx,
            ty,
            ep,
            bv,
        ),
{
}

/// The en-passant window, duration side: the context a recorded move
/// opens names a square exactly when that move was a two-square pawn
/// advance; every other move clears it. Since `perform_move` installs
/// exactly this context for the next ply, the window lasts one ply.
pub proof fn lemma_ep_window_one_ply(m: Move)
    ensures
        spec_ep_square(m) is Some <==> (match m {
            Move::PieceMove { piece, tile_from, tile_to, .. } => piece == ChessPiece::Pawn && ((
            tile_y(tile_from) == 1 && tile_y(tile_to) == 3) || (tile_y(tile_from) == 6 && tile_y(
                tile_to,
            ) == 4)),
            _ => false,
        }),
{
}

/// Self-check rejection: a piece move that passes the emptiness,
/// ownership, geometry and promotion checks is still rejected with
/// `InCheck` exactly when simulating the corrected move leaves the
/// mover's own king attacked.
pub proof fn lemma_self_check_rejection(
    bv: BoardView,
    ep: Option<Tile>,
    piece_type: ChessPiece,
    tile_from: Tile,
    tile_to: Tile,
    flag: bool,
)
    requires
        bv.at_tile(tile_from) is Some,
        bv.at_tile(tile_from)->Some_0.0 == bv.turn,
        piece_move_ok(
            bv.at_tile(tile_from)->Some_0,
            tile_x(tile_from),
            tile_y(tile_from),
            tile_x(tile_to),
            tile_y(tile_to),
            ep,
            bv,
        ),
        !(piece_type == ChessPiece::Pawn && tile_y(tile_to) == bv.turn.back_rank()),
    ensures
        ({
            let m = Move::PieceMove { piece: piece_type, tile_from, tile_to, is_en_passant: flag };
            let cm = Move::PieceMove {
                piece: piece_type,
                tile_from,
                tile_to,
                is_en_passant: is_ep_capture(
                    bv.at_tile(tile_from)->Some_0,
                    tile_x(tile_from),
                    tile_y(tile_from),
                    tile_x(tile_to),
                    tile_y(tile_to),
                    ep,
                    bv,
                ),
            };
            &&& (move_outcome(bv, ep, m) == Err::<Move, MoveError>(MoveError::InCheck) <==>
                in_check(spec_apply(bv, cm).0, bv.turn, spec_ep_square(cm)))
            &&& (move_outcome(bv, ep, m) is Ok ==> !in_check(
                spec_apply(bv, cm).0,
                bv.turn,
                spec_ep_square(cm),
            ))
        }),
{
}

/// Every accepted move is king-safe: whatever the variant, when
/// validation succeeds, simulating the recorded move does not leave
/// the mover's own king attacked.
pub proof fn lemma_accepted_move_is_king_safe(bv: BoardView, ep: Option<Tile>, m: Move)
    ensures
        (match move_outcome(bv, ep, m) {
            Ok(cm) => !in_check(spec_apply(bv, cm).0, bv.turn, spec_ep_square(cm)),
            Err(_) => true,
        }),
{
}

/// `num_val` reads only the characters it covers.
proof fn lemma_num_val_frame(s1: Seq<char>, s2: Seq<char>, i: int, n: int)
    requires
        forall|j: int| i <= j < i + n ==> s1[j] == #[trigger] s2[j],
    ensures
        num_val(s1, i, n) == num_val(s2, i, n),
    decreases n,
{
    if n > 0 {
        lemma_num_val_frame(s1, s2, i, n - 1);
    }
}

/// A run of digit characters is read as a run of exactly its length.
proof fn lemma_digit_run_full(s: Seq<char>, i: int)
    requires
        0 <= i <= s.len(),
        forall|j: int| i <= j < s.len() ==> is_digit_char(#[trigger] s[j]),
    ensures
        digit_run(s, i) == s.len() - i,
    decreases s.len() - i,
{
    if i < s.len() {
        lemma_digit_run_full(s, i + 1);
    }
}

/// The decimal text of a counter is made of digits.
proof fn lemma_dec_chars_digits(n: int)
    requires
        n >= 0,
    ensures
        forall|j: int|
            0 <= j < dec_chars(n).len() ==> is_digit_char(#[trigger] dec_chars(n)[j]),
        dec_chars(n).len() >= 1,
    decreases n,
{
    if n >= 10 {
        lemma_dec_chars_digits(n / 10);
        assert forall|j: int| 0 <= j < dec_chars(n).len() implies is_digit_char(
            #[trigger] dec_chars(n)[j],
        ) by {
            if j < dec_chars(n / 10).len() {
                assert(dec_chars(n)[j] == dec_chars(n / 10)[j]);
            } else {
                assert(dec_chars(n)[j] == dec_digit(n % 10));
            }
        }
    }
}

/// Round trip of the numeric FEN fields: the decimal text that
/// serialization writes for a counter is one unbroken digit run, and
/// parsing that run yields the counter back unchanged. (This is the
/// half-move and full-move part of the FEN round-trip property.)
pub proof fn lemma_dec_chars_round_trip(n: u32)
    ensures
        digit_run(dec_chars(n as int), 0) == dec_chars(n as int).len(),
        num_val(dec_chars(n as int), 0, dec_chars(n as int).len() as int) == n,
{
    lemma_dec_chars_digits(n as int);
    lemma_digit_run_full(dec_chars(n as int), 0);
    lemma_dec_num_val(n as int);
}

/// Parsing the decimal text of a number yields the number.
proof fn lemma_dec_num_val(n: int)
    requires
        n >= 0,
    ensures
        num_val(dec_chars(n), 0, dec_chars(n).len() as int) == n,
    decreases n,
{
    let s = dec_chars(n);
    if n < 10 {
        assert(num_val(s, 0, 0) == 0);
        assert(num_val(s, 0, 1) == s[0] as int - 48);
    } else {
        lemma_dec_num_val(n / 10);
        let prefix = dec_chars(n / 10);
        let len = s.len() as int;
        assert(s[len - 1] == dec_digit(n % 10));
        assert(num_val(s, 0, len) == num_val(s, 0, len - 1) * 10 + (s[len - 1] as int - 48));
        lemma_num_val_frame(s, prefix, 0, len - 1);
        assert(dec_digit(n % 10) as int - 48 == n % 10);
    }
}

/// Round trip of the castling field: the letters that serialization
/// writes for a non-empty set of rights read back as the same four
/// flags, ending at the space that follows them. (This is the
/// castling part of the FEN round-trip property.)
pub proof fn lemma_castle_field_round_trip(r: (bool, bool, bool, bool))
    requires
        r != (false, false, false, false),
    ensures
        parse_castles(castle_chars(r) + seq![' '], 0, (false, false, false, false)) == Some(
            (r, castle_chars(r).len() as int),
        ),
{
    let s = castle_chars(r) + seq![' '];
    reveal_with_fuel(parse_castles, 8);
    if r.0 {
        if r.1 {
            if r.2 {
                if r.3 {
                    assert(s =~= seq!['K', 'Q', 'k', 'q', ' ']);
                } else {
                    assert(s =~= seq!['K', 'Q', 'k', ' ']);
                }
            } else {
                if r.3 {
                    assert(s =~= seq!['K', 'Q', 'q', ' ']);
                } else {
                    assert(s =~= seq!['K', 'Q', ' ']);
                }
            }
        } else {
            if r.2 {
                if r.3 {
                    assert(s =~= seq!['K', 'k', 'q', ' ']);
                } else {
                    assert(s =~= seq!['K', 'k', ' ']);
                }
            } else {
                if r.3 {
                    assert(s =~= seq!['K', 'q', ' ']);
                } else {
                    assert(s =~= seq!['K', ' ']);
                }
            }
        }
    } else if r.1 {
        if r.2 {
            if r.3 {
                assert(s =~= seq!['Q', 'k', 'q', ' ']);
            } else {
                assert(s =~= seq!['Q', 'k', ' ']);
            }
        } else {
            if r.3 {
                assert(s =~= seq!['Q', 'q', ' ']);
            } else {
                assert(s =~= seq!['Q', ' ']);
            }
        }
    } else if r.2 {
        if r.3 {
            assert(s =~= seq!['k', 'q', ' ']);
        } else {
            assert(s =~= seq!['k', ' ']);
        }
    } else {
        assert(s =~= seq!['q', ' ']);
    }
}

/// Round trip of the side-to-move field: the letter serialization
/// writes reads back as the same side. (This is the side-to-move part
/// of the FEN round-trip property.)
pub proof fn lemma_turn_char_round_trip(t: ChessTeam)
    ensures
        (if turn_char(t) == 'b' {
            ChessTeam::Black
        } else {
            ChessTeam::White
        }) == t,
{
}

/// Round trip of square names: the letters that serialization writes
/// for a file and a rank read back as the same file and rank. (This
/// is the en-passant-square part of the FEN round-trip property.)
pub proof fn lemma_square_name_round_trip(x: int, y: int)
    requires
        on_board(x, y),
    ensures
        file_of(file_char(x)) == Some(x),
        digit_val(rank_char(y)) == Some(y + 1),
{
}

} // verus!
