//! The notation tokenizer: reads an abbreviated algebraic move string
//! into one or more candidate parses. The grammar is locally
//! ambiguous (a lowercase piece letter can also name a pawn file), so
//! more than one candidate may come back; board context resolves them.
use vstd::prelude::*;

use crate::strutil::char_code;

verus! {

/// The essential shape of a candidate parse: a piece move with its
/// optional disambiguation, destination and promotion letters (`'-'`
/// where unspecified), or a castle marker.
#[derive(PartialEq, Eq, Debug)]
pub enum MovePrimary {
    PieceMove { piece: (char, char, char), destination: (char, char), promotion: char },
    CastleShort,
    CastleLong,
}

/// One candidate parse: its essential shape plus the advisory flags
/// written in the text. The engine re-derives check and checkmate
/// itself; these only echo the input.
#[derive(PartialEq, Eq, Debug)]
pub struct Move {
    pub primary: MovePrimary,
    pub check: bool,
    pub checkmate: bool,
    pub en_passant: bool,
    pub captures: bool,
}

/// The character names a file (`'a'`..`'h'`).
pub open spec fn is_file_c(c: char) -> bool {
    97 <= c as int <= 104
}

/// The character names a rank (`'1'`..`'8'`).
pub open spec fn is_rank_c(c: char) -> bool {
    49 <= c as int <= 56
}

/// The character names a non-pawn piece, in either case.
pub open spec fn is_piece_c(c: char) -> bool {
    c == 'r' || c == 'n' || c == 'b' || c == 'k' || c == 'q' || c == 'R' || c == 'N' || c == 'B'
        || c == 'K' || c == 'Q'
}

/// A destination tile (file letter then rank digit) stands at `i`.
pub open spec fn dest_at(s: Seq<char>, i: int) -> bool {
    0 <= i && i + 1 < s.len() && is_file_c(s[i]) && is_rank_c(s[i + 1])
}

/// A destination tile stands at or after `i`.
pub open spec fn tile_ahead(s: Seq<char>, i: int) -> bool {
    exists|k: int| i <= k && dest_at(s, k)
}

/// The castle marker at the start of the text, with its length:
/// `o-o-o`/`O-O-O` for the long castle, else `o-o`/`O-O` for the
/// short one.
pub open spec fn spec_castle(s: Seq<char>) -> Option<(MovePrimary, int)> {
    if s.len() >= 3 && ((s[0] == 'o' && s[1] == '-' && s[2] == 'o') || (s[0] == 'O' && s[1] == '-'
        && s[2] == 'O')) {
        if s.len() >= 5 && ((s[0] == 'o' && s[1] == '-' && s[2] == 'o' && s[3] == '-' && s[4]
            == 'o') || (s[0] == 'O' && s[1] == '-' && s[2] == 'O' && s[3] == '-' && s[4] == 'O')) {
            Some((MovePrimary::CastleLong, 5))
        } else {
            Some((MovePrimary::CastleShort, 3))
        }
    } else {
        None
    }
}

/// The check (`+`) or checkmate (`#`) marker at `i`: `Some((true, j))`
/// for checkmate, `Some((false, j))` for check.
pub open spec fn cm_at(s: Seq<char>, i: int) -> Option<(bool, int)> {
    if 0 <= i < s.len() && s[i] == '#' {
        Some((true, i + 1))
    } else if 0 <= i < s.len() && s[i] == '+' {
        Some((false, i + 1))
    } else {
        None
    }
}

/// The promotion suffix at `i`: an optional `=` and a piece letter.
pub open spec fn spec_promo(s: Seq<char>, i: int) -> Option<(char, int)> {
    if i < 0 || i >= s.len() {
        None
    } else if s[i] == '=' {
        if i + 1 >= s.len() {
            None
        } else if is_piece_c(s[i + 1]) {
            Some((s[i + 1], i + 2))
        } else {
            None
        }
    } else if is_piece_c(s[i]) {
        Some((s[i], i + 1))
    } else {
        None
    }
}

/// The `e.p.` marker at `i`, yielding the position after it.
pub open spec fn spec_ep(s: Seq<char>, i: int) -> Option<int> {
    if 0 <= i && i + 3 < s.len() && s[i] == 'e' && s[i + 1] == '.' && s[i + 2] == 'p' && s[i + 3]
        == '.' {
        Some(i + 4)
    } else {
        None
    }
}

/// The pawn-capture shape from the start of the text: origin file,
/// optional `x`, destination file, optional destination rank -- and
/// no full tile further ahead, which would make the text a piece move
/// instead. Yields origin file, the capture flag, the destination
/// letters and the end position.
pub open spec fn spec_pawn_capture(s: Seq<char>) -> Option<(char, bool, char, char, int)> {
    if s.len() == 0 || !is_file_c(s[0]) {
        None
    } else if 1 >= s.len() {
        None
    } else {
        let caps = s[1] == 'x';
        let j2: int = if caps {
            2
        } else {
            1
        };
        if j2 >= s.len() {
            None
        } else if is_file_c(s[j2]) {
            let j3 = j2 + 1;
            let has_rank = j3 < s.len() && is_rank_c(s[j3]);
            let rank: char = if has_rank {
                s[j3]
            } else {
                '-'
            };
            let j4: int = if has_rank {
                j3 + 1
            } else {
                j3
            };
            if tile_ahead(s, j4) {
                None
            } else {
                Some((s[0], caps, s[j2], rank, j4))
            }
        } else {
            None
        }
    }
}

/// The pawn-capture candidate, with its promotion, en-passant and
/// check suffixes.
pub open spec fn spec_pawn_move(s: Seq<char>) -> Option<Move> {
    match spec_pawn_capture(s) {
        None => None,
        Some((f0, caps, df, dr, j)) => Some(finish_move(s, ('-', f0, '-'), (df, dr), j, caps)),
    }
}

/// The piece head of the general shape at `i`: the piece letter with
/// its optional disambiguating file and rank, resolved by looking for
/// a destination tile further ahead. Yields the letters and the
/// position after what was consumed.
pub open spec fn spec_piece(s: Seq<char>, i: int) -> Option<((char, char, char), int)> {
    if i < 0 || i >= s.len() || !is_piece_c(s[i]) {
        None
    } else {
        let name = s[i];
        if i + 1 >= s.len() {
            None
        } else {
            let a = s[i + 1];
            if is_rank_c(a) {
                if tile_ahead(s, i + 2) {
                    Some(((name, '-', a), i + 2))
                } else {
                    None
                }
            } else if is_file_c(a) {
                if i + 2 >= s.len() {
                    None
                } else {
                    let aa = s[i + 2];
                    if is_rank_c(aa) {
                        if tile_ahead(s, i + 3) {
                            Some(((name, a, aa), i + 3))
                        } else {
                            Some(((name, '-', '-'), i + 1))
                        }
                    } else {
                        Some(((name, a, '-'), i + 2))
                    }
                }
            } else {
                Some(((name, '-', '-'), i + 1))
            }
        }
    }
}

/// The general piece-move candidate: an optional piece head, an
/// optional `x`, a destination tile, and the usual suffixes.
pub open spec fn spec_general(s: Seq<char>) -> Option<Move> {
    let head = spec_piece(s, 0);
    let piece: (char, char, char) = match head {
        Some(h) => h.0,
        None => ('-', '-', '-'),
    };
    let i1: int = match head {
        Some(h) => h.1,
        None => 0,
    };
    let caps = 0 <= i1 < s.len() && s[i1] == 'x';
    let i2: int = if caps {
        i1 + 1
    } else {
        i1
    };
    if dest_at(s, i2) {
        Some(finish_move(s, piece, (s[i2], s[i2 + 1]), i2 + 2, caps))
    } else {
        None
    }
}

/// Attaches the promotion, en-passant and check suffixes at `j` to a
/// piece-move candidate.
pub open spec fn finish_move(
    s: Seq<char>,
    piece: (char, char, char),
    destination: (char, char),
    j: int,
    caps: bool,
) -> Move {
    let promo_r = spec_promo(s, j);
    let promotion: char = match promo_r {
        Some(p) => p.0,
        None => '-',
    };
    let j5: int = match promo_r {
        Some(p) => p.1,
        None => j,
    };
    let ep_r = spec_ep(s, j5);
    let en_passant = ep_r is Some;
    let j6: int = match ep_r {
        Some(k) => k,
        None => j5,
    };
    let cm = cm_at(s, j6);
    Move {
        primary: MovePrimary::PieceMove { piece, destination, promotion },
        check: cm == Some((false, j6 + 1)),
        checkmate: cm == Some((true, j6 + 1)),
        en_passant,
        captures: caps,
    }
}

/// Every candidate parse of the text, in the order they are tried:
/// the castle shape alone; or the pawn-capture shape and, when its
/// first letter could also name a piece, the general shape as well;
/// or the general shape alone. Text that matches no shape yields no
/// candidate, and so does text longer than any plausible move.
pub open spec fn spec_parse(s: Seq<char>) -> Seq<Move> {
    if s.len() > 0x0fff_ffff {
        Seq::empty()
    } else {
        spec_parse_shapes(s)
    }
}

/// The candidate parses of the text, shape by shape.
pub open spec fn spec_parse_shapes(s: Seq<char>) -> Seq<Move> {
    match spec_castle(s) {
        Some((primary, j)) => {
            let cm = cm_at(s, j);
            seq![
                Move {
                    primary,
                    check: cm == Some((false, j + 1)),
                    checkmate: cm == Some((true, j + 1)),
                    en_passant: false,
                    captures: false,
                },
            ]
        },
        None => match spec_pawn_move(s) {
            Some(m1) => {
                if is_piece_c(s[0]) {
                    match spec_general(s) {
                        Some(m2) => seq![m1, m2],
                        None => seq![m1],
                    }
                } else {
                    seq![m1]
                }
            },
            None => match spec_general(s) {
                Some(m2) => seq![m2],
                None => Seq::empty(),
            },
        },
    }
}

/// The character names a file.
fn is_file(c: char) -> (r: bool)
    ensures
        r == is_file_c(c),
{
    let u = char_code(c);
    97 <= u && u <= 104
}

/// The character names a rank.
fn is_rank(c: char) -> (r: bool)
    ensures
        r == is_rank_c(c),
{
    let u = char_code(c);
    49 <= u && u <= 56
}

/// The character names a non-pawn piece.
fn is_chess_piece(c: char) -> (r: bool)
    ensures
        r == is_piece_c(c),
{
    c == 'r' || c == 'n' || c == 'b' || c == 'k' || c == 'q' || c == 'R' || c == 'N' || c == 'B'
        || c == 'K' || c == 'Q'
}

/// The character at `i`, when `i` is within the text.
fn safe_index(v: &Vec<char>, i: usize) -> (r: Option<char>)
    ensures
        (match r {
            Some(c) => i < v@.len() && c == v@[i as int],
            None => i >= v@.len(),
        }),
{
    if i >= v.len() {
        None
    } else {
        Some(v[i])
    }
}

/// A destination tile stands exactly at `i`.
fn dest_here(input: &Vec<char>, i: usize) -> (r: bool)
    ensures
        r == dest_at(input@, i as int),
{
    if i < input.len() && i + 1 < input.len() {
        is_file(input[i]) && is_rank(input[i + 1])
    } else {
        false
    }
}

/// A destination tile stands at or after `index`.
fn is_there_tile_ahead(input: &Vec<char>, index: usize) -> (r: bool)
    ensures
        r == tile_ahead(input@, index as int),
{
    let mut i = index;
    while i < input.len()
        invariant
            index <= i,
            forall|k: int| index <= k < i ==> !dest_at(input@, k),
        decreases input@.len() - i,
    {
        if dest_here(input, i) {
            return true;
        }
        i += 1;
    }
    proof {
        assert forall|k: int| index <= k implies !dest_at(input@, k) by {
            if k < i {
            } else {
                assert(k + 1 >= input@.len());
            }
        }
    }
    false
}

/// Parses the text into its candidate moves: exactly [`spec_parse`]
/// of the characters. The result is `Ok` even when no shape matched;
/// the resolver reports `CantParse` for an empty candidate list.
pub fn parse(input: Vec<char>) -> (r: Result<Vec<Move>, ()>)
    ensures
        r is Ok,
        r->Ok_0@ == spec_parse(input@),
{
    let ghost s = input@;
    let mut results: Vec<Move> = Vec::new();
    if input.len() > 0x0fff_ffffusize {
        return Ok(results);
    }

    match parse_castle(&input) {
        Some((long, j)) => {
            let primary = if long {
                MovePrimary::CastleLong
            } else {
                MovePrimary::CastleShort
            };
            let (check, checkmate) = parse_check_or_mate(&input, j);
            results.push(
                Move { primary, check, checkmate, en_passant: false, captures: false },
            );
            return Ok(results);
        },
        None => {},
    }

    match parse_pawn_capture(&input) {
        Some((f0, caps, df, dr, j)) => {
            let m1 = finish_candidate(&input, ('-', f0, '-'), (df, dr), j, caps);
            results.push(m1);
            if !is_chess_piece(input[0]) {
                return Ok(results);
            }
        },
        None => {},
    }

    // the general piece-move shape, tried when the pawn shape failed
    // or when its first letter could also name a piece
    match parse_general(&input) {
        Some(m2) => {
            results.push(m2);
        },
        None => {},
    }
    Ok(results)
}

/// The castle marker at the start of the text: `Some((long, length))`.
fn parse_castle(input: &Vec<char>) -> (r: Option<(bool, usize)>)
    ensures
        (match r {
            Some(lj) => spec_castle(input@) == Some(
                (
                    if lj.0 {
                        MovePrimary::CastleLong
                    } else {
                        MovePrimary::CastleShort
                    },
                    lj.1 as int,
                ),
            ),
            None => spec_castle(input@) is None,
        }),
{
    let n = input.len();
    if n >= 3 && ((input[0] == 'o' && input[1] == '-' && input[2] == 'o') || (input[0] == 'O'
        && input[1] == '-' && input[2] == 'O')) {
        if n >= 5 && ((input[0] == 'o' && input[1] == '-' && input[2] == 'o' && input[3] == '-'
            && input[4] == 'o') || (input[0] == 'O' && input[1] == '-' && input[2] == 'O'
            && input[3] == '-' && input[4] == 'O')) {
            Some((true, 5))
        } else {
            Some((false, 3))
        }
    } else {
        None
    }
}

/// The check or checkmate marker at `i`: (check, checkmate).
fn parse_check_or_mate(input: &Vec<char>, i: usize) -> (r: (bool, bool))
    ensures
        r.0 == (cm_at(input@, i as int) == Some((false, i as int + 1))),
        r.1 == (cm_at(input@, i as int) == Some((true, i as int + 1))),
{
    match safe_index(input, i) {
        Some(c) => {
            if c == '#' {
                (false, true)
            } else if c == '+' {
                (true, false)
            } else {
                (false, false)
            }
        },
        None => (false, false),
    }
}

/// The promotion suffix at `i`: the piece letter and the position
/// after it.
fn parse_pawn_promotion(input: &Vec<char>, i: usize) -> (r: Option<(char, usize)>)
    requires
        input@.len() <= 0x0fff_ffff,
        i <= input@.len(),
    ensures
        (match r {
            Some(pj) => spec_promo(input@, i as int) == Some((pj.0, pj.1 as int)),
            None => spec_promo(input@, i as int) is None,
        }),
{
    match safe_index(input, i) {
        None => None,
        Some(c) => {
            if c == '=' {
                match safe_index(input, i + 1) {
                    None => None,
                    Some(c2) => {
                        if is_chess_piece(c2) {
                            Some((c2, i + 2))
                        } else {
                            None
                        }
                    },
                }
            } else if is_chess_piece(c) {
                Some((c, i + 1))
            } else {
                None
            }
        },
    }
}

/// The `e.p.` marker at `i`: the position after it.
fn parse_en_passant(input: &Vec<char>, i: usize) -> (r: Option<usize>)
    requires
        input@.len() <= 0x0fff_ffff,
        i <= input@.len(),
    ensures
        (match r {
            Some(j) => spec_ep(input@, i as int) == Some(j as int),
            None => spec_ep(input@, i as int) is None,
        }),
{
    if i < input.len() && input.len() - i > 3 {
        if input[i] == 'e' && input[i + 1] == '.' && input[i + 2] == 'p' && input[i + 3] == '.' {
            Some(i + 4)
        } else {
            None
        }
    } else {
        None
    }
}

/// Attaches the promotion, en-passant and check suffixes at `j` to a
/// piece-move candidate.
fn finish_candidate(
    input: &Vec<char>,
    piece: (char, char, char),
    destination: (char, char),
    j: usize,
    caps: bool,
) -> (m: Move)
    requires
        input@.len() <= 0x0fff_ffff,
        j <= input@.len(),
    ensures
        m == finish_move(input@, piece, destination, j as int, caps),
{
    let (promotion, j5) = match parse_pawn_promotion(input, j) {
        Some(pj) => pj,
        None => ('-', j),
    };
    let (en_passant, j6) = match parse_en_passant(input, j5) {
        Some(k) => (true, k),
        None => (false, j5),
    };
    let (check, checkmate) = parse_check_or_mate(input, j6);
    Move {
        primary: MovePrimary::PieceMove { piece, destination, promotion },
        check,
        checkmate,
        en_passant,
        captures: caps,
    }
}

/// The pawn-capture shape from the start of the text.
fn parse_pawn_capture(input: &Vec<char>) -> (r: Option<(char, bool, char, char, usize)>)
    ensures
        (match r {
            Some(t) => spec_pawn_capture(input@) == Some((t.0, t.1, t.2, t.3, t.4 as int)),
            None => spec_pawn_capture(input@) is None,
        }),
{
    let n = input.len();
    if n == 0 || !is_file(input[0]) {
        return None;
    }
    if 1 >= n {
        return None;
    }
    let caps = input[1] == 'x';
    let j2: usize = if caps {
        2
    } else {
        1
    };
    if j2 >= n {
        return None;
    }
    if !is_file(input[j2]) {
        return None;
    }
    let j3 = j2 + 1;
    let has_rank = j3 < n && is_rank(input[j3]);
    let rank: char = if has_rank {
        input[j3]
    } else {
        '-'
    };
    let j4: usize = if has_rank {
        j3 + 1
    } else {
        j3
    };
    if is_there_tile_ahead(input, j4) {
        return None;
    }
    Some((input[0], caps, input[j2], rank, j4))
}

/// The piece head of the general shape at the start of the text.
fn parse_piece(input: &Vec<char>) -> (r: Option<((char, char, char), usize)>)
    ensures
        (match r {
            Some(t) => spec_piece(input@, 0) == Some((t.0, t.1 as int)),
            None => spec_piece(input@, 0) is None,
        }),
{
    let n = input.len();
    if n == 0 || !is_chess_piece(input[0]) {
        return None;
    }
    let name = input[0];
    if 1 >= n {
        return None;
    }
    let a = input[1];
    if is_rank(a) {
        if is_there_tile_ahead(input, 2) {
            Some(((name, '-', a), 2))
        } else {
            None
        }
    } else if is_file(a) {
        if 2 >= n {
            return None;
        }
        let aa = input[2];
        if is_rank(aa) {
            if is_there_tile_ahead(input, 3) {
                Some(((name, a, aa), 3))
            } else {
                Some(((name, '-', '-'), 1))
            }
        } else {
            Some(((name, a, '-'), 2))
        }
    } else {
        Some(((name, '-', '-'), 1))
    }
}

/// The general piece-move shape from the start of the text.
fn parse_general(input: &Vec<char>) -> (r: Option<Move>)
    requires
        input@.len() <= 0x0fff_ffff,
    ensures
        (match r {
            Some(m) => spec_general(input@) == Some(m),
            None => spec_general(input@) is None,
        }),
{
    let (piece, i1): ((char, char, char), usize) = match parse_piece(input) {
        Some(t) => t,
        None => (('-', '-', '-'), 0),
    };
    let caps = i1 < input.len() && input[i1] == 'x';
    let i2: usize = if caps {
        i1 + 1
    } else {
        i1
    };
    if dest_here(input, i2) {
        let m = finish_candidate(input, piece, (input[i2], input[i2 + 1]), i2 + 2, caps);
        Some(m)
    } else {
        None
    }
}

} // verus!
