//! The 64 named squares of the board.
use vstd::prelude::*;

use crate::coord::Coord;

verus! {

/// A square of the board, named as in algebraic notation.
#[derive(Clone, Copy, PartialEq, Eq, Structural, Debug)]
pub enum Tile {
    A8, B8, C8, D8, E8, F8, G8, H8,
    A7, B7, C7, D7, E7, F7, G7, H7,
    A6, B6, C6, D6, E6, F6, G6, H6,
    A5, B5, C5, D5, E5, F5, G5, H5,
    A4, B4, C4, D4, E4, F4, G4, H4,
    A3, B3, C3, D3, E3, F3, G3, H3,
    A2, B2, C2, D2, E2, F2, G2, H2,
    A1, B1, C1, D1, E1, F1, G1, H1,
}

/// The position of a square in the fixed enumeration order:
/// rank 8 first, files a to h within a rank (a8 is 0, h1 is 63).
pub open spec fn tile_idx(t: Tile) -> int {
    match t {
        Tile::A8 => 0,
        Tile::B8 => 1,
        Tile::C8 => 2,
        Tile::D8 => 3,
        Tile::E8 => 4,
        Tile::F8 => 5,
        Tile::G8 => 6,
        Tile::H8 => 7,
        Tile::A7 => 8,
        Tile::B7 => 9,
        Tile::C7 => 10,
        Tile::D7 => 11,
        Tile::E7 => 12,
        Tile::F7 => 13,
        Tile::G7 => 14,
        Tile::H7 => 15,
        Tile::A6 => 16,
        Tile::B6 => 17,
        Tile::C6 => 18,
        Tile::D6 => 19,
        Tile::E6 => 20,
        Tile::F6 => 21,
        Tile::G6 => 22,
        Tile::H6 => 23,
        Tile::A5 => 24,
        Tile::B5 => 25,
        Tile::C5 => 26,
        Tile::D5 => 27,
        Tile::E5 => 28,
        Tile::F5 => 29,
        Tile::G5 => 30,
        Tile::H5 => 31,
        Tile::A4 => 32,
        Tile::B4 => 33,
        Tile::C4 => 34,
        Tile::D4 => 35,
        Tile::E4 => 36,
        Tile::F4 => 37,
        Tile::G4 => 38,
        Tile::H4 => 39,
        Tile::A3 => 40,
        Tile::B3 => 41,
        Tile::C3 => 42,
        Tile::D3 => 43,
        Tile::E3 => 44,
        Tile::F3 => 45,
        Tile::G3 => 46,
        Tile::H3 => 47,
        Tile::A2 => 48,
        Tile::B2 => 49,
        Tile::C2 => 50,
        Tile::D2 => 51,
        Tile::E2 => 52,
        Tile::F2 => 53,
        Tile::G2 => 54,
        Tile::H2 => 55,
        Tile::A1 => 56,
        Tile::B1 => 57,
        Tile::C1 => 58,
        Tile::D1 => 59,
        Tile::E1 => 60,
        Tile::F1 => 61,
        Tile::G1 => 62,
        Tile::H1 => 63,
    }
}

/// The file (0..8) of a square.
pub open spec fn tile_x(t: Tile) -> int {
    tile_idx(t) % 8
}

/// The rank (0..8) of a square.
pub open spec fn tile_y(t: Tile) -> int {
    7 - tile_idx(t) / 8
}

/// The square whose enumeration index is `i`.
pub fn tile_from_index(i: usize) -> (t: Tile)
    requires
        i < 64,
    ensures
        tile_idx(t) == i as int,
{
    match i {
        0 => Tile::A8,
        1 => Tile::B8,
        2 => Tile::C8,
        3 => Tile::D8,
        4 => Tile::E8,
        5 => Tile::F8,
        6 => Tile::G8,
        7 => Tile::H8,
        8 => Tile::A7,
        9 => Tile::B7,
        10 => Tile::C7,
        11 => Tile::D7,
        12 => Tile::E7,
        13 => Tile::F7,
        14 => Tile::G7,
        15 => Tile::H7,
        16 => Tile::A6,
        17 => Tile::B6,
        18 => Tile::C6,
        19 => Tile::D6,
        20 => Tile::E6,
        21 => Tile::F6,
        22 => Tile::G6,
        23 => Tile::H6,
        24 => Tile::A5,
        25 => Tile::B5,
        26 => Tile::C5,
        27 => Tile::D5,
        28 => Tile::E5,
        29 => Tile::F5,
        30 => Tile::G5,
        31 => Tile::H5,
        32 => Tile::A4,
        33 => Tile::B4,
        34 => Tile::C4,
        35 => Tile::D4,
        36 => Tile::E4,
        37 => Tile::F4,
        38 => Tile::G4,
        39 => Tile::H4,
        40 => Tile::A3,
        41 => Tile::B3,
        42 => Tile::C3,
        43 => Tile::D3,
        44 => Tile::E3,
        45 => Tile::F3,
        46 => Tile::G3,
        47 => Tile::H3,
        48 => Tile::A2,
        49 => Tile::B2,
        50 => Tile::C2,
        51 => Tile::D2,
        52 => Tile::E2,
        53 => Tile::F2,
        54 => Tile::G2,
        55 => Tile::H2,
        56 => Tile::A1,
        57 => Tile::B1,
        58 => Tile::C1,
        59 => Tile::D1,
        60 => Tile::E1,
        61 => Tile::F1,
        62 => Tile::G1,
        _ => Tile::H1,
    }
}

impl Tile {
    /// The enumeration index of this square.
    pub fn index(&self) -> (i: usize)
        ensures
            i == tile_idx(*self),
            i < 64,
    {
        match self {
            Tile::A8 => 0,
            Tile::B8 => 1,
            Tile::C8 => 2,
            Tile::D8 => 3,
            Tile::E8 => 4,
            Tile::F8 => 5,
            Tile::G8 => 6,
            Tile::H8 => 7,
            Tile::A7 => 8,
            Tile::B7 => 9,
            Tile::C7 => 10,
            Tile::D7 => 11,
            Tile::E7 => 12,
            Tile::F7 => 13,
            Tile::G7 => 14,
            Tile::H7 => 15,
            Tile::A6 => 16,
            Tile::B6 => 17,
            Tile::C6 => 18,
            Tile::D6 => 19,
            Tile::E6 => 20,
            Tile::F6 => 21,
            Tile::G6 => 22,
            Tile::H6 => 23,
            Tile::A5 => 24,
            Tile::B5 => 25,
            Tile::C5 => 26,
            Tile::D5 => 27,
            Tile::E5 => 28,
            Tile::F5 => 29,
            Tile::G5 => 30,
            Tile::H5 => 31,
            Tile::A4 => 32,
            Tile::B4 => 33,
            Tile::C4 => 34,
            Tile::D4 => 35,
            Tile::E4 => 36,
            Tile::F4 => 37,
            Tile::G4 => 38,
            Tile::H4 => 39,
            Tile::A3 => 40,
            Tile::B3 => 41,
            Tile::C3 => 42,
            Tile::D3 => 43,
            Tile::E3 => 44,
            Tile::F3 => 45,
            Tile::G3 => 46,
            Tile::H3 => 47,
            Tile::A2 => 48,
            Tile::B2 => 49,
            Tile::C2 => 50,
            Tile::D2 => 51,
            Tile::E2 => 52,
            Tile::F2 => 53,
            Tile::G2 => 54,
            Tile::H2 => 55,
            Tile::A1 => 56,
            Tile::B1 => 57,
            Tile::C1 => 58,
            Tile::D1 => 59,
            Tile::E1 => 60,
            Tile::F1 => 61,
            Tile::G1 => 62,
            Tile::H1 => 63,
        }
    }

    /// The coordinate of this square.
    pub fn to_coord(&self) -> (c: Coord)
        ensures
            c.x as int == tile_x(*self),
            c.y as int == tile_y(*self),
            c.valid(),
    {
        let i = self.index();
        Coord { x: (i % 8) as i32, y: 7 - (i / 8) as i32 }
    }

    /// The square at a coordinate; `None` when the coordinate is
    /// outside the board.
    pub fn from_coord(c: Coord) -> (r: Option<Tile>)
        ensures
            match r {
                Some(t) => c.valid() && tile_x(t) == c.x as int && tile_y(t) == c.y as int,
                None => !c.valid(),
            },
    {
        if 0 <= c.x && c.x < 8 && 0 <= c.y && c.y < 8 {
            let i: usize = ((7 - c.y) * 8 + c.x) as usize;
            Some(tile_from_index(i))
        } else {
            None
        }
    }
}

/// Every square's enumeration index lies in `0..64`.
pub broadcast proof fn lemma_tile_bounds(t: Tile)
    ensures
        0 <= #[trigger] tile_idx(t) < 64,
{
}

/// Square indices determine squares: two squares with one index are one square.
pub proof fn lemma_tile_idx_injective(t1: Tile, t2: Tile)
    requires
        tile_idx(t1) == tile_idx(t2),
    ensures
        t1 == t2,
{
}

/// The square whose enumeration index is `i`, as a spec value.
pub open spec fn tile_of_idx(i: int) -> Tile {
    if i == 0 {
        Tile::A8
    } else
    if i == 1 {
        Tile::B8
    } else
    if i == 2 {
        Tile::C8
    } else
    if i == 3 {
        Tile::D8
    } else
    if i == 4 {
        Tile::E8
    } else
    if i == 5 {
        Tile::F8
    } else
    if i == 6 {
        Tile::G8
    } else
    if i == 7 {
        Tile::H8
    } else
    if i == 8 {
        Tile::A7
    } else
    if i == 9 {
        Tile::B7
    } else
    if i == 10 {
        Tile::C7
    } else
    if i == 11 {
        Tile::D7
    } else
    if i == 12 {
        Tile::E7
    } else
    if i == 13 {
        Tile::F7
    } else
    if i == 14 {
        Tile::G7
    } else
    if i == 15 {
        Tile::H7
    } else
    if i == 16 {
        Tile::A6
    } else
    if i == 17 {
        Tile::B6
    } else
    if i == 18 {
        Tile::C6
    } else
    if i == 19 {
        Tile::D6
    } else
    if i == 20 {
        Tile::E6
    } else
    if i == 21 {
        Tile::F6
    } else
    if i == 22 {
        Tile::G6
    } else
    if i == 23 {
        Tile::H6
    } else
    if i == 24 {
        Tile::A5
    } else
    if i == 25 {
        Tile::B5
    } else
    if i == 26 {
        Tile::C5
    } else
    if i == 27 {
        Tile::D5
    } else
    if i == 28 {
        Tile::E5
    } else
    if i == 29 {
        Tile::F5
    } else
    if i == 30 {
        Tile::G5
    } else
    if i == 31 {
        Tile::H5
    } else
    if i == 32 {
        Tile::A4
    } else
    if i == 33 {
        Tile::B4
    } else
    if i == 34 {
        Tile::C4
    } else
    if i == 35 {
        Tile::D4
    } else
    if i == 36 {
        Tile::E4
    } else
    if i == 37 {
        Tile::F4
    } else
    if i == 38 {
        Tile::G4
    } else
    if i == 39 {
        Tile::H4
    } else
    if i == 40 {
        Tile::A3
    } else
    if i == 41 {
        Tile::B3
    } else
    if i == 42 {
        Tile::C3
    } else
    if i == 43 {
        Tile::D3
    } else
    if i == 44 {
        Tile::E3
    } else
    if i == 45 {
        Tile::F3
    } else
    if i == 46 {
        Tile::G3
    } else
    if i == 47 {
        Tile::H3
    } else
    if i == 48 {
        Tile::A2
    } else
    if i == 49 {
        Tile::B2
    } else
    if i == 50 {
        Tile::C2
    } else
    if i == 51 {
        Tile::D2
    } else
    if i == 52 {
        Tile::E2
    } else
    if i == 53 {
        Tile::F2
    } else
    if i == 54 {
        Tile::G2
    } else
    if i == 55 {
        Tile::H2
    } else
    if i == 56 {
        Tile::A1
    } else
    if i == 57 {
        Tile::B1
    } else
    if i == 58 {
        Tile::C1
    } else
    if i == 59 {
        Tile::D1
    } else
    if i == 60 {
        Tile::E1
    } else
    if i == 61 {
        Tile::F1
    } else
    if i == 62 {
        Tile::G1
    } else
    {
        Tile::H1
    }
}

/// `tile_of_idx` inverts `tile_idx`.
pub proof fn lemma_tile_of_idx(t: Tile)
    ensures
        tile_of_idx(tile_idx(t)) == t,
{
}

/// `tile_idx` inverts `tile_of_idx` on square indices.
pub proof fn lemma_tile_idx_of_idx(i: int)
    requires
        0 <= i < 64,
    ensures
        tile_idx(tile_of_idx(i)) == i,
{
}

} // verus!
