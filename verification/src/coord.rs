//! Board coordinates and displacement vectors.
use vstd::prelude::*;

verus! {

/// Largest component value for which coordinate arithmetic is used here.
/// Board coordinates live in `0..8`; displacements in `-7..=7`.
pub open spec fn coord_bound() -> int {
    64
}

/// A board coordinate or a displacement between two coordinates.
/// `x` is the file (0 at the a-file), `y` is the rank (0 at rank 1),
/// with the origin at the bottom-left square (a1).
#[derive(Clone, Copy, PartialEq, Eq, Structural, Debug)]
pub struct Coord {
    pub x: i32,
    pub y: i32,
}

/// A coordinate that denotes one of the 64 squares.
pub open spec fn on_board(x: int, y: int) -> bool {
    0 <= x < 8 && 0 <= y < 8
}

/// Absolute value.
pub open spec fn abs(v: int) -> int {
    if v < 0 { -v } else { v }
}

/// Sign of a value: -1, 0 or 1.
pub open spec fn sgn(v: int) -> int {
    if v < 0 {
        -1
    } else if v > 0 {
        1
    } else {
        0
    }
}

/// The Chebyshev length of a displacement, defined only when the
/// displacement is horizontal, vertical or exactly diagonal.
pub open spec fn line_mag(dx: int, dy: int) -> Option<int> {
    if dx == 0 || dy == 0 || abs(dx) == abs(dy) {
        if abs(dx) >= abs(dy) {
            Some(abs(dx))
        } else {
            Some(abs(dy))
        }
    } else {
        None
    }
}

impl Coord {
    /// The coordinate denotes a square of the board.
    pub open spec fn valid(self) -> bool {
        on_board(self.x as int, self.y as int)
    }

    /// Components are small enough that sums and differences of a few
    /// of them cannot overflow.
    pub open spec fn small(self) -> bool {
        -coord_bound() <= self.x as int <= coord_bound() && -coord_bound() <= self.y as int
            <= coord_bound()
    }

    /// The displacement that takes `self` to `other` (`other - self`).
    pub fn distance(&self, other: Coord) -> (r: Coord)
        requires
            self.small(),
            other.small(),
        ensures
            r.x as int == other.x as int - self.x as int,
            r.y as int == other.y as int - self.y as int,
    {
        Coord { x: other.x - self.x, y: other.y - self.y }
    }

    /// The Chebyshev length of this displacement, when it is a
    /// horizontal, vertical or diagonal line; `None` otherwise.
    pub fn magnitude(&self) -> (r: Option<i32>)
        requires
            self.small(),
        ensures
            match r {
                Some(m) => line_mag(self.x as int, self.y as int) == Some(m as int),
                None => line_mag(self.x as int, self.y as int) is None,
            },
    {
        let ax: i32 = if self.x >= 0 {
            self.x
        } else {
            -self.x
        };
        let ay: i32 = if self.y >= 0 {
            self.y
        } else {
            -self.y
        };
        if self.x == 0 || self.y == 0 || ax == ay {
            if ax >= ay {
                Some(ax)
            } else {
                Some(ay)
            }
        } else {
            None
        }
    }

    /// The unit step along this displacement; defined only for a
    /// non-zero horizontal, vertical or diagonal displacement.
    pub fn unit(&self) -> (r: Coord)
        requires
            self.small(),
            line_mag(self.x as int, self.y as int) is Some,
            !(self.x == 0 && self.y == 0),
        ensures
            r.x as int == sgn(self.x as int),
            r.y as int == sgn(self.y as int),
    {
        let ux: i32 = if self.x > 0 {
            1
        } else if self.x < 0 {
            -1
        } else {
            0
        };
        let uy: i32 = if self.y > 0 {
            1
        } else if self.y < 0 {
            -1
        } else {
            0
        };
        Coord { x: ux, y: uy }
    }

    /// The file letter (`'a'`..`'h'`) of a square coordinate.
    pub open spec fn spec_file_char(self) -> char {
        file_char(self.x as int)
    }

    /// The file letter of a square coordinate.
    pub fn get_file_char(&self) -> (r: char)
        requires
            0 <= self.x < 8,
        ensures
            r == file_char(self.x as int),
    {
        match self.x {
            0 => 'a',
            1 => 'b',
            2 => 'c',
            3 => 'd',
            4 => 'e',
            5 => 'f',
            6 => 'g',
            _ => 'h',
        }
    }

    /// The rank digit (`'1'`..`'8'`) of a square coordinate.
    pub fn get_rank_char(&self) -> (r: char)
        requires
            0 <= self.y < 8,
        ensures
            r == rank_char(self.y as int),
    {
        match self.y {
            0 => '1',
            1 => '2',
            2 => '3',
            3 => '4',
            4 => '5',
            5 => '6',
            6 => '7',
            _ => '8',
        }
    }
}

/// The letter naming file `x`.
pub open spec fn file_char(x: int) -> char {
    if x == 0 {
        'a'
    } else if x == 1 {
        'b'
    } else if x == 2 {
        'c'
    } else if x == 3 {
        'd'
    } else if x == 4 {
        'e'
    } else if x == 5 {
        'f'
    } else if x == 6 {
        'g'
    } else {
        'h'
    }
}

/// The digit naming rank `y` (rank 0 prints as '1').
pub open spec fn rank_char(y: int) -> char {
    if y == 0 {
        '1'
    } else if y == 1 {
        '2'
    } else if y == 2 {
        '3'
    } else if y == 3 {
        '4'
    } else if y == 4 {
        '5'
    } else if y == 5 {
        '6'
    } else if y == 6 {
        '7'
    } else {
        '8'
    }
}

} // verus!
