use vstd::prelude::*;

verus! {

/// Number of sub-cell steps in one display cell: a position is held in
/// thousandths of a cell, so slow motion still accumulates.
pub const SUBCELLS: i64 = 1000;

/// Clamps a mathematical integer into the range of `i64`.
pub open spec fn sat_i64(v: int) -> int {
    if v < i64::MIN {
        i64::MIN as int
    } else if v > i64::MAX {
        i64::MAX as int
    } else {
        v
    }
}

/// Clamps a mathematical integer into the range of `i32`.
pub open spec fn sat_i32(v: int) -> int {
    if v < i32::MIN {
        i32::MIN as int
    } else if v > i32::MAX {
        i32::MAX as int
    } else {
        v
    }
}

/// Division of `a` by a positive `d`, rounded toward zero.
pub open spec fn div_trunc(a: int, d: int) -> int
    recommends
        d > 0,
{
    if a >= 0 {
        a / d
    } else {
        -((-a) / d)
    }
}

/// A point on the display plane, in thousandths of a cell.
#[derive(Clone, Copy, Debug, PartialEq, Eq, Structural)]
pub struct Position {
    pub x: i64,
    pub y: i64,
}

fn sat_from_i128(v: i128) -> (r: i64)
    ensures
        r as int == sat_i64(v as int),
{
    if v < i64::MIN as i128 {
        i64::MIN
    } else if v > i64::MAX as i128 {
        i64::MAX
    } else {
        v as i64
    }
}

fn sat_to_i32(v: i64) -> (r: i32)
    ensures
        r as int == sat_i32(v as int),
{
    if v < i32::MIN as i64 {
        i32::MIN
    } else if v > i32::MAX as i64 {
        i32::MAX
    } else {
        v as i32
    }
}

/// `v * num / den` rounded toward zero, clamped into `i64`.
pub open spec fn scale_coord(v: int, num: int, den: int) -> int {
    sat_i64(div_trunc(v * num, den))
}

fn scale_i64(v: i64, num: u64, den: u64) -> (r: i64)
    requires
        den > 0,
    ensures
        r as int == scale_coord(v as int, num as int, den as int),
{
    let neg = v < 0;
    let mag: u128 = if neg { (-(v as i128)) as u128 } else { v as u128 };
    assert(mag <= 0x8000_0000_0000_0000);
    assert(mag * (num as u128) <= 0x8000_0000_0000_0000u128 * 0xffff_ffff_ffff_ffffu128) by (nonlinear_arith)
        requires mag <= 0x8000_0000_0000_0000u128, num <= 0xffff_ffff_ffff_ffffu64;
    let prod: u128 = mag * (num as u128);
    let q: u128 = prod / (den as u128);
    assert(q <= prod) by (nonlinear_arith)
        requires q == prod / (den as u128), den > 0;
    let signed: i128 = if neg { -(q as i128) } else { q as i128 };
    proof {
        if neg {
            assert((v as int) * (num as int) == -((mag as int) * (num as int))) by (nonlinear_arith)
                requires mag as int == -(v as int);
            assert(-((v as int) * (num as int)) == prod as int);
        } else {
            assert((v as int) * (num as int) == prod as int);
        }
    }
    sat_from_i128(signed)
}

impl Position {
    /// The whole-cell column: the coordinate divided by `SUBCELLS`, rounded
    /// toward zero and clamped into `i32`.
    pub open spec fn cell_x(&self) -> int {
        sat_i32(div_trunc(self.x as int, SUBCELLS as int))
    }

    /// The whole-cell row, as `cell_x`.
    pub open spec fn cell_y(&self) -> int {
        sat_i32(div_trunc(self.y as int, SUBCELLS as int))
    }

    pub fn x_i32(&self) -> (r: i32)
        ensures
            r as int == self.cell_x(),
    {
        let q: i64 = if self.x >= 0 { self.x / SUBCELLS } else { -((-(self.x as i128) / (SUBCELLS as i128)) as i64) };
        sat_to_i32(q)
    }

    pub fn y_i32(&self) -> (r: i32)
        ensures
            r as int == self.cell_y(),
    {
        let q: i64 = if self.y >= 0 { self.y / SUBCELLS } else { -((-(self.y as i128) / (SUBCELLS as i128)) as i64) };
        sat_to_i32(q)
    }

    /// The position at whole cell `(x, y)`.
    pub fn new(x: i32, y: i32) -> (r: Position)
        ensures
            r.x == x as int * SUBCELLS,
            r.y == y as int * SUBCELLS,
    {
        Position { x: x as i64 * SUBCELLS, y: y as i64 * SUBCELLS }
    }

    pub open spec fn spec_zero() -> Position {
        Position { x: 0, y: 0 }
    }

    pub fn zero() -> (r: Position)
        ensures
            r == Position::spec_zero(),
    {
        Position { x: 0, y: 0 }
    }
}


impl crate::animation::VectorSpace for Position {
    open spec fn spec_add(self, rhs: Position) -> Position {
        Position { x: sat_i64(self.x + rhs.x) as i64, y: sat_i64(self.y + rhs.y) as i64 }
    }

    open spec fn spec_sub(self, rhs: Position) -> Position {
        Position { x: sat_i64(self.x - rhs.x) as i64, y: sat_i64(self.y - rhs.y) as i64 }
    }

    open spec fn spec_scale(self, num: nat, den: nat) -> Position {
        Position {
            x: scale_coord(self.x as int, num as int, den as int) as i64,
            y: scale_coord(self.y as int, num as int, den as int) as i64,
        }
    }

    fn add(&self, rhs: &Position) -> (r: Position) {
        Position {
            x: sat_from_i128(self.x as i128 + rhs.x as i128),
            y: sat_from_i128(self.y as i128 + rhs.y as i128),
        }
    }

    fn sub(&self, rhs: &Position) -> (r: Position) {
        Position {
            x: sat_from_i128(self.x as i128 - rhs.x as i128),
            y: sat_from_i128(self.y as i128 - rhs.y as i128),
        }
    }

    fn scale(&self, num: u64, den: u64) -> (r: Position) {
        Position { x: scale_i64(self.x, num, den), y: scale_i64(self.y, num, den) }
    }
}

} // verus!
