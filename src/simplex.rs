use vstd::prelude::*;

verus! {

/// Offset of a simplex corner from the cell's base corner, one step of 0 or 1
/// along each axis.
#[derive(Clone, Copy, PartialEq, Eq, Structural, Debug)]
pub struct CornerOffset {
    pub dx: i32,
    pub dy: i32,
    pub dz: i32,
}

/// The two intermediate corners of a 3D simplex, visited between the base
/// corner and the far corner `(1, 1, 1)`.
#[derive(Clone, Copy, PartialEq, Eq, Structural, Debug)]
pub struct SimplexPath {
    pub second: CornerOffset,
    pub third: CornerOffset,
}

pub open spec fn corner(dx: i32, dy: i32, dz: i32) -> CornerOffset {
    CornerOffset { dx, dy, dz }
}

/// The corner traversal selected by the comparisons `x >= y`, `y >= z` and
/// `x >= z` of the cell-local offsets.
pub open spec fn path_for(x_ge_y: bool, y_ge_z: bool, x_ge_z: bool) -> SimplexPath {
    if x_ge_y {
        if y_ge_z {
            SimplexPath { second: corner(1, 0, 0), third: corner(1, 1, 0) }
        } else if x_ge_z {
            SimplexPath { second: corner(1, 0, 0), third: corner(1, 0, 1) }
        } else {
            SimplexPath { second: corner(0, 0, 1), third: corner(1, 0, 1) }
        }
    } else if !y_ge_z {
        SimplexPath { second: corner(0, 0, 1), third: corner(0, 1, 1) }
    } else if !x_ge_z {
        SimplexPath { second: corner(0, 1, 0), third: corner(0, 1, 1) }
    } else {
        SimplexPath { second: corner(0, 1, 0), third: corner(1, 1, 0) }
    }
}

/// The middle corner of a 2D simplex: `(1, 0)` in the lower triangle of the
/// cell (local x greater than local y), `(0, 1)` in the upper one.
pub open spec fn middle_for(x_greater: bool) -> (i32, i32) {
    if x_greater {
        (1, 0)
    } else {
        (0, 1)
    }
}

/// Selects the 3D corner traversal from the three offset comparisons.
pub fn simplex_3d_path(x_ge_y: bool, y_ge_z: bool, x_ge_z: bool) -> (r: SimplexPath)
    ensures
        r == path_for(x_ge_y, y_ge_z, x_ge_z),
{
    if x_ge_y {
        if y_ge_z {
            SimplexPath {
                second: CornerOffset { dx: 1, dy: 0, dz: 0 },
                third: CornerOffset { dx: 1, dy: 1, dz: 0 },
            }
        } else if x_ge_z {
            SimplexPath {
                second: CornerOffset { dx: 1, dy: 0, dz: 0 },
                third: CornerOffset { dx: 1, dy: 0, dz: 1 },
            }
        } else {
            SimplexPath {
                second: CornerOffset { dx: 0, dy: 0, dz: 1 },
                third: CornerOffset { dx: 1, dy: 0, dz: 1 },
            }
        }
    } else if !y_ge_z {
        SimplexPath {
            second: CornerOffset { dx: 0, dy: 0, dz: 1 },
            third: CornerOffset { dx: 0, dy: 1, dz: 1 },
        }
    } else if !x_ge_z {
        SimplexPath {
            second: CornerOffset { dx: 0, dy: 1, dz: 0 },
            third: CornerOffset { dx: 0, dy: 1, dz: 1 },
        }
    } else {
        SimplexPath {
            second: CornerOffset { dx: 0, dy: 1, dz: 0 },
            third: CornerOffset { dx: 1, dy: 1, dz: 0 },
        }
    }
}

/// Selects the middle corner of a 2D simplex.
pub fn simplex_2d_middle(x_greater: bool) -> (r: (i32, i32))
    ensures
        r == middle_for(x_greater),
{
    if x_greater {
        (1, 0)
    } else {
        (0, 1)
    }
}

/// For offsets `(x, y, z)` compared as ordered values, the traversal walks
/// from the base corner through one unit step along an axis of largest
/// offset, then adds a step along every axis but one of smallest offset, so
/// each step is a unit move and the path ends next to the far corner.
pub proof fn lemma_path_follows_order(x: int, y: int, z: int)
    ensures
        ({
            let r = path_for(x >= y, y >= z, x >= z);
            let s = r.second;
            let t = r.third;
            &&& 0 <= s.dx <= t.dx <= 1
            &&& 0 <= s.dy <= t.dy <= 1
            &&& 0 <= s.dz <= t.dz <= 1
            &&& s.dx + s.dy + s.dz == 1
            &&& t.dx + t.dy + t.dz == 2
            &&& (s.dx == 1 ==> x >= y && x >= z)
            &&& (s.dy == 1 ==> y >= x && y >= z)
            &&& (s.dz == 1 ==> z >= x && z >= y)
            &&& (t.dx == 0 ==> x <= y && x <= z)
            &&& (t.dy == 0 ==> y <= x && y <= z)
            &&& (t.dz == 0 ==> z <= x && z <= y)
        }),
{
}

} // verus!
