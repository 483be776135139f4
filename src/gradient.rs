use vstd::prelude::*;

verus! {

/// Number of entries in the gradient set.
pub const GRADIENT_COUNT: usize = 16;

/// A lattice gradient direction with components in `{-1, 0, 1}`.
#[derive(Clone, Copy, PartialEq, Eq, Structural, Debug)]
pub struct Gradient {
    pub x: i32,
    pub y: i32,
    pub z: i32,
}

pub open spec fn grad(x: int, y: int, z: int) -> Gradient {
    Gradient { x: x as i32, y: y as i32, z: z as i32 }
}

/// The fixed gradient set shared by the Perlin and simplex samplers. The
/// first twelve are the edge midpoints of a cube; the last four repeat some
/// of them.
pub open spec fn gradient_at(index: int) -> Gradient {
    if index == 0 {
        grad(1, 1, 0)
    } else if index == 1 {
        grad(-1, 1, 0)
    } else if index == 2 {
        grad(1, -1, 0)
    } else if index == 3 {
        grad(-1, -1, 0)
    } else if index == 4 {
        grad(1, 0, 1)
    } else if index == 5 {
        grad(-1, 0, 1)
    } else if index == 6 {
        grad(1, 0, -1)
    } else if index == 7 {
        grad(-1, 0, -1)
    } else if index == 8 {
        grad(0, 1, 1)
    } else if index == 9 {
        grad(0, -1, 1)
    } else if index == 10 {
        grad(0, 1, -1)
    } else if index == 11 {
        grad(0, -1, -1)
    } else if index == 12 {
        grad(1, 1, 0)
    } else if index == 13 {
        grad(0, -1, 1)
    } else if index == 14 {
        grad(-1, 1, 0)
    } else {
        grad(0, -1, -1)
    }
}

/// Every component is `-1`, `0` or `1`.
pub open spec fn is_unit_component(c: i32) -> bool {
    -1 <= c <= 1
}

/// The gradient with the given index.
pub fn gradient(index: usize) -> (r: Gradient)
    requires
        index < GRADIENT_COUNT,
    ensures
        r == gradient_at(index as int),
        is_unit_component(r.x),
        is_unit_component(r.y),
        is_unit_component(r.z),
{
    match index {
        0 => Gradient { x: 1, y: 1, z: 0 },
        1 => Gradient { x: -1, y: 1, z: 0 },
        2 => Gradient { x: 1, y: -1, z: 0 },
        3 => Gradient { x: -1, y: -1, z: 0 },
        4 => Gradient { x: 1, y: 0, z: 1 },
        5 => Gradient { x: -1, y: 0, z: 1 },
        6 => Gradient { x: 1, y: 0, z: -1 },
        7 => Gradient { x: -1, y: 0, z: -1 },
        8 => Gradient { x: 0, y: 1, z: 1 },
        9 => Gradient { x: 0, y: -1, z: 1 },
        10 => Gradient { x: 0, y: 1, z: -1 },
        11 => Gradient { x: 0, y: -1, z: -1 },
        12 => Gradient { x: 1, y: 1, z: 0 },
        13 => Gradient { x: 0, y: -1, z: 1 },
        14 => Gradient { x: -1, y: 1, z: 0 },
        _ => Gradient { x: 0, y: -1, z: -1 },
    }
}

} // verus!
