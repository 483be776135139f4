use vstd::prelude::*;
use vstd::arithmetic::div_mod::{lemma_add_mod_noop_right, lemma_mod_multiples_vanish};
use crate::permutation::{PermutationTable, lookup, low_byte};
use crate::simplex::{middle_for, path_for};

verus! {

/// Three chained table lookups: the Perlin corner hash of lattice point
/// `(a, b, c)`.
pub open spec fn lattice_hash(p: Seq<u8>, a: int, b: int, c: int) -> int {
    lookup(p, lookup(p, lookup(p, a) + b) + c)
}

/// Gradient index of Perlin cell corner `c` (bit 0: x step, bit 1: y step,
/// bit 2: z step) of the cell whose base corner is `(x, y, z)`.
pub open spec fn perlin_gradient_index(p: Seq<u8>, x: int, y: int, z: int, c: int) -> int {
    lattice_hash(p, x + c % 2, y + c / 2 % 2, z + c / 4) % 16
}

/// Gradient index of the 2D simplex corner at lattice point `(i, j)`.
pub open spec fn simplex_2d_gradient_index(p: Seq<u8>, i: int, j: int) -> int {
    lookup(p, i + lookup(p, j)) % 12
}

/// Gradient index of the 3D simplex corner at lattice point `(i, j, k)`.
pub open spec fn simplex_3d_gradient_index(p: Seq<u8>, i: int, j: int, k: int) -> int {
    lookup(p, i + lookup(p, j + lookup(p, k))) % 12
}

proof fn lemma_lookup_residue(p: Seq<u8>, a: int, b: int, c: int)
    requires
        b % 256 == c % 256,
    ensures
        lookup(p, a + b) == lookup(p, a + c),
{
    lemma_add_mod_noop_right(a, b, 256);
    lemma_add_mod_noop_right(a, c, 256);
}

/// Shifting a lookup's argument by any multiple of 256 reaches the same entry.
pub proof fn lemma_lookup_period(p: Seq<u8>, v: int, n: int)
    ensures
        lookup(p, v + 256 * n) == lookup(p, v),
{
    lemma_mod_multiples_vanish(n, v, 256);
}

/// Moving a Perlin cell by a multiple of 256 along any axis leaves every
/// corner's gradient index unchanged.
pub proof fn lemma_perlin_wraparound(p: Seq<u8>, x: int, y: int, z: int, c: int, n: int)
    ensures
        perlin_gradient_index(p, x + 256 * n, y, z, c) == perlin_gradient_index(p, x, y, z, c),
        perlin_gradient_index(p, x, y + 256 * n, z, c) == perlin_gradient_index(p, x, y, z, c),
        perlin_gradient_index(p, x, y, z + 256 * n, c) == perlin_gradient_index(p, x, y, z, c),
{
    let (dx, dy, dz) = (c % 2, c / 2 % 2, c / 4);
    lemma_lookup_period(p, x + dx, n);
    assert(x + 256 * n + dx == x + dx + 256 * n);
    let a = lookup(p, x + dx);
    lemma_lookup_period(p, a + y + dy, n);
    assert(a + (y + 256 * n + dy) == a + y + dy + 256 * n);
    let b = lookup(p, a + y + dy);
    lemma_lookup_period(p, b + z + dz, n);
    assert(b + (z + 256 * n + dz) == b + z + dz + 256 * n);
}

/// Moving a 2D simplex corner by a multiple of 256 along either axis leaves
/// its gradient index unchanged.
pub proof fn lemma_simplex_2d_wraparound(p: Seq<u8>, i: int, j: int, n: int)
    ensures
        simplex_2d_gradient_index(p, i + 256 * n, j) == simplex_2d_gradient_index(p, i, j),
        simplex_2d_gradient_index(p, i, j + 256 * n) == simplex_2d_gradient_index(p, i, j),
{
    lemma_lookup_period(p, j, n);
    let a = lookup(p, j);
    lemma_lookup_period(p, i + a, n);
    assert(i + 256 * n + a == i + a + 256 * n);
}

/// Moving a 3D simplex corner by a multiple of 256 along any axis leaves its
/// gradient index unchanged.
pub proof fn lemma_simplex_3d_wraparound(p: Seq<u8>, i: int, j: int, k: int, n: int)
    ensures
        simplex_3d_gradient_index(p, i + 256 * n, j, k) == simplex_3d_gradient_index(p, i, j, k),
        simplex_3d_gradient_index(p, i, j + 256 * n, k) == simplex_3d_gradient_index(p, i, j, k),
        simplex_3d_gradient_index(p, i, j, k + 256 * n) == simplex_3d_gradient_index(p, i, j, k),
{
    lemma_lookup_period(p, k, n);
    let a = lookup(p, k);
    lemma_lookup_period(p, j + a, n);
    assert(j + 256 * n + a == j + a + 256 * n);
    let b = lookup(p, j + a);
    lemma_lookup_period(p, i + b, n);
    assert(i + 256 * n + b == i + b + 256 * n);
}

impl PermutationTable {
    /// `map(map(map(a) + b) + c)`, each lookup reduced modulo 256.
    fn chain(&self, a: i32, b: i32, c: i32) -> (r: i32)
        requires
            0 <= b < 512,
            0 <= c < 512,
        ensures
            r == lookup(self@, lookup(self@, lookup(self@, a as int) + b) + c),
            0 <= r < 256,
    {
        let first = self.map(a);
        let second = self.map(first + b);
        self.map(second + c)
    }

    fn perlin_corner(&self, x: i32, y: i32, z: i32, dx: i32, dy: i32, dz: i32) -> (r: usize)
        requires
            0 <= dx <= 1,
            0 <= dy <= 1,
            0 <= dz <= 1,
        ensures
            r == lattice_hash(self@, x + dx, y + dy, z + dz) % 16,
    {
        let (lx, ly, lz) = (low_byte(x), low_byte(y), low_byte(z));
        let h = self.chain(lx + dx, ly + dy, lz + dz);
        proof {
            let p = self@;
            lemma_lookup_residue(p, dx as int, lx as int, x as int);
            let a = lookup(p, x + dx);
            lemma_lookup_residue(p, a + dy, ly as int, y as int);
            let b = lookup(p, a + y + dy);
            lemma_lookup_residue(p, b + dz, lz as int, z as int);
        }
        (h % 16) as usize
    }

    fn simplex_corner(&self, i: i32, j: i32, k: i32, di: i32, dj: i32, dk: i32) -> (r: usize)
        requires
            0 <= di <= 1,
            0 <= dj <= 1,
            0 <= dk <= 1,
        ensures
            r == simplex_3d_gradient_index(self@, i + di, j + dj, k + dk),
    {
        let (li, lj, lk) = (low_byte(i), low_byte(j), low_byte(k));
        let h = self.chain(lk + dk, lj + dj, li + di);
        proof {
            let p = self@;
            lemma_lookup_residue(p, dk as int, lk as int, k as int);
            let a = lookup(p, k + dk);
            lemma_lookup_residue(p, a + dj, lj as int, j as int);
            let b = lookup(p, a + j + dj);
            lemma_lookup_residue(p, b + di, li as int, i as int);
        }
        (h % 12) as usize
    }

    fn simplex_2d_corner(&self, i: i32, j: i32, di: i32, dj: i32) -> (r: usize)
        requires
            0 <= di <= 1,
            0 <= dj <= 1,
        ensures
            r == simplex_2d_gradient_index(self@, i + di, j + dj),
    {
        let (li, lj) = (low_byte(i), low_byte(j));
        let inner = self.map(lj + dj);
        let h = self.map(li + di + inner);
        proof {
            let p = self@;
            lemma_lookup_residue(p, dj as int, lj as int, j as int);
            let a = lookup(p, j + dj);
            lemma_lookup_residue(p, a + di, li as int, i as int);
        }
        (h % 12) as usize
    }

    /// Gradient indices of the eight corners of the Perlin cell with base
    /// corner `(x, y, z)`, in interpolation order: corner `c` steps along x
    /// for bit 0, along y for bit 1 and along z for bit 2.
    pub fn perlin_gradient_indices(&self, x: i32, y: i32, z: i32) -> (r: [usize; 8])
        ensures
            forall|c: int|
                0 <= c < 8 ==> #[trigger] r@[c] as int == perlin_gradient_index(
                    self@,
                    x as int,
                    y as int,
                    z as int,
                    c,
                ),
            forall|c: int| 0 <= c < 8 ==> #[trigger] r@[c] < 16,
    {
        let r = [
            self.perlin_corner(x, y, z, 0, 0, 0),
            self.perlin_corner(x, y, z, 1, 0, 0),
            self.perlin_corner(x, y, z, 0, 1, 0),
            self.perlin_corner(x, y, z, 1, 1, 0),
            self.perlin_corner(x, y, z, 0, 0, 1),
            self.perlin_corner(x, y, z, 1, 0, 1),
            self.perlin_corner(x, y, z, 0, 1, 1),
            self.perlin_corner(x, y, z, 1, 1, 1),
        ];
        assert forall|c: int| 0 <= c < 8 implies #[trigger] r@[c] as int == perlin_gradient_index(
            self@,
            x as int,
            y as int,
            z as int,
            c,
        ) by {
            if c == 0 {
            } else if c == 1 {
            } else if c == 2 {
            } else if c == 3 {
            } else if c == 4 {
            } else if c == 5 {
            } else if c == 6 {
            } else {
            }
        }
        r
    }

    /// Gradient indices of the three corners of a 2D simplex with base corner
    /// `(i, j)`: the base, the middle corner that `x_greater` selects, and
    /// `(i + 1, j + 1)`.
    pub fn simplex_2d_gradient_indices(&self, i: i32, j: i32, x_greater: bool) -> (r: [usize; 3])
        ensures
            r@[0] as int == simplex_2d_gradient_index(self@, i as int, j as int),
            r@[1] as int == simplex_2d_gradient_index(
                self@,
                i + middle_for(x_greater).0,
                j + middle_for(x_greater).1,
            ),
            r@[2] as int == simplex_2d_gradient_index(self@, i + 1, j + 1),
            forall|c: int| 0 <= c < 3 ==> #[trigger] r@[c] < 12,
    {
        let (di, dj) = if x_greater {
            (1, 0)
        } else {
            (0, 1)
        };
        let r = [
            self.simplex_2d_corner(i, j, 0, 0),
            self.simplex_2d_corner(i, j, di, dj),
            self.simplex_2d_corner(i, j, 1, 1),
        ];
        assert(r@[0] < 12 && r@[1] < 12 && r@[2] < 12);
        r
    }

    /// Gradient indices of the four corners of a 3D simplex with base corner
    /// `(i, j, k)`: the base, the two intermediate corners of the traversal
    /// that the comparisons select, and `(i + 1, j + 1, k + 1)`.
    pub fn simplex_3d_gradient_indices(
        &self,
        i: i32,
        j: i32,
        k: i32,
        x_ge_y: bool,
        y_ge_z: bool,
        x_ge_z: bool,
    ) -> (r: [usize; 4])
        ensures
            ({
                let path = path_for(x_ge_y, y_ge_z, x_ge_z);
                let (s, t) = (path.second, path.third);
                &&& r@[0] as int == simplex_3d_gradient_index(self@, i as int, j as int, k as int)
                &&& r@[1] as int == simplex_3d_gradient_index(self@, i + s.dx, j + s.dy, k + s.dz)
                &&& r@[2] as int == simplex_3d_gradient_index(self@, i + t.dx, j + t.dy, k + t.dz)
                &&& r@[3] as int == simplex_3d_gradient_index(self@, i + 1, j + 1, k + 1)
            }),
            forall|c: int| 0 <= c < 4 ==> #[trigger] r@[c] < 12,
    {
        let path = crate::simplex::simplex_3d_path(x_ge_y, y_ge_z, x_ge_z);
        let (s, t) = (path.second, path.third);
        let r = [
            self.simplex_corner(i, j, k, 0, 0, 0),
            self.simplex_corner(i, j, k, s.dx, s.dy, s.dz),
            self.simplex_corner(i, j, k, t.dx, t.dy, t.dz),
            self.simplex_corner(i, j, k, 1, 1, 1),
        ];
        assert(r@[0] < 12 && r@[1] < 12 && r@[2] < 12 && r@[3] < 12);
        r
    }
}

} // verus!
