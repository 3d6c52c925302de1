//! Matrices of 4 by 4 fixed-point lanes with twelve fraction bits.

use vstd::prelude::*;
use crate::fixed::floor_div;

verus! {

/// 4x4 matrix
#[derive(Debug, Clone, Copy)]
pub struct Mtx {
    pub m: [[i32; 4]; 4],
}

/// One in the fixed-point format of the matrices.
pub const ONE: i32 = 4096;

/// A row of four lanes.
pub open spec fn row4(a: i32, b: i32, c: i32, d: i32) -> [i32; 4] {
    [a, b, c, d]
}

/// The product of two lanes, exact.
pub fn wide_mul(x: i32, y: i32) -> (r: i128)
    ensures
        r == x as int * y as int,
        -0x4000_0000_0000_0000 <= r <= 0x4000_0000_0000_0000,
{
    assert(-0x4000_0000_0000_0000 <= x as int * y as int <= 0x4000_0000_0000_0000)
        by (nonlinear_arith)
        requires
            -0x8000_0000 <= x as int <= 0x7FFF_FFFF,
            -0x8000_0000 <= y as int <= 0x7FFF_FFFF,
    ;
    (x as i128) * (y as i128)
}

/// A fixed-point sum of products brought back to a lane: the twelve lowest
/// bits are dropped, rounding toward minus infinity, and what does not fit
/// in 32 bits is cut off.
pub open spec fn to_lane(sum: int) -> i32 {
    (sum / 4096) as i32
}

pub fn to_lane_exec(sum: i128) -> (r: i32)
    requires
        -0x4_0000_0000_0000_0000 <= sum <= 0x4_0000_0000_0000_0000,
    ensures
        r == to_lane(sum as int),
{
    let q = floor_div(sum, 4096);
    #[verifier::truncate]
    (q as i32)
}

impl Mtx {
    /// The matrix with every lane zero.
    pub open spec fn zero() -> Mtx {
        Mtx { m: [row4(0, 0, 0, 0), row4(0, 0, 0, 0), row4(0, 0, 0, 0), row4(0, 0, 0, 0)] }
    }

    /// The unit matrix.
    pub open spec fn identity() -> Mtx {
        Mtx {
            m: [row4(ONE, 0, 0, 0), row4(0, ONE, 0, 0), row4(0, 0, ONE, 0), row4(0, 0, 0, ONE)],
        }
    }

    /// Lane `j` of row `i` of the product `self` times `other`.
    pub open spec fn dot(self, other: Mtx, i: int, j: int) -> i32 {
        to_lane(
            self.m[i][0] * other.m[0][j] + self.m[i][1] * other.m[1][j] + self.m[i][2]
                * other.m[2][j] + self.m[i][3] * other.m[3][j],
        )
    }

    /// Row `i` of the product `self` times `other`.
    pub open spec fn times_row(self, other: Mtx, i: int) -> [i32; 4] {
        [self.dot(other, i, 0), self.dot(other, i, 1), self.dot(other, i, 2), self.dot(other, i, 3)]
    }

    /// The product `self` times `other`.
    pub open spec fn times(self, other: Mtx) -> Mtx {
        Mtx {
            m: [
                self.times_row(other, 0),
                self.times_row(other, 1),
                self.times_row(other, 2),
                self.times_row(other, 3),
            ],
        }
    }

    /// The matrix that sixteen parameter words give, row by row.
    pub open spec fn from_words_4x4(p: Seq<u32>) -> Mtx {
        Mtx {
            m: [
                row4(p[0] as i32, p[1] as i32, p[2] as i32, p[3] as i32),
                row4(p[4] as i32, p[5] as i32, p[6] as i32, p[7] as i32),
                row4(p[8] as i32, p[9] as i32, p[10] as i32, p[11] as i32),
                row4(p[12] as i32, p[13] as i32, p[14] as i32, p[15] as i32),
            ],
        }
    }

    /// The matrix that twelve parameter words give: four rows of three
    /// lanes, with the fourth column of the unit matrix.
    pub open spec fn from_words_4x3(p: Seq<u32>) -> Mtx {
        Mtx {
            m: [
                row4(p[0] as i32, p[1] as i32, p[2] as i32, 0),
                row4(p[3] as i32, p[4] as i32, p[5] as i32, 0),
                row4(p[6] as i32, p[7] as i32, p[8] as i32, 0),
                row4(p[9] as i32, p[10] as i32, p[11] as i32, ONE),
            ],
        }
    }

    /// The matrix that nine parameter words give: three rows of three
    /// lanes, with the rest of the unit matrix around them.
    pub open spec fn from_words_3x3(p: Seq<u32>) -> Mtx {
        Mtx {
            m: [
                row4(p[0] as i32, p[1] as i32, p[2] as i32, 0),
                row4(p[3] as i32, p[4] as i32, p[5] as i32, 0),
                row4(p[6] as i32, p[7] as i32, p[8] as i32, 0),
                row4(0, 0, 0, ONE),
            ],
        }
    }

    /// The matrix that scales the three axes by three parameter words.
    pub open spec fn scaling(p: Seq<u32>) -> Mtx {
        Mtx {
            m: [
                row4(p[0] as i32, 0, 0, 0),
                row4(0, p[1] as i32, 0, 0),
                row4(0, 0, p[2] as i32, 0),
                row4(0, 0, 0, ONE),
            ],
        }
    }

    /// The matrix that moves by three parameter words.
    pub open spec fn translation(p: Seq<u32>) -> Mtx {
        Mtx {
            m: [
                row4(ONE, 0, 0, 0),
                row4(0, ONE, 0, 0),
                row4(0, 0, ONE, 0),
                row4(p[0] as i32, p[1] as i32, p[2] as i32, ONE),
            ],
        }
    }

    /// A point with the three coordinates given and weight one, carried
    /// through the matrix: lane `j` of the result.
    pub open spec fn transform_lane(self, x: i16, y: i16, z: i16, j: int) -> i32 {
        to_lane(x * self.m[0][j] + y * self.m[1][j] + z * self.m[2][j] + ONE * self.m[3][j])
    }

    /// A point carried through the matrix.
    pub open spec fn transform(self, x: i16, y: i16, z: i16) -> [i32; 4] {
        [
            self.transform_lane(x, y, z, 0),
            self.transform_lane(x, y, z, 1),
            self.transform_lane(x, y, z, 2),
            self.transform_lane(x, y, z, 3),
        ]
    }

    /// Set matrix values from another matrix
    pub fn set(&mut self, other: &Mtx)
        ensures
            *final(self) == *other,
    {
        self.m = other.m;
    }

    pub fn new_zero() -> (r: Mtx)
        ensures
            r == Mtx::zero(),
    {
        let r = Mtx { m: [[0, 0, 0, 0], [0, 0, 0, 0], [0, 0, 0, 0], [0, 0, 0, 0]] };
        assert(r.m =~= Mtx::zero().m);
        r
    }

    pub fn new_identity() -> (r: Mtx)
        ensures
            r == Mtx::identity(),
    {
        let r = Mtx { m: [[ONE, 0, 0, 0], [0, ONE, 0, 0], [0, 0, ONE, 0], [0, 0, 0, ONE]] };
        assert(r.m =~= Mtx::identity().m);
        r
    }

    /// The matrix that sixteen parameter words give.
    pub fn from_4x4(p: &[u32; 32]) -> (r: Mtx)
        ensures
            r == Mtx::from_words_4x4(p@),
    {
        let r = Mtx {
            m: [
                [p[0] as i32, p[1] as i32, p[2] as i32, p[3] as i32],
                [p[4] as i32, p[5] as i32, p[6] as i32, p[7] as i32],
                [p[8] as i32, p[9] as i32, p[10] as i32, p[11] as i32],
                [p[12] as i32, p[13] as i32, p[14] as i32, p[15] as i32],
            ],
        };
        let ghost e = Mtx::from_words_4x4(p@);
        assert(r.m[0] =~= e.m[0] && r.m[1] =~= e.m[1] && r.m[2] =~= e.m[2] && r.m[3] =~= e.m[3]);
        assert(r.m =~= e.m);
        r
    }

    /// The matrix that twelve parameter words give.
    pub fn from_4x3(p: &[u32; 32]) -> (r: Mtx)
        ensures
            r == Mtx::from_words_4x3(p@),
    {
        let r = Mtx {
            m: [
                [p[0] as i32, p[1] as i32, p[2] as i32, 0],
                [p[3] as i32, p[4] as i32, p[5] as i32, 0],
                [p[6] as i32, p[7] as i32, p[8] as i32, 0],
                [p[9] as i32, p[10] as i32, p[11] as i32, ONE],
            ],
        };
        let ghost e = Mtx::from_words_4x3(p@);
        assert(r.m[0] =~= e.m[0] && r.m[1] =~= e.m[1] && r.m[2] =~= e.m[2] && r.m[3] =~= e.m[3]);
        assert(r.m =~= e.m);
        r
    }

    /// The matrix that nine parameter words give.
    pub fn from_3x3(p: &[u32; 32]) -> (r: Mtx)
        ensures
            r == Mtx::from_words_3x3(p@),
    {
        let r = Mtx {
            m: [
                [p[0] as i32, p[1] as i32, p[2] as i32, 0],
                [p[3] as i32, p[4] as i32, p[5] as i32, 0],
                [p[6] as i32, p[7] as i32, p[8] as i32, 0],
                [0, 0, 0, ONE],
            ],
        };
        let ghost e = Mtx::from_words_3x3(p@);
        assert(r.m[0] =~= e.m[0] && r.m[1] =~= e.m[1] && r.m[2] =~= e.m[2] && r.m[3] =~= e.m[3]);
        assert(r.m =~= e.m);
        r
    }

    /// The matrix that scales by three parameter words.
    pub fn new_scaling(p: &[u32; 32]) -> (r: Mtx)
        ensures
            r == Mtx::scaling(p@),
    {
        let r = Mtx {
            m: [[p[0] as i32, 0, 0, 0], [0, p[1] as i32, 0, 0], [0, 0, p[2] as i32, 0], [0, 0, 0, ONE]],
        };
        let ghost e = Mtx::scaling(p@);
        assert(r.m[0] =~= e.m[0] && r.m[1] =~= e.m[1] && r.m[2] =~= e.m[2] && r.m[3] =~= e.m[3]);
        assert(r.m =~= e.m);
        r
    }

    /// The matrix that moves by three parameter words.
    pub fn new_translation(p: &[u32; 32]) -> (r: Mtx)
        ensures
            r == Mtx::translation(p@),
    {
        let r = Mtx {
            m: [
                [ONE, 0, 0, 0],
                [0, ONE, 0, 0],
                [0, 0, ONE, 0],
                [p[0] as i32, p[1] as i32, p[2] as i32, ONE],
            ],
        };
        let ghost e = Mtx::translation(p@);
        assert(r.m[0] =~= e.m[0] && r.m[1] =~= e.m[1] && r.m[2] =~= e.m[2] && r.m[3] =~= e.m[3]);
        assert(r.m =~= e.m);
        r
    }

    fn dot_exec(&self, other: &Mtx, i: usize, j: usize) -> (r: i32)
        requires
            i < 4,
            j < 4,
        ensures
            r == self.dot(*other, i as int, j as int),
    {
        let sum = wide_mul(self.m[i][0], other.m[0][j]) + wide_mul(self.m[i][1], other.m[1][j])
            + wide_mul(self.m[i][2], other.m[2][j]) + wide_mul(self.m[i][3], other.m[3][j]);
        to_lane_exec(sum)
    }

    fn times_row_exec(&self, other: &Mtx, i: usize) -> (r: [i32; 4])
        requires
            i < 4,
        ensures
            r == self.times_row(*other, i as int),
    {
        let r = [
            self.dot_exec(other, i, 0),
            self.dot_exec(other, i, 1),
            self.dot_exec(other, i, 2),
            self.dot_exec(other, i, 3),
        ];
        assert(r =~= self.times_row(*other, i as int));
        r
    }

    /// The product `self` times `other`.
    pub fn multiply(&self, other: &Mtx) -> (r: Mtx)
        ensures
            r == self.times(*other),
    {
        let r = Mtx {
            m: [
                self.times_row_exec(other, 0),
                self.times_row_exec(other, 1),
                self.times_row_exec(other, 2),
                self.times_row_exec(other, 3),
            ],
        };
        assert(r.m =~= self.times(*other).m);
        r
    }

    fn transform_lane_exec(&self, x: i16, y: i16, z: i16, j: usize) -> (r: i32)
        requires
            j < 4,
        ensures
            r == self.transform_lane(x, y, z, j as int),
    {
        let sum = wide_mul(x as i32, self.m[0][j]) + wide_mul(y as i32, self.m[1][j]) + wide_mul(
            z as i32,
            self.m[2][j],
        ) + wide_mul(ONE, self.m[3][j]);
        to_lane_exec(sum)
    }

    /// A point carried through the matrix.
    pub fn transform_point(&self, x: i16, y: i16, z: i16) -> (r: [i32; 4])
        ensures
            r == self.transform(x, y, z),
    {
        let r = [
            self.transform_lane_exec(x, y, z, 0),
            self.transform_lane_exec(x, y, z, 1),
            self.transform_lane_exec(x, y, z, 2),
            self.transform_lane_exec(x, y, z, 3),
        ];
        assert(r =~= self.transform(x, y, z));
        r
    }
}

impl Default for Mtx {
    fn default() -> (r: Mtx)
        ensures
            r == Mtx::zero(),
    {
        Mtx::new_zero()
    }
}

} // verus!
