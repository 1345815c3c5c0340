use vstd::prelude::*;

verus! {

/// Exact sine of `k` quarter turns (`k * 90` degrees), for `k` in [-2, 2].
pub open spec fn qsin(k: int) -> int {
    if k == 1 {
        1
    } else if k == -1 {
        -1
    } else {
        0
    }
}

/// Exact cosine of `k` quarter turns (`k * 90` degrees), for `k` in [-2, 2].
pub open spec fn qcos(k: int) -> int {
    if k == 0 {
        1
    } else if k == 2 || k == -2 {
        -1
    } else {
        0
    }
}

/// Mathematical model of a 3x3 matrix: entries as unbounded integers.
pub struct Mat3View {
    pub m00: int,
    pub m01: int,
    pub m02: int,
    pub m10: int,
    pub m11: int,
    pub m12: int,
    pub m20: int,
    pub m21: int,
    pub m22: int,
}

impl Mat3View {
    /// Every entry lies in [-b, b].
    pub open spec fn bounded(self, b: int) -> bool {
        &&& -b <= self.m00 <= b
        &&& -b <= self.m01 <= b
        &&& -b <= self.m02 <= b
        &&& -b <= self.m10 <= b
        &&& -b <= self.m11 <= b
        &&& -b <= self.m12 <= b
        &&& -b <= self.m20 <= b
        &&& -b <= self.m21 <= b
        &&& -b <= self.m22 <= b
    }
}

/// The identity matrix.
pub open spec fn mat_identity() -> Mat3View {
    Mat3View {
        m00: 1,
        m01: 0,
        m02: 0,
        m10: 0,
        m11: 1,
        m12: 0,
        m20: 0,
        m21: 0,
        m22: 1,
    }
}

/// Row-by-column matrix product `a * b`.
pub open spec fn mat_mul(a: Mat3View, b: Mat3View) -> Mat3View {
    Mat3View {
        m00: a.m00 * b.m00 + a.m01 * b.m10 + a.m02 * b.m20,
        m01: a.m00 * b.m01 + a.m01 * b.m11 + a.m02 * b.m21,
        m02: a.m00 * b.m02 + a.m01 * b.m12 + a.m02 * b.m22,
        m10: a.m10 * b.m00 + a.m11 * b.m10 + a.m12 * b.m20,
        m11: a.m10 * b.m01 + a.m11 * b.m11 + a.m12 * b.m21,
        m12: a.m10 * b.m02 + a.m11 * b.m12 + a.m12 * b.m22,
        m20: a.m20 * b.m00 + a.m21 * b.m10 + a.m22 * b.m20,
        m21: a.m20 * b.m01 + a.m21 * b.m11 + a.m22 * b.m21,
        m22: a.m20 * b.m02 + a.m21 * b.m12 + a.m22 * b.m22,
    }
}

/// Rotation by `k` quarter turns about the X axis.
pub open spec fn rot_x(k: int) -> Mat3View {
    Mat3View {
        m00: 1,
        m01: 0,
        m02: 0,
        m10: 0,
        m11: qcos(k),
        m12: -qsin(k),
        m20: 0,
        m21: qsin(k),
        m22: qcos(k),
    }
}

/// Rotation by `k` quarter turns about the Y axis.
pub open spec fn rot_y(k: int) -> Mat3View {
    Mat3View {
        m00: qcos(k),
        m01: 0,
        m02: qsin(k),
        m10: 0,
        m11: 1,
        m12: 0,
        m20: -qsin(k),
        m21: 0,
        m22: qcos(k),
    }
}

/// Rotation by `k` quarter turns about the Z axis.
pub open spec fn rot_z(k: int) -> Mat3View {
    Mat3View {
        m00: qcos(k),
        m01: -qsin(k),
        m02: 0,
        m10: qsin(k),
        m11: qcos(k),
        m12: 0,
        m20: 0,
        m21: 0,
        m22: 1,
    }
}

/// The rotation of `kx` quarter turns about X, then `ky` about Y, then
/// `kz` about Z, multiplied in that fixed order: `Rx * Ry * Rz`.
pub open spec fn composed_rotation(kx: int, ky: int, kz: int) -> Mat3View {
    mat_mul(rot_x(kx), mat_mul(rot_y(ky), rot_z(kz)))
}

/// The image of the point `(x, y, z)` under the matrix `m`.
pub open spec fn mat_apply(m: Mat3View, x: int, y: int, z: int) -> (int, int, int) {
    (
        m.m00 * x + m.m01 * y + m.m02 * z,
        m.m10 * x + m.m11 * y + m.m12 * z,
        m.m20 * x + m.m21 * y + m.m22 * z,
    )
}

/// A 3x3 matrix with exact integer entries; used to state and check the
/// composed orientation precisely at quarter-turn angles, where every
/// sine and cosine is -1, 0 or 1.
#[derive(Clone, Copy, Debug, PartialEq, Eq, Structural)]
pub struct Mat3 {
    pub m00: i32,
    pub m01: i32,
    pub m02: i32,
    pub m10: i32,
    pub m11: i32,
    pub m12: i32,
    pub m20: i32,
    pub m21: i32,
    pub m22: i32,
}

impl View for Mat3 {
    type V = Mat3View;

    open spec fn view(&self) -> Mat3View {
        Mat3View {
            m00: self.m00 as int,
            m01: self.m01 as int,
            m02: self.m02 as int,
            m10: self.m10 as int,
            m11: self.m11 as int,
            m12: self.m12 as int,
            m20: self.m20 as int,
            m21: self.m21 as int,
            m22: self.m22 as int,
        }
    }
}

/// If `-b1 <= x <= b1` and `-b2 <= y <= b2` then `-b1*b2 <= x*y <= b1*b2`.
proof fn lemma_abs_mul_le(x: int, y: int, b1: int, b2: int)
    requires
        -b1 <= x <= b1,
        -b2 <= y <= b2,
    ensures
        -(b1 * b2) <= x * y <= b1 * b2,
{
    assert(-(b1 * b2) <= x * y <= b1 * b2) by (nonlinear_arith)
        requires
            -b1 <= x <= b1,
            -b2 <= y <= b2,
    ;
}

/// Bounds on the factors carry over to the product: each entry of the
/// product is a sum of three products of entries.
pub proof fn lemma_mat_mul_bounded(a: Mat3View, b: Mat3View, b1: int, b2: int)
    requires
        a.bounded(b1),
        b.bounded(b2),
        0 <= b1,
        0 <= b2,
    ensures
        mat_mul(a, b).bounded(3 * b1 * b2),
{
    lemma_abs_mul_le(a.m00, b.m00, b1, b2);
    lemma_abs_mul_le(a.m00, b.m01, b1, b2);
    lemma_abs_mul_le(a.m00, b.m02, b1, b2);
    lemma_abs_mul_le(a.m01, b.m10, b1, b2);
    lemma_abs_mul_le(a.m01, b.m11, b1, b2);
    lemma_abs_mul_le(a.m01, b.m12, b1, b2);
    lemma_abs_mul_le(a.m02, b.m20, b1, b2);
    lemma_abs_mul_le(a.m02, b.m21, b1, b2);
    lemma_abs_mul_le(a.m02, b.m22, b1, b2);
    lemma_abs_mul_le(a.m10, b.m00, b1, b2);
    lemma_abs_mul_le(a.m10, b.m01, b1, b2);
    lemma_abs_mul_le(a.m10, b.m02, b1, b2);
    lemma_abs_mul_le(a.m11, b.m10, b1, b2);
    lemma_abs_mul_le(a.m11, b.m11, b1, b2);
    lemma_abs_mul_le(a.m11, b.m12, b1, b2);
    lemma_abs_mul_le(a.m12, b.m20, b1, b2);
    lemma_abs_mul_le(a.m12, b.m21, b1, b2);
    lemma_abs_mul_le(a.m12, b.m22, b1, b2);
    lemma_abs_mul_le(a.m20, b.m00, b1, b2);
    lemma_abs_mul_le(a.m20, b.m01, b1, b2);
    lemma_abs_mul_le(a.m20, b.m02, b1, b2);
    lemma_abs_mul_le(a.m21, b.m10, b1, b2);
    lemma_abs_mul_le(a.m21, b.m11, b1, b2);
    lemma_abs_mul_le(a.m21, b.m12, b1, b2);
    lemma_abs_mul_le(a.m22, b.m20, b1, b2);
    lemma_abs_mul_le(a.m22, b.m21, b1, b2);
    lemma_abs_mul_le(a.m22, b.m22, b1, b2);
    assert(3 * b1 * b2 == 3 * (b1 * b2)) by (nonlinear_arith);
}

/// Sum of the pairwise products of two bounded triples of entries.
fn dot3(a0: i32, a1: i32, a2: i32, b0: i32, b1: i32, b2: i32) -> (r: i32)
    requires
        -1000 <= a0 <= 1000,
        -1000 <= a1 <= 1000,
        -1000 <= a2 <= 1000,
        -1000 <= b0 <= 1000,
        -1000 <= b1 <= 1000,
        -1000 <= b2 <= 1000,
    ensures
        r == a0 * b0 + a1 * b1 + a2 * b2,
{
    proof {
        lemma_abs_mul_le(a0 as int, b0 as int, 1000, 1000);
        lemma_abs_mul_le(a1 as int, b1 as int, 1000, 1000);
        lemma_abs_mul_le(a2 as int, b2 as int, 1000, 1000);
    }
    a0 * b0 + a1 * b1 + a2 * b2
}

impl Mat3 {
    /// The identity matrix, which maps every point to itself.
    pub fn identity() -> (r: Mat3)
        ensures
            r@ == mat_identity(),
    {
        Mat3 { m00: 1, m01: 0, m02: 0, m10: 0, m11: 1, m12: 0, m20: 0, m21: 0, m22: 1 }
    }

    /// Row-by-column product `self * rhs`. The entry bound rules out
    /// overflow and is far wider than the compositions of axis rotations
    /// this library builds, whose entries never leave [-1, 1].
    pub fn multiply(&self, rhs: &Mat3) -> (r: Mat3)
        requires
            self@.bounded(1000),
            rhs@.bounded(1000),
        ensures
            r@ == mat_mul(self@, rhs@),
    {
        Mat3 {
            m00: dot3(self.m00, self.m01, self.m02, rhs.m00, rhs.m10, rhs.m20),
            m01: dot3(self.m00, self.m01, self.m02, rhs.m01, rhs.m11, rhs.m21),
            m02: dot3(self.m00, self.m01, self.m02, rhs.m02, rhs.m12, rhs.m22),
            m10: dot3(self.m10, self.m11, self.m12, rhs.m00, rhs.m10, rhs.m20),
            m11: dot3(self.m10, self.m11, self.m12, rhs.m01, rhs.m11, rhs.m21),
            m12: dot3(self.m10, self.m11, self.m12, rhs.m02, rhs.m12, rhs.m22),
            m20: dot3(self.m20, self.m21, self.m22, rhs.m00, rhs.m10, rhs.m20),
            m21: dot3(self.m20, self.m21, self.m22, rhs.m01, rhs.m11, rhs.m21),
            m22: dot3(self.m20, self.m21, self.m22, rhs.m02, rhs.m12, rhs.m22),
        }
    }

    /// The image of `(x, y, z)` under this matrix. The bounds rule out
    /// overflow in the nine products and their sums.
    pub fn transform_point(&self, x: i32, y: i32, z: i32) -> (r: (i32, i32, i32))
        requires
            self@.bounded(1000),
            -100000 <= x <= 100000,
            -100000 <= y <= 100000,
            -100000 <= z <= 100000,
        ensures
            (r.0 as int, r.1 as int, r.2 as int) == mat_apply(self@, x as int, y as int, z as int),
    {
        proof {
            lemma_abs_mul_le(self.m00 as int, x as int, 1000, 100000);
            lemma_abs_mul_le(self.m01 as int, y as int, 1000, 100000);
            lemma_abs_mul_le(self.m02 as int, z as int, 1000, 100000);
            lemma_abs_mul_le(self.m10 as int, x as int, 1000, 100000);
            lemma_abs_mul_le(self.m11 as int, y as int, 1000, 100000);
            lemma_abs_mul_le(self.m12 as int, z as int, 1000, 100000);
            lemma_abs_mul_le(self.m20 as int, x as int, 1000, 100000);
            lemma_abs_mul_le(self.m21 as int, y as int, 1000, 100000);
            lemma_abs_mul_le(self.m22 as int, z as int, 1000, 100000);
        }
        (
            self.m00 * x + self.m01 * y + self.m02 * z,
            self.m10 * x + self.m11 * y + self.m12 * z,
            self.m20 * x + self.m21 * y + self.m22 * z,
        )
    }
}

/// Exact sine of `k` quarter turns, as a machine integer.
pub fn quarter_sin(k: i32) -> (r: i32)
    requires
        -2 <= k <= 2,
    ensures
        r == qsin(k as int),
{
    if k == 1 {
        1
    } else if k == -1 {
        -1
    } else {
        0
    }
}

/// Exact cosine of `k` quarter turns, as a machine integer.
pub fn quarter_cos(k: i32) -> (r: i32)
    requires
        -2 <= k <= 2,
    ensures
        r == qcos(k as int),
{
    if k == 0 {
        1
    } else if k == 2 || k == -2 {
        -1
    } else {
        0
    }
}

/// Rotation by `k` quarter turns about the X axis, as an exact matrix.
pub fn rot_x_quarters(k: i32) -> (r: Mat3)
    requires
        -2 <= k <= 2,
    ensures
        r@ == rot_x(k as int),
        r@.bounded(1),
{
    let c = quarter_cos(k);
    let s = quarter_sin(k);
    Mat3 { m00: 1, m01: 0, m02: 0, m10: 0, m11: c, m12: -s, m20: 0, m21: s, m22: c }
}

/// Rotation by `k` quarter turns about the Y axis, as an exact matrix.
pub fn rot_y_quarters(k: i32) -> (r: Mat3)
    requires
        -2 <= k <= 2,
    ensures
        r@ == rot_y(k as int),
        r@.bounded(1),
{
    let c = quarter_cos(k);
    let s = quarter_sin(k);
    Mat3 { m00: c, m01: 0, m02: s, m10: 0, m11: 1, m12: 0, m20: -s, m21: 0, m22: c }
}

/// Rotation by `k` quarter turns about the Z axis, as an exact matrix.
pub fn rot_z_quarters(k: i32) -> (r: Mat3)
    requires
        -2 <= k <= 2,
    ensures
        r@ == rot_z(k as int),
        r@.bounded(1),
{
    let c = quarter_cos(k);
    let s = quarter_sin(k);
    Mat3 { m00: c, m01: -s, m02: 0, m10: s, m11: c, m12: 0, m20: 0, m21: 0, m22: 1 }
}

/// The composed rotation `Rx(kx) * Ry(ky) * Rz(kz)`, each factor a
/// quarter-turn rotation about its axis, as an exact matrix.
pub fn composed_quarters(kx: i32, ky: i32, kz: i32) -> (r: Mat3)
    requires
        -2 <= kx <= 2,
        -2 <= ky <= 2,
        -2 <= kz <= 2,
    ensures
        r@ == composed_rotation(kx as int, ky as int, kz as int),
        r@.bounded(9),
{
    let rx = rot_x_quarters(kx);
    let ry = rot_y_quarters(ky);
    let rz = rot_z_quarters(kz);
    proof {
        lemma_mat_mul_bounded(ry@, rz@, 1, 1);
        lemma_mat_mul_bounded(rx@, mat_mul(ry@, rz@), 1, 3);
    }
    rx.multiply(&ry.multiply(&rz))
}

/// Law: zero quarter turns about every axis compose to the identity
/// rotation, and the identity rotation moves no point.
pub proof fn lemma_identity_rotation(x: int, y: int, z: int)
    ensures
        composed_rotation(0, 0, 0) == mat_identity(),
        mat_apply(mat_identity(), x, y, z) == (x, y, z),
{
}

} // verus!
