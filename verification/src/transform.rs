//! Fixed-point transform pipeline.
//!
//! The view of the cube is the composition of a perspective projection
//! with a model-view matrix built as: translate by `(0, 0, -6)`, then
//! rotate about the X axis by the pitch, then rotate about the Y axis
//! by the yaw — in that order.  Matrices are 4x4, stored column-major.
//!
//! All values are fixed-point integers.  Sine and cosine factors are
//! supplied by the caller in units of `ONE`; model-view entries come
//! out in units of `SCALE2 = ONE * ONE`, projection entries in units
//! of `ONE`.

use vstd::prelude::*;
use vstd::arithmetic::div_mod::lemma_div_nonincreasing;

verus! {

/// Fixed-point unit of sine/cosine inputs and projection entries.
pub const ONE: i64 = 65536;

/// Fixed-point unit of model-view entries: `ONE * ONE`.
pub const SCALE2: i64 = 4294967296;

/// `1 / tan(45 degrees / 2)` in `ONE` units: the focal factor of a
/// 45-degree field of view.
pub const PROJ_F: i64 = 158218;

/// `-(far + near) / (far - near)` in `ONE` units, for near 1 and
/// far 100: the depth-mapping diagonal entry, `-101/99` rounded.
pub const PROJ_ZZ: i64 = -66860;

/// `-2 * far * near / (far - near)` in `ONE` units, for near 1 and
/// far 100: the depth-mapping translation entry, `-200/99` rounded.
pub const PROJ_ZW: i64 = -132396;

/// A 4x4 matrix of fixed-point entries, stored column-major: entry
/// `(column c, row r)` lives at index `c * 4 + r`.
#[derive(Clone, Copy, Debug)]
pub struct Mat4 {
    pub e: [i64; 16],
}

impl Mat4 {
    /// The entries as mathematical integers, column-major.
    pub open spec fn as_ints(self) -> Seq<int> {
        Seq::new(16, |i: int| self.e@[i] as int)
    }

    /// Every entry bounded by `b` in magnitude.
    pub open spec fn bounded(self, b: int) -> bool {
        forall|i: int| 0 <= i < 16 ==> -b <= #[trigger] self.e@[i] <= b
    }
}

/// The projection and model-view pair consumed by the render step,
/// rebuilt fresh every frame.
#[derive(Clone, Copy, Debug)]
pub struct TransformPair {
    pub projection: Mat4,
    pub model_view: Mat4,
}

/// Column-major product of two 4x4 integer matrices.
pub open spec fn mat_mul_spec(a: Seq<int>, b: Seq<int>) -> Seq<int> {
    Seq::new(
        16,
        |i: int|
            {
                let c = i / 4;
                let r = i % 4;
                a[0 * 4 + r] * b[c * 4 + 0] + a[1 * 4 + r] * b[c * 4 + 1] + a[2 * 4 + r] * b[c * 4
                    + 2] + a[3 * 4 + r] * b[c * 4 + 3]
            },
    )
}

/// Translation by `(tx, ty, tz)`, unscaled (unit 1).
pub open spec fn translation_spec(tx: int, ty: int, tz: int) -> Seq<int> {
    seq![1, 0, 0, 0, 0, 1, 0, 0, 0, 0, 1, 0, tx, ty, tz, 1]
}

/// Rotation about the X axis with sine `s` and cosine `c` in `ONE`
/// units.
pub open spec fn rot_x_spec(s: int, c: int) -> Seq<int> {
    seq![65536, 0, 0, 0, 0, c, s, 0, 0, -s, c, 0, 0, 0, 0, 65536]
}

/// Rotation about the Y axis with sine `s` and cosine `c` in `ONE`
/// units.
pub open spec fn rot_y_spec(s: int, c: int) -> Seq<int> {
    seq![c, 0, -s, 0, 0, 65536, 0, 0, s, 0, c, 0, 0, 0, 0, 65536]
}

/// Every entry of the model-view matrix, in `SCALE2` units: the
/// composition of the translation by `(0, 0, -6)` with the X rotation
/// by the pitch (sine `s1`, cosine `c1`) and then the Y rotation by
/// the yaw (sine `s2`, cosine `c2`).
pub open spec fn model_view_spec(s1: int, c1: int, s2: int, c2: int) -> Seq<int> {
    seq![
        c2 * 65536,
        s1 * s2,
        -(c1 * s2),
        0,
        0,
        c1 * 65536,
        s1 * 65536,
        0,
        s2 * 65536,
        -(s1 * c2),
        c1 * c2,
        0,
        0,
        0,
        -25769803776,
        4294967296,
    ]
}

/// Law: the model-view entries are exactly the matrix product
/// translation x X-rotation x Y-rotation, in that order; swapping the
/// rotations would change the mixed sine entries.
pub proof fn lemma_model_view_is_composition(s1: int, c1: int, s2: int, c2: int)
    ensures
        model_view_spec(s1, c1, s2, c2) =~= mat_mul_spec(
            mat_mul_spec(translation_spec(0, 0, -6), rot_x_spec(s1, c1)),
            rot_y_spec(s2, c2),
        ),
{
    assert((-s1) * (-s2) == s1 * s2) by (nonlinear_arith);
    assert(c1 * (-s2) == -(c1 * s2)) by (nonlinear_arith);
    assert((-s1) * c2 == -(s1 * c2)) by (nonlinear_arith);
    let t = translation_spec(0, 0, -6);
    let rx = rot_x_spec(s1, c1);
    let ry = rot_y_spec(s2, c2);
    let tr = mat_mul_spec(t, rx);
    lemma_mat_entry(t, rx, 0, 1, 0, 0, 0, 65536, 0, 0, 0);
    lemma_mat_entry(t, rx, 1, 0, 1, 0, 0, 65536, 0, 0, 0);
    lemma_mat_entry(t, rx, 2, 0, 0, 1, -6, 65536, 0, 0, 0);
    lemma_mat_entry(t, rx, 3, 0, 0, 0, 1, 65536, 0, 0, 0);
    lemma_mat_entry(t, rx, 4, 1, 0, 0, 0, 0, c1, s1, 0);
    lemma_mat_entry(t, rx, 5, 0, 1, 0, 0, 0, c1, s1, 0);
    lemma_mat_entry(t, rx, 6, 0, 0, 1, -6, 0, c1, s1, 0);
    lemma_mat_entry(t, rx, 7, 0, 0, 0, 1, 0, c1, s1, 0);
    lemma_mat_entry(t, rx, 8, 1, 0, 0, 0, 0, -s1, c1, 0);
    lemma_mat_entry(t, rx, 9, 0, 1, 0, 0, 0, -s1, c1, 0);
    lemma_mat_entry(t, rx, 10, 0, 0, 1, -6, 0, -s1, c1, 0);
    lemma_mat_entry(t, rx, 11, 0, 0, 0, 1, 0, -s1, c1, 0);
    lemma_mat_entry(t, rx, 12, 1, 0, 0, 0, 0, 0, 0, 65536);
    lemma_mat_entry(t, rx, 13, 0, 1, 0, 0, 0, 0, 0, 65536);
    lemma_mat_entry(t, rx, 14, 0, 0, 1, -6, 0, 0, 0, 65536);
    lemma_mat_entry(t, rx, 15, 0, 0, 0, 1, 0, 0, 0, 65536);
    lemma_mat_entry(tr, ry, 0, 65536, 0, 0, 0, c2, 0, -s2, 0);
    lemma_mat_entry(tr, ry, 1, 0, c1, -s1, 0, c2, 0, -s2, 0);
    lemma_mat_entry(tr, ry, 2, 0, s1, c1, -393216, c2, 0, -s2, 0);
    lemma_mat_entry(tr, ry, 3, 0, 0, 0, 65536, c2, 0, -s2, 0);
    lemma_mat_entry(tr, ry, 4, 65536, 0, 0, 0, 0, 65536, 0, 0);
    lemma_mat_entry(tr, ry, 5, 0, c1, -s1, 0, 0, 65536, 0, 0);
    lemma_mat_entry(tr, ry, 6, 0, s1, c1, -393216, 0, 65536, 0, 0);
    lemma_mat_entry(tr, ry, 7, 0, 0, 0, 65536, 0, 65536, 0, 0);
    lemma_mat_entry(tr, ry, 8, 65536, 0, 0, 0, s2, 0, c2, 0);
    lemma_mat_entry(tr, ry, 9, 0, c1, -s1, 0, s2, 0, c2, 0);
    lemma_mat_entry(tr, ry, 10, 0, s1, c1, -393216, s2, 0, c2, 0);
    lemma_mat_entry(tr, ry, 11, 0, 0, 0, 65536, s2, 0, c2, 0);
    lemma_mat_entry(tr, ry, 12, 65536, 0, 0, 0, 0, 0, 0, 65536);
    lemma_mat_entry(tr, ry, 13, 0, c1, -s1, 0, 0, 0, 0, 65536);
    lemma_mat_entry(tr, ry, 14, 0, s1, c1, -393216, 0, 0, 0, 65536);
    lemma_mat_entry(tr, ry, 15, 0, 0, 0, 65536, 0, 0, 0, 65536);
    let lhs = model_view_spec(s1, c1, s2, c2);
    let rhs = mat_mul_spec(tr, ry);
    assert forall|i: int| 0 <= i < 16 implies lhs[i] == rhs[i] by {
        if i == 0 {
            assert(lhs[0] == rhs[0]);
        } else if i == 1 {
            assert(lhs[1] == rhs[1]);
        } else if i == 2 {
            assert(lhs[2] == rhs[2]);
        } else if i == 3 {
            assert(lhs[3] == rhs[3]);
        } else if i == 4 {
            assert(lhs[4] == rhs[4]);
        } else if i == 5 {
            assert(lhs[5] == rhs[5]);
        } else if i == 6 {
            assert(lhs[6] == rhs[6]);
        } else if i == 7 {
            assert(lhs[7] == rhs[7]);
        } else if i == 8 {
            assert(lhs[8] == rhs[8]);
        } else if i == 9 {
            assert(lhs[9] == rhs[9]);
        } else if i == 10 {
            assert(lhs[10] == rhs[10]);
        } else if i == 11 {
            assert(lhs[11] == rhs[11]);
        } else if i == 12 {
            assert(lhs[12] == rhs[12]);
        } else if i == 13 {
            assert(lhs[13] == rhs[13]);
        } else if i == 14 {
            assert(lhs[14] == rhs[14]);
        } else {
            assert(lhs[15] == rhs[15]);
        }
    }
}

/// Law: with both angles at zero (sine 0, cosine `ONE`) the model-view
/// matrix is the pure translation by `(0, 0, -6)`, scaled to `SCALE2`
/// units: rotating by zero changes nothing.
pub proof fn lemma_model_view_zero_is_translation()
    ensures
        model_view_spec(0, 65536, 0, 65536) =~= Seq::new(
            16,
            |i: int| 4294967296 * translation_spec(0, 0, -6)[i],
        ),
{
}

/// The image of a direction `(x, y, z)` under the rotation part of a
/// column-major matrix (the translation column is not applied).
pub open spec fn dir_image_spec(m: Seq<int>, x: int, y: int, z: int) -> (int, int, int) {
    (
        m[0] * x + m[4] * y + m[8] * z,
        m[1] * x + m[5] * y + m[9] * z,
        m[2] * x + m[6] * y + m[10] * z,
    )
}

/// Law: a quarter turn of yaw (sine `ONE`, cosine 0, pitch zero) maps
/// the unit X direction to the negative Z direction, as a Y-axis
/// rotation by 90 degrees must.  The image is in `SCALE2 * ONE` units.
pub proof fn lemma_quarter_turn_maps_x_to_neg_z()
    ensures
        dir_image_spec(model_view_spec(0, 65536, 65536, 0), 65536, 0, 0) == (
            0int,
            0int,
            -281474976710656,
        ),
{
}

/// Build the model-view matrix from the sine and cosine of the pitch
/// (`s1`, `c1`) and of the yaw (`s2`, `c2`), each in `ONE` units.
pub fn model_view(s1: i64, c1: i64, s2: i64, c2: i64) -> (m: Mat4)
    requires
        -ONE <= s1 <= ONE,
        -ONE <= c1 <= ONE,
        -ONE <= s2 <= ONE,
        -ONE <= c2 <= ONE,
    ensures
        m.as_ints() =~= model_view_spec(s1 as int, c1 as int, s2 as int, c2 as int),
        m.bounded(6 * SCALE2),
{
    proof {
        lemma_mul_bound(s1 as int, s2 as int, 65536, 65536);
        lemma_mul_bound(c1 as int, s2 as int, 65536, 65536);
        lemma_mul_bound(s1 as int, c2 as int, 65536, 65536);
        lemma_mul_bound(c1 as int, c2 as int, 65536, 65536);
    }
    Mat4 {
        e: [
            c2 * 65536,
            s1 * s2,
            -(c1 * s2),
            0,
            0,
            c1 * 65536,
            s1 * 65536,
            0,
            s2 * 65536,
            -(s1 * c2),
            c1 * c2,
            0,
            0,
            0,
            -6 * 4294967296,
            4294967296,
        ],
    }
}

/// Every entry of the perspective projection, in `ONE` units, for a
/// 45-degree field of view, near plane 1, far plane 100 and a
/// `width / height` aspect ratio: the focal factor divided by the
/// aspect ratio, the focal factor, the two depth-mapping entries, and
/// the `-1` that turns depth into the perspective divisor.
pub open spec fn perspective_spec(width: int, height: int) -> Seq<int> {
    seq![
        (158218 * height) / width,
        0,
        0,
        0,
        0,
        158218,
        0,
        0,
        0,
        0,
        -66860,
        -65536,
        0,
        0,
        -132396,
        0,
    ]
}

/// Build the perspective projection for a viewport of the given pixel
/// dimensions.
///
/// A zero dimension makes the aspect ratio degenerate, so it is
/// detected and rejected before any matrix arithmetic: the result is
/// `None` exactly on those viewports.
pub fn perspective(width: u32, height: u32) -> (r: Option<Mat4>)
    ensures
        r is Some <==> width > 0 && height > 0,
        r is Some ==> r->Some_0.as_ints() =~= perspective_spec(width as int, height as int),
{
    if width == 0 || height == 0 {
        None
    } else {
        let p: u64 = 158218 * (height as u64);
        proof {
            lemma_div_nonincreasing(p as int, width as int);
        }
        let fa: i64 = (p / (width as u64)) as i64;
        Some(
            Mat4 {
                e: [fa, 0, 0, 0, 0, 158218, 0, 0, 0, 0, -66860, -65536, 0, 0, -132396, 0],
            },
        )
    }
}

/// Build the per-frame transform pair from the sine and cosine of the
/// pitch and yaw (each in `ONE` units) and the viewport dimensions.
/// `None` exactly when the viewport is degenerate.
pub fn build_transforms(s1: i64, c1: i64, s2: i64, c2: i64, width: u32, height: u32) -> (r: Option<
    TransformPair,
>)
    requires
        -ONE <= s1 <= ONE,
        -ONE <= c1 <= ONE,
        -ONE <= s2 <= ONE,
        -ONE <= c2 <= ONE,
    ensures
        r is Some <==> width > 0 && height > 0,
        r is Some ==> r->Some_0.projection.as_ints() =~= perspective_spec(
            width as int,
            height as int,
        ),
        r is Some ==> r->Some_0.model_view.as_ints() =~= model_view_spec(
            s1 as int,
            c1 as int,
            s2 as int,
            c2 as int,
        ),
{
    match perspective(width, height) {
        None => None,
        Some(projection) => Some(
            TransformPair { projection, model_view: model_view(s1, c1, s2, c2) },
        ),
    }
}

/// Apply the rotation part of a matrix to a direction `(x, y, z)`,
/// ignoring the translation column.  With model-view entries in
/// `SCALE2` units and a direction in `ONE` units, the image is in
/// `SCALE2 * ONE` units.
pub fn transform_direction(m: &Mat4, x: i64, y: i64, z: i64) -> (r: [i64; 3])
    requires
        m.bounded(6 * SCALE2),
        -ONE <= x <= ONE,
        -ONE <= y <= ONE,
        -ONE <= z <= ONE,
    ensures
        (r@[0] as int, r@[1] as int, r@[2] as int) == dir_image_spec(
            m.as_ints(),
            x as int,
            y as int,
            z as int,
        ),
{
    proof {
        lemma_mul_bound(m.e@[0] as int, x as int, 25769803776, 65536);
        lemma_mul_bound(m.e@[4] as int, y as int, 25769803776, 65536);
        lemma_mul_bound(m.e@[8] as int, z as int, 25769803776, 65536);
        lemma_mul_bound(m.e@[1] as int, x as int, 25769803776, 65536);
        lemma_mul_bound(m.e@[5] as int, y as int, 25769803776, 65536);
        lemma_mul_bound(m.e@[9] as int, z as int, 25769803776, 65536);
        lemma_mul_bound(m.e@[2] as int, x as int, 25769803776, 65536);
        lemma_mul_bound(m.e@[6] as int, y as int, 25769803776, 65536);
        lemma_mul_bound(m.e@[10] as int, z as int, 25769803776, 65536);
    }
    [
        m.e[0] * x + m.e[4] * y + m.e[8] * z,
        m.e[1] * x + m.e[5] * y + m.e[9] * z,
        m.e[2] * x + m.e[6] * y + m.e[10] * z,
    ]
}

/// Substitute known values into a product: with the multiplication
/// otherwise opaque to the linear solver, `a == av` and `b == bv` give
/// `a * b == av * bv`.
proof fn lemma_mul_subst(a: int, b: int, av: int, bv: int)
    requires
        a == av,
        b == bv,
    ensures
        a * b == av * bv,
{
    assert(a * b == av * bv) by (nonlinear_arith)
        requires
            a == av,
            b == bv,
    ;
}

/// One entry of a column-major 4x4 matrix product, as the dot product
/// of the row values `a0..a3` of the left factor and the column values
/// `b0..b3` of the right factor.
proof fn lemma_mat_entry(
    a: Seq<int>,
    b: Seq<int>,
    i: int,
    a0: int,
    a1: int,
    a2: int,
    a3: int,
    b0: int,
    b1: int,
    b2: int,
    b3: int,
)
    requires
        0 <= i < 16,
        a[i % 4] == a0,
        a[4 + i % 4] == a1,
        a[8 + i % 4] == a2,
        a[12 + i % 4] == a3,
        b[(i / 4) * 4] == b0,
        b[(i / 4) * 4 + 1] == b1,
        b[(i / 4) * 4 + 2] == b2,
        b[(i / 4) * 4 + 3] == b3,
    ensures
        mat_mul_spec(a, b)[i] == a0 * b0 + a1 * b1 + a2 * b2 + a3 * b3,
{
    let r = i % 4;
    let c = i / 4;
    assert(mat_mul_spec(a, b)[i] == a[0 * 4 + r] * b[c * 4 + 0] + a[1 * 4 + r] * b[c * 4 + 1] + a[2
        * 4 + r] * b[c * 4 + 2] + a[3 * 4 + r] * b[c * 4 + 3]);
    lemma_mul_subst(a[0 * 4 + r], b[c * 4 + 0], a0, b0);
    lemma_mul_subst(a[1 * 4 + r], b[c * 4 + 1], a1, b1);
    lemma_mul_subst(a[2 * 4 + r], b[c * 4 + 2], a2, b2);
    lemma_mul_subst(a[3 * 4 + r], b[c * 4 + 3], a3, b3);
}

/// A product of two values is bounded by the product of their bounds.
proof fn lemma_mul_bound(a: int, b: int, ab: int, bb: int)
    requires
        -ab <= a <= ab,
        -bb <= b <= bb,
        0 <= ab,
        0 <= bb,
    ensures
        -(ab * bb) <= a * b <= ab * bb,
{
    assert(-(ab * bb) <= a * b <= ab * bb) by (nonlinear_arith)
        requires
            -ab <= a <= ab,
            -bb <= b <= bb,
            0 <= ab,
            0 <= bb,
    ;
}

} // verus!
