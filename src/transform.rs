use vstd::prelude::*;
use crate::geometry::{ONE, Vec3i, div_toward_zero, div_round_zero};
use crate::raster::ScreenVertex;

verus! {

/// One row of a 4x4 matrix, in fixed-point units.
#[derive(Clone, Copy, Debug, PartialEq, Eq, Structural)]
pub struct Row4 {
    pub x: i32,
    pub y: i32,
    pub z: i32,
    pub w: i32,
}

/// A 4x4 matrix, row by row, in fixed-point units.
#[derive(Clone, Copy, Debug, PartialEq, Eq, Structural)]
pub struct Mat4 {
    pub r0: Row4,
    pub r1: Row4,
    pub r2: Row4,
    pub r3: Row4,
}

impl Mat4 {
    /// The matrix with the given entries, row by row.
    pub fn new(
        m00: i32, m01: i32, m02: i32, m03: i32,
        m10: i32, m11: i32, m12: i32, m13: i32,
        m20: i32, m21: i32, m22: i32, m23: i32,
        m30: i32, m31: i32, m32: i32, m33: i32,
    ) -> (r: Mat4)
        ensures
            r == (Mat4 {
                r0: Row4 { x: m00, y: m01, z: m02, w: m03 },
                r1: Row4 { x: m10, y: m11, z: m12, w: m13 },
                r2: Row4 { x: m20, y: m21, z: m22, w: m23 },
                r3: Row4 { x: m30, y: m31, z: m32, w: m33 },
            }),
    {
        Mat4 {
            r0: Row4 { x: m00, y: m01, z: m02, w: m03 },
            r1: Row4 { x: m10, y: m11, z: m12, w: m13 },
            r2: Row4 { x: m20, y: m21, z: m22, w: m23 },
            r3: Row4 { x: m30, y: m31, z: m32, w: m33 },
        }
    }

    /// The identity matrix.
    pub fn identity() -> (r: Mat4)
        ensures
            r == (Mat4 {
                r0: Row4 { x: ONE as i32, y: 0, z: 0, w: 0 },
                r1: Row4 { x: 0, y: ONE as i32, z: 0, w: 0 },
                r2: Row4 { x: 0, y: 0, z: ONE as i32, w: 0 },
                r3: Row4 { x: 0, y: 0, z: 0, w: ONE as i32 },
            }),
    {
        let one: i32 = 65536;
        Mat4::new(one, 0, 0, 0, 0, one, 0, 0, 0, 0, one, 0, 0, 0, 0, one)
    }
}

/// A point in homogeneous coordinates, as mathematical integers.
pub struct Hom {
    pub x: int,
    pub y: int,
    pub z: int,
    pub w: int,
}

/// A point in homogeneous fixed-point coordinates.
#[derive(Clone, Copy, Debug, PartialEq, Eq, Structural)]
pub struct Hom64 {
    pub x: i64,
    pub y: i64,
    pub z: i64,
    pub w: i64,
}

impl View for Hom64 {
    type V = Hom;

    open spec fn view(&self) -> Hom {
        Hom { x: self.x as int, y: self.y as int, z: self.z as int, w: self.w as int }
    }
}

pub open spec fn row_dot(r: Row4, v: Hom) -> int {
    r.x * v.x + r.y * v.y + r.z * v.z + r.w * v.w
}

/// One fixed-point entry of a product: the exact sum scaled back by `ONE`,
/// rounded toward zero.
pub open spec fn row_apply(r: Row4, v: Hom) -> int {
    div_toward_zero(row_dot(r, v), ONE as int)
}

/// The fixed-point product of a matrix and a homogeneous point.
pub open spec fn apply(m: Mat4, v: Hom) -> Hom {
    Hom { x: row_apply(m.r0, v), y: row_apply(m.r1, v), z: row_apply(m.r2, v), w: row_apply(m.r3, v) }
}

pub open spec fn fits_i64(n: int) -> bool {
    i64::MIN < n <= i64::MAX
}

pub open spec fn fits_i32(n: int) -> bool {
    i32::MIN <= n <= i32::MAX
}

pub open spec fn fits_hom(v: Hom) -> bool {
    fits_i64(v.x) && fits_i64(v.y) && fits_i64(v.z) && fits_i64(v.w)
}

/// 2^94, a bound on a product of a 32-bit and a 64-bit value.
const B94: i128 = 19807040628566084398385987584;

fn row_apply_exec(r: &Row4, v: &Hom64) -> (res: Option<i64>)
    requires
        v.x > i64::MIN,
        v.y > i64::MIN,
        v.z > i64::MIN,
        v.w > i64::MIN,
    ensures
        res.is_some() == fits_i64(row_apply(*r, v@)),
        res.is_some() ==> res.unwrap() == row_apply(*r, v@),
{
    let b31: i128 = 2147483648;
    let b63: i128 = 9223372036854775808;
    assert(b31 * b63 == B94);
    assert(-B94 <= (r.x as i128) * (v.x as i128) <= B94) by (nonlinear_arith)
        requires -b31 <= r.x <= b31, -b63 <= v.x <= b63, b31 * b63 == B94;
    assert(-B94 <= (r.y as i128) * (v.y as i128) <= B94) by (nonlinear_arith)
        requires -b31 <= r.y <= b31, -b63 <= v.y <= b63, b31 * b63 == B94;
    assert(-B94 <= (r.z as i128) * (v.z as i128) <= B94) by (nonlinear_arith)
        requires -b31 <= r.z <= b31, -b63 <= v.z <= b63, b31 * b63 == B94;
    assert(-B94 <= (r.w as i128) * (v.w as i128) <= B94) by (nonlinear_arith)
        requires -b31 <= r.w <= b31, -b63 <= v.w <= b63, b31 * b63 == B94;
    let sum: i128 = (r.x as i128) * (v.x as i128) + (r.y as i128) * (v.y as i128) + (r.z as i128) * (v.z as i128)
        + (r.w as i128) * (v.w as i128);
    let q = div_round_zero(sum, 65536);
    if q > i64::MIN as i128 && q <= i64::MAX as i128 {
        Some(q as i64)
    } else {
        None
    }
}

/// The fixed-point product `m · v`, or `None` where an entry leaves the
/// 64-bit range.
pub fn apply_exec(m: &Mat4, v: &Hom64) -> (res: Option<Hom64>)
    requires
        fits_hom(v@),
    ensures
        res.is_some() == fits_hom(apply(*m, v@)),
        res.is_some() ==> res.unwrap()@ == apply(*m, v@),
{
    let x = row_apply_exec(&m.r0, v);
    let y = row_apply_exec(&m.r1, v);
    let z = row_apply_exec(&m.r2, v);
    let w = row_apply_exec(&m.r3, v);
    match (x, y, z, w) {
        (Some(x), Some(y), Some(z), Some(w)) => Some(Hom64 { x, y, z, w }),
        _ => None,
    }
}

pub open spec fn row_get(r: Row4, j: int) -> i32 {
    if j == 0 {
        r.x
    } else if j == 1 {
        r.y
    } else if j == 2 {
        r.z
    } else {
        r.w
    }
}

pub open spec fn row_of(m: Mat4, i: int) -> Row4 {
    if i == 0 {
        m.r0
    } else if i == 1 {
        m.r1
    } else if i == 2 {
        m.r2
    } else {
        m.r3
    }
}

pub open spec fn column_of(m: Mat4, j: int) -> Row4 {
    Row4 { x: row_get(m.r0, j), y: row_get(m.r1, j), z: row_get(m.r2, j), w: row_get(m.r3, j) }
}

/// Entry (i, j) of the fixed-point product `a · b`, exactly: the sum of
/// products scaled back by `ONE`, rounded toward zero.
pub open spec fn product_entry(a: Mat4, b: Mat4, i: int, j: int) -> int {
    let r = row_of(a, i);
    let c = column_of(b, j);
    div_toward_zero(r.x * c.x + r.y * c.y + r.z * c.z + r.w * c.w, ONE as int)
}

/// Whether every entry of `a · b` fits the 32-bit fixed-point range.
pub open spec fn product_fits(a: Mat4, b: Mat4) -> bool {
    forall|i: int, j: int| 0 <= i < 4 && 0 <= j < 4 ==> fits_i32(#[trigger] product_entry(a, b, i, j))
}

/// Row `i` of the fixed-point product `a · b`.
pub open spec fn product_row_of(a: Mat4, b: Mat4, i: int) -> Row4 {
    Row4 {
        x: product_entry(a, b, i, 0) as i32,
        y: product_entry(a, b, i, 1) as i32,
        z: product_entry(a, b, i, 2) as i32,
        w: product_entry(a, b, i, 3) as i32,
    }
}

/// The fixed-point product `a · b` (meaningful where `product_fits`).
pub open spec fn product(a: Mat4, b: Mat4) -> Mat4 {
    Mat4 {
        r0: product_row_of(a, b, 0),
        r1: product_row_of(a, b, 1),
        r2: product_row_of(a, b, 2),
        r3: product_row_of(a, b, 3),
    }
}

fn column_exec(m: &Mat4, j: usize) -> (c: Row4)
    requires
        j < 4,
    ensures
        c == column_of(*m, j as int),
{
    if j == 0 {
        Row4 { x: m.r0.x, y: m.r1.x, z: m.r2.x, w: m.r3.x }
    } else if j == 1 {
        Row4 { x: m.r0.y, y: m.r1.y, z: m.r2.y, w: m.r3.y }
    } else if j == 2 {
        Row4 { x: m.r0.z, y: m.r1.z, z: m.r2.z, w: m.r3.z }
    } else {
        Row4 { x: m.r0.w, y: m.r1.w, z: m.r2.w, w: m.r3.w }
    }
}

fn dot_exec(r: &Row4, c: &Row4) -> (res: Option<i32>)
    ensures
        res.is_some() == fits_i32(div_toward_zero(r.x * c.x + r.y * c.y + r.z * c.z + r.w * c.w, ONE as int)),
        res.is_some() ==> res.unwrap() == div_toward_zero(r.x * c.x + r.y * c.y + r.z * c.z + r.w * c.w, ONE as int),
{
    let b31: i128 = 2147483648;
    assert(-b31 * b31 <= (r.x as i128) * (c.x as i128) <= b31 * b31) by (nonlinear_arith)
        requires -b31 <= r.x <= b31, -b31 <= c.x <= b31;
    assert(-b31 * b31 <= (r.y as i128) * (c.y as i128) <= b31 * b31) by (nonlinear_arith)
        requires -b31 <= r.y <= b31, -b31 <= c.y <= b31;
    assert(-b31 * b31 <= (r.z as i128) * (c.z as i128) <= b31 * b31) by (nonlinear_arith)
        requires -b31 <= r.z <= b31, -b31 <= c.z <= b31;
    assert(-b31 * b31 <= (r.w as i128) * (c.w as i128) <= b31 * b31) by (nonlinear_arith)
        requires -b31 <= r.w <= b31, -b31 <= c.w <= b31;
    let sum: i128 = (r.x as i128) * (c.x as i128) + (r.y as i128) * (c.y as i128) + (r.z as i128) * (c.z as i128)
        + (r.w as i128) * (c.w as i128);
    let q = div_round_zero(sum, 65536);
    if q >= i32::MIN as i128 && q <= i32::MAX as i128 {
        Some(q as i32)
    } else {
        None
    }
}

/// Row `i` of `a · b`, or `None` where an entry leaves the range.
fn product_row(a: &Mat4, b: &Mat4, i: usize) -> (res: Option<Row4>)
    requires
        i < 4,
    ensures
        res.is_some() == (forall|j: int| 0 <= j < 4 ==> fits_i32(#[trigger] product_entry(*a, *b, i as int, j))),
        res.is_some() ==> res.unwrap() == product_row_of(*a, *b, i as int),
{
    let r = if i == 0 { a.r0 } else if i == 1 { a.r1 } else if i == 2 { a.r2 } else { a.r3 };
    let c0 = column_exec(b, 0);
    let c1 = column_exec(b, 1);
    let c2 = column_exec(b, 2);
    let c3 = column_exec(b, 3);
    let x = dot_exec(&r, &c0);
    let y = dot_exec(&r, &c1);
    let z = dot_exec(&r, &c2);
    let w = dot_exec(&r, &c3);
    let ghost e0 = product_entry(*a, *b, i as int, 0);
    let ghost e1 = product_entry(*a, *b, i as int, 1);
    let ghost e2 = product_entry(*a, *b, i as int, 2);
    let ghost e3 = product_entry(*a, *b, i as int, 3);
    assert(x.is_some() == fits_i32(e0) && (x.is_some() ==> x.unwrap() == e0));
    assert(y.is_some() == fits_i32(e1) && (y.is_some() ==> y.unwrap() == e1));
    assert(z.is_some() == fits_i32(e2) && (z.is_some() ==> z.unwrap() == e2));
    assert(w.is_some() == fits_i32(e3) && (w.is_some() ==> w.unwrap() == e3));
    match (x, y, z, w) {
        (Some(x), Some(y), Some(z), Some(w)) => {
            let res = Row4 { x, y, z, w };
            assert forall|j: int| 0 <= j < 4 implies fits_i32(#[trigger] product_entry(*a, *b, i as int, j)) by {
                if j == 0 {
                } else if j == 1 {
                } else if j == 2 {
                } else {
                }
            }
            Some(res)
        },
        _ => {
            assert(!fits_i32(e0) || !fits_i32(e1) || !fits_i32(e2) || !fits_i32(e3));
            None
        },
    }
}

impl Mat4 {
    /// The fixed-point product `self · other`, or `None` where an entry
    /// leaves the 32-bit range.
    pub fn mul(&self, other: &Mat4) -> (res: Option<Mat4>)
        ensures
            res.is_some() == product_fits(*self, *other),
            res.is_some() ==> res.unwrap() == product(*self, *other),
    {
        let r0 = product_row(self, other, 0);
        let r1 = product_row(self, other, 1);
        let r2 = product_row(self, other, 2);
        let r3 = product_row(self, other, 3);
        match (r0, r1, r2, r3) {
            (Some(r0), Some(r1), Some(r2), Some(r3)) => {
                assert forall|i: int, j: int| 0 <= i < 4 && 0 <= j < 4 implies fits_i32(
                    #[trigger] product_entry(*self, *other, i, j),
                ) by {
                    if i == 0 {
                    } else if i == 1 {
                    } else if i == 2 {
                    } else {
                    }
                }
                Some(Mat4 { r0, r1, r2, r3 })
            },
            _ => {
                assert(!product_fits(*self, *other)) by {
                    if r0.is_none() {
                        let j = choose|j: int| 0 <= j < 4 && !fits_i32(#[trigger] product_entry(*self, *other, 0, j));
                    } else if r1.is_none() {
                        let j = choose|j: int| 0 <= j < 4 && !fits_i32(#[trigger] product_entry(*self, *other, 1, j));
                    } else if r2.is_none() {
                        let j = choose|j: int| 0 <= j < 4 && !fits_i32(#[trigger] product_entry(*self, *other, 2, j));
                    } else {
                        let j = choose|j: int| 0 <= j < 4 && !fits_i32(#[trigger] product_entry(*self, *other, 3, j));
                    }
                }
                None
            },
        }
    }
}

pub open spec fn rotation_x(s: i32, c: i32) -> Mat4 {
    Mat4 {
        r0: Row4 { x: ONE as i32, y: 0, z: 0, w: 0 },
        r1: Row4 { x: 0, y: c, z: neg_i32(s), w: 0 },
        r2: Row4 { x: 0, y: s, z: c, w: 0 },
        r3: Row4 { x: 0, y: 0, z: 0, w: ONE as i32 },
    }
}

pub open spec fn rotation_y(s: i32, c: i32) -> Mat4 {
    Mat4 {
        r0: Row4 { x: c, y: 0, z: s, w: 0 },
        r1: Row4 { x: 0, y: ONE as i32, z: 0, w: 0 },
        r2: Row4 { x: neg_i32(s), y: 0, z: c, w: 0 },
        r3: Row4 { x: 0, y: 0, z: 0, w: ONE as i32 },
    }
}

pub open spec fn rotation_z(s: i32, c: i32) -> Mat4 {
    Mat4 {
        r0: Row4 { x: c, y: neg_i32(s), z: 0, w: 0 },
        r1: Row4 { x: s, y: c, z: 0, w: 0 },
        r2: Row4 { x: 0, y: 0, z: ONE as i32, w: 0 },
        r3: Row4 { x: 0, y: 0, z: 0, w: ONE as i32 },
    }
}

pub open spec fn scale_translate(t: Vec3i, scale: i32) -> Mat4 {
    Mat4 {
        r0: Row4 { x: scale, y: 0, z: 0, w: t.x },
        r1: Row4 { x: 0, y: scale, z: 0, w: t.y },
        r2: Row4 { x: 0, y: 0, z: scale, w: t.z },
        r3: Row4 { x: 0, y: 0, z: 0, w: ONE as i32 },
    }
}

/// The model matrix of a body: rotation about z, then y, then x composed as
/// `Rz · Ry · Rx`, uniformly scaled by `scale` and translated by
/// `translation`. The rotations come as the fixed-point sines and cosines
/// of the three angles. `None` where an entry leaves the 32-bit range.
pub open spec fn model_matrix_of(translation: Vec3i, scale: i32, sin: Vec3i, cos: Vec3i) -> Option<Mat4> {
    let rzy = product(rotation_z(sin.z, cos.z), rotation_y(sin.y, cos.y));
    let rot = product(rzy, rotation_x(sin.x, cos.x));
    if product_fits(rotation_z(sin.z, cos.z), rotation_y(sin.y, cos.y)) && product_fits(rzy, rotation_x(sin.x, cos.x))
        && product_fits(scale_translate(translation, scale), rot) {
        Some(product(scale_translate(translation, scale), rot))
    } else {
        None
    }
}

/// Negation, saturating at the one value whose negation leaves the range.
pub open spec fn neg_i32(a: i32) -> i32 {
    if a == i32::MIN { i32::MAX } else { -a as i32 }
}

fn neg(a: i32) -> (r: i32)
    ensures
        r == neg_i32(a),
{
    if a == i32::MIN { i32::MAX } else { -a }
}

/// Builds the model matrix of a body (see `model_matrix_of`).
pub fn model_matrix(translation: Vec3i, scale: i32, sin: Vec3i, cos: Vec3i) -> (r: Option<Mat4>)
    ensures
        r == model_matrix_of(translation, scale, sin, cos),
{
    let one: i32 = 65536;
    let rx = Mat4::new(one, 0, 0, 0, 0, cos.x, neg(sin.x), 0, 0, sin.x, cos.x, 0, 0, 0, 0, one);
    let ry = Mat4::new(cos.y, 0, sin.y, 0, 0, one, 0, 0, neg(sin.y), 0, cos.y, 0, 0, 0, 0, one);
    let rz = Mat4::new(cos.z, neg(sin.z), 0, 0, sin.z, cos.z, 0, 0, 0, 0, one, 0, 0, 0, 0, one);
    let ts = Mat4::new(scale, 0, 0, translation.x, 0, scale, 0, translation.y, 0, 0, scale, translation.z, 0, 0, 0, one);
    let rzy = match rz.mul(&ry) {
        Some(m) => m,
        None => return None,
    };
    let rot = match rzy.mul(&rx) {
        Some(m) => m,
        None => return None,
    };
    ts.mul(&rot)
}

/// The matrix that maps normalized device coordinates to pixels of a
/// `width` by `height` buffer: x from [-1, 1] to [0, width], y likewise to
/// [height, 0] (rows grow downwards), z and w kept.
pub fn viewport_matrix(width: u16, height: u16) -> (m: Mat4)
    ensures
        m == (Mat4 {
            r0: Row4 { x: (width * 32768) as i32, y: 0, z: 0, w: (width * 32768) as i32 },
            r1: Row4 { x: 0, y: -(height * 32768) as i32, z: 0, w: (height * 32768) as i32 },
            r2: Row4 { x: 0, y: 0, z: ONE as i32, w: 0 },
            r3: Row4 { x: 0, y: 0, z: 0, w: ONE as i32 },
        }),
{
    let hw: i32 = width as i32 * 32768;
    let hh: i32 = height as i32 * 32768;
    Mat4::new(hw, 0, 0, hw, 0, -hh, 0, hh, 0, 0, 65536, 0, 0, 0, 0, 65536)
}

} // verus!
