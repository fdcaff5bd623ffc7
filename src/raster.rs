use vstd::prelude::*;
use crate::geometry::{Vec3i, div_toward_zero, div_round_zero, lemma_div_at_most};

verus! {

/// A vertex after the transform stage: pixel coordinates, the depth used by
/// the depth test, and the world-space normal and position kept for shading.
#[derive(Clone, Copy, Debug, PartialEq, Eq, Structural)]
pub struct ScreenVertex {
    pub x: i32,
    pub y: i32,
    pub depth: i32,
    pub normal: Vec3i,
    pub world: Vec3i,
}

/// A covered pixel with the attributes interpolated at it.
#[derive(Clone, Copy, Debug, PartialEq, Eq, Structural)]
pub struct Fragment {
    pub x: usize,
    pub y: usize,
    pub depth: i32,
    pub normal: Vec3i,
    pub world: Vec3i,
}

/// The edge function of the edge from `a` to `b` at (px, py): twice the
/// signed area of the triangle (a, b, p).
pub open spec fn edge(a: ScreenVertex, b: ScreenVertex, px: int, py: int) -> int {
    (b.x - a.x) * (py - a.y) - (b.y - a.y) * (px - a.x)
}

/// Twice the signed area of a triangle.
pub open spec fn area2(v0: ScreenVertex, v1: ScreenVertex, v2: ScreenVertex) -> int {
    edge(v0, v1, v2.x as int, v2.y as int)
}

/// The triangle with its vertices in the order that gives a positive area.
pub open spec fn oriented(v0: ScreenVertex, v1: ScreenVertex, v2: ScreenVertex) -> (
    ScreenVertex,
    ScreenVertex,
    ScreenVertex,
) {
    if area2(v0, v1, v2) < 0 {
        (v0, v2, v1)
    } else {
        (v0, v1, v2)
    }
}

/// The fill rule on a triangle of positive area: the edge from `a` to `b`
/// owns the pixels exactly on it when it is a top edge (horizontal, with the
/// inside below it) or a left edge (running upwards on screen).
pub open spec fn is_top_left(a: ScreenVertex, b: ScreenVertex) -> bool {
    (b.y == a.y && b.x > a.x) || b.y < a.y
}

pub open spec fn inside_edge(a: ScreenVertex, b: ScreenVertex, px: int, py: int) -> bool {
    edge(a, b, px, py) > 0 || (edge(a, b, px, py) == 0 && is_top_left(a, b))
}

/// Whether the pixel (px, py) belongs to the triangle (v0, v1, v2) of
/// positive area.
pub open spec fn covered(v0: ScreenVertex, v1: ScreenVertex, v2: ScreenVertex, px: int, py: int) -> bool {
    &&& inside_edge(v1, v2, px, py)
    &&& inside_edge(v2, v0, px, py)
    &&& inside_edge(v0, v1, px, py)
}

pub open spec fn min3(a: int, b: int, c: int) -> int {
    if a <= b && a <= c {
        a
    } else if b <= c {
        b
    } else {
        c
    }
}

pub open spec fn max3(a: int, b: int, c: int) -> int {
    if a >= b && a >= c {
        a
    } else if b >= c {
        b
    } else {
        c
    }
}

/// The bounding box of the triangle, clamped to a `width` by `height` buffer.
pub open spec fn in_box(
    v0: ScreenVertex,
    v1: ScreenVertex,
    v2: ScreenVertex,
    width: int,
    height: int,
    px: int,
    py: int,
) -> bool {
    &&& 0 <= px < width
    &&& 0 <= py < height
    &&& min3(v0.x as int, v1.x as int, v2.x as int) <= px <= max3(v0.x as int, v1.x as int, v2.x as int)
    &&& min3(v0.y as int, v1.y as int, v2.y as int) <= py <= max3(v0.y as int, v1.y as int, v2.y as int)
}

/// The weighted mean of three values, rounded toward zero.
pub open spec fn interpolate(w0: int, w1: int, w2: int, area: int, q0: int, q1: int, q2: int) -> int {
    div_toward_zero(w0 * q0 + w1 * q1 + w2 * q2, area)
}

/// The fragment of the triangle (v0, v1, v2), of positive area, at (px, py):
/// its attributes are the vertices' attributes weighted by the barycentric
/// weights of the pixel.
pub open spec fn fragment_at(v0: ScreenVertex, v1: ScreenVertex, v2: ScreenVertex, px: int, py: int) -> Fragment {
    let w0 = edge(v1, v2, px, py);
    let w1 = edge(v2, v0, px, py);
    let w2 = edge(v0, v1, px, py);
    let a = area2(v0, v1, v2);
    Fragment {
        x: px as usize,
        y: py as usize,
        depth: interpolate(w0, w1, w2, a, v0.depth as int, v1.depth as int, v2.depth as int) as i32,
        normal: Vec3i {
            x: interpolate(w0, w1, w2, a, v0.normal.x as int, v1.normal.x as int, v2.normal.x as int) as i32,
            y: interpolate(w0, w1, w2, a, v0.normal.y as int, v1.normal.y as int, v2.normal.y as int) as i32,
            z: interpolate(w0, w1, w2, a, v0.normal.z as int, v1.normal.z as int, v2.normal.z as int) as i32,
        },
        world: Vec3i {
            x: interpolate(w0, w1, w2, a, v0.world.x as int, v1.world.x as int, v2.world.x as int) as i32,
            y: interpolate(w0, w1, w2, a, v0.world.y as int, v1.world.y as int, v2.world.y as int) as i32,
            z: interpolate(w0, w1, w2, a, v0.world.z as int, v1.world.z as int, v2.world.z as int) as i32,
        },
    }
}

/// Pixel (x1, y1) comes before pixel (x2, y2) in row-major order.
pub open spec fn before(x1: int, y1: int, x2: int, y2: int) -> bool {
    y1 < y2 || (y1 == y2 && x1 < x2)
}

/// What `triangle` returns: the covered pixels of the clamped box in
/// row-major order, each once, with its interpolated attributes.
pub open spec fn is_rasterization(
    v0: ScreenVertex,
    v1: ScreenVertex,
    v2: ScreenVertex,
    width: int,
    height: int,
    r: Seq<Fragment>,
) -> bool {
    let (a, b, c) = oriented(v0, v1, v2);
    &&& area2(v0, v1, v2) == 0 ==> r.len() == 0
    &&& forall|i: int|
        #![trigger r[i]]
        0 <= i < r.len() ==> {
            &&& in_box(a, b, c, width, height, r[i].x as int, r[i].y as int)
            &&& covered(a, b, c, r[i].x as int, r[i].y as int)
            &&& r[i] == fragment_at(a, b, c, r[i].x as int, r[i].y as int)
        }
    &&& forall|i: int, j: int|
        #![trigger r[i], r[j]]
        0 <= i < j < r.len() ==> before(r[i].x as int, r[i].y as int, r[j].x as int, r[j].y as int)
    &&& area2(v0, v1, v2) != 0 ==> forall|px: int, py: int|
        #![trigger covered(a, b, c, px, py)]
        in_box(a, b, c, width, height, px, py) && covered(a, b, c, px, py) ==> exists|i: int|
            0 <= i < r.len() && r[i].x == px && r[i].y == py
}

/// 2^32, a bound on a difference of two 32-bit coordinates.
const B32: i128 = 4294967296;

/// 2^65, a bound on an edge function value.
const B65: i128 = 36893488147419103232;

fn edge_value(a: &ScreenVertex, b: &ScreenVertex, px: i64, py: i64) -> (r: i128)
    requires
        i32::MIN <= px <= i32::MAX,
        i32::MIN <= py <= i32::MAX,
    ensures
        r == edge(*a, *b, px as int, py as int),
        -B65 < r < B65,
{
    let dx: i128 = b.x as i128 - a.x as i128;
    let dy: i128 = b.y as i128 - a.y as i128;
    let ex: i128 = px as i128 - a.x as i128;
    let ey: i128 = py as i128 - a.y as i128;
    assert(-B32 * B32 < dx * ey < B32 * B32) by (nonlinear_arith)
        requires
            -B32 < dx < B32,
            -B32 < ey < B32,
    ;
    assert(-B32 * B32 < dy * ex < B32 * B32) by (nonlinear_arith)
        requires
            -B32 < dy < B32,
            -B32 < ex < B32,
    ;
    assert(B32 * B32 * 2 == B65);
    dx * ey - dy * ex
}

/// The weights of a covered pixel sum to the doubled area.
pub proof fn lemma_weights_sum(v0: ScreenVertex, v1: ScreenVertex, v2: ScreenVertex, px: int, py: int)
    ensures
        edge(v1, v2, px, py) + edge(v2, v0, px, py) + edge(v0, v1, px, py) == area2(v0, v1, v2),
{
    lemma_edge_sum(v0.x as int, v0.y as int, v1.x as int, v1.y as int, v2.x as int, v2.y as int, px, py);
}

proof fn lemma_edge_sum(x0: int, y0: int, x1: int, y1: int, x2: int, y2: int, px: int, py: int)
    ensures
        (x2 - x1) * (py - y1) - (y2 - y1) * (px - x1) + ((x0 - x2) * (py - y2) - (y0 - y2) * (px - x2))
            + ((x1 - x0) * (py - y0) - (y1 - y0) * (px - x0)) == (x1 - x0) * (y2 - y0) - (y1 - y0) * (x2 - x0),
{
    assert((x2 - x1) * (py - y1) == x2 * py - x2 * y1 - x1 * py + x1 * y1) by (nonlinear_arith);
    assert((y2 - y1) * (px - x1) == y2 * px - y2 * x1 - y1 * px + y1 * x1) by (nonlinear_arith);
    assert((x0 - x2) * (py - y2) == x0 * py - x0 * y2 - x2 * py + x2 * y2) by (nonlinear_arith);
    assert((y0 - y2) * (px - x2) == y0 * px - y0 * x2 - y2 * px + y2 * x2) by (nonlinear_arith);
    assert((x1 - x0) * (py - y0) == x1 * py - x1 * y0 - x0 * py + x0 * y0) by (nonlinear_arith);
    assert((y1 - y0) * (px - x0) == y1 * px - y1 * x0 - y0 * px + y0 * x0) by (nonlinear_arith);
    assert((x1 - x0) * (y2 - y0) == x1 * y2 - x1 * y0 - x0 * y2 + x0 * y0) by (nonlinear_arith);
    assert((y1 - y0) * (x2 - x0) == y1 * x2 - y1 * x0 - y0 * x2 + y0 * x0) by (nonlinear_arith);
    assert(x1 * y1 == y1 * x1 && x2 * y2 == y2 * x2 && x0 * y0 == y0 * x0) by (nonlinear_arith);
    assert(x2 * y1 == y1 * x2 && x1 * y2 == y2 * x1 && x0 * y2 == y2 * x0) by (nonlinear_arith);
    assert(x1 * y0 == y0 * x1 && x0 * y1 == y1 * x0 && x2 * y0 == y0 * x2) by (nonlinear_arith);
}

/// A weighted mean with non-negative weights lies between the least and the
/// greatest of the 32-bit values.
proof fn lemma_mean_bounds(w0: int, w1: int, w2: int, a: int, q0: int, q1: int, q2: int)
    requires
        w0 >= 0,
        w1 >= 0,
        w2 >= 0,
        w0 + w1 + w2 == a,
        a > 0,
        i32::MIN <= q0 <= i32::MAX,
        i32::MIN <= q1 <= i32::MAX,
        i32::MIN <= q2 <= i32::MAX,
    ensures
        i32::MIN <= interpolate(w0, w1, w2, a, q0, q1, q2) <= i32::MAX,
{
    let n = w0 * q0 + w1 * q1 + w2 * q2;
    let hi: int = i32::MAX as int;
    let lo: int = 2147483648;
    assert(n <= a * hi) by (nonlinear_arith)
        requires
            w0 >= 0,
            w1 >= 0,
            w2 >= 0,
            w0 + w1 + w2 == a,
            q0 <= hi,
            q1 <= hi,
            q2 <= hi,
            n == w0 * q0 + w1 * q1 + w2 * q2,
    ;
    assert(-n <= a * lo) by (nonlinear_arith)
        requires
            w0 >= 0,
            w1 >= 0,
            w2 >= 0,
            w0 + w1 + w2 == a,
            -lo <= q0,
            -lo <= q1,
            -lo <= q2,
            n == w0 * q0 + w1 * q1 + w2 * q2,
    ;
    if n >= 0 {
        lemma_div_at_most(n, a, hi);
    } else {
        lemma_div_at_most(-n, a, lo);
    }
}

/// The weighted mean of three 32-bit values, with weights below 2^66 that
/// sum to `area`.
fn interpolate_value(w0: i128, w1: i128, w2: i128, area: i128, q0: i32, q1: i32, q2: i32) -> (r: i32)
    requires
        0 <= w0 < B65,
        0 <= w1 < B65,
        0 <= w2 < B65,
        w0 + w1 + w2 == area,
        area > 0,
    ensures
        r == interpolate(w0 as int, w1 as int, w2 as int, area as int, q0 as int, q1 as int, q2 as int),
{
    let b31: i128 = 2147483648;
    assert(-B65 * b31 <= w0 * (q0 as i128) <= B65 * b31) by (nonlinear_arith)
        requires
            0 <= w0 < B65,
            -b31 <= q0 < b31,
    ;
    assert(-B65 * b31 <= w1 * (q1 as i128) <= B65 * b31) by (nonlinear_arith)
        requires
            0 <= w1 < B65,
            -b31 <= q1 < b31,
    ;
    assert(-B65 * b31 <= w2 * (q2 as i128) <= B65 * b31) by (nonlinear_arith)
        requires
            0 <= w2 < B65,
            -b31 <= q2 < b31,
    ;
    let n: i128 = w0 * (q0 as i128) + w1 * (q1 as i128) + w2 * (q2 as i128);
    let d = div_round_zero(n, area);
    proof {
        lemma_mean_bounds(w0 as int, w1 as int, w2 as int, area as int, q0 as int, q1 as int, q2 as int);
    }
    d as i32
}

fn min_i32(a: i32, b: i32) -> (r: i32)
    ensures
        r == if a <= b { a } else { b },
{
    if a <= b { a } else { b }
}

fn max_i32(a: i32, b: i32) -> (r: i32)
    ensures
        r == if a >= b { a } else { b },
{
    if a >= b { a } else { b }
}

/// Reversing the order of two vertices negates the area.
proof fn lemma_area_swap(v0: ScreenVertex, v1: ScreenVertex, v2: ScreenVertex)
    ensures
        area2(v0, v2, v1) == -area2(v0, v1, v2),
{
    let (x0, y0, x1, y1, x2, y2) = (v0.x as int, v0.y as int, v1.x as int, v1.y as int, v2.x as int, v2.y as int);
    assert((x2 - x0) * (y1 - y0) == (y1 - y0) * (x2 - x0)) by (nonlinear_arith);
    assert((y2 - y0) * (x1 - x0) == (x1 - x0) * (y2 - y0)) by (nonlinear_arith);
}

/// Whether the edge from `a` to `b`, of value `w` at a pixel, lets the pixel in.
fn edge_owns(w: i128, a: &ScreenVertex, b: &ScreenVertex) -> (r: bool)
    ensures
        r == (w > 0 || (w == 0 && is_top_left(*a, *b))),
{
    w > 0 || (w == 0 && ((b.y == a.y && b.x > a.x) || b.y < a.y))
}

/// Interpolates the three vertices' attributes at a pixel of weights
/// (w0, w1, w2).
fn make_fragment(
    a: &ScreenVertex,
    b: &ScreenVertex,
    c: &ScreenVertex,
    x: i64,
    y: i64,
    w0: i128,
    w1: i128,
    w2: i128,
    area: i128,
) -> (r: Fragment)
    requires
        0 <= x <= i32::MAX,
        0 <= y <= i32::MAX,
        w0 == edge(*b, *c, x as int, y as int),
        w1 == edge(*c, *a, x as int, y as int),
        w2 == edge(*a, *b, x as int, y as int),
        0 <= w0 < B65,
        0 <= w1 < B65,
        0 <= w2 < B65,
        area == area2(*a, *b, *c),
        area > 0,
    ensures
        r == fragment_at(*a, *b, *c, x as int, y as int),
{
    proof {
        lemma_weights_sum(*a, *b, *c, x as int, y as int);
    }
    Fragment {
        x: x as usize,
        y: y as usize,
        depth: interpolate_value(w0, w1, w2, area, a.depth, b.depth, c.depth),
        normal: Vec3i {
            x: interpolate_value(w0, w1, w2, area, a.normal.x, b.normal.x, c.normal.x),
            y: interpolate_value(w0, w1, w2, area, a.normal.y, b.normal.y, c.normal.y),
            z: interpolate_value(w0, w1, w2, area, a.normal.z, b.normal.z, c.normal.z),
        },
        world: Vec3i {
            x: interpolate_value(w0, w1, w2, area, a.world.x, b.world.x, c.world.x),
            y: interpolate_value(w0, w1, w2, area, a.world.y, b.world.y, c.world.y),
            z: interpolate_value(w0, w1, w2, area, a.world.z, b.world.z, c.world.z),
        },
    }
}

/// Rasterizes the triangle (v0, v1, v2) on a `width` by `height` buffer:
/// every pixel of its bounding box, clamped to the buffer, whose three edge
/// functions agree in sign (the top-left rule deciding pixels exactly on an
/// edge) yields one fragment, in row-major order, with depth, normal and
/// world position interpolated linearly by the barycentric weights. A
/// triangle of zero area yields no fragment.
pub fn triangle(v0: &ScreenVertex, v1: &ScreenVertex, v2: &ScreenVertex, width: usize, height: usize) -> (r: Vec<Fragment>)
    ensures
        is_rasterization(*v0, *v1, *v2, width as int, height as int, r@),
{
    let mut out: Vec<Fragment> = Vec::new();
    let signed = edge_value(v0, v1, v2.x as i64, v2.y as i64);
    if signed == 0 || width == 0 || height == 0 {
        return out;
    }
    proof {
        lemma_area_swap(*v0, *v1, *v2);
    }
    let (a, b, c) = if signed < 0 { (*v0, *v2, *v1) } else { (*v0, *v1, *v2) };
    let area: i128 = if signed < 0 { -signed } else { signed };
    assert((a, b, c) == oriented(*v0, *v1, *v2));
    let lo_x: i64 = max_i32(min_i32(min_i32(a.x, b.x), c.x), 0) as i64;
    let lo_y: i64 = max_i32(min_i32(min_i32(a.y, b.y), c.y), 0) as i64;
    let mut hi_x: i64 = max_i32(max_i32(a.x, b.x), c.x) as i64;
    let mut hi_y: i64 = max_i32(max_i32(a.y, b.y), c.y) as i64;
    if hi_x as i128 >= width as i128 {
        hi_x = (width - 1) as i64;
    }
    if hi_y as i128 >= height as i128 {
        hi_y = (height - 1) as i64;
    }
    let ghost w = width as int;
    let ghost h = height as int;
    let mut y: i64 = lo_y;
    while y <= hi_y
        invariant
            0 <= lo_x,
            0 <= lo_y <= y,
            y == lo_y || y <= hi_y + 1,
            hi_x <= i32::MAX,
            hi_y <= i32::MAX,
            lo_x == if min3(a.x as int, b.x as int, c.x as int) >= 0 { min3(a.x as int, b.x as int, c.x as int) } else { 0 },
            lo_y == if min3(a.y as int, b.y as int, c.y as int) >= 0 { min3(a.y as int, b.y as int, c.y as int) } else { 0 },
            hi_x == if max3(a.x as int, b.x as int, c.x as int) < w { max3(a.x as int, b.x as int, c.x as int) } else { w - 1 },
            hi_y == if max3(a.y as int, b.y as int, c.y as int) < h { max3(a.y as int, b.y as int, c.y as int) } else { h - 1 },
            (a, b, c) == oriented(*v0, *v1, *v2),
            area == area2(a, b, c),
            area > 0,
            forall|i: int|
                #![trigger out@[i]]
                0 <= i < out@.len() ==> {
                    &&& in_box(a, b, c, w, h, out@[i].x as int, out@[i].y as int)
                    &&& covered(a, b, c, out@[i].x as int, out@[i].y as int)
                    &&& out@[i] == fragment_at(a, b, c, out@[i].x as int, out@[i].y as int)
                    &&& out@[i].y < y
                },
            forall|i: int, j: int|
                #![trigger out@[i], out@[j]]
                0 <= i < j < out@.len() ==> before(out@[i].x as int, out@[i].y as int, out@[j].x as int, out@[j].y as int),
            forall|px: int, py: int|
                #![trigger covered(a, b, c, px, py)]
                in_box(a, b, c, w, h, px, py) && covered(a, b, c, px, py) && py < y ==> exists|i: int|
                    0 <= i < out@.len() && out@[i].x == px && out@[i].y == py,
        decreases hi_y + 1 - y,
    {
        let mut x: i64 = lo_x;
        while x <= hi_x
            invariant
                0 <= lo_x <= x,
                x == lo_x || x <= hi_x + 1,
                0 <= lo_y <= y <= hi_y,
                hi_x <= i32::MAX,
                hi_y <= i32::MAX,
                lo_x == if min3(a.x as int, b.x as int, c.x as int) >= 0 { min3(a.x as int, b.x as int, c.x as int) } else { 0 },
                lo_y == if min3(a.y as int, b.y as int, c.y as int) >= 0 { min3(a.y as int, b.y as int, c.y as int) } else { 0 },
                hi_x == if max3(a.x as int, b.x as int, c.x as int) < w { max3(a.x as int, b.x as int, c.x as int) } else { w - 1 },
                hi_y == if max3(a.y as int, b.y as int, c.y as int) < h { max3(a.y as int, b.y as int, c.y as int) } else { h - 1 },
                (a, b, c) == oriented(*v0, *v1, *v2),
                area == area2(a, b, c),
                area > 0,
                forall|i: int|
                    #![trigger out@[i]]
                    0 <= i < out@.len() ==> {
                        &&& in_box(a, b, c, w, h, out@[i].x as int, out@[i].y as int)
                        &&& covered(a, b, c, out@[i].x as int, out@[i].y as int)
                        &&& out@[i] == fragment_at(a, b, c, out@[i].x as int, out@[i].y as int)
                        &&& before(out@[i].x as int, out@[i].y as int, x as int, y as int)
                    },
                forall|i: int, j: int|
                    #![trigger out@[i], out@[j]]
                    0 <= i < j < out@.len() ==> before(out@[i].x as int, out@[i].y as int, out@[j].x as int, out@[j].y as int),
                forall|px: int, py: int|
                    #![trigger covered(a, b, c, px, py)]
                    in_box(a, b, c, w, h, px, py) && covered(a, b, c, px, py) && before(px, py, x as int, y as int)
                        ==> exists|i: int| 0 <= i < out@.len() && out@[i].x == px && out@[i].y == py,
            decreases hi_x + 1 - x,
        {
            let w0 = edge_value(&b, &c, x, y);
            let w1 = edge_value(&c, &a, x, y);
            let w2 = edge_value(&a, &b, x, y);
            if edge_owns(w0, &b, &c) && edge_owns(w1, &c, &a) && edge_owns(w2, &a, &b) {
                let frag = make_fragment(&a, &b, &c, x, y, w0, w1, w2, area);
                let ghost old_out = out@;
                out.push(frag);
                proof {
                    assert forall|px: int, py: int|
                        #![trigger covered(a, b, c, px, py)]
                        in_box(a, b, c, w, h, px, py) && covered(a, b, c, px, py) && before(px, py, x + 1, y as int)
                            implies exists|i: int| 0 <= i < out@.len() && out@[i].x == px && out@[i].y == py by {
                        if px == x && py == y {
                            assert(out@[old_out.len() as int] == frag);
                        } else {
                            let i = choose|i: int| 0 <= i < old_out.len() && old_out[i].x == px && old_out[i].y == py;
                            assert(out@[i] == old_out[i]);
                        }
                    }
                }
            }
            x = x + 1;
        }
        y = y + 1;
    }
    out
}

} // verus!
