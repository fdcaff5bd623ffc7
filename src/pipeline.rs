use vstd::prelude::*;
use crate::geometry::{ONE, Vec3i};
use crate::geometry::{div_toward_zero, div_round_zero};
use crate::transform::{Mat4, Row4, Hom, Hom64, apply, apply_exec, fits_hom, fits_i32};
use crate::shading::{CelestialBody, NoiseTable, fragment_shader, shade_color};
use crate::raster::{ScreenVertex, Fragment, is_rasterization, triangle};
use crate::framebuffer::{Framebuffer, FrameView, lemma_index_in_range};

verus! {

/// What one draw call is rendered with: the four matrices, the frame
/// counter, the noise table and the kind of body drawn.
pub struct Uniforms {
    pub model_matrix: Mat4,
    pub view_matrix: Mat4,
    pub projection_matrix: Mat4,
    pub viewport_matrix: Mat4,
    pub time: u32,
    pub noise: NoiseTable,
    pub current_body: CelestialBody,
}

/// A mesh vertex: a position and a normal in model space, in fixed point.
#[derive(Clone, Copy, Debug, PartialEq, Eq, Structural)]
pub struct Vertex {
    pub position: Vec3i,
    pub normal: Vec3i,
}

pub open spec fn point_hom(p: Vec3i) -> Hom {
    Hom { x: p.x as int, y: p.y as int, z: p.z as int, w: ONE as int }
}

pub open spec fn row3_apply(r: Row4, n: Vec3i) -> int {
    div_toward_zero(r.x * n.x + r.y * n.y + r.z * n.z, ONE as int)
}

/// A normal turned by the upper 3x3 part of a matrix.
pub open spec fn turn_normal(m: Mat4, n: Vec3i) -> (int, int, int) {
    (row3_apply(m.r0, n), row3_apply(m.r1, n), row3_apply(m.r2, n))
}

/// The vertex transform: the position goes through model, view, projection
/// and viewport matrices and the perspective divide, its depth is the
/// divided z in fixed point; the normal is turned by the model matrix and
/// the world point kept. `None` where a value leaves the fixed-point range
/// or where the point does not lie in front of the eye (w not positive).
pub open spec fn transform_vertex(v: Vertex, model: Mat4, view: Mat4, projection: Mat4, viewport: Mat4) -> Option<ScreenVertex> {
    let world = apply(model, point_hom(v.position));
    let eye = apply(view, world);
    let clip = apply(projection, eye);
    let h = apply(viewport, clip);
    let sx = div_toward_zero(h.x, h.w);
    let sy = div_toward_zero(h.y, h.w);
    let depth = div_toward_zero(h.z * ONE, h.w);
    let (nx, ny, nz) = turn_normal(model, v.normal);
    if fits_hom(world) && fits_hom(eye) && fits_hom(clip) && fits_hom(h) && h.w > 0 && fits_i32(sx) && fits_i32(sy)
        && fits_i32(depth) && fits_i32(nx) && fits_i32(ny) && fits_i32(nz) && fits_i32(world.x) && fits_i32(world.y)
        && fits_i32(world.z) {
        Some(
            ScreenVertex {
                x: sx as i32,
                y: sy as i32,
                depth: depth as i32,
                normal: Vec3i { x: nx as i32, y: ny as i32, z: nz as i32 },
                world: Vec3i { x: world.x as i32, y: world.y as i32, z: world.z as i32 },
            },
        )
    } else {
        None
    }
}

pub open spec fn transform_with(v: Vertex, u: Uniforms) -> Option<ScreenVertex> {
    transform_vertex(v, u.model_matrix, u.view_matrix, u.projection_matrix, u.viewport_matrix)
}

fn row3_exec(r: &Row4, n: &Vec3i) -> (res: Option<i32>)
    ensures
        res.is_some() == fits_i32(row3_apply(*r, *n)),
        res.is_some() ==> res.unwrap() == row3_apply(*r, *n),
{
    let b31: i128 = 2147483648;
    assert(-b31 * b31 <= (r.x as i128) * (n.x as i128) <= b31 * b31) by (nonlinear_arith)
        requires -b31 <= r.x <= b31, -b31 <= n.x <= b31;
    assert(-b31 * b31 <= (r.y as i128) * (n.y as i128) <= b31 * b31) by (nonlinear_arith)
        requires -b31 <= r.y <= b31, -b31 <= n.y <= b31;
    assert(-b31 * b31 <= (r.z as i128) * (n.z as i128) <= b31 * b31) by (nonlinear_arith)
        requires -b31 <= r.z <= b31, -b31 <= n.z <= b31;
    let sum: i128 = (r.x as i128) * (n.x as i128) + (r.y as i128) * (n.y as i128) + (r.z as i128) * (n.z as i128);
    let q = div_round_zero(sum, 65536);
    if q >= i32::MIN as i128 && q <= i32::MAX as i128 {
        Some(q as i32)
    } else {
        None
    }
}

fn narrow(n: i128) -> (r: Option<i32>)
    ensures
        r.is_some() == fits_i32(n as int),
        r.is_some() ==> r.unwrap() == n,
{
    if n >= i32::MIN as i128 && n <= i32::MAX as i128 {
        Some(n as i32)
    } else {
        None
    }
}

/// Maps one mesh vertex to viewport space (see `transform_vertex`).
pub fn vertex_shader(vertex: &Vertex, uniforms: &Uniforms) -> (r: Option<ScreenVertex>)
    ensures
        r == transform_with(*vertex, *uniforms),
{
    let p = Hom64 { x: vertex.position.x as i64, y: vertex.position.y as i64, z: vertex.position.z as i64, w: 65536 };
    let world = match apply_exec(&uniforms.model_matrix, &p) {
        Some(h) => h,
        None => return None,
    };
    let eye = match apply_exec(&uniforms.view_matrix, &world) {
        Some(h) => h,
        None => return None,
    };
    let clip = match apply_exec(&uniforms.projection_matrix, &eye) {
        Some(h) => h,
        None => return None,
    };
    let h = match apply_exec(&uniforms.viewport_matrix, &clip) {
        Some(h) => h,
        None => return None,
    };
    if h.w <= 0 {
        return None;
    }
    let sx = narrow(div_round_zero(h.x as i128, h.w as i128));
    let sy = narrow(div_round_zero(h.y as i128, h.w as i128));
    let depth = narrow(div_round_zero(h.z as i128 * 65536, h.w as i128));
    let nx = row3_exec(&uniforms.model_matrix.r0, &vertex.normal);
    let ny = row3_exec(&uniforms.model_matrix.r1, &vertex.normal);
    let nz = row3_exec(&uniforms.model_matrix.r2, &vertex.normal);
    let wx = narrow(world.x as i128);
    let wy = narrow(world.y as i128);
    let wz = narrow(world.z as i128);
    match (sx, sy, depth, nx, ny, nz, wx, wy, wz) {
        (Some(sx), Some(sy), Some(depth), Some(nx), Some(ny), Some(nz), Some(wx), Some(wy), Some(wz)) => Some(
            ScreenVertex {
                x: sx,
                y: sy,
                depth,
                normal: Vec3i { x: nx, y: ny, z: nz },
                world: Vec3i { x: wx, y: wy, z: wz },
            },
        ),
        _ => None,
    }
}

/// Whether `fs` is what rasterizing triangle `t` of the vertex stream `vs`
/// yields on a `w` by `h` buffer: nothing where one of its vertices has no
/// transform.
pub open spec fn triangle_fragments_ok(u: Uniforms, vs: Seq<Vertex>, t: int, w: int, h: int, fs: Seq<Fragment>) -> bool {
    match (transform_with(vs[3 * t], u), transform_with(vs[3 * t + 1], u), transform_with(vs[3 * t + 2], u)) {
        (Some(a), Some(b), Some(c)) => is_rasterization(a, b, c, w, h, fs),
        _ => fs.len() == 0,
    }
}

/// The framebuffer after shading the fragments `fs` in order and writing
/// each that lies inside through the depth test.
pub open spec fn draw_fragments(v: FrameView, u: Uniforms, fs: Seq<Fragment>) -> FrameView
    decreases fs.len(),
{
    if fs.len() == 0 {
        v
    } else {
        let prev = draw_fragments(v, u, fs.drop_last());
        let f = fs.last();
        if f.x < prev.width && f.y < prev.height {
            prev.with_current(shade_color(f.normal, f.world, u.current_body, u.time, u.noise)).plot(
                f.x as int,
                f.y as int,
                f.depth,
            )
        } else {
            prev
        }
    }
}

/// The framebuffer after drawing the fragments of each triangle in order.
pub open spec fn draw_triangles(v: FrameView, u: Uniforms, ts: Seq<Seq<Fragment>>) -> FrameView
    decreases ts.len(),
{
    if ts.len() == 0 {
        v
    } else {
        draw_fragments(draw_triangles(v, u, ts.drop_last()), u, ts.last())
    }
}

proof fn lemma_draw_fragments_shape(v: FrameView, u: Uniforms, fs: Seq<Fragment>)
    ensures
        draw_fragments(v, u, fs).width == v.width,
        draw_fragments(v, u, fs).height == v.height,
        v.wf() ==> draw_fragments(v, u, fs).wf(),
    decreases fs.len(),
{
    if fs.len() > 0 {
        lemma_draw_fragments_shape(v, u, fs.drop_last());
        let prev = draw_fragments(v, u, fs.drop_last());
        let f = fs.last();
        if f.x < prev.width && f.y < prev.height {
            lemma_index_in_range(prev.width, prev.height, f.x as int, f.y as int);
        }
    }
}

proof fn lemma_draw_triangles_shape(v: FrameView, u: Uniforms, ts: Seq<Seq<Fragment>>)
    ensures
        draw_triangles(v, u, ts).width == v.width,
        draw_triangles(v, u, ts).height == v.height,
        v.wf() ==> draw_triangles(v, u, ts).wf(),
    decreases ts.len(),
{
    if ts.len() > 0 {
        lemma_draw_triangles_shape(v, u, ts.drop_last());
        lemma_draw_fragments_shape(draw_triangles(v, u, ts.drop_last()), u, ts.last());
    }
}

/// Shades the fragments in order and writes each one that lies inside
/// through the depth test.
fn draw(framebuffer: &mut Framebuffer, uniforms: &Uniforms, frags: &Vec<Fragment>)
    requires
        old(framebuffer).wf(),
        uniforms.noise.wf(),
    ensures
        final(framebuffer).wf(),
        final(framebuffer)@ == draw_fragments(old(framebuffer)@, *uniforms, frags@),
{
    let width = framebuffer.width();
    let height = framebuffer.height();
    let mut k: usize = 0;
    while k < frags.len()
        invariant
            k <= frags@.len(),
            uniforms.noise.wf(),
            framebuffer.wf(),
            width == old(framebuffer)@.width,
            height == old(framebuffer)@.height,
            framebuffer@ == draw_fragments(old(framebuffer)@, *uniforms, frags@.subrange(0, k as int)),
        decreases frags@.len() - k,
    {
        proof {
            lemma_draw_fragments_shape(old(framebuffer)@, *uniforms, frags@.subrange(0, k as int));
            assert(frags@.subrange(0, k + 1).drop_last() =~= frags@.subrange(0, k as int));
        }
        let f = frags[k];
        if f.x < width && f.y < height {
            let color = fragment_shader(&f, uniforms);
            framebuffer.set_current_color(color);
            framebuffer.point(f.x, f.y, f.depth);
        }
        k = k + 1;
    }
    assert(frags@.subrange(0, frags@.len() as int) =~= frags@);
}

/// Renders one drawable: transforms every vertex, takes each three
/// consecutive vertices as a triangle (a trailing incomplete group is
/// dropped, and so is a triangle with a vertex that has no transform),
/// rasterizes the triangles in order, shades each fragment and writes it
/// through the depth test.
pub fn render(framebuffer: &mut Framebuffer, uniforms: &Uniforms, vertex_array: &Vec<Vertex>)
    requires
        old(framebuffer).wf(),
        uniforms.noise.wf(),
    ensures
        final(framebuffer).wf(),
        exists|ts: Seq<Seq<Fragment>>|
            {
                &&& ts.len() == vertex_array@.len() / 3
                &&& forall|t: int|
                    0 <= t < ts.len() ==> #[trigger] triangle_fragments_ok(
                        *uniforms,
                        vertex_array@,
                        t,
                        old(framebuffer)@.width as int,
                        old(framebuffer)@.height as int,
                        ts[t],
                    )
                &&& final(framebuffer)@ == draw_triangles(old(framebuffer)@, *uniforms, ts)
            },
{
    let n = vertex_array.len();
    let mut transformed: Vec<Option<ScreenVertex>> = Vec::with_capacity(n);
    let mut i: usize = 0;
    while i < n
        invariant
            i <= n,
            n == vertex_array@.len(),
            transformed@.len() == i,
            forall|k: int| 0 <= k < i ==> transformed@[k] == transform_with(vertex_array@[k], *uniforms),
        decreases n - i,
    {
        transformed.push(vertex_shader(&vertex_array[i], uniforms));
        i = i + 1;
    }
    let width = framebuffer.width();
    let height = framebuffer.height();
    let count: usize = n / 3;
    let ghost ts: Seq<Seq<Fragment>> = seq![];
    let mut t: usize = 0;
    while t < count
        invariant
            t <= count,
            count == n / 3,
            n == vertex_array@.len(),
            transformed@.len() == n,
            forall|k: int| 0 <= k < n ==> transformed@[k] == transform_with(vertex_array@[k], *uniforms),
            uniforms.noise.wf(),
            framebuffer.wf(),
            width == old(framebuffer)@.width,
            height == old(framebuffer)@.height,
            ts.len() == t,
            forall|j: int|
                0 <= j < t ==> #[trigger] triangle_fragments_ok(
                    *uniforms,
                    vertex_array@,
                    j,
                    width as int,
                    height as int,
                    ts[j],
                ),
            framebuffer@ == draw_triangles(old(framebuffer)@, *uniforms, ts),
        decreases count - t,
    {
        let b: usize = 3 * t;
        let frags: Vec<Fragment> = match (transformed[b], transformed[b + 1], transformed[b + 2]) {
            (Some(v0), Some(v1), Some(v2)) => triangle(&v0, &v1, &v2, width, height),
            _ => Vec::new(),
        };
        proof {
            lemma_draw_triangles_shape(old(framebuffer)@, *uniforms, ts);
        }
        draw(framebuffer, uniforms, &frags);
        proof {
            let ts2 = ts.push(frags@);
            assert(ts2.drop_last() =~= ts);
            assert(forall|j: int| 0 <= j < t ==> ts2[j] == ts[j]);
            assert(triangle_fragments_ok(*uniforms, vertex_array@, t as int, width as int, height as int, ts2[t as int]));
            ts = ts2;
        }
        t = t + 1;
    }
}

} // verus!
