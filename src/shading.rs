use vstd::prelude::*;
use crate::geometry::{ONE, Vec3i, div_toward_zero, div_round_zero};
use crate::raster::Fragment;
use crate::pipeline::Uniforms;
use crate::geometry::lemma_div_at_most;

verus! {

/// The kinds of body that the shader knows; each selects a palette.
#[derive(Clone, Copy, Debug, PartialEq, Eq, Structural)]
pub enum CelestialBody {
    Sun,
    RockyPlanet,
    GasGiant,
    CloudyPlanet,
    RingedPlanet,
    IcePlanet,
    ColorPlanet,
    Moon,
    OceanPlanet,
    NaturePlanet,
    AuroraPlanet,
    Spaceship,
}

/// The shading parameters of one kind of body: the colors at the two ends of
/// the noise range, how densely the noise is sampled, whether the pattern
/// drifts with time, and whether the body shines by itself.
#[derive(Clone, Copy, Debug, PartialEq, Eq, Structural)]
pub struct Palette {
    pub dark: u32,
    pub light: u32,
    pub frequency: i64,
    pub animated: bool,
    pub emissive: bool,
}

pub open spec fn palette_of(body: CelestialBody) -> Palette {
    match body {
        CelestialBody::Sun => Palette { dark: 0xFF8C00, light: 0xFFF200, frequency: 4, animated: true, emissive: true },
        CelestialBody::RockyPlanet => Palette { dark: 0x5A3A22, light: 0xA0785A, frequency: 6, animated: false, emissive: false },
        CelestialBody::GasGiant => Palette { dark: 0xB5651D, light: 0xF4D7A1, frequency: 2, animated: true, emissive: false },
        CelestialBody::CloudyPlanet => Palette { dark: 0x1E4D8C, light: 0xF0F0F0, frequency: 3, animated: true, emissive: false },
        CelestialBody::RingedPlanet => Palette { dark: 0x8C7853, light: 0xE8D8A8, frequency: 3, animated: false, emissive: false },
        CelestialBody::IcePlanet => Palette { dark: 0x9FD3E6, light: 0xFFFFFF, frequency: 5, animated: false, emissive: false },
        CelestialBody::ColorPlanet => Palette { dark: 0x8A2BE2, light: 0x00CED1, frequency: 4, animated: true, emissive: false },
        CelestialBody::Moon => Palette { dark: 0x505050, light: 0xBEBEBE, frequency: 8, animated: false, emissive: false },
        CelestialBody::OceanPlanet => Palette { dark: 0x003366, light: 0x1E90FF, frequency: 3, animated: true, emissive: false },
        CelestialBody::NaturePlanet => Palette { dark: 0x1B5E20, light: 0x8BC34A, frequency: 5, animated: false, emissive: false },
        CelestialBody::AuroraPlanet => Palette { dark: 0x0B1D3A, light: 0x39FF88, frequency: 3, animated: true, emissive: false },
        CelestialBody::Spaceship => Palette { dark: 0x707A85, light: 0xC8D0D8, frequency: 1, animated: false, emissive: false },
    }
}

/// The palette of a kind of body.
pub fn palette(body: CelestialBody) -> (r: Palette)
    ensures
        r == palette_of(body),
{
    match body {
        CelestialBody::Sun => Palette { dark: 0xFF8C00, light: 0xFFF200, frequency: 4, animated: true, emissive: true },
        CelestialBody::RockyPlanet => Palette { dark: 0x5A3A22, light: 0xA0785A, frequency: 6, animated: false, emissive: false },
        CelestialBody::GasGiant => Palette { dark: 0xB5651D, light: 0xF4D7A1, frequency: 2, animated: true, emissive: false },
        CelestialBody::CloudyPlanet => Palette { dark: 0x1E4D8C, light: 0xF0F0F0, frequency: 3, animated: true, emissive: false },
        CelestialBody::RingedPlanet => Palette { dark: 0x8C7853, light: 0xE8D8A8, frequency: 3, animated: false, emissive: false },
        CelestialBody::IcePlanet => Palette { dark: 0x9FD3E6, light: 0xFFFFFF, frequency: 5, animated: false, emissive: false },
        CelestialBody::ColorPlanet => Palette { dark: 0x8A2BE2, light: 0x00CED1, frequency: 4, animated: true, emissive: false },
        CelestialBody::Moon => Palette { dark: 0x505050, light: 0xBEBEBE, frequency: 8, animated: false, emissive: false },
        CelestialBody::OceanPlanet => Palette { dark: 0x003366, light: 0x1E90FF, frequency: 3, animated: true, emissive: false },
        CelestialBody::NaturePlanet => Palette { dark: 0x1B5E20, light: 0x8BC34A, frequency: 5, animated: false, emissive: false },
        CelestialBody::AuroraPlanet => Palette { dark: 0x0B1D3A, light: 0x39FF88, frequency: 3, animated: true, emissive: false },
        CelestialBody::Spaceship => Palette { dark: 0x707A85, light: 0xC8D0D8, frequency: 1, animated: false, emissive: false },
    }
}

/// A periodic lattice of coherent-noise samples, `size` to a side, one
/// sample every `cell` fixed-point units, values in fixed point (`ONE` is 1).
pub struct NoiseTable {
    pub size: usize,
    pub cell: i64,
    pub values: Vec<i32>,
}

impl NoiseTable {
    pub open spec fn wf(&self) -> bool {
        &&& 0 < self.size <= 1024
        &&& self.cell > 0
        &&& self.values@.len() == self.size * self.size * self.size
    }

    /// Whether the table is well formed.
    pub fn is_valid(&self) -> (r: bool)
        ensures
            r == self.wf(),
    {
        if self.size == 0 || self.size > 1024 || self.cell <= 0 {
            return false;
        }
        assert(self.size * self.size <= 1048576 && self.size * self.size * self.size <= 1073741824)
            by (nonlinear_arith)
            requires 0 < self.size <= 1024;
        let n: usize = self.size * self.size * self.size;
        self.values.len() == n
    }
}

/// The lattice index of `q` on a periodic lattice of `n` points.
pub open spec fn wrap(q: int, n: int) -> int {
    if q >= 0 {
        q % n
    } else if (-q) % n == 0 {
        0
    } else {
        n - (-q) % n
    }
}

fn wrap_exec(q: i64, n: usize) -> (r: usize)
    requires
        0 < n <= 1024,
    ensures
        r == wrap(q as int, n as int),
        r < n,
{
    let ni: i64 = n as i64;
    if q >= 0 {
        (q % ni) as usize
    } else {
        let m: i64 = if q == i64::MIN { (-(q + ni)) % ni } else { (-q) % ni };
        proof {
            if q == i64::MIN {
                vstd::arithmetic::div_mod::lemma_mod_sub_multiples_vanish(-(q as int), n as int);
            }
        }
        if m == 0 {
            0
        } else {
            (ni - m) as usize
        }
    }
}

/// The lattice cell that a noise coordinate falls in.
pub open spec fn lattice(coord: int, cell: int, n: int) -> int {
    wrap(div_toward_zero(coord, cell), n)
}

/// The noise sample of the lattice cell that holds (x, y, z).
pub open spec fn noise_sample(t: NoiseTable, x: int, y: int, z: int) -> i32 {
    let n = t.size as int;
    t.values@[(lattice(x, t.cell as int, n) * n + lattice(y, t.cell as int, n)) * n + lattice(z, t.cell as int, n)]
}

/// The noise of the lattice cell that holds (x, y, z).
pub fn sample(t: &NoiseTable, x: i64, y: i64, z: i64) -> (r: i32)
    requires
        t.wf(),
    ensures
        r == noise_sample(*t, x as int, y as int, z as int),
{
    let n = t.size;
    let ix = wrap_exec(div_round_zero(x as i128, t.cell as i128) as i64, n);
    let iy = wrap_exec(div_round_zero(y as i128, t.cell as i128) as i64, n);
    let iz = wrap_exec(div_round_zero(z as i128, t.cell as i128) as i64, n);
    assert(n * n <= 1048576 && ix * n + iy < n * n && (ix * n + iy) * n + iz < n * n * n && n * n * n <= 1073741824)
        by (nonlinear_arith)
        requires ix < n, iy < n, iz < n, n <= 1024;
    t.values[(ix * n + iy) * n + iz]
}

/// How far an animated pattern drifts each frame, in fixed-point units.
pub const DRIFT: i64 = 512;

/// The share of a color that shows on a surface facing away from the light.
pub const AMBIENT: i64 = 6554;

/// The point, in noise coordinates, at which a fragment of `body` samples
/// the noise at frame `time`.
pub open spec fn noise_point(world: Vec3i, body: CelestialBody, time: u32) -> (int, int, int) {
    let p = palette_of(body);
    let drift: int = if p.animated { time * DRIFT } else { 0 };
    (world.x * p.frequency + drift, world.y * p.frequency, world.z * p.frequency + drift)
}

/// One 8-bit channel of a 0xRRGGBB color.
pub open spec fn channel(c: u32, shift: u32) -> int {
    ((c >> shift) & 0xFFu32) as int
}

/// Where a noise value puts a pixel between the dark (0) and the light
/// (`ONE`) end of the palette.
pub open spec fn noise_weight(noise: i32) -> int {
    let n: int = if noise < -ONE { -ONE as int } else if noise > ONE { ONE as int } else { noise as int };
    (n + ONE) / 2
}

pub open spec fn mix_channel(d: int, l: int, t: int) -> int {
    (d * (ONE - t) + l * t) / (ONE as int)
}

pub open spec fn abs(a: int) -> int {
    if a < 0 { -a } else { a }
}

/// The diffuse light on a surface of normal `n` at world point `w`, lit by
/// the Sun at the origin, in fixed point: the dot product of the two
/// directions over the product of their sizes (measured as sums of absolute
/// coordinates), clamped to [0, ONE]. A zero normal, or a point at the Sun,
/// is fully lit.
pub open spec fn diffuse(n: Vec3i, w: Vec3i) -> int {
    let dot = -(n.x * w.x + n.y * w.y + n.z * w.z);
    let n1 = abs(n.x as int) + abs(n.y as int) + abs(n.z as int);
    let w1 = abs(w.x as int) + abs(w.y as int) + abs(w.z as int);
    if n1 == 0 || w1 == 0 {
        ONE as int
    } else if dot <= 0 {
        0
    } else if dot * ONE / (n1 * w1) > ONE {
        ONE as int
    } else {
        dot * ONE / (n1 * w1)
    }
}

pub open spec fn lit_channel(c: int, intensity: int) -> int {
    c * (AMBIENT + (ONE - AMBIENT) * intensity / (ONE as int)) / (ONE as int)
}

/// The color of a fragment at world point `world` with normal `normal`, of
/// a body of kind `body`, at frame `time`, with the noise table `table`.
pub open spec fn shade_color(normal: Vec3i, world: Vec3i, body: CelestialBody, time: u32, table: NoiseTable) -> u32 {
    let p = palette_of(body);
    let (nx, ny, nz) = noise_point(world, body, time);
    let t = noise_weight(noise_sample(table, nx, ny, nz));
    let i = if p.emissive { ONE as int } else { diffuse(normal, world) };
    let r = lit_channel(mix_channel(channel(p.dark, 16), channel(p.light, 16), t), i);
    let g = lit_channel(mix_channel(channel(p.dark, 8), channel(p.light, 8), t), i);
    let b = lit_channel(mix_channel(channel(p.dark, 0), channel(p.light, 0), t), i);
    (r * 65536 + g * 256 + b) as u32
}

fn channel_exec(c: u32, shift: u32) -> (r: i64)
    requires
        shift < 32,
    ensures
        r == channel(c, shift),
        0 <= r <= 255,
{
    let v: u32 = (c >> shift) & 0xFFu32;
    assert(v <= 255) by (bit_vector)
        requires v == (c >> shift) & 0xFFu32;
    v as i64
}

fn mix_exec(d: i64, l: i64, t: i64) -> (r: i64)
    requires
        0 <= d <= 255,
        0 <= l <= 255,
        0 <= t <= ONE,
    ensures
        r == mix_channel(d as int, l as int, t as int),
        0 <= r <= 255,
{
    assert(0 <= d * (ONE - t) + l * t <= 255 * ONE) by (nonlinear_arith)
        requires 0 <= d <= 255, 0 <= l <= 255, 0 <= t <= ONE;
    proof {
        lemma_div_at_most(d * (ONE - t) + l * t, ONE as int, 255);
    }
    (d * (65536 - t) + l * t) / 65536
}

fn lit_exec(c: i64, intensity: i64) -> (r: i64)
    requires
        0 <= c <= 255,
        0 <= intensity <= ONE,
    ensures
        r == lit_channel(c as int, intensity as int),
        0 <= r <= 255,
{
    assert(0 <= (ONE - AMBIENT) * intensity <= (ONE - AMBIENT) * ONE) by (nonlinear_arith)
        requires 0 <= intensity <= ONE;
    proof {
        lemma_div_at_most((ONE - AMBIENT) * intensity, ONE as int, ONE - AMBIENT);
    }
    let f: i64 = AMBIENT + (65536 - AMBIENT) * intensity / 65536;
    assert(0 <= c * f <= 255 * ONE) by (nonlinear_arith)
        requires 0 <= c <= 255, 0 <= f <= ONE;
    proof {
        lemma_div_at_most(c * f, ONE as int, 255);
    }
    c * f / 65536
}

fn abs_exec(a: i32) -> (r: i128)
    ensures
        r == abs(a as int),
{
    if a < 0 { -(a as i128) } else { a as i128 }
}

fn diffuse_exec(n: &Vec3i, w: &Vec3i) -> (r: i64)
    ensures
        r == diffuse(*n, *w),
        0 <= r <= ONE,
{
    let b31: i128 = 2147483648;
    assert(-b31 * b31 <= (n.x as i128) * (w.x as i128) <= b31 * b31) by (nonlinear_arith)
        requires -b31 <= n.x <= b31, -b31 <= w.x <= b31;
    assert(-b31 * b31 <= (n.y as i128) * (w.y as i128) <= b31 * b31) by (nonlinear_arith)
        requires -b31 <= n.y <= b31, -b31 <= w.y <= b31;
    assert(-b31 * b31 <= (n.z as i128) * (w.z as i128) <= b31 * b31) by (nonlinear_arith)
        requires -b31 <= n.z <= b31, -b31 <= w.z <= b31;
    let dot: i128 = -((n.x as i128) * (w.x as i128) + (n.y as i128) * (w.y as i128) + (n.z as i128) * (w.z as i128));
    let n1: i128 = abs_exec(n.x) + abs_exec(n.y) + abs_exec(n.z);
    let w1: i128 = abs_exec(w.x) + abs_exec(w.y) + abs_exec(w.z);
    if n1 == 0 || w1 == 0 {
        65536
    } else if dot <= 0 {
        0
    } else {
        assert(0 < n1 * w1 <= 4 * b31 * 4 * b31) by (nonlinear_arith)
            requires 0 < n1 <= 4 * b31, 0 < w1 <= 4 * b31;
        let q: i128 = dot * 65536 / (n1 * w1);
        if q > 65536 {
            65536
        } else {
            q as i64
        }
    }
}

/// Shades a fragment: samples the noise table at the fragment's world point
/// (scaled by the body's frequency, drifting with `time` for animated
/// bodies), blends the body's two palette colors by that noise, and scales
/// the blend by ambient plus diffuse light from the Sun at the origin
/// (emissive bodies are not lit). The result is a 0xRRGGBB color that
/// depends on the fragment, the frame, the body and the table alone.
pub fn fragment_shader(fragment: &Fragment, uniforms: &Uniforms) -> (r: u32)
    requires
        uniforms.noise.wf(),
    ensures
        r == shade_color(fragment.normal, fragment.world, uniforms.current_body, uniforms.time, uniforms.noise),
        r <= 0xFFFFFF,
{
    let p = palette(uniforms.current_body);
    let drift: i64 = if p.animated { uniforms.time as i64 * DRIFT } else { 0 };
    let w = fragment.world;
    assert(1 <= p.frequency <= 8) by {
        match uniforms.current_body {
            CelestialBody::Sun => {},
            CelestialBody::RockyPlanet => {},
            CelestialBody::GasGiant => {},
            CelestialBody::CloudyPlanet => {},
            CelestialBody::RingedPlanet => {},
            CelestialBody::IcePlanet => {},
            CelestialBody::ColorPlanet => {},
            CelestialBody::Moon => {},
            CelestialBody::OceanPlanet => {},
            CelestialBody::NaturePlanet => {},
            CelestialBody::AuroraPlanet => {},
            CelestialBody::Spaceship => {},
        }
    }
    let b31: i64 = 2147483648;
    assert(-b31 * 8 <= w.x * p.frequency <= b31 * 8 && -b31 * 8 <= w.y * p.frequency <= b31 * 8
        && -b31 * 8 <= w.z * p.frequency <= b31 * 8) by (nonlinear_arith)
        requires -b31 <= w.x <= b31, -b31 <= w.y <= b31, -b31 <= w.z <= b31, 1 <= p.frequency <= 8;
    let nx: i64 = w.x as i64 * p.frequency + drift;
    let ny: i64 = w.y as i64 * p.frequency;
    let nz: i64 = w.z as i64 * p.frequency + drift;
    let noise = sample(&uniforms.noise, nx, ny, nz);
    let clamped: i64 = if (noise as i64) < -ONE { -ONE } else if (noise as i64) > ONE { ONE } else { noise as i64 };
    let t: i64 = (clamped + ONE) / 2;
    let i: i64 = if p.emissive { ONE } else { diffuse_exec(&fragment.normal, &fragment.world) };
    let r = lit_exec(mix_exec(channel_exec(p.dark, 16), channel_exec(p.light, 16), t), i);
    let g = lit_exec(mix_exec(channel_exec(p.dark, 8), channel_exec(p.light, 8), t), i);
    let b = lit_exec(mix_exec(channel_exec(p.dark, 0), channel_exec(p.light, 0), t), i);
    ((r * 65536 + g * 256 + b) as u32)
}

/// Shading is a function of its inputs: two fragments with the same normal
/// and world point, shaded for the same body at the same frame with the same
/// noise table, get the same color.
pub proof fn lemma_shading_deterministic(f1: Fragment, f2: Fragment, u1: Uniforms, u2: Uniforms)
    requires
        f1.normal == f2.normal,
        f1.world == f2.world,
        u1.current_body == u2.current_body,
        u1.time == u2.time,
        u1.noise.size == u2.noise.size,
        u1.noise.cell == u2.noise.cell,
        u1.noise.values@ == u2.noise.values@,
    ensures
        shade_color(f1.normal, f1.world, u1.current_body, u1.time, u1.noise)
            == shade_color(f2.normal, f2.world, u2.current_body, u2.time, u2.noise),
{
}

} // verus!
