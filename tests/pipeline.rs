use solar_raster::camera::{OrbitState, MIN_DISTANCE, PITCH_LIMIT, TURN};
use solar_raster::framebuffer::{Framebuffer, FAR_DEPTH};
use solar_raster::geometry::{Vec3i, ONE};
use solar_raster::pipeline::{render, vertex_shader, Uniforms, Vertex};
use solar_raster::raster::{triangle, Fragment, ScreenVertex};
use solar_raster::shading::{fragment_shader, palette, sample, CelestialBody, NoiseTable};
use solar_raster::transform::Mat4;

fn sv(x: i32, y: i32, depth: i32) -> ScreenVertex {
    ScreenVertex {
        x,
        y,
        depth,
        normal: Vec3i::new(0, 0, ONE as i32),
        world: Vec3i::new(0, 0, 0),
    }
}

fn zero_noise() -> NoiseTable {
    NoiseTable { size: 2, cell: ONE, values: vec![0; 8] }
}

fn identity_uniforms(body: CelestialBody) -> Uniforms {
    Uniforms {
        model_matrix: Mat4::identity(),
        view_matrix: Mat4::identity(),
        projection_matrix: Mat4::identity(),
        viewport_matrix: Mat4::identity(),
        time: 0,
        noise: zero_noise(),
        current_body: body,
    }
}

fn half_triangle_pixels() -> Vec<(usize, usize)> {
    let mut v = Vec::new();
    for y in 0..4usize {
        for x in 0..4usize {
            if x + y <= 3 {
                v.push((x, y));
            }
        }
    }
    v
}

#[test]
fn new_framebuffer_is_cleared() {
    let fb = Framebuffer::new(3, 2);
    assert_eq!(fb.buffer().len(), 6);
    assert!(fb.buffer().iter().all(|&c| c == 0));
    assert!(fb.zbuffer().iter().all(|&d| d == FAR_DEPTH));
}

#[test]
fn clear_resets_to_background() {
    let mut fb = Framebuffer::new(4, 4);
    fb.set_current_color(0x123456);
    fb.point(1, 1, 10);
    fb.set_background_color(0x000015);
    fb.clear();
    assert!(fb.buffer().iter().all(|&c| c == 0x000015));
    assert!(fb.zbuffer().iter().all(|&d| d == FAR_DEPTH));
    assert_eq!(fb.current_color(), 0x123456);
}

#[test]
fn farther_write_is_ignored() {
    let mut fb = Framebuffer::new(4, 4);
    fb.set_current_color(0xAA0000);
    fb.point(2, 1, 100);
    fb.set_current_color(0x00BB00);
    fb.point(2, 1, 100);
    fb.point(2, 1, 250);
    assert_eq!(fb.buffer()[1 * 4 + 2], 0xAA0000);
    assert_eq!(fb.zbuffer()[1 * 4 + 2], 100);
}

#[test]
fn nearer_write_overwrites() {
    let mut fb = Framebuffer::new(4, 4);
    fb.set_current_color(0xAA0000);
    fb.point(2, 1, 100);
    fb.set_current_color(0x00BB00);
    fb.point(2, 1, 99);
    assert_eq!(fb.buffer()[1 * 4 + 2], 0x00BB00);
    assert_eq!(fb.zbuffer()[1 * 4 + 2], 99);
}

#[test]
fn out_of_bounds_writes_change_nothing() {
    let mut fb = Framebuffer::new(4, 3);
    fb.set_current_color(0xFFFFFF);
    let before_colors = fb.buffer().clone();
    let before_depths = fb.zbuffer().clone();
    fb.point(4, 0, 0);
    fb.point(0, 3, 0);
    fb.point(usize::MAX, 1, 0);
    fb.point((-1isize) as usize, (-7isize) as usize, -5);
    fb.point(usize::MAX, usize::MAX, i32::MIN);
    assert_eq!(fb.buffer(), &before_colors);
    assert_eq!(fb.zbuffer(), &before_depths);
}

#[test]
fn collinear_triangle_has_no_fragments() {
    let f = triangle(&sv(0, 0, 0), &sv(2, 2, 0), &sv(5, 5, 0), 8, 8);
    assert!(f.is_empty());
    let g = triangle(&sv(1, 3, 0), &sv(1, 3, 0), &sv(6, 3, 0), 8, 8);
    assert!(g.is_empty());
}

#[test]
fn right_triangle_covers_ten_pixels() {
    let half = (ONE / 2) as i32;
    let frags = triangle(&sv(0, 0, half), &sv(4, 0, half), &sv(0, 4, half), 8, 8);
    assert_eq!(frags.len(), 10);
    let pixels: Vec<(usize, usize)> = frags.iter().map(|f| (f.x, f.y)).collect();
    assert_eq!(pixels, half_triangle_pixels());
    assert!(frags.iter().all(|f| f.depth == half));

    let mut fb = Framebuffer::new(8, 8);
    fb.set_background_color(0x000015);
    fb.clear();
    fb.set_current_color(0xFFFFFF);
    for f in &frags {
        fb.point(f.x, f.y, f.depth);
    }
    for y in 0..8usize {
        for x in 0..8usize {
            let i = y * 8 + x;
            if x + y <= 3 {
                assert_eq!(fb.buffer()[i], 0xFFFFFF);
                assert_eq!(fb.zbuffer()[i], half);
            } else {
                assert_eq!(fb.buffer()[i], 0x000015);
                assert_eq!(fb.zbuffer()[i], FAR_DEPTH);
            }
        }
    }
}

#[test]
fn winding_does_not_change_coverage() {
    let a = triangle(&sv(0, 0, 7), &sv(4, 0, 7), &sv(0, 4, 7), 8, 8);
    let b = triangle(&sv(0, 0, 7), &sv(0, 4, 7), &sv(4, 0, 7), 8, 8);
    assert_eq!(a, b);
}

#[test]
fn shared_edge_pixels_are_drawn_once() {
    let t1 = triangle(&sv(0, 0, 0), &sv(4, 0, 0), &sv(0, 4, 0), 8, 8);
    let t2 = triangle(&sv(4, 0, 0), &sv(4, 4, 0), &sv(0, 4, 0), 8, 8);
    for f in &t1 {
        assert!(!t2.iter().any(|g| g.x == f.x && g.y == f.y));
    }
    assert_eq!(t1.len() + t2.len(), 16);
}

#[test]
fn triangle_is_clipped_to_buffer() {
    let frags = triangle(&sv(-4, -4, 0), &sv(20, -4, 0), &sv(-4, 20, 0), 3, 2);
    assert_eq!(frags.len(), 6);
    assert!(frags.iter().all(|f| f.x < 3 && f.y < 2));
}

#[test]
fn depth_is_interpolated() {
    let frags = triangle(&sv(0, 0, 0), &sv(4, 0, 400), &sv(0, 4, 0), 8, 8);
    let at = |x: usize, y: usize| -> Fragment { *frags.iter().find(|f| f.x == x && f.y == y).unwrap() };
    assert_eq!(at(0, 0).depth, 0);
    assert_eq!(at(1, 0).depth, 100);
    assert_eq!(at(3, 0).depth, 300);
    assert_eq!(at(2, 1).depth, 200);
}

#[test]
fn sun_color_with_flat_noise() {
    let u = identity_uniforms(CelestialBody::Sun);
    let f = Fragment { x: 0, y: 0, depth: 0, normal: Vec3i::new(0, 0, 0), world: Vec3i::new(5, 5, 5) };
    assert_eq!(fragment_shader(&f, &u), 0xFFBF00);
}

#[test]
fn lit_side_is_brighter_than_dark_side() {
    let u = identity_uniforms(CelestialBody::Moon);
    let world = Vec3i::new(ONE as i32, 0, 0);
    let facing = Fragment { x: 0, y: 0, depth: 0, normal: Vec3i::new(-(ONE as i32), 0, 0), world };
    let away = Fragment { x: 0, y: 0, depth: 0, normal: Vec3i::new(ONE as i32, 0, 0), world };
    // Moon: 0x505050 and 0xBEBEBE mix to 0x878787 at flat noise.
    assert_eq!(fragment_shader(&facing, &u), 0x878787);
    // Ambient only: 135 * 6554 / 65536 = 13.
    assert_eq!(fragment_shader(&away, &u), 0x0D0D0D);
}

#[test]
fn shading_is_deterministic() {
    let mut u = identity_uniforms(CelestialBody::CloudyPlanet);
    u.noise = NoiseTable { size: 2, cell: ONE, values: vec![-40000, 1000, 65536, -65536, 0, 7, 30000, -2] };
    u.time = 17;
    let f = Fragment { x: 1, y: 2, depth: 3, normal: Vec3i::new(100, -200, 300), world: Vec3i::new(-90000, 4000, 123456) };
    let a = fragment_shader(&f, &u);
    let b = fragment_shader(&f, &u);
    assert_eq!(a, b);
    let g = Fragment { x: 5, y: 6, depth: 9, ..f };
    assert_eq!(fragment_shader(&g, &u), a);
}

#[test]
fn noise_changes_the_color() {
    let mut u = identity_uniforms(CelestialBody::Sun);
    let f = Fragment { x: 0, y: 0, depth: 0, normal: Vec3i::new(0, 0, 0), world: Vec3i::new(0, 0, 0) };
    u.noise = NoiseTable { size: 1, cell: ONE, values: vec![-(ONE as i32)] };
    assert_eq!(fragment_shader(&f, &u), 0xFF8C00);
    u.noise = NoiseTable { size: 1, cell: ONE, values: vec![ONE as i32] };
    assert_eq!(fragment_shader(&f, &u), 0xFFF200);
}

#[test]
fn palette_of_each_body() {
    assert_eq!(palette(CelestialBody::Sun).dark, 0xFF8C00);
    assert!(palette(CelestialBody::Sun).emissive);
    assert!(!palette(CelestialBody::IcePlanet).emissive);
    assert!(palette(CelestialBody::AuroraPlanet).animated);
    assert_eq!(palette(CelestialBody::Moon).frequency, 8);
}

#[test]
fn noise_table_validity() {
    assert!(zero_noise().is_valid());
    assert!(!NoiseTable { size: 2, cell: ONE, values: vec![0; 7] }.is_valid());
    assert!(!NoiseTable { size: 0, cell: ONE, values: vec![] }.is_valid());
    assert!(!NoiseTable { size: 1, cell: 0, values: vec![0] }.is_valid());
}

fn vtx(x: i32, y: i32, z: i32) -> Vertex {
    let one = ONE as i32;
    Vertex { position: Vec3i::new(x * one, y * one, z), normal: Vec3i::new(0, 0, one) }
}

#[test]
fn vertex_shader_with_identity_keeps_pixels() {
    let u = identity_uniforms(CelestialBody::Moon);
    let s = vertex_shader(&vtx(3, 5, 1234), &u).unwrap();
    assert_eq!((s.x, s.y, s.depth), (3, 5, 1234));
    assert_eq!(s.normal, Vec3i::new(0, 0, ONE as i32));
    assert_eq!(s.world, Vec3i::new(3 * ONE as i32, 5 * ONE as i32, 1234));
}

#[test]
fn vertex_shader_divides_by_w() {
    let mut u = identity_uniforms(CelestialBody::Moon);
    let one = ONE as i32;
    u.projection_matrix = Mat4::new(one, 0, 0, 0, 0, one, 0, 0, 0, 0, one, 0, 0, 0, 0, 2 * one);
    let s = vertex_shader(&vtx(6, 4, 1000), &u).unwrap();
    assert_eq!((s.x, s.y, s.depth), (3, 2, 500));
}

#[test]
fn vertex_behind_eye_has_no_transform() {
    let mut u = identity_uniforms(CelestialBody::Moon);
    let one = ONE as i32;
    u.projection_matrix = Mat4::new(one, 0, 0, 0, 0, one, 0, 0, 0, 0, one, 0, 0, 0, 0, -one);
    assert!(vertex_shader(&vtx(1, 1, 0), &u).is_none());
    u.projection_matrix = Mat4::new(one, 0, 0, 0, 0, one, 0, 0, 0, 0, one, 0, 0, 0, 0, 0);
    assert!(vertex_shader(&vtx(1, 1, 0), &u).is_none());
}

#[test]
fn viewport_matrix_scales_and_flips() {
    let mut u = identity_uniforms(CelestialBody::Moon);
    let one = ONE as i32;
    // x' = 4x + 4, y' = -4y + 4
    u.viewport_matrix = Mat4::new(4 * one, 0, 0, 4 * one, 0, -4 * one, 0, 4 * one, 0, 0, one, 0, 0, 0, 0, one);
    let s = vertex_shader(&Vertex { position: Vec3i::new(one / 2, one / 2, 0), normal: Vec3i::new(0, 0, 0) }, &u).unwrap();
    assert_eq!((s.x, s.y), (6, 2));
}

#[test]
fn render_draws_the_right_triangle() {
    let u = identity_uniforms(CelestialBody::Sun);
    let half = (ONE / 2) as i32;
    let verts = vec![vtx(0, 0, half), vtx(4, 0, half), vtx(0, 4, half)];
    let mut fb = Framebuffer::new(8, 8);
    fb.set_background_color(0x000015);
    fb.clear();
    render(&mut fb, &u, &verts);
    let mut written = 0;
    for y in 0..8usize {
        for x in 0..8usize {
            let i = y * 8 + x;
            if x + y <= 3 {
                written += 1;
                assert_eq!(fb.buffer()[i], 0xFFBF00);
                assert_eq!(fb.zbuffer()[i], half);
            } else {
                assert_eq!(fb.buffer()[i], 0x000015);
                assert_eq!(fb.zbuffer()[i], FAR_DEPTH);
            }
        }
    }
    assert_eq!(written, 10);
}

#[test]
fn render_drops_trailing_vertices() {
    let u = identity_uniforms(CelestialBody::Sun);
    let verts = vec![vtx(0, 0, 5), vtx(4, 0, 5), vtx(0, 4, 5), vtx(7, 7, 5), vtx(5, 7, 5)];
    let mut fb = Framebuffer::new(8, 8);
    render(&mut fb, &u, &verts);
    let n = fb.zbuffer().iter().filter(|&&d| d != FAR_DEPTH).count();
    assert_eq!(n, 10);
}

#[test]
fn render_keeps_nearer_surface() {
    let mut u = identity_uniforms(CelestialBody::Sun);
    let mut fb = Framebuffer::new(8, 8);
    render(&mut fb, &u, &vec![vtx(0, 0, 100), vtx(4, 0, 100), vtx(0, 4, 100)]);
    u.current_body = CelestialBody::Moon;
    render(&mut fb, &u, &vec![vtx(0, 0, 200), vtx(4, 0, 200), vtx(0, 4, 200)]);
    assert_eq!(fb.buffer()[0], 0xFFBF00);
    assert_eq!(fb.zbuffer()[0], 100);
}

#[test]
fn orbit_wraps_yaw_within_a_turn() {
    let mut s = OrbitState::new(30 * ONE as i32);
    s.set_rotation_speed(ONE as i32);
    // 40 steps of a quarter turn each: ten full turns.
    let quarter = (TURN / 4) as i32;
    for _ in 0..40 {
        s.orbit(quarter, 0);
    }
    let net = (40 * (TURN / 4)) % TURN;
    let mut single = OrbitState::new(30 * ONE as i32);
    single.set_rotation_speed(ONE as i32);
    single.orbit(net as i32, 0);
    assert!(s.yaw.abs() < TURN);
    assert_eq!((s.yaw - single.yaw) % TURN, 0);
}

#[test]
fn orbit_scales_by_rotation_speed() {
    let mut s = OrbitState::new(ONE as i32 * 10);
    s.orbit(ONE as i32, -(ONE as i32));
    assert_eq!(s.yaw, 1966);
    assert_eq!(s.pitch, -1966);
    assert_eq!(s.distance, 10 * ONE);
}

#[test]
fn pitch_is_clamped() {
    let mut s = OrbitState::new(ONE as i32);
    s.set_rotation_speed(ONE as i32);
    for _ in 0..10 {
        s.orbit(0, ONE as i32);
    }
    assert_eq!(s.pitch, PITCH_LIMIT);
    for _ in 0..20 {
        s.orbit(0, -(ONE as i32));
    }
    assert_eq!(s.pitch, -PITCH_LIMIT);
}

#[test]
fn zoom_stops_at_minimum_distance() {
    let mut s = OrbitState::new(5 * ONE as i32);
    assert!(s.zoom(ONE as i32));
    assert_eq!(s.distance, 5 * ONE - ONE / 2);
    for _ in 0..100 {
        s.zoom(ONE as i32);
        assert!(s.distance > MIN_DISTANCE);
    }
    s.zoom(i32::MAX);
    assert!(s.distance > MIN_DISTANCE);
    s.zoom(i32::MIN);
    assert!(s.distance > MIN_DISTANCE);
    let mut near = OrbitState::new(3 * ONE as i32 / 2);
    assert!(!near.zoom(ONE as i32));
    assert_eq!(near.distance, 3 * ONE / 2);
}

#[test]
fn zoom_out_moves_away() {
    let mut s = OrbitState::new(2 * ONE as i32);
    assert!(s.zoom(-2 * ONE as i32));
    assert_eq!(s.distance, 3 * ONE);
}

#[test]
fn noise_lattice_wraps_both_ways() {
    let t = NoiseTable { size: 2, cell: ONE, values: vec![10, 11, 12, 13, 14, 15, 16, 17] };
    assert_eq!(sample(&t, -1, 0, 0), 10);
    assert_eq!(sample(&t, -ONE, 0, 0), 14);
    assert_eq!(sample(&t, 3 * ONE, 0, ONE), 15);
    assert_eq!(sample(&t, 0, 2 * ONE + 5, -3 * ONE), 11);
    assert_eq!(sample(&t, i64::MIN, i64::MAX, 0), sample(&t, i64::MIN, i64::MAX, 0));
}
