use solar_raster::framebuffer::{Framebuffer, FAR_DEPTH};
use solar_raster::geometry::{Vec3i, ONE};
use solar_raster::lines::draw_line;
use solar_raster::scene::{body_scale, draw_star, toggle_selection};
use solar_raster::shading::CelestialBody;
use solar_raster::transform::{model_matrix, viewport_matrix, Mat4};

fn lit(fb: &Framebuffer) -> Vec<(usize, usize)> {
    let w = fb.width();
    let mut v = Vec::new();
    for (i, &d) in fb.zbuffer().iter().enumerate() {
        if d != FAR_DEPTH {
            v.push((i % w, i / w));
        }
    }
    v
}

#[test]
fn horizontal_line() {
    let mut fb = Framebuffer::new(8, 4);
    fb.set_current_color(0x404040);
    draw_line(&mut fb, 1, 2, 5, 2, 10);
    assert_eq!(lit(&fb), vec![(1, 2), (2, 2), (3, 2), (4, 2), (5, 2)]);
    assert_eq!(fb.buffer()[2 * 8 + 3], 0x404040);
}

#[test]
fn diagonal_line_backwards() {
    let mut fb = Framebuffer::new(8, 8);
    draw_line(&mut fb, 4, 4, 1, 1, 10);
    assert_eq!(lit(&fb), vec![(1, 1), (2, 2), (3, 3), (4, 4)]);
}

#[test]
fn steep_line() {
    let mut fb = Framebuffer::new(8, 8);
    draw_line(&mut fb, 0, 0, 2, 5, 10);
    let pts = lit(&fb);
    assert_eq!(pts.len(), 6);
    assert!(pts.contains(&(0, 0)) && pts.contains(&(2, 5)));
}

#[test]
fn single_point_line() {
    let mut fb = Framebuffer::new(4, 4);
    draw_line(&mut fb, 3, 1, 3, 1, 10);
    assert_eq!(lit(&fb), vec![(3, 1)]);
}

#[test]
fn line_leaving_buffer_is_clipped() {
    let mut fb = Framebuffer::new(4, 4);
    draw_line(&mut fb, -3, 1, 6, 1, 10);
    assert_eq!(lit(&fb), vec![(0, 1), (1, 1), (2, 1), (3, 1)]);
}

#[test]
fn line_behind_is_hidden() {
    let mut fb = Framebuffer::new(4, 4);
    fb.set_current_color(1);
    fb.point(2, 0, 5);
    fb.set_current_color(2);
    draw_line(&mut fb, 0, 0, 3, 0, 9);
    assert_eq!(fb.buffer()[2], 1);
    assert_eq!(fb.buffer()[1], 2);
}

#[test]
fn matrix_product_with_identity() {
    let one = ONE as i32;
    let m = Mat4::new(1, 2, 3, 4, 5, 6, 7, 8, 9, 10, 11, 12, 13, 14, 15, one);
    assert_eq!(m.mul(&Mat4::identity()), Some(m));
    assert_eq!(Mat4::identity().mul(&m), Some(m));
}

#[test]
fn matrix_product_scales() {
    let one = ONE as i32;
    let two = Mat4::new(2 * one, 0, 0, 0, 0, 2 * one, 0, 0, 0, 0, 2 * one, 0, 0, 0, 0, one);
    let p = two.mul(&two).unwrap();
    assert_eq!(p, Mat4::new(4 * one, 0, 0, 0, 0, 4 * one, 0, 0, 0, 0, 4 * one, 0, 0, 0, 0, one));
}

#[test]
fn matrix_product_overflow() {
    let big = Mat4::new(i32::MAX, 0, 0, 0, 0, 0, 0, 0, 0, 0, 0, 0, 0, 0, 0, 0);
    assert_eq!(big.mul(&big), None);
}

#[test]
fn model_matrix_without_rotation() {
    let one = ONE as i32;
    let m = model_matrix(Vec3i::new(5 * one, 0, -one), 2 * one, Vec3i::new(0, 0, 0), Vec3i::new(one, one, one)).unwrap();
    assert_eq!(m, Mat4::new(2 * one, 0, 0, 5 * one, 0, 2 * one, 0, 0, 0, 0, 2 * one, -one, 0, 0, 0, one));
}

#[test]
fn model_matrix_quarter_turn_about_z() {
    let one = ONE as i32;
    let m = model_matrix(Vec3i::new(0, 0, 0), one, Vec3i::new(0, 0, one), Vec3i::new(one, one, 0)).unwrap();
    assert_eq!(m, Mat4::new(0, -one, 0, 0, one, 0, 0, 0, 0, 0, one, 0, 0, 0, 0, one));
}

#[test]
fn viewport_matrix_entries() {
    let one = ONE as i32;
    let m = viewport_matrix(1200, 900);
    assert_eq!(m, Mat4::new(600 * one, 0, 0, 600 * one, 0, -450 * one, 0, 450 * one, 0, 0, one, 0, 0, 0, 0, one));
}

#[test]
fn scales_of_bodies() {
    assert_eq!(body_scale(CelestialBody::Sun), 4 * ONE as i32);
    assert_eq!(body_scale(CelestialBody::GasGiant), 3 * ONE as i32);
    assert_eq!(body_scale(CelestialBody::IcePlanet), 2 * ONE as i32);
    assert_eq!(body_scale(CelestialBody::RockyPlanet), 3 * ONE as i32 / 2);
    assert_eq!(body_scale(CelestialBody::Moon), 78643);
    assert_eq!(body_scale(CelestialBody::AuroraPlanet), 78643);
}

#[test]
fn selection_toggles() {
    assert_eq!(toggle_selection(None, 3), Some(3));
    assert_eq!(toggle_selection(Some(3), 3), None);
    assert_eq!(toggle_selection(Some(2), 5), Some(5));
}

#[test]
fn star_square_is_centered() {
    let mut fb = Framebuffer::new(8, 8);
    draw_star(&mut fb, 4, 4, 2, ONE as i32);
    assert_eq!(lit(&fb), vec![(3, 3), (4, 3), (3, 4), (4, 4)]);
}

#[test]
fn star_at_corner_saturates() {
    let mut fb = Framebuffer::new(4, 4);
    draw_star(&mut fb, 0, 0, 3, 7);
    assert_eq!(lit(&fb), vec![(0, 0), (1, 0), (0, 1), (1, 1)]);
}
