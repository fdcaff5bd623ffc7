use vstd::prelude::*;
use crate::framebuffer::{Framebuffer, FrameView};
use crate::shading::CelestialBody;

verus! {

pub open spec fn scale_of(body: CelestialBody) -> i32 {
    match body {
        CelestialBody::Sun => 262144,
        CelestialBody::GasGiant => 196608,
        CelestialBody::RingedPlanet => 163840,
        CelestialBody::IcePlanet => 131072,
        CelestialBody::RockyPlanet => 98304,
        CelestialBody::OceanPlanet => 111411,
        CelestialBody::CloudyPlanet => 183501,
        _ => 78643,
    }
}

/// The size at which a body of each kind is drawn, in fixed point: the Sun
/// 4, a gas giant 3, a cloudy planet 2.8, a ringed one 2.5, an icy one 2,
/// an ocean planet 1.7, a rocky one 1.5, any other 1.2.
pub fn body_scale(body: CelestialBody) -> (r: i32)
    ensures
        r == scale_of(body),
{
    match body {
        CelestialBody::Sun => 262144,
        CelestialBody::GasGiant => 196608,
        CelestialBody::RingedPlanet => 163840,
        CelestialBody::IcePlanet => 131072,
        CelestialBody::RockyPlanet => 98304,
        CelestialBody::OceanPlanet => 111411,
        CelestialBody::CloudyPlanet => 183501,
        _ => 78643,
    }
}

/// The selection after the key of body `pressed`: pressing the selected
/// body's key clears the selection, any other key selects that body.
pub fn toggle_selection(selected: Option<usize>, pressed: usize) -> (r: Option<usize>)
    ensures
        selected == Some(pressed) ==> r.is_none(),
        selected != Some(pressed) ==> r == Some(pressed),
{
    match selected {
        Some(s) => {
            if s == pressed {
                None
            } else {
                Some(pressed)
            }
        },
        None => Some(pressed),
    }
}

pub open spec fn sat_add(a: int, b: int) -> int {
    if a + b > usize::MAX { usize::MAX as int } else { a + b }
}

pub open spec fn sat_sub(a: int, b: int) -> int {
    if a - b < 0 { 0 } else { a - b }
}

/// The first `n` cells of one row of a star's square, plotted left to right.
pub open spec fn star_row(v: FrameView, sx: int, py: int, size: int, depth: i32, n: int) -> FrameView
    decreases n,
{
    if n <= 0 {
        v
    } else {
        star_row(v, sx, py, size, depth, n - 1).plot(sat_sub(sat_add(sx, n - 1), size / 2), py, depth)
    }
}

/// The first `rows` rows of the `size` by `size` square of a star whose
/// corner cell sits at (sx, sy) less half the size (coordinates saturate at
/// the ends of the machine range), plotted row by row.
pub open spec fn star_square(v: FrameView, sx: int, sy: int, size: int, depth: i32, rows: int) -> FrameView
    decreases rows,
{
    if rows <= 0 {
        v
    } else {
        star_row(
            star_square(v, sx, sy, size, depth, rows - 1),
            sx,
            sat_sub(sat_add(sy, rows - 1), size / 2),
            size,
            depth,
            size,
        )
    }
}

proof fn lemma_star_row_wf(v: FrameView, sx: int, py: int, size: int, depth: i32, n: int)
    requires
        v.wf(),
    ensures
        star_row(v, sx, py, size, depth, n).wf(),
        star_row(v, sx, py, size, depth, n).width == v.width,
        star_row(v, sx, py, size, depth, n).height == v.height,
    decreases n,
{
    if n > 0 {
        lemma_star_row_wf(v, sx, py, size, depth, n - 1);
        let prev = star_row(v, sx, py, size, depth, n - 1);
        let px = sat_sub(sat_add(sx, n - 1), size / 2);
        if prev.in_bounds(px, py) {
            crate::framebuffer::lemma_index_in_range(prev.width, prev.height, px, py);
        }
    }
}

/// Draws a star as a `size` by `size` square of depth-tested points in the
/// current color around (sx, sy), row by row; cells off the buffer are
/// dropped.
pub fn draw_star(framebuffer: &mut Framebuffer, sx: usize, sy: usize, size: usize, depth: i32)
    requires
        old(framebuffer).wf(),
    ensures
        final(framebuffer).wf(),
        final(framebuffer)@ == star_square(old(framebuffer)@, sx as int, sy as int, size as int, depth, size as int),
{
    let mut dy: usize = 0;
    while dy < size
        invariant
            dy <= size,
            framebuffer.wf(),
            framebuffer@ == star_square(old(framebuffer)@, sx as int, sy as int, size as int, depth, dy as int),
        decreases size - dy,
    {
        let py: usize = sy.saturating_add(dy).saturating_sub(size / 2);
        let ghost row_start = framebuffer@;
        let mut dx: usize = 0;
        while dx < size
            invariant
                dx <= size,
                dy < size,
                framebuffer.wf(),
                py == sat_sub(sat_add(sy as int, dy as int), size as int / 2),
                framebuffer@ == star_row(row_start, sx as int, py as int, size as int, depth, dx as int),
            decreases size - dx,
        {
            let px: usize = sx.saturating_add(dx).saturating_sub(size / 2);
            if px < framebuffer.width() && py < framebuffer.height() {
                framebuffer.point(px, py, depth);
            }
            dx = dx + 1;
        }
        dy = dy + 1;
    }
}

} // verus!
