use vstd::prelude::*;
use crate::framebuffer::{Framebuffer, FrameView};

verus! {

/// The framebuffer after the error-accumulating line walk from (x, y) to
/// (x1, y1) plots each point it visits, stopping at the end point or after
/// `fuel` points. `dx` is the horizontal extent, `dy` minus the vertical
/// one, `sx` and `sy` the directions of travel.
pub open spec fn walk_line(
    v: FrameView,
    x: int,
    y: int,
    err: int,
    x1: int,
    y1: int,
    dx: int,
    dy: int,
    sx: int,
    sy: int,
    depth: i32,
    fuel: nat,
) -> FrameView
    decreases fuel,
{
    if fuel == 0 {
        v
    } else {
        let plotted = v.plot(x, y, depth);
        if x == x1 && y == y1 {
            plotted
        } else {
            let e2 = 2 * err;
            let nx = if e2 >= dy { x + sx } else { x };
            let err1 = if e2 >= dy { err + dy } else { err };
            let ny = if e2 <= dx { y + sy } else { y };
            let err2 = if e2 <= dx { err1 + dx } else { err1 };
            walk_line(plotted, nx, ny, err2, x1, y1, dx, dy, sx, sy, depth, (fuel - 1) as nat)
        }
    }
}

pub open spec fn iabs(a: int) -> int {
    if a < 0 { -a } else { a }
}

/// The framebuffer after drawing the line from (x0, y0) to (x1, y1) at
/// `depth`: each point of the walk goes through the depth test; the walk
/// takes at most |x1 - x0| + |y1 - y0| + 1 points.
pub open spec fn line_drawn(v: FrameView, x0: int, y0: int, x1: int, y1: int, depth: i32) -> FrameView {
    let dx = iabs(x1 - x0);
    let dy = -iabs(y1 - y0);
    walk_line(
        v,
        x0,
        y0,
        dx + dy,
        x1,
        y1,
        dx,
        dy,
        if x0 < x1 { 1 } else { -1 },
        if y0 < y1 { 1 } else { -1 },
        depth,
        (dx - dy + 1) as nat,
    )
}

/// Draws the line from (x0, y0) to (x1, y1) with the current color, one
/// depth-tested point per step of the error-accumulating walk; points off
/// the buffer are dropped.
pub fn draw_line(framebuffer: &mut Framebuffer, x0: i32, y0: i32, x1: i32, y1: i32, depth: i32)
    requires
        old(framebuffer).wf(),
    ensures
        final(framebuffer).wf(),
        final(framebuffer)@ == line_drawn(old(framebuffer)@, x0 as int, y0 as int, x1 as int, y1 as int, depth),
{
    let ex: i64 = x1 as i64 - x0 as i64;
    let ey: i64 = y1 as i64 - y0 as i64;
    let dx: i64 = if ex < 0 { -ex } else { ex };
    let dy: i64 = if ey < 0 { ey } else { -ey };
    let sx: i64 = if x0 < x1 { 1 } else { -1 };
    let sy: i64 = if y0 < y1 { 1 } else { -1 };
    let mut x: i64 = x0 as i64;
    let mut y: i64 = y0 as i64;
    let mut err: i128 = (dx + dy) as i128;
    let fuel0: i64 = dx - dy + 1;
    let mut fuel: i64 = fuel0;
    let ghost start = framebuffer@;
    while fuel > 0
        invariant
            framebuffer.wf(),
            0 <= dx <= 4294967296,
            -4294967296 <= dy <= 0,
            sx == 1 || sx == -1,
            sy == 1 || sy == -1,
            0 <= fuel <= fuel0,
            fuel0 == dx - dy + 1,
            x0 - (fuel0 - fuel) <= x <= x0 + (fuel0 - fuel),
            y0 - (fuel0 - fuel) <= y <= y0 + (fuel0 - fuel),
            -8589934592 * (fuel0 - fuel + 1) <= err <= 8589934592 * (fuel0 - fuel + 1),
            walk_line(framebuffer@, x as int, y as int, err as int, x1 as int, y1 as int, dx as int, dy as int, sx as int, sy as int, depth, fuel as nat)
                == line_drawn(start, x0 as int, y0 as int, x1 as int, y1 as int, depth),
        decreases fuel,
    {
        if x >= 0 && y >= 0 && x as i128 <= usize::MAX as i128 && y as i128 <= usize::MAX as i128 {
            framebuffer.point(x as usize, y as usize, depth);
        } else {
            proof {
                framebuffer.lemma_dims();
                assert(framebuffer@.plot(x as int, y as int, depth) == framebuffer@);
            }
        }
        if x == x1 as i64 && y == y1 as i64 {
            fuel = 0;
        } else {
            let e2: i128 = 2 * err;
            if e2 >= dy as i128 {
                err = err + dy as i128;
                x = x + sx;
            }
            if e2 <= dx as i128 {
                err = err + dx as i128;
                y = y + sy;
            }
            fuel = fuel - 1;
        }
    }
}

} // verus!
