use vstd::prelude::*;

verus! {

/// The depth that a cleared depth cell holds: farther than any fragment.
pub const FAR_DEPTH: i32 = 2147483647;

/// What a framebuffer holds, as mathematical values.
pub struct FrameView {
    pub width: nat,
    pub height: nat,
    pub colors: Seq<u32>,
    pub depths: Seq<i32>,
    pub background: u32,
    pub current: u32,
}

impl FrameView {
    pub open spec fn wf(self) -> bool {
        &&& self.colors.len() == self.width * self.height
        &&& self.depths.len() == self.width * self.height
    }

    pub open spec fn in_bounds(self, x: int, y: int) -> bool {
        0 <= x < self.width && 0 <= y < self.height
    }

    /// The cell of pixel (x, y), row by row.
    pub open spec fn index(self, x: int, y: int) -> int {
        y * self.width + x
    }

    pub open spec fn color_at(self, x: int, y: int) -> u32 {
        self.colors[self.index(x, y)]
    }

    pub open spec fn depth_at(self, x: int, y: int) -> i32 {
        self.depths[self.index(x, y)]
    }

    /// The depth-tested write of one pixel: the current color and `depth`
    /// land at (x, y) when the pixel is inside and `depth` is nearer than
    /// what is stored there; otherwise nothing changes.
    pub open spec fn plot(self, x: int, y: int, depth: i32) -> FrameView {
        if self.in_bounds(x, y) && depth < self.depth_at(x, y) {
            FrameView {
                colors: self.colors.update(self.index(x, y), self.current),
                depths: self.depths.update(self.index(x, y), depth),
                ..self
            }
        } else {
            self
        }
    }

    pub open spec fn with_current(self, color: u32) -> FrameView {
        FrameView { current: color, ..self }
    }

    /// Every pixel holds the background color and the far depth.
    pub open spec fn is_cleared(self) -> bool {
        &&& forall|i: int| 0 <= i < self.colors.len() ==> self.colors[i] == self.background
        &&& forall|i: int| 0 <= i < self.depths.len() ==> self.depths[i] == FAR_DEPTH
    }
}

pub proof fn lemma_index_in_range(w: nat, h: nat, x: int, y: int)
    requires
        0 <= x < w,
        0 <= y < h,
    ensures
        0 <= y * w + x < w * h,
{
    assert(0 <= y * w + x < w * h) by (nonlinear_arith)
        requires
            0 <= x < w,
            0 <= y < h,
    ;
}

/// A color buffer and a depth buffer of fixed size, with a background color
/// and the color that the next write uses.
pub struct Framebuffer {
    width: usize,
    height: usize,
    buffer: Vec<u32>,
    zbuffer: Vec<i32>,
    background_color: u32,
    current_color: u32,
}

impl View for Framebuffer {
    type V = FrameView;

    closed spec fn view(&self) -> FrameView {
        FrameView {
            width: self.width as nat,
            height: self.height as nat,
            colors: self.buffer@,
            depths: self.zbuffer@,
            background: self.background_color,
            current: self.current_color,
        }
    }
}

impl Framebuffer {
    pub closed spec fn wf(&self) -> bool {
        &&& self.width * self.height <= usize::MAX
        &&& self.buffer@.len() == self.width * self.height
        &&& self.zbuffer@.len() == self.width * self.height
    }

    /// The dimensions are machine sizes.
    pub proof fn lemma_dims(&self)
        ensures
            self@.width <= usize::MAX,
            self@.height <= usize::MAX,
    {
    }

    /// A cleared framebuffer of `width` by `height` pixels on a black background.
    pub fn new(width: usize, height: usize) -> (r: Framebuffer)
        requires
            width * height <= usize::MAX,
        ensures
            r.wf(),
            r@.wf(),
            r@.width == width,
            r@.height == height,
            r@.background == 0,
            r@.current == 0,
            r@.is_cleared(),
    {
        let n: usize = width * height;
        let mut buffer: Vec<u32> = Vec::with_capacity(n);
        let mut zbuffer: Vec<i32> = Vec::with_capacity(n);
        let mut i: usize = 0;
        while i < n
            invariant
                i <= n,
                buffer@.len() == i,
                zbuffer@.len() == i,
                forall|k: int| 0 <= k < i ==> buffer@[k] == 0u32,
                forall|k: int| 0 <= k < i ==> zbuffer@[k] == FAR_DEPTH,
            decreases n - i,
        {
            buffer.push(0);
            zbuffer.push(FAR_DEPTH);
            i = i + 1;
        }
        Framebuffer { width, height, buffer, zbuffer, background_color: 0, current_color: 0 }
    }

    pub fn width(&self) -> (r: usize)
        ensures
            r == self@.width,
    {
        self.width
    }

    pub fn height(&self) -> (r: usize)
        ensures
            r == self@.height,
    {
        self.height
    }

    /// The color buffer, row by row, for presentation.
    pub fn buffer(&self) -> (r: &Vec<u32>)
        ensures
            r@ == self@.colors,
    {
        &self.buffer
    }

    /// The depth buffer, row by row.
    pub fn zbuffer(&self) -> (r: &Vec<i32>)
        ensures
            r@ == self@.depths,
    {
        &self.zbuffer
    }

    pub fn background_color(&self) -> (r: u32)
        ensures
            r == self@.background,
    {
        self.background_color
    }

    pub fn current_color(&self) -> (r: u32)
        ensures
            r == self@.current,
    {
        self.current_color
    }

    /// Resets every pixel to the background color and every depth cell to
    /// the far depth.
    pub fn clear(&mut self)
        requires
            old(self).wf(),
        ensures
            final(self).wf(),
            final(self)@ == (FrameView {
                colors: final(self)@.colors,
                depths: final(self)@.depths,
                ..old(self)@
            }),
            final(self)@.is_cleared(),
    {
        let n: usize = self.buffer.len();
        let mut i: usize = 0;
        while i < n
            invariant
                i <= n,
                n == self.width * self.height,
                self.buffer@.len() == n,
                self.zbuffer@.len() == n,
                self.width == old(self).width,
                self.height == old(self).height,
                self.background_color == old(self).background_color,
                self.current_color == old(self).current_color,
                forall|k: int| 0 <= k < i ==> self.buffer@[k] == self.background_color,
                forall|k: int| 0 <= k < i ==> self.zbuffer@[k] == FAR_DEPTH,
            decreases n - i,
        {
            let bg = self.background_color;
            self.buffer.set(i, bg);
            self.zbuffer.set(i, FAR_DEPTH);
            i = i + 1;
        }
    }

    /// Sets the color that a later `clear` fills the buffer with.
    pub fn set_background_color(&mut self, color: u32)
        ensures
            final(self).wf() == old(self).wf(),
            final(self)@ == (FrameView { background: color, ..old(self)@ }),
    {
        self.background_color = color;
    }

    /// Sets the color that the next `point` writes.
    pub fn set_current_color(&mut self, color: u32)
        ensures
            final(self).wf() == old(self).wf(),
            final(self)@ == old(self)@.with_current(color),
    {
        self.current_color = color;
    }

    /// The depth-tested write: when (x, y) lies inside the buffer and `depth`
    /// is smaller than the stored depth there, the current color and `depth`
    /// are written at (x, y); otherwise nothing changes.
    pub fn point(&mut self, x: usize, y: usize, depth: i32)
        requires
            old(self).wf(),
        ensures
            final(self).wf(),
            final(self)@ == old(self)@.plot(x as int, y as int, depth),
    {
        if x < self.width && y < self.height {
            proof {
                lemma_index_in_range(self.width as nat, self.height as nat, x as int, y as int);
            }
            assert(y * self.width + x <= usize::MAX);
            let idx: usize = y * self.width + x;
            if depth < self.zbuffer[idx] {
                let c = self.current_color;
                self.buffer.set(idx, c);
                self.zbuffer.set(idx, depth);
            }
        }
    }
}

/// Depth test ordering: after a write of depth `d1` at a pixel, a later
/// write at the same pixel with a depth `d2 >= d1` changes nothing, whatever
/// color is current then; one with `d2 < d1` leaves that color and `d2`.
pub proof fn lemma_depth_test_order(v: FrameView, x: int, y: int, d1: i32, d2: i32, c: u32)
    requires
        v.wf(),
        v.in_bounds(x, y),
        d1 < v.depth_at(x, y),
    ensures
        v.plot(x, y, d1).depth_at(x, y) == d1,
        v.plot(x, y, d1).color_at(x, y) == v.current,
        d2 >= d1 ==> v.plot(x, y, d1).with_current(c).plot(x, y, d2) == v.plot(x, y, d1).with_current(c),
        d2 < d1 ==> v.plot(x, y, d1).with_current(c).plot(x, y, d2).depth_at(x, y) == d2,
        d2 < d1 ==> v.plot(x, y, d1).with_current(c).plot(x, y, d2).color_at(x, y) == c,
{
    lemma_index_in_range(v.width, v.height, x, y);
}

/// Bounds safety: a write at a pixel outside the buffer changes nothing.
pub proof fn lemma_out_of_bounds_is_noop(v: FrameView, x: int, y: int, d: i32)
    requires
        !v.in_bounds(x, y),
    ensures
        v.plot(x, y, d) == v,
{
}

} // verus!
