use vstd::prelude::*;

verus! {

/// One full turn, in fixed-point radians (2π · 65536, rounded).
pub const TURN: i64 = 411775;

/// How far the pitch may go either way: a quarter turn less a tenth of a
/// radian, so that the camera never flips over a pole.
pub const PITCH_LIMIT: i64 = 96390;

/// The nearest that zooming brings the eye to the center: 1.0.
pub const MIN_DISTANCE: i64 = 65536;

/// `n % d` with the sign of `n`, as the remainder operator has it.
pub open spec fn rem_toward_zero(n: int, d: int) -> int {
    if n >= 0 {
        n % d
    } else {
        -((-n) % d)
    }
}

pub open spec fn clamp(v: int, lo: int, hi: int) -> int {
    if v < lo {
        lo
    } else if v > hi {
        hi
    } else {
        v
    }
}

/// A fixed-point product scaled back by 65536, rounded toward zero.
pub open spec fn scaled(a: int, b: int) -> int {
    let p = a * b;
    if p >= 0 {
        p / 65536
    } else {
        -((-p) / 65536)
    }
}

/// The angular and radial state of an orbit camera, in fixed point
/// (65536 is one radian, or one unit of distance): the accumulated yaw and
/// pitch, the eye's distance to the center, and the speeds that scale each
/// input.
#[derive(Clone, Copy, Debug, PartialEq, Eq, Structural)]
pub struct OrbitState {
    pub yaw: i64,
    pub pitch: i64,
    pub distance: i64,
    pub movement_speed: i32,
    pub rotation_speed: i32,
}

impl OrbitState {
    pub open spec fn wf(&self) -> bool {
        &&& -TURN < self.yaw < TURN
        &&& -PITCH_LIMIT <= self.pitch <= PITCH_LIMIT
        &&& 0 <= self.distance <= i32::MAX
    }

    /// The yaw after turning by `delta_yaw` input units.
    pub open spec fn next_yaw(self, delta_yaw: i32) -> int {
        rem_toward_zero(self.yaw + scaled(delta_yaw as int, self.rotation_speed as int), TURN as int)
    }

    /// The pitch after turning by `delta_pitch` input units.
    pub open spec fn next_pitch(self, delta_pitch: i32) -> int {
        clamp(self.pitch + scaled(delta_pitch as int, self.rotation_speed as int), -PITCH_LIMIT as int, PITCH_LIMIT as int)
    }

    /// The distance that a zoom of `delta` input units would leave.
    pub open spec fn zoom_target(self, delta: i32) -> int {
        let d = self.distance - scaled(delta as int, self.movement_speed as int);
        if d < 0 { -d } else { d }
    }

    /// An orbit state at yaw and pitch zero, `distance` from the center, with
    /// a movement speed of 0.5 and a rotation speed of 0.03.
    pub fn new(distance: i32) -> (r: OrbitState)
        requires
            distance >= 0,
        ensures
            r.wf(),
            r == (OrbitState { yaw: 0, pitch: 0, distance: distance as i64, movement_speed: 32768, rotation_speed: 1966 }),
    {
        OrbitState { yaw: 0, pitch: 0, distance: distance as i64, movement_speed: 32768, rotation_speed: 1966 }
    }

    pub fn set_movement_speed(&mut self, speed: i32)
        ensures
            *final(self) == (OrbitState { movement_speed: speed, ..*old(self) }),
    {
        self.movement_speed = speed;
    }

    pub fn set_rotation_speed(&mut self, speed: i32)
        ensures
            *final(self) == (OrbitState { rotation_speed: speed, ..*old(self) }),
    {
        self.rotation_speed = speed;
    }

    /// Turns the camera: the yaw grows by `delta_yaw` times the rotation
    /// speed and wraps within one turn (keeping its sign), the pitch grows by
    /// `delta_pitch` times the rotation speed and is clamped to
    /// [-PITCH_LIMIT, PITCH_LIMIT]. The distance does not change.
    pub fn orbit(&mut self, delta_yaw: i32, delta_pitch: i32)
        requires
            old(self).wf(),
        ensures
            final(self).wf(),
            final(self).yaw == old(self).next_yaw(delta_yaw),
            final(self).pitch == old(self).next_pitch(delta_pitch),
            final(self).distance == old(self).distance,
            final(self).movement_speed == old(self).movement_speed,
            final(self).rotation_speed == old(self).rotation_speed,
    {
        let step_yaw = scale(delta_yaw, self.rotation_speed);
        let step_pitch = scale(delta_pitch, self.rotation_speed);
        let y: i64 = self.yaw + step_yaw;
        self.yaw = if y >= 0 { y % TURN } else { -((-y) % TURN) };
        let p: i64 = self.pitch + step_pitch;
        self.pitch = if p < -PITCH_LIMIT { -PITCH_LIMIT } else if p > PITCH_LIMIT { PITCH_LIMIT } else { p };
    }

    /// Moves the eye along the view direction by `delta` times the movement
    /// speed, unless that would leave it `MIN_DISTANCE` or nearer to the
    /// center; returns whether it moved.
    pub fn zoom(&mut self, delta: i32) -> (moved: bool)
        requires
            old(self).wf(),
        ensures
            final(self).wf(),
            moved == (old(self).zoom_target(delta) > MIN_DISTANCE && old(self).zoom_target(delta) <= i32::MAX),
            moved ==> final(self).distance == old(self).zoom_target(delta),
            !moved ==> final(self).distance == old(self).distance,
            final(self).yaw == old(self).yaw,
            final(self).pitch == old(self).pitch,
            final(self).movement_speed == old(self).movement_speed,
            final(self).rotation_speed == old(self).rotation_speed,
    {
        let step = scale(delta, self.movement_speed);
        let d: i64 = self.distance - step;
        let target: i64 = if d < 0 { -d } else { d };
        if target > MIN_DISTANCE && target <= i32::MAX as i64 {
            self.distance = target;
            true
        } else {
            false
        }
    }
}

fn scale(a: i32, b: i32) -> (r: i64)
    ensures
        r == scaled(a as int, b as int),
        -70368744177664 <= r <= 70368744177664,
{
    let b31: i64 = 2147483648;
    let b46: i64 = 70368744177664;
    assert(-b31 * b31 <= (a as i64) * (b as i64) <= b31 * b31) by (nonlinear_arith)
        requires -b31 <= a <= b31, -b31 <= b <= b31;
    let p: i64 = (a as i64) * (b as i64);
    if p >= 0 {
        proof {
            crate::geometry::lemma_div_at_most(p as int, 65536, b46 as int);
        }
        p / 65536
    } else {
        proof {
            crate::geometry::lemma_div_at_most(-p, 65536, b46 as int);
        }
        -((-p) / 65536)
    }
}

/// The yaw reached after orbiting by each yaw input of `deltas` in turn.
pub open spec fn yaw_after(s: OrbitState, deltas: Seq<i32>) -> int
    decreases deltas.len(),
{
    if deltas.len() == 0 {
        s.yaw as int
    } else {
        let prev = yaw_after(s, deltas.drop_last());
        rem_toward_zero(prev + scaled(deltas.last() as int, s.rotation_speed as int), TURN as int)
    }
}

/// The sum of the yaw steps that the inputs `deltas` make.
pub open spec fn total_yaw_step(s: OrbitState, deltas: Seq<i32>) -> int
    decreases deltas.len(),
{
    if deltas.len() == 0 {
        0
    } else {
        total_yaw_step(s, deltas.drop_last()) + scaled(deltas.last() as int, s.rotation_speed as int)
    }
}

proof fn lemma_rem_congruent(n: int, d: int)
    requires
        d > 0,
    ensures
        (n - rem_toward_zero(n, d)) % d == 0,
        -d < rem_toward_zero(n, d) < d,
{
    if n >= 0 {
        vstd::arithmetic::div_mod::lemma_fundamental_div_mod(n, d);
        vstd::arithmetic::div_mod::lemma_mod_multiples_basic(n / d, d);
        assert(n - n % d == (n / d) * d) by (nonlinear_arith)
            requires n == d * (n / d) + n % d;
    } else {
        vstd::arithmetic::div_mod::lemma_fundamental_div_mod(-n, d);
        vstd::arithmetic::div_mod::lemma_mod_multiples_basic(-((-n) / d), d);
        assert(n + (-n) % d == (-((-n) / d)) * d) by (nonlinear_arith)
            requires -n == d * ((-n) / d) + (-n) % d;
    }
}

/// Orbit wrap: however many yaw inputs are applied in turn, and however often
/// the yaw passes a full turn on the way, the yaw reached differs from the
/// starting yaw plus the total of the steps by a whole number of turns, and
/// stays within one turn of zero: the yaw reached and the yaw of a single
/// orbit by the net step differ by whole turns.
pub proof fn lemma_orbit_wraps(s: OrbitState, deltas: Seq<i32>)
    requires
        s.wf(),
    ensures
        (s.yaw + total_yaw_step(s, deltas) - yaw_after(s, deltas)) % (TURN as int) == 0,
        -TURN < yaw_after(s, deltas) < TURN,
    decreases deltas.len(),
{
    if deltas.len() == 0 {
        vstd::arithmetic::div_mod::lemma_small_mod(0, TURN as nat);
    } else {
        let rest = deltas.drop_last();
        lemma_orbit_wraps(s, rest);
        let prev = yaw_after(s, rest);
        let step = scaled(deltas.last() as int, s.rotation_speed as int);
        lemma_rem_congruent(prev + step, TURN as int);
        let a = s.yaw + total_yaw_step(s, rest) - prev;
        let b = prev + step - yaw_after(s, deltas);
        assert(s.yaw + total_yaw_step(s, deltas) - yaw_after(s, deltas) == a + b);
        vstd::arithmetic::div_mod::lemma_add_mod_noop(a, b, TURN as int);
        vstd::arithmetic::div_mod::lemma_small_mod(0, TURN as nat);
    }
}

/// The distance reached after zooming by each input of `deltas` in turn.
pub open spec fn distance_after(s: OrbitState, deltas: Seq<i32>) -> int
    decreases deltas.len(),
{
    if deltas.len() == 0 {
        s.distance as int
    } else {
        let prev = OrbitState { distance: distance_after(s, deltas.drop_last()) as i64, ..s };
        let t = prev.zoom_target(deltas.last());
        if t > MIN_DISTANCE && t <= i32::MAX { t } else { prev.distance as int }
    }
}

/// Zoom floor: from a distance above the minimum, no sequence of zoom inputs,
/// however large, brings the eye to the minimum distance or nearer.
pub proof fn lemma_zoom_floor(s: OrbitState, deltas: Seq<i32>)
    requires
        s.wf(),
        s.distance > MIN_DISTANCE,
    ensures
        MIN_DISTANCE < distance_after(s, deltas) <= i32::MAX,
    decreases deltas.len(),
{
    if deltas.len() > 0 {
        lemma_zoom_floor(s, deltas.drop_last());
    }
}

} // verus!
