use vstd::prelude::*;

verus! {

/// The number of fixed-point units in one: positions, normals and matrix
/// entries carry sixteen fractional bits.
pub const ONE: i64 = 65536;

/// A point or a direction in fixed-point coordinates.
#[derive(Clone, Copy, Debug, PartialEq, Eq, Structural)]
pub struct Vec3i {
    pub x: i32,
    pub y: i32,
    pub z: i32,
}

impl Vec3i {
    pub fn new(x: i32, y: i32, z: i32) -> (r: Vec3i)
        ensures
            r == (Vec3i { x, y, z }),
    {
        Vec3i { x, y, z }
    }
}

/// `n / d` rounded toward zero, as integer division does.
pub open spec fn div_toward_zero(n: int, d: int) -> int {
    if n >= 0 {
        n / d
    } else {
        -((-n) / d)
    }
}

pub proof fn lemma_div_at_most(n: int, d: int, m: int)
    requires
        0 <= n <= d * m,
        d > 0,
        m >= 0,
    ensures
        0 <= n / d <= m,
{
    vstd::arithmetic::div_mod::lemma_fundamental_div_mod(n, d);
    let q = n / d;
    let r = n % d;
    assert(0 <= q) by (nonlinear_arith)
        requires
            n == d * q + r,
            0 <= r < d,
            n >= 0,
            d > 0,
    ;
    assert(q <= m) by (nonlinear_arith)
        requires
            n == d * q + r,
            0 <= r < d,
            n <= d * m,
            d > 0,
    ;
}

/// Integer division of `n` by a positive `d`, rounded toward zero.
pub fn div_round_zero(n: i128, d: i128) -> (r: i128)
    requires
        d > 0,
        n > i128::MIN,
    ensures
        r == div_toward_zero(n as int, d as int),
{
    if n >= 0 {
        n / d
    } else {
        let m: i128 = -n;
        -(m / d)
    }
}

} // verus!
