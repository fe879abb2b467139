//! Light placement.
//!
//! For light `i` of `n` the demo places the light on an inward spiral: its
//! distance from the center is the factor `1 - i*i/(n*n)` of the terrain
//! extent, at angle `0.2*t + i` for the current time `t`. The radius factor
//! is computed here exactly, as the rational `(n*n - i*i) / (n*n)`; only the
//! trigonometric placement on the circle is left to the renderer.

use vstd::prelude::*;

verus! {

/// How many point lights the demo renders. Must match the constant compiled
/// into the light and emitter shaders.
pub const NUM_LIGHTS: usize = 250;

/// Largest light count for which the radius arithmetic cannot overflow.
pub const MAX_LIGHT_COUNT: usize = 0x8000_0000;

/// An exact radius factor `num / den`, with `den == n*n` for `n` lights.
#[derive(Clone, Copy, Debug, PartialEq, Eq, Structural)]
pub struct RadiusFactor {
    pub num: u64,
    pub den: u64,
}

/// Numerator of the radius factor `1 - i*i/(n*n)` over the denominator `n*n`.
pub open spec fn radius_num(i: int, n: int) -> int {
    n * n - i * i
}

/// The radius factor of light `i` of `n`: the rational
/// `(n*n - i*i) / (n*n)`, exactly.
pub fn light_radius_factor(i: usize, n: usize) -> (f: RadiusFactor)
    requires
        1 <= n <= MAX_LIGHT_COUNT,
        i <= n,
    ensures
        f.num == radius_num(i as int, n as int),
        f.den == n * n,
        f.num <= f.den,
        f.den > 0,
{
    proof {
        assert(1 <= n * n <= MAX_LIGHT_COUNT * MAX_LIGHT_COUNT && i * i <= n * n)
            by (nonlinear_arith)
            requires 0 <= i <= n && 1 <= n <= MAX_LIGHT_COUNT as int,
        ;
    }
    let nn: u64 = (n as u64) * (n as u64);
    let ii: u64 = (i as u64) * (i as u64);
    RadiusFactor { num: nn - ii, den: nn }
}

/// The factor lies in the unit interval: lights never leave the terrain.
pub proof fn lemma_radius_factor_unit(i: int, n: int)
    by (nonlinear_arith)
    requires
        0 <= i <= n,
    ensures
        0 <= radius_num(i, n) <= n * n,
{
}

/// Later lights sit strictly nearer the center: the spiral winds inward.
pub proof fn lemma_radius_factor_decreasing(i1: int, i2: int, n: int)
    by (nonlinear_arith)
    requires
        0 <= i1 < i2 <= n,
    ensures
        radius_num(i2, n) < radius_num(i1, n),
{
}

/// The radius factors of all `n` lights, in light order.
pub fn light_radius_factors(n: usize) -> (v: Vec<RadiusFactor>)
    requires
        1 <= n <= MAX_LIGHT_COUNT,
    ensures
        v@.len() == n,
        forall|k: int|
            0 <= k < n ==> v@[k] == (RadiusFactor {
                num: radius_num(k, n as int) as u64,
                den: (n * n) as u64,
            }),
{
    let mut v: Vec<RadiusFactor> = Vec::new();
    let mut i: usize = 0;
    while i < n
        invariant
            i <= n,
            1 <= n <= MAX_LIGHT_COUNT,
            v@.len() == i,
            forall|k: int|
                0 <= k < i ==> v@[k] == (RadiusFactor {
                    num: radius_num(k, n as int) as u64,
                    den: (n * n) as u64,
                }),
        decreases n - i,
    {
        let f = light_radius_factor(i, n);
        v.push(f);
        i = i + 1;
    }
    v
}

} // verus!
