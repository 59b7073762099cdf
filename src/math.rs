//! Scalar helpers: interpolation, clamping, blend curves, easing and integer
//! floor division.
use vstd::prelude::*;
use crate::float::Float;

verus! {

/// Linear interpolation `a·(1 − f) + f·b`.
pub open spec fn lerp_spec<T: Float>(a: T, b: T, f: T) -> T {
    a.prod(crate::float::one::<T>().diff(f)).sum(f.prod(b))
}

/// The smaller of `a` and `b`.
pub open spec fn min_spec<T: Float>(a: T, b: T) -> T {
    if b.less(a) {
        b
    } else {
        a
    }
}

/// The larger of `a` and `b`.
pub open spec fn max_spec<T: Float>(a: T, b: T) -> T {
    if a.less(b) {
        b
    } else {
        a
    }
}

/// `v` limited to `[lo, hi]`: first capped at `hi`, then raised to `lo`.
pub open spec fn clamp_spec<T: Float>(v: T, lo: T, hi: T) -> T {
    max_spec(min_spec(v, hi), lo)
}

/// Cubic Hermite curve `t²·(3 − 2t)`.
pub open spec fn cubic_spec<T: Float>(t: T) -> T {
    t.prod(t).prod(T::of_u16(3).diff(T::of_u16(2).prod(t)))
}

/// Quintic curve `t³·(t·(6t − 15) + 10)`.
pub open spec fn quintic_spec<T: Float>(t: T) -> T {
    t.prod(t).prod(t).prod(t.prod(t.prod(T::of_u16(6)).diff(T::of_u16(15))).sum(T::of_u16(10)))
}

/// A blend (interpolation) curve: used as Perlin's fade and for the
/// selector's falloff window.
#[derive(Clone, Copy, Debug, PartialEq, Eq, Structural)]
pub enum FractalBlender {
    Linear,
    Cubic,
    Quintic,
}

impl FractalBlender {
    /// The curve's value at `t`.
    pub open spec fn apply_spec<T: Float>(self, t: T) -> T {
        match self {
            FractalBlender::Linear => t,
            FractalBlender::Cubic => cubic_spec(t),
            FractalBlender::Quintic => quintic_spec(t),
        }
    }

    /// The default curve, quintic.
    pub fn default() -> (r: FractalBlender)
        ensures
            r == FractalBlender::Quintic,
    {
        FractalBlender::Quintic
    }

    /// Evaluates the curve at `t`.
    pub fn apply<T: Float>(self, t: T) -> (r: T)
        ensures
            r == self.apply_spec(t),
    {
        match self {
            FractalBlender::Linear => linear_curve(t),
            FractalBlender::Cubic => cubic_curve(t),
            FractalBlender::Quintic => quintic_curve(t),
        }
    }
}

/// Linear interpolation between `a` and `b` by `f`.
pub fn lerp<T: Float>(a: T, b: T, f: T) -> (r: T)
    ensures
        r == lerp_spec(a, b, f),
{
    a.mul(T::from_u16(1).sub(f)).add(f.mul(b))
}

/// The smaller of two values.
pub fn min<T: Float>(a: T, b: T) -> (r: T)
    ensures
        r == min_spec(a, b),
{
    if b.lt(a) {
        b
    } else {
        a
    }
}

/// The larger of two values.
pub fn max<T: Float>(a: T, b: T) -> (r: T)
    ensures
        r == max_spec(a, b),
{
    if a.lt(b) {
        b
    } else {
        a
    }
}

/// Limits `v` to the range `[lo, hi]`.
pub fn clamp<T: Float>(v: T, lo: T, hi: T) -> (r: T)
    ensures
        r == clamp_spec(v, lo, hi),
{
    max(min(v, hi), lo)
}

/// The identity curve.
pub fn linear_curve<T: Float>(t: T) -> (r: T)
    ensures
        r == t,
{
    t
}

/// Cubic Hermite curve `3t² − 2t³`.
pub fn cubic_curve<T: Float>(t: T) -> (r: T)
    ensures
        r == cubic_spec(t),
{
    t.mul(t).mul(T::from_u16(3).sub(T::from_u16(2).mul(t)))
}

/// Quintic curve `6t⁵ − 15t⁴ + 10t³`.
pub fn quintic_curve<T: Float>(t: T) -> (r: T)
    ensures
        r == quintic_spec(t),
{
    t.mul(t).mul(t).mul(t.mul(t.mul(T::from_u16(6)).sub(T::from_u16(15))).add(T::from_u16(10)))
}

/// `a` and `b` differ by less than the scalar's epsilon.
pub fn nearly_eq<T: Float>(a: T, b: T) -> (r: bool)
    ensures
        r == crate::float::nearly_eq_spec(a, b),
{
    a.sub(b).abs().lt(T::epsilon())
}

/// `2^(y−1) · x^y`.
pub open spec fn exponent_half_spec<T: Float>(x: T, y: T) -> T {
    crate::float::two::<T>().pow_of(y.diff(crate::float::one::<T>())).prod(x.pow_of(y))
}

/// Ease-in-out warp of `t` with exponent `exp`: `2^(exp−1)·t^exp` below one
/// half, mirrored as `1 − f(1 − t)` from one half on.
pub open spec fn ease_in_out_spec<T: Float>(t: T, exp: T) -> T {
    if t.less(crate::float::half::<T>()) {
        exponent_half_spec(t, exp)
    } else {
        crate::float::one::<T>().diff(exponent_half_spec(crate::float::one::<T>().diff(t), exp))
    }
}

fn exponent_half<T: Float>(x: T, y: T) -> (r: T)
    ensures
        r == exponent_half_spec(x, y),
{
    T::from_u16(2).powf(y.sub(T::from_u16(1))).mul(x.powf(y))
}

/// Warps `t` with the exponent `exp`. The curve is meant for `t ∈ [0, 1]`
/// and `exp ≥ 0`; callers bring their inputs into that range (the bias node
/// clamps them), and outside it the same formula is applied.
pub fn ease_in_out<T: Float>(t: T, exp: T) -> (r: T)
    ensures
        r == ease_in_out_spec(t, exp),
{
    let one = T::from_u16(1);
    let half = one.div(T::from_u16(2));
    if t.lt(half) {
        exponent_half(t, exp)
    } else {
        one.sub(exponent_half(one.sub(t), exp))
    }
}

/// The floor of `a / d` over the integers.
pub open spec fn floor_div_spec(a: int, d: int) -> int {
    if d > 0 {
        a / d
    } else {
        (-a) / (-d)
    }
}

/// Division that rounds the quotient towards negative infinity.
pub trait FloorDiv: Sized + Copy {
    /// The value as a mathematical integer.
    spec fn to_int(self) -> int;

    /// `v` is representable in this type.
    spec fn fits(v: int) -> bool;

    /// The floor of `self / divisor`; a zero divisor, or a quotient that does
    /// not fit the type, is ruled out.
    fn floor_div(&self, divisor: Self) -> (r: Self)
        requires
            divisor.to_int() != 0,
            Self::fits(floor_div_spec(self.to_int(), divisor.to_int())),
        ensures
            r.to_int() == floor_div_spec(self.to_int(), divisor.to_int()),
    ;
}

impl FloorDiv for u64 {
    open spec fn to_int(self) -> int {
        self as int
    }

    open spec fn fits(v: int) -> bool {
        0 <= v <= u64::MAX
    }

    fn floor_div(&self, divisor: u64) -> (r: u64) {
        *self / divisor
    }
}

impl FloorDiv for u32 {
    open spec fn to_int(self) -> int {
        self as int
    }

    open spec fn fits(v: int) -> bool {
        0 <= v <= u32::MAX
    }

    fn floor_div(&self, divisor: u32) -> (r: u32) {
        *self / divisor
    }
}

impl FloorDiv for usize {
    open spec fn to_int(self) -> int {
        self as int
    }

    open spec fn fits(v: int) -> bool {
        0 <= v <= usize::MAX
    }

    fn floor_div(&self, divisor: usize) -> (r: usize) {
        *self / divisor
    }
}

} // verus!
