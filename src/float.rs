//! The numeric type that noise is computed in.
//!
//! The library is generic over the scalar it samples with. [`Float`] names the
//! operations that the noise algorithms use, each with a spec function that
//! the contracts of the library are stated over; a scalar type supplies both.
use vstd::prelude::*;

verus! {

/// A scalar with the arithmetic, comparisons and constants that sampling uses.
pub trait Float: Sized + Copy {
    spec fn sum(self, o: Self) -> Self;

    spec fn diff(self, o: Self) -> Self;

    spec fn prod(self, o: Self) -> Self;

    spec fn quot(self, o: Self) -> Self;

    spec fn negated(self) -> Self;

    spec fn less(self, o: Self) -> bool;

    spec fn absolute(self) -> Self;

    spec fn floor_of(self) -> Self;

    spec fn sqrt_of(self) -> Self;

    spec fn pow_of(self, n: Self) -> Self;

    /// The integer part of a value as an index; negative values give zero.
    spec fn index_of(self) -> usize;

    /// The value less its integer part (rounded towards zero).
    spec fn fract_of(self) -> Self;

    /// The integer part of a value as an `i32`, saturated to its range.
    spec fn cell_of(self) -> i32;

    spec fn of_u16(n: u16) -> Self;

    spec fn of_usize(n: usize) -> Self;

    /// A 64-bit draw read as a fraction of the largest 64-bit value.
    spec fn of_draw(bits: u64) -> Self;

    spec fn max_value() -> Self;

    spec fn min_value() -> Self;

    /// The gap between one and the next larger value.
    spec fn epsilon_value() -> Self;

    fn add(self, o: Self) -> (r: Self)
        ensures
            r == self.sum(o),
    ;

    fn sub(self, o: Self) -> (r: Self)
        ensures
            r == self.diff(o),
    ;

    fn mul(self, o: Self) -> (r: Self)
        ensures
            r == self.prod(o),
    ;

    fn div(self, o: Self) -> (r: Self)
        ensures
            r == self.quot(o),
    ;

    fn neg(self) -> (r: Self)
        ensures
            r == self.negated(),
    ;

    fn lt(self, o: Self) -> (r: bool)
        ensures
            r == self.less(o),
    ;

    fn abs(self) -> (r: Self)
        ensures
            r == self.absolute(),
    ;

    fn floor(self) -> (r: Self)
        ensures
            r == self.floor_of(),
    ;

    fn sqrt(self) -> (r: Self)
        ensures
            r == self.sqrt_of(),
    ;

    fn powf(self, n: Self) -> (r: Self)
        ensures
            r == self.pow_of(n),
    ;

    fn as_index(self) -> (r: usize)
        ensures
            r == self.index_of(),
    ;

    fn fract(self) -> (r: Self)
        ensures
            r == self.fract_of(),
    ;

    fn as_cell(self) -> (r: i32)
        ensures
            r == self.cell_of(),
    ;

    fn from_u16(n: u16) -> (r: Self)
        ensures
            r == Self::of_u16(n),
    ;

    fn from_usize(n: usize) -> (r: Self)
        ensures
            r == Self::of_usize(n),
    ;

    fn from_draw(bits: u64) -> (r: Self)
        ensures
            r == Self::of_draw(bits),
    ;

    fn max_val() -> (r: Self)
        ensures
            r == Self::max_value(),
    ;

    fn min_val() -> (r: Self)
        ensures
            r == Self::min_value(),
    ;

    fn epsilon() -> (r: Self)
        ensures
            r == Self::epsilon_value(),
    ;
}

/// Zero.
pub open spec fn zero<T: Float>() -> T {
    T::of_u16(0)
}

/// One.
pub open spec fn one<T: Float>() -> T {
    T::of_u16(1)
}

/// Two.
pub open spec fn two<T: Float>() -> T {
    T::of_u16(2)
}

/// One half.
pub open spec fn half<T: Float>() -> T {
    one::<T>().quot(two::<T>())
}

/// `a` and `b` differ by less than the scalar's epsilon.
pub open spec fn nearly_eq_spec<T: Float>(a: T, b: T) -> bool {
    a.diff(b).absolute().less(T::epsilon_value())
}

/// `a` is at most `b`.
pub open spec fn le<T: Float>(a: T, b: T) -> bool {
    !b.less(a)
}

} // verus!
