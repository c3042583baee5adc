//! The elementary functions that the renderer needs beyond arithmetic.
//!
//! Roots, powers, trigonometry and rounding are not part of the operator
//! traits, so the caller hands them in. The library asks one thing of them:
//! each is a function of its arguments.
use vstd::prelude::*;

verus! {

/// Square root, power, trigonometry and rounding on the scalar `T`.
pub trait Elementary<T> {
    /// The square root of `x`.
    fn sqrt(&self, x: T) -> T;

    /// `base` raised to `exponent`.
    fn powf(&self, base: T, exponent: T) -> T;

    /// The sine of an angle in radians.
    fn sin(&self, x: T) -> T;

    /// The cosine of an angle in radians.
    fn cos(&self, x: T) -> T;

    /// The tangent of an angle in radians.
    fn tan(&self, x: T) -> T;

    /// The largest whole number that is not above `x`.
    fn floor(&self, x: T) -> T;

    /// What remains of `x` when its whole part is taken away.
    fn fract(&self, x: T) -> T;

    /// The whole number nearest to `x`.
    fn round(&self, x: T) -> T;

    /// `x` cut down to a whole number that can count or index.
    fn to_index(&self, x: T) -> usize;
}

/// What `n` returns as the square root of `x`.
pub open spec fn sqrt_of<T, N: Elementary<T>>(n: &N, x: T) -> T {
    choose|r: T| call_ensures(N::sqrt, (n, x), r)
}

/// What `n` returns as `base` raised to `exponent`.
pub open spec fn powf_of<T, N: Elementary<T>>(n: &N, base: T, exponent: T) -> T {
    choose|r: T| call_ensures(N::powf, (n, base, exponent), r)
}

/// What `n` returns as the sine of `x`.
pub open spec fn sin_of<T, N: Elementary<T>>(n: &N, x: T) -> T {
    choose|r: T| call_ensures(N::sin, (n, x), r)
}

/// What `n` returns as the cosine of `x`.
pub open spec fn cos_of<T, N: Elementary<T>>(n: &N, x: T) -> T {
    choose|r: T| call_ensures(N::cos, (n, x), r)
}

/// What `n` returns as the tangent of `x`.
pub open spec fn tan_of<T, N: Elementary<T>>(n: &N, x: T) -> T {
    choose|r: T| call_ensures(N::tan, (n, x), r)
}

/// What `n` returns as the floor of `x`.
pub open spec fn floor_of<T, N: Elementary<T>>(n: &N, x: T) -> T {
    choose|r: T| call_ensures(N::floor, (n, x), r)
}

/// What `n` returns as the fractional part of `x`.
pub open spec fn fract_of<T, N: Elementary<T>>(n: &N, x: T) -> T {
    choose|r: T| call_ensures(N::fract, (n, x), r)
}

/// What `n` returns as `x` rounded.
pub open spec fn round_of<T, N: Elementary<T>>(n: &N, x: T) -> T {
    choose|r: T| call_ensures(N::round, (n, x), r)
}

/// What `n` returns as `x` cut down to a count.
pub open spec fn index_of<T, N: Elementary<T>>(n: &N, x: T) -> usize {
    choose|r: usize| call_ensures(N::to_index, (n, x), r)
}

/// Every function of `n` accepts every argument and returns one value for it.
pub open spec fn exact<T, N: Elementary<T>>(n: &N) -> bool {
    &&& forall|x: T| #[trigger] call_requires(N::sqrt, (n, x))
    &&& forall|x: T, r: T| #[trigger] call_ensures(N::sqrt, (n, x), r) ==> r == sqrt_of(n, x)
    &&& forall|b: T, e: T| #[trigger] call_requires(N::powf, (n, b, e))
    &&& forall|b: T, e: T, r: T| #[trigger]
        call_ensures(N::powf, (n, b, e), r) ==> r == powf_of(n, b, e)
    &&& forall|x: T| #[trigger] call_requires(N::sin, (n, x))
    &&& forall|x: T, r: T| #[trigger] call_ensures(N::sin, (n, x), r) ==> r == sin_of(n, x)
    &&& forall|x: T| #[trigger] call_requires(N::cos, (n, x))
    &&& forall|x: T, r: T| #[trigger] call_ensures(N::cos, (n, x), r) ==> r == cos_of(n, x)
    &&& forall|x: T| #[trigger] call_requires(N::tan, (n, x))
    &&& forall|x: T, r: T| #[trigger] call_ensures(N::tan, (n, x), r) ==> r == tan_of(n, x)
    &&& forall|x: T| #[trigger] call_requires(N::floor, (n, x))
    &&& forall|x: T, r: T| #[trigger] call_ensures(N::floor, (n, x), r) ==> r == floor_of(n, x)
    &&& forall|x: T| #[trigger] call_requires(N::fract, (n, x))
    &&& forall|x: T, r: T| #[trigger] call_ensures(N::fract, (n, x), r) ==> r == fract_of(n, x)
    &&& forall|x: T| #[trigger] call_requires(N::round, (n, x))
    &&& forall|x: T, r: T| #[trigger] call_ensures(N::round, (n, x), r) ==> r == round_of(n, x)
    &&& forall|x: T| #[trigger] call_requires(N::to_index, (n, x))
    &&& forall|x: T, r: usize| #[trigger]
        call_ensures(N::to_index, (n, x), r) ==> r == index_of(n, x)
}

} // verus!
