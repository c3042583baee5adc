//! Colours as red, green and blue intensities.
use crate::numeric::exact;
use crate::numeric::index_of;
use crate::numeric::round_of;
use crate::numeric::Elementary;
use crate::scalar::approx_eq;
use crate::scalar::lawful;
use crate::scalar::less;
use crate::scalar::minus;
use crate::scalar::number;
use crate::scalar::plus;
use crate::scalar::times;
use crate::scalar::Scalar;
use core::ops::Add;
use core::ops::Mul;
use core::ops::Sub;
use vstd::prelude::*;
use vstd::std_specs::ops::AddSpecImpl;
use vstd::std_specs::ops::MulSpecImpl;
use vstd::std_specs::ops::SubSpecImpl;

verus! {

/// A colour. An intensity of zero is dark and one is full; values outside
/// that range are kept as they are until the colour is written out.
#[derive(Clone, Copy, Debug)]
pub struct Color<T> {
    pub red: T,
    pub green: T,
    pub blue: T,
}

/// `x` held to the range from zero to one.
pub open spec fn spec_clamp_unit<T: Scalar>(x: T) -> T {
    if less(x, number::<T>(0)) {
        number::<T>(0)
    } else if less(number::<T>(1), x) {
        number::<T>(1)
    } else {
        x
    }
}

/// `x` held to the range from zero to one.
#[verifier::when_used_as_spec(spec_clamp_unit)]
pub fn clamp_unit<T: Scalar>(x: T) -> (r: T)
    requires
        lawful::<T>(),
    ensures
        r == spec_clamp_unit(x),
{
    if less(x, number::<T>(0)) {
        number::<T>(0)
    } else if less(number::<T>(1), x) {
        number::<T>(1)
    } else {
        x
    }
}

/// The intensity as a channel value: held to the unit range, scaled by 255
/// and rounded to the nearest whole number.
pub open spec fn spec_channel<T: Scalar, N: Elementary<T>>(n: &N, x: T) -> usize {
    index_of(n, round_of(n, times(spec_clamp_unit(x), number::<T>(255))))
}

/// The intensity as a channel value: held to the unit range, scaled by 255
/// and rounded to the nearest whole number.
pub fn channel<T: Scalar, N: Elementary<T>>(n: &N, x: T) -> (r: usize)
    requires
        lawful::<T>(),
        exact(n),
    ensures
        r == spec_channel(n, x),
{
    let scaled = times(clamp_unit(x), number::<T>(255));
    n.to_index(n.round(scaled))
}

impl<T: Scalar> Color<T> {
    pub fn new(red: T, green: T, blue: T) -> (r: Self)
        ensures
            r == (Color { red, green, blue }),
    {
        Color { red, green, blue }
    }

    pub fn red(&self) -> (r: T)
        ensures
            r == self.red,
    {
        self.red
    }

    pub fn green(&self) -> (r: T)
        ensures
            r == self.green,
    {
        self.green
    }

    pub fn blue(&self) -> (r: T)
        ensures
            r == self.blue,
    {
        self.blue
    }

    /// No light at all.
    pub open spec fn spec_black() -> Self {
        Color { red: number::<T>(0), green: number::<T>(0), blue: number::<T>(0) }
    }

    /// No light at all.
    #[verifier::when_used_as_spec(spec_black)]
    pub fn black() -> (r: Self)
        requires
            lawful::<T>(),
        ensures
            r == Self::spec_black(),
    {
        Color { red: number::<T>(0), green: number::<T>(0), blue: number::<T>(0) }
    }

    /// Full intensity in every channel.
    pub open spec fn spec_white() -> Self {
        Color { red: number::<T>(1), green: number::<T>(1), blue: number::<T>(1) }
    }

    /// Full intensity in every channel.
    #[verifier::when_used_as_spec(spec_white)]
    pub fn white() -> (r: Self)
        requires
            lawful::<T>(),
        ensures
            r == Self::spec_white(),
    {
        Color { red: number::<T>(1), green: number::<T>(1), blue: number::<T>(1) }
    }

    /// Channel by channel sum.
    pub open spec fn sum(self, rhs: Self) -> Self {
        Color {
            red: plus(self.red, rhs.red),
            green: plus(self.green, rhs.green),
            blue: plus(self.blue, rhs.blue),
        }
    }

    /// Channel by channel difference.
    pub open spec fn difference(self, rhs: Self) -> Self {
        Color {
            red: minus(self.red, rhs.red),
            green: minus(self.green, rhs.green),
            blue: minus(self.blue, rhs.blue),
        }
    }

    /// Each channel multiplied by `k`.
    pub open spec fn scaled(self, k: T) -> Self {
        Color { red: times(self.red, k), green: times(self.green, k), blue: times(self.blue, k) }
    }

    /// Channel by channel product.
    pub open spec fn blended(self, rhs: Self) -> Self {
        Color {
            red: times(self.red, rhs.red),
            green: times(self.green, rhs.green),
            blue: times(self.blue, rhs.blue),
        }
    }

    /// `k * c` with the scalar written first.
    pub fn scale(k: T, c: Self) -> (r: Self)
        requires
            lawful::<T>(),
        ensures
            r == c.scaled(k),
    {
        Color { red: times(c.red, k), green: times(c.green, k), blue: times(c.blue, k) }
    }

    /// All three channels agree within the tolerance.
    pub open spec fn spec_equals(self, other: Self) -> bool {
        approx_eq(self.red, other.red) && approx_eq(self.green, other.green) && approx_eq(
            self.blue,
            other.blue,
        )
    }

    /// Whether the two colours agree within the tolerance, channel by channel.
    #[verifier::when_used_as_spec(spec_equals)]
    pub fn equals(self, other: Self) -> (r: bool)
        requires
            lawful::<T>(),
        ensures
            r == self.spec_equals(other),
    {
        approx_eq(self.red, other.red) && approx_eq(self.green, other.green) && approx_eq(
            self.blue,
            other.blue,
        )
    }

    /// The three channel values of the colour, red first.
    pub open spec fn spec_channels<N: Elementary<T>>(self, n: &N) -> (usize, usize, usize) {
        (spec_channel(n, self.red), spec_channel(n, self.green), spec_channel(n, self.blue))
    }

    /// The three channel values of the colour, red first.
    pub fn channels<N: Elementary<T>>(&self, n: &N) -> (r: (usize, usize, usize))
        requires
            lawful::<T>(),
            exact(n),
        ensures
            r == self.spec_channels(n),
    {
        (channel(n, self.red), channel(n, self.green), channel(n, self.blue))
    }
}

impl<T: Scalar> AddSpecImpl for Color<T> {
    open spec fn obeys_add_spec() -> bool {
        true
    }

    open spec fn add_req(self, rhs: Color<T>) -> bool {
        lawful::<T>()
    }

    open spec fn add_spec(self, rhs: Color<T>) -> Color<T> {
        self.sum(rhs)
    }
}

impl<T: Scalar> Add for Color<T> {
    type Output = Color<T>;

    fn add(self, rhs: Color<T>) -> (r: Color<T>) {
        Color {
            red: plus(self.red, rhs.red),
            green: plus(self.green, rhs.green),
            blue: plus(self.blue, rhs.blue),
        }
    }
}

impl<T: Scalar> SubSpecImpl for Color<T> {
    open spec fn obeys_sub_spec() -> bool {
        true
    }

    open spec fn sub_req(self, rhs: Color<T>) -> bool {
        lawful::<T>()
    }

    open spec fn sub_spec(self, rhs: Color<T>) -> Color<T> {
        self.difference(rhs)
    }
}

impl<T: Scalar> Sub for Color<T> {
    type Output = Color<T>;

    fn sub(self, rhs: Color<T>) -> (r: Color<T>) {
        Color {
            red: minus(self.red, rhs.red),
            green: minus(self.green, rhs.green),
            blue: minus(self.blue, rhs.blue),
        }
    }
}

impl<T: Scalar> MulSpecImpl<T> for Color<T> {
    open spec fn obeys_mul_spec() -> bool {
        true
    }

    open spec fn mul_req(self, rhs: T) -> bool {
        lawful::<T>()
    }

    open spec fn mul_spec(self, rhs: T) -> Color<T> {
        self.scaled(rhs)
    }
}

impl<T: Scalar> Mul<T> for Color<T> {
    type Output = Color<T>;

    fn mul(self, rhs: T) -> (r: Color<T>) {
        Color { red: times(self.red, rhs), green: times(self.green, rhs), blue: times(self.blue, rhs) }
    }
}

impl<T: Scalar> MulSpecImpl for Color<T> {
    open spec fn obeys_mul_spec() -> bool {
        true
    }

    open spec fn mul_req(self, rhs: Color<T>) -> bool {
        lawful::<T>()
    }

    open spec fn mul_spec(self, rhs: Color<T>) -> Color<T> {
        self.blended(rhs)
    }
}

impl<T: Scalar> Mul for Color<T> {
    type Output = Color<T>;

    fn mul(self, rhs: Color<T>) -> (r: Color<T>) {
        Color {
            red: times(self.red, rhs.red),
            green: times(self.green, rhs.green),
            blue: times(self.blue, rhs.blue),
        }
    }
}

} // verus!
