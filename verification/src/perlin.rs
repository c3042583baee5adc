//! Gradient noise on the integer lattice.
use crate::numeric::exact;
use crate::numeric::fract_of;
use crate::numeric::index_of;
use crate::numeric::Elementary;
use crate::point::Point;
use crate::scalar::lawful;
use crate::scalar::minus;
use crate::scalar::negate;
use crate::scalar::number;
use crate::scalar::over;
use crate::scalar::plus;
use crate::scalar::times;
use crate::scalar::Scalar;
use vstd::prelude::*;

verus! {

/// The hash table of the noise: a fixed shuffle of the numbers from 0 to
/// 255, written out twice so that a sum of two entries still indexes it.
pub const PERMUTATION: [usize; 512] = [
    151, 160, 137, 91, 90, 15, 131, 13, 201, 95, 96, 53, 194, 233, 7, 225,
    140, 36, 103, 30, 69, 142, 8, 99, 37, 240, 21, 10, 23, 190, 6, 148,
    247, 120, 234, 75, 0, 26, 197, 62, 94, 252, 219, 203, 117, 35, 11, 32,
    57, 177, 33, 88, 237, 149, 56, 87, 174, 20, 125, 136, 171, 168, 68, 175,
    74, 165, 71, 134, 139, 48, 27, 166, 77, 146, 158, 231, 83, 111, 229, 122,
    60, 211, 133, 230, 220, 105, 92, 41, 55, 46, 245, 40, 244, 102, 143, 54,
    65, 25, 63, 161, 1, 216, 80, 73, 209, 76, 132, 187, 208, 89, 18, 169,
    200, 196, 135, 130, 116, 188, 159, 86, 164, 100, 109, 198, 173, 186, 3, 64,
    52, 217, 226, 250, 124, 123, 5, 202, 38, 147, 118, 126, 255, 82, 85, 212,
    207, 206, 59, 227, 47, 16, 58, 17, 182, 189, 28, 42, 223, 183, 170, 213,
    119, 248, 152, 2, 44, 154, 163, 70, 221, 153, 101, 155, 167, 43, 172, 9,
    129, 22, 39, 253, 19, 98, 108, 110, 79, 113, 224, 232, 178, 185, 112, 104,
    218, 246, 97, 228, 251, 34, 242, 193, 238, 210, 144, 12, 191, 179, 162, 241,
    81, 51, 145, 235, 249, 14, 239, 107, 49, 192, 214, 31, 181, 199, 106, 157,
    184, 84, 204, 176, 115, 121, 50, 45, 127, 4, 150, 254, 138, 236, 205, 93,
    222, 114, 67, 29, 24, 72, 243, 141, 128, 195, 78, 66, 215, 61, 156, 180,
    151, 160, 137, 91, 90, 15, 131, 13, 201, 95, 96, 53, 194, 233, 7, 225,
    140, 36, 103, 30, 69, 142, 8, 99, 37, 240, 21, 10, 23, 190, 6, 148,
    247, 120, 234, 75, 0, 26, 197, 62, 94, 252, 219, 203, 117, 35, 11, 32,
    57, 177, 33, 88, 237, 149, 56, 87, 174, 20, 125, 136, 171, 168, 68, 175,
    74, 165, 71, 134, 139, 48, 27, 166, 77, 146, 158, 231, 83, 111, 229, 122,
    60, 211, 133, 230, 220, 105, 92, 41, 55, 46, 245, 40, 244, 102, 143, 54,
    65, 25, 63, 161, 1, 216, 80, 73, 209, 76, 132, 187, 208, 89, 18, 169,
    200, 196, 135, 130, 116, 188, 159, 86, 164, 100, 109, 198, 173, 186, 3, 64,
    52, 217, 226, 250, 124, 123, 5, 202, 38, 147, 118, 126, 255, 82, 85, 212,
    207, 206, 59, 227, 47, 16, 58, 17, 182, 189, 28, 42, 223, 183, 170, 213,
    119, 248, 152, 2, 44, 154, 163, 70, 221, 153, 101, 155, 167, 43, 172, 9,
    129, 22, 39, 253, 19, 98, 108, 110, 79, 113, 224, 232, 178, 185, 112, 104,
    218, 246, 97, 228, 251, 34, 242, 193, 238, 210, 144, 12, 191, 179, 162, 241,
    81, 51, 145, 235, 249, 14, 239, 107, 49, 192, 214, 31, 181, 199, 106, 157,
    184, 84, 204, 176, 115, 121, 50, 45, 127, 4, 150, 254, 138, 236, 205, 93,
    222, 114, 67, 29, 24, 72, 243, 141, 128, 195, 78, 66, 215, 61, 156, 180,
];

/// Every entry of the table is below 256.
proof fn permutation_bounded()
    ensures
        forall|i: int| 0 <= i < 512 ==> #[trigger] PERMUTATION[i] < 256,
{
}

/// The lattice coordinate after `num`, wrapped where a period is given.
pub open spec fn spec_inc(num: usize, repeat: Option<usize>) -> int {
    match repeat {
        Some(period) => (num + 1) % (period as int),
        None => num + 1,
    }
}

/// Steps one lattice cell forward. With a period the coordinate wraps
/// around it, so the noise repeats.
pub fn inc(num: usize, repeat: Option<usize>) -> (r: usize)
    requires
        num < usize::MAX,
        repeat != Some(0usize),
    ensures
        r == spec_inc(num, repeat),
        r <= num + 1,
{
    let next: usize = num + 1;
    match repeat {
        Some(period) => {
            assert(next % period <= next) by (nonlinear_arith)
                requires
                    period > 0,
            ;
            next % period
        },
        None => next,
    }
}

/// `6t^5 - 15t^4 + 10t^3`, written as `t * t * t * (t * (t * 6 - 15) + 10)`.
pub open spec fn spec_fade<T: Scalar>(t: T) -> T {
    times(
        times(times(t, t), t),
        plus(times(t, minus(times(t, number::<T>(6)), number::<T>(15))), number::<T>(10)),
    )
}

/// Eases a coordinate towards the whole numbers, which smooths the noise.
#[verifier::when_used_as_spec(spec_fade)]
pub fn fade<T: Scalar>(t: T) -> (r: T)
    requires
        lawful::<T>(),
    ensures
        r == spec_fade(t),
{
    times(
        times(times(t, t), t),
        plus(times(t, minus(times(t, number::<T>(6)), number::<T>(15))), number::<T>(10)),
    )
}

/// `a + x * (b - a)`
pub open spec fn spec_lerp<T: Scalar>(a: T, b: T, x: T) -> T {
    plus(a, times(x, minus(b, a)))
}

/// The value a fraction `x` of the way from `a` to `b`.
#[verifier::when_used_as_spec(spec_lerp)]
pub fn lerp<T: Scalar>(a: T, b: T, x: T) -> (r: T)
    requires
        lawful::<T>(),
    ensures
        r == spec_lerp(a, b, x),
{
    plus(a, times(x, minus(b, a)))
}

/// The dot product of `(x, y, z)` with the gradient that the low four bits
/// of `hash` select.
pub open spec fn spec_grad<T: Scalar>(hash: usize, x: T, y: T, z: T) -> T {
    let kind = hash % 16;
    if kind == 0 {
        plus(x, y)
    } else if kind == 1 {
        plus(negate(x), y)
    } else if kind == 2 {
        minus(x, y)
    } else if kind == 3 {
        minus(negate(x), y)
    } else if kind == 4 {
        plus(x, z)
    } else if kind == 5 {
        plus(negate(x), z)
    } else if kind == 6 {
        minus(x, z)
    } else if kind == 7 {
        minus(negate(x), z)
    } else if kind == 8 {
        plus(y, z)
    } else if kind == 9 {
        plus(negate(y), z)
    } else if kind == 10 {
        minus(y, z)
    } else if kind == 11 {
        minus(negate(y), z)
    } else if kind == 12 {
        plus(y, x)
    } else if kind == 13 {
        plus(negate(y), z)
    } else if kind == 14 {
        minus(y, x)
    } else {
        minus(negate(y), z)
    }
}

/// The dot product of `(x, y, z)` with one of the pseudorandom gradients.
#[verifier::when_used_as_spec(spec_grad)]
pub fn grad<T: Scalar>(hash: usize, x: T, y: T, z: T) -> (r: T)
    requires
        lawful::<T>(),
    ensures
        r == spec_grad(hash, x, y, z),
{
    let kind: usize = hash % 16;
    if kind == 0 {
        plus(x, y)
    } else if kind == 1 {
        plus(negate(x), y)
    } else if kind == 2 {
        minus(x, y)
    } else if kind == 3 {
        minus(negate(x), y)
    } else if kind == 4 {
        plus(x, z)
    } else if kind == 5 {
        plus(negate(x), z)
    } else if kind == 6 {
        minus(x, z)
    } else if kind == 7 {
        minus(negate(x), z)
    } else if kind == 8 {
        plus(y, z)
    } else if kind == 9 {
        plus(negate(y), z)
    } else if kind == 10 {
        minus(y, z)
    } else if kind == 11 {
        minus(negate(y), z)
    } else if kind == 12 {
        plus(y, x)
    } else if kind == 13 {
        plus(negate(y), z)
    } else if kind == 14 {
        minus(y, x)
    } else {
        minus(negate(y), z)
    }
}

/// The hash of the lattice corner `(x, y, z)`: three chained lookups.
pub open spec fn spec_corner(x: int, y: int, z: int) -> usize {
    PERMUTATION[PERMUTATION[PERMUTATION[x] + y] + z]
}

/// The hash of a lattice corner.
pub fn corner(x: usize, y: usize, z: usize) -> (r: usize)
    requires
        x <= 256,
        y <= 256,
        z <= 256,
    ensures
        r == spec_corner(x as int, y as int, z as int),
        r < 256,
{
    proof {
        permutation_bounded();
    }
    let first: usize = PERMUTATION[x];
    let second: usize = PERMUTATION[first + y];
    PERMUTATION[second + z]
}

/// The lattice cell of a coordinate: its whole part, wrapped to 0..255.
pub open spec fn spec_cell<T: Scalar, N: Elementary<T>>(n: &N, x: T) -> usize {
    (index_of(n, x) % 256) as usize
}

/// The noise at `point`, between zero and one. With a period the noise
/// repeats after that many cells.
#[verifier::opaque]
pub open spec fn spec_perlin_noise<T: Scalar, N: Elementary<T>>(
    n: &N,
    point: Point<T>,
    repeat: Option<usize>,
) -> T {
    let x_i = spec_cell(n, point.x);
    let y_i = spec_cell(n, point.y);
    let z_i = spec_cell(n, point.z);
    let x_f = fract_of(n, point.x);
    let y_f = fract_of(n, point.y);
    let z_f = fract_of(n, point.z);
    let u = spec_fade(x_f);
    let v = spec_fade(y_f);
    let w = spec_fade(z_f);
    let x_n = spec_inc(x_i, repeat);
    let y_n = spec_inc(y_i, repeat);
    let z_n = spec_inc(z_i, repeat);
    let one = number::<T>(1);
    let near = spec_lerp(
        spec_lerp(
            spec_grad(spec_corner(x_i as int, y_i as int, z_i as int), x_f, y_f, z_f),
            spec_grad(spec_corner(x_n, y_i as int, z_i as int), minus(x_f, one), y_f, z_f),
            u,
        ),
        spec_lerp(
            spec_grad(spec_corner(x_i as int, y_n, z_i as int), x_f, minus(y_f, one), z_f),
            spec_grad(spec_corner(x_n, y_n, z_i as int), minus(x_f, one), minus(y_f, one), z_f),
            u,
        ),
        v,
    );
    let far = spec_lerp(
        spec_lerp(
            spec_grad(spec_corner(x_i as int, y_i as int, z_n), x_f, y_f, minus(z_f, one)),
            spec_grad(spec_corner(x_n, y_i as int, z_n), minus(x_f, one), y_f, minus(z_f, one)),
            u,
        ),
        spec_lerp(
            spec_grad(spec_corner(x_i as int, y_n, z_n), x_f, minus(y_f, one), minus(z_f, one)),
            spec_grad(
                spec_corner(x_n, y_n, z_n),
                minus(x_f, one),
                minus(y_f, one),
                minus(z_f, one),
            ),
            u,
        ),
        v,
    );
    over(plus(spec_lerp(near, far, w), one), number::<T>(2))
}

/// Gradient noise at `point`: the gradients at the eight corners of the
/// lattice cell around it, blended by the eased position inside the cell,
/// then moved from `-1..1` to `0..1`.
pub fn perlin_noise<T: Scalar, N: Elementary<T>>(n: &N, point: Point<T>, repeat: Option<usize>) -> (r: T)
    requires
        lawful::<T>(),
        exact(n),
        repeat != Some(0usize),
    ensures
        r == spec_perlin_noise(n, point, repeat),
{
    reveal(spec_perlin_noise);
    let x_i: usize = n.to_index(point.x) % 256;
    let y_i: usize = n.to_index(point.y) % 256;
    let z_i: usize = n.to_index(point.z) % 256;
    let x_f = n.fract(point.x);
    let y_f = n.fract(point.y);
    let z_f = n.fract(point.z);
    let u = fade(x_f);
    let v = fade(y_f);
    let w = fade(z_f);
    let x_n = inc(x_i, repeat);
    let y_n = inc(y_i, repeat);
    let z_n = inc(z_i, repeat);
    let one = number::<T>(1);
    let aaa = corner(x_i, y_i, z_i);
    let aba = corner(x_i, y_n, z_i);
    let aab = corner(x_i, y_i, z_n);
    let abb = corner(x_i, y_n, z_n);
    let baa = corner(x_n, y_i, z_i);
    let bba = corner(x_n, y_n, z_i);
    let bab = corner(x_n, y_i, z_n);
    let bbb = corner(x_n, y_n, z_n);
    let near = lerp(
        lerp(grad(aaa, x_f, y_f, z_f), grad(baa, minus(x_f, one), y_f, z_f), u),
        lerp(
            grad(aba, x_f, minus(y_f, one), z_f),
            grad(bba, minus(x_f, one), minus(y_f, one), z_f),
            u,
        ),
        v,
    );
    let far = lerp(
        lerp(
            grad(aab, x_f, y_f, minus(z_f, one)),
            grad(bab, minus(x_f, one), y_f, minus(z_f, one)),
            u,
        ),
        lerp(
            grad(abb, x_f, minus(y_f, one), minus(z_f, one)),
            grad(bbb, minus(x_f, one), minus(y_f, one), minus(z_f, one)),
            u,
        ),
        v,
    );
    over(plus(lerp(near, far, w), one), number::<T>(2))
}

/// The first `taken` octaves of noise at `point`, as the running total, the
/// sum of the amplitudes, and the amplitude and frequency of the next octave.
pub open spec fn spec_octaves<T: Scalar, N: Elementary<T>>(
    n: &N,
    point: Point<T>,
    taken: nat,
    persistance: T,
) -> (T, T, T, T)
    decreases taken,
{
    if taken == 0 {
        (number::<T>(0), number::<T>(0), number::<T>(1), number::<T>(1))
    } else {
        let (total, max_value, amplitude, frequency) = spec_octaves(
            n,
            point,
            (taken - 1) as nat,
            persistance,
        );
        (
            plus(total, times(spec_perlin_noise(n, point.scaled(frequency), None), amplitude)),
            plus(max_value, amplitude),
            times(amplitude, persistance),
            times(frequency, number::<T>(2)),
        )
    }
}

/// Several octaves of noise at `point`, each at twice the frequency of the
/// one before and `persistance` times its amplitude, divided by the sum of
/// the amplitudes.
pub open spec fn spec_octave_perlin<T: Scalar, N: Elementary<T>>(
    n: &N,
    point: Point<T>,
    octaves: usize,
    persistance: T,
) -> T {
    let (total, max_value, amplitude, frequency) = spec_octaves(
        n,
        point,
        octaves as nat,
        persistance,
    );
    over(total, max_value)
}

/// Layered noise: each octave adds finer detail with less weight.
pub fn octave_perlin<T: Scalar, N: Elementary<T>>(
    n: &N,
    point: Point<T>,
    octaves: usize,
    persistance: T,
) -> (r: T)
    requires
        lawful::<T>(),
        exact(n),
    ensures
        r == spec_octave_perlin(n, point, octaves, persistance),
{
    let mut total = number::<T>(0);
    let mut frequency = number::<T>(1);
    let mut amplitude = number::<T>(1);
    let mut max_value = number::<T>(0);
    let mut taken: usize = 0;
    while taken < octaves
        invariant
            lawful::<T>(),
            exact(n),
            taken <= octaves,
            (total, max_value, amplitude, frequency) == spec_octaves(
                n,
                point,
                taken as nat,
                persistance,
            ),
        decreases octaves - taken,
    {
        let scaled = Point {
            x: times(point.x, frequency),
            y: times(point.y, frequency),
            z: times(point.z, frequency),
        };
        total = plus(total, times(perlin_noise(n, scaled, None), amplitude));
        max_value = plus(max_value, amplitude);
        amplitude = times(amplitude, persistance);
        frequency = times(frequency, number::<T>(2));
        taken += 1;
    }
    over(total, max_value)
}


} // verus!
