//! The eye of the scene: it turns pixels into rays and rays into an image.
use crate::canvas::Canvas;
use crate::matrix::grid_apply_point;
use crate::matrix::grid_inverse;
use crate::matrix::Matrix;
use crate::numeric::exact;
use crate::numeric::tan_of;
use crate::numeric::Elementary;
use crate::point::Point;
use crate::ray::Ray;
use crate::scalar::at_most;
use crate::scalar::lawful;
use crate::scalar::minus;
use crate::scalar::number;
use crate::scalar::ordered;
use crate::scalar::over;
use crate::scalar::plus;
use crate::scalar::ratio;
use crate::scalar::times;
use crate::scalar::Scalar;
use crate::transform::invertible;
use crate::transform::Transform;
use crate::world::World;
use core::ops::Sub;
use vstd::prelude::*;

verus! {

/// The largest width or height of an image: a count of pixels must convert
/// to the scalar without loss.
pub const MAX_SIZE: usize = 0x7fff_ffff;

/// The count `k` as a scalar.
pub open spec fn spec_count<T: Scalar>(k: usize) -> T {
    number::<T>(k as i32)
}

/// The count `k` as a scalar.
fn count<T: Scalar>(k: usize) -> (r: T)
    requires
        lawful::<T>(),
        k <= MAX_SIZE,
    ensures
        r == spec_count::<T>(k),
{
    number::<T>(k as i32)
}

/// Half the width and half the height of the canvas as it stands one unit
/// before the eye, and the size of a pixel on it.
pub open spec fn view_sizes<T: Scalar, N: Elementary<T>>(n: &N, hsize: usize, vsize: usize, fov: T) -> (
    T,
    T,
    T,
) {
    let half_view = tan_of(n, over(fov, number::<T>(2)));
    let aspect = over(spec_count::<T>(hsize), spec_count::<T>(vsize));
    let half_width = if at_most(number::<T>(1), aspect) {
        half_view
    } else {
        times(half_view, aspect)
    };
    let half_height = if at_most(number::<T>(1), aspect) {
        over(half_view, aspect)
    } else {
        half_view
    };
    (half_width, half_height, over(times(half_width, number::<T>(2)), spec_count::<T>(hsize)))
}

/// A camera that looks along the negative z axis of its own frame onto a
/// canvas one unit away.
#[derive(Debug, Clone)]
pub struct Camera<T: Scalar> {
    pub hsize: usize,
    pub vsize: usize,
    pub fov: T,
    pub transform: Transform<T>,
    pub pixel_size: T,
    pub half_width: T,
    pub half_height: T,
}

impl<T: Scalar> Camera<T> {
    /// The camera for an image of `hsize` by `vsize` pixels that takes in
    /// the angle `fov`, in radians, along the longer side. It stands at the
    /// origin of the world until it is given a transformation.
    pub fn new<N: Elementary<T>>(n: &N, hsize: usize, vsize: usize, fov: T) -> (r: Self)
        requires
            lawful::<T>(),
            exact(n),
            hsize <= MAX_SIZE,
            vsize <= MAX_SIZE,
        ensures
            r.hsize == hsize,
            r.vsize == vsize,
            r.fov == fov,
            r.transform.forward_grid() == Matrix::<T>::identity_grid(),
            r.transform.inverse_grid() == Matrix::<T>::identity_grid(),
            (r.half_width, r.half_height, r.pixel_size) == view_sizes(n, hsize, vsize, fov),
    {
        let half_view = n.tan(over(fov, number::<T>(2)));
        let aspect = over(count::<T>(hsize), count::<T>(vsize));
        let (half_width, half_height) = if at_most(number::<T>(1), aspect) {
            (half_view, over(half_view, aspect))
        } else {
            (times(half_view, aspect), half_view)
        };
        let pixel_size = over(times(half_width, number::<T>(2)), count::<T>(hsize));
        Camera {
            hsize,
            vsize,
            fov,
            transform: Transform::identity(),
            pixel_size,
            half_width,
            half_height,
        }
    }

    pub fn hsize(&self) -> (r: usize)
        ensures
            r == self.hsize,
    {
        self.hsize
    }

    pub fn vsize(&self) -> (r: usize)
        ensures
            r == self.vsize,
    {
        self.vsize
    }

    pub fn fov(&self) -> (r: T)
        ensures
            r == self.fov,
    {
        self.fov
    }

    pub fn pixel_size(&self) -> (r: T)
        ensures
            r == self.pixel_size,
    {
        self.pixel_size
    }

    /// The matrix that places the camera in the world.
    pub fn transform(&self) -> (r: &Matrix<T>)
        ensures
            r@ == self.transform.forward_grid(),
    {
        self.transform.forward()
    }

    /// Places the camera anew, the inverse along with the matrix.
    pub fn set_transform(&mut self, transform: Matrix<T>)
        requires
            lawful::<T>(),
            invertible(transform@),
        ensures
            final(self).transform.forward_grid() == transform@,
            final(self).transform.inverse_grid() == grid_inverse(transform@),
            final(self).hsize == old(self).hsize,
            final(self).vsize == old(self).vsize,
            final(self).fov == old(self).fov,
            final(self).pixel_size == old(self).pixel_size,
            final(self).half_width == old(self).half_width,
            final(self).half_height == old(self).half_height,
    {
        self.transform = Transform::from_option(Some(transform));
    }

    /// How far the middle of pixel `k` lies from the edge of the canvas.
    pub open spec fn spec_offset(&self, k: usize) -> T {
        times(plus(spec_count::<T>(k), ratio::<T>(1, 2)), self.pixel_size)
    }

    /// The ray from the eye through the middle of the pixel in column `x`
    /// of row `y`: the pixel's place on the canvas and the eye are both
    /// brought into the world, and the ray leaves the eye towards the pixel
    /// with a direction of length one.
    pub open spec fn spec_ray_for_pixel<N: Elementary<T>>(&self, n: &N, x: usize, y: usize) -> Ray<T> {
        let world_x = minus(self.half_width, self.spec_offset(x));
        let world_y = minus(self.half_height, self.spec_offset(y));
        let inverse = self.transform.inverse_grid();
        let pixel = grid_apply_point(
            inverse,
            Point { x: world_x, y: world_y, z: number::<T>(-1i32) },
        );
        let origin = grid_apply_point(inverse, Point::spec_zero());
        Ray { origin, direction: pixel.offset_from(origin).spec_norm(n) }
    }

    /// The ray that the eye sends through a pixel.
    pub fn ray_for_pixel<N: Elementary<T>>(&self, n: &N, x: usize, y: usize) -> (r: Ray<T>)
        requires
            lawful::<T>(),
            exact(n),
            x <= MAX_SIZE,
            y <= MAX_SIZE,
        ensures
            r == self.spec_ray_for_pixel(n, x, y),
    {
        let half = ratio::<T>(1, 2);
        let x_offset = times(plus(count::<T>(x), half), self.pixel_size);
        let y_offset = times(plus(count::<T>(y), half), self.pixel_size);
        let world_x = minus(self.half_width, x_offset);
        let world_y = minus(self.half_height, y_offset);
        let inverse = self.transform.inverse();
        let pixel = inverse.apply_point(Point::new(world_x, world_y, number::<T>(-1i32)));
        let origin = inverse.apply_point(Point::zero());
        let direction = pixel.sub(origin).norm(n);
        Ray::new(origin, direction)
    }

    /// Renders the scene: every pixel of the image takes the colour that
    /// its ray brings back from the world, with as many bounces as the
    /// world allows. Without a light no ray of the camera may hit a shape.
    pub fn render<N: Elementary<T>>(&self, n: &N, world: &World<T>) -> (image: Canvas<T>)
        requires
            lawful::<T>(),
            ordered::<T>(),
            exact(n),
            self.hsize <= MAX_SIZE,
            self.vsize <= MAX_SIZE,
            forall|x: usize, y: usize|
                x < self.hsize && y < self.vsize ==> world.spec_light() is Some || world.spec_hit(
                    n,
                    #[trigger] self.spec_ray_for_pixel(n, x, y),
                ) is None,
        ensures
            image.wf(),
            image.spec_width() == self.hsize,
            image.spec_height() == self.vsize,
            forall|x: int, y: int|
                0 <= x < self.hsize && 0 <= y < self.vsize ==> #[trigger] image.spec_pixel(x, y)
                    == world.spec_color_at(
                    n,
                    self.spec_ray_for_pixel(n, x as usize, y as usize),
                    world.spec_allowed_recursion(),
                ),
    {
        let mut image = Canvas::new(self.hsize, self.vsize);
        let mut y: usize = 0;
        while y < self.vsize
            invariant
                lawful::<T>(),
                ordered::<T>(),
                exact(n),
                self.hsize <= MAX_SIZE,
                self.vsize <= MAX_SIZE,
                forall|x: usize, y: usize|
                    x < self.hsize && y < self.vsize ==> world.spec_light() is Some || world.spec_hit(
                        n,
                        #[trigger] self.spec_ray_for_pixel(n, x, y),
                    ) is None,
                y <= self.vsize,
                image.wf(),
                image.spec_width() == self.hsize,
                image.spec_height() == self.vsize,
                forall|a: int, b: int|
                    0 <= a < self.hsize && 0 <= b < y ==> #[trigger] image.spec_pixel(a, b)
                        == world.spec_color_at(
                        n,
                        self.spec_ray_for_pixel(n, a as usize, b as usize),
                        world.spec_allowed_recursion(),
                    ),
            decreases self.vsize - y,
        {
            let mut x: usize = 0;
            while x < self.hsize
                invariant
                    lawful::<T>(),
                    ordered::<T>(),
                    exact(n),
                    self.hsize <= MAX_SIZE,
                    self.vsize <= MAX_SIZE,
                    forall|x: usize, y: usize|
                        x < self.hsize && y < self.vsize ==> world.spec_light() is Some || world.spec_hit(
                            n,
                            #[trigger] self.spec_ray_for_pixel(n, x, y),
                        ) is None,
                    y < self.vsize,
                    x <= self.hsize,
                    image.wf(),
                    image.spec_width() == self.hsize,
                    image.spec_height() == self.vsize,
                    forall|a: int, b: int|
                        0 <= a < self.hsize && 0 <= b < y ==> #[trigger] image.spec_pixel(a, b)
                            == world.spec_color_at(
                            n,
                            self.spec_ray_for_pixel(n, a as usize, b as usize),
                            world.spec_allowed_recursion(),
                        ),
                    forall|a: int|
                        0 <= a < x ==> #[trigger] image.spec_pixel(a, y as int) == world.spec_color_at(
                            n,
                            self.spec_ray_for_pixel(n, a as usize, y),
                            world.spec_allowed_recursion(),
                        ),
                decreases self.hsize - x,
            {
                let ray = self.ray_for_pixel(n, x, y);
                let color = world.color_at(n, ray, world.allowed_recursion());
                let ghost earlier = image;
                let ghost before = image@;
                image.write_pixel(x, y, color);
                proof {
                    assert(before[y as int].len() == self.hsize);
                    assert forall|a: int, b: int| 0 <= a < self.hsize && 0 <= b < y implies #[trigger] image.spec_pixel(
                        a,
                        b,
                    ) == world.spec_color_at(
                        n,
                        self.spec_ray_for_pixel(n, a as usize, b as usize),
                        world.spec_allowed_recursion(),
                    ) by {
                        assert(image.spec_pixel(a, b) == earlier.spec_pixel(a, b));
                    }
                    assert forall|a: int| 0 <= a < x + 1 implies #[trigger] image.spec_pixel(
                        a,
                        y as int,
                    ) == world.spec_color_at(
                        n,
                        self.spec_ray_for_pixel(n, a as usize, y),
                        world.spec_allowed_recursion(),
                    ) by {
                        if a < x {
                            assert(image.spec_pixel(a, y as int) == earlier.spec_pixel(a, y as int));
                        }
                    }
                }
                x += 1;
            }
            y += 1;
        }
        image
    }
}

} // verus!
