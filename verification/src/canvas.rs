//! The image that a render fills, and its plain-text form.
use crate::color::Color;
use crate::numeric::exact;
use crate::numeric::Elementary;
use crate::scalar::lawful;
use crate::scalar::Scalar;
use vstd::prelude::*;

verus! {

/// The decimal digits of `k` as text, without leading zeros.
pub open spec fn digits(k: nat) -> Seq<u8>
    decreases k,
{
    if k < 10 {
        seq![(48 + k) as u8]
    } else {
        digits(k / 10).push((48 + k % 10) as u8)
    }
}

/// The line of one pixel: its three channel values, a blank between them,
/// and a line feed.
pub open spec fn pixel_line(channels: (usize, usize, usize)) -> Seq<u8> {
    digits(channels.0 as nat) + seq![32u8] + digits(channels.1 as nat) + seq![32u8] + digits(
        channels.2 as nat,
    ) + seq![10u8]
}

/// The three lines that open the image: the format `P3`, width and height,
/// and the largest channel value, 255.
pub open spec fn header(width: nat, height: nat) -> Seq<u8> {
    seq![80u8, 51u8, 10u8] + digits(width) + seq![32u8] + digits(height) + seq![
        10u8,
        50u8,
        53u8,
        53u8,
        10u8,
    ]
}

/// The lines of the first `upto` pixels of a row.
pub open spec fn row_text<T: Scalar, N: Elementary<T>>(n: &N, row: Seq<Color<T>>, upto: int) -> Seq<
    u8,
>
    decreases upto,
{
    if upto <= 0 {
        Seq::empty()
    } else {
        row_text(n, row, upto - 1) + pixel_line(row[upto - 1].spec_channels(n))
    }
}

/// The lines of the first `upto` rows, every pixel of a row from left to right.
pub open spec fn rows_text<T: Scalar, N: Elementary<T>>(
    n: &N,
    rows: Seq<Seq<Color<T>>>,
    upto: int,
) -> Seq<u8>
    decreases upto,
{
    if upto <= 0 {
        Seq::empty()
    } else {
        rows_text(n, rows, upto - 1) + row_text(n, rows[upto - 1], rows[upto - 1].len() as int)
    }
}

/// Appends the decimal digits of `k`.
fn push_number(out: &mut Vec<u8>, k: usize)
    ensures
        final(out)@ == old(out)@ + digits(k as nat),
    decreases k,
{
    if k < 10 {
        out.push(48u8 + (k as u8));
        assert(out@ =~= old(out)@ + digits(k as nat));
    } else {
        push_number(out, k / 10);
        let last: usize = k % 10;
        out.push(48u8 + (last as u8));
        assert(out@ =~= old(out)@ + digits(k as nat));
    }
}

/// A grid of colours, `width` across and `height` down.
#[derive(Debug, Clone)]
pub struct Canvas<T: Scalar> {
    width: usize,
    height: usize,
    pixels: Vec<Vec<Color<T>>>,
}

impl<T: Scalar> View for Canvas<T> {
    type V = Seq<Seq<Color<T>>>;

    /// The rows of the image from the top, each from left to right.
    closed spec fn view(&self) -> Seq<Seq<Color<T>>> {
        Seq::new(self.pixels@.len(), |y: int| self.pixels@[y]@)
    }
}

impl<T: Scalar> Canvas<T> {
    /// The number of pixels in a row.
    pub closed spec fn spec_width(&self) -> nat {
        self.width as nat
    }

    /// The number of rows.
    pub closed spec fn spec_height(&self) -> nat {
        self.height as nat
    }

    /// The image has `height` rows of `width` pixels each.
    pub open spec fn wf(&self) -> bool {
        &&& self@.len() == self.spec_height()
        &&& forall|y: int| 0 <= y < self@.len() ==> (#[trigger] self@[y]).len() == self.spec_width()
    }

    /// The pixel in column `x` of row `y`.
    pub open spec fn spec_pixel(&self, x: int, y: int) -> Color<T> {
        self@[y][x]
    }

    /// A canvas of the given size with every pixel black.
    pub fn new(width: usize, height: usize) -> (r: Self)
        requires
            lawful::<T>(),
        ensures
            r.wf(),
            r.spec_width() == width,
            r.spec_height() == height,
            forall|x: int, y: int|
                0 <= x < width && 0 <= y < height ==> r.spec_pixel(x, y) == Color::<T>::spec_black(),
    {
        let black = Color::black();
        let mut pixels: Vec<Vec<Color<T>>> = Vec::new();
        let mut y: usize = 0;
        while y < height
            invariant
                y <= height,
                pixels@.len() == y,
                forall|b: int| 0 <= b < y ==> (#[trigger] pixels@[b])@.len() == width,
                forall|a: int, b: int|
                    0 <= b < y && 0 <= a < width ==> (#[trigger] pixels@[b]@[a]) == black,
            decreases height - y,
        {
            let mut row: Vec<Color<T>> = Vec::new();
            let mut x: usize = 0;
            while x < width
                invariant
                    x <= width,
                    row@.len() == x,
                    forall|a: int| 0 <= a < x ==> #[trigger] row@[a] == black,
                decreases width - x,
            {
                row.push(black);
                x += 1;
            }
            pixels.push(row);
            y += 1;
        }
        Canvas { width, height, pixels }
    }

    pub fn width(&self) -> (r: usize)
        ensures
            r == self.spec_width(),
    {
        self.width
    }

    pub fn height(&self) -> (r: usize)
        ensures
            r == self.spec_height(),
    {
        self.height
    }

    /// Sets the pixel in column `x` of row `y`. The place must lie on the canvas.
    pub fn write_pixel(&mut self, x: usize, y: usize, color: Color<T>)
        requires
            old(self).wf(),
            x < old(self).spec_width(),
            y < old(self).spec_height(),
        ensures
            final(self).wf(),
            final(self).spec_width() == old(self).spec_width(),
            final(self).spec_height() == old(self).spec_height(),
            final(self)@ == old(self)@.update(y as int, old(self)@[y as int].update(x as int, color)),
    {
        let mut row: Vec<Color<T>> = Vec::new();
        let mut a: usize = 0;
        while a < self.width
            invariant
                self.wf(),
                *self == *old(self),
                x < self.width,
                y < self.height,
                a <= self.width,
                row@.len() == a,
                forall|i: int|
                    0 <= i < a ==> #[trigger] row@[i] == old(self)@[y as int].update(
                        x as int,
                        color,
                    )[i],
            decreases self.width - a,
        {
            if a == x {
                row.push(color);
            } else {
                assert(self@[y as int].len() == self.width);
                row.push(self.pixels[y][a]);
            }
            a += 1;
        }
        assert(row@ =~= old(self)@[y as int].update(x as int, color));
        self.pixels.set(y, row);
        assert(self@ =~~= old(self)@.update(y as int, old(self)@[y as int].update(x as int, color)));
    }

    /// The pixel in column `x` of row `y`, if the place lies on the canvas.
    pub fn pixel_at(&self, x: usize, y: usize) -> (r: Option<Color<T>>)
        requires
            self.wf(),
        ensures
            r == if x < self.spec_width() && y < self.spec_height() {
                Some(self.spec_pixel(x as int, y as int))
            } else {
                None
            },
    {
        if x < self.width && y < self.height {
            assert(self@[y as int].len() == self.width);
            Some(self.pixels[y][x])
        } else {
            None
        }
    }

    /// The image as plain text: the header, then one line for every pixel,
    /// row after row from the top and from left to right within a row.
    pub open spec fn spec_to_ppm<N: Elementary<T>>(&self, n: &N) -> Seq<u8> {
        header(self.spec_width(), self.spec_height()) + rows_text(n, self@, self@.len() as int)
    }

    /// Writes the image out as plain text in the `P3` format. Every
    /// channel is held to the unit range, scaled to 255 and rounded.
    pub fn to_ppm<N: Elementary<T>>(&self, n: &N) -> (out: Vec<u8>)
        requires
            lawful::<T>(),
            exact(n),
            self.wf(),
        ensures
            out@ == self.spec_to_ppm(n),
    {
        let mut out: Vec<u8> = Vec::new();
        out.push(80u8);
        out.push(51u8);
        out.push(10u8);
        push_number(&mut out, self.width);
        out.push(32u8);
        push_number(&mut out, self.height);
        out.push(10u8);
        out.push(50u8);
        out.push(53u8);
        out.push(53u8);
        out.push(10u8);
        assert(out@ =~= header(self.spec_width(), self.spec_height()));
        let mut y: usize = 0;
        while y < self.height
            invariant
                lawful::<T>(),
                exact(n),
                self.wf(),
                self.height == self.spec_height(),
                self.width == self.spec_width(),
                y <= self.height,
                out@ == header(self.spec_width(), self.spec_height()) + rows_text(
                    n,
                    self@,
                    y as int,
                ),
            decreases self.height - y,
        {
            let ghost before = out@;
            let mut x: usize = 0;
            while x < self.width
                invariant
                    lawful::<T>(),
                    exact(n),
                    self.wf(),
                    self.height == self.spec_height(),
                    self.width == self.spec_width(),
                    y < self.height,
                    x <= self.width,
                    out@ == before + row_text(n, self@[y as int], x as int),
                decreases self.width - x,
            {
                let channels = self.pixels[y][x].channels(n);
                let ghost so_far = out@;
                push_number(&mut out, channels.0);
                out.push(32u8);
                push_number(&mut out, channels.1);
                out.push(32u8);
                push_number(&mut out, channels.2);
                out.push(10u8);
                assert(out@ =~= so_far + pixel_line(channels));
                assert(out@ =~= before + row_text(n, self@[y as int], x + 1));
                x += 1;
            }
            assert(out@ =~= header(self.spec_width(), self.spec_height()) + rows_text(
                n,
                self@,
                y + 1,
            ));
            y += 1;
        }
        out
    }
}

} // verus!
