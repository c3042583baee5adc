//! Matrices of scalars and their algebra: products, transposition, minors,
//! cofactors, determinants by cofactor expansion, and inversion.
use crate::point::Point;
use crate::scalar::approx_eq;
use crate::scalar::lawful;
use crate::scalar::minus;
use crate::scalar::negate;
use crate::scalar::number;
use crate::scalar::over;
use crate::scalar::plus;
use crate::scalar::same;
use crate::scalar::times;
use crate::scalar::Scalar;
use crate::vector::Vector;
use vstd::prelude::*;

verus! {

/// The matrix has a zero determinant, so it has no inverse.
#[derive(Debug, Clone)]
pub struct InversionError;

impl InversionError {
    /// The message that goes with the failure.
    pub fn message(&self) -> (r: &'static str)
        ensures
            r@ == "cannot invert this matrix"@,
    {
        "cannot invert this matrix"
    }
}

/// Every row of the grid has `cols` cells.
pub open spec fn rectangular<T>(grid: Seq<Seq<T>>, cols: int) -> bool {
    forall|i: int| 0 <= i < grid.len() ==> (#[trigger] grid[i]).len() == cols
}

/// The grid has as many columns as rows.
pub open spec fn square<T>(grid: Seq<Seq<T>>) -> bool {
    rectangular(grid, grid.len() as int)
}

/// The grid without one row and one column.
pub open spec fn grid_without<T>(grid: Seq<Seq<T>>, row: int, column: int) -> Seq<Seq<T>> {
    Seq::new(
        (grid.len() - 1) as nat,
        |i: int|
            {
                let source = if i < row {
                    grid[i]
                } else {
                    grid[i + 1]
                };
                Seq::new(
                    (source.len() - 1) as nat,
                    |j: int|
                        if j < column {
                            source[j]
                        } else {
                            source[j + 1]
                        },
                )
            },
    )
}

/// The grid mirrored along its diagonal.
pub open spec fn grid_transposed<T>(grid: Seq<Seq<T>>, cols: int) -> Seq<Seq<T>> {
    Seq::new(cols as nat, |j: int| Seq::new(grid.len(), |i: int| grid[i][j]))
}

/// Mirroring a grid twice gives the grid back.
pub proof fn lemma_transposed_twice<T>(grid: Seq<Seq<T>>, cols: int)
    requires
        grid.len() > 0,
        rectangular(grid, cols),
    ensures
        grid_transposed(grid_transposed(grid, cols), grid.len() as int) == grid,
{
    assert(grid[0].len() == cols);
    let once = grid_transposed(grid, cols);
    let twice = grid_transposed(once, grid.len() as int);
    assert(twice.len() == grid.len());
    assert forall|i: int| 0 <= i < grid.len() implies #[trigger] twice[i] == grid[i] by {
        assert(grid[i].len() == cols);
        assert(twice[i] =~= grid[i]);
    }
    assert(twice =~= grid);
}

/// The determinant: `ad - bc` for two rows, else the cofactor expansion
/// along the first row.
pub open spec fn grid_determinant<T: Scalar>(grid: Seq<Seq<T>>) -> T
    decreases grid.len(), 3int, 0int,
{
    if grid.len() == 2 {
        minus(times(grid[0][0], grid[1][1]), times(grid[0][1], grid[1][0]))
    } else {
        grid_expansion(grid, grid.len() as int)
    }
}

/// The first `k` terms of the cofactor expansion along the first row, summed
/// from the left starting at zero.
pub open spec fn grid_expansion<T: Scalar>(grid: Seq<Seq<T>>, k: int) -> T
    decreases grid.len(), 2int, k,
{
    if k <= 0 || grid.len() == 0 {
        number::<T>(0)
    } else {
        plus(
            grid_expansion(grid, k - 1),
            times(grid[0][k - 1], grid_cofactor(grid, 0, k - 1)),
        )
    }
}

/// The determinant of the grid without the given row and column.
pub open spec fn grid_minor<T: Scalar>(grid: Seq<Seq<T>>, row: int, column: int) -> T
    decreases grid.len(), 0int, 0int,
{
    if grid.len() == 0 {
        number::<T>(0)
    } else {
        grid_determinant(grid_without(grid, row, column))
    }
}

/// The minor, negated where `row + column` is odd.
pub open spec fn grid_cofactor<T: Scalar>(grid: Seq<Seq<T>>, row: int, column: int) -> T
    decreases grid.len(), 1int, 0int,
{
    if grid.len() == 0 {
        number::<T>(0)
    } else if (row + column) % 2 == 0 {
        grid_minor(grid, row, column)
    } else {
        negate(grid_minor(grid, row, column))
    }
}

/// The inverse by cofactors: the cell in row `c` and column `r` holds the
/// cofactor at row `r` and column `c`, divided by the determinant.
pub open spec fn grid_inverse<T: Scalar>(grid: Seq<Seq<T>>) -> Seq<Seq<T>> {
    Seq::new(
        grid.len(),
        |c: int|
            Seq::new(
                grid.len(),
                |r: int| over(grid_cofactor(grid, r, c), grid_determinant(grid)),
            ),
    )
}

/// The first `k` products of row `i` of `a` with column `j` of `b`, summed
/// from the left starting at zero.
pub open spec fn grid_cell_product<T: Scalar>(
    a: Seq<Seq<T>>,
    b: Seq<Seq<T>>,
    i: int,
    j: int,
    k: int,
) -> T
    decreases k,
{
    if k <= 0 {
        number::<T>(0)
    } else {
        plus(grid_cell_product(a, b, i, j, k - 1), times(a[i][k - 1], b[k - 1][j]))
    }
}

/// The matrix product of `a` and `b`, where `b` has `cols` columns.
pub open spec fn grid_product<T: Scalar>(a: Seq<Seq<T>>, b: Seq<Seq<T>>, cols: int) -> Seq<
    Seq<T>,
> {
    Seq::new(
        a.len(),
        |i: int| Seq::new(cols as nat, |j: int| grid_cell_product(a, b, i, j, b.len() as int)),
    )
}

/// The first `k` products of row `i` of the grid with the homogeneous
/// coordinates `(x, y, z, w)`, summed from the left starting at zero.
pub open spec fn grid_row_applied<T: Scalar>(grid: Seq<Seq<T>>, i: int, x: T, y: T, z: T, w: T) -> T {
    plus(
        plus(
            plus(plus(number::<T>(0), times(grid[i][0], x)), times(grid[i][1], y)),
            times(grid[i][2], z),
        ),
        times(grid[i][3], w),
    )
}

/// The place `p` under the grid, its fourth coordinate taken as one.
pub open spec fn grid_apply_point<T: Scalar>(grid: Seq<Seq<T>>, p: Point<T>) -> Point<T> {
    Point {
        x: grid_row_applied(grid, 0, p.x, p.y, p.z, number::<T>(1)),
        y: grid_row_applied(grid, 1, p.x, p.y, p.z, number::<T>(1)),
        z: grid_row_applied(grid, 2, p.x, p.y, p.z, number::<T>(1)),
    }
}

/// The direction `v` under the grid, its fourth coordinate taken as zero.
pub open spec fn grid_apply_vector<T: Scalar>(grid: Seq<Seq<T>>, v: Vector<T>) -> Vector<T> {
    Vector {
        x: grid_row_applied(grid, 0, v.x, v.y, v.z, number::<T>(0)),
        y: grid_row_applied(grid, 1, v.x, v.y, v.z, number::<T>(0)),
        z: grid_row_applied(grid, 2, v.x, v.y, v.z, number::<T>(0)),
    }
}

/// Both grids have the same shape and agree cell by cell within the tolerance.
pub open spec fn grid_equals<T: Scalar>(a: Seq<Seq<T>>, b: Seq<Seq<T>>) -> bool {
    &&& a.len() == b.len()
    &&& forall|i: int| 0 <= i < a.len() ==> (#[trigger] a[i]).len() == b[i].len()
    &&& forall|i: int, j: int|
        0 <= i < a.len() && 0 <= j < a[i].len() ==> approx_eq(#[trigger] a[i][j], b[i][j])
}

/// A grid of scalars, every row of the same length.
#[derive(Debug)]
pub struct Matrix<T> {
    elements: Vec<Vec<T>>,
}

impl<T: Scalar> View for Matrix<T> {
    type V = Seq<Seq<T>>;

    closed spec fn view(&self) -> Seq<Seq<T>> {
        Seq::new(self.elements@.len(), |i: int| self.elements@[i]@)
    }
}

impl<T: Scalar> Matrix<T> {
    /// The number of rows.
    pub open spec fn spec_rows(&self) -> int {
        self@.len() as int
    }

    /// The number of columns: the length of the first row, zero where there is none.
    pub open spec fn spec_cols(&self) -> int {
        if self@.len() == 0 {
            0
        } else {
            self@[0].len() as int
        }
    }

    /// Every row has the same length.
    pub open spec fn wf(&self) -> bool {
        rectangular(self@, self.spec_cols())
    }

    /// A square matrix with at least two rows.
    pub open spec fn is_square(&self) -> bool {
        square(self@) && self@.len() >= 2
    }

    /// The matrix with the given rows.
    pub fn new(elements: Vec<Vec<T>>) -> (r: Self)
        ensures
            r@.len() == elements@.len(),
            forall|i: int| 0 <= i < elements@.len() ==> #[trigger] r@[i] == elements@[i]@,
    {
        Matrix { elements }
    }

    /// The number of rows.
    pub fn rows(&self) -> (r: usize)
        ensures
            r == self.spec_rows(),
    {
        self.elements.len()
    }

    /// The number of columns.
    pub fn cols(&self) -> (r: usize)
        ensures
            r == self.spec_cols(),
    {
        if self.elements.len() == 0 {
            0
        } else {
            self.elements[0].len()
        }
    }

    /// The cell in row `x` and column `y`, if there is one.
    pub fn get(&self, x: usize, y: usize) -> (r: Option<&T>)
        ensures
            r == if x < self@.len() && y < self@[x as int].len() {
                Some(&self@[x as int][y as int])
            } else {
                None
            },
    {
        if x < self.elements.len() {
            if y < self.elements[x].len() {
                Some(&self.elements[x][y])
            } else {
                None
            }
        } else {
            None
        }
    }

    /// The four-by-four identity grid.
    pub open spec fn identity_grid() -> Seq<Seq<T>> {
        Seq::new(
            4,
            |i: int|
                Seq::new(
                    4,
                    |j: int|
                        if i == j {
                            number::<T>(1)
                        } else {
                            number::<T>(0)
                        },
                ),
        )
    }

    /// The four-by-four matrix with ones on the diagonal and zeros elsewhere.
    pub fn identity_matrix() -> (r: Self)
        requires
            lawful::<T>(),
        ensures
            r@ == Self::identity_grid(),
            r.wf(),
            r.is_square(),
    {
        let o = number::<T>(0);
        let i = number::<T>(1);
        let r = Matrix {
            elements: vec![vec![i, o, o, o], vec![o, i, o, o], vec![o, o, i, o], vec![o, o, o, i]],
        };
        assert(r@ =~~= Self::identity_grid());
        r
    }

    /// An alias of `identity_matrix`.
    pub fn indentity_matrix() -> (r: Self)
        requires
            lawful::<T>(),
        ensures
            r@ == Self::identity_grid(),
            r.wf(),
            r.is_square(),
    {
        Self::identity_matrix()
    }

    /// A copy of the matrix.
    pub fn copy(&self) -> (r: Self)
        ensures
            r@ == self@,
    {
        let mut out: Vec<Vec<T>> = Vec::new();
        let mut i: usize = 0;
        while i < self.elements.len()
            invariant
                i <= self.elements@.len(),
                out@.len() == i,
                forall|a: int| 0 <= a < i ==> (#[trigger] out@[a])@ == self.elements@[a]@,
            decreases self.elements@.len() - i,
        {
            let source = &self.elements[i];
            let mut row: Vec<T> = Vec::new();
            let mut j: usize = 0;
            while j < source.len()
                invariant
                    j <= source@.len(),
                    row@.len() == j,
                    forall|b: int| 0 <= b < j ==> #[trigger] row@[b] == source@[b],
                decreases source@.len() - j,
            {
                row.push(source[j]);
                j += 1;
            }
            assert(row@ =~= source@);
            out.push(row);
            i += 1;
        }
        let r = Matrix { elements: out };
        assert(r@ =~~= self@);
        r
    }

    /// The matrix mirrored along its diagonal: rows become columns.
    pub fn transpose(&self) -> (r: Self)
        requires
            self.wf(),
        ensures
            r@ == grid_transposed(self@, self.spec_cols()),
    {
        let n_rows = self.rows();
        let n_cols = self.cols();
        let mut out: Vec<Vec<T>> = Vec::new();
        let mut j: usize = 0;
        while j < n_cols
            invariant
                self.wf(),
                n_rows == self@.len(),
                n_cols == self.spec_cols(),
                j <= n_cols,
                out@.len() == j,
                forall|b: int|
                    0 <= b < j ==> (#[trigger] out@[b])@ == Seq::new(
                        self@.len(),
                        |i: int| self@[i][b],
                    ),
            decreases n_cols - j,
        {
            let mut row: Vec<T> = Vec::new();
            let mut i: usize = 0;
            while i < n_rows
                invariant
                    self.wf(),
                    n_rows == self@.len(),
                    n_cols == self.spec_cols(),
                    j < n_cols,
                    i <= n_rows,
                    row@.len() == i,
                    forall|a: int| 0 <= a < i ==> #[trigger] row@[a] == self@[a][j as int],
                decreases n_rows - i,
            {
                assert(self@[i as int].len() == n_cols);
                row.push(self.elements[i][j]);
                i += 1;
            }
            assert(row@ =~= Seq::new(self@.len(), |a: int| self@[a][j as int]));
            out.push(row);
            j += 1;
        }
        let r = Matrix { elements: out };
        assert(r@ =~~= grid_transposed(self@, self.spec_cols()));
        r
    }

    /// The matrix without the given row and column.
    pub fn sub_matrix(&self, row: usize, column: usize) -> (r: Self)
        requires
            self.wf(),
            row < self.spec_rows(),
            column < self.spec_cols(),
        ensures
            r@ == grid_without(self@, row as int, column as int),
    {
        let n_rows = self.rows();
        let n_cols = self.cols();
        let mut out: Vec<Vec<T>> = Vec::new();
        let mut i: usize = 0;
        while i < n_rows - 1
            invariant
                self.wf(),
                n_rows == self@.len(),
                n_cols == self.spec_cols(),
                row < n_rows,
                column < n_cols,
                i <= n_rows - 1,
                out@.len() == i,
                forall|a: int|
                    0 <= a < i ==> (#[trigger] out@[a])@ == grid_without(
                        self@,
                        row as int,
                        column as int,
                    )[a],
            decreases n_rows - 1 - i,
        {
            let from: usize = if i < row {
                i
            } else {
                i + 1
            };
            assert(self@[from as int].len() == n_cols);
            let source = &self.elements[from];
            let mut line: Vec<T> = Vec::new();
            let mut j: usize = 0;
            while j < n_cols - 1
                invariant
                    source@.len() == n_cols,
                    column < n_cols,
                    j <= n_cols - 1,
                    line@.len() == j,
                    forall|b: int|
                        0 <= b < j ==> #[trigger] line@[b] == (if b < column {
                            source@[b]
                        } else {
                            source@[b + 1]
                        }),
                decreases n_cols - 1 - j,
            {
                let at: usize = if j < column {
                    j
                } else {
                    j + 1
                };
                line.push(source[at]);
                j += 1;
            }
            assert(line@ =~= grid_without(self@, row as int, column as int)[i as int]);
            out.push(line);
            i += 1;
        }
        let r = Matrix { elements: out };
        assert(r@ =~~= grid_without(self@, row as int, column as int));
        r
    }

    /// The determinant: `ad - bc` for a two-by-two matrix, else the cofactor
    /// expansion along the first row.
    pub fn determinant(&self) -> (r: T)
        requires
            lawful::<T>(),
            self.is_square(),
        ensures
            r == grid_determinant(self@),
        decreases self@.len(), 2int,
    {
        let n = self.rows();
        assert(self@[0].len() == n && self@[1].len() == n);
        if n == 2 {
            let a = self.elements[0][0];
            let b = self.elements[0][1];
            let c = self.elements[1][0];
            let d = self.elements[1][1];
            minus(times(a, d), times(b, c))
        } else {
            let mut total = number::<T>(0);
            let mut j: usize = 0;
            while j < n
                invariant
                    lawful::<T>(),
                    self.is_square(),
                    n == self@.len(),
                    n > 2,
                    j <= n,
                    total == grid_expansion(self@, j as int),
                decreases n - j,
            {
                let term = times(self.elements[0][j], self.cofactor(0, j));
                total = plus(total, term);
                j += 1;
            }
            total
        }
    }

    /// Whether the determinant differs from zero.
    pub fn is_invertible(&self) -> (r: bool)
        requires
            lawful::<T>(),
            self.is_square(),
        ensures
            r == !same(grid_determinant(self@), number::<T>(0)),
    {
        !same(self.determinant(), number::<T>(0))
    }

    /// The determinant of the matrix without the given row and column.
    pub fn minor(&self, row: usize, column: usize) -> (r: T)
        requires
            lawful::<T>(),
            self.is_square(),
            self@.len() >= 3,
            row < self@.len(),
            column < self@.len(),
        ensures
            r == grid_minor(self@, row as int, column as int),
        decreases self@.len(), 0int,
    {
        let rest = self.sub_matrix(row, column);
        rest.determinant()
    }

    /// The minor at the given place, negated where `row + column` is odd.
    pub fn cofactor(&self, row: usize, column: usize) -> (r: T)
        requires
            lawful::<T>(),
            self.is_square(),
            self@.len() >= 3,
            row < self@.len(),
            column < self@.len(),
        ensures
            r == grid_cofactor(self@, row as int, column as int),
        decreases self@.len(), 1int,
    {
        let minor = self.minor(row, column);
        let even = if row % 2 == 0 {
            column % 2 == 0
        } else {
            column % 2 == 1
        };
        if even {
            minor
        } else {
            negate(minor)
        }
    }

    /// The inverse, or the failure where the determinant is zero.
    pub fn inverse(&self) -> (r: Result<Self, InversionError>)
        requires
            lawful::<T>(),
            self.is_square(),
            self@.len() >= 3,
        ensures
            r is Err <==> same(grid_determinant(self@), number::<T>(0)),
            r is Ok ==> r->Ok_0@ == grid_inverse(self@),
    {
        if !self.is_invertible() {
            return Err(InversionError);
        }
        let determinant = self.determinant();
        let n = self.rows();
        let mut out: Vec<Vec<T>> = Vec::new();
        let mut c: usize = 0;
        while c < n
            invariant
                lawful::<T>(),
                self.is_square(),
                n == self@.len(),
                n >= 3,
                determinant == grid_determinant(self@),
                c <= n,
                out@.len() == c,
                forall|a: int| 0 <= a < c ==> (#[trigger] out@[a])@ == grid_inverse(self@)[a],
            decreases n - c,
        {
            let mut line: Vec<T> = Vec::new();
            let mut r: usize = 0;
            while r < n
                invariant
                    lawful::<T>(),
                    self.is_square(),
                    n == self@.len(),
                    n >= 3,
                    determinant == grid_determinant(self@),
                    c < n,
                    r <= n,
                    line@.len() == r,
                    forall|b: int|
                        0 <= b < r ==> #[trigger] line@[b] == over(
                            grid_cofactor(self@, b, c as int),
                            grid_determinant(self@),
                        ),
                decreases n - r,
            {
                line.push(over(self.cofactor(r, c), determinant));
                r += 1;
            }
            assert(line@ =~= grid_inverse(self@)[c as int]);
            out.push(line);
            c += 1;
        }
        let inverted = Matrix { elements: out };
        assert(inverted@ =~~= grid_inverse(self@));
        Ok(inverted)
    }

    /// The matrix product `self * rhs`.
    pub fn product(&self, rhs: &Self) -> (r: Self)
        requires
            lawful::<T>(),
            self.wf(),
            rhs.wf(),
            self.spec_cols() == rhs.spec_rows(),
        ensures
            r@ == grid_product(self@, rhs@, rhs.spec_cols()),
    {
        let n_rows = self.rows();
        let inner = rhs.rows();
        let n_cols = rhs.cols();
        let mut out: Vec<Vec<T>> = Vec::new();
        let mut i: usize = 0;
        while i < n_rows
            invariant
                lawful::<T>(),
                self.wf(),
                rhs.wf(),
                self.spec_cols() == rhs.spec_rows(),
                n_rows == self@.len(),
                inner == rhs@.len(),
                n_cols == rhs.spec_cols(),
                i <= n_rows,
                out@.len() == i,
                forall|a: int|
                    0 <= a < i ==> (#[trigger] out@[a])@ == grid_product(
                        self@,
                        rhs@,
                        rhs.spec_cols(),
                    )[a],
            decreases n_rows - i,
        {
            let mut line: Vec<T> = Vec::new();
            let mut j: usize = 0;
            while j < n_cols
                invariant
                    lawful::<T>(),
                    self.wf(),
                    rhs.wf(),
                    self.spec_cols() == rhs.spec_rows(),
                    n_rows == self@.len(),
                    inner == rhs@.len(),
                    n_cols == rhs.spec_cols(),
                    i < n_rows,
                    j <= n_cols,
                    line@.len() == j,
                    forall|b: int|
                        0 <= b < j ==> #[trigger] line@[b] == grid_cell_product(
                            self@,
                            rhs@,
                            i as int,
                            b,
                            inner as int,
                        ),
                decreases n_cols - j,
            {
                let mut total = number::<T>(0);
                let mut k: usize = 0;
                while k < inner
                    invariant
                        lawful::<T>(),
                        self.wf(),
                        rhs.wf(),
                        self.spec_cols() == rhs.spec_rows(),
                        n_rows == self@.len(),
                        inner == rhs@.len(),
                        n_cols == rhs.spec_cols(),
                        i < n_rows,
                        j < n_cols,
                        k <= inner,
                        total == grid_cell_product(self@, rhs@, i as int, j as int, k as int),
                    decreases inner - k,
                {
                    assert(self@[i as int].len() == inner);
                    assert(rhs@[k as int].len() == n_cols);
                    total = plus(total, times(self.elements[i][k], rhs.elements[k][j]));
                    k += 1;
                }
                line.push(total);
                j += 1;
            }
            assert(line@ =~= grid_product(self@, rhs@, rhs.spec_cols())[i as int]);
            out.push(line);
            i += 1;
        }
        let r = Matrix { elements: out };
        assert(r@ =~~= grid_product(self@, rhs@, rhs.spec_cols()));
        r
    }

    /// A matrix that can act on places and directions: four columns and at
    /// least three rows.
    pub open spec fn acts_on_space(&self) -> bool {
        self.wf() && self.spec_cols() == 4 && self.spec_rows() >= 3
    }

    /// Row `i` of the matrix applied to the homogeneous coordinates `(x, y, z, w)`.
    fn row_applied(&self, i: usize, x: T, y: T, z: T, w: T) -> (r: T)
        requires
            lawful::<T>(),
            self.acts_on_space(),
            i < 3,
        ensures
            r == grid_row_applied(self@, i as int, x, y, z, w),
    {
        assert(self@[i as int].len() == 4);
        let row = &self.elements[i];
        plus(
            plus(plus(plus(number::<T>(0), times(row[0], x)), times(row[1], y)), times(row[2], z)),
            times(row[3], w),
        )
    }

    /// The place `p` under the transformation, its fourth coordinate taken as one.
    pub open spec fn spec_apply_point(&self, p: Point<T>) -> Point<T> {
        grid_apply_point(self@, p)
    }

    /// The place `p` under the transformation.
    pub fn apply_point(&self, p: Point<T>) -> (r: Point<T>)
        requires
            lawful::<T>(),
            self.acts_on_space(),
        ensures
            r == self.spec_apply_point(p),
    {
        let w = number::<T>(1);
        Point {
            x: self.row_applied(0, p.x, p.y, p.z, w),
            y: self.row_applied(1, p.x, p.y, p.z, w),
            z: self.row_applied(2, p.x, p.y, p.z, w),
        }
    }

    /// The direction `v` under the transformation, its fourth coordinate taken as zero.
    pub open spec fn spec_apply_vector(&self, v: Vector<T>) -> Vector<T> {
        grid_apply_vector(self@, v)
    }

    /// The direction `v` under the transformation.
    pub fn apply_vector(&self, v: Vector<T>) -> (r: Vector<T>)
        requires
            lawful::<T>(),
            self.acts_on_space(),
        ensures
            r == self.spec_apply_vector(v),
    {
        let w = number::<T>(0);
        Vector {
            x: self.row_applied(0, v.x, v.y, v.z, w),
            y: self.row_applied(1, v.x, v.y, v.z, w),
            z: self.row_applied(2, v.x, v.y, v.z, w),
        }
    }

    /// Whether both matrices have the same shape and agree cell by cell
    /// within the tolerance.
    pub fn equals(&self, other: &Self) -> (r: bool)
        requires
            lawful::<T>(),
        ensures
            r == grid_equals(self@, other@),
    {
        if self.elements.len() != other.elements.len() {
            return false;
        }
        let mut i: usize = 0;
        while i < self.elements.len()
            invariant
                lawful::<T>(),
                self@.len() == other@.len(),
                i <= self@.len(),
                forall|a: int| 0 <= a < i ==> (#[trigger] self@[a]).len() == other@[a].len(),
                forall|a: int, b: int|
                    0 <= a < i && 0 <= b < self@[a].len() ==> approx_eq(
                        #[trigger] self@[a][b],
                        other@[a][b],
                    ),
            decreases self@.len() - i,
        {
            let left = &self.elements[i];
            let right = &other.elements[i];
            if left.len() != right.len() {
                assert(self@[i as int].len() != other@[i as int].len());
                return false;
            }
            let mut j: usize = 0;
            while j < left.len()
                invariant
                    lawful::<T>(),
                    i < self@.len(),
                    self@.len() == other@.len(),
                    left@ == self@[i as int],
                    right@ == other@[i as int],
                    left@.len() == right@.len(),
                    j <= left@.len(),
                    forall|b: int| 0 <= b < j ==> approx_eq(#[trigger] left@[b], right@[b]),
                decreases left@.len() - j,
            {
                if !approx_eq(left[j], right[j]) {
                    assert(!approx_eq(self@[i as int][j as int], other@[i as int][j as int]));
                    return false;
                }
                j += 1;
            }
            i += 1;
        }
        true
    }
}

impl<T: Scalar> Clone for Matrix<T> {
    fn clone(&self) -> (r: Self)
        ensures
            r@ == self@,
    {
        self.copy()
    }
}

} // verus!
