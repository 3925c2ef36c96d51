//! What the tensor operations mean in exact arithmetic: matrices over the
//! integers, and the expression by which a tensor was asked of the device.

use crate::shape::Shape;
use vstd::prelude::*;

verus! {

/// A matrix of integers. Cells outside its extent are zero.
#[verifier::ext_equal]
pub ghost struct Matrix {
    pub rows: nat,
    pub cols: nat,
    pub cells: spec_fn(int, int) -> int,
}

impl Matrix {
    /// The matrix of the given extent whose cell `(i, j)` is `f(i, j)`.
    pub open spec fn new(rows: nat, cols: nat, f: spec_fn(int, int) -> int) -> Matrix {
        Matrix {
            rows,
            cols,
            cells: |i: int, j: int|
                if 0 <= i < rows && 0 <= j < cols {
                    f(i, j)
                } else {
                    0
                },
        }
    }

    /// The cell in row `i` and column `j`.
    pub open spec fn at(self, i: int, j: int) -> int {
        (self.cells)(i, j)
    }

    /// Whether the matrix has `rows` rows and `cols` columns.
    pub open spec fn has_extent(self, rows: nat, cols: nat) -> bool {
        self.rows == rows && self.cols == cols
    }
}

/// The sum of two matrices of one extent, cell by cell.
pub open spec fn mat_add(a: Matrix, b: Matrix) -> Matrix {
    Matrix::new(a.rows, a.cols, |i: int, j: int| a.at(i, j) + b.at(i, j))
}

/// The difference of two matrices of one extent, cell by cell.
pub open spec fn mat_sub(a: Matrix, b: Matrix) -> Matrix {
    Matrix::new(a.rows, a.cols, |i: int, j: int| a.at(i, j) - b.at(i, j))
}

/// The sum of `a[i][t] * b[t][j]` over `t` below `k`.
pub open spec fn dot(a: Matrix, b: Matrix, i: int, j: int, k: nat) -> int
    decreases k,
{
    if k == 0 {
        0
    } else {
        dot(a, b, i, j, (k - 1) as nat) + a.at(i, k - 1) * b.at(k - 1, j)
    }
}

/// The product of an `r` by `k` and a `k` by `c` matrix: cell `(i, j)` is the
/// sum over `t` of `a[i][t] * b[t][j]`.
pub open spec fn mat_mul(a: Matrix, b: Matrix) -> Matrix {
    Matrix::new(a.rows, b.cols, |i: int, j: int| dot(a, b, i, j, a.cols))
}

/// The matrix made of four quadrants: `m11` upper left, `m12` upper right,
/// `m21` lower left, `m22` lower right.
pub open spec fn assemble(m11: Matrix, m12: Matrix, m21: Matrix, m22: Matrix) -> Matrix {
    Matrix::new(
        m11.rows + m21.rows,
        m11.cols + m12.cols,
        |i: int, j: int|
            if i < m11.rows {
                if j < m11.cols {
                    m11.at(i, j)
                } else {
                    m12.at(i, j - m11.cols)
                }
            } else {
                if j < m11.cols {
                    m21.at(i - m11.rows, j)
                } else {
                    m22.at(i - m11.rows, j - m11.cols)
                }
            },
    )
}

/// How a tensor came to be: uploaded from the host, or asked of the device as
/// the output of one kernel over two earlier tensors.
pub ghost enum Recipe {
    /// Device memory of the given shape that no kernel has written.
    Blank(Shape),
    /// The given words, row by row, under the given shape.
    Upload(Shape, Seq<u32>),
    /// The output of the sum kernel.
    Add(Box<Recipe>, Box<Recipe>),
    /// The output of the difference kernel.
    Sub(Box<Recipe>, Box<Recipe>),
    /// The output of the product kernel.
    Matmul(Box<Recipe>, Box<Recipe>),
}

impl Recipe {
    /// The shape of the tensor that the recipe describes.
    pub open spec fn shape(self) -> Shape
        decreases self,
    {
        match self {
            Recipe::Blank(shape) => shape,
            Recipe::Upload(shape, _) => shape,
            Recipe::Add(a, _) => a.shape(),
            Recipe::Sub(a, _) => a.shape(),
            Recipe::Matmul(a, b) => Shape::D2(
                a.shape().spec_rows() as usize,
                b.shape().spec_cols() as usize,
            ),
        }
    }

    /// Whether every step of the recipe had operands of fitting shapes: as
    /// many uploaded words as the shape has elements, equal shapes under a sum
    /// or difference, agreeing inner dimensions under a product.
    pub open spec fn well_shaped(self) -> bool
        decreases self,
    {
        match self {
            Recipe::Blank(_) => true,
            Recipe::Upload(shape, words) => words.len() == shape.spec_size(),
            Recipe::Add(a, b) => a.well_shaped() && b.well_shaped() && a.shape() == b.shape(),
            Recipe::Sub(a, b) => a.well_shaped() && b.well_shaped() && a.shape() == b.shape(),
            Recipe::Matmul(a, b) => a.well_shaped() && b.well_shaped() && a.shape().spec_cols()
                == b.shape().spec_rows(),
        }
    }

    /// The matrix that the recipe yields in exact arithmetic, where the
    /// uploaded word `w` stands for the number `reading(w)`. Memory that no
    /// kernel has written counts as zero.
    pub open spec fn eval(self, reading: spec_fn(u32) -> int) -> Matrix
        decreases self,
    {
        match self {
            Recipe::Blank(shape) => Matrix::new(
                shape.spec_rows(),
                shape.spec_cols(),
                |i: int, j: int| 0,
            ),
            Recipe::Upload(shape, words) => Matrix::new(
                shape.spec_rows(),
                shape.spec_cols(),
                |i: int, j: int| reading(words[i * shape.spec_cols() + j]),
            ),
            Recipe::Add(a, b) => mat_add(a.eval(reading), b.eval(reading)),
            Recipe::Sub(a, b) => mat_sub(a.eval(reading), b.eval(reading)),
            Recipe::Matmul(a, b) => mat_mul(a.eval(reading), b.eval(reading)),
        }
    }

    /// The matrix of a recipe has the extent of the recipe's shape.
    pub proof fn lemma_eval_extent(self, reading: spec_fn(u32) -> int)
        ensures
            self.eval(reading).has_extent(self.shape().spec_rows(), self.shape().spec_cols()),
        decreases self,
    {
        match self {
            Recipe::Blank(_) => {},
            Recipe::Upload(_, _) => {},
            Recipe::Add(a, _) => {
                a.lemma_eval_extent(reading);
            },
            Recipe::Sub(a, _) => {
                a.lemma_eval_extent(reading);
            },
            Recipe::Matmul(a, b) => {
                a.lemma_eval_extent(reading);
                b.lemma_eval_extent(reading);
            },
        }
    }
}

} // verus!
