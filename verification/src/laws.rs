//! What holds of the tensor operations in exact arithmetic, whatever numbers
//! the uploaded words stand for. The device computes in 32-bit floating
//! point, so its results agree with these laws only up to rounding.

use crate::matrix::{assemble, dot, mat_add, mat_mul, mat_sub, Matrix, Recipe};
use crate::shape::Shape;
use crate::strassen::{
    difference_of, product_of, strassen_blocks, strassen_plan_spec, strassen_products, sum_of, Tiles,
};
use vstd::prelude::*;

verus! {

/// A partial dot product with a sum on the left is the sum of the partial dot
/// products.
pub proof fn lemma_dot_add_left(x: Matrix, y: Matrix, b: Matrix, i: int, j: int, n: nat)
    requires
        0 <= i < x.rows,
        n <= x.cols,
    ensures
        dot(mat_add(x, y), b, i, j, n) == dot(x, b, i, j, n) + dot(y, b, i, j, n),
    decreases n,
{
    if n > 0 {
        lemma_dot_add_left(x, y, b, i, j, (n - 1) as nat);
        let t = n - 1;
        assert(mat_add(x, y).at(i, t) == x.at(i, t) + y.at(i, t));
        assert((x.at(i, t) + y.at(i, t)) * b.at(t, j) == x.at(i, t) * b.at(t, j) + y.at(i, t)
            * b.at(t, j)) by (nonlinear_arith);
    }
}

/// A partial dot product with a difference on the left is the difference of
/// the partial dot products.
pub proof fn lemma_dot_sub_left(x: Matrix, y: Matrix, b: Matrix, i: int, j: int, n: nat)
    requires
        0 <= i < x.rows,
        n <= x.cols,
    ensures
        dot(mat_sub(x, y), b, i, j, n) == dot(x, b, i, j, n) - dot(y, b, i, j, n),
    decreases n,
{
    if n > 0 {
        lemma_dot_sub_left(x, y, b, i, j, (n - 1) as nat);
        let t = n - 1;
        assert(mat_sub(x, y).at(i, t) == x.at(i, t) - y.at(i, t));
        assert((x.at(i, t) - y.at(i, t)) * b.at(t, j) == x.at(i, t) * b.at(t, j) - y.at(i, t)
            * b.at(t, j)) by (nonlinear_arith);
    }
}

/// A partial dot product with a sum on the right is the sum of the partial
/// dot products.
pub proof fn lemma_dot_add_right(a: Matrix, x: Matrix, y: Matrix, i: int, j: int, n: nat)
    requires
        0 <= j < x.cols,
        n <= x.rows,
    ensures
        dot(a, mat_add(x, y), i, j, n) == dot(a, x, i, j, n) + dot(a, y, i, j, n),
    decreases n,
{
    if n > 0 {
        lemma_dot_add_right(a, x, y, i, j, (n - 1) as nat);
        let t = n - 1;
        assert(mat_add(x, y).at(t, j) == x.at(t, j) + y.at(t, j));
        assert(a.at(i, t) * (x.at(t, j) + y.at(t, j)) == a.at(i, t) * x.at(t, j) + a.at(i, t)
            * y.at(t, j)) by (nonlinear_arith);
    }
}

/// A partial dot product with a difference on the right is the difference of
/// the partial dot products.
pub proof fn lemma_dot_sub_right(a: Matrix, x: Matrix, y: Matrix, i: int, j: int, n: nat)
    requires
        0 <= j < x.cols,
        n <= x.rows,
    ensures
        dot(a, mat_sub(x, y), i, j, n) == dot(a, x, i, j, n) - dot(a, y, i, j, n),
    decreases n,
{
    if n > 0 {
        lemma_dot_sub_right(a, x, y, i, j, (n - 1) as nat);
        let t = n - 1;
        assert(mat_sub(x, y).at(t, j) == x.at(t, j) - y.at(t, j));
        assert(a.at(i, t) * (x.at(t, j) - y.at(t, j)) == a.at(i, t) * x.at(t, j) - a.at(i, t)
            * y.at(t, j)) by (nonlinear_arith);
    }
}

/// Adding a matrix and taking it away again gives the matrix back.
pub proof fn lemma_add_then_sub(a: Matrix, b: Matrix)
    requires
        a == Matrix::new(a.rows, a.cols, a.cells),
    ensures
        mat_sub(mat_add(a, b), b) == a,
{
    let back = mat_sub(mat_add(a, b), b);
    assert forall|i: int, j: int| #[trigger] (back.cells)(i, j) == (a.cells)(i, j) by {
        assert(back.at(i, j) == (back.cells)(i, j));
        assert(a.at(i, j) == (a.cells)(i, j));
        assert(mat_add(a, b).at(i, j) == if 0 <= i < a.rows && 0 <= j < a.cols {
            a.at(i, j) + b.at(i, j)
        } else {
            0
        });
    }
    assert(back.cells =~= a.cells);
    assert(back =~= a);
}

/// Partial dot products agree where the rows and columns they run over agree.
pub proof fn lemma_dot_same(
    a: Matrix,
    b: Matrix,
    i: int,
    j: int,
    x: Matrix,
    y: Matrix,
    u: int,
    v: int,
    n: nat,
)
    requires
        forall|t: int| 0 <= t < n ==> a.at(i, t) == x.at(u, t),
        forall|t: int| 0 <= t < n ==> b.at(t, j) == y.at(t, v),
    ensures
        dot(a, b, i, j, n) == dot(x, y, u, v, n),
    decreases n,
{
    if n > 0 {
        lemma_dot_same(a, b, i, j, x, y, u, v, (n - 1) as nat);
    }
}

/// A dot product over `k + m` terms is the dot product over the first `k`
/// plus the dot product over the `m` that follow, read from matrices that hold
/// those terms from position 0 on.
pub proof fn lemma_dot_split(
    a: Matrix,
    b: Matrix,
    i: int,
    j: int,
    x: Matrix,
    y: Matrix,
    u: int,
    v: int,
    k: nat,
    m: nat,
)
    requires
        forall|t: int| 0 <= t < m ==> a.at(i, k + t) == x.at(u, t),
        forall|t: int| 0 <= t < m ==> b.at(k + t, j) == y.at(t, v),
    ensures
        dot(a, b, i, j, k + m) == dot(a, b, i, j, k) + dot(x, y, u, v, m),
    decreases m,
{
    if m > 0 {
        lemma_dot_split(a, b, i, j, x, y, u, v, k, (m - 1) as nat);
        assert(a.at(i, k + (m - 1)) == x.at(u, m - 1));
        assert(b.at(k + (m - 1), j) == y.at(m - 1, v));
    }
}

/// The seven products of Strassen's scheme over blocks of exact matrices; see
/// [`strassen_products`].
pub open spec fn strassen_products_exact(a: Seq<Matrix>, b: Seq<Matrix>) -> Seq<Matrix> {
    seq![
        mat_mul(mat_add(a[0], a[3]), mat_add(b[0], b[3])),
        mat_mul(mat_add(a[2], a[3]), b[0]),
        mat_mul(a[0], mat_sub(b[1], b[3])),
        mat_mul(a[3], mat_sub(b[2], b[0])),
        mat_mul(mat_add(a[0], a[1]), b[3]),
        mat_mul(mat_sub(a[2], a[0]), mat_add(b[0], b[1])),
        mat_mul(mat_sub(a[1], a[3]), mat_add(b[2], b[3])),
    ]
}

/// The four blocks of Strassen's scheme over blocks of exact matrices; see
/// [`strassen_blocks`].
pub open spec fn strassen_blocks_exact(a: Seq<Matrix>, b: Seq<Matrix>) -> Seq<Matrix> {
    let p = strassen_products_exact(a, b);
    seq![
        mat_add(mat_sub(mat_add(p[0], p[3]), p[4]), p[6]),
        mat_add(p[2], p[4]),
        mat_add(p[1], p[3]),
        mat_add(mat_sub(mat_add(p[0], p[2]), p[1]), p[5]),
    ]
}

/// Whether the four blocks all have `rows` rows and `cols` columns.
pub open spec fn blocks_of_extent(blocks: Seq<Matrix>, rows: nat, cols: nat) -> bool {
    &&& blocks.len() == 4
    &&& forall|q: int| 0 <= q < 4 ==> (#[trigger] blocks[q]).has_extent(rows, cols)
}

/// Each cell of each of the seven products, written out in the dot products
/// of the blocks themselves.
proof fn lemma_products_at(a: Seq<Matrix>, b: Seq<Matrix>, r: nat, k: nat, c: nat, i: int, j: int)
    requires
        blocks_of_extent(a, r, k),
        blocks_of_extent(b, k, c),
        0 <= i < r,
        0 <= j < c,
    ensures
        ({
            let p = strassen_products_exact(a, b);
            let d = |x: int, y: int| dot(a[x], b[y], i, j, k);
            &&& forall|n: int| 0 <= n < 7 ==> (#[trigger] p[n]).has_extent(r, c)
            &&& p[0].at(i, j) == d(0, 0) + d(0, 3) + d(3, 0) + d(3, 3)
            &&& p[1].at(i, j) == d(2, 0) + d(3, 0)
            &&& p[2].at(i, j) == d(0, 1) - d(0, 3)
            &&& p[3].at(i, j) == d(3, 2) - d(3, 0)
            &&& p[4].at(i, j) == d(0, 3) + d(1, 3)
            &&& p[5].at(i, j) == d(2, 0) - d(0, 0) + d(2, 1) - d(0, 1)
            &&& p[6].at(i, j) == d(1, 2) - d(3, 2) + d(1, 3) - d(3, 3)
        }),
{
    assert(a[0].has_extent(r, k) && a[1].has_extent(r, k) && a[2].has_extent(r, k)
        && a[3].has_extent(r, k));
    assert(b[0].has_extent(k, c) && b[1].has_extent(k, c) && b[2].has_extent(k, c)
        && b[3].has_extent(k, c));
    // M1 = (A11 + A22) * (B11 + B22)
    lemma_dot_add_left(a[0], a[3], mat_add(b[0], b[3]), i, j, k);
    lemma_dot_add_right(a[0], b[0], b[3], i, j, k);
    lemma_dot_add_right(a[3], b[0], b[3], i, j, k);
    // M2 = (A21 + A22) * B11
    lemma_dot_add_left(a[2], a[3], b[0], i, j, k);
    // M3 = A11 * (B12 - B22)
    lemma_dot_sub_right(a[0], b[1], b[3], i, j, k);
    // M4 = A22 * (B21 - B11)
    lemma_dot_sub_right(a[3], b[2], b[0], i, j, k);
    // M5 = (A11 + A12) * B22
    lemma_dot_add_left(a[0], a[1], b[3], i, j, k);
    // M6 = (A21 - A11) * (B11 + B12)
    lemma_dot_sub_left(a[2], a[0], mat_add(b[0], b[1]), i, j, k);
    lemma_dot_add_right(a[2], b[0], b[1], i, j, k);
    lemma_dot_add_right(a[0], b[0], b[1], i, j, k);
    // M7 = (A12 - A22) * (B21 + B22)
    lemma_dot_sub_left(a[1], a[3], mat_add(b[2], b[3]), i, j, k);
    lemma_dot_add_right(a[1], b[2], b[3], i, j, k);
    lemma_dot_add_right(a[3], b[2], b[3], i, j, k);
}

/// Each cell of each of the four blocks of the scheme is the sum of two dot
/// products of blocks: what the product of the whole matrices has there.
proof fn lemma_blocks_at(a: Seq<Matrix>, b: Seq<Matrix>, r: nat, k: nat, c: nat, i: int, j: int)
    requires
        blocks_of_extent(a, r, k),
        blocks_of_extent(b, k, c),
        0 <= i < r,
        0 <= j < c,
    ensures
        ({
            let s = strassen_blocks_exact(a, b);
            &&& blocks_of_extent(s, r, c)
            &&& s[0].at(i, j) == dot(a[0], b[0], i, j, k) + dot(a[1], b[2], i, j, k)
            &&& s[1].at(i, j) == dot(a[0], b[1], i, j, k) + dot(a[1], b[3], i, j, k)
            &&& s[2].at(i, j) == dot(a[2], b[0], i, j, k) + dot(a[3], b[2], i, j, k)
            &&& s[3].at(i, j) == dot(a[2], b[1], i, j, k) + dot(a[3], b[3], i, j, k)
        }),
{
    lemma_products_at(a, b, r, k, c, i, j);
    let p = strassen_products_exact(a, b);
    assert(p[0].has_extent(r, c) && p[1].has_extent(r, c) && p[2].has_extent(r, c)
        && p[3].has_extent(r, c) && p[4].has_extent(r, c) && p[5].has_extent(r, c)
        && p[6].has_extent(r, c));
    let s = strassen_blocks_exact(a, b);
    assert(mat_add(p[0], p[3]).at(i, j) == p[0].at(i, j) + p[3].at(i, j));
    assert(mat_sub(mat_add(p[0], p[3]), p[4]).at(i, j) == p[0].at(i, j) + p[3].at(i, j) - p[4].at(
        i,
        j,
    ));
    assert(mat_add(p[0], p[2]).at(i, j) == p[0].at(i, j) + p[2].at(i, j));
    assert(mat_sub(mat_add(p[0], p[2]), p[1]).at(i, j) == p[0].at(i, j) + p[2].at(i, j) - p[1].at(
        i,
        j,
    ));
    assert(s[0].at(i, j) == p[0].at(i, j) + p[3].at(i, j) - p[4].at(i, j) + p[6].at(i, j));
    assert(s[1].at(i, j) == p[2].at(i, j) + p[4].at(i, j));
    assert(s[2].at(i, j) == p[1].at(i, j) + p[3].at(i, j));
    assert(s[3].at(i, j) == p[0].at(i, j) + p[2].at(i, j) - p[1].at(i, j) + p[5].at(i, j));
}

/// Strassen's scheme is exact: the four blocks it yields, put together, are
/// the product of the two matrices that the operands' blocks make up. It
/// holds for blocks of any one extent on the left and any fitting one on the
/// right.
pub proof fn lemma_strassen_exact(a: Seq<Matrix>, b: Seq<Matrix>, r: nat, k: nat, c: nat)
    requires
        blocks_of_extent(a, r, k),
        blocks_of_extent(b, k, c),
    ensures
        ({
            let s = strassen_blocks_exact(a, b);
            assemble(s[0], s[1], s[2], s[3]) == mat_mul(
                assemble(a[0], a[1], a[2], a[3]),
                assemble(b[0], b[1], b[2], b[3]),
            )
        }),
{
    let s = strassen_blocks_exact(a, b);
    let whole_a = assemble(a[0], a[1], a[2], a[3]);
    let whole_b = assemble(b[0], b[1], b[2], b[3]);
    let left = assemble(s[0], s[1], s[2], s[3]);
    let right = mat_mul(whole_a, whole_b);
    assert(a[0].has_extent(r, k) && a[1].has_extent(r, k) && a[2].has_extent(r, k)
        && a[3].has_extent(r, k));
    assert(b[0].has_extent(k, c) && b[1].has_extent(k, c) && b[2].has_extent(k, c)
        && b[3].has_extent(k, c));
    if r > 0 && c > 0 {
        lemma_blocks_at(a, b, r, k, c, 0, 0);
    }
    assert(s[0].has_extent(r, c) && s[1].has_extent(r, c) && s[2].has_extent(r, c)
        && s[3].has_extent(r, c)) by {
        let p = strassen_products_exact(a, b);
        assert(p[0].rows == r && p[0].cols == c);
        assert(p[1].rows == r && p[1].cols == c);
        assert(p[2].rows == r && p[2].cols == c);
    }
    assert(left.rows == right.rows && left.cols == right.cols);
    assert forall|row: int, col: int| #[trigger] (left.cells)(row, col) == (right.cells)(
        row,
        col,
    ) by {
        if 0 <= row < 2 * r && 0 <= col < 2 * c {
            let i = if row < r {
                row
            } else {
                row - r
            };
            let j = if col < c {
                col
            } else {
                col - c
            };
            let near = if row < r {
                a[0]
            } else {
                a[2]
            };
            let far = if row < r {
                a[1]
            } else {
                a[3]
            };
            let upper = if col < c {
                b[0]
            } else {
                b[1]
            };
            let lower = if col < c {
                b[2]
            } else {
                b[3]
            };
            lemma_blocks_at(a, b, r, k, c, i, j);
            assert forall|t: int| 0 <= t < k implies whole_a.at(row, t) == near.at(i, t) by {}
            assert forall|t: int| 0 <= t < k implies whole_b.at(t, col) == upper.at(t, j) by {}
            assert forall|t: int| 0 <= t < k implies whole_a.at(row, k + t) == far.at(i, t) by {}
            assert forall|t: int| 0 <= t < k implies whole_b.at(k + t, col) == lower.at(t, j) by {}
            lemma_dot_same(whole_a, whole_b, row, col, near, upper, i, j, k);
            lemma_dot_split(whole_a, whole_b, row, col, far, lower, i, j, k, k);
            assert(right.at(row, col) == dot(whole_a, whole_b, row, col, k + k));
            assert(left.at(row, col) == dot(near, upper, i, j, k) + dot(far, lower, i, j, k));
        }
    }
    assert(left.cells =~= right.cells);
    assert(left =~= right);
}

/// The exact matrices of a list of recipes.
pub open spec fn eval_all(recipes: Seq<Recipe>, reading: spec_fn(u32) -> int) -> Seq<Matrix> {
    Seq::new(recipes.len(), |q: int| recipes[q].eval(reading))
}

/// The matrix of a recipe is zero outside its extent.
pub proof fn lemma_eval_normal(recipe: Recipe, reading: spec_fn(u32) -> int)
    ensures
        ({
            let m = recipe.eval(reading);
            m == Matrix::new(m.rows, m.cols, m.cells)
        }),
{
    let m = recipe.eval(reading);
    let n = Matrix::new(m.rows, m.cols, m.cells);
    assert forall|i: int, j: int| #[trigger] (m.cells)(i, j) == (n.cells)(i, j) by {
        match recipe {
            Recipe::Blank(_) => {},
            Recipe::Upload(_, _) => {},
            Recipe::Add(x, y) => {},
            Recipe::Sub(x, y) => {},
            Recipe::Matmul(x, y) => {},
        }
    }
    assert(m.cells =~= n.cells);
    assert(m =~= n);
}

/// In exact arithmetic, what the difference kernel makes of a sum and the
/// tensor that was added is the tensor that it was added to.
pub proof fn lemma_add_sub_round_trip(a: Recipe, b: Recipe, reading: spec_fn(u32) -> int)
    ensures
        difference_of(sum_of(a, b), b).eval(reading) == a.eval(reading),
{
    lemma_eval_normal(a, reading);
    lemma_add_then_sub(a.eval(reading), b.eval(reading));
    assert(sum_of(a, b).eval(reading) == mat_add(a.eval(reading), b.eval(reading)));
    assert(difference_of(sum_of(a, b), b).eval(reading) == mat_sub(
        sum_of(a, b).eval(reading),
        b.eval(reading),
    ));
}

/// In exact arithmetic, what the product kernel is asked for is the product
/// of the two matrices: cell `(i, j)` is the sum over `t` of
/// `a[i][t] * b[t][j]`.
pub proof fn lemma_matmul_is_product(a: Recipe, b: Recipe, reading: spec_fn(u32) -> int)
    requires
        product_of(a, b).well_shaped(),
    ensures
        ({
            let m = product_of(a, b).eval(reading);
            &&& m.has_extent(a.shape().spec_rows(), b.shape().spec_cols())
            &&& forall|i: int, j: int|
                0 <= i < m.rows && 0 <= j < m.cols ==> #[trigger] m.at(i, j) == dot(
                    a.eval(reading),
                    b.eval(reading),
                    i,
                    j,
                    a.shape().spec_cols(),
                )
        }),
{
    a.lemma_eval_extent(reading);
    b.lemma_eval_extent(reading);
    assert(product_of(a, b).eval(reading) == mat_mul(a.eval(reading), b.eval(reading)));
}

/// The recipes of Strassen's scheme mean, in exact arithmetic, the scheme
/// applied to the matrices that the operands' recipes mean.
pub proof fn lemma_strassen_recipes(a: Seq<Recipe>, b: Seq<Recipe>, reading: spec_fn(u32) -> int)
    requires
        a.len() == 4,
        b.len() == 4,
    ensures
        eval_all(strassen_blocks(a, b), reading) == strassen_blocks_exact(
            eval_all(a, reading),
            eval_all(b, reading),
        ),
{
    let p = strassen_products(a, b);
    let ea = eval_all(a, reading);
    let eb = eval_all(b, reading);
    let ep = strassen_products_exact(ea, eb);
    assert(ea[0] == a[0].eval(reading) && ea[1] == a[1].eval(reading) && ea[2] == a[2].eval(
        reading,
    ) && ea[3] == a[3].eval(reading));
    assert(eb[0] == b[0].eval(reading) && eb[1] == b[1].eval(reading) && eb[2] == b[2].eval(
        reading,
    ) && eb[3] == b[3].eval(reading));
    assert(sum_of(a[0], a[3]).eval(reading) == mat_add(ea[0], ea[3]));
    assert(sum_of(b[0], b[3]).eval(reading) == mat_add(eb[0], eb[3]));
    assert(p[0].eval(reading) == ep[0]);
    assert(sum_of(a[2], a[3]).eval(reading) == mat_add(ea[2], ea[3]));
    assert(p[1].eval(reading) == ep[1]);
    assert(difference_of(b[1], b[3]).eval(reading) == mat_sub(eb[1], eb[3]));
    assert(p[2].eval(reading) == ep[2]);
    assert(difference_of(b[2], b[0]).eval(reading) == mat_sub(eb[2], eb[0]));
    assert(p[3].eval(reading) == ep[3]);
    assert(sum_of(a[0], a[1]).eval(reading) == mat_add(ea[0], ea[1]));
    assert(p[4].eval(reading) == ep[4]);
    assert(difference_of(a[2], a[0]).eval(reading) == mat_sub(ea[2], ea[0]));
    assert(sum_of(b[0], b[1]).eval(reading) == mat_add(eb[0], eb[1]));
    assert(p[5].eval(reading) == ep[5]);
    assert(difference_of(a[1], a[3]).eval(reading) == mat_sub(ea[1], ea[3]));
    assert(sum_of(b[2], b[3]).eval(reading) == mat_add(eb[2], eb[3]));
    assert(p[6].eval(reading) == ep[6]);
    let s = strassen_blocks(a, b);
    let es = strassen_blocks_exact(ea, eb);
    assert(sum_of(p[0], p[3]).eval(reading) == mat_add(ep[0], ep[3]));
    assert(difference_of(sum_of(p[0], p[3]), p[4]).eval(reading) == mat_sub(
        mat_add(ep[0], ep[3]),
        ep[4],
    ));
    assert(s[0].eval(reading) == es[0]);
    assert(s[1].eval(reading) == es[1]);
    assert(s[2].eval(reading) == es[2]);
    assert(sum_of(p[0], p[2]).eval(reading) == mat_add(ep[0], ep[2]));
    assert(difference_of(sum_of(p[0], p[2]), p[1]).eval(reading) == mat_sub(
        mat_add(ep[0], ep[2]),
        ep[1],
    ));
    assert(s[3].eval(reading) == es[3]);
    assert(eval_all(s, reading) =~= es);
}

/// Strassen's scheme on tensors is exact: whatever numbers the uploaded words
/// stand for, the four blocks that the scheme asks of the device, put
/// together, are in exact arithmetic the product of the two matrices that the
/// operands' blocks make up. All blocks of an operand must have one shape.
pub proof fn lemma_strassen_is_product(
    a: Seq<Recipe>,
    b: Seq<Recipe>,
    left: Shape,
    right: Shape,
    reading: spec_fn(u32) -> int,
)
    requires
        a.len() == 4,
        b.len() == 4,
        forall|q: int| 0 <= q < 4 ==> (#[trigger] a[q]).shape() == left,
        forall|q: int| 0 <= q < 4 ==> (#[trigger] b[q]).shape() == right,
        left.spec_cols() == right.spec_rows(),
    ensures
        ({
            let s = eval_all(strassen_blocks(a, b), reading);
            let x = eval_all(a, reading);
            let y = eval_all(b, reading);
            assemble(s[0], s[1], s[2], s[3]) == mat_mul(
                assemble(x[0], x[1], x[2], x[3]),
                assemble(y[0], y[1], y[2], y[3]),
            )
        }),
{
    let x = eval_all(a, reading);
    let y = eval_all(b, reading);
    assert forall|q: int| 0 <= q < 4 implies (#[trigger] x[q]).has_extent(
        left.spec_rows(),
        left.spec_cols(),
    ) by {
        assert(a[q].shape() == left);
        a[q].lemma_eval_extent(reading);
    }
    assert forall|q: int| 0 <= q < 4 implies (#[trigger] y[q]).has_extent(
        right.spec_rows(),
        right.spec_cols(),
    ) by {
        assert(b[q].shape() == right);
        b[q].lemma_eval_extent(reading);
    }
    lemma_strassen_recipes(a, b, reading);
    lemma_strassen_exact(x, y, left.spec_rows(), left.spec_cols(), right.spec_cols());
}

/// Whatever Strassen's scheme on tensors accepts, it multiplies: where the
/// plan accepts the shapes of the operands' blocks, the blocks of the result,
/// put together, are in exact arithmetic the product of the two matrices that
/// the operands' blocks make up.
pub proof fn lemma_accepted_strassen_is_product(
    a: Seq<Recipe>,
    b: Seq<Recipe>,
    a_shapes: Seq<Shape>,
    b_shapes: Seq<Shape>,
    tiles: Tiles,
    reading: spec_fn(u32) -> int,
)
    requires
        a.len() == 4,
        b.len() == 4,
        a_shapes.len() == 4,
        b_shapes.len() == 4,
        forall|q: int| 0 <= q < 4 ==> (#[trigger] a[q]).shape() == a_shapes[q],
        forall|q: int| 0 <= q < 4 ==> (#[trigger] b[q]).shape() == b_shapes[q],
        strassen_plan_spec(a_shapes, b_shapes, tiles) is Ok,
    ensures
        ({
            let s = eval_all(strassen_blocks(a, b), reading);
            let x = eval_all(a, reading);
            let y = eval_all(b, reading);
            assemble(s[0], s[1], s[2], s[3]) == mat_mul(
                assemble(x[0], x[1], x[2], x[3]),
                assemble(y[0], y[1], y[2], y[3]),
            )
        }),
{
    let left = a_shapes[0];
    let right = b_shapes[0];
    assert forall|q: int| 0 <= q < 4 implies (#[trigger] a[q]).shape() == left by {
        assert(a_shapes[q] == left);
    }
    assert forall|q: int| 0 <= q < 4 implies (#[trigger] b[q]).shape() == right by {
        assert(b_shapes[q] == right);
    }
    lemma_strassen_is_product(a, b, left, right, reading);
}

} // verus!
