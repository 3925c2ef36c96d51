//! Sizing rules of the three kernels: which operand shapes are accepted, the
//! shape of the output, and the grid of workgroups to launch.

use crate::error::TensorError;
use crate::shape::Shape;
use vstd::prelude::*;

verus! {

/// Workgroups to launch along the three axes of a dispatch.
#[derive(Clone, Copy, Debug, PartialEq, Eq, Structural)]
pub struct Grid {
    pub x: u32,
    pub y: u32,
    pub z: u32,
}

/// Everything a matrix product needs besides the operands themselves.
#[derive(Clone, Copy, Debug, PartialEq, Eq, Structural)]
pub struct MatmulPlan {
    /// Shape of the product.
    pub out: Shape,
    /// Byte size of the product.
    pub out_bytes: usize,
    /// Rows of the left operand, as the kernel reads it.
    pub rows: u32,
    /// The shared dimension: columns of the left and rows of the right operand.
    pub inner: u32,
    /// Columns of the right operand.
    pub cols: u32,
    /// Workgroups to launch along x, y and z.
    pub grid: Grid,
}

/// Everything an elementwise sum or difference needs besides the operands.
#[derive(Clone, Copy, Debug, PartialEq, Eq, Structural)]
pub struct ElementwisePlan {
    /// Shape of the result, which is the shape of both operands.
    pub out: Shape,
    /// Byte size of the result.
    pub out_bytes: usize,
    /// Workgroups to launch along x, y and z.
    pub grid: Grid,
}

/// The product of an `a` matrix and a `b` matrix under a kernel whose
/// workgroup covers a `tile` by `tile` block of the output.
///
/// The inner dimensions must agree. Rows of `a` and columns of `b` must be
/// whole numbers of tiles, so a tile edge of zero accepts nothing. All three
/// dimensions must fit the kernel's 32-bit counters and the output must fit
/// the address space. The grid is one workgroup per output tile.
pub open spec fn matmul_plan_spec(a: Shape, b: Shape, tile: u32) -> Result<
    MatmulPlan,
    TensorError,
> {
    let out = Shape::D2(a.spec_rows() as usize, b.spec_cols() as usize);
    if a.spec_cols() != b.spec_rows() {
        Err(TensorError::IncompatibleShape)
    } else if tile == 0 || a.spec_rows() % (tile as nat) != 0 || b.spec_cols() % (tile as nat)
        != 0 {
        Err(TensorError::TileMisaligned)
    } else if a.spec_rows() > u32::MAX || a.spec_cols() > u32::MAX || b.spec_cols() > u32::MAX
        || out.spec_bytes() > usize::MAX {
        Err(TensorError::TooLarge)
    } else {
        Ok(
            MatmulPlan {
                out,
                out_bytes: out.spec_bytes() as usize,
                rows: a.spec_rows() as u32,
                inner: a.spec_cols() as u32,
                cols: b.spec_cols() as u32,
                grid: Grid {
                    x: (a.spec_rows() / (tile as nat)) as u32,
                    y: (b.spec_cols() / (tile as nat)) as u32,
                    z: 1u32,
                },
            },
        )
    }
}

/// Workgroups along one axis of length `n` for an elementwise kernel with the
/// given tile edge: one where the axis is shorter than a tile, else one per
/// tile, which must divide the axis exactly and give a count that fits 32 bits.
pub open spec fn axis_groups_spec(n: nat, tile: u32) -> Result<u32, TensorError> {
    if n < tile {
        Ok(1u32)
    } else if tile == 0 || n % (tile as nat) != 0 {
        Err(TensorError::TileMisaligned)
    } else if n / (tile as nat) > u32::MAX {
        Err(TensorError::TooLarge)
    } else {
        Ok((n / (tile as nat)) as u32)
    }
}

/// The elementwise combination of an `a` matrix and a `b` matrix: the shapes
/// must be equal, rows run along the grid's x axis and columns along y, and
/// the result must fit the address space.
pub open spec fn elementwise_plan_spec(a: Shape, b: Shape, tile: u32) -> Result<
    ElementwisePlan,
    TensorError,
> {
    if a != b {
        Err(TensorError::ShapeMismatch)
    } else {
        match axis_groups_spec(a.spec_rows(), tile) {
            Err(e) => Err(e),
            Ok(x) => match axis_groups_spec(a.spec_cols(), tile) {
                Err(e) => Err(e),
                Ok(y) => if a.spec_bytes() > usize::MAX {
                    Err(TensorError::TooLarge)
                } else {
                    Ok(ElementwisePlan { out: a, out_bytes: a.spec_bytes() as usize, grid: Grid { x, y, z: 1u32 } })
                },
            },
        }
    }
}

/// Plans a matrix product; see [`matmul_plan_spec`].
pub fn matmul_plan(a: Shape, b: Shape, tile: u32) -> (result: Result<MatmulPlan, TensorError>)
    ensures
        result == matmul_plan_spec(a, b, tile),
{
    let rows = a.rows();
    let inner = a.cols();
    let cols = b.cols();
    if inner != b.rows() {
        return Err(TensorError::IncompatibleShape);
    }
    if tile == 0 {
        return Err(TensorError::TileMisaligned);
    }
    let edge: usize = tile as usize;
    if rows % edge != 0 || cols % edge != 0 {
        return Err(TensorError::TileMisaligned);
    }
    if rows > u32::MAX as usize || inner > u32::MAX as usize || cols > u32::MAX as usize {
        return Err(TensorError::TooLarge);
    }
    let out = Shape::D2(rows, cols);
    match out.checked_bytes() {
        None => Err(TensorError::TooLarge),
        Some(out_bytes) => Ok(
            MatmulPlan {
                out,
                out_bytes,
                rows: rows as u32,
                inner: inner as u32,
                cols: cols as u32,
                grid: Grid { x: (rows / edge) as u32, y: (cols / edge) as u32, z: 1 },
            },
        ),
    }
}

/// Workgroups along one axis of an elementwise kernel; see
/// [`axis_groups_spec`].
pub fn axis_groups(n: usize, tile: u32) -> (result: Result<u32, TensorError>)
    ensures
        result == axis_groups_spec(n as nat, tile),
{
    let edge: usize = tile as usize;
    if n < edge {
        Ok(1)
    } else if tile == 0 || n % edge != 0 {
        Err(TensorError::TileMisaligned)
    } else if n / edge > u32::MAX as usize {
        Err(TensorError::TooLarge)
    } else {
        Ok((n / edge) as u32)
    }
}

/// Plans an elementwise sum or difference; see [`elementwise_plan_spec`].
pub fn elementwise_plan(a: Shape, b: Shape, tile: u32) -> (result: Result<
    ElementwisePlan,
    TensorError,
>)
    ensures
        result == elementwise_plan_spec(a, b, tile),
{
    if a != b {
        return Err(TensorError::ShapeMismatch);
    }
    let x = match axis_groups(a.rows(), tile) {
        Ok(x) => x,
        Err(e) => {
            return Err(e);
        },
    };
    let y = match axis_groups(a.cols(), tile) {
        Ok(y) => y,
        Err(e) => {
            return Err(e);
        },
    };
    match a.checked_bytes() {
        None => Err(TensorError::TooLarge),
        Some(out_bytes) => Ok(ElementwisePlan { out: a, out_bytes, grid: Grid { x, y, z: 1 } }),
    }
}

/// A product is refused for its shapes exactly when the inner dimensions
/// differ.
pub proof fn lemma_matmul_incompatible(a: Shape, b: Shape, tile: u32)
    ensures
        matmul_plan_spec(a, b, tile) == Err::<MatmulPlan, TensorError>(
            TensorError::IncompatibleShape,
        ) <==> a.spec_cols() != b.spec_rows(),
{
}

/// A planned product has as many rows as the left operand and as many
/// columns as the right one, and launches one workgroup per output tile.
pub proof fn lemma_matmul_plan_covers(a: Shape, b: Shape, tile: u32)
    requires
        matmul_plan_spec(a, b, tile) is Ok,
    ensures
        ({
            let p = matmul_plan_spec(a, b, tile)->Ok_0;
            &&& p.out.spec_rows() == a.spec_rows()
            &&& p.out.spec_cols() == b.spec_cols()
            &&& p.grid.x * tile == a.spec_rows()
            &&& p.grid.y * tile == b.spec_cols()
            &&& p.grid.z == 1
            &&& p.out_bytes == 4 * (a.spec_rows() * b.spec_cols())
        }),
{
    let t = tile as nat;
    let r = a.spec_rows();
    let c = b.spec_cols();
    assert(r == t * (r / t) + r % t) by (nonlinear_arith)
        requires
            t > 0,
    ;
    assert(c == t * (c / t) + c % t) by (nonlinear_arith)
        requires
            t > 0,
    ;
    assert((r / t) * t == t * (r / t)) by (nonlinear_arith);
    assert((c / t) * t == t * (c / t)) by (nonlinear_arith);
    assert(r / t <= r) by (nonlinear_arith)
        requires
            t > 0,
    ;
    assert(c / t <= c) by (nonlinear_arith)
        requires
            t > 0,
    ;
}

/// An elementwise combination is refused for its shapes exactly when the
/// operands differ in shape, and an accepted one keeps the operands' shape
/// and never launches an empty grid.
pub proof fn lemma_elementwise_plan(a: Shape, b: Shape, tile: u32)
    ensures
        elementwise_plan_spec(a, b, tile) == Err::<ElementwisePlan, TensorError>(
            TensorError::ShapeMismatch,
        ) <==> a != b,
        elementwise_plan_spec(a, b, tile) matches Ok(p) ==> p.out == a && p.out == b && p.grid.x
            >= 1 && p.grid.y >= 1 && p.grid.z == 1,
{
    if a == b {
        let t = tile as nat;
        let r = a.spec_rows();
        let c = a.spec_cols();
        if t > 0 {
            assert(r >= t ==> r / t >= 1) by (nonlinear_arith)
                requires
                    t > 0,
            ;
            assert(c >= t ==> c / t >= 1) by (nonlinear_arith)
                requires
                    t > 0,
            ;
        }
    }
}

} // verus!
