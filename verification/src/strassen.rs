//! Strassen's product of two matrices given as 2-by-2 blocks of tensors:
//! seven products of sums and differences of blocks, combined into the four
//! blocks of the result.

use crate::error::TensorError;
use crate::kernel::{declared_slots, declared_slots_spec, KernelSet};
use crate::matrix::Recipe;
use crate::plan::{elementwise_plan, elementwise_plan_spec, matmul_plan, matmul_plan_spec};
use crate::server::WgpuServer;
use crate::shape::Shape;
use crate::tensor::{is_device_error, RawGf32};
use vstd::prelude::*;

verus! {

/// The tile edges of the product, sum and difference kernels.
#[derive(Clone, Copy, Debug, PartialEq, Eq, Structural)]
pub struct Tiles {
    pub matmul: u32,
    pub add: u32,
    pub sub: u32,
}

impl Tiles {
    /// The tile edges of a set of kernels.
    pub open spec fn spec_of(kernels: KernelSet) -> Tiles {
        Tiles { matmul: kernels.matmul.tile, add: kernels.add.tile, sub: kernels.sub.tile }
    }

    /// The tile edges of a set of kernels.
    pub fn of(kernels: &KernelSet) -> (tiles: Tiles)
        ensures
            tiles == Tiles::spec_of(*kernels),
    {
        Tiles { matmul: kernels.matmul.tile, add: kernels.add.tile, sub: kernels.sub.tile }
    }
}

/// The error of a plan that was refused, if it was.
pub open spec fn refusal<T>(plan: Result<T, TensorError>) -> Option<TensorError> {
    match plan {
        Ok(_) => None,
        Err(e) => Some(e),
    }
}

/// The first of two refusals.
pub open spec fn or_else(first: Option<TensorError>, second: Option<TensorError>) -> Option<
    TensorError,
> {
    match first {
        Some(e) => Some(e),
        None => second,
    }
}

/// Whether Strassen's scheme can run on blocks of the given shapes, and the
/// shape of each block of the result.
///
/// The four blocks of either operand must have one shape, or the shapes are
/// mismatched. Then every operation of the scheme must be accepted by its own
/// sizing rule: sums and differences of left blocks and of right blocks, the
/// product of a left and a right block, and sums and differences of such
/// products. The first rule to refuse, in the order in which the scheme
/// reaches them, gives the error.
pub open spec fn strassen_plan_spec(a: Seq<Shape>, b: Seq<Shape>, tiles: Tiles) -> Result<
    Shape,
    TensorError,
>
    recommends
        a.len() == 4,
        b.len() == 4,
{
    let left = a[0];
    let right = b[0];
    let product = Shape::D2(left.spec_rows() as usize, right.spec_cols() as usize);
    if a[1] != left || a[2] != left || a[3] != left || b[1] != right || b[2] != right || b[3]
        != right {
        Err(TensorError::ShapeMismatch)
    } else {
        match or_else(
            refusal(elementwise_plan_spec(left, left, tiles.add)),
            or_else(
                refusal(elementwise_plan_spec(right, right, tiles.add)),
                or_else(
                    refusal(matmul_plan_spec(left, right, tiles.matmul)),
                    or_else(
                        refusal(elementwise_plan_spec(right, right, tiles.sub)),
                        or_else(
                            refusal(elementwise_plan_spec(left, left, tiles.sub)),
                            or_else(
                                refusal(elementwise_plan_spec(product, product, tiles.add)),
                                refusal(elementwise_plan_spec(product, product, tiles.sub)),
                            ),
                        ),
                    ),
                ),
            ),
        ) {
            Some(e) => Err(e),
            None => Ok(product),
        }
    }
}

/// Decides [`strassen_plan_spec`] for the blocks `a11, a12, a21, a22` and
/// `b11, b12, b21, b22`.
pub fn strassen_plan(a: &[Shape; 4], b: &[Shape; 4], tiles: Tiles) -> (result: Result<
    Shape,
    TensorError,
>)
    ensures
        result == strassen_plan_spec(a@, b@, tiles),
{
    let left = a[0];
    let right = b[0];
    if a[1] != left || a[2] != left || a[3] != left || b[1] != right || b[2] != right || b[3]
        != right {
        return Err(TensorError::ShapeMismatch);
    }
    let _ = elementwise_plan(left, left, tiles.add)?;
    let _ = elementwise_plan(right, right, tiles.add)?;
    let product = matmul_plan(left, right, tiles.matmul)?.out;
    let _ = elementwise_plan(right, right, tiles.sub)?;
    let _ = elementwise_plan(left, left, tiles.sub)?;
    let _ = elementwise_plan(product, product, tiles.add)?;
    let _ = elementwise_plan(product, product, tiles.sub)?;
    Ok(product)
}

/// Whether each of the three kernels declares as many resources as its
/// operation launches it over: four for the product, three for the sum and
/// the difference.
pub open spec fn kernels_fit_spec(kernels: KernelSet) -> bool {
    &&& declared_slots_spec(kernels.matmul.source@) == 4
    &&& declared_slots_spec(kernels.add.source@) == 3
    &&& declared_slots_spec(kernels.sub.source@) == 3
}

/// Decides [`kernels_fit_spec`].
pub fn kernels_fit(kernels: &KernelSet) -> (fit: bool)
    ensures
        fit == kernels_fit_spec(*kernels),
{
    declared_slots(kernels.matmul.source.as_str()) == 4 && declared_slots(
        kernels.add.source.as_str(),
    ) == 3 && declared_slots(kernels.sub.source.as_str()) == 3
}

/// The recipe of a sum.
pub open spec fn sum_of(a: Recipe, b: Recipe) -> Recipe {
    Recipe::Add(Box::new(a), Box::new(b))
}

/// The recipe of a difference.
pub open spec fn difference_of(a: Recipe, b: Recipe) -> Recipe {
    Recipe::Sub(Box::new(a), Box::new(b))
}

/// The recipe of a product.
pub open spec fn product_of(a: Recipe, b: Recipe) -> Recipe {
    Recipe::Matmul(Box::new(a), Box::new(b))
}

/// The seven products of Strassen's scheme over the blocks `a` and `b`, each
/// in the order 11, 12, 21, 22:
///
/// ```text
/// M1 = (A11 + A22) * (B11 + B22)
/// M2 = (A21 + A22) * B11
/// M3 = A11 * (B12 - B22)
/// M4 = A22 * (B21 - B11)
/// M5 = (A11 + A12) * B22
/// M6 = (A21 - A11) * (B11 + B12)
/// M7 = (A12 - A22) * (B21 + B22)
/// ```
pub open spec fn strassen_products(a: Seq<Recipe>, b: Seq<Recipe>) -> Seq<Recipe> {
    seq![
        product_of(sum_of(a[0], a[3]), sum_of(b[0], b[3])),
        product_of(sum_of(a[2], a[3]), b[0]),
        product_of(a[0], difference_of(b[1], b[3])),
        product_of(a[3], difference_of(b[2], b[0])),
        product_of(sum_of(a[0], a[1]), b[3]),
        product_of(difference_of(a[2], a[0]), sum_of(b[0], b[1])),
        product_of(difference_of(a[1], a[3]), sum_of(b[2], b[3])),
    ]
}

/// The four blocks of the result of Strassen's scheme, in the order 11, 12,
/// 21, 22, from its seven products:
///
/// ```text
/// C11 = M1 + M4 - M5 + M7
/// C12 = M3 + M5
/// C21 = M2 + M4
/// C22 = M1 + M3 - M2 + M6
/// ```
pub open spec fn strassen_blocks(a: Seq<Recipe>, b: Seq<Recipe>) -> Seq<Recipe> {
    let p = strassen_products(a, b);
    seq![
        sum_of(difference_of(sum_of(p[0], p[3]), p[4]), p[6]),
        sum_of(p[2], p[4]),
        sum_of(p[1], p[3]),
        sum_of(difference_of(sum_of(p[0], p[2]), p[1]), p[5]),
    ]
}

/// [`RawGf32::add`] on operands that its plan accepts, with what the scheme
/// needs to know of it.
fn sum(a: &RawGf32, b: &RawGf32, server: &mut WgpuServer) -> (result: Result<RawGf32, TensorError>)
    requires
        elementwise_plan_spec(a.spec_shape(), b.spec_shape(), old(server).kernels().add.tile) is Ok,
        kernels_fit_spec(old(server).kernels()),
    ensures
        final(server).follows(old(server)),
        result matches Ok(out) ==> {
            &&& out.spec_shape() == a.spec_shape()
            &&& out.recipe() == sum_of(a.recipe(), b.recipe())
            &&& final(server).is_acquired()
            &&& final(server).launches().len() == old(server).launches().len() + 1
        },
        result matches Err(e) ==> is_device_error(e) && (e
            == TensorError::DeviceAcquisitionFailure ==> !final(server).is_acquired()),
{
    a.add(b, server)
}

/// [`RawGf32::sub`] on operands that its plan accepts, with what the scheme
/// needs to know of it.
fn difference(a: &RawGf32, b: &RawGf32, server: &mut WgpuServer) -> (result: Result<
    RawGf32,
    TensorError,
>)
    requires
        elementwise_plan_spec(a.spec_shape(), b.spec_shape(), old(server).kernels().sub.tile) is Ok,
        kernels_fit_spec(old(server).kernels()),
    ensures
        final(server).follows(old(server)),
        result matches Ok(out) ==> {
            &&& out.spec_shape() == a.spec_shape()
            &&& out.recipe() == difference_of(a.recipe(), b.recipe())
            &&& final(server).is_acquired()
            &&& final(server).launches().len() == old(server).launches().len() + 1
        },
        result matches Err(e) ==> is_device_error(e) && (e
            == TensorError::DeviceAcquisitionFailure ==> !final(server).is_acquired()),
{
    a.sub(b, server)
}

/// [`RawGf32::matmul`] on operands that its plan accepts, with what the
/// scheme needs to know of it.
fn product(a: &RawGf32, b: &RawGf32, server: &mut WgpuServer) -> (result: Result<
    RawGf32,
    TensorError,
>)
    requires
        matmul_plan_spec(a.spec_shape(), b.spec_shape(), old(server).kernels().matmul.tile) is Ok,
        kernels_fit_spec(old(server).kernels()),
    ensures
        final(server).follows(old(server)),
        result matches Ok(out) ==> {
            &&& out.spec_shape() == matmul_plan_spec(
                a.spec_shape(),
                b.spec_shape(),
                old(server).kernels().matmul.tile,
            )->Ok_0.out
            &&& out.recipe() == product_of(a.recipe(), b.recipe())
            &&& final(server).is_acquired()
            &&& final(server).launches().len() == old(server).launches().len() + 1
        },
        result matches Err(e) ==> is_device_error(e) && (e
            == TensorError::DeviceAcquisitionFailure ==> !final(server).is_acquired()),
{
    a.matmul(b, server)
}

/// A matrix as a 2-by-2 arrangement of tensors: upper left, upper right,
/// lower left, lower right.
pub struct Strassen4 {
    bodys: [RawGf32; 4],
}

impl Strassen4 {
    /// The four blocks.
    pub closed spec fn blocks(&self) -> Seq<RawGf32> {
        self.bodys@
    }

    /// The shapes of the four blocks.
    pub open spec fn shapes(&self) -> Seq<Shape> {
        Seq::new(4, |i: int| self.blocks()[i].spec_shape())
    }

    /// The recipes of the four blocks.
    pub open spec fn recipes(&self) -> Seq<Recipe> {
        Seq::new(4, |i: int| self.blocks()[i].recipe())
    }

    /// The matrix made of the given four blocks.
    pub fn new_from(bodys: [RawGf32; 4]) -> (matrix: Strassen4)
        ensures
            matrix.blocks() == bodys@,
    {
        Strassen4 { bodys }
    }

    /// The block at position `index`: 0 upper left, 1 upper right, 2 lower
    /// left, 3 lower right; `None` for any other index.
    pub fn block(&self, index: usize) -> (block: Option<&RawGf32>)
        ensures
            index < 4 ==> block is Some && *block->Some_0 == self.blocks()[index as int]
                && block->Some_0.spec_shape() == self.shapes()[index as int]
                && block->Some_0.recipe() == self.recipes()[index as int],
            index >= 4 ==> block is None,
    {
        if index < 4 {
            Some(&self.bodys[index])
        } else {
            None
        }
    }

    /// A matrix of four `size` by `size` blocks, every element of which is
    /// the word `fill_with`.
    pub fn new_fill_with(size: usize, fill_with: u32, server: &mut WgpuServer) -> (result: Result<
        Strassen4,
        TensorError,
    >)
        ensures
            final(server).follows(old(server)),
            size * size > usize::MAX ==> result is Err && result->Err_0 == TensorError::TooLarge,
            result matches Ok(matrix) ==> {
                &&& size * size <= usize::MAX
                &&& matrix.shapes() == Seq::new(4, |i: int| Shape::D2(size, size))
                &&& matrix.recipes() == Seq::new(
                    4,
                    |i: int|
                        Recipe::Upload(
                            Shape::D2(size, size),
                            Seq::new((size * size) as nat, |k: int| fill_with),
                        ),
                )
                &&& final(server).is_acquired()
            },
            result matches Err(e) ==> is_device_error(e) && (e
                == TensorError::DeviceAcquisitionFailure ==> !final(server).is_acquired()),
    {
        let count = match size.checked_mul(size) {
            Some(count) => count,
            None => {
                return Err(TensorError::TooLarge);
            },
        };
        let shape = Shape::D2(size, size);
        let values = vec![fill_with; count];
        assert(values@ =~= Seq::new((size * size) as nat, |k: int| fill_with));
        let b11 = RawGf32::new_init(shape, &values, None, server)?;
        let b12 = RawGf32::new_init(shape, &values, None, server)?;
        let b21 = RawGf32::new_init(shape, &values, None, server)?;
        let b22 = RawGf32::new_init(shape, &values, None, server)?;
        let matrix = Strassen4 { bodys: [b11, b12, b21, b22] };
        assert(matrix.shapes() =~= Seq::new(4, |i: int| Shape::D2(size, size)));
        assert(matrix.recipes() =~= Seq::new(
            4,
            |i: int|
                Recipe::Upload(
                    Shape::D2(size, size),
                    Seq::new((size * size) as nat, |k: int| fill_with),
                ),
        ));
        Ok(matrix)
    }

    /// The seven products of the scheme, for operands that the scheme accepts.
    fn products(&self, other: &Strassen4, server: &mut WgpuServer) -> (result: Result<
        [RawGf32; 7],
        TensorError,
    >)
        requires
            strassen_plan_spec(
                self.shapes(),
                other.shapes(),
                Tiles::spec_of(old(server).kernels()),
            ) is Ok,
            kernels_fit_spec(old(server).kernels()),
        ensures
            final(server).follows(old(server)),
            result matches Ok(p) ==> {
                &&& forall|k: int|
                    0 <= k < 7 ==> (#[trigger] p@[k]).recipe() == strassen_products(
                        self.recipes(),
                        other.recipes(),
                    )[k]
                &&& forall|k: int|
                    0 <= k < 7 ==> (#[trigger] p@[k]).spec_shape() == strassen_plan_spec(
                        self.shapes(),
                        other.shapes(),
                        Tiles::spec_of(old(server).kernels()),
                    )->Ok_0
                &&& final(server).is_acquired()
                &&& final(server).launches().len() == old(server).launches().len() + 17
            },
            result matches Err(e) ==> is_device_error(e) && (e
                == TensorError::DeviceAcquisitionFailure ==> !final(server).is_acquired()),
    {
        let a11 = &self.bodys[0];
        let a12 = &self.bodys[1];
        let a21 = &self.bodys[2];
        let a22 = &self.bodys[3];
        let b11 = &other.bodys[0];
        let b12 = &other.bodys[1];
        let b21 = &other.bodys[2];
        let b22 = &other.bodys[3];
        proof {
            assert(self.shapes()[0] == a11.spec_shape());
            assert(self.shapes()[1] == a12.spec_shape());
            assert(self.shapes()[2] == a21.spec_shape());
            assert(self.shapes()[3] == a22.spec_shape());
            assert(other.shapes()[0] == b11.spec_shape());
            assert(other.shapes()[1] == b12.spec_shape());
            assert(other.shapes()[2] == b21.spec_shape());
            assert(other.shapes()[3] == b22.spec_shape());
        }
        let m1 = product(&sum(a11, a22, server)?, &sum(b11, b22, server)?, server)?;
        let m2 = product(&sum(a21, a22, server)?, b11, server)?;
        let m3 = product(a11, &difference(b12, b22, server)?, server)?;
        let m4 = product(a22, &difference(b21, b11, server)?, server)?;
        let m5 = product(&sum(a11, a12, server)?, b22, server)?;
        let m6 = product(&difference(a21, a11, server)?, &sum(b11, b12, server)?, server)?;
        let m7 = product(&difference(a12, a22, server)?, &sum(b21, b22, server)?, server)?;
        Ok([m1, m2, m3, m4, m5, m6, m7])
    }

    /// The four blocks of the result from the seven products, all of which
    /// have the shape `shape`, on which sums and differences are accepted.
    fn combine(p: &[RawGf32; 7], Ghost(shape): Ghost<Shape>, server: &mut WgpuServer) -> (result:
        Result<Strassen4, TensorError>)
        requires
            forall|k: int| 0 <= k < 7 ==> (#[trigger] p@[k]).spec_shape() == shape,
            elementwise_plan_spec(shape, shape, old(server).kernels().add.tile) is Ok,
            elementwise_plan_spec(shape, shape, old(server).kernels().sub.tile) is Ok,
            kernels_fit_spec(old(server).kernels()),
        ensures
            final(server).follows(old(server)),
            result matches Ok(c) ==> {
                &&& c.shapes() == Seq::new(4, |i: int| shape)
                &&& c.recipes() == seq![
                    sum_of(
                        difference_of(sum_of(p@[0].recipe(), p@[3].recipe()), p@[4].recipe()),
                        p@[6].recipe(),
                    ),
                    sum_of(p@[2].recipe(), p@[4].recipe()),
                    sum_of(p@[1].recipe(), p@[3].recipe()),
                    sum_of(
                        difference_of(sum_of(p@[0].recipe(), p@[2].recipe()), p@[1].recipe()),
                        p@[5].recipe(),
                    ),
                ]
                &&& final(server).is_acquired()
                &&& final(server).launches().len() == old(server).launches().len() + 8
            },
            result matches Err(e) ==> is_device_error(e) && (e
                == TensorError::DeviceAcquisitionFailure ==> !final(server).is_acquired()),
    {
        let m1 = &p[0];
        let m2 = &p[1];
        let m3 = &p[2];
        let m4 = &p[3];
        let m5 = &p[4];
        let m6 = &p[5];
        let m7 = &p[6];
        let c11 = sum(&difference(&sum(m1, m4, server)?, m5, server)?, m7, server)?;
        let c12 = sum(m3, m5, server)?;
        let c21 = sum(m2, m4, server)?;
        let c22 = sum(&difference(&sum(m1, m3, server)?, m2, server)?, m6, server)?;
        let c = Strassen4 { bodys: [c11, c12, c21, c22] };
        assert(c.shapes() =~= Seq::new(4, |i: int| shape));
        assert(c.recipes() =~= seq![
            sum_of(
                difference_of(sum_of(p@[0].recipe(), p@[3].recipe()), p@[4].recipe()),
                p@[6].recipe(),
            ),
            sum_of(p@[2].recipe(), p@[4].recipe()),
            sum_of(p@[1].recipe(), p@[3].recipe()),
            sum_of(
                difference_of(sum_of(p@[0].recipe(), p@[2].recipe()), p@[1].recipe()),
                p@[5].recipe(),
            ),
        ]);
        Ok(c)
    }

    /// The product of this matrix and `other` by Strassen's scheme, as four
    /// new blocks.
    ///
    /// The shapes are checked first, by [`strassen_plan_spec`] with the tile
    /// edges of the session's kernels: operands that it refuses fail with its
    /// error and the device is not touched. Nor is it where one of the
    /// kernels declares another number of resources than its operation
    /// binds. Then the seven products and the
    /// four blocks are asked of the device, each sum, difference and product
    /// by one call of [`RawGf32::add`], [`RawGf32::sub`] or
    /// [`RawGf32::matmul`]: seven products and eighteen sums and differences,
    /// twenty-five launches in all. The recipes of the blocks are exactly
    /// those of [`strassen_blocks`].
    pub fn matmul(&self, other: &Strassen4, server: &mut WgpuServer) -> (result: Result<
        Strassen4,
        TensorError,
    >)
        ensures
            final(server).follows(old(server)),
            strassen_plan_spec(
                self.shapes(),
                other.shapes(),
                Tiles::spec_of(old(server).kernels()),
            ) matches Err(refusal) ==> result is Err && result->Err_0 == refusal && *final(server)
                == *old(server),
            strassen_plan_spec(
                self.shapes(),
                other.shapes(),
                Tiles::spec_of(old(server).kernels()),
            ) is Ok && !kernels_fit_spec(old(server).kernels()) ==> result is Err && result->Err_0
                == TensorError::BindingMismatch && *final(server) == *old(server),
            result matches Ok(c) ==> {
                &&& kernels_fit_spec(old(server).kernels())
                &&& strassen_plan_spec(
                    self.shapes(),
                    other.shapes(),
                    Tiles::spec_of(old(server).kernels()),
                ) matches Ok(shape)
                &&& c.shapes() == Seq::new(4, |i: int| shape)
                &&& c.recipes() == strassen_blocks(self.recipes(), other.recipes())
                &&& final(server).is_acquired()
                &&& final(server).launches().len() == old(server).launches().len() + 25
            },
            forall|q: int|
                0 <= q < 4 ==> (#[trigger] self.recipes()[q]).shape() == self.shapes()[q],
            forall|q: int|
                0 <= q < 4 ==> (#[trigger] other.recipes()[q]).shape() == other.shapes()[q],
            result matches Err(e) ==> strassen_plan_spec(
                self.shapes(),
                other.shapes(),
                Tiles::spec_of(old(server).kernels()),
            ) is Ok && kernels_fit_spec(old(server).kernels()) ==> is_device_error(e) && (e
                == TensorError::DeviceAcquisitionFailure ==> !final(server).is_acquired()),
    {
        let tiles = Tiles::of(server.kernel_set());
        let a = [
            self.bodys[0].shape(),
            self.bodys[1].shape(),
            self.bodys[2].shape(),
            self.bodys[3].shape(),
        ];
        let b = [
            other.bodys[0].shape(),
            other.bodys[1].shape(),
            other.bodys[2].shape(),
            other.bodys[3].shape(),
        ];
        assert(a@ =~= self.shapes());
        assert(b@ =~= other.shapes());
        assert forall|q: int| 0 <= q < 4 implies (#[trigger] self.recipes()[q]).shape()
            == self.shapes()[q] by {
            assert(q == 0 || q == 1 || q == 2 || q == 3);
        }
        assert forall|q: int| 0 <= q < 4 implies (#[trigger] other.recipes()[q]).shape()
            == other.shapes()[q] by {
            assert(q == 0 || q == 1 || q == 2 || q == 3);
        }
        let shape = strassen_plan(&a, &b, tiles)?;
        if !kernels_fit(server.kernel_set()) {
            return Err(TensorError::BindingMismatch);
        }
        let p = self.products(other, server)?;
        let c = Strassen4::combine(&p, Ghost(shape), server)?;
        assert(c.recipes() =~= strassen_blocks(self.recipes(), other.recipes()));
        Ok(c)
    }
}

} // verus!
