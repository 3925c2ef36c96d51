//! Tensors: 2-D matrices of 32-bit floats resident in device memory, and the
//! three operations that make new tensors from old ones.
//!
//! The library handles the elements as 32-bit words, the bit patterns of the
//! floats; it never computes with them itself.

use crate::error::TensorError;
use crate::gpu::{
    buffer_role, buffer_size, initial_words, label_text, own_label, BufferRole, CopyOut,
    GpuBuffer, Launch,
};
use crate::kernel::{
    cache_key, declared_slots, declared_slots_spec, text_hash, Kernel, ENTRY_POINT,
};
use crate::matrix::Recipe;
use crate::plan::{
    elementwise_plan, elementwise_plan_spec, matmul_plan, matmul_plan_spec, ElementwisePlan,
    MatmulPlan,
};
use crate::server::{
    create_buffer, create_buffer_init, is_launch_of, one_more, slots_upto, WgpuServer,
};
use crate::shape::Shape;
use vstd::prelude::*;

verus! {

/// The label given to the dimension buffer of a product.
pub const SIZES_LABEL: &'static str = "sizes info";

/// The label given to the output of a product.
pub const MATMUL_LABEL: &'static str = "result";

/// The label given to the output of a sum.
pub const ADD_LABEL: &'static str = "add out";

/// The label given to the output of a difference.
pub const SUB_LABEL: &'static str = "sub out";

/// The byte size of the dimension buffer of a product: three 32-bit counters.
pub const SIZES_BYTES: usize = 12;

/// A matrix in device memory. It owns its buffer, whose size is always four
/// bytes per element of the shape, and no operation changes it.
pub struct RawGf32 {
    label: Option<String>,
    shape: Shape,
    buffer: GpuBuffer,
    recipe: Ghost<Recipe>,
}

impl RawGf32 {
    #[verifier::type_invariant]
    spec fn inv(&self) -> bool {
        &&& self.shape.spec_bytes() <= usize::MAX
        &&& self.buffer.spec_size() == self.shape.spec_bytes()
        &&& self.recipe@.shape() == self.shape
        &&& self.recipe@.well_shaped()
    }

    /// The shape of the tensor.
    pub closed spec fn spec_shape(&self) -> Shape {
        self.shape
    }

    /// The label of the tensor, if it has one.
    pub closed spec fn spec_label(&self) -> Option<Seq<char>> {
        match self.label {
            Some(text) => Some(text@),
            None => None,
        }
    }

    /// The device buffer of the tensor.
    pub closed spec fn spec_buffer(&self) -> GpuBuffer {
        self.buffer
    }

    /// How the tensor came to be.
    pub closed spec fn recipe(&self) -> Recipe {
        self.recipe@
    }

    /// The shape of the tensor.
    pub fn shape(&self) -> (shape: Shape)
        ensures
            shape == self.spec_shape(),
            shape.spec_bytes() <= usize::MAX,
            self.recipe().shape() == shape,
            self.recipe().well_shaped(),
    {
        proof {
            use_type_invariant(self);
        }
        self.shape
    }

    /// The label of the tensor, if it has one.
    pub fn label(&self) -> (label: Option<&str>)
        ensures
            label_text(label) == self.spec_label(),
    {
        match &self.label {
            Some(text) => Some(text.as_str()),
            None => None,
        }
    }

    /// The device buffer of the tensor.
    pub fn buffer(&self) -> (buffer: &GpuBuffer)
        ensures
            *buffer == self.spec_buffer(),
            buffer.spec_size() == self.spec_shape().spec_bytes(),
    {
        proof {
            use_type_invariant(self);
        }
        &self.buffer
    }

    /// A tensor of the given shape in device memory that nothing has written
    /// yet: the output of an operation to come.
    pub fn _new_empty(shape: Shape, label: Option<&str>, server: &mut WgpuServer) -> (result: Result<
        RawGf32,
        TensorError,
    >)
        ensures
            final(server).rests_on(old(server)),
            shape.spec_bytes() > usize::MAX ==> result is Err && result->Err_0
                == TensorError::TooLarge && *final(server) == *old(server),
            result matches Ok(tensor) ==> {
                &&& tensor.spec_shape() == shape
                &&& tensor.spec_label() == label_text(label)
                &&& tensor.recipe() == Recipe::Blank(shape)
                &&& tensor.spec_buffer().spec_size() == shape.spec_bytes()
                &&& tensor.spec_buffer().spec_role() == BufferRole::Output
                &&& tensor.spec_buffer().spec_label() == label_text(label)
                &&& final(server).is_acquired()
                &&& final(server).limits().admits(shape.spec_bytes())
            },
            result matches Err(e) ==> {
                &&& e == TensorError::DeviceAcquisitionFailure || e == TensorError::TooLarge || e
                    == TensorError::DeviceRejected
                &&& e == TensorError::DeviceAcquisitionFailure ==> !final(server).is_acquired()
                &&& e == TensorError::TooLarge <==> shape.spec_bytes() > usize::MAX || (final(server).is_acquired() && !final(server).limits().admits(shape.spec_bytes()))
            },
    {
        let size = match shape.checked_bytes() {
            Some(size) => size,
            None => {
                return Err(TensorError::TooLarge);
            },
        };
        let buffer = match create_buffer(size, label, server) {
            Ok(buffer) => buffer,
            Err(e) => {
                return Err(e);
            },
        };
        Ok(RawGf32 { label: own_label(label), shape, buffer, recipe: Ghost(Recipe::Blank(shape)) })
    }

    /// A tensor of the given shape holding `values`, row by row. There must
    /// be exactly as many values as the shape has elements.
    pub fn new_init(shape: Shape, values: &Vec<u32>, label: Option<&str>, server: &mut WgpuServer) -> (result:
        Result<RawGf32, TensorError>)
        ensures
            final(server).rests_on(old(server)),
            values@.len() != shape.spec_size() ==> result is Err && result->Err_0
                == TensorError::ShapeMismatch && *final(server) == *old(server),
            result matches Ok(tensor) ==> {
                &&& values@.len() == shape.spec_size()
                &&& tensor.spec_shape() == shape
                &&& tensor.spec_label() == label_text(label)
                &&& tensor.recipe() == Recipe::Upload(shape, values@)
                &&& tensor.spec_buffer().spec_size() == shape.spec_bytes()
                &&& tensor.spec_buffer().spec_role() == BufferRole::Input
                &&& tensor.spec_buffer().spec_label() == label_text(label)
                &&& tensor.spec_buffer().words() == values@
                &&& final(server).is_acquired()
                &&& final(server).limits().admits(shape.spec_bytes())
            },
            result matches Err(e) ==> {
                &&& e == TensorError::ShapeMismatch || e == TensorError::DeviceAcquisitionFailure
                    || e == TensorError::TooLarge || e == TensorError::DeviceRejected
                &&& e == TensorError::ShapeMismatch <==> values@.len() != shape.spec_size()
                &&& e == TensorError::DeviceAcquisitionFailure ==> !final(server).is_acquired()
                &&& e == TensorError::TooLarge <==> values@.len() == shape.spec_size() && final(server).is_acquired() && !final(server).limits().admits(shape.spec_bytes())
            },
    {
        let given = values.len();
        match shape.checked_size() {
            Some(count) => {
                if count != given {
                    return Err(TensorError::ShapeMismatch);
                }
            },
            None => {
                return Err(TensorError::ShapeMismatch);
            },
        }
        let buffer = match create_buffer_init(values, label, server) {
            Ok(buffer) => buffer,
            Err(e) => {
                return Err(e);
            },
        };
        Ok(
            RawGf32 {
                label: own_label(label),
                shape,
                buffer,
                recipe: Ghost(Recipe::Upload(shape, values@)),
            },
        )
    }

    /// The size of the tensor's buffer in bytes: four per element.
    pub fn size(&self) -> (bytes: usize)
        ensures
            bytes == self.spec_shape().spec_bytes(),
    {
        proof {
            use_type_invariant(self);
        }
        self.shape.size() * 4
    }
}

/// Whether `launch` is the launch of a product: the kernel at the entry point
/// `main`, over the left operand in slot 0, the right operand in slot 1, the
/// output in slot 2 and, in slot 3, a buffer created with the three words
/// rows, shared dimension, columns; on the grid of the plan. The kernel is
/// known by the hash of its source text.
pub open spec fn is_matmul_launch(
    launch: Launch,
    kernel: Kernel,
    left: GpuBuffer,
    right: GpuBuffer,
    out: GpuBuffer,
    plan: MatmulPlan,
) -> bool {
    &&& text_hash(launch.source) == text_hash(kernel.source@)
    &&& launch.entry_point == ENTRY_POINT@
    &&& launch.grid == plan.grid
    &&& launch.slots == slots_upto(4)
    &&& launch.buffers.len() == 4
    &&& launch.buffers[0] == left.raw()
    &&& launch.buffers[1] == right.raw()
    &&& launch.buffers[2] == out.raw()
    &&& initial_words(&launch.buffers[3]) == seq![plan.rows, plan.inner, plan.cols]
    &&& buffer_size(&launch.buffers[3]) == SIZES_BYTES
    &&& buffer_role(&launch.buffers[3]) == BufferRole::Input
}

/// Whether `launch` is the launch of a sum or a difference: the kernel at
/// the entry point `main`, over the left operand in slot 0, the right
/// operand in slot 1 and the output in slot 2; on the grid of the plan.
pub open spec fn is_elementwise_launch(
    launch: Launch,
    kernel: Kernel,
    left: GpuBuffer,
    right: GpuBuffer,
    out: GpuBuffer,
    plan: ElementwisePlan,
) -> bool {
    is_launch_of(
        launch,
        text_hash(kernel.source@),
        ENTRY_POINT@,
        seq![left.raw(), right.raw(), out.raw()],
        plan.grid,
    )
}

/// Whether `e` is one of the three errors with which the device side of an
/// operation fails: no device, a buffer over the device's limits, or a
/// request that the device reported as faulty.
pub open spec fn is_device_error(e: TensorError) -> bool {
    e == TensorError::DeviceAcquisitionFailure || e == TensorError::TooLarge || e
        == TensorError::DeviceRejected
}

impl RawGf32 {
    /// The product of this matrix and `other`, as a new tensor.
    ///
    /// The shapes are checked first, by [`matmul_plan_spec`] with the tile edge
    /// of the session's product kernel: a product that it refuses fails with
    /// its error and the device is not touched; nor is it where the kernel
    /// does not declare four resources. Then the three dimensions are
    /// uploaded as 32-bit counters, the output is allocated, and the kernel is
    /// launched over left operand, right operand, output and dimensions, on
    /// the planned grid. The call does not wait for the device.
    pub fn matmul(&self, other: &RawGf32, server: &mut WgpuServer) -> (result: Result<
        RawGf32,
        TensorError,
    >)
        ensures
            final(server).follows(old(server)),
            matmul_plan_spec(
                self.spec_shape(),
                other.spec_shape(),
                old(server).kernels().matmul.tile,
            ) is Ok && declared_slots_spec(old(server).kernels().matmul.source@) != 4 ==> result is Err && result->Err_0
                == TensorError::BindingMismatch && *final(server) == *old(server),
            matmul_plan_spec(
                self.spec_shape(),
                other.spec_shape(),
                old(server).kernels().matmul.tile,
            ) matches Err(refusal) ==> result is Err && result->Err_0 == refusal && *final(server)
                == *old(server),
            (result is Err && result->Err_0 == TensorError::IncompatibleShape)
                <==> self.spec_shape().spec_cols() != other.spec_shape().spec_rows(),
            result matches Ok(product) ==> {
                &&& matmul_plan_spec(
                    self.spec_shape(),
                    other.spec_shape(),
                    old(server).kernels().matmul.tile,
                ) matches Ok(plan)
                &&& product.spec_shape() == plan.out
                &&& product.spec_label() == Some(MATMUL_LABEL@)
                &&& product.recipe() == Recipe::Matmul(
                    Box::new(self.recipe()),
                    Box::new(other.recipe()),
                )
                &&& product.spec_buffer().spec_role() == BufferRole::Output
                &&& final(server).is_acquired()
                &&& final(server).limits().admits(plan.out_bytes as nat)
                &&& product.spec_buffer().spec_size() == plan.out_bytes
                &&& one_more(final(server).launches(), old(server).launches())
                &&& is_matmul_launch(
                    final(server).launches().last(),
                    old(server).kernels().matmul,
                    self.spec_buffer(),
                    other.spec_buffer(),
                    product.spec_buffer(),
                    plan,
                )
            },
            result is Err ==> final(server).launches() == old(server).launches() || one_more(
                final(server).launches(),
                old(server).launches(),
            ),
            final(server).copies() == old(server).copies(),
            old(server).cache_keys().contains(
                cache_key(old(server).kernels().matmul.name@, old(server).kernels().matmul.source@),
            ) ==> final(server).cache_keys() == old(server).cache_keys(),
            result matches Err(e) ==> matmul_plan_spec(
                self.spec_shape(),
                other.spec_shape(),
                old(server).kernels().matmul.tile,
            ) matches Ok(plan) ==> {
                &&& is_device_error(e) || e == TensorError::BindingMismatch
                &&& e == TensorError::BindingMismatch <==> declared_slots_spec(old(server).kernels().matmul.source@) != 4
                &&& e == TensorError::DeviceAcquisitionFailure ==> !final(server).is_acquired()
                &&& e == TensorError::TooLarge ==> final(server).is_acquired() && !(final(server).limits().admits(SIZES_BYTES as nat) && final(server).limits().admits(
                    plan.out_bytes as nat,
                ))
            },
    {
        proof {
            use_type_invariant(self);
            use_type_invariant(other);
        }
        let kernel = &server.kernel_set().matmul;
        let tile = kernel.tile;
        let plan = match matmul_plan(self.shape, other.shape, tile) {
            Ok(plan) => plan,
            Err(e) => {
                return Err(e);
            },
        };
        if declared_slots(kernel.source.as_str()) != 4 {
            return Err(TensorError::BindingMismatch);
        }
        let name = kernel.name.clone();
        let source = kernel.source.clone();
        let mut sizes_info: Vec<u32> = Vec::new();
        sizes_info.push(plan.rows);
        sizes_info.push(plan.inner);
        sizes_info.push(plan.cols);
        assert(sizes_info@ =~= seq![plan.rows, plan.inner, plan.cols]);
        let size_info_buffer = match create_buffer_init(&sizes_info, Some(SIZES_LABEL), server) {
            Ok(buffer) => buffer,
            Err(e) => {
                return Err(e);
            },
        };
        let blank = match RawGf32::_new_empty(plan.out, Some(MATMUL_LABEL), server) {
            Ok(blank) => blank,
            Err(e) => {
                return Err(e);
            },
        };
        match server.execute_4(
            &self.buffer,
            &other.buffer,
            &blank.buffer,
            &size_info_buffer,
            name.as_str(),
            source.as_str(),
            (plan.grid.x, plan.grid.y, plan.grid.z),
        ) {
            Ok(()) => {},
            Err(e) => {
                return Err(e);
            },
        }
        proof {
            use_type_invariant(&blank);
        }
        Ok(
            RawGf32 {
                label: blank.label,
                shape: blank.shape,
                buffer: blank.buffer,
                recipe: Ghost(Recipe::Matmul(Box::new(self.recipe@), Box::new(other.recipe@))),
            },
        )
    }

    /// What [`RawGf32::add`] and [`RawGf32::sub`] share: the shapes are
    /// checked by [`elementwise_plan_spec`] with the tile edge of the kernel,
    /// the output is allocated, and the kernel is launched over left operand,
    /// right operand and output, on the planned grid.
    fn combine(&self, other: &RawGf32, sum: bool, server: &mut WgpuServer) -> (result: Result<
        RawGf32,
        TensorError,
    >)
        ensures
            final(server).follows(old(server)),
            elementwise_plan_spec(
                self.spec_shape(),
                other.spec_shape(),
                combine_tile(old(server), sum),
            ) is Ok && declared_slots_spec(combine_kernel(old(server), sum).source@) != 3 ==> result is Err && result->Err_0
                == TensorError::BindingMismatch && *final(server) == *old(server),
            elementwise_plan_spec(
                self.spec_shape(),
                other.spec_shape(),
                combine_tile(old(server), sum),
            ) matches Err(refusal) ==> result is Err && result->Err_0 == refusal && *final(server)
                == *old(server),
            result matches Ok(out) ==> {
                &&& elementwise_plan_spec(
                    self.spec_shape(),
                    other.spec_shape(),
                    combine_tile(old(server), sum),
                ) is Ok
                &&& out.spec_shape() == self.spec_shape()
                &&& out.spec_label() == Some(
                    if sum {
                        ADD_LABEL@
                    } else {
                        SUB_LABEL@
                    },
                )
                &&& out.recipe() == if sum {
                    Recipe::Add(Box::new(self.recipe()), Box::new(other.recipe()))
                } else {
                    Recipe::Sub(Box::new(self.recipe()), Box::new(other.recipe()))
                }
                &&& out.spec_buffer().spec_role() == BufferRole::Output
                &&& final(server).is_acquired()
                &&& final(server).limits().admits(self.spec_shape().spec_bytes())
                &&& out.spec_buffer().spec_size() == self.spec_shape().spec_bytes()
                &&& one_more(final(server).launches(), old(server).launches())
                &&& is_elementwise_launch(
                    final(server).launches().last(),
                    if sum {
                        old(server).kernels().add
                    } else {
                        old(server).kernels().sub
                    },
                    self.spec_buffer(),
                    other.spec_buffer(),
                    out.spec_buffer(),
                    elementwise_plan_spec(
                        self.spec_shape(),
                        other.spec_shape(),
                        combine_tile(old(server), sum),
                    )->Ok_0,
                )
            },
            result is Err ==> final(server).launches() == old(server).launches() || one_more(
                final(server).launches(),
                old(server).launches(),
            ),
            final(server).copies() == old(server).copies(),
            old(server).cache_keys().contains(
                if sum {
                    cache_key(old(server).kernels().add.name@, old(server).kernels().add.source@)
                } else {
                    cache_key(old(server).kernels().sub.name@, old(server).kernels().sub.source@)
                },
            ) ==> final(server).cache_keys() == old(server).cache_keys(),
            result matches Err(e) ==> elementwise_plan_spec(
                self.spec_shape(),
                other.spec_shape(),
                combine_tile(old(server), sum),
            ) is Ok ==> {
                &&& is_device_error(e) || e == TensorError::BindingMismatch
                &&& e == TensorError::BindingMismatch <==> declared_slots_spec(combine_kernel(old(server), sum).source@) != 3
                &&& e == TensorError::DeviceAcquisitionFailure ==> !final(server).is_acquired()
                &&& e == TensorError::TooLarge ==> final(server).is_acquired() && !final(server).limits().admits(self.spec_shape().spec_bytes())
            },
    {
        proof {
            use_type_invariant(self);
            use_type_invariant(other);
        }
        let kernel = if sum {
            &server.kernel_set().add
        } else {
            &server.kernel_set().sub
        };
        let plan = match elementwise_plan(self.shape, other.shape, kernel.tile) {
            Ok(plan) => plan,
            Err(e) => {
                return Err(e);
            },
        };
        if declared_slots(kernel.source.as_str()) != 3 {
            return Err(TensorError::BindingMismatch);
        }
        let name = kernel.name.clone();
        let source = kernel.source.clone();
        let label = if sum {
            ADD_LABEL
        } else {
            SUB_LABEL
        };
        let blank = match RawGf32::_new_empty(plan.out, Some(label), server) {
            Ok(blank) => blank,
            Err(e) => {
                return Err(e);
            },
        };
        match server.execute_3(
            &self.buffer,
            &other.buffer,
            &blank.buffer,
            name.as_str(),
            source.as_str(),
            (plan.grid.x, plan.grid.y, plan.grid.z),
        ) {
            Ok(()) => {},
            Err(e) => {
                return Err(e);
            },
        }
        proof {
            use_type_invariant(&blank);
        }
        let ghost recipe = if sum {
            Recipe::Add(Box::new(self.recipe@), Box::new(other.recipe@))
        } else {
            Recipe::Sub(Box::new(self.recipe@), Box::new(other.recipe@))
        };
        Ok(
            RawGf32 {
                label: blank.label,
                shape: blank.shape,
                buffer: blank.buffer,
                recipe: Ghost(recipe),
            },
        )
    }

    /// The elementwise sum of this matrix and `other`, as a new tensor.
    ///
    /// The shapes are checked first, by [`elementwise_plan_spec`] with the
    /// tile edge of the session's sum kernel: a sum that it refuses fails with
    /// its error and the device is not touched. Nor is it where the kernel
    /// does not declare three resources. The call does not wait for
    /// the device.
    pub fn add(&self, other: &RawGf32, server: &mut WgpuServer) -> (result: Result<
        RawGf32,
        TensorError,
    >)
        ensures
            final(server).follows(old(server)),
            elementwise_plan_spec(
                self.spec_shape(),
                other.spec_shape(),
                old(server).kernels().add.tile,
            ) is Ok && declared_slots_spec(old(server).kernels().add.source@) != 3 ==> result is Err && result->Err_0
                == TensorError::BindingMismatch && *final(server) == *old(server),
            elementwise_plan_spec(
                self.spec_shape(),
                other.spec_shape(),
                old(server).kernels().add.tile,
            ) matches Err(refusal) ==> result is Err && result->Err_0 == refusal && *final(server)
                == *old(server),
            (result is Err && result->Err_0 == TensorError::ShapeMismatch) <==> self.spec_shape()
                != other.spec_shape(),
            result matches Ok(out) ==> {
                &&& elementwise_plan_spec(
                    self.spec_shape(),
                    other.spec_shape(),
                    old(server).kernels().add.tile,
                ) is Ok
                &&& out.spec_shape() == self.spec_shape()
                &&& out.spec_label() == Some(ADD_LABEL@)
                &&& out.recipe() == Recipe::Add(Box::new(self.recipe()), Box::new(other.recipe()))
                &&& out.spec_buffer().spec_role() == BufferRole::Output
                &&& final(server).is_acquired()
                &&& final(server).limits().admits(self.spec_shape().spec_bytes())
                &&& out.spec_buffer().spec_size() == self.spec_shape().spec_bytes()
                &&& one_more(final(server).launches(), old(server).launches())
                &&& is_elementwise_launch(
                    final(server).launches().last(),
                    old(server).kernels().add,
                    self.spec_buffer(),
                    other.spec_buffer(),
                    out.spec_buffer(),
                    elementwise_plan_spec(
                        self.spec_shape(),
                        other.spec_shape(),
                        old(server).kernels().add.tile,
                    )->Ok_0,
                )
            },
            result is Err ==> final(server).launches() == old(server).launches() || one_more(
                final(server).launches(),
                old(server).launches(),
            ),
            final(server).copies() == old(server).copies(),
            old(server).cache_keys().contains(
                cache_key(old(server).kernels().add.name@, old(server).kernels().add.source@),
            ) ==> final(server).cache_keys() == old(server).cache_keys(),
            result matches Err(e) ==> elementwise_plan_spec(
                self.spec_shape(),
                other.spec_shape(),
                old(server).kernels().add.tile,
            ) is Ok ==> {
                &&& is_device_error(e) || e == TensorError::BindingMismatch
                &&& e == TensorError::BindingMismatch <==> declared_slots_spec(old(server).kernels().add.source@) != 3
                &&& e == TensorError::DeviceAcquisitionFailure ==> !final(server).is_acquired()
                &&& e == TensorError::TooLarge ==> final(server).is_acquired() && !final(server).limits().admits(self.spec_shape().spec_bytes())
            },
    {
        self.combine(other, true, server)
    }

    /// The elementwise difference of this matrix and `other`, as a new tensor.
    ///
    /// The shapes are checked first, by [`elementwise_plan_spec`] with the
    /// tile edge of the session's difference kernel: a difference that it
    /// refuses fails with its error and the device is not touched. Nor is it
    /// where the kernel does not declare three resources. The call
    /// does not wait for the device.
    pub fn sub(&self, other: &RawGf32, server: &mut WgpuServer) -> (result: Result<
        RawGf32,
        TensorError,
    >)
        ensures
            final(server).follows(old(server)),
            elementwise_plan_spec(
                self.spec_shape(),
                other.spec_shape(),
                old(server).kernels().sub.tile,
            ) is Ok && declared_slots_spec(old(server).kernels().sub.source@) != 3 ==> result is Err && result->Err_0
                == TensorError::BindingMismatch && *final(server) == *old(server),
            elementwise_plan_spec(
                self.spec_shape(),
                other.spec_shape(),
                old(server).kernels().sub.tile,
            ) matches Err(refusal) ==> result is Err && result->Err_0 == refusal && *final(server)
                == *old(server),
            (result is Err && result->Err_0 == TensorError::ShapeMismatch) <==> self.spec_shape()
                != other.spec_shape(),
            result matches Ok(out) ==> {
                &&& elementwise_plan_spec(
                    self.spec_shape(),
                    other.spec_shape(),
                    old(server).kernels().sub.tile,
                ) is Ok
                &&& out.spec_shape() == self.spec_shape()
                &&& out.spec_label() == Some(SUB_LABEL@)
                &&& out.recipe() == Recipe::Sub(Box::new(self.recipe()), Box::new(other.recipe()))
                &&& out.spec_buffer().spec_role() == BufferRole::Output
                &&& final(server).is_acquired()
                &&& final(server).limits().admits(self.spec_shape().spec_bytes())
                &&& out.spec_buffer().spec_size() == self.spec_shape().spec_bytes()
                &&& one_more(final(server).launches(), old(server).launches())
                &&& is_elementwise_launch(
                    final(server).launches().last(),
                    old(server).kernels().sub,
                    self.spec_buffer(),
                    other.spec_buffer(),
                    out.spec_buffer(),
                    elementwise_plan_spec(
                        self.spec_shape(),
                        other.spec_shape(),
                        old(server).kernels().sub.tile,
                    )->Ok_0,
                )
            },
            result is Err ==> final(server).launches() == old(server).launches() || one_more(
                final(server).launches(),
                old(server).launches(),
            ),
            final(server).copies() == old(server).copies(),
            old(server).cache_keys().contains(
                cache_key(old(server).kernels().sub.name@, old(server).kernels().sub.source@),
            ) ==> final(server).cache_keys() == old(server).cache_keys(),
            result matches Err(e) ==> elementwise_plan_spec(
                self.spec_shape(),
                other.spec_shape(),
                old(server).kernels().sub.tile,
            ) is Ok ==> {
                &&& is_device_error(e) || e == TensorError::BindingMismatch
                &&& e == TensorError::BindingMismatch <==> declared_slots_spec(old(server).kernels().sub.source@) != 3
                &&& e == TensorError::DeviceAcquisitionFailure ==> !final(server).is_acquired()
                &&& e == TensorError::TooLarge ==> final(server).is_acquired() && !final(server).limits().admits(self.spec_shape().spec_bytes())
            },
    {
        self.combine(other, false, server)
    }

    /// The elements of the tensor, row by row, as the device holds them once
    /// everything submitted so far has run. This is the one call that waits
    /// for the device.
    pub fn read_back(&self, server: &mut WgpuServer) -> (result: Result<Vec<u32>, TensorError>)
        ensures
            final(server).follows(old(server)),
            final(server).cache_keys() == old(server).cache_keys(),
            final(server).launches() == old(server).launches(),
            WgpuServer::was_copied(result, self.spec_shape().spec_bytes()) ==> final(server).copies() == old(server).copies().push(
                CopyOut {
                    source: self.spec_buffer().raw(),
                    bytes: self.spec_shape().spec_bytes(),
                    after: old(server).launches().len(),
                },
            ),
            !WgpuServer::was_copied(result, self.spec_shape().spec_bytes()) ==> final(server).copies() == old(server).copies(),
            result matches Ok(words) ==> words@.len() == self.spec_shape().spec_size(),
            result is Ok && self.spec_shape().spec_size() > 0 ==> final(server).is_acquired(),
            self.spec_shape().spec_size() == 0 ==> result is Ok,
            result matches Err(e) ==> {
                &&& e == TensorError::DeviceAcquisitionFailure || e == TensorError::DeviceRejected
                    || e == TensorError::MappingFailure
                &&& e == TensorError::DeviceAcquisitionFailure ==> !final(server).is_acquired()
                &&& e == TensorError::MappingFailure ==> final(server).is_acquired()
            },
    {
        proof {
            use_type_invariant(self);
        }
        server.get(&self.buffer)
    }
}

/// The kernel that a sum or a difference is launched with.
pub open spec fn combine_kernel(server: &WgpuServer, sum: bool) -> Kernel {
    if sum {
        server.kernels().add
    } else {
        server.kernels().sub
    }
}

/// The tile edge of the kernel that a sum or a difference is launched with.
pub open spec fn combine_tile(server: &WgpuServer, sum: bool) -> u32 {
    if sum {
        server.kernels().add.tile
    } else {
        server.kernels().sub.tile
    }
}

} // verus!
