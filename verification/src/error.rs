//! The ways in which an operation on tensors can fail.

use vstd::prelude::*;
use vstd::string::StringExecFns;

verus! {

/// Why an operation was refused or could not be carried out.
#[derive(Clone, Copy, Debug, PartialEq, Eq, Structural)]
pub enum TensorError {
    /// No adapter or no logical device could be obtained.
    DeviceAcquisitionFailure,
    /// Two operands of an elementwise operation differ in shape, or the number
    /// of uploaded values is not the number of elements of the declared shape.
    ShapeMismatch,
    /// The inner dimensions of a matrix product disagree.
    IncompatibleShape,
    /// The staging buffer of a read-back could not be mapped.
    MappingFailure,
    /// An extent that is not two-dimensional.
    UnsupportedRank,
    /// A dimension is not a whole number of tiles of the kernel that would
    /// process it.
    TileMisaligned,
    /// A dimension, a grid or a byte size exceeds what the kernel's 32-bit
    /// counters, the address space or the device's buffer limit can hold.
    TooLarge,
    /// The device reported a validation or out-of-memory error for a request.
    DeviceRejected,
    /// A kernel is launched over a number of buffers that is not the number
    /// of resources it declares.
    BindingMismatch,
}

impl TensorError {
    /// The text of `message`, as a sequence of characters.
    pub open spec fn spec_message(self) -> Seq<char> {
        match self {
            TensorError::DeviceAcquisitionFailure => "no compute device could be acquired"@,
            TensorError::ShapeMismatch => "shape mismatch"@,
            TensorError::IncompatibleShape => "incompatible matrix size"@,
            TensorError::MappingFailure => "failed to run compute on device"@,
            TensorError::UnsupportedRank => "only two-dimensional shapes are supported"@,
            TensorError::TileMisaligned => "dimension is not a multiple of the tile edge"@,
            TensorError::TooLarge => "tensor is too large"@,
            TensorError::DeviceRejected => "the device rejected the request"@,
            TensorError::BindingMismatch => "the kernel declares another number of buffers"@,
        }
    }

    /// A short description of the error, for display.
    pub fn message(&self) -> (text: String)
        ensures
            text@ == self.spec_message(),
    {
        match self {
            TensorError::DeviceAcquisitionFailure => String::from_str(
                "no compute device could be acquired",
            ),
            TensorError::ShapeMismatch => String::from_str("shape mismatch"),
            TensorError::IncompatibleShape => String::from_str("incompatible matrix size"),
            TensorError::MappingFailure => String::from_str("failed to run compute on device"),
            TensorError::UnsupportedRank => String::from_str(
                "only two-dimensional shapes are supported",
            ),
            TensorError::TileMisaligned => String::from_str(
                "dimension is not a multiple of the tile edge",
            ),
            TensorError::TooLarge => String::from_str("tensor is too large"),
            TensorError::DeviceRejected => String::from_str("the device rejected the request"),
            TensorError::BindingMismatch => String::from_str(
                "the kernel declares another number of buffers",
            ),
        }
    }
}

} // verus!
