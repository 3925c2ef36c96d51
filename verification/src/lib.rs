//! A small GPU tensor runtime: 2-D matrices resident in device memory, the
//! sizing rules of the kernels that combine them, and Strassen's product
//! built from those kernels.

pub mod error;
pub mod gpu;
pub mod kernel;
pub mod laws;
pub mod matrix;
pub mod plan;
pub mod server;
pub mod shape;
pub mod strassen;
pub mod tensor;
