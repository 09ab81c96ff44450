//! GlassBoxAI MLP: the verified core of a transparent multi-layer perceptron
//! library.  This crate holds the parts of the library that are integer,
//! enum and text logic: option parsing, backend selection, network shape
//! bookkeeping, index resolution for introspection, and validation of values
//! that cross the C boundary.

pub mod text;
pub mod types;
pub mod gpu_backend;
pub mod mlp;
pub mod training;
pub mod facade;
pub mod core_types;
pub mod julia;
