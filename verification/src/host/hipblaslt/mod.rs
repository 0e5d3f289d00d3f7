//! hipBLASLt matrix multiplication.
pub mod call_laws;
pub mod error;
pub mod handle;
pub mod laws;
pub mod matmul;
pub mod name_laws;
pub mod names;
pub mod op;
pub mod op_laws;
pub mod pointer_laws;
pub mod pointers;
pub mod rules;
pub mod scalar;
pub mod types;
