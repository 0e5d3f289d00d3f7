//! Attention kernels, compiled at run time.
//!
//! The wrapper and kernel sources are placed in a cache directory, compiled
//! with `hipcc` for the model's head dimension, and loaded as a shared library.
//! The Composable Kernel headers that they need are searched for in the
//! directory that `LUMINAL_CK_DIR` names and in the ROCm installation, and
//! fetched at a pinned commit where neither has them.
pub mod arch;
pub mod cache;
pub mod ck;
pub mod fetch;
pub mod jit;
pub mod jit_laws;
