//! The decisions of a ROCm backend for a graph compiler: which matrix products
//! and attention kernels to run, with which arguments, in which order, and what
//! to report when something fails.
//!
//! The library computes on plain values. What has to be done on the device, in
//! the file system or by another program is handed out as a value that says what
//! to do next, and the outcome is handed back.
#![allow(unused_imports)]

pub mod device;
pub mod dtype;
pub mod dyn_backend;
pub mod host;
pub mod module_image;
pub mod numeral;
pub mod path;
pub mod text;
