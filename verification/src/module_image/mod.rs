//! The compilation of HIP source to a module image.
pub mod options;
pub mod report;
pub mod run;
