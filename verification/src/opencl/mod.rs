//! The OpenCL backend, built first for Qualcomm's Adreno GPUs.

pub mod compile;
pub mod device;
pub mod dialect;
pub mod dyn_backend;
pub mod dyn_dims;
pub mod extract;
pub mod heading;
pub mod kernel;
pub mod meaning;
pub mod rewrite;
pub mod runtime;
pub mod soundness;
pub mod statements;
pub mod templates;
pub mod transfer;
