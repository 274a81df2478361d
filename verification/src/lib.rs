//! Verified cores of the Hexagon and OpenCL backends for Luminal.

pub mod text;
pub mod bytes;
pub mod buckets;
pub mod children;
pub mod data;
pub mod dtype;
pub mod execution;
pub mod frontend;
pub mod graph;
pub mod hexagon;
mod maps;
pub mod program;
pub mod rules;
pub mod opencl;
