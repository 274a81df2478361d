//! The Hexagon SDK/FastRPC backend.

pub mod config;
pub mod dyn_backend;
pub mod extract;
pub mod kernel;
pub mod meaning;
pub mod qwen35;
pub mod rewrite;
pub mod rpc;
pub mod runtime;
