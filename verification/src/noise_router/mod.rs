//! The noise router: density functions, caches and the aquifer sampler.
pub mod block_pos;
pub mod chunk_density_function;
pub mod density_function;
pub mod fluid_level;
pub mod aquifer_sampler;
pub mod data;
