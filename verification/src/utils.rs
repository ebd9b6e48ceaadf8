//! General helpers: positions, text shells, validation shells, memory
//! statistics, and extension hooks for the engine's types.

pub mod conversion;
pub mod perf;
pub mod position;
pub mod text;
pub mod validation;
