//! Strict compatibility check for compiled WebAssembly modules: a module is
//! accepted only if none of its function bodies holds a floating-point
//! instruction.
//!
//! The binary format is decoded by `wasmparser`. What the decoder yields is
//! described by the mathematical model in [`model`]; the scan over it and the
//! verdict are verified against that model.

pub mod model;
pub mod decoder;
pub mod vm;
pub mod laws;

pub use vm::enforce_soroban_compatibility;
