//! The encoder: from a module to its binary form.

pub mod error;
pub mod format;
pub mod leb128;
pub mod wasm;

pub use crate::compiler::wasm::compile;
