//! A tiny WebAssembly toolchain.
//!
//! * [`ast`] is the module data model: types, functions and exports.
//! * [`parser`] reads a module from its text format.
//! * [`compiler`] encodes a module in the binary format.
//! * [`runtime`] decodes a module from the binary format and invokes its
//!   exported functions on a stack machine.
//! * [`roundtrip`] proves that decoding undoes encoding, and that a module
//!   behaves the same before and after.
//!
//! Every function is verified against a contract over the mathematical views
//! of its arguments. The contracts of the encoder and of the decoder are
//! stated over [`compiler::format`] and [`runtime::grammar`], which lay the
//! binary format down as functions on sequences of bytes.

pub mod ast;
pub mod compiler;
pub mod op_codes;
pub mod parser;
pub mod roundtrip;
pub mod runtime;
