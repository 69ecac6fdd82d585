//! What can go wrong while a module is decoded or one of its functions is
//! invoked.

use vstd::prelude::*;

verus! {

/// The failures of the decoder and of the interpreter.
#[derive(Debug, PartialEq, Eq, Clone, Copy)]
pub enum RuntimeError {
    /// The buffer ends before the module does.
    ModuleToShort,
    /// The buffer does not start with the magic bytes.
    WrongMagicHeader,
    /// The version is not 1.
    WrongVersionHeader,
    /// A section does not start with the id expected at its place.
    InvalidSectionCode,
    /// A byte that should name a value type names none.
    InvalidValueType,
    /// An export's kind byte is not that of a function export.
    InvalidExportType,
    /// An export's name is not valid UTF-8.
    InvalidExportName,
    /// A byte that should be an opcode is none.
    InvalidInstruction,
    /// The module has no export of the requested name.
    ExportNotFound,
    /// The number of arguments differs from the number of parameters.
    InvalidArgNumber,
    /// A variable-length integer is longer than five bytes or exceeds 32 bits.
    InvalidInteger,
    /// The function section and the code section differ in length.
    FunctionCodeMismatch,
    /// Execution faulted: an index out of range, a missing or ill-typed
    /// operand.
    Trap,
}

} // verus!
