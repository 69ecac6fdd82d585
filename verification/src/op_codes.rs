//! The byte constants of the binary module format.

use crate::ast::ValueType;
use vstd::prelude::*;

verus! {

/// The four bytes every binary module starts with.
pub const MAGIC: [u8; 4] = [0x00, 0x61, 0x73, 0x6d];

/// The format version, as a little-endian 32-bit integer.
pub const VERSION: [u8; 4] = [0x01, 0x00, 0x00, 0x00];

/// Section id of the type section.
pub const SECTION_TYPE: u8 = 0x01;

/// Section id of the function section.
pub const SECTION_FUNC: u8 = 0x03;

/// Section id of the export section.
pub const SECTION_EXPORT: u8 = 0x07;

/// Section id of the code section.
pub const SECTION_CODE: u8 = 0x0a;

/// Opcode of `local.get`; one index byte follows it.
pub const LOCAL_GET: u8 = 0x20;

/// Opcode of `i32.add`.
pub const I32_ADD: u8 = 0x6a;

/// Export kind byte of a function export.
pub const EXPORT_FUNC: u8 = 0x00;

/// Marker byte that opens a function type.
pub const TYPE_FUNC: u8 = 0x60;

/// Marker byte that closes a function body.
pub const END: u8 = 0x0b;

/// The byte that stands for a value type.
pub open spec fn spec_val_type(vt: ValueType) -> u8 {
    match vt {
        ValueType::I32 => 0x7f,
        ValueType::I64 => 0x7e,
    }
}

/// The byte that stands for `vt` in the binary format.
pub fn val_type(vt: &ValueType) -> (b: u8)
    ensures
        b == spec_val_type(*vt),
{
    match vt {
        ValueType::I32 => 0x7f,
        ValueType::I64 => 0x7e,
    }
}

} // verus!
