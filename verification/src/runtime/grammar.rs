//! The binary module format as the decoder reads it: for each construct a
//! function from a buffer and a position to the value found there and the
//! position behind it, or to the error the decoder reports.
//!
//! Section sizes, the counts of the type, function and export sections, name
//! lengths and code lengths are variable-length integers. Parameter, result
//! and local counts, the function count of the code section and all indices
//! are single bytes. A section's declared size, a code entry's declared
//! length and the marker byte of a function type are read and not checked.

use crate::ast::{EDesc, ExportView, FuncTypeView, FuncView, Instr, ModuleView, ValueType};
use crate::op_codes::{
    END, EXPORT_FUNC, I32_ADD, LOCAL_GET, MAGIC, SECTION_CODE, SECTION_EXPORT, SECTION_FUNC,
    SECTION_TYPE,
};
use crate::runtime::error::RuntimeError;
use crate::runtime::reader::spec_u32_le;
use vstd::prelude::*;
use vstd::utf8::{decode_utf8, valid_utf8};

verus! {

/// What reading a construct yields: the value and the position behind it, or
/// an error.
pub type Parsed<T> = Result<(T, int), RuntimeError>;

/// A list read in two parts: `head` first, then `tail`.
pub open spec fn prepend<T>(head: Seq<T>, tail: Parsed<Seq<T>>) -> Parsed<Seq<T>> {
    match tail {
        Ok((rest, p)) => Ok((head + rest, p)),
        Err(e) => Err(e),
    }
}

/// One byte.
pub open spec fn spec_byte(s: Seq<u8>, pos: int) -> Parsed<u8> {
    if 0 <= pos < s.len() {
        Ok((s[pos], pos + 1))
    } else {
        Err(RuntimeError::ModuleToShort)
    }
}

/// A variable-length integer below `limit`: seven bits per byte, least
/// significant group first, the top bit set on every byte but the last.
pub open spec fn spec_varint(s: Seq<u8>, pos: int, limit: int) -> Parsed<int>
    decreases limit,
{
    if !(0 <= pos < s.len()) {
        Err(RuntimeError::ModuleToShort)
    } else if s[pos] < 128 {
        if s[pos] < limit {
            Ok((s[pos] as int, pos + 1))
        } else {
            Err(RuntimeError::InvalidInteger)
        }
    } else if limit <= 128 {
        Err(RuntimeError::InvalidInteger)
    } else {
        match spec_varint(s, pos + 1, limit / 128) {
            Ok((high, p)) => Ok((s[pos] - 128 + 128 * high, p)),
            Err(e) => Err(e),
        }
    }
}

/// A variable-length integer of at most five bytes and 32 bits.
pub open spec fn spec_var_u32(s: Seq<u8>, pos: int) -> Parsed<u32> {
    match spec_varint(s, pos, 0x1_0000_0000) {
        Ok((v, p)) => Ok((v as u32, p)),
        Err(e) => Err(e),
    }
}

/// `n` items, one after the other.
pub open spec fn spec_repeat<T>(
    s: Seq<u8>,
    pos: int,
    n: nat,
    item: spec_fn(Seq<u8>, int) -> Parsed<T>,
) -> Parsed<Seq<T>>
    decreases n,
{
    if n == 0 {
        Ok((Seq::empty(), pos))
    } else {
        match item(s, pos) {
            Ok((x, p)) => prepend(seq![x], spec_repeat(s, p, (n - 1) as nat, item)),
            Err(e) => Err(e),
        }
    }
}

/// Reading the first of `n > 0` items: if it is there, the list goes on
/// behind it; if it is not, the list fails as the item does.
pub proof fn lemma_repeat_step<T>(
    s: Seq<u8>,
    pos: int,
    n: nat,
    item: spec_fn(Seq<u8>, int) -> Parsed<T>,
    acc: Seq<T>,
)
    requires
        n > 0,
    ensures
        match item(s, pos) {
            Ok((x, p)) => prepend(acc, spec_repeat(s, pos, n, item)) == prepend(
                acc.push(x),
                spec_repeat(s, p, (n - 1) as nat, item),
            ),
            Err(e) => spec_repeat(s, pos, n, item) == Err::<(Seq<T>, int), RuntimeError>(e),
        },
{
    match item(s, pos) {
        Ok((x, p)) => {
            match spec_repeat(s, p, (n - 1) as nat, item) {
                Ok((rest, q)) => {
                    assert(acc + (seq![x] + rest) =~= acc.push(x) + rest);
                },
                Err(e) => {},
            }
        },
        Err(e) => {},
    }
}

/// The end of a list: nothing more is read.
pub proof fn lemma_repeat_done<T>(
    s: Seq<u8>,
    pos: int,
    item: spec_fn(Seq<u8>, int) -> Parsed<T>,
    acc: Seq<T>,
)
    ensures
        prepend(acc, spec_repeat(s, pos, 0, item)) == Ok::<(Seq<T>, int), RuntimeError>(
            (acc, pos),
        ),
{
    assert(acc + Seq::<T>::empty() =~= acc);
}

/// Reading nothing first changes nothing.
pub proof fn lemma_prepend_empty<T>(tail: Parsed<Seq<T>>)
    ensures
        prepend(Seq::empty(), tail) == tail,
{
    match tail {
        Ok((rest, p)) => {
            assert(Seq::<T>::empty() + rest =~= rest);
        },
        Err(e) => {},
    }
}

/// A value type byte.
pub open spec fn spec_value_type(s: Seq<u8>, pos: int) -> Parsed<ValueType> {
    match spec_byte(s, pos) {
        Ok((b, p)) => if b == 0x7f {
            Ok((ValueType::I32, p))
        } else if b == 0x7e {
            Ok((ValueType::I64, p))
        } else {
            Err(RuntimeError::InvalidValueType)
        },
        Err(e) => Err(e),
    }
}

/// [`spec_value_type`] as a function value.
pub open spec fn value_type_parser() -> spec_fn(Seq<u8>, int) -> Parsed<ValueType> {
    |s: Seq<u8>, pos: int| spec_value_type(s, pos)
}

/// A count byte, then that many value types.
pub open spec fn spec_value_types(s: Seq<u8>, pos: int) -> Parsed<Seq<ValueType>> {
    match spec_byte(s, pos) {
        Ok((n, p)) => spec_repeat(s, p, n as nat, value_type_parser()),
        Err(e) => Err(e),
    }
}

/// A function type: a marker byte, the parameters, the results.
pub open spec fn spec_func_type(s: Seq<u8>, pos: int) -> Parsed<FuncTypeView> {
    match spec_byte(s, pos) {
        Ok((_marker, at0)) => match spec_value_types(s, at0) {
            Ok((params, at1)) => match spec_value_types(s, at1) {
                Ok((results, at2)) => Ok(((params, results), at2)),
                Err(e) => Err(e),
            },
            Err(e) => Err(e),
        },
        Err(e) => Err(e),
    }
}

/// [`spec_func_type`] as a function value.
pub open spec fn func_type_parser() -> spec_fn(Seq<u8>, int) -> Parsed<FuncTypeView> {
    |s: Seq<u8>, pos: int| spec_func_type(s, pos)
}

/// The start of a section: the expected id, then the declared size.
pub open spec fn spec_section_start(s: Seq<u8>, pos: int, id: u8) -> Parsed<u32> {
    match spec_byte(s, pos) {
        Ok((b, p)) => if b == id {
            spec_var_u32(s, p)
        } else {
            Err(RuntimeError::InvalidSectionCode)
        },
        Err(e) => Err(e),
    }
}

/// The type section: its start, the number of types, the types.
pub open spec fn spec_parse_type_section(s: Seq<u8>, pos: int) -> Parsed<Seq<FuncTypeView>> {
    match spec_section_start(s, pos, SECTION_TYPE) {
        Ok((_size, at0)) => match spec_var_u32(s, at0) {
            Ok((n, at1)) => spec_repeat(s, at1, n as nat, func_type_parser()),
            Err(e) => Err(e),
        },
        Err(e) => Err(e),
    }
}

/// A type index byte.
pub open spec fn spec_type_index(s: Seq<u8>, pos: int) -> Parsed<i32> {
    match spec_byte(s, pos) {
        Ok((b, p)) => Ok((b as i32, p)),
        Err(e) => Err(e),
    }
}

/// [`spec_type_index`] as a function value.
pub open spec fn type_index_parser() -> spec_fn(Seq<u8>, int) -> Parsed<i32> {
    |s: Seq<u8>, pos: int| spec_type_index(s, pos)
}

/// The function section: its start, the number of functions, one type index
/// per function.
pub open spec fn spec_parse_func_section(s: Seq<u8>, pos: int) -> Parsed<Seq<i32>> {
    match spec_section_start(s, pos, SECTION_FUNC) {
        Ok((_size, at0)) => match spec_var_u32(s, at0) {
            Ok((n, at1)) => spec_repeat(s, at1, n as nat, type_index_parser()),
            Err(e) => Err(e),
        },
        Err(e) => Err(e),
    }
}

/// A name: its byte length, then that many bytes of UTF-8.
pub open spec fn spec_name(s: Seq<u8>, pos: int) -> Parsed<Seq<char>> {
    match spec_var_u32(s, pos) {
        Ok((len, p)) => if p + len > s.len() {
            Err(RuntimeError::ModuleToShort)
        } else if !valid_utf8(s.subrange(p, p + len)) {
            Err(RuntimeError::InvalidExportName)
        } else {
            Ok((decode_utf8(s.subrange(p, p + len)), p + len))
        },
        Err(e) => Err(e),
    }
}

/// An export: its name, the kind byte of a function export, the function
/// index byte.
pub open spec fn spec_export(s: Seq<u8>, pos: int) -> Parsed<ExportView> {
    match spec_name(s, pos) {
        Ok((name, at0)) => match spec_byte(s, at0) {
            Ok((kind, at1)) => if kind != EXPORT_FUNC {
                Err(RuntimeError::InvalidExportType)
            } else {
                match spec_byte(s, at1) {
                    Ok((idx, at2)) => Ok(
                        (ExportView { name, e_desc: EDesc::FuncExport(idx as usize) }, at2),
                    ),
                    Err(e) => Err(e),
                }
            },
            Err(e) => Err(e),
        },
        Err(e) => Err(e),
    }
}

/// [`spec_export`] as a function value.
pub open spec fn export_parser() -> spec_fn(Seq<u8>, int) -> Parsed<ExportView> {
    |s: Seq<u8>, pos: int| spec_export(s, pos)
}

/// The export section: its start, the number of exports, the exports.
pub open spec fn spec_parse_export_section(s: Seq<u8>, pos: int) -> Parsed<Seq<ExportView>> {
    match spec_section_start(s, pos, SECTION_EXPORT) {
        Ok((_size, at0)) => match spec_var_u32(s, at0) {
            Ok((n, at1)) => spec_repeat(s, at1, n as nat, export_parser()),
            Err(e) => Err(e),
        },
        Err(e) => Err(e),
    }
}

/// Instructions up to and including the end marker.
pub open spec fn spec_instrs(s: Seq<u8>, pos: int) -> Parsed<Seq<Instr>>
    decreases s.len() - pos,
{
    if !(0 <= pos < s.len()) {
        Err(RuntimeError::ModuleToShort)
    } else if s[pos] == END {
        Ok((Seq::empty(), pos + 1))
    } else if s[pos] == I32_ADD {
        prepend(seq![Instr::I32Add], spec_instrs(s, pos + 1))
    } else if s[pos] == LOCAL_GET {
        if pos + 1 < s.len() {
            prepend(seq![Instr::LocalGet(s[pos + 1] as usize)], spec_instrs(s, pos + 2))
        } else {
            Err(RuntimeError::ModuleToShort)
        }
    } else {
        Err(RuntimeError::InvalidInstruction)
    }
}

/// A code entry: its declared length, the local declarations, the
/// instructions.
pub open spec fn spec_code(s: Seq<u8>, pos: int) -> Parsed<(Seq<ValueType>, Seq<Instr>)> {
    match spec_var_u32(s, pos) {
        Ok((_size, at0)) => match spec_value_types(s, at0) {
            Ok((locals, at1)) => match spec_instrs(s, at1) {
                Ok((body, at2)) => Ok(((locals, body), at2)),
                Err(e) => Err(e),
            },
            Err(e) => Err(e),
        },
        Err(e) => Err(e),
    }
}

/// [`spec_code`] as a function value.
pub open spec fn code_parser() -> spec_fn(Seq<u8>, int) -> Parsed<(Seq<ValueType>, Seq<Instr>)> {
    |s: Seq<u8>, pos: int| spec_code(s, pos)
}

/// The code section: its start, the number of entries in one byte, the
/// entries.
pub open spec fn spec_parse_code_section(s: Seq<u8>, pos: int) -> Parsed<
    Seq<(Seq<ValueType>, Seq<Instr>)>,
> {
    match spec_section_start(s, pos, SECTION_CODE) {
        Ok((_size, at0)) => match spec_byte(s, at0) {
            Ok((n, at1)) => spec_repeat(s, at1, n as nat, code_parser()),
            Err(e) => Err(e),
        },
        Err(e) => Err(e),
    }
}

/// The header: at least eight bytes, of which the first four are the magic
/// bytes and the next four spell version 1.
pub open spec fn spec_check_header(s: Seq<u8>, pos: int) -> Parsed<()> {
    if s.len() - pos < 8 {
        Err(RuntimeError::ModuleToShort)
    } else if s.subrange(pos, pos + 4) != MAGIC@ {
        Err(RuntimeError::WrongMagicHeader)
    } else if spec_u32_le(s.subrange(pos + 4, pos + 8)) != 1 {
        Err(RuntimeError::WrongVersionHeader)
    } else {
        Ok(((), pos + 8))
    }
}

/// The functions of a module: the type indices of the function section
/// joined, position by position, with the entries of the code section.
pub open spec fn spec_join(
    type_indices: Seq<i32>,
    code: Seq<(Seq<ValueType>, Seq<Instr>)>,
) -> Seq<FuncView>
    recommends
        type_indices.len() == code.len(),
{
    Seq::new(
        type_indices.len(),
        |i: int| FuncView { f_type: type_indices[i], locals: code[i].0, body: code[i].1 },
    )
}

/// A module: the header, then the type, function, export and code sections
/// in this order. The function and code sections must have the same number
/// of entries. Bytes behind the code section are not looked at.
pub open spec fn spec_parse_wasm(s: Seq<u8>, pos: int) -> Parsed<ModuleView> {
    match spec_check_header(s, pos) {
        Ok((_, at0)) => match spec_parse_type_section(s, at0) {
            Ok((types, at1)) => match spec_parse_func_section(s, at1) {
                Ok((type_indices, at2)) => match spec_parse_export_section(s, at2) {
                    Ok((exports, at3)) => match spec_parse_code_section(s, at3) {
                        Ok((code, at4)) => if type_indices.len() != code.len() {
                            Err(RuntimeError::FunctionCodeMismatch)
                        } else {
                            Ok(
                                (
                                    ModuleView {
                                        types,
                                        funcs: spec_join(type_indices, code),
                                        exports,
                                    },
                                    at4,
                                ),
                            )
                        },
                        Err(e) => Err(e),
                    },
                    Err(e) => Err(e),
                },
                Err(e) => Err(e),
            },
            Err(e) => Err(e),
        },
        Err(e) => Err(e),
    }
}

/// A buffer of fewer than eight bytes is rejected as too short.
pub proof fn short_buffer_rejected(s: Seq<u8>)
    requires
        s.len() < 8,
    ensures
        spec_parse_wasm(s, 0) == Err::<(ModuleView, int), RuntimeError>(
            RuntimeError::ModuleToShort,
        ),
{
}

/// A buffer of at least eight bytes that does not start with the magic
/// bytes is rejected for its magic header.
pub proof fn wrong_magic_rejected(s: Seq<u8>)
    requires
        s.len() >= 8,
        s.subrange(0, 4) != MAGIC@,
    ensures
        spec_parse_wasm(s, 0) == Err::<(ModuleView, int), RuntimeError>(
            RuntimeError::WrongMagicHeader,
        ),
{
}

/// A buffer of at least eight bytes that starts with the magic bytes and
/// whose next four bytes do not spell version 1 is rejected for its version.
pub proof fn wrong_version_rejected(s: Seq<u8>)
    requires
        s.len() >= 8,
        s.subrange(0, 4) == MAGIC@,
        spec_u32_le(s.subrange(4, 8)) != 1,
    ensures
        spec_parse_wasm(s, 0) == Err::<(ModuleView, int), RuntimeError>(
            RuntimeError::WrongVersionHeader,
        ),
{
}

/// Where a section is expected and the byte found is not its id, each of
/// the four section decoders rejects the buffer for its section code.
pub proof fn wrong_section_id_rejected(s: Seq<u8>, pos: int)
    requires
        0 <= pos < s.len(),
    ensures
        s[pos] != SECTION_TYPE ==> spec_parse_type_section(s, pos) == Err::<
            (Seq<FuncTypeView>, int),
            RuntimeError,
        >(RuntimeError::InvalidSectionCode),
        s[pos] != SECTION_FUNC ==> spec_parse_func_section(s, pos) == Err::<
            (Seq<i32>, int),
            RuntimeError,
        >(RuntimeError::InvalidSectionCode),
        s[pos] != SECTION_EXPORT ==> spec_parse_export_section(s, pos) == Err::<
            (Seq<ExportView>, int),
            RuntimeError,
        >(RuntimeError::InvalidSectionCode),
        s[pos] != SECTION_CODE ==> spec_parse_code_section(s, pos) == Err::<
            (Seq<(Seq<ValueType>, Seq<Instr>)>, int),
            RuntimeError,
        >(RuntimeError::InvalidSectionCode),
{
}

/// A module with a valid header is rejected for its section code if the
/// byte behind the header is not the id of the type section.
pub proof fn wrong_type_section_id_rejected(s: Seq<u8>)
    requires
        spec_check_header(s, 0) is Ok,
        8 < s.len(),
        s[8] != SECTION_TYPE,
    ensures
        spec_parse_wasm(s, 0) == Err::<(ModuleView, int), RuntimeError>(
            RuntimeError::InvalidSectionCode,
        ),
{
}

/// A module with a valid header and type section is rejected for its
/// section code if the byte behind the type section is not the id of the
/// function section.
pub proof fn wrong_func_section_id_rejected(s: Seq<u8>, p: int)
    requires
        spec_check_header(s, 0) is Ok,
        spec_parse_type_section(s, 8) matches Ok((_, end)) && end == p,
        0 <= p < s.len(),
        s[p] != SECTION_FUNC,
    ensures
        spec_parse_wasm(s, 0) == Err::<(ModuleView, int), RuntimeError>(
            RuntimeError::InvalidSectionCode,
        ),
{
}

/// A module with a valid header, type section and function section is
/// rejected for its section code if the byte behind the function section,
/// which ends at `p`, is not the id of the export section.
pub proof fn wrong_export_section_id_rejected(s: Seq<u8>, p: int)
    requires
        spec_check_header(s, 0) is Ok,
        spec_parse_type_section(s, 8) matches Ok((_, at1)) && (spec_parse_func_section(
            s,
            at1,
        ) matches Ok((_, end)) && end == p),
        0 <= p < s.len(),
        s[p] != SECTION_EXPORT,
    ensures
        spec_parse_wasm(s, 0) == Err::<(ModuleView, int), RuntimeError>(
            RuntimeError::InvalidSectionCode,
        ),
{
}

/// A module with a valid header, type section, function section and export
/// section is rejected for its section code if the byte behind the export
/// section, which ends at `p`, is not the id of the code section.
pub proof fn wrong_code_section_id_rejected(s: Seq<u8>, p: int)
    requires
        spec_check_header(s, 0) is Ok,
        spec_parse_type_section(s, 8) matches Ok((_, at1)) && (spec_parse_func_section(
            s,
            at1,
        ) matches Ok((_, at2)) && (spec_parse_export_section(s, at2) matches Ok((_, end)) && end
            == p)),
        0 <= p < s.len(),
        s[p] != SECTION_CODE,
    ensures
        spec_parse_wasm(s, 0) == Err::<(ModuleView, int), RuntimeError>(
            RuntimeError::InvalidSectionCode,
        ),
{
}

} // verus!
