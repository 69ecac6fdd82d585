//! The decoder: from the binary form of a module back to the module.
//!
//! Each function reads one construct at the reader's position and leaves the
//! reader behind it. What is read, and which error is reported where, is
//! laid down in [`crate::runtime::grammar`]; a buffer that ends too early
//! gives `ModuleToShort`. After an error the reader's position is
//! unspecified.

use crate::ast::{
    copy_instrs, copy_value_types, exports_view, funcs_view, types_view, EDesc, Export, Func,
    FuncType, Instr, Module, StackType, Type, ValueType,
};
use crate::op_codes::{
    END, EXPORT_FUNC, I32_ADD, LOCAL_GET, MAGIC, SECTION_CODE, SECTION_EXPORT, SECTION_FUNC,
    SECTION_TYPE,
};
use crate::runtime::error::RuntimeError;
use crate::runtime::grammar::{
    code_parser, export_parser, func_type_parser, lemma_prepend_empty, lemma_repeat_done,
    lemma_repeat_step, prepend, spec_byte, spec_check_header,
    spec_code, spec_export, spec_func_type, spec_instrs, spec_join, spec_name,
    spec_parse_code_section, spec_parse_export_section, spec_parse_func_section,
    spec_parse_type_section, spec_parse_wasm, spec_repeat, spec_section_start, spec_type_index,
    spec_value_type, spec_value_types, spec_var_u32, spec_varint, type_index_parser,
    value_type_parser, Parsed,
};
use crate::runtime::reader::Reader;
use vstd::prelude::*;
use vstd::slice::slice_to_vec;
use vstd::utf8::{encode_utf8, valid_utf8};

verus! {

/// `got` is what `expected` says, and the reader went from `before` to the
/// position that `expected` gives.
pub open spec fn reads<T>(
    before: &Reader,
    after: &Reader,
    expected: Parsed<T>,
    got: Result<T, RuntimeError>,
) -> bool {
    &&& after.data() == before.data()
    &&& match expected {
        Ok((v, p)) => got == Ok::<T, RuntimeError>(v) && after.pos() == p,
        Err(e) => got == Err::<T, RuntimeError>(e),
    }
}

/// Reads one byte, if there is one.
fn read_byte(wasm: &mut Reader) -> (r: Result<u8, RuntimeError>)
    ensures
        reads(old(wasm), final(wasm), spec_byte(old(wasm).data(), old(wasm).pos()), r),
{
    if wasm.remaining() == 0 {
        return Err(RuntimeError::ModuleToShort);
    }
    Ok(wasm.byte())
}

/// Reads a variable-length integer below `limit`.
fn read_varint(wasm: &mut Reader, limit: u64) -> (r: Result<u64, RuntimeError>)
    requires
        0 < limit <= 0x1_0000_0000,
    ensures
        final(wasm).data() == old(wasm).data(),
        match spec_varint(old(wasm).data(), old(wasm).pos(), limit as int) {
            Ok((v, p)) => r == Ok::<u64, RuntimeError>(v as u64) && 0 <= v < limit
                && final(wasm).pos() == p,
            Err(e) => r == Err::<u64, RuntimeError>(e),
        },
    decreases limit,
{
    if wasm.remaining() == 0 {
        return Err(RuntimeError::ModuleToShort);
    }
    let b = wasm.byte();
    if b < 128 {
        if (b as u64) < limit {
            Ok(b as u64)
        } else {
            Err(RuntimeError::InvalidInteger)
        }
    } else if limit <= 128 {
        Err(RuntimeError::InvalidInteger)
    } else {
        match read_varint(wasm, limit / 128) {
            Ok(high) => Ok((b - 128) as u64 + 128 * high),
            Err(e) => Err(e),
        }
    }
}

/// Reads a variable-length integer of at most five bytes and 32 bits.
pub fn read_u32(wasm: &mut Reader) -> (r: Result<u32, RuntimeError>)
    ensures
        reads(old(wasm), final(wasm), spec_var_u32(old(wasm).data(), old(wasm).pos()), r),
{
    match read_varint(wasm, 0x1_0000_0000) {
        Ok(v) => Ok(v as u32),
        Err(e) => Err(e),
    }
}

/// Reads a value type.
fn parse_value_type(wasm: &mut Reader) -> (r: Result<ValueType, RuntimeError>)
    ensures
        reads(old(wasm), final(wasm), spec_value_type(old(wasm).data(), old(wasm).pos()), r),
{
    match read_byte(wasm) {
        Ok(b) => if b == 0x7f {
            Ok(ValueType::I32)
        } else if b == 0x7e {
            Ok(ValueType::I64)
        } else {
            Err(RuntimeError::InvalidValueType)
        },
        Err(e) => Err(e),
    }
}

/// Reads a count byte and that many value types.
fn parse_value_types(wasm: &mut Reader) -> (r: Result<Vec<ValueType>, RuntimeError>)
    ensures
        final(wasm).data() == old(wasm).data(),
        match spec_value_types(old(wasm).data(), old(wasm).pos()) {
            Ok((types, p)) => r matches Ok(v) && v@ == types && final(wasm).pos() == p,
            Err(e) => r matches Err(got) && got == e,
        },
{
    let n = match read_byte(wasm) {
        Ok(n) => n,
        Err(e) => {
            return Err(e);
        },
    };
    let ghost s = wasm.data();
    let ghost whole = spec_value_types(old(wasm).data(), old(wasm).pos());
    let mut out: Vec<ValueType> = Vec::new();
    let mut i: u8 = 0;
    proof {
        lemma_prepend_empty(spec_repeat(s, wasm.pos(), n as nat, value_type_parser()));
    }
    while i < n
        invariant
            i <= n,
            wasm.data() == s,
            s == old(wasm).data(),
            whole == spec_value_types(old(wasm).data(), old(wasm).pos()),
            whole == prepend(
                out@,
                spec_repeat(s, wasm.pos(), (n - i) as nat, value_type_parser()),
            ),
        decreases n - i,
    {
        proof {
            lemma_repeat_step(s, wasm.pos(), (n - i) as nat, value_type_parser(), out@);
        }
        match parse_value_type(wasm) {
            Ok(t) => {
                out.push(t);
            },
            Err(e) => {
                return Err(e);
            },
        }
        i = i + 1;
    }
    proof {
        lemma_repeat_done(s, wasm.pos(), value_type_parser(), out@);
    }
    Ok(out)
}

/// Reads a function type.
fn parse_func_type(wasm: &mut Reader) -> (r: Result<FuncType, RuntimeError>)
    ensures
        final(wasm).data() == old(wasm).data(),
        match spec_func_type(old(wasm).data(), old(wasm).pos()) {
            Ok((t, p)) => r matches Ok(v) && v@ == t && final(wasm).pos() == p,
            Err(e) => r matches Err(got) && got == e,
        },
{
    let _marker = match read_byte(wasm) {
        Ok(b) => b,
        Err(e) => {
            return Err(e);
        },
    };
    let params = match parse_value_types(wasm) {
        Ok(v) => v,
        Err(e) => {
            return Err(e);
        },
    };
    let results = match parse_value_types(wasm) {
        Ok(v) => v,
        Err(e) => {
            return Err(e);
        },
    };
    Ok((params, results))
}

/// Reads the start of a section: the id expected here and the declared
/// size, which is returned and not otherwise used.
fn parse_section_start(wasm: &mut Reader, id: u8) -> (r: Result<u32, RuntimeError>)
    ensures
        reads(
            old(wasm),
            final(wasm),
            spec_section_start(old(wasm).data(), old(wasm).pos(), id),
            r,
        ),
{
    match read_byte(wasm) {
        Ok(b) => if b == id {
            read_u32(wasm)
        } else {
            Err(RuntimeError::InvalidSectionCode)
        },
        Err(e) => Err(e),
    }
}

/// Reads the type section.
pub fn parse_type_section(wasm: &mut Reader) -> (r: Result<Vec<Type>, RuntimeError>)
    ensures
        final(wasm).data() == old(wasm).data(),
        match spec_parse_type_section(old(wasm).data(), old(wasm).pos()) {
            Ok((types, p)) => r matches Ok(v) && types_view(v@) == types && final(wasm).pos()
                == p,
            Err(e) => r matches Err(got) && got == e,
        },
{
    let _size = match parse_section_start(wasm, SECTION_TYPE) {
        Ok(size) => size,
        Err(e) => {
            return Err(e);
        },
    };
    let num_types = match read_u32(wasm) {
        Ok(n) => n,
        Err(e) => {
            return Err(e);
        },
    };
    let ghost s = wasm.data();
    let ghost whole = spec_parse_type_section(old(wasm).data(), old(wasm).pos());
    let mut types: Vec<Type> = Vec::new();
    let mut i: u32 = 0;
    proof {
        lemma_prepend_empty(spec_repeat(s, wasm.pos(), num_types as nat, func_type_parser()));
        assert(types_view(types@) =~= Seq::empty());
    }
    while i < num_types
        invariant
            i <= num_types,
            wasm.data() == s,
            s == old(wasm).data(),
            whole == spec_parse_type_section(old(wasm).data(), old(wasm).pos()),
            whole == prepend(
                types_view(types@),
                spec_repeat(s, wasm.pos(), (num_types - i) as nat, func_type_parser()),
            ),
        decreases num_types - i,
    {
        proof {
            lemma_repeat_step(
                s,
                wasm.pos(),
                (num_types - i) as nat,
                func_type_parser(),
                types_view(types@),
            );
        }
        let ghost before = types@;
        match parse_func_type(wasm) {
            Ok(t) => {
                types.push(t);
                assert(types_view(types@) =~= types_view(before).push(t@));
            },
            Err(e) => {
                return Err(e);
            },
        }
        i = i + 1;
    }
    proof {
        lemma_repeat_done(s, wasm.pos(), func_type_parser(), types_view(types@));
    }
    Ok(types)
}

/// Reads a type index byte.
fn parse_type_index(wasm: &mut Reader) -> (r: Result<i32, RuntimeError>)
    ensures
        reads(old(wasm), final(wasm), spec_type_index(old(wasm).data(), old(wasm).pos()), r),
{
    match read_byte(wasm) {
        Ok(b) => Ok(b as i32),
        Err(e) => Err(e),
    }
}

/// Reads the function section: the type index of each function.
pub fn parse_func_section(wasm: &mut Reader) -> (r: Result<Vec<i32>, RuntimeError>)
    ensures
        final(wasm).data() == old(wasm).data(),
        match spec_parse_func_section(old(wasm).data(), old(wasm).pos()) {
            Ok((indices, p)) => r matches Ok(v) && v@ == indices && final(wasm).pos() == p,
            Err(e) => r matches Err(got) && got == e,
        },
{
    let _size = match parse_section_start(wasm, SECTION_FUNC) {
        Ok(size) => size,
        Err(e) => {
            return Err(e);
        },
    };
    let num = match read_u32(wasm) {
        Ok(n) => n,
        Err(e) => {
            return Err(e);
        },
    };
    let ghost s = wasm.data();
    let ghost whole = spec_parse_func_section(old(wasm).data(), old(wasm).pos());
    let mut f_types: Vec<i32> = Vec::new();
    let mut i: u32 = 0;
    proof {
        lemma_prepend_empty(spec_repeat(s, wasm.pos(), num as nat, type_index_parser()));
    }
    while i < num
        invariant
            i <= num,
            wasm.data() == s,
            s == old(wasm).data(),
            whole == spec_parse_func_section(old(wasm).data(), old(wasm).pos()),
            whole == prepend(
                f_types@,
                spec_repeat(s, wasm.pos(), (num - i) as nat, type_index_parser()),
            ),
        decreases num - i,
    {
        proof {
            lemma_repeat_step(s, wasm.pos(), (num - i) as nat, type_index_parser(), f_types@);
        }
        match parse_type_index(wasm) {
            Ok(t) => {
                f_types.push(t);
            },
            Err(e) => {
                return Err(e);
            },
        }
        i = i + 1;
    }
    proof {
        lemma_repeat_done(s, wasm.pos(), type_index_parser(), f_types@);
    }
    Ok(f_types)
}

/// `String::from_utf8` of the standard library: the bytes are accepted
/// exactly when they are valid UTF-8, and the string then consists of
/// these bytes.
#[verifier::external_body]
fn string_from_utf8(bytes: Vec<u8>) -> (r: Option<String>)
    ensures
        r is Some <==> valid_utf8(bytes@),
        r matches Some(s) ==> encode_utf8(s@) == bytes@,
{
    match String::from_utf8(bytes) {
        Ok(s) => Some(s),
        Err(_) => None,
    }
}

/// Reads a name: its byte length, then that many bytes of UTF-8.
fn parse_name(wasm: &mut Reader) -> (r: Result<String, RuntimeError>)
    ensures
        final(wasm).data() == old(wasm).data(),
        match spec_name(old(wasm).data(), old(wasm).pos()) {
            Ok((name, p)) => r matches Ok(v) && v@ == name && final(wasm).pos() == p,
            Err(e) => r matches Err(got) && got == e,
        },
{
    let length = match read_u32(wasm) {
        Ok(n) => n,
        Err(e) => {
            return Err(e);
        },
    };
    if wasm.remaining() < length as usize {
        return Err(RuntimeError::ModuleToShort);
    }
    let raw = slice_to_vec(wasm.bytes(length as usize));
    match string_from_utf8(raw) {
        Some(name) => {
            proof {
                vstd::utf8::encode_utf8_decode_utf8(name@);
            }
            Ok(name)
        },
        None => Err(RuntimeError::InvalidExportName),
    }
}

/// Reads an export.
fn parse_export(wasm: &mut Reader) -> (r: Result<Export, RuntimeError>)
    ensures
        final(wasm).data() == old(wasm).data(),
        match spec_export(old(wasm).data(), old(wasm).pos()) {
            Ok((export, p)) => r matches Ok(v) && v@ == export && final(wasm).pos() == p,
            Err(e) => r matches Err(got) && got == e,
        },
{
    let name = match parse_name(wasm) {
        Ok(name) => name,
        Err(e) => {
            return Err(e);
        },
    };
    let kind = match read_byte(wasm) {
        Ok(b) => b,
        Err(e) => {
            return Err(e);
        },
    };
    if kind != EXPORT_FUNC {
        return Err(RuntimeError::InvalidExportType);
    }
    let idx = match read_byte(wasm) {
        Ok(b) => b,
        Err(e) => {
            return Err(e);
        },
    };
    Ok(Export { name, e_desc: EDesc::FuncExport(idx as usize) })
}

/// Reads the export section.
pub fn parse_export_section(wasm: &mut Reader) -> (r: Result<Vec<Export>, RuntimeError>)
    ensures
        final(wasm).data() == old(wasm).data(),
        match spec_parse_export_section(old(wasm).data(), old(wasm).pos()) {
            Ok((exports, p)) => r matches Ok(v) && exports_view(v@) == exports && final(
                wasm
            ).pos() == p,
            Err(e) => r matches Err(got) && got == e,
        },
{
    let _size = match parse_section_start(wasm, SECTION_EXPORT) {
        Ok(size) => size,
        Err(e) => {
            return Err(e);
        },
    };
    let num = match read_u32(wasm) {
        Ok(n) => n,
        Err(e) => {
            return Err(e);
        },
    };
    let ghost s = wasm.data();
    let ghost whole = spec_parse_export_section(old(wasm).data(), old(wasm).pos());
    let mut exports: Vec<Export> = Vec::new();
    let mut i: u32 = 0;
    proof {
        lemma_prepend_empty(spec_repeat(s, wasm.pos(), num as nat, export_parser()));
        assert(exports_view(exports@) =~= Seq::empty());
    }
    while i < num
        invariant
            i <= num,
            wasm.data() == s,
            s == old(wasm).data(),
            whole == spec_parse_export_section(old(wasm).data(), old(wasm).pos()),
            whole == prepend(
                exports_view(exports@),
                spec_repeat(s, wasm.pos(), (num - i) as nat, export_parser()),
            ),
        decreases num - i,
    {
        proof {
            lemma_repeat_step(
                s,
                wasm.pos(),
                (num - i) as nat,
                export_parser(),
                exports_view(exports@),
            );
        }
        let ghost before = exports@;
        match parse_export(wasm) {
            Ok(export) => {
                exports.push(export);
                assert(exports_view(exports@) =~= exports_view(before).push(export@));
            },
            Err(e) => {
                return Err(e);
            },
        }
        i = i + 1;
    }
    proof {
        lemma_repeat_done(s, wasm.pos(), export_parser(), exports_view(exports@));
    }
    Ok(exports)
}

/// The views of the entries of a code section, entry by entry.
pub open spec fn code_view(code: Seq<(StackType, Vec<Instr>)>) -> Seq<
    (Seq<ValueType>, Seq<Instr>),
> {
    Seq::new(code.len(), |i: int| code[i]@)
}

/// Reads instructions up to and including the end marker.
fn parse_instrs(wasm: &mut Reader) -> (r: Result<Vec<Instr>, RuntimeError>)
    ensures
        final(wasm).data() == old(wasm).data(),
        match spec_instrs(old(wasm).data(), old(wasm).pos()) {
            Ok((body, p)) => r matches Ok(v) && v@ == body && final(wasm).pos() == p,
            Err(e) => r matches Err(got) && got == e,
        },
{
    let ghost s = wasm.data();
    let ghost whole = spec_instrs(old(wasm).data(), old(wasm).pos());
    let mut instrs: Vec<Instr> = Vec::new();
    proof {
        lemma_prepend_empty(spec_instrs(s, wasm.pos()));
    }
    loop
        invariant
            wasm.data() == s,
            s == old(wasm).data(),
            whole == spec_instrs(old(wasm).data(), old(wasm).pos()),
            whole == prepend(instrs@, spec_instrs(s, wasm.pos())),
        decreases s.len() - wasm.pos(),
    {
        let ghost at = wasm.pos();
        let ghost before = instrs@;
        let opcode = match read_byte(wasm) {
            Ok(b) => b,
            Err(e) => {
                return Err(e);
            },
        };
        if opcode == END {
            assert(before + Seq::<Instr>::empty() =~= before);
            return Ok(instrs);
        } else if opcode == I32_ADD {
            instrs.push(Instr::I32Add);
            proof {
                match spec_instrs(s, at + 1) {
                    Ok((rest, p)) => {
                        assert(before + (seq![Instr::I32Add] + rest) =~= instrs@ + rest);
                    },
                    Err(e) => {},
                }
            }
        } else if opcode == LOCAL_GET {
            let idx = match read_byte(wasm) {
                Ok(b) => b,
                Err(e) => {
                    return Err(e);
                },
            };
            instrs.push(Instr::LocalGet(idx as usize));
            proof {
                match spec_instrs(s, at + 2) {
                    Ok((rest, p)) => {
                        assert(before + (seq![Instr::LocalGet(idx as usize)] + rest) =~= instrs@
                            + rest);
                    },
                    Err(e) => {},
                }
            }
        } else {
            return Err(RuntimeError::InvalidInstruction);
        }
    }
}

/// Reads a code entry: the local declarations and the instructions of one
/// function.
fn parse_code(wasm: &mut Reader) -> (r: Result<(StackType, Vec<Instr>), RuntimeError>)
    ensures
        final(wasm).data() == old(wasm).data(),
        match spec_code(old(wasm).data(), old(wasm).pos()) {
            Ok((code, p)) => r matches Ok(v) && v@ == code && final(wasm).pos() == p,
            Err(e) => r matches Err(got) && got == e,
        },
{
    let _size = match read_u32(wasm) {
        Ok(n) => n,
        Err(e) => {
            return Err(e);
        },
    };
    let locals = match parse_value_types(wasm) {
        Ok(v) => v,
        Err(e) => {
            return Err(e);
        },
    };
    let instrs = match parse_instrs(wasm) {
        Ok(v) => v,
        Err(e) => {
            return Err(e);
        },
    };
    Ok((locals, instrs))
}

/// Reads the code section: for each function its local declarations and
/// its instructions.
pub fn parse_code_section(wasm: &mut Reader) -> (r: Result<
    Vec<(StackType, Vec<Instr>)>,
    RuntimeError,
>)
    ensures
        final(wasm).data() == old(wasm).data(),
        match spec_parse_code_section(old(wasm).data(), old(wasm).pos()) {
            Ok((code, p)) => r matches Ok(v) && code_view(v@) == code && final(wasm).pos() == p,
            Err(e) => r matches Err(got) && got == e,
        },
{
    let _size = match parse_section_start(wasm, SECTION_CODE) {
        Ok(size) => size,
        Err(e) => {
            return Err(e);
        },
    };
    let num = match read_byte(wasm) {
        Ok(n) => n,
        Err(e) => {
            return Err(e);
        },
    };
    let ghost s = wasm.data();
    let ghost whole = spec_parse_code_section(old(wasm).data(), old(wasm).pos());
    let mut code: Vec<(StackType, Vec<Instr>)> = Vec::new();
    let mut i: u8 = 0;
    proof {
        lemma_prepend_empty(spec_repeat(s, wasm.pos(), num as nat, code_parser()));
        assert(code_view(code@) =~= Seq::empty());
    }
    while i < num
        invariant
            i <= num,
            wasm.data() == s,
            s == old(wasm).data(),
            whole == spec_parse_code_section(old(wasm).data(), old(wasm).pos()),
            whole == prepend(
                code_view(code@),
                spec_repeat(s, wasm.pos(), (num - i) as nat, code_parser()),
            ),
        decreases num - i,
    {
        proof {
            lemma_repeat_step(s, wasm.pos(), (num - i) as nat, code_parser(), code_view(code@));
        }
        let ghost before = code@;
        match parse_code(wasm) {
            Ok(entry) => {
                code.push(entry);
                assert(code_view(code@) =~= code_view(before).push(entry@));
            },
            Err(e) => {
                return Err(e);
            },
        }
        i = i + 1;
    }
    proof {
        lemma_repeat_done(s, wasm.pos(), code_parser(), code_view(code@));
    }
    Ok(code)
}

/// Checks the header: at least eight bytes are left, the first four are the
/// magic bytes and the next four spell version 1.
pub fn check_header(wasm: &mut Reader) -> (r: Result<(), RuntimeError>)
    ensures
        reads(old(wasm), final(wasm), spec_check_header(old(wasm).data(), old(wasm).pos()), r),
{
    if wasm.remaining() < 8 {
        return Err(RuntimeError::ModuleToShort);
    }
    let magic = wasm.bytes(4);
    let magic_ok = magic[0] == MAGIC[0] && magic[1] == MAGIC[1] && magic[2] == MAGIC[2]
        && magic[3] == MAGIC[3];
    assert(magic_ok <==> magic@ =~= MAGIC@);
    if !magic_ok {
        return Err(RuntimeError::WrongMagicHeader);
    }
    if wasm.dword() != 1 {
        return Err(RuntimeError::WrongVersionHeader);
    }
    Ok(())
}

/// Joins the type indices of the function section with the entries of the
/// code section, position by position.
fn join_code_func(f_types: &Vec<i32>, code: &Vec<(StackType, Vec<Instr>)>) -> (funcs: Vec<Func>)
    requires
        f_types.len() == code.len(),
    ensures
        funcs_view(funcs@) == spec_join(f_types@, code_view(code@)),
{
    let n = f_types.len();
    let mut funcs: Vec<Func> = Vec::new();
    let mut i: usize = 0;
    while i < n
        invariant
            i <= n,
            n == f_types.len(),
            n == code.len(),
            funcs.len() == i,
            forall|k: int|
                0 <= k < i ==> (#[trigger] funcs@[k])@ == spec_join(f_types@, code_view(code@))[k],
        decreases n - i,
    {
        let func = Func {
            f_type: f_types[i],
            locals: copy_value_types(&code[i].0),
            body: copy_instrs(&code[i].1),
        };
        funcs.push(func);
        i = i + 1;
    }
    assert(funcs_view(funcs@) =~= spec_join(f_types@, code_view(code@)));
    funcs
}

/// Decodes a module.
///
/// The header and the four sections are read in their fixed order; the
/// first construct that is not as the format demands decides the error. The
/// function section and the code section must have the same number of
/// entries, else the result is `FunctionCodeMismatch`.
pub fn parse_wasm(wasm: &mut Reader) -> (r: Result<Module, RuntimeError>)
    ensures
        final(wasm).data() == old(wasm).data(),
        match spec_parse_wasm(old(wasm).data(), old(wasm).pos()) {
            Ok((module, p)) => r matches Ok(v) && v@ == module && final(wasm).pos() == p,
            Err(e) => r matches Err(got) && got == e,
        },
{
    match check_header(wasm) {
        Ok(()) => {},
        Err(e) => {
            return Err(e);
        },
    }
    let types = match parse_type_section(wasm) {
        Ok(v) => v,
        Err(e) => {
            return Err(e);
        },
    };
    let f_types = match parse_func_section(wasm) {
        Ok(v) => v,
        Err(e) => {
            return Err(e);
        },
    };
    let exports = match parse_export_section(wasm) {
        Ok(v) => v,
        Err(e) => {
            return Err(e);
        },
    };
    let code = match parse_code_section(wasm) {
        Ok(v) => v,
        Err(e) => {
            return Err(e);
        },
    };
    if f_types.len() != code.len() {
        return Err(RuntimeError::FunctionCodeMismatch);
    }
    let funcs = join_code_func(&f_types, &code);
    Ok(Module { types, funcs, exports })
}

} // verus!
