//! The encoder proper: one function per section, and `compile` for the
//! whole module.

use crate::ast::{EDesc, Export, Func, FuncType, Instr, Module, ValueType};
use crate::compiler::error::EncodeError;
use crate::compiler::format::{
    code_counts_fit, concat_map, counts_fit, encodable, export_counts_fit, export_encoder,
    export_index_valid, func_counts_fit, func_encoder, func_indices_valid, indices_valid,
    instr_encoder, lemma_concat_map_push, spec_code_body, spec_code_section, spec_compile,
    spec_encode_code, spec_encode_export, spec_encode_func, spec_encode_instr, spec_encode_type,
    spec_export_body, spec_export_section, spec_func_body, spec_func_section, spec_section,
    spec_type_body, spec_type_section, spec_val_types, type_counts_fit, type_encoder,
};
use crate::compiler::leb128::{from_u32, lemma_from_u32_len, spec_from_u32};
use crate::op_codes::{
    val_type, END, EXPORT_FUNC, I32_ADD, LOCAL_GET, MAGIC, SECTION_CODE, SECTION_EXPORT,
    SECTION_FUNC, SECTION_TYPE, TYPE_FUNC, VERSION,
};
use vstd::prelude::*;
use vstd::utf8::encode_utf8;

verus! {

/// Appends one byte per value type.
fn push_val_types(out: &mut Vec<u8>, types: &Vec<ValueType>)
    ensures
        final(out)@ == old(out)@ + spec_val_types(types@),
{
    let mut i: usize = 0;
    while i < types.len()
        invariant
            i <= types.len(),
            out@ == old(out)@ + spec_val_types(types@.take(i as int)),
        decreases types.len() - i,
    {
        out.push(val_type(&types[i]));
        i = i + 1;
        assert(out@ =~= old(out)@ + spec_val_types(types@.take(i as int)));
    }
    assert(types@.take(i as int) =~= types@);
}

/// Appends a section with the given id and body.
fn push_section(out: &mut Vec<u8>, id: u8, body: Vec<u8>)
    requires
        body.len() <= u32::MAX,
    ensures
        final(out)@ == old(out)@ + spec_section(id, body@),
{
    let ghost content = body@;
    let mut body = body;
    let mut size = from_u32(body.len() as u32);
    out.push(id);
    out.append(&mut size);
    out.append(&mut body);
    assert(out@ =~= old(out)@ + spec_section(id, content));
}

/// Encodes one function type.
fn encode_type(t: &FuncType) -> (r: Result<Vec<u8>, EncodeError>)
    ensures
        match r {
            Ok(bytes) => t.0@.len() <= 255 && t.1@.len() <= 255 && bytes@ == spec_encode_type(
                t@,
            ),
            Err(e) => e == EncodeError::CountOverflow && !(t.0@.len() <= 255 && t.1@.len()
                <= 255),
        },
{
    if t.0.len() > 255 || t.1.len() > 255 {
        return Err(EncodeError::CountOverflow);
    }
    let mut out: Vec<u8> = Vec::new();
    out.push(TYPE_FUNC);
    out.push(t.0.len() as u8);
    push_val_types(&mut out, &t.0);
    out.push(t.1.len() as u8);
    push_val_types(&mut out, &t.1);
    assert(out@ =~= spec_encode_type(t@));
    Ok(out)
}

/// Encodes the type section, which is present even for an empty type table.
pub fn encode_type_section(ast: &Module) -> (r: Result<Vec<u8>, EncodeError>)
    ensures
        match r {
            Ok(bytes) => type_counts_fit(ast@.types) && bytes@ == spec_type_section(ast@),
            Err(e) => e == EncodeError::CountOverflow && !type_counts_fit(ast@.types),
        },
{
    let n = ast.types.len();
    if n > 0xffff_ffff {
        return Err(EncodeError::CountOverflow);
    }
    let ghost types = ast@.types;
    let mut body = from_u32(n as u32);
    let mut i: usize = 0;
    while i < n
        invariant
            i <= n,
            n == ast.types.len(),
            n <= u32::MAX,
            types == ast@.types,
            body@ == spec_from_u32(n as u32) + concat_map(types.take(i as int), type_encoder()),
            forall|k: int|
                0 <= k < i ==> (#[trigger] types[k]).0.len() <= 255 && types[k].1.len() <= 255,
        decreases n - i,
    {
        assert(types[i as int] == ast.types@[i as int]@);
        let mut item = match encode_type(&ast.types[i]) {
            Ok(item) => item,
            Err(e) => {
                return Err(e);
            },
        };
        proof {
            lemma_concat_map_push(types.take(i as int), types[i as int], type_encoder());
            assert(types.take(i as int + 1) =~= types.take(i as int).push(types[i as int]));
        }
        body.append(&mut item);
        i = i + 1;
        assert(body@ =~= spec_from_u32(n as u32) + concat_map(
            types.take(i as int),
            type_encoder(),
        ));
    }
    assert(types.take(n as int) =~= types);
    assert(body@ == spec_type_body(types));
    if body.len() > 0xffff_ffff {
        return Err(EncodeError::CountOverflow);
    }
    let mut out: Vec<u8> = Vec::new();
    push_section(&mut out, SECTION_TYPE, body);
    assert(out@ =~= spec_type_section(ast@));
    Ok(out)
}

/// Encodes the function section: one type index byte per function. The
/// section is absent when there are no functions.
pub fn encode_func_section(ast: &Module) -> (r: Result<Vec<u8>, EncodeError>)
    ensures
        match r {
            Ok(bytes) => ast@.funcs.len() <= 255 && bytes@ == spec_func_section(ast@),
            Err(e) => e == EncodeError::CountOverflow && ast@.funcs.len() > 255,
        },
{
    let n = ast.funcs.len();
    if n > 255 {
        return Err(EncodeError::CountOverflow);
    }
    if n == 0 {
        return Ok(Vec::new());
    }
    let ghost funcs = ast@.funcs;
    let ghost indices = Seq::new(funcs.len(), |i: int| funcs[i].f_type as u8);
    let mut body = from_u32(n as u32);
    let mut i: usize = 0;
    while i < n
        invariant
            i <= n,
            n == ast.funcs.len(),
            funcs == ast@.funcs,
            indices == Seq::new(funcs.len(), |i: int| funcs[i].f_type as u8),
            body@ == spec_from_u32(n as u32) + indices.take(i as int),
        decreases n - i,
    {
        assert(funcs[i as int] == ast.funcs@[i as int]@);
        body.push(ast.funcs[i].f_type as u8);
        i = i + 1;
        assert(body@ =~= spec_from_u32(n as u32) + indices.take(i as int));
    }
    assert(indices.take(n as int) =~= indices);
    assert(body@ == spec_func_body(funcs));
    assert(body@.len() <= 5 + 255) by {
        lemma_from_u32_len(n as u32);
    }
    let mut out: Vec<u8> = Vec::new();
    push_section(&mut out, SECTION_FUNC, body);
    assert(out@ =~= spec_func_section(ast@));
    Ok(out)
}

/// Encodes one export.
fn encode_export(export: &Export) -> (r: Result<Vec<u8>, EncodeError>)
    ensures
        match r {
            Ok(bytes) => encode_utf8(export@.name).len() <= u32::MAX && bytes@
                == spec_encode_export(export@),
            Err(e) => e == EncodeError::CountOverflow && encode_utf8(export@.name).len()
                > u32::MAX,
        },
{
    let name = export.name.as_str().as_bytes();
    if name.len() > 0xffff_ffff {
        return Err(EncodeError::CountOverflow);
    }
    let mut out = from_u32(name.len() as u32);
    let ghost prefix = out@;
    out.extend_from_slice(name);
    assert(out@ =~= prefix + name@);
    out.push(EXPORT_FUNC);
    match export.e_desc {
        EDesc::FuncExport(idx) => {
            out.push(idx as u8);
        },
    }
    assert(out@ =~= spec_encode_export(export@));
    Ok(out)
}

/// Encodes the export section. The section is absent when there are no
/// exports.
pub fn encode_export_section(ast: &Module) -> (r: Result<Vec<u8>, EncodeError>)
    ensures
        match r {
            Ok(bytes) => export_counts_fit(ast@.exports) && bytes@ == spec_export_section(ast@),
            Err(e) => e == EncodeError::CountOverflow && !export_counts_fit(ast@.exports),
        },
{
    let n = ast.exports.len();
    if n > 0xffff_ffff {
        return Err(EncodeError::CountOverflow);
    }
    let ghost exports = ast@.exports;
    let mut body = from_u32(n as u32);
    let mut i: usize = 0;
    while i < n
        invariant
            i <= n,
            n == ast.exports.len(),
            n <= u32::MAX,
            exports == ast@.exports,
            body@ == spec_from_u32(n as u32) + concat_map(
                exports.take(i as int),
                export_encoder(),
            ),
            forall|k: int|
                0 <= k < i ==> encode_utf8((#[trigger] exports[k]).name).len() <= u32::MAX,
        decreases n - i,
    {
        assert(exports[i as int] == ast.exports@[i as int]@);
        let mut item = match encode_export(&ast.exports[i]) {
            Ok(item) => item,
            Err(e) => {
                return Err(e);
            },
        };
        proof {
            lemma_concat_map_push(exports.take(i as int), exports[i as int], export_encoder());
            assert(exports.take(i as int + 1) =~= exports.take(i as int).push(
                exports[i as int],
            ));
        }
        body.append(&mut item);
        i = i + 1;
        assert(body@ =~= spec_from_u32(n as u32) + concat_map(
            exports.take(i as int),
            export_encoder(),
        ));
    }
    assert(exports.take(n as int) =~= exports);
    assert(body@ == spec_export_body(exports));
    if body.len() > 0xffff_ffff {
        return Err(EncodeError::CountOverflow);
    }
    if n == 0 {
        return Ok(Vec::new());
    }
    let mut out: Vec<u8> = Vec::new();
    push_section(&mut out, SECTION_EXPORT, body);
    assert(out@ =~= spec_export_section(ast@));
    Ok(out)
}

/// Encodes one instruction.
fn encode_instr(instr: &Instr) -> (out: Vec<u8>)
    ensures
        out@ == spec_encode_instr(*instr),
{
    let mut out: Vec<u8> = Vec::new();
    match instr {
        Instr::LocalGet(idx) => {
            out.push(LOCAL_GET);
            out.push(*idx as u8);
        },
        Instr::I32Add => {
            out.push(I32_ADD);
        },
    }
    assert(out@ =~= spec_encode_instr(*instr));
    out
}

/// Encodes the code of one function, with its length prefix.
fn encode_func(func: &Func) -> (r: Result<Vec<u8>, EncodeError>)
    ensures
        match r {
            Ok(bytes) => code_counts_fit(func@) && bytes@ == spec_encode_func(func@),
            Err(e) => e == EncodeError::CountOverflow && !code_counts_fit(func@),
        },
{
    if func.locals.len() > 255 {
        return Err(EncodeError::CountOverflow);
    }
    let mut code: Vec<u8> = Vec::new();
    code.push(func.locals.len() as u8);
    let ghost head = code@;
    let n = func.body.len();
    let mut i: usize = 0;
    while i < n
        invariant
            i <= n,
            n == func.body.len(),
            code@ == head + concat_map(func.body@.take(i as int), instr_encoder()),
        decreases n - i,
    {
        let mut item = encode_instr(&func.body[i]);
        proof {
            lemma_concat_map_push(func.body@.take(i as int), func.body@[i as int], instr_encoder());
            assert(func.body@.take(i as int + 1) =~= func.body@.take(i as int).push(
                func.body@[i as int],
            ));
        }
        code.append(&mut item);
        i = i + 1;
        assert(code@ =~= head + concat_map(func.body@.take(i as int), instr_encoder()));
    }
    assert(func.body@.take(n as int) =~= func.body@);
    code.push(END);
    assert(code@ =~= spec_encode_code(func@));
    if code.len() > 0xffff_ffff {
        return Err(EncodeError::CountOverflow);
    }
    let mut out = from_u32(code.len() as u32);
    out.append(&mut code);
    Ok(out)
}

/// Encodes the code section. The section is absent when there are no
/// functions.
pub fn encode_code_section(ast: &Module) -> (r: Result<Vec<u8>, EncodeError>)
    ensures
        match r {
            Ok(bytes) => func_counts_fit(ast@.funcs) && bytes@ == spec_code_section(ast@),
            Err(e) => e == EncodeError::CountOverflow && !func_counts_fit(ast@.funcs),
        },
{
    let n = ast.funcs.len();
    if n > 255 {
        return Err(EncodeError::CountOverflow);
    }
    let ghost funcs = ast@.funcs;
    let mut body: Vec<u8> = Vec::new();
    body.push(n as u8);
    let ghost head = body@;
    let mut i: usize = 0;
    while i < n
        invariant
            i <= n,
            n == ast.funcs.len(),
            funcs == ast@.funcs,
            body@ == head + concat_map(funcs.take(i as int), func_encoder()),
            forall|k: int| 0 <= k < i ==> code_counts_fit(#[trigger] funcs[k]),
        decreases n - i,
    {
        assert(funcs[i as int] == ast.funcs@[i as int]@);
        let mut item = match encode_func(&ast.funcs[i]) {
            Ok(item) => item,
            Err(e) => {
                return Err(e);
            },
        };
        proof {
            lemma_concat_map_push(funcs.take(i as int), funcs[i as int], func_encoder());
            assert(funcs.take(i as int + 1) =~= funcs.take(i as int).push(funcs[i as int]));
        }
        body.append(&mut item);
        i = i + 1;
        assert(body@ =~= head + concat_map(funcs.take(i as int), func_encoder()));
    }
    assert(funcs.take(n as int) =~= funcs);
    assert(body@ == spec_code_body(funcs));
    if body.len() > 0xffff_ffff {
        return Err(EncodeError::CountOverflow);
    }
    if n == 0 {
        return Ok(Vec::new());
    }
    let mut out: Vec<u8> = Vec::new();
    push_section(&mut out, SECTION_CODE, body);
    assert(out@ =~= spec_code_section(ast@));
    Ok(out)
}

/// Whether the type index and the local indices of `func` are valid in a
/// module with `n_types` types.
fn func_indices_ok(func: &Func, n_types: usize) -> (ok: bool)
    ensures
        ok == func_indices_valid(func@, n_types as nat),
{
    if func.f_type < 0 || func.f_type > 255 || func.f_type as usize >= n_types {
        return false;
    }
    let n = func.body.len();
    let mut j: usize = 0;
    while j < n
        invariant
            j <= n,
            n == func.body.len(),
            forall|k: int|
                0 <= k < j ==> (#[trigger] func.body@[k] matches Instr::LocalGet(idx) ==> idx
                    <= 255),
        decreases n - j,
    {
        match &func.body[j] {
            Instr::LocalGet(idx) => {
                if *idx > 255 {
                    return false;
                }
            },
            Instr::I32Add => {},
        }
        j = j + 1;
    }
    true
}

/// Whether every index of the module names something and fits its byte.
pub fn check_indices(ast: &Module) -> (ok: bool)
    ensures
        ok == indices_valid(ast@),
{
    let n_types = ast.types.len();
    let n_funcs = ast.funcs.len();
    let mut i: usize = 0;
    while i < n_funcs
        invariant
            i <= n_funcs,
            n_funcs == ast.funcs.len(),
            n_types == ast.types.len(),
            forall|k: int|
                0 <= k < i ==> func_indices_valid(#[trigger] ast@.funcs[k], n_types as nat),
        decreases n_funcs - i,
    {
        assert(ast@.funcs[i as int] == ast.funcs@[i as int]@);
        if !func_indices_ok(&ast.funcs[i], n_types) {
            return false;
        }
        i = i + 1;
    }
    let n_exports = ast.exports.len();
    let mut i: usize = 0;
    while i < n_exports
        invariant
            i <= n_exports,
            n_exports == ast.exports.len(),
            n_funcs == ast.funcs.len(),
            forall|k: int|
                0 <= k < i ==> export_index_valid(#[trigger] ast@.exports[k], n_funcs as nat),
        decreases n_exports - i,
    {
        assert(ast@.exports[i as int] == ast.exports@[i as int]@);
        match ast.exports[i].e_desc {
            EDesc::FuncExport(idx) => {
                if idx >= n_funcs || idx > 255 {
                    return false;
                }
            },
        }
        i = i + 1;
    }
    true
}

/// Encodes a module.
///
/// The result is the module's binary form exactly when every index names
/// something and fits its byte and every count and length fits its field.
/// Otherwise the module is rejected: for an index first, for a count if all
/// indices are in order.
pub fn compile(ast: &Module) -> (r: Result<Vec<u8>, EncodeError>)
    ensures
        match r {
            Ok(bytes) => encodable(ast@) && bytes@ == spec_compile(ast@),
            Err(EncodeError::InvalidIndex) => !indices_valid(ast@),
            Err(EncodeError::CountOverflow) => indices_valid(ast@) && !counts_fit(ast@),
        },
{
    if !check_indices(ast) {
        return Err(EncodeError::InvalidIndex);
    }
    let mut types = match encode_type_section(ast) {
        Ok(bytes) => bytes,
        Err(e) => {
            return Err(e);
        },
    };
    let mut funcs = match encode_func_section(ast) {
        Ok(bytes) => bytes,
        Err(e) => {
            return Err(e);
        },
    };
    let mut exports = match encode_export_section(ast) {
        Ok(bytes) => bytes,
        Err(e) => {
            return Err(e);
        },
    };
    let mut code = match encode_code_section(ast) {
        Ok(bytes) => bytes,
        Err(e) => {
            return Err(e);
        },
    };
    let mut out: Vec<u8> = Vec::new();
    out.extend_from_slice(MAGIC.as_slice());
    out.extend_from_slice(VERSION.as_slice());
    assert(out@ =~= MAGIC@ + VERSION@);
    let ghost t = types@;
    let ghost f = funcs@;
    let ghost e = exports@;
    let ghost c = code@;
    out.append(&mut types);
    out.append(&mut funcs);
    out.append(&mut exports);
    out.append(&mut code);
    assert(out@ =~= MAGIC@ + VERSION@ + t + f + e + c);
    Ok(out)
}

} // verus!
