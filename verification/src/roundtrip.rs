//! Decoding undoes encoding.
//!
//! The lemmas follow the format from the inside out: each says that where a
//! buffer holds the encoding of a construct, the decoder reads that
//! construct there and stops right behind it.

use crate::ast::{EDesc, ExportView, FuncTypeView, FuncView, Instr, ModuleView, ValueType};
use crate::compiler::format::{
    concat_map, encodable, export_counts_fit, export_encoder, export_index_valid, func_counts_fit,
    func_encoder, func_indices_valid, instr_encoder, spec_code_body, spec_code_section,
    spec_compile, spec_encode_code, spec_encode_export, spec_encode_func, spec_encode_instr,
    spec_encode_type, spec_export_body, spec_export_section, spec_func_body, spec_func_section,
    spec_section, spec_type_body, spec_type_section, spec_val_types, type_counts_fit, type_encoder,
};
use crate::compiler::leb128::{lemma_from_u32_len, spec_from_u32};
use crate::op_codes::{
    spec_val_type, END, EXPORT_FUNC, MAGIC, SECTION_CODE, SECTION_EXPORT, SECTION_FUNC,
    SECTION_TYPE, TYPE_FUNC, VERSION,
};
use crate::runtime::error::RuntimeError;
use crate::runtime::grammar::{
    code_parser, export_parser, func_type_parser, spec_check_header, spec_code, spec_export,
    spec_func_type, spec_instrs, spec_join, spec_name, spec_parse_code_section,
    spec_parse_export_section, spec_parse_func_section, spec_parse_type_section, spec_parse_wasm,
    spec_repeat, spec_section_start, spec_value_types, spec_var_u32, spec_varint, type_index_parser,
    value_type_parser, Parsed,
};
use crate::runtime::interpreter::spec_invoke;
use crate::runtime::spec_invoke_wasm;
use vstd::prelude::*;
use vstd::utf8::{encode_utf8, encode_utf8_decode_utf8, encode_utf8_valid_utf8};

verus! {

/// The buffer `s` holds `bytes` at position `pos`.
pub open spec fn holds_at(s: Seq<u8>, pos: int, bytes: Seq<u8>) -> bool {
    &&& 0 <= pos
    &&& pos + bytes.len() <= s.len()
    &&& forall|i: int| 0 <= i < bytes.len() ==> s[pos + i] == #[trigger] bytes[i]
}

/// Where a buffer holds two parts in a row, it holds each of them.
proof fn lemma_split(s: Seq<u8>, pos: int, a: Seq<u8>, b: Seq<u8>)
    requires
        holds_at(s, pos, a + b),
    ensures
        holds_at(s, pos, a),
        holds_at(s, pos + a.len(), b),
{
    assert forall|i: int| 0 <= i < a.len() implies s[pos + i] == #[trigger] a[i] by {
        assert((a + b)[i] == a[i]);
    }
    assert forall|i: int| 0 <= i < b.len() implies s[pos + a.len() + i] == #[trigger] b[i] by {
        assert((a + b)[a.len() + i] == b[i]);
    }
}

/// The bounds that a variable-length integer of 32 bits has to meet after
/// zero to four of its bytes.
spec fn is_limit(limit: int) -> bool {
    limit == 0x1_0000_0000 || limit == 0x200_0000 || limit == 0x4_0000 || limit == 0x800
        || limit == 0x10
}

/// A variable-length integer below one of the bounds is read back as the
/// value that was encoded.
proof fn lemma_varint(s: Seq<u8>, pos: int, v: u32, limit: int)
    requires
        is_limit(limit),
        v < limit,
        holds_at(s, pos, spec_from_u32(v)),
    ensures
        spec_varint(s, pos, limit) == Ok::<(int, int), RuntimeError>(
            (v as int, pos + spec_from_u32(v).len()),
        ),
    decreases v,
{
    if v < 128 {
        assert(spec_from_u32(v)[0] == v as u8);
    } else {
        let head = seq![(v % 128 + 128) as u8];
        let tail = spec_from_u32(v / 128);
        lemma_split(s, pos, head, tail);
        assert(head[0] == (v % 128 + 128) as u8);
        lemma_varint(s, pos + 1, v / 128, limit / 128);
    }
}

/// A variable-length integer is read back as the value that was encoded.
pub proof fn lemma_var_u32(s: Seq<u8>, pos: int, v: u32)
    requires
        holds_at(s, pos, spec_from_u32(v)),
    ensures
        spec_var_u32(s, pos) == Ok::<(u32, int), RuntimeError>(
            (v, pos + spec_from_u32(v).len()),
        ),
{
    lemma_varint(s, pos, v, 0x1_0000_0000);
}

/// Value type bytes are read back as the value types.
proof fn lemma_value_type_list(s: Seq<u8>, pos: int, types: Seq<ValueType>)
    requires
        holds_at(s, pos, spec_val_types(types)),
    ensures
        spec_repeat(s, pos, types.len(), value_type_parser()) == Ok::<
            (Seq<ValueType>, int),
            RuntimeError,
        >((types, pos + types.len())),
    decreases types.len(),
{
    if types.len() == 0 {
        assert(types =~= Seq::empty());
    } else {
        let rest = types.drop_first();
        assert(spec_val_types(types)[0] == spec_val_type(types[0]));
        assert forall|i: int| 0 <= i < rest.len() implies s[pos + 1 + i]
            == #[trigger] spec_val_types(rest)[i] by {
            assert(spec_val_types(types)[i + 1] == spec_val_type(types[i + 1]));
        }
        lemma_value_type_list(s, pos + 1, rest);
        assert(seq![types[0]] + rest =~= types);
    }
}

/// A count byte and the value types behind it are read back.
proof fn lemma_value_types(s: Seq<u8>, pos: int, types: Seq<ValueType>)
    requires
        types.len() <= 255,
        holds_at(s, pos, seq![types.len() as u8] + spec_val_types(types)),
    ensures
        spec_value_types(s, pos) == Ok::<(Seq<ValueType>, int), RuntimeError>(
            (types, pos + 1 + types.len()),
        ),
{
    let head = seq![types.len() as u8];
    lemma_split(s, pos, head, spec_val_types(types));
    assert(head[0] == types.len() as u8);
    lemma_value_type_list(s, pos + 1, types);
}

/// A function type is read back.
pub proof fn lemma_func_type(s: Seq<u8>, pos: int, t: FuncTypeView)
    requires
        t.0.len() <= 255,
        t.1.len() <= 255,
        holds_at(s, pos, spec_encode_type(t)),
    ensures
        spec_func_type(s, pos) == Ok::<(FuncTypeView, int), RuntimeError>(
            (t, pos + spec_encode_type(t).len()),
        ),
{
    let marker = seq![TYPE_FUNC];
    let params = seq![t.0.len() as u8] + spec_val_types(t.0);
    let results = seq![t.1.len() as u8] + spec_val_types(t.1);
    assert(spec_encode_type(t) =~= marker + (params + results));
    lemma_split(s, pos, marker, params + results);
    lemma_split(s, pos + 1, params, results);
    assert(marker[0] == TYPE_FUNC);
    lemma_value_types(s, pos + 1, t.0);
    lemma_value_types(s, pos + 1 + params.len(), t.1);
}

/// A list of items is read back item by item, if each item is: where `parse`
/// reads every item of `items` back from its encoding by `encode` as what
/// `read_as` makes of it, `items.len()` repetitions of `parse` read the
/// whole list back.
proof fn lemma_repeat<T, U>(
    s: Seq<u8>,
    pos: int,
    items: Seq<T>,
    encode: spec_fn(T) -> Seq<u8>,
    parse: spec_fn(Seq<u8>, int) -> Parsed<U>,
    read_as: spec_fn(T) -> U,
)
    requires
        holds_at(s, pos, concat_map(items, encode)),
        forall|i: int, p: int|
            0 <= i < items.len() && holds_at(s, p, #[trigger] encode(items[i]))
                ==> #[trigger] parse(s, p) == Ok::<(U, int), RuntimeError>(
                (read_as(items[i]), p + encode(items[i]).len()),
            ),
    ensures
        spec_repeat(s, pos, items.len(), parse) == Ok::<(Seq<U>, int), RuntimeError>(
            (
                Seq::new(items.len(), |i: int| read_as(items[i])),
                pos + concat_map(items, encode).len(),
            ),
        ),
    decreases items.len(),
{
    let expected = Seq::new(items.len(), |i: int| read_as(items[i]));
    if items.len() == 0 {
        assert(expected =~= Seq::empty());
    } else {
        let rest = items.drop_first();
        lemma_split(s, pos, encode(items[0]), concat_map(rest, encode));
        let p = pos + encode(items[0]).len();
        assert(parse(s, pos) == Ok::<(U, int), RuntimeError>((read_as(items[0]), p)));
        assert forall|i: int, q: int|
            0 <= i < rest.len() && holds_at(s, q, #[trigger] encode(rest[i]))
            implies #[trigger] parse(s, q) == Ok::<(U, int), RuntimeError>(
            (read_as(rest[i]), q + encode(rest[i]).len()),
        ) by {
            assert(rest[i] == items[i + 1]);
        }
        lemma_repeat(s, p, rest, encode, parse, read_as);
        assert(seq![read_as(items[0])] + Seq::new(rest.len(), |i: int| read_as(rest[i]))
            =~= expected);
    }
}

/// The start of a section is read back: its id is accepted and its size is
/// skipped.
proof fn lemma_section_start(s: Seq<u8>, pos: int, id: u8, body: Seq<u8>)
    requires
        body.len() <= u32::MAX,
        holds_at(s, pos, spec_section(id, body)),
    ensures
        spec_section_start(s, pos, id) == Ok::<(u32, int), RuntimeError>(
            (body.len() as u32, pos + 1 + spec_from_u32(body.len() as u32).len()),
        ),
        holds_at(s, pos + 1 + spec_from_u32(body.len() as u32).len(), body),
        spec_section(id, body).len() == 1 + spec_from_u32(body.len() as u32).len() + body.len(),
{
    let size = spec_from_u32(body.len() as u32);
    assert(spec_section(id, body) =~= seq![id] + (size + body));
    lemma_split(s, pos, seq![id], size + body);
    lemma_split(s, pos + 1, size, body);
    assert(seq![id][0] == id);
    lemma_var_u32(s, pos + 1, body.len() as u32);
}

/// The type section is read back.
pub proof fn lemma_type_section(s: Seq<u8>, pos: int, m: ModuleView)
    requires
        type_counts_fit(m.types),
        holds_at(s, pos, spec_type_section(m)),
    ensures
        spec_parse_type_section(s, pos) == Ok::<(Seq<FuncTypeView>, int), RuntimeError>(
            (m.types, pos + spec_type_section(m).len()),
        ),
{
    let body = spec_type_body(m.types);
    let count = spec_from_u32(m.types.len() as u32);
    let items = concat_map(m.types, type_encoder());
    lemma_section_start(s, pos, SECTION_TYPE, body);
    let at0 = pos + 1 + spec_from_u32(body.len() as u32).len();
    lemma_split(s, at0, count, items);
    lemma_var_u32(s, at0, m.types.len() as u32);
    let at1 = at0 + count.len();
    assert forall|i: int, p: int|
        0 <= i < m.types.len() && holds_at(s, p, #[trigger] type_encoder()(m.types[i])) implies (
        #[trigger] func_type_parser()(s, p)) == Ok::<(FuncTypeView, int), RuntimeError>(
        (m.types[i], p + type_encoder()(m.types[i]).len()),
    ) by {
        lemma_func_type(s, p, m.types[i]);
    }
    lemma_repeat(s, at1, m.types, type_encoder(), func_type_parser(), |t: FuncTypeView| t);
    assert(spec_repeat(s, at1, m.types.len(), func_type_parser())->Ok_0.0 =~= m.types);
}

/// Type index bytes are read back as the numbers they hold.
proof fn lemma_type_index_list(s: Seq<u8>, pos: int, bytes: Seq<u8>)
    requires
        holds_at(s, pos, bytes),
    ensures
        spec_repeat(s, pos, bytes.len(), type_index_parser()) == Ok::<
            (Seq<i32>, int),
            RuntimeError,
        >((Seq::new(bytes.len(), |i: int| bytes[i] as i32), pos + bytes.len())),
    decreases bytes.len(),
{
    let expected = Seq::new(bytes.len(), |i: int| bytes[i] as i32);
    if bytes.len() == 0 {
        assert(expected =~= Seq::empty());
    } else {
        let rest = bytes.drop_first();
        assert(s[pos + 0] == bytes[0]);
        assert forall|i: int| 0 <= i < rest.len() implies s[pos + 1 + i] == #[trigger] rest[i] by {
            assert(rest[i] == bytes[i + 1]);
        }
        lemma_type_index_list(s, pos + 1, rest);
        assert(seq![bytes[0] as i32] + Seq::new(rest.len(), |i: int| rest[i] as i32)
            =~= expected);
    }
}

/// The function section is read back as the type indices of the functions.
pub proof fn lemma_func_section(s: Seq<u8>, pos: int, m: ModuleView)
    requires
        0 < m.funcs.len() <= 255,
        forall|i: int| 0 <= i < m.funcs.len() ==> 0 <= (#[trigger] m.funcs[i]).f_type <= 255,
        holds_at(s, pos, spec_func_section(m)),
    ensures
        spec_parse_func_section(s, pos) == Ok::<(Seq<i32>, int), RuntimeError>(
            (Seq::new(m.funcs.len(), |i: int| m.funcs[i].f_type), pos + spec_func_section(m).len()),
        ),
{
    let body = spec_func_body(m.funcs);
    let count = spec_from_u32(m.funcs.len() as u32);
    let indices = Seq::new(m.funcs.len(), |i: int| m.funcs[i].f_type as u8);
    lemma_from_u32_len(m.funcs.len() as u32);
    lemma_section_start(s, pos, SECTION_FUNC, body);
    let at0 = pos + 1 + spec_from_u32(body.len() as u32).len();
    lemma_split(s, at0, count, indices);
    lemma_var_u32(s, at0, m.funcs.len() as u32);
    let at1 = at0 + count.len();
    lemma_type_index_list(s, at1, indices);
    assert(spec_repeat(s, at1, m.funcs.len(), type_index_parser())->Ok_0.0 =~= Seq::new(
        m.funcs.len(),
        |i: int| m.funcs[i].f_type,
    ));
}

/// An export is read back.
pub proof fn lemma_export(s: Seq<u8>, pos: int, e: ExportView)
    requires
        encode_utf8(e.name).len() <= u32::MAX,
        e.e_desc.func_index() <= 255,
        holds_at(s, pos, spec_encode_export(e)),
    ensures
        spec_export(s, pos) == Ok::<(ExportView, int), RuntimeError>(
            (e, pos + spec_encode_export(e).len()),
        ),
{
    let name = encode_utf8(e.name);
    let len = spec_from_u32(name.len() as u32);
    let tail = seq![EXPORT_FUNC, e.e_desc.func_index() as u8];
    assert(spec_encode_export(e) =~= len + (name + tail));
    lemma_split(s, pos, len, name + tail);
    let p = pos + len.len();
    lemma_split(s, p, name, tail);
    lemma_var_u32(s, pos, name.len() as u32);
    assert(s.subrange(p, p + name.len()) =~= name);
    encode_utf8_valid_utf8(e.name);
    encode_utf8_decode_utf8(e.name);
    assert(spec_name(s, pos) == Ok::<(Seq<char>, int), RuntimeError>((e.name, p + name.len())));
    assert(tail[0] == EXPORT_FUNC);
    assert(tail[1] == e.e_desc.func_index() as u8);
    assert(EDesc::FuncExport((e.e_desc.func_index() as u8) as usize) == e.e_desc);
}

/// The export section is read back.
pub proof fn lemma_export_section(s: Seq<u8>, pos: int, m: ModuleView)
    requires
        0 < m.exports.len(),
        export_counts_fit(m.exports),
        forall|i: int|
            0 <= i < m.exports.len() ==> (#[trigger] m.exports[i]).e_desc.func_index() <= 255,
        holds_at(s, pos, spec_export_section(m)),
    ensures
        spec_parse_export_section(s, pos) == Ok::<(Seq<ExportView>, int), RuntimeError>(
            (m.exports, pos + spec_export_section(m).len()),
        ),
{
    let body = spec_export_body(m.exports);
    let count = spec_from_u32(m.exports.len() as u32);
    let items = concat_map(m.exports, export_encoder());
    lemma_section_start(s, pos, SECTION_EXPORT, body);
    let at0 = pos + 1 + spec_from_u32(body.len() as u32).len();
    lemma_split(s, at0, count, items);
    lemma_var_u32(s, at0, m.exports.len() as u32);
    let at1 = at0 + count.len();
    assert forall|i: int, p: int|
        0 <= i < m.exports.len() && holds_at(
            s,
            p,
            #[trigger] export_encoder()(m.exports[i]),
        ) implies (#[trigger] export_parser()(s, p)) == Ok::<(ExportView, int), RuntimeError>(
        (m.exports[i], p + export_encoder()(m.exports[i]).len()),
    ) by {
        lemma_export(s, p, m.exports[i]);
    }
    lemma_repeat(s, at1, m.exports, export_encoder(), export_parser(), |e: ExportView| e);
    assert(spec_repeat(s, at1, m.exports.len(), export_parser())->Ok_0.0 =~= m.exports);
}

/// The instructions of a body and the end marker are read back.
proof fn lemma_instrs(s: Seq<u8>, pos: int, body: Seq<Instr>)
    requires
        forall|j: int|
            0 <= j < body.len() ==> (#[trigger] body[j] matches Instr::LocalGet(idx) ==> idx
                <= 255),
        holds_at(s, pos, concat_map(body, instr_encoder()) + seq![END]),
    ensures
        spec_instrs(s, pos) == Ok::<(Seq<Instr>, int), RuntimeError>(
            (body, pos + concat_map(body, instr_encoder()).len() + 1),
        ),
    decreases body.len(),
{
    let end = seq![END];
    if body.len() == 0 {
        assert(concat_map(body, instr_encoder()) + end =~= end);
        assert(end[0] == END);
        assert(body =~= Seq::empty());
    } else {
        let rest = body.drop_first();
        let first = spec_encode_instr(body[0]);
        let tail = concat_map(rest, instr_encoder()) + end;
        assert(concat_map(body, instr_encoder()) + end =~= first + tail);
        lemma_split(s, pos, first, tail);
        assert forall|j: int| 0 <= j < rest.len() implies (
        #[trigger] rest[j] matches Instr::LocalGet(idx) ==> idx <= 255) by {
            assert(rest[j] == body[j + 1]);
        }
        lemma_instrs(s, pos + first.len(), rest);
        assert(s[pos + 0] == first[0]);
        match body[0] {
            Instr::LocalGet(idx) => {
                assert(s[pos + 1] == first[1]);
                assert((idx as u8) as usize == idx);
            },
            Instr::I32Add => {},
        }
        assert(seq![body[0]] + rest =~= body);
    }
}

/// The code of a function without local declarations is read back.
pub proof fn lemma_code(s: Seq<u8>, pos: int, f: FuncView)
    requires
        f.locals.len() == 0,
        spec_encode_code(f).len() <= u32::MAX,
        forall|j: int|
            0 <= j < f.body.len() ==> (#[trigger] f.body[j] matches Instr::LocalGet(idx) ==> idx
                <= 255),
        holds_at(s, pos, spec_encode_func(f)),
    ensures
        spec_code(s, pos) == Ok::<((Seq<ValueType>, Seq<Instr>), int), RuntimeError>(
            ((f.locals, f.body), pos + spec_encode_func(f).len()),
        ),
{
    let code = spec_encode_code(f);
    let size = spec_from_u32(code.len() as u32);
    let locals = seq![f.locals.len() as u8];
    let instrs = concat_map(f.body, instr_encoder()) + seq![END];
    lemma_split(s, pos, size, code);
    lemma_var_u32(s, pos, code.len() as u32);
    let at0 = pos + size.len();
    assert(code =~= locals + instrs);
    lemma_split(s, at0, locals, instrs);
    assert(locals[0] == 0);
    assert(spec_value_types(s, at0) == Ok::<(Seq<ValueType>, int), RuntimeError>(
        (Seq::empty(), at0 + 1),
    ));
    assert(f.locals =~= Seq::empty());
    lemma_instrs(s, at0 + 1, f.body);
}

/// The code section of functions without local declarations is read back
/// as the local declarations and the body of each function.
pub proof fn lemma_code_section(s: Seq<u8>, pos: int, m: ModuleView)
    requires
        0 < m.funcs.len(),
        func_counts_fit(m.funcs),
        forall|i: int| 0 <= i < m.funcs.len() ==> (#[trigger] m.funcs[i]).locals.len() == 0,
        forall|i: int, j: int|
            0 <= i < m.funcs.len() && 0 <= j < m.funcs[i].body.len() ==> (
            #[trigger] m.funcs[i].body[j] matches Instr::LocalGet(idx) ==> idx <= 255),
        holds_at(s, pos, spec_code_section(m)),
    ensures
        spec_parse_code_section(s, pos) == Ok::<
            (Seq<(Seq<ValueType>, Seq<Instr>)>, int),
            RuntimeError,
        >(
            (
                Seq::new(m.funcs.len(), |i: int| (m.funcs[i].locals, m.funcs[i].body)),
                pos + spec_code_section(m).len(),
            ),
        ),
{
    let body = spec_code_body(m.funcs);
    let count = seq![m.funcs.len() as u8];
    let items = concat_map(m.funcs, func_encoder());
    lemma_section_start(s, pos, SECTION_CODE, body);
    let at0 = pos + 1 + spec_from_u32(body.len() as u32).len();
    lemma_split(s, at0, count, items);
    assert(count[0] == m.funcs.len() as u8);
    let at1 = at0 + 1;
    let read_as = |f: FuncView| (f.locals, f.body);
    assert forall|i: int, p: int|
        0 <= i < m.funcs.len() && holds_at(s, p, #[trigger] func_encoder()(m.funcs[i])) implies (
        #[trigger] code_parser()(s, p)) == Ok::<((Seq<ValueType>, Seq<Instr>), int), RuntimeError>(
        (read_as(m.funcs[i]), p + func_encoder()(m.funcs[i]).len()),
    ) by {
        lemma_code(s, p, m.funcs[i]);
    }
    lemma_repeat(s, at1, m.funcs, func_encoder(), code_parser(), read_as);
    assert(spec_repeat(s, at1, m.funcs.len(), code_parser())->Ok_0.0 =~= Seq::new(
        m.funcs.len(),
        |i: int| (m.funcs[i].locals, m.funcs[i].body),
    ));
}

/// The header is read back.
pub proof fn lemma_header(s: Seq<u8>, pos: int)
    requires
        holds_at(s, pos, MAGIC@ + VERSION@),
    ensures
        spec_check_header(s, pos) == Ok::<((), int), RuntimeError>(((), pos + 8)),
{
    lemma_split(s, pos, MAGIC@, VERSION@);
    assert(s.subrange(pos, pos + 4) =~= MAGIC@);
    assert(s.subrange(pos + 4, pos + 8) =~= VERSION@);
}

/// Where a buffer consists of five parts, it holds each of them behind the
/// parts before it.
proof fn lemma_five_parts(s: Seq<u8>, a: Seq<u8>, b: Seq<u8>, c: Seq<u8>, d: Seq<u8>, e: Seq<u8>)
    requires
        s == a + b + c + d + e,
    ensures
        holds_at(s, 0, a),
        holds_at(s, a.len() as int, b),
        holds_at(s, (a.len() + b.len()) as int, c),
        holds_at(s, (a.len() + b.len() + c.len()) as int, d),
        holds_at(s, (a.len() + b.len() + c.len() + d.len()) as int, e),
        s.len() == a.len() + b.len() + c.len() + d.len() + e.len(),
{
    assert(s =~= a + (b + (c + (d + e))));
    lemma_split(s, 0, a, b + (c + (d + e)));
    lemma_split(s, a.len() as int, b, c + (d + e));
    lemma_split(s, (a.len() + b.len()) as int, c, d + e);
    lemma_split(s, (a.len() + b.len() + c.len()) as int, d, e);
}

/// The module has a function and an export, so that its binary form has
/// all four sections, and none of its functions declares locals, whose
/// types the binary form would not hold.
pub open spec fn complete(m: ModuleView) -> bool {
    &&& m.funcs.len() > 0
    &&& m.exports.len() > 0
    &&& forall|i: int| 0 <= i < m.funcs.len() ==> (#[trigger] m.funcs[i]).locals.len() == 0
}

/// Decoding the binary form of a module gives the module back, and the
/// decoder stops at the end of the binary form. This holds of every module
/// that has a binary form with all four sections and no local declarations.
pub proof fn round_trip(m: ModuleView)
    requires
        encodable(m),
        complete(m),
    ensures
        spec_parse_wasm(spec_compile(m), 0) == Ok::<(ModuleView, int), RuntimeError>(
            (m, spec_compile(m).len() as int),
        ),
{
    let s = spec_compile(m);
    let header = MAGIC@ + VERSION@;
    let types = spec_type_section(m);
    let funcs = spec_func_section(m);
    let exports = spec_export_section(m);
    let code = spec_code_section(m);
    let at1: int = 8int + types.len();
    let at2: int = at1 + funcs.len();
    let at3: int = at2 + exports.len();
    lemma_five_parts(s, header, types, funcs, exports, code);
    lemma_header(s, 0);
    lemma_type_section(s, 8, m);
    assert forall|i: int| 0 <= i < m.funcs.len() implies 0 <= (#[trigger] m.funcs[i]).f_type
        <= 255 by {
        assert(func_indices_valid(m.funcs[i], m.types.len()));
    }
    lemma_func_section(s, at1, m);
    assert forall|i: int| 0 <= i < m.exports.len() implies (
    #[trigger] m.exports[i]).e_desc.func_index() <= 255 by {
        assert(export_index_valid(m.exports[i], m.funcs.len()));
    }
    lemma_export_section(s, at2, m);
    assert forall|i: int, j: int|
        0 <= i < m.funcs.len() && 0 <= j < m.funcs[i].body.len() implies (
    #[trigger] m.funcs[i].body[j] matches Instr::LocalGet(idx) ==> idx <= 255) by {
        assert(func_indices_valid(m.funcs[i], m.types.len()));
    }
    lemma_code_section(s, at3, m);
    let type_indices = Seq::new(m.funcs.len(), |i: int| m.funcs[i].f_type);
    let entries = Seq::new(m.funcs.len(), |i: int| (m.funcs[i].locals, m.funcs[i].body));
    assert(spec_join(type_indices, entries) =~= m.funcs);
}

/// Invoking an export of a module and invoking it on the module's binary
/// form give the same result, whatever the export's name and the arguments.
/// This holds of every module that has a binary form with all four sections
/// and no local declarations.
pub proof fn invoke_after_round_trip(m: ModuleView, name: Seq<char>, params: Seq<i32>)
    requires
        encodable(m),
        complete(m),
    ensures
        spec_invoke_wasm(spec_compile(m), name, params) == spec_invoke(m, name, params),
{
    round_trip(m);
}

} // verus!
