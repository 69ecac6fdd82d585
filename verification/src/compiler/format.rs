//! The binary layout of a module, as a function from module views to bytes,
//! and the conditions under which a module has such a layout.

use crate::ast::{ExportView, FuncTypeView, FuncView, Instr, ModuleView, ValueType};
use crate::compiler::leb128::spec_from_u32;
use crate::op_codes::{
    spec_val_type, END, EXPORT_FUNC, I32_ADD, LOCAL_GET, MAGIC, SECTION_CODE, SECTION_EXPORT,
    SECTION_FUNC, SECTION_TYPE, TYPE_FUNC, VERSION,
};
use vstd::prelude::*;
use vstd::utf8::encode_utf8;

verus! {

/// The encodings of the items of a list, one after the other.
pub open spec fn concat_map<T>(items: Seq<T>, f: spec_fn(T) -> Seq<u8>) -> Seq<u8>
    decreases items.len(),
{
    if items.len() == 0 {
        Seq::empty()
    } else {
        f(items.first()) + concat_map(items.drop_first(), f)
    }
}

/// Appending an item appends its encoding.
pub proof fn lemma_concat_map_push<T>(items: Seq<T>, item: T, f: spec_fn(T) -> Seq<u8>)
    ensures
        concat_map(items.push(item), f) == concat_map(items, f) + f(item),
    decreases items.len(),
{
    if items.len() == 0 {
        let one = items.push(item);
        assert(one.drop_first() =~= Seq::<T>::empty());
        assert(concat_map(one.drop_first(), f) =~= Seq::<u8>::empty());
        assert(concat_map(one, f) =~= f(item));
        assert(concat_map(items, f) + f(item) =~= f(item));
    } else {
        assert(items.push(item).drop_first() =~= items.drop_first().push(item));
        lemma_concat_map_push(items.drop_first(), item, f);
        assert(concat_map(items.push(item), f) =~= concat_map(items, f) + f(item));
    }
}

/// One byte per value type.
pub open spec fn spec_val_types(types: Seq<ValueType>) -> Seq<u8> {
    Seq::new(types.len(), |i: int| spec_val_type(types[i]))
}

/// A function type: marker, parameter count, parameters, result count, results.
pub open spec fn spec_encode_type(t: FuncTypeView) -> Seq<u8> {
    seq![TYPE_FUNC, t.0.len() as u8] + spec_val_types(t.0) + seq![t.1.len() as u8]
        + spec_val_types(t.1)
}

/// [`spec_encode_type`] as a function value.
pub open spec fn type_encoder() -> spec_fn(FuncTypeView) -> Seq<u8> {
    |t: FuncTypeView| spec_encode_type(t)
}

/// A section: its id, the byte length of its body, its body.
pub open spec fn spec_section(id: u8, body: Seq<u8>) -> Seq<u8> {
    seq![id] + spec_from_u32(body.len() as u32) + body
}

/// The body of the type section: the number of types, then each type.
pub open spec fn spec_type_body(types: Seq<FuncTypeView>) -> Seq<u8> {
    spec_from_u32(types.len() as u32) + concat_map(types, type_encoder())
}

/// The type section. It is present even when there are no types.
pub open spec fn spec_type_section(m: ModuleView) -> Seq<u8> {
    spec_section(SECTION_TYPE, spec_type_body(m.types))
}

/// The body of the function section: the number of functions, then one type
/// index byte per function.
pub open spec fn spec_func_body(funcs: Seq<FuncView>) -> Seq<u8> {
    spec_from_u32(funcs.len() as u32) + Seq::new(funcs.len(), |i: int| funcs[i].f_type as u8)
}

/// The function section. It is absent when there are no functions.
pub open spec fn spec_func_section(m: ModuleView) -> Seq<u8> {
    if m.funcs.len() == 0 {
        Seq::empty()
    } else {
        spec_section(SECTION_FUNC, spec_func_body(m.funcs))
    }
}

/// An export: the byte length of its name, the name in UTF-8, the kind byte
/// of a function export, the function index byte.
pub open spec fn spec_encode_export(e: ExportView) -> Seq<u8> {
    spec_from_u32(encode_utf8(e.name).len() as u32) + encode_utf8(e.name) + seq![
        EXPORT_FUNC,
        e.e_desc.func_index() as u8,
    ]
}

/// [`spec_encode_export`] as a function value.
pub open spec fn export_encoder() -> spec_fn(ExportView) -> Seq<u8> {
    |e: ExportView| spec_encode_export(e)
}

/// The body of the export section: the number of exports, then each export.
pub open spec fn spec_export_body(exports: Seq<ExportView>) -> Seq<u8> {
    spec_from_u32(exports.len() as u32) + concat_map(exports, export_encoder())
}

/// The export section. It is absent when there are no exports.
pub open spec fn spec_export_section(m: ModuleView) -> Seq<u8> {
    if m.exports.len() == 0 {
        Seq::empty()
    } else {
        spec_section(SECTION_EXPORT, spec_export_body(m.exports))
    }
}

/// An instruction: its opcode, and for `local.get` the index byte.
pub open spec fn spec_encode_instr(instr: Instr) -> Seq<u8> {
    match instr {
        Instr::LocalGet(idx) => seq![LOCAL_GET, idx as u8],
        Instr::I32Add => seq![I32_ADD],
    }
}

/// [`spec_encode_instr`] as a function value.
pub open spec fn instr_encoder() -> spec_fn(Instr) -> Seq<u8> {
    |i: Instr| spec_encode_instr(i)
}

/// The code of a function without its length prefix: the number of local
/// declarations, the instructions, the end marker.
pub open spec fn spec_encode_code(f: FuncView) -> Seq<u8> {
    seq![f.locals.len() as u8] + concat_map(f.body, instr_encoder()) + seq![END]
}

/// The code of a function, preceded by its byte length.
pub open spec fn spec_encode_func(f: FuncView) -> Seq<u8> {
    spec_from_u32(spec_encode_code(f).len() as u32) + spec_encode_code(f)
}

/// [`spec_encode_func`] as a function value.
pub open spec fn func_encoder() -> spec_fn(FuncView) -> Seq<u8> {
    |f: FuncView| spec_encode_func(f)
}

/// The body of the code section: the number of functions in one byte, then
/// the code of each function.
pub open spec fn spec_code_body(funcs: Seq<FuncView>) -> Seq<u8> {
    seq![funcs.len() as u8] + concat_map(funcs, func_encoder())
}

/// The code section. It is absent when there are no functions.
pub open spec fn spec_code_section(m: ModuleView) -> Seq<u8> {
    if m.funcs.len() == 0 {
        Seq::empty()
    } else {
        spec_section(SECTION_CODE, spec_code_body(m.funcs))
    }
}

/// The binary form of a module: magic, version, then the type, function,
/// export and code sections in this order.
pub open spec fn spec_compile(m: ModuleView) -> Seq<u8> {
    MAGIC@ + VERSION@ + spec_type_section(m) + spec_func_section(m) + spec_export_section(m)
        + spec_code_section(m)
}

/// A function's type index names a type and fits one byte, and so does every
/// local index of its body.
pub open spec fn func_indices_valid(f: FuncView, n_types: nat) -> bool {
    &&& 0 <= f.f_type < n_types
    &&& f.f_type <= 255
    &&& forall|j: int|
        0 <= j < f.body.len() ==> (#[trigger] f.body[j] matches Instr::LocalGet(idx) ==> idx
            <= 255)
}

/// An export's function index names a function and fits one byte.
pub open spec fn export_index_valid(e: ExportView, n_funcs: nat) -> bool {
    e.e_desc.func_index() < n_funcs && e.e_desc.func_index() <= 255
}

/// Every index of the module names something and fits the byte the format
/// gives it.
pub open spec fn indices_valid(m: ModuleView) -> bool {
    &&& forall|i: int|
        0 <= i < m.funcs.len() ==> func_indices_valid(#[trigger] m.funcs[i], m.types.len())
    &&& forall|i: int|
        0 <= i < m.exports.len() ==> export_index_valid(#[trigger] m.exports[i], m.funcs.len())
}

/// A module whose indices are valid is well formed: every function names
/// a type of the module and every export a function of the module.
pub proof fn lemma_valid_indices_well_formed(m: ModuleView)
    requires
        indices_valid(m),
    ensures
        m.well_formed(),
{
    assert forall|i: int| 0 <= i < m.funcs.len() implies 0 <= (#[trigger] m.funcs[i]).f_type
        < m.types.len() by {
        assert(func_indices_valid(m.funcs[i], m.types.len()));
    }
    assert forall|i: int| 0 <= i < m.exports.len() implies (
    #[trigger] m.exports[i]).e_desc.func_index() < m.funcs.len() by {
        assert(export_index_valid(m.exports[i], m.funcs.len()));
    }
}

/// The parameter and result counts of every type fit one byte, and the
/// section body's length fits 32 bits.
pub open spec fn type_counts_fit(types: Seq<FuncTypeView>) -> bool {
    &&& forall|i: int|
        0 <= i < types.len() ==> (#[trigger] types[i]).0.len() <= 255 && types[i].1.len() <= 255
    &&& types.len() <= u32::MAX
    &&& spec_type_body(types).len() <= u32::MAX
}

/// The length of every name, the number of exports and the section body's
/// length fit 32 bits.
pub open spec fn export_counts_fit(exports: Seq<ExportView>) -> bool {
    &&& forall|i: int|
        0 <= i < exports.len() ==> encode_utf8((#[trigger] exports[i]).name).len() <= u32::MAX
    &&& exports.len() <= u32::MAX
    &&& spec_export_body(exports).len() <= u32::MAX
}

/// The number of local declarations fits one byte and the code's length
/// fits 32 bits.
pub open spec fn code_counts_fit(f: FuncView) -> bool {
    f.locals.len() <= 255 && spec_encode_code(f).len() <= u32::MAX
}

/// The number of functions fits one byte, the code of every function fits,
/// and the section body's length fits 32 bits.
pub open spec fn func_counts_fit(funcs: Seq<FuncView>) -> bool {
    &&& funcs.len() <= 255
    &&& forall|i: int| 0 <= i < funcs.len() ==> code_counts_fit(#[trigger] funcs[i])
    &&& spec_code_body(funcs).len() <= u32::MAX
}

/// Every count and byte length of the module fits the field the format gives
/// it.
pub open spec fn counts_fit(m: ModuleView) -> bool {
    type_counts_fit(m.types) && func_counts_fit(m.funcs) && export_counts_fit(m.exports)
}

/// The module has a binary form.
pub open spec fn encodable(m: ModuleView) -> bool {
    indices_valid(m) && counts_fit(m)
}

} // verus!
