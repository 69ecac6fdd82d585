//! Invoking an exported function of a module.

use crate::ast::{exports_view, EDesc, Export, ExportView, FuncView, Module, ModuleView};
use crate::runtime::error::RuntimeError;
use crate::runtime::processor::{spec_run, Processor};
use crate::runtime::stack::spec_pop;
use vstd::prelude::*;
use vstd::utf8::{encode_utf8, encode_utf8_decode_utf8};

verus! {

/// The first export of the given name, if there is one.
pub open spec fn spec_find_export(exports: Seq<ExportView>, name: Seq<char>) -> Option<
    ExportView,
>
    decreases exports.len(),
{
    if exports.len() == 0 {
        None
    } else if exports.first().name == name {
        Some(exports.first())
    } else {
        spec_find_export(exports.drop_first(), name)
    }
}

/// What a call of `func` returns: its body is run on an empty stack, and the
/// result is the 32-bit integer then on top. A trap in the body, an empty
/// stack at its end or a top that is no 32-bit integer give `Trap`.
pub open spec fn spec_call(func: FuncView, params: Seq<i32>) -> Result<i32, RuntimeError> {
    let end = spec_run(func.body, params, Seq::empty());
    if end.trapped {
        Err(RuntimeError::Trap)
    } else {
        match spec_pop::<i32>(end.stack) {
            Some((v, _)) => Ok(v),
            None => Err(RuntimeError::Trap),
        }
    }
}

/// What invoking the export `name` of `m` with `params` returns.
///
/// Without an export of that name the result is `ExportNotFound`. If the
/// export names no function, or the function no type, it is `Trap`. If the
/// type has another number of parameters than there are arguments, it is
/// `InvalidArgNumber`. Else it is what the call returns.
pub open spec fn spec_invoke(m: ModuleView, name: Seq<char>, params: Seq<i32>) -> Result<
    i32,
    RuntimeError,
> {
    match spec_find_export(m.exports, name) {
        None => Err(RuntimeError::ExportNotFound),
        Some(export) => {
            let f_index = export.e_desc.func_index();
            if f_index >= m.funcs.len() {
                Err(RuntimeError::Trap)
            } else {
                let func = m.funcs[f_index as int];
                if !(0 <= func.f_type < m.types.len()) {
                    Err(RuntimeError::Trap)
                } else if m.types[func.f_type as int].0.len() != params.len() {
                    Err(RuntimeError::InvalidArgNumber)
                } else {
                    spec_call(func, params)
                }
            }
        },
    }
}

/// Whether two strings consist of the same characters.
fn same_name(a: &str, b: &str) -> (same: bool)
    ensures
        same == (a@ == b@),
{
    let x = a.as_bytes();
    let y = b.as_bytes();
    proof {
        encode_utf8_decode_utf8(a@);
        encode_utf8_decode_utf8(b@);
    }
    if x.len() != y.len() {
        return false;
    }
    let n = x.len();
    let mut i: usize = 0;
    while i < n
        invariant
            i <= n,
            n == x@.len(),
            n == y@.len(),
            x@ == encode_utf8(a@),
            y@ == encode_utf8(b@),
            forall|k: int| 0 <= k < i ==> x@[k] == y@[k],
        decreases n - i,
    {
        if x[i] != y[i] {
            return false;
        }
        i = i + 1;
    }
    assert(x@ =~= y@);
    true
}

/// The position of the first export of the given name.
fn find_export(exports: &Vec<Export>, name: &str) -> (r: Option<usize>)
    ensures
        match r {
            Some(i) => i < exports.len() && spec_find_export(exports_view(exports@), name@)
                == Some(exports[i as int]@),
            None => spec_find_export(exports_view(exports@), name@) is None,
        },
{
    let ghost all = exports_view(exports@);
    let mut i: usize = 0;
    assert(all.skip(0) =~= all);
    while i < exports.len()
        invariant
            i <= exports.len(),
            all == exports_view(exports@),
            spec_find_export(all, name@) == spec_find_export(all.skip(i as int), name@),
        decreases exports.len() - i,
    {
        assert(all.skip(i as int).drop_first() =~= all.skip(i as int + 1));
        if same_name(exports[i].name.as_str(), name) {
            return Some(i);
        }
        i = i + 1;
    }
    None
}

/// Invokes the export `func` of `ast` with `params` as its arguments.
pub fn invoke_function(ast: &Module, func: &str, params: &[i32]) -> (r: Result<
    i32,
    RuntimeError,
>)
    ensures
        r == spec_invoke(ast@, func@, params@),
{
    let export = match find_export(&ast.exports, func) {
        None => {
            return Err(RuntimeError::ExportNotFound);
        },
        Some(i) => &ast.exports[i],
    };
    let f_index = match export.e_desc {
        EDesc::FuncExport(f_index) => f_index,
    };
    if f_index >= ast.funcs.len() {
        return Err(RuntimeError::Trap);
    }
    let func = &ast.funcs[f_index];
    assert(ast@.funcs[f_index as int] == func@);
    if func.f_type < 0 || func.f_type as usize >= ast.types.len() {
        return Err(RuntimeError::Trap);
    }
    let f_type = &ast.types[func.f_type as usize];
    assert(ast@.types[func.f_type as int] == f_type@);
    if f_type.0.len() != params.len() {
        return Err(RuntimeError::InvalidArgNumber);
    }
    let mut processor = Processor::new();
    match processor.execute_func(func, params) {
        Ok(()) => {},
        Err(e) => {
            return Err(e);
        },
    }
    processor.get_result()
}

} // verus!
