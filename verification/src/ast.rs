//! The module data model shared by the encoder, the decoder and the interpreter.
//!
//! Every executable type has a mathematical view (`@`) made of sequences and
//! plain values; all contracts in this crate are stated over those views.

use vstd::prelude::*;

verus! {

/// The type of a value on the operand stack or in a parameter slot.
#[derive(Debug, PartialEq, Clone, Copy, Eq, Structural)]
pub enum ValueType {
    I32,
    I64,
}

/// A list of value types.
pub type StackType = Vec<ValueType>;

/// A function type: the parameter types, then the result types.
pub type FuncType = (StackType, StackType);

/// An entry of the type table.
pub type Type = FuncType;

/// The view of a [`FuncType`].
pub type FuncTypeView = (Seq<ValueType>, Seq<ValueType>);

/// An instruction of a function body.
#[derive(Debug, PartialEq, Clone, Eq)]
pub enum Instr {
    /// Push the parameter at the given position.
    LocalGet(usize),
    /// Pop two 32-bit integers and push their wrapping sum.
    I32Add,
}

/// A function: the position of its type in the module's type table, its
/// additional local slots and its body.
#[derive(Debug, PartialEq, Clone, Eq)]
pub struct Func {
    pub f_type: i32,
    pub locals: Vec<ValueType>,
    pub body: Vec<Instr>,
}

/// What an export refers to.
#[derive(Debug, PartialEq, Clone, Eq)]
pub enum EDesc {
    /// The function at the given position in the module's function table.
    FuncExport(usize),
}

/// A named reference to something the module offers to its host.
#[derive(Debug, PartialEq, Clone, Eq)]
pub struct Export {
    pub name: String,
    pub e_desc: EDesc,
}

/// A complete module: type table, function table and exports.
#[derive(Debug, PartialEq)]
pub struct Module {
    pub types: Vec<Type>,
    pub funcs: Vec<Func>,
    pub exports: Vec<Export>,
}

/// The view of a [`Func`].
pub struct FuncView {
    pub f_type: i32,
    pub locals: Seq<ValueType>,
    pub body: Seq<Instr>,
}

/// The view of an [`Export`].
pub struct ExportView {
    pub name: Seq<char>,
    pub e_desc: EDesc,
}

/// The view of a [`Module`].
pub struct ModuleView {
    pub types: Seq<FuncTypeView>,
    pub funcs: Seq<FuncView>,
    pub exports: Seq<ExportView>,
}

impl View for Func {
    type V = FuncView;

    open spec fn view(&self) -> FuncView {
        FuncView { f_type: self.f_type, locals: self.locals@, body: self.body@ }
    }
}

impl View for Export {
    type V = ExportView;

    open spec fn view(&self) -> ExportView {
        ExportView { name: self.name@, e_desc: self.e_desc }
    }
}

/// The views of a sequence of function types, element by element.
pub open spec fn types_view(types: Seq<FuncType>) -> Seq<FuncTypeView> {
    Seq::new(types.len(), |i: int| types[i]@)
}

/// The views of a sequence of functions, element by element.
pub open spec fn funcs_view(funcs: Seq<Func>) -> Seq<FuncView> {
    Seq::new(funcs.len(), |i: int| funcs[i]@)
}

/// The views of a sequence of exports, element by element.
pub open spec fn exports_view(exports: Seq<Export>) -> Seq<ExportView> {
    Seq::new(exports.len(), |i: int| exports[i]@)
}

impl View for Module {
    type V = ModuleView;

    open spec fn view(&self) -> ModuleView {
        ModuleView {
            types: types_view(self.types@),
            funcs: funcs_view(self.funcs@),
            exports: exports_view(self.exports@),
        }
    }
}

/// Copies a list of value types.
pub fn copy_value_types(types: &Vec<ValueType>) -> (out: Vec<ValueType>)
    ensures
        out@ == types@,
{
    let mut out: Vec<ValueType> = Vec::new();
    let mut i: usize = 0;
    while i < types.len()
        invariant
            i <= types.len(),
            out@ == types@.take(i as int),
        decreases types.len() - i,
    {
        out.push(types[i]);
        i = i + 1;
        assert(out@ =~= types@.take(i as int));
    }
    assert(types@.take(i as int) =~= types@);
    out
}

/// Copies a list of instructions.
pub fn copy_instrs(instrs: &Vec<Instr>) -> (out: Vec<Instr>)
    ensures
        out@ == instrs@,
{
    let mut out: Vec<Instr> = Vec::new();
    let mut i: usize = 0;
    while i < instrs.len()
        invariant
            i <= instrs.len(),
            out@ == instrs@.take(i as int),
        decreases instrs.len() - i,
    {
        let instr = match &instrs[i] {
            Instr::LocalGet(idx) => Instr::LocalGet(*idx),
            Instr::I32Add => Instr::I32Add,
        };
        out.push(instr);
        i = i + 1;
        assert(out@ =~= instrs@.take(i as int));
    }
    assert(instrs@.take(i as int) =~= instrs@);
    out
}

/// Copies a function type.
pub fn copy_func_type(t: &FuncType) -> (out: FuncType)
    ensures
        out@ == t@,
{
    (copy_value_types(&t.0), copy_value_types(&t.1))
}

/// Copies a function.
pub fn copy_func(func: &Func) -> (out: Func)
    ensures
        out@ == func@,
{
    Func {
        f_type: func.f_type,
        locals: copy_value_types(&func.locals),
        body: copy_instrs(&func.body),
    }
}

/// Copies an export.
pub fn copy_export(export: &Export) -> (out: Export)
    ensures
        out@ == export@,
{
    let e_desc = match export.e_desc {
        EDesc::FuncExport(idx) => EDesc::FuncExport(idx),
    };
    Export { name: export.name.clone(), e_desc }
}

/// Whether two lists of value types are equal.
pub fn same_value_types(a: &Vec<ValueType>, b: &Vec<ValueType>) -> (same: bool)
    ensures
        same == (a@ == b@),
{
    if a.len() != b.len() {
        return false;
    }
    let mut i: usize = 0;
    while i < a.len()
        invariant
            i <= a.len(),
            a.len() == b.len(),
            forall|k: int| 0 <= k < i ==> a@[k] == b@[k],
        decreases a.len() - i,
    {
        if a[i] != b[i] {
            return false;
        }
        i = i + 1;
    }
    assert(a@ =~= b@);
    true
}

/// Whether two function types are equal: the same parameter types and the
/// same result types, element by element.
pub fn same_func_type(a: &FuncType, b: &FuncType) -> (same: bool)
    ensures
        same == (a@ == b@),
{
    same_value_types(&a.0, &b.0) && same_value_types(&a.1, &b.1)
}

impl EDesc {
    /// The position of the exported function in the function table.
    pub open spec fn func_index(self) -> usize {
        match self {
            EDesc::FuncExport(i) => i,
        }
    }
}

impl ModuleView {
    /// Every function names a type of the type table, and every export names
    /// a function of the function table.
    pub open spec fn well_formed(self) -> bool {
        &&& forall|i: int|
            0 <= i < self.funcs.len() ==> 0 <= (#[trigger] self.funcs[i]).f_type
                < self.types.len()
        &&& forall|i: int|
            0 <= i < self.exports.len() ==> (#[trigger] self.exports[i]).e_desc.func_index()
                < self.funcs.len()
    }
}

} // verus!
