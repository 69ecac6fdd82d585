//! Functions, exports and whole modules in the text format.

use crate::ast::{
    EDesc, Export, ExportView, Func, FuncTypeView, FuncView, Module, ModuleView,
};
use crate::parser::ctx::{lemma_position, position, Ctx, CtxView};
use crate::parser::instr::{
    instrs, lemma_instr_shrinks, lemma_more_instrs_shrink, spec_instr, spec_instrs,
};
use crate::parser::token::{
    keyword, lemma_keyword_shrinks, lemma_ws_shrinks, spec_char, spec_keyword, spec_ws, symbol,
    ws, Match,
};
use crate::parser::types::{
    index, lemma_index_shrinks, spec_func_type, spec_index, spec_type_item, spec_type_items,
    spec_type_use, type_use,
};
use crate::parser::values::{
    id, lemma_id_shrinks, lemma_literal_shrinks, literal, spec_id, spec_literal,
};
use vstd::prelude::*;

verus! {

/// A function: `(`, the keyword `func`, an identifier, a function type in
/// use, instructions, `)`.
///
/// The context changes as the parts are read, and stays changed if a
/// later part is missing: the identifier is added to the function
/// identifiers, the function type puts its parameters among the locals and
/// itself, if it is new, among the types, and the function is added to the
/// functions once it is complete.
pub open spec fn spec_func(s: Seq<char>, ctx: CtxView) -> (Match<FuncView>, CtxView) {
    match spec_char(s, '(') {
        Some(a) => match spec_keyword(a, "func"@) {
            Some((b, _)) => match spec_id(b) {
                Some((c, name)) => {
                    let named = ctx.with_func_id(Some(name));
                    let typed = spec_type_use(c, named).1;
                    match spec_type_use(c, named).0 {
                        Some((d, f_type)) => match spec_instrs(d, typed) {
                            Some((e, body)) => match spec_char(e, ')') {
                                Some(f) => {
                                    let func = FuncView {
                                        f_type: f_type as i32,
                                        locals: Seq::empty(),
                                        body,
                                    };
                                    (Some((f, func)), typed.with_func(func))
                                },
                                None => (None, typed),
                            },
                            None => (None, typed),
                        },
                        None => (None, typed),
                    }
                },
                None => (None, ctx),
            },
            None => (None, ctx),
        },
        None => (None, ctx),
    }
}

/// An export: `(`, the keyword `export`, a string literal, `(`, the keyword
/// `func`, the index of a function of the context, `)`, `)`. The export is
/// added to the exports of the context, with its name as identifier.
pub open spec fn spec_export(s: Seq<char>, ctx: CtxView) -> (Match<ExportView>, CtxView) {
    match spec_char(s, '(') {
        Some(a) => match spec_keyword(a, "export"@) {
            Some((b, _)) => match spec_literal(b) {
                Some((c, name)) => match spec_char(c, '(') {
                    Some(d) => match spec_keyword(d, "func"@) {
                        Some((e, _)) => match spec_index(e) {
                            Some((f, idx)) => match spec_char(f, ')') {
                                Some(g) => match spec_char(g, ')') {
                                    Some(h) => match ctx.func_idx(idx) {
                                        Some(i) => {
                                            let export = ExportView {
                                                name,
                                                e_desc: EDesc::FuncExport(i as usize),
                                            };
                                            (
                                                Some((h, export)),
                                                ctx.with_export(Some(name), export),
                                            )
                                        },
                                        None => (None, ctx),
                                    },
                                    None => (None, ctx),
                                },
                                None => (None, ctx),
                            },
                            None => (None, ctx),
                        },
                        None => (None, ctx),
                    },
                    None => (None, ctx),
                },
                None => (None, ctx),
            },
            None => (None, ctx),
        },
        None => (None, ctx),
    }
}

/// A field of a module: a function, or else an export, with white space
/// around it. Where no function can be read, the export is looked for in
/// the context as the attempt to read a function left it.
pub open spec fn spec_field(s: Seq<char>, ctx: CtxView) -> (Option<Seq<char>>, CtxView) {
    let a = spec_ws(s);
    match spec_func(a, ctx).0 {
        Some((rest, _)) => (Some(spec_ws(rest)), spec_func(a, ctx).1),
        None => match spec_export(a, spec_func(a, ctx).1).0 {
            Some((rest, _)) => (Some(spec_ws(rest)), spec_export(a, spec_func(a, ctx).1).1),
            None => (None, spec_export(a, spec_func(a, ctx).1).1),
        },
    }
}

/// As many fields as follow one another: what is left behind them, and the
/// context after them.
pub open spec fn spec_fields(s: Seq<char>, ctx: CtxView) -> (Seq<char>, CtxView)
    decreases s.len(),
{
    match spec_field(s, ctx).0 {
        Some(rest) => if rest.len() < s.len() {
            spec_fields(rest, spec_field(s, ctx).1)
        } else {
            (s, spec_field(s, ctx).1)
        },
        None => (s, spec_field(s, ctx).1),
    }
}

/// A module: white space, `(`, the keyword `module`, fields, `)`. The
/// module consists of the types, functions and exports that the fields
/// have put into the context. What follows the `)` is not looked at.
pub open spec fn spec_module(s: Seq<char>) -> Option<ModuleView> {
    match spec_char(spec_ws(s), '(') {
        Some(a) => match spec_keyword(a, "module"@) {
            Some((b, _)) => {
                let (c, ctx) = spec_fields(spec_ws(b), CtxView::empty());
                match spec_char(spec_ws(c), ')') {
                    Some(_) => Some(
                        ModuleView {
                            types: ctx.types.list,
                            funcs: ctx.funcs.list,
                            exports: ctx.exports.list,
                        },
                    ),
                    None => None,
                }
            },
            None => None,
        },
        None => None,
    }
}

/// What is left behind the items of a function type is not longer than the
/// text.
proof fn lemma_type_items_shrink(s: Seq<char>)
    ensures
        spec_type_items(s).0.len() <= s.len(),
    decreases s.len(),
{
    match spec_type_item(s) {
        Some((rest, _)) => {
            if rest.len() < s.len() {
                lemma_type_items_shrink(rest);
            }
        },
        None => {},
    }
}

/// What is left behind a field is shorter than the text.
proof fn lemma_field_shrinks(s: Seq<char>, ctx: CtxView)
    ensures
        spec_field(s, ctx).0 matches Some(rest) ==> rest.len() < s.len(),
{
    let a = spec_ws(s);
    lemma_ws_shrinks(s);
    match spec_func(a, ctx).0 {
        Some((rest, _)) => {
            lemma_ws_shrinks(rest);
            let a1 = spec_char(a, '(').unwrap();
            lemma_keyword_shrinks(a1, "func"@);
            let b = spec_keyword(a1, "func"@).unwrap().0;
            lemma_id_shrinks(b);
            let c = spec_id(b).unwrap().0;
            let named = ctx.with_func_id(Some(spec_id(b).unwrap().1));
            lemma_type_items_shrink(c);
            let d = spec_type_use(c, named).0.unwrap().0;
            let typed = spec_type_use(c, named).1;
            lemma_instr_shrinks(d, typed);
            lemma_more_instrs_shrink(spec_instr(d, typed).unwrap().0, typed);
        },
        None => {
            let ctx1 = spec_func(a, ctx).1;
            match spec_export(a, ctx1).0 {
                Some((rest, _)) => {
                    lemma_ws_shrinks(rest);
                    let a1 = spec_char(a, '(').unwrap();
                    lemma_keyword_shrinks(a1, "export"@);
                    let b = spec_keyword(a1, "export"@).unwrap().0;
                    lemma_literal_shrinks(b);
                    let c = spec_literal(b).unwrap().0;
                    let d = spec_char(c, '(').unwrap();
                    lemma_keyword_shrinks(d, "func"@);
                    let e = spec_keyword(d, "func"@).unwrap().0;
                    lemma_index_shrinks(e);
                },
                None => {},
            }
        },
    }
}

/// What the parser keeps true of its context: no function type stands twice
/// among the types, and, as long as there are no more types than a type
/// index can tell apart, every function names one of them.
pub open spec fn resolved(ctx: CtxView) -> bool {
    &&& ctx.types.list.no_duplicates()
    &&& ctx.types.list.len() <= i32::MAX ==> forall|i: int|
        0 <= i < ctx.funcs.list.len() ==> 0 <= (#[trigger] ctx.funcs.list[i]).f_type
            < ctx.types.list.len()
}

/// Looking a function type up, and adding it if it is new, keeps the types
/// free of duplicates and finds the type among them.
proof fn lemma_known_type_resolved(ctx: CtxView, t: FuncTypeView)
    requires
        resolved(ctx),
    ensures
        resolved(ctx.with_known_type(t)),
        ctx.with_known_type(t).funcs == ctx.funcs,
        ctx.with_known_type(t).types.list.len() >= ctx.types.list.len(),
        position(ctx.with_known_type(t).types.list, t) matches Some(i) && 0 <= i
            < ctx.with_known_type(t).types.list.len(),
{
    let known = ctx.with_known_type(t);
    lemma_position(ctx.types.list, t);
    lemma_position(known.types.list, t);
    if position(ctx.types.list, t) is None {
        assert(known.types.list[ctx.types.list.len() as int] == t);
    }
}

/// Reading a function type in use keeps the context resolved, leaves its
/// functions alone and yields the position of a type.
proof fn lemma_type_use_resolved(s: Seq<char>, ctx: CtxView)
    requires
        resolved(ctx),
    ensures
        resolved(spec_type_use(s, ctx).1),
        spec_type_use(s, ctx).1.funcs == ctx.funcs,
        spec_type_use(s, ctx).1.types.list.len() >= ctx.types.list.len(),
        spec_type_use(s, ctx).0 matches Some((_, i)) ==> spec_type_use(s, ctx).1.types.list.len()
            <= i32::MAX ==> 0 <= (i as i32) < spec_type_use(s, ctx).1.types.list.len(),
{
    let typed = spec_func_type(s, ctx).1;
    assert(typed.types == ctx.types && typed.funcs == ctx.funcs);
    match spec_func_type(s, ctx).0 {
        Some((_, t)) => {
            lemma_known_type_resolved(typed, t);
        },
        None => {},
    }
}

/// Reading a function keeps the context resolved.
proof fn lemma_func_resolved(s: Seq<char>, ctx: CtxView)
    requires
        resolved(ctx),
    ensures
        resolved(spec_func(s, ctx).1),
{
    match spec_char(s, '(') {
        Some(a) => match spec_keyword(a, "func"@) {
            Some((b, _)) => match spec_id(b) {
                Some((c, name)) => {
                    let named = ctx.with_func_id(Some(name));
                    lemma_type_use_resolved(c, named);
                },
                None => {},
            },
            None => {},
        },
        None => {},
    }
}

/// Reading a field keeps the context resolved.
proof fn lemma_field_resolved(s: Seq<char>, ctx: CtxView)
    requires
        resolved(ctx),
    ensures
        resolved(spec_field(s, ctx).1),
{
    lemma_func_resolved(spec_ws(s), ctx);
}

/// Reading fields keeps the context resolved.
proof fn lemma_fields_resolved(s: Seq<char>, ctx: CtxView)
    requires
        resolved(ctx),
    ensures
        resolved(spec_fields(s, ctx).1),
    decreases s.len(),
{
    lemma_field_resolved(s, ctx);
    match spec_field(s, ctx).0 {
        Some(rest) => {
            if rest.len() < s.len() {
                lemma_fields_resolved(rest, spec_field(s, ctx).1);
            }
        },
        None => {},
    }
}

/// In a module read from text no function type stands twice among the
/// types, and, if there are no more types than a type index can tell
/// apart, every function names one of them.
pub proof fn parsed_module_is_resolved(s: Seq<char>)
    ensures
        spec_module(s) matches Some(m) ==> {
            &&& m.types.no_duplicates()
            &&& m.types.len() <= i32::MAX ==> forall|i: int|
                0 <= i < m.funcs.len() ==> 0 <= (#[trigger] m.funcs[i]).f_type < m.types.len()
        },
{
    match spec_char(spec_ws(s), '(') {
        Some(a) => match spec_keyword(a, "module"@) {
            Some((b, _)) => {
                lemma_fields_resolved(spec_ws(b), CtxView::empty());
            },
            None => {},
        },
        None => {},
    }
}

/// Reads a function and adds it to `ctx`.
pub fn func<'a>(input: &'a str, ctx: &mut Ctx) -> (r: Option<(&'a str, Func)>)
    ensures
        final(ctx)@ == spec_func(input@, old(ctx)@).1,
        match spec_func(input@, old(ctx)@).0 {
            Some((rest, func)) => r matches Some((left, v)) && left@ == rest && v@ == func,
            None => r is None,
        },
{
    let a = match symbol('(', input) {
        Some(rest) => rest,
        None => {
            return None;
        },
    };
    let b = match keyword("func", a) {
        Some((rest, _)) => rest,
        None => {
            return None;
        },
    };
    let (c, name) = match id(b) {
        Some(found) => found,
        None => {
            return None;
        },
    };
    ctx.insert_func_id(Some(name.to_owned()));
    let (d, f_type) = match type_use(c, ctx) {
        Some(found) => found,
        None => {
            return None;
        },
    };
    let (e, body) = match instrs(d, ctx) {
        Some(found) => found,
        None => {
            return None;
        },
    };
    let f = match symbol(')', e) {
        Some(rest) => rest,
        None => {
            return None;
        },
    };
    let func = Func { f_type: f_type as i32, locals: Vec::new(), body };
    ctx.insert_func(&func);
    Some((f, func))
}

/// Reads an export and adds it to `ctx`.
pub fn export<'a>(input: &'a str, ctx: &mut Ctx) -> (r: Option<(&'a str, Export)>)
    ensures
        final(ctx)@ == spec_export(input@, old(ctx)@).1,
        match spec_export(input@, old(ctx)@).0 {
            Some((rest, export)) => r matches Some((left, v)) && left@ == rest && v@ == export,
            None => r is None,
        },
{
    let a = match symbol('(', input) {
        Some(rest) => rest,
        None => {
            return None;
        },
    };
    let b = match keyword("export", a) {
        Some((rest, _)) => rest,
        None => {
            return None;
        },
    };
    let (c, name) = match literal(b) {
        Some(found) => found,
        None => {
            return None;
        },
    };
    let d = match symbol('(', c) {
        Some(rest) => rest,
        None => {
            return None;
        },
    };
    let e = match keyword("func", d) {
        Some((rest, _)) => rest,
        None => {
            return None;
        },
    };
    let (f, idx) = match index(e) {
        Some(found) => found,
        None => {
            return None;
        },
    };
    let g = match symbol(')', f) {
        Some(rest) => rest,
        None => {
            return None;
        },
    };
    let h = match symbol(')', g) {
        Some(rest) => rest,
        None => {
            return None;
        },
    };
    let f_index = match ctx.find_func_idx(&idx) {
        Some(i) => i,
        None => {
            return None;
        },
    };
    let export = Export { name: name.clone(), e_desc: EDesc::FuncExport(f_index) };
    ctx.insert_export(&Some(name), &export);
    Some((h, export))
}

/// Reads a field of a module, with white space around it, and adds it to
/// `ctx`.
fn field<'a>(input: &'a str, ctx: &mut Ctx) -> (r: Option<&'a str>)
    ensures
        final(ctx)@ == spec_field(input@, old(ctx)@).1,
        match spec_field(input@, old(ctx)@).0 {
            Some(rest) => r matches Some(left) && left@ == rest,
            None => r is None,
        },
{
    let (start, _) = ws(input);
    let found = match func(start, ctx) {
        Some((rest, _)) => Some(rest),
        None => match export(start, ctx) {
            Some((rest, _)) => Some(rest),
            None => None,
        },
    };
    match found {
        Some(rest) => {
            let (rest, _) = ws(rest);
            Some(rest)
        },
        None => None,
    }
}

/// Reads a module.
pub fn module<'a>(input: &'a str) -> (r: Option<(&'a str, Module)>)
    ensures
        match spec_module(input@) {
            Some(module) => r matches Some((left, v)) && left@ == Seq::<char>::empty() && v@
                == module,
            None => r is None,
        },
{
    let (start, _) = ws(input);
    let a = match symbol('(', start) {
        Some(rest) => rest,
        None => {
            return None;
        },
    };
    let b = match keyword("module", a) {
        Some((rest, _)) => rest,
        None => {
            return None;
        },
    };
    let (first, _) = ws(b);
    let mut rest = first;
    let mut ctx = Ctx::new();
    let mut more = true;
    while more
        invariant
            spec_fields(first@, CtxView::empty()) == if more {
                spec_fields(rest@, ctx@)
            } else {
                (rest@, ctx@)
            },
        decreases rest@.len() + if more { 1nat } else { 0nat },
    {
        proof {
            lemma_field_shrinks(rest@, ctx@);
        }
        match field(rest, &mut ctx) {
            Some(behind) => {
                rest = behind;
            },
            None => {
                more = false;
            },
        }
    }
    let (end, _) = ws(rest);
    match symbol(')', end) {
        Some(_) => {
            proof {
                reveal_strlit("");
            }
            let ast = Module {
                types: ctx.types.list,
                funcs: ctx.funcs.list,
                exports: ctx.exports.list,
            };
            Some(("", ast))
        },
        None => None,
    }
}

} // verus!
