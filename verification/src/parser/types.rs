//! Value types, indices and function types in the text format.

use crate::ast::{FuncType, FuncTypeView, ValueType};
use crate::parser::ctx::{id_view, ids_view, position, Ctx, CtxView, IdView};
use crate::parser::scan::tag;
use crate::parser::token::{
    keyword, lemma_keyword_shrinks, lemma_ws_shrinks, spec_char, spec_keyword, spec_ws, symbol,
    ws, Match,
};
use crate::parser::values::{id, lemma_id_shrinks, lemma_u32_shrinks, spec_id, spec_u32, u32};
use vstd::prelude::*;

verus! {

/// A reference to a function or a local: by number or by identifier.
pub enum Index {
    Idx(usize),
    Id(String),
}

/// The view of an [`Index`].
pub enum IndexView {
    Idx(usize),
    Id(Seq<char>),
}

impl View for Index {
    type V = IndexView;

    open spec fn view(&self) -> IndexView {
        match self {
            Index::Idx(i) => IndexView::Idx(*i),
            Index::Id(id) => IndexView::Id(id@),
        }
    }
}

/// A value type: white space, `i32` or `i64`, white space.
pub open spec fn spec_value_type(s: Seq<char>) -> Match<ValueType> {
    let a = spec_ws(s);
    if "i32"@.is_prefix_of(a) {
        Some((spec_ws(a.skip("i32"@.len() as int)), ValueType::I32))
    } else if "i64"@.is_prefix_of(a) {
        Some((spec_ws(a.skip("i64"@.len() as int)), ValueType::I64))
    } else {
        None
    }
}

/// What is left behind a value type is shorter than the text.
pub proof fn lemma_value_type_shrinks(s: Seq<char>)
    ensures
        spec_value_type(s) matches Some((rest, _)) ==> rest.len() < s.len(),
{
    let a = spec_ws(s);
    lemma_ws_shrinks(s);
    lemma_ws_shrinks(a.skip("i32"@.len() as int));
    lemma_ws_shrinks(a.skip("i64"@.len() as int));
    reveal_strlit("i32");
    reveal_strlit("i64");
}

/// Reads a value type, with white space around it.
pub fn value_type<'a>(input: &'a str) -> (r: Option<(&'a str, ValueType)>)
    ensures
        match spec_value_type(input@) {
            Some((rest, t)) => r matches Some((left, v)) && left@ == rest && v == t,
            None => r is None,
        },
{
    let (start, _) = ws(input);
    match tag("i32", start) {
        Some((rest, _)) => {
            let (rest, _) = ws(rest);
            Some((rest, ValueType::I32))
        },
        None => match tag("i64", start) {
            Some((rest, _)) => {
                let (rest, _) = ws(rest);
                Some((rest, ValueType::I64))
            },
            None => None,
        },
    }
}

/// An index: a number, or else an identifier.
pub open spec fn spec_index(s: Seq<char>) -> Match<IndexView> {
    match spec_u32(s) {
        Some((rest, v)) => Some((rest, IndexView::Idx(v as usize))),
        None => match spec_id(s) {
            Some((rest, name)) => Some((rest, IndexView::Id(name))),
            None => None,
        },
    }
}

/// What is left behind an index is shorter than the text.
pub proof fn lemma_index_shrinks(s: Seq<char>)
    ensures
        spec_index(s) matches Some((rest, _)) ==> rest.len() < s.len(),
{
    lemma_u32_shrinks(s);
    lemma_id_shrinks(s);
}

/// Reads an index.
pub fn index<'a>(input: &'a str) -> (r: Option<(&'a str, Index)>)
    ensures
        match spec_index(input@) {
            Some((rest, idx)) => r matches Some((left, v)) && left@ == rest && v@ == idx,
            None => r is None,
        },
{
    match u32(input) {
        Some((rest, v)) => Some((rest, Index::Idx(v as usize))),
        None => match id(input) {
            Some((rest, name)) => Some((rest, Index::Id(name.to_owned()))),
            None => None,
        },
    }
}

/// An item of a function type: a parameter with its optional identifier, or
/// a result.
pub enum TypeItem {
    Param(ValueType, Option<String>),
    Result(ValueType),
}

/// The view of a [`TypeItem`].
pub enum TypeItemView {
    Param(ValueType, IdView),
    Result(ValueType),
}

impl View for TypeItem {
    type V = TypeItemView;

    open spec fn view(&self) -> TypeItemView {
        match self {
            TypeItem::Param(t, id) => TypeItemView::Param(*t, id_view(*id)),
            TypeItem::Result(t) => TypeItemView::Result(*t),
        }
    }
}

/// A parameter: white space, `(`, the keyword `param`, an identifier or
/// none, a value type, `)`.
pub open spec fn spec_param(s: Seq<char>) -> Match<TypeItemView> {
    match spec_char(spec_ws(s), '(') {
        Some(a) => match spec_keyword(a, "param"@) {
            Some((b, _)) => {
                let (c, name) = match spec_id(b) {
                    Some((c, name)) => (c, Some(name)),
                    None => (b, None),
                };
                match spec_value_type(c) {
                    Some((d, t)) => match spec_char(d, ')') {
                        Some(e) => Some((e, TypeItemView::Param(t, name))),
                        None => None,
                    },
                    None => None,
                }
            },
            None => None,
        },
        None => None,
    }
}

/// A result: white space, `(`, the keyword `result`, a value type, `)`.
pub open spec fn spec_result(s: Seq<char>) -> Match<TypeItemView> {
    match spec_char(spec_ws(s), '(') {
        Some(a) => match spec_keyword(a, "result"@) {
            Some((b, _)) => match spec_value_type(b) {
                Some((c, t)) => match spec_char(c, ')') {
                    Some(d) => Some((d, TypeItemView::Result(t))),
                    None => None,
                },
                None => None,
            },
            None => None,
        },
        None => None,
    }
}

/// An item of a function type: a parameter, or else a result.
pub open spec fn spec_type_item(s: Seq<char>) -> Match<TypeItemView> {
    match spec_param(s) {
        Some(found) => Some(found),
        None => spec_result(s),
    }
}

/// As many items of a function type as follow one another, and what is left
/// behind them.
pub open spec fn spec_type_items(s: Seq<char>) -> (Seq<char>, Seq<TypeItemView>)
    decreases s.len(),
{
    match spec_type_item(s) {
        Some((rest, item)) => if rest.len() < s.len() {
            let (end, items) = spec_type_items(rest);
            (end, seq![item] + items)
        } else {
            (s, Seq::empty())
        },
        None => (s, Seq::empty()),
    }
}

/// What is left behind an item of a function type is shorter than the
/// text.
pub proof fn lemma_type_item_shrinks(s: Seq<char>)
    ensures
        spec_type_item(s) matches Some((rest, _)) ==> rest.len() < s.len(),
{
    lemma_ws_shrinks(s);
    match spec_char(spec_ws(s), '(') {
        Some(a) => {
            lemma_keyword_shrinks(a, "param"@);
            lemma_keyword_shrinks(a, "result"@);
            match spec_keyword(a, "param"@) {
                Some((b, _)) => {
                    lemma_id_shrinks(b);
                    lemma_value_type_shrinks(b);
                    match spec_id(b) {
                        Some((c, _)) => {
                            lemma_value_type_shrinks(c);
                        },
                        None => {},
                    }
                },
                None => {},
            }
            match spec_keyword(a, "result"@) {
                Some((b, _)) => {
                    lemma_value_type_shrinks(b);
                },
                None => {},
            }
        },
        None => {},
    }
}

/// The types of the parameters among `items`, in their order.
pub open spec fn params_of(items: Seq<TypeItemView>) -> Seq<ValueType>
    decreases items.len(),
{
    if items.len() == 0 {
        Seq::empty()
    } else {
        match items.last() {
            TypeItemView::Param(t, _) => params_of(items.drop_last()).push(t),
            TypeItemView::Result(_) => params_of(items.drop_last()),
        }
    }
}

/// The identifiers of the parameters among `items`, in their order.
pub open spec fn param_ids_of(items: Seq<TypeItemView>) -> Seq<IdView>
    decreases items.len(),
{
    if items.len() == 0 {
        Seq::empty()
    } else {
        match items.last() {
            TypeItemView::Param(_, name) => param_ids_of(items.drop_last()).push(name),
            TypeItemView::Result(_) => param_ids_of(items.drop_last()),
        }
    }
}

/// The types of the results among `items`, in their order.
pub open spec fn results_of(items: Seq<TypeItemView>) -> Seq<ValueType>
    decreases items.len(),
{
    if items.len() == 0 {
        Seq::empty()
    } else {
        match items.last() {
            TypeItemView::Param(_, _) => results_of(items.drop_last()),
            TypeItemView::Result(t) => results_of(items.drop_last()).push(t),
        }
    }
}

/// The locals after `ids` were added to `locals` one by one, if each
/// identifier among them was free when its turn came.
pub open spec fn spec_add_locals(locals: Seq<IdView>, ids: Seq<IdView>) -> Option<Seq<IdView>>
    decreases ids.len(),
{
    if ids.len() == 0 {
        Some(locals)
    } else if ids.first() is Some && position(locals, ids.first()) is Some {
        None
    } else {
        spec_add_locals(locals.push(ids.first()), ids.drop_first())
    }
}

/// A function type: parameters and results in any order, as many as follow
/// one another. The parameters become locals of the context; if one of
/// their identifiers is not free, there is no result and the context stays
/// as it is.
pub open spec fn spec_func_type(s: Seq<char>, ctx: CtxView) -> (Match<FuncTypeView>, CtxView) {
    let (rest, items) = spec_type_items(s);
    match spec_add_locals(ctx.locals, param_ids_of(items)) {
        Some(locals) => (
            Some((rest, (params_of(items), results_of(items)))),
            CtxView { locals, ..ctx },
        ),
        None => (None, ctx),
    }
}

/// Reads a parameter.
fn param_item<'a>(input: &'a str) -> (r: Option<(&'a str, TypeItem)>)
    ensures
        match spec_param(input@) {
            Some((rest, item)) => r matches Some((left, v)) && left@ == rest && v@ == item,
            None => r is None,
        },
{
    let (start, _) = ws(input);
    let a = match symbol('(', start) {
        Some(rest) => rest,
        None => {
            return None;
        },
    };
    let b = match keyword("param", a) {
        Some((rest, _)) => rest,
        None => {
            return None;
        },
    };
    let (c, name) = match id(b) {
        Some((rest, name)) => (rest, Some(name.to_owned())),
        None => (b, None),
    };
    let (d, t) = match value_type(c) {
        Some(found) => found,
        None => {
            return None;
        },
    };
    match symbol(')', d) {
        Some(rest) => Some((rest, TypeItem::Param(t, name))),
        None => None,
    }
}

/// Reads a result.
fn result_item<'a>(input: &'a str) -> (r: Option<(&'a str, TypeItem)>)
    ensures
        match spec_result(input@) {
            Some((rest, item)) => r matches Some((left, v)) && left@ == rest && v@ == item,
            None => r is None,
        },
{
    let (start, _) = ws(input);
    let a = match symbol('(', start) {
        Some(rest) => rest,
        None => {
            return None;
        },
    };
    let b = match keyword("result", a) {
        Some((rest, _)) => rest,
        None => {
            return None;
        },
    };
    let (c, t) = match value_type(b) {
        Some(found) => found,
        None => {
            return None;
        },
    };
    match symbol(')', c) {
        Some(rest) => Some((rest, TypeItem::Result(t))),
        None => None,
    }
}

/// Reads an item of a function type.
fn type_item<'a>(input: &'a str) -> (r: Option<(&'a str, TypeItem)>)
    ensures
        match spec_type_item(input@) {
            Some((rest, item)) => r matches Some((left, v)) && left@ == rest && v@ == item,
            None => r is None,
        },
{
    match param_item(input) {
        Some(found) => Some(found),
        None => result_item(input),
    }
}

/// Reads a function type and adds its parameters to the locals of `ctx`.
pub fn func_type<'a>(input: &'a str, ctx: &mut Ctx) -> (r: Option<(&'a str, FuncType)>)
    ensures
        final(ctx)@ == spec_func_type(input@, old(ctx)@).1,
        match spec_func_type(input@, old(ctx)@).0 {
            Some((rest, t)) => r matches Some((left, v)) && left@ == rest && v@ == t,
            None => r is None,
        },
{
    let mut rest = input;
    let mut params: Vec<ValueType> = Vec::new();
    let mut results: Vec<ValueType> = Vec::new();
    let mut names: Vec<Option<String>> = Vec::new();
    let ghost mut done: Seq<TypeItemView> = Seq::empty();
    let mut more = true;
    assert(ids_view(names@) =~= Seq::empty());
    assert(done + spec_type_items(input@).1 =~= spec_type_items(input@).1);
    while more
        invariant
            spec_type_items(input@) == (
                spec_type_items(rest@).0,
                done + spec_type_items(rest@).1,
            ),
            params@ == params_of(done),
            results@ == results_of(done),
            ids_view(names@) == param_ids_of(done),
            !more ==> spec_type_item(rest@) is None,
        decreases rest@.len() + if more { 1nat } else { 0nat },
    {
        proof {
            lemma_type_item_shrinks(rest@);
        }
        match type_item(rest) {
            Some((behind, item)) => {
                let ghost before = names@;
                proof {
                    assert(done.push(item@).drop_last() =~= done);
                    assert(done + (seq![item@] + spec_type_items(behind@).1) =~= done.push(item@)
                        + spec_type_items(behind@).1);
                    done = done.push(item@);
                }
                match item {
                    TypeItem::Param(t, name) => {
                        params.push(t);
                        names.push(name);
                        assert(ids_view(names@) =~= ids_view(before).push(id_view(name)));
                    },
                    TypeItem::Result(t) => {
                        results.push(t);
                    },
                }
                rest = behind;
            },
            None => {
                more = false;
            },
        }
    }
    assert(done + Seq::<TypeItemView>::empty() =~= done);
    let ghost wanted = ids_view(names@);
    let start = ctx.locals.len();
    let mut i: usize = 0;
    assert(wanted.skip(0) =~= wanted);
    while i < names.len()
        invariant
            i <= names.len(),
            wanted == ids_view(names@),
            wanted == param_ids_of(spec_type_items(input@).1),
            start == old(ctx)@.locals.len(),
            ctx.locals.len() == start + i,
            ctx@.locals.take(start as int) == old(ctx)@.locals,
            ctx@ == (CtxView { locals: ctx@.locals, ..old(ctx)@ }),
            spec_add_locals(old(ctx)@.locals, wanted) == spec_add_locals(
                ctx@.locals,
                wanted.skip(i as int),
            ),
        decreases names.len() - i,
    {
        assert(wanted.skip(i as int).drop_first() =~= wanted.skip(i + 1));
        assert(wanted.skip(i as int).first() == id_view(names@[i as int]));
        if !ctx.local_id_is_free(&names[i]) {
            let ghost full = ctx@.locals;
            ctx.locals.truncate(start);
            assert(ctx@.locals =~= full.take(start as int));
            return None;
        }
        let ghost full = ctx@.locals;
        ctx.insert_local_id(&names[i]);
        assert(ctx@.locals.take(start as int) =~= full.take(start as int));
        i = i + 1;
    }
    Some((rest, (params, results)))
}

/// A function type in use: the function type, and then its position in
/// the context, to which it is added if it is new.
pub open spec fn spec_type_use(s: Seq<char>, ctx: CtxView) -> (Match<usize>, CtxView) {
    match spec_func_type(s, ctx).0 {
        Some((rest, t)) => {
            let known = spec_func_type(s, ctx).1.with_known_type(t);
            (Some((rest, position(known.types.list, t).unwrap() as usize)), known)
        },
        None => (None, spec_func_type(s, ctx).1),
    }
}

/// Reads a function type, adds its parameters to the locals of `ctx` and
/// looks up its position among the types of `ctx`, to which it is added if
/// it is new.
pub fn type_use<'a>(input: &'a str, ctx: &mut Ctx) -> (r: Option<(&'a str, usize)>)
    ensures
        final(ctx)@ == spec_type_use(input@, old(ctx)@).1,
        match spec_type_use(input@, old(ctx)@).0 {
            Some((rest, i)) => r matches Some((left, v)) && left@ == rest && v == i,
            None => r is None,
        },
{
    match func_type(input, ctx) {
        Some((rest, t)) => {
            let i = ctx.upsert_func_type(&t);
            Some((rest, i))
        },
        None => None,
    }
}

} // verus!
