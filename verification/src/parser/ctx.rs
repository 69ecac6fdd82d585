//! What the text parser knows while it reads a module: the identifiers in
//! scope and the types, functions and exports collected so far.

use crate::ast::{
    copy_export, copy_func, copy_func_type, exports_view, funcs_view, same_func_type,
    types_view, Export, ExportView, Func, FuncType, FuncTypeView, FuncView, Type,
};
use crate::parser::types::{Index, IndexView};
use vstd::prelude::*;

verus! {

/// The view of an optional identifier.
pub type IdView = Option<Seq<char>>;

/// The view of an optional identifier.
pub open spec fn id_view(id: Option<String>) -> IdView {
    match id {
        Some(name) => Some(name@),
        None => None,
    }
}

/// The views of a list of optional identifiers, element by element.
pub open spec fn ids_view(ids: Seq<Option<String>>) -> Seq<IdView> {
    Seq::new(ids.len(), |i: int| id_view(ids[i]))
}

/// The first position at which `x` occurs in `s`, if it occurs.
pub open spec fn position<A>(s: Seq<A>, x: A) -> Option<int>
    decreases s.len(),
{
    if s.len() == 0 {
        None
    } else if s.first() == x {
        Some(0int)
    } else {
        match position(s.drop_first(), x) {
            Some(i) => Some(i + 1),
            None => None,
        }
    }
}

/// A position is the first of `x` exactly when `x` stands there and nowhere
/// before; there is none exactly when `x` stands nowhere.
pub proof fn lemma_position<A>(s: Seq<A>, x: A)
    ensures
        match position(s, x) {
            Some(i) => 0 <= i < s.len() && s[i] == x && forall|j: int| 0 <= j < i ==> s[j] != x,
            None => forall|j: int| 0 <= j < s.len() ==> s[j] != x,
        },
    decreases s.len(),
{
    if s.len() > 0 && s.first() != x {
        let rest = s.drop_first();
        lemma_position(rest, x);
        match position(rest, x) {
            Some(i) => {
                assert(s[i + 1] == rest[i]);
                assert forall|j: int| 0 <= j < i + 1 implies s[j] != x by {
                    if j > 0 {
                        assert(s[j] == rest[j - 1]);
                    }
                }
            },
            None => {
                assert forall|j: int| 0 <= j < s.len() implies s[j] != x by {
                    if j > 0 {
                        assert(s[j] == rest[j - 1]);
                    }
                }
            },
        }
    }
}

/// The position found in a list from which the first `n` items were
/// dropped, counted in the whole list.
pub open spec fn shifted(found: Option<int>, n: int) -> Option<int> {
    match found {
        Some(i) => Some(i + n),
        None => None,
    }
}

/// A list of items, each with an optional identifier. The two lists grow
/// independently of each other.
#[derive(Clone, PartialEq, Eq, Debug)]
pub struct Field<T> {
    pub ids: Vec<Option<String>>,
    pub list: Vec<T>,
}

impl<T> Field<T> {
    /// A field without items and identifiers.
    pub fn new() -> (field: Self)
        ensures
            field.ids@ == Seq::<Option<String>>::empty(),
            field.list@ == Seq::<T>::empty(),
    {
        Self { ids: Vec::new(), list: Vec::new() }
    }

    /// Appends an item and its identifier.
    pub fn add(&mut self, id: Option<String>, item: T)
        ensures
            final(self).ids@ == old(self).ids@.push(id),
            final(self).list@ == old(self).list@.push(item),
    {
        self.add_item(item);
        self.add_id(id);
    }

    /// Appends an item.
    pub fn add_item(&mut self, item: T)
        ensures
            final(self).ids == old(self).ids,
            final(self).list@ == old(self).list@.push(item),
    {
        self.list.push(item);
    }

    /// Appends an identifier.
    pub fn add_id(&mut self, id: Option<String>)
        ensures
            final(self).ids@ == old(self).ids@.push(id),
            final(self).list == old(self).list,
    {
        self.ids.push(id)
    }
}

/// The view of a [`Field`]: the views of its identifiers and of its items.
pub struct FieldView<V> {
    pub ids: Seq<IdView>,
    pub list: Seq<V>,
}

/// The parser's context.
#[derive(Clone, PartialEq, Eq, Debug)]
pub struct Ctx {
    pub locals: Vec<Option<String>>,
    pub types: Field<Type>,
    pub funcs: Field<Func>,
    pub exports: Field<Export>,
}

/// The view of a [`Ctx`].
pub struct CtxView {
    pub locals: Seq<IdView>,
    pub types: FieldView<FuncTypeView>,
    pub funcs: FieldView<FuncView>,
    pub exports: FieldView<ExportView>,
}

impl CtxView {
    /// The context of a parser that has read nothing yet.
    pub open spec fn empty() -> CtxView {
        CtxView {
            locals: Seq::empty(),
            types: FieldView { ids: Seq::empty(), list: Seq::empty() },
            funcs: FieldView { ids: Seq::empty(), list: Seq::empty() },
            exports: FieldView { ids: Seq::empty(), list: Seq::empty() },
        }
    }

    /// The function that `idx` names: as a number, the number itself; as an
    /// identifier, the first position of that identifier among the function
    /// identifiers, if it is there.
    pub open spec fn func_idx(self, idx: IndexView) -> Option<int> {
        match idx {
            IndexView::Idx(i) => Some(i as int),
            IndexView::Id(id) => position(self.funcs.ids, Some(id)),
        }
    }

    /// The local that `idx` names: as a number, the number itself; as an
    /// identifier, the first position of that identifier among the local
    /// identifiers, if it is there.
    pub open spec fn local_idx(self, idx: IndexView) -> Option<int> {
        match idx {
            IndexView::Idx(i) => Some(i as int),
            IndexView::Id(id) => position(self.locals, Some(id)),
        }
    }

    /// Whether `id` may be added to the locals: it is no identifier, or one
    /// that is not among the locals yet.
    pub open spec fn local_id_is_free(self, id: IdView) -> bool {
        id is None || position(self.locals, id) is None
    }

    /// The context with the local `id` added.
    pub open spec fn with_local(self, id: IdView) -> CtxView {
        CtxView { locals: self.locals.push(id), ..self }
    }

    /// The context with the function identifier `id` added.
    pub open spec fn with_func_id(self, id: IdView) -> CtxView {
        CtxView {
            funcs: FieldView { ids: self.funcs.ids.push(id), list: self.funcs.list },
            ..self
        }
    }

    /// The context with the function `func` added.
    pub open spec fn with_func(self, func: FuncView) -> CtxView {
        CtxView {
            funcs: FieldView { ids: self.funcs.ids, list: self.funcs.list.push(func) },
            ..self
        }
    }

    /// The context with the function type `t` and its identifier added.
    pub open spec fn with_type(self, id: IdView, t: FuncTypeView) -> CtxView {
        CtxView {
            types: FieldView { ids: self.types.ids.push(id), list: self.types.list.push(t) },
            ..self
        }
    }

    /// The context in which the function type `t` is among the types: the
    /// context itself if it is there already, else the context with `t`
    /// added without an identifier.
    pub open spec fn with_known_type(self, t: FuncTypeView) -> CtxView {
        if position(self.types.list, t) is Some {
            self
        } else {
            self.with_type(None, t)
        }
    }

    /// The context with the export `export` and its identifier added.
    pub open spec fn with_export(self, id: IdView, export: ExportView) -> CtxView {
        CtxView {
            exports: FieldView {
                ids: self.exports.ids.push(id),
                list: self.exports.list.push(export),
            },
            ..self
        }
    }
}

impl View for Ctx {
    type V = CtxView;

    open spec fn view(&self) -> CtxView {
        CtxView {
            locals: ids_view(self.locals@),
            types: FieldView { ids: ids_view(self.types.ids@), list: types_view(self.types.list@) },
            funcs: FieldView { ids: ids_view(self.funcs.ids@), list: funcs_view(self.funcs.list@) },
            exports: FieldView {
                ids: ids_view(self.exports.ids@),
                list: exports_view(self.exports.list@),
            },
        }
    }
}

/// Copies an optional identifier.
pub fn copy_id(id: &Option<String>) -> (out: Option<String>)
    ensures
        out == *id,
{
    match id {
        Some(name) => Some(name.clone()),
        None => None,
    }
}

/// The first position of the identifier `id` in `ids`.
pub fn position_of_id(ids: &Vec<Option<String>>, id: &String) -> (r: Option<usize>)
    ensures
        match r {
            Some(i) => position(ids_view(ids@), Some(id@)) == Some(i as int),
            None => position(ids_view(ids@), Some(id@)) is None,
        },
{
    let ghost all = ids_view(ids@);
    let ghost wanted = Some(id@);
    let mut i: usize = 0;
    assert(all.skip(0) =~= all);
    while i < ids.len()
        invariant
            i <= ids.len(),
            all == ids_view(ids@),
            wanted == Some(id@),
            position(all, wanted) == shifted(position(all.skip(i as int), wanted), i as int),
        decreases ids.len() - i,
    {
        assert(all.skip(i as int).drop_first() =~= all.skip(i as int + 1));
        assert(all.skip(i as int).first() == id_view(ids@[i as int]));
        let found = match &ids[i] {
            Some(name) => *name == *id,
            None => false,
        };
        if found {
            return Some(i);
        }
        i = i + 1;
    }
    None
}

impl Ctx {
    /// A context without identifiers, types, functions and exports.
    pub fn new() -> (ctx: Self)
        ensures
            ctx@ == CtxView::empty(),
    {
        let ctx = Self {
            locals: Vec::new(),
            types: Field::new(),
            funcs: Field::new(),
            exports: Field::new(),
        };
        assert(ctx@.locals =~= Seq::empty());
        assert(ctx@.types.ids =~= Seq::empty());
        assert(ctx@.types.list =~= Seq::empty());
        assert(ctx@.funcs.ids =~= Seq::empty());
        assert(ctx@.funcs.list =~= Seq::empty());
        assert(ctx@.exports.ids =~= Seq::empty());
        assert(ctx@.exports.list =~= Seq::empty());
        ctx
    }

    /// The function that `idx` names, if it names one.
    pub fn find_func_idx(&self, idx: &Index) -> (r: Option<usize>)
        ensures
            match r {
                Some(i) => self@.func_idx(idx@) == Some(i as int),
                None => self@.func_idx(idx@) is None,
            },
    {
        match idx {
            Index::Idx(i) => Some(*i),
            Index::Id(id) => position_of_id(&self.funcs.ids, id),
        }
    }

    /// The function that `idx` names.
    pub fn get_func_idx(&self, idx: &Index) -> (i: usize)
        requires
            self@.func_idx(idx@) is Some,
        ensures
            self@.func_idx(idx@) == Some(i as int),
    {
        match self.find_func_idx(idx) {
            Some(i) => i,
            None => unreached(),
        }
    }

    /// Whether `id` may be added to the locals.
    pub fn local_id_is_free(&self, id: &Option<String>) -> (free: bool)
        ensures
            free == self@.local_id_is_free(id_view(*id)),
    {
        match id {
            Some(name) => position_of_id(&self.locals, name).is_none(),
            None => true,
        }
    }

    /// Adds a local with the given optional identifier. An identifier must
    /// not be among the locals yet.
    pub fn insert_local_id(&mut self, id: &Option<String>)
        requires
            old(self)@.local_id_is_free(id_view(*id)),
        ensures
            final(self)@ == old(self)@.with_local(id_view(*id)),
    {
        self.locals.push(copy_id(id));
        assert(final(self)@.locals =~= old(self)@.locals.push(id_view(*id)));
    }

    /// The local that `index` names, if it names one.
    pub fn find_local_idx(&self, index: &Index) -> (r: Option<usize>)
        ensures
            match r {
                Some(i) => self@.local_idx(index@) == Some(i as int),
                None => self@.local_idx(index@) is None,
            },
    {
        match index {
            Index::Idx(i) => Some(*i),
            Index::Id(id) => position_of_id(&self.locals, id),
        }
    }

    /// The local that `index` names.
    pub fn get_local_idx(&self, index: &Index) -> (i: usize)
        requires
            self@.local_idx(index@) is Some,
        ensures
            self@.local_idx(index@) == Some(i as int),
    {
        match self.find_local_idx(index) {
            Some(i) => i,
            None => unreached(),
        }
    }

    /// Adds a function identifier and returns its position.
    pub fn insert_func_id(&mut self, id: Option<String>) -> (i: usize)
        ensures
            i == old(self)@.funcs.ids.len(),
            final(self)@ == old(self)@.with_func_id(id_view(id)),
    {
        self.funcs.add_id(id);
        assert(final(self)@.funcs.ids =~= old(self)@.funcs.ids.push(id_view(id)));
        self.funcs.ids.len() - 1
    }

    /// Adds a function type with its optional identifier.
    pub fn insert_id_func_type(&mut self, id: Option<String>, t: &FuncType)
        ensures
            final(self)@ == old(self)@.with_type(id_view(id), t@),
    {
        self.types.add(id, copy_func_type(t));
        assert(final(self)@.types.ids =~= old(self)@.types.ids.push(id_view(id)));
        assert(final(self)@.types.list =~= old(self)@.types.list.push(t@));
    }

    /// The first position of the function type `ft` among the types.
    pub fn get_idx_from_func_type(&self, ft: &FuncType) -> (r: Option<usize>)
        ensures
            match r {
                Some(i) => position(self@.types.list, ft@) == Some(i as int),
                None => position(self@.types.list, ft@) is None,
            },
    {
        let ghost all = self@.types.list;
        let mut i: usize = 0;
        assert(all.skip(0) =~= all);
        while i < self.types.list.len()
            invariant
                i <= self.types.list.len(),
                all == self@.types.list,
                position(all, ft@) == shifted(position(all.skip(i as int), ft@), i as int),
            decreases self.types.list.len() - i,
        {
            assert(all.skip(i as int).drop_first() =~= all.skip(i as int + 1));
            assert(all.skip(i as int).first() == self.types.list@[i as int]@);
            if same_func_type(&self.types.list[i], ft) {
                return Some(i);
            }
            i = i + 1;
        }
        None
    }

    /// Adds the function type `ft` without an identifier and returns the
    /// first position at which `ft` then stands.
    pub fn insert_func_type_get_idx(&mut self, ft: &FuncType) -> (i: usize)
        ensures
            final(self)@ == old(self)@.with_type(None, ft@),
            position(final(self)@.types.list, ft@) == Some(i as int),
    {
        self.insert_id_func_type(None, ft);
        proof {
            lemma_position(self@.types.list, ft@);
            assert(self@.types.list[old(self)@.types.list.len() as int] == ft@);
        }
        match self.get_idx_from_func_type(ft) {
            Some(i) => i,
            None => unreached(),
        }
    }

    /// The position of the function type `ft` among the types; `ft` is
    /// added, without an identifier, if it is not among them yet.
    pub fn upsert_func_type(&mut self, ft: &FuncType) -> (i: usize)
        ensures
            final(self)@ == old(self)@.with_known_type(ft@),
            position(final(self)@.types.list, ft@) == Some(i as int),
    {
        match self.get_idx_from_func_type(ft) {
            None => self.insert_func_type_get_idx(ft),
            Some(i) => i,
        }
    }

    /// Adds a function.
    pub fn insert_func(&mut self, func: &Func)
        ensures
            final(self)@ == old(self)@.with_func(func@),
    {
        self.funcs.add_item(copy_func(func));
        assert(final(self)@.funcs.list =~= old(self)@.funcs.list.push(func@));
    }

    /// Adds an export with its optional identifier.
    pub fn insert_export(&mut self, id: &Option<String>, export: &Export)
        ensures
            final(self)@ == old(self)@.with_export(id_view(*id), export@),
    {
        self.exports.add(copy_id(id), copy_export(export));
        assert(final(self)@.exports.ids =~= old(self)@.exports.ids.push(id_view(*id)));
        assert(final(self)@.exports.list =~= old(self)@.exports.list.push(export@));
    }
}

} // verus!
