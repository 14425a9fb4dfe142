//! The extractor: one walk over the top-level items, which records every
//! exportable function in source order.

use vstd::prelude::*;
use crate::ir::{ExportFunc, ExportFuncView, RetKind, TypedIdent, TypedIdentView};
use crate::tree::{
    contains_name, contains_repr_c, has_attribute, has_repr_c, views, Abi, FnDecl, FnDeclView,
    Item, ItemKind, ItemKindView, ItemView, Param, ParamView, Pattern, PatternView, TypeExpr,
    TypeExprView, Visibility,
};

verus! {

/// The host-language type of every pointer return: a pointer-sized opaque
/// handle.
pub open spec fn handle_type() -> Seq<char> {
    "IntPtr"@
}

/// The kind of a return type expression. An absent one is the unit return.
pub open spec fn ret_kind_of(return_expr: Option<TypeExprView>) -> RetKind {
    match return_expr {
        None => RetKind::NoReturn,
        Some(TypeExprView::Pointer(_)) => RetKind::Pointer,
        Some(_) => RetKind::Unsupported,
    }
}

/// The host-language return type of a kind, for the kinds that are exported.
pub open spec fn mapped_return_type(kind: RetKind) -> Option<Seq<char>> {
    match kind {
        RetKind::Pointer => Some(handle_type()),
        _ => None,
    }
}

/// The name a pattern binds: the identifier, or the empty text.
pub open spec fn binding_name(pattern: PatternView) -> Seq<char> {
    match pattern {
        PatternView::Ident(name) => name,
        PatternView::Other => Seq::empty(),
    }
}

/// The source token of a type: the first segment of a path, and the empty
/// text for every other type expression, a path without segments included.
pub open spec fn type_token(type_expr: TypeExprView) -> Seq<char> {
    match type_expr {
        TypeExprView::Path(segments) => if segments.len() > 0 {
            segments[0]
        } else {
            Seq::empty()
        },
        _ => Seq::empty(),
    }
}

/// The parameter entry of one parameter.
pub open spec fn typed_ident_of(param: ParamView) -> TypedIdentView {
    TypedIdentView { name: binding_name(param.pattern), ty: type_token(param.type_expr) }
}

/// The entry of a function that met the export predicate: present exactly
/// when the function returns a pointer.
pub open spec fn export_of_decl(name: Seq<char>, decl: FnDeclView) -> Option<ExportFuncView> {
    match mapped_return_type(ret_kind_of(decl.return_expr)) {
        Some(return_type) => Some(
            ExportFuncView {
                name,
                params: decl.parameters.map_values(|p: ParamView| typed_ident_of(p)),
                return_type,
            },
        ),
        None => None,
    }
}

/// The export predicate: a function with the C calling convention that is
/// public and carries the attribute `no_mangle`.
pub open spec fn export_predicate(item: ItemView) -> bool {
    &&& item.kind matches ItemKindView::Function { abi, .. } && abi == Abi::C
    &&& item.visibility == Visibility::Public
    &&& has_attribute(item.attributes, "no_mangle"@)
}

/// The entry that an item contributes, if it contributes one.
pub open spec fn export_of(item: ItemView) -> Option<ExportFuncView> {
    match item.kind {
        ItemKindView::Function { decl, .. } => if export_predicate(item) {
            export_of_decl(item.name, decl)
        } else {
            None
        },
        _ => None,
    }
}

/// The entries of a list of items: those of its items that contribute one,
/// in the order of the items.
pub open spec fn extract(items: Seq<ItemView>) -> Seq<ExportFuncView>
    decreases items.len(),
{
    if items.len() == 0 {
        Seq::empty()
    } else {
        match export_of(items.last()) {
            Some(entry) => extract(items.drop_last()).push(entry),
            None => extract(items.drop_last()),
        }
    }
}

/// The item behind the entry at position `k` of the record: the index of
/// the `k`-th item, counted from 0, that contributes an entry.
pub open spec fn source_index(items: Seq<ItemView>, k: int) -> int
    decreases items.len(),
{
    if items.len() == 0 {
        0
    } else if export_of(items.last()) is Some && k == extract(items.drop_last()).len() {
        items.len() - 1
    } else {
        source_index(items.drop_last(), k)
    }
}

/// Every entry of the record stands for an item of the source on which the
/// export predicate holds and which returns a pointer: the item at
/// `source_index`.
pub proof fn lemma_entry_source(items: Seq<ItemView>, k: int)
    requires
        0 <= k < extract(items).len(),
    ensures
        0 <= source_index(items, k) < items.len(),
        export_predicate(items[source_index(items, k)]),
        export_of(items[source_index(items, k)]) == Some(extract(items)[k]),
        extract(items)[k].name == items[source_index(items, k)].name,
        extract(items)[k].return_type == handle_type(),
    decreases items.len(),
{
    if items.len() > 0 {
        let front = items.drop_last();
        if export_of(items.last()) is Some && k == extract(front).len() {
        } else {
            lemma_entry_source(front, k);
            assert(items[source_index(front, k)] == front[source_index(front, k)]);
        }
    }
}

/// The entries keep the order of their items: a later entry stands for a
/// later item.
pub proof fn lemma_source_order(items: Seq<ItemView>, k1: int, k2: int)
    requires
        0 <= k1 < k2 < extract(items).len(),
    ensures
        source_index(items, k1) < source_index(items, k2),
    decreases items.len(),
{
    if items.len() > 0 {
        let front = items.drop_last();
        if export_of(items.last()) is Some && k2 == extract(front).len() {
            lemma_entry_source(front, k1);
        } else {
            lemma_source_order(front, k1, k2);
        }
    }
}

/// An item has an entry in the record exactly when it contributes one: an
/// item that is not exported has none, and no exported item is left out.
pub proof fn lemma_entries_are_the_exported(items: Seq<ItemView>, j: int)
    requires
        0 <= j < items.len(),
    ensures
        export_of(items[j]) is Some <==> exists|k: int|
            0 <= k < extract(items).len() && #[trigger] source_index(items, k) == j,
    decreases items.len(),
{
    let front = items.drop_last();
    if j == items.len() - 1 {
        if export_of(items.last()) is Some {
            assert(source_index(items, extract(front).len() as int) == j);
        } else {
            assert forall|k: int| 0 <= k < extract(items).len() implies #[trigger] source_index(
                items,
                k,
            ) != j by {
                lemma_entry_source(front, k);
            }
        }
    } else {
        lemma_entries_are_the_exported(front, j);
        assert(front[j] == items[j]);
        if export_of(items[j]) is Some {
            let k: int = choose|k: int|
                0 <= k < extract(front).len() && #[trigger] source_index(front, k) == j;
            assert(source_index(items, k) == j);
        } else {
            assert forall|k: int| 0 <= k < extract(items).len() implies #[trigger] source_index(
                items,
                k,
            ) != j by {
                if export_of(items.last()) is Some && k == extract(front).len() {
                } else {
                    assert(source_index(items, k) == source_index(front, k));
                }
            }
        }
    }
}

/// Items that contribute no entry are inert: dropping any of them leaves the
/// record as it is. `keep` may drop any item but one that is exported.
pub proof fn lemma_inert_items(items: Seq<ItemView>, keep: spec_fn(ItemView) -> bool)
    requires
        forall|item: ItemView| export_of(item) is Some ==> #[trigger] keep(item),
    ensures
        extract(items.filter(keep)) == extract(items),
    decreases items.len(),
{
    reveal(Seq::filter);
    if items.len() > 0 {
        let front = items.drop_last();
        lemma_inert_items(front, keep);
        if keep(items.last()) {
            let kept = front.filter(keep).push(items.last());
            assert(kept.drop_last() =~= front.filter(keep));
            assert(kept.last() == items.last());
        }
    }
}

/// A list none of whose items contributes an entry gives the empty record.
pub proof fn lemma_nothing_exported(items: Seq<ItemView>)
    requires
        forall|i: int| 0 <= i < items.len() ==> export_of(#[trigger] items[i]) is None,
    ensures
        extract(items) == Seq::<ExportFuncView>::empty(),
    decreases items.len(),
{
    if items.len() > 0 {
        let front = items.drop_last();
        assert forall|i: int| 0 <= i < front.len() implies export_of(#[trigger] front[i]) is None by {
            assert(front[i] == items[i]);
        }
        lemma_nothing_exported(front);
        assert(items.last() == items[items.len() - 1]);
    }
}

/// What the extractor did with one item.
#[derive(Clone, Copy, Debug, PartialEq, Eq, Structural)]
pub enum Visit {
    /// A function that met the export predicate and was recorded.
    Exported,
    /// A function that met the export predicate but returns no pointer.
    Dropped,
    /// A struct with a C layout: observed, and left out of the record.
    Noted,
    /// Anything else.
    Skipped,
}

/// What the extractor does with an item.
pub open spec fn visit_of(item: ItemView) -> Visit {
    match item.kind {
        ItemKindView::Function { decl, .. } => if export_predicate(item) {
            if ret_kind_of(decl.return_expr) == RetKind::Pointer {
                Visit::Exported
            } else {
                Visit::Dropped
            }
        } else {
            Visit::Skipped
        },
        ItemKindView::Struct { .. } => if has_repr_c(item.attributes) {
            Visit::Noted
        } else {
            Visit::Skipped
        },
        ItemKindView::Other => Visit::Skipped,
    }
}

/// Classifies a return type expression.
pub fn classify_return(return_expr: &Option<TypeExpr>) -> (kind: RetKind)
    ensures
        kind == ret_kind_of(
            match *return_expr {
                Some(ty) => Some(ty@),
                None => None,
            },
        ),
{
    match return_expr {
        None => RetKind::NoReturn,
        Some(ty) => match ty {
            TypeExpr::Pointer(_) => RetKind::Pointer,
            _ => RetKind::Unsupported,
        },
    }
}

/// Derives the parameter entry of one parameter.
pub fn typed_ident(param: &Param) -> (entry: TypedIdent)
    ensures
        entry@ == typed_ident_of(param@),
{
    let var_name = match &param.pattern {
        Pattern::Ident(name) => name.clone(),
        _ => String::new(),
    };
    let ty_name = match &param.type_expr {
        TypeExpr::Path(segments) => if segments.len() > 0 {
            segments[0].clone()
        } else {
            String::new()
        },
        _ => String::new(),
    };
    TypedIdent { name: var_name, ty: ty_name }
}

/// The extractor's state: the functions recorded so far, in the order in
/// which they were met.
#[derive(Debug)]
pub struct HydraVisitor {
    pub func_decls: Vec<ExportFunc>,
}

impl View for HydraVisitor {
    type V = Seq<ExportFuncView>;

    open spec fn view(&self) -> Seq<ExportFuncView> {
        views(self.func_decls@)
    }
}

impl HydraVisitor {
    /// An extractor that has recorded nothing.
    pub fn new() -> (visitor: Self)
        ensures
            visitor@ == Seq::<ExportFuncView>::empty(),
    {
        HydraVisitor { func_decls: Vec::new() }
    }

    /// Records a function that met the export predicate, if it returns a
    /// pointer. Otherwise the record is unchanged.
    pub fn process_rust_func(&mut self, ident: &str, fn_decl: &FnDecl)
        ensures
            final(self)@ == match export_of_decl(ident@, fn_decl@) {
                Some(entry) => old(self)@.push(entry),
                None => old(self)@,
            },
    {
        let return_type = match classify_return(&fn_decl.return_expr) {
            RetKind::Pointer => Some("IntPtr"),
            _ => None,
        };
        let mut inputs: Vec<TypedIdent> = Vec::new();
        let mut i: usize = 0;
        while i < fn_decl.parameters.len()
            invariant
                i <= fn_decl.parameters.len(),
                inputs@.len() == i,
                forall|j: int|
                    0 <= j < i ==> (#[trigger] inputs@[j])@ == typed_ident_of(
                        fn_decl.parameters@[j]@,
                    ),
            decreases fn_decl.parameters.len() - i,
        {
            inputs.push(typed_ident(&fn_decl.parameters[i]));
            i += 1;
        }
        if let Some(rt) = return_type {
            let entry = ExportFunc {
                name: String::from_str(ident),
                params: inputs,
                return_type: String::from_str(rt),
            };
            assert(entry@.params =~= fn_decl@.parameters.map_values(
                |p: ParamView| typed_ident_of(p),
            ));
            self.func_decls.push(entry);
            assert(self@ =~= old(self)@.push(entry@));
        }
    }

    /// Visits one item: records it if it is an exportable function, and
    /// tells what was done with it.
    pub fn visit_item(&mut self, item: &Item) -> (visit: Visit)
        ensures
            final(self)@ == match export_of(item@) {
                Some(entry) => old(self)@.push(entry),
                None => old(self)@,
            },
            visit == visit_of(item@),
    {
        match &item.kind {
            ItemKind::Function { abi, decl } => {
                let is_c_abi = *abi == Abi::C;
                let is_public = item.visibility == Visibility::Public;
                let is_no_mangle = contains_name(&item.attributes, "no_mangle");
                if is_c_abi && is_public && is_no_mangle {
                    self.process_rust_func(item.name.as_str(), decl);
                    match classify_return(&decl.return_expr) {
                        RetKind::Pointer => Visit::Exported,
                        _ => Visit::Dropped,
                    }
                } else {
                    Visit::Skipped
                }
            },
            ItemKind::Struct { .. } => {
                let is_rep_c = contains_repr_c(&item.attributes);
                if is_rep_c {
                    Visit::Noted
                } else {
                    Visit::Skipped
                }
            },
            ItemKind::Other => Visit::Skipped,
        }
    }

    /// Visits the items of a list in order.
    pub fn walk_items(&mut self, items: &Vec<Item>)
        ensures
            final(self)@ == old(self)@ + extract(views(items@)),
    {
        let mut i: usize = 0;
        while i < items.len()
            invariant
                i <= items.len(),
                self@ == old(self)@ + extract(views(items@).take(i as int)),
            decreases items.len() - i,
        {
            proof {
                let done = views(items@).take(i as int);
                let next = views(items@).take(i + 1);
                assert(next.drop_last() =~= done);
                assert(next.last() == items@[i as int]@);
            }
            self.visit_item(&items[i]);
            i += 1;
        }
        assert(views(items@).take(items.len() as int) =~= views(items@));
    }
}

} // verus!
