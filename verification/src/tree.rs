//! The projected syntax tree: what the extractor reads of a parsed source
//! file, held as plain values, together with the mathematical view of each
//! node.

use vstd::prelude::*;

verus! {

/// Whether an item is visible outside its module.
#[derive(Clone, Copy, Debug, PartialEq, Eq, Structural)]
pub enum Visibility {
    Public,
    NonPublic,
}

/// The calling convention of a function item.
#[derive(Clone, Copy, Debug, PartialEq, Eq, Structural)]
pub enum Abi {
    C,
    Other,
}

/// The pattern that binds a function parameter.
#[derive(Debug, PartialEq, Eq)]
pub enum Pattern {
    Ident(String),
    Other,
}

/// A type expression, as far as its outermost form.
#[derive(Debug, PartialEq, Eq)]
pub enum TypeExpr {
    Pointer(Box<TypeExpr>),
    Path(Vec<String>),
    Other,
}

/// One parameter of a function item.
#[derive(Debug, PartialEq, Eq)]
pub struct Param {
    pub pattern: Pattern,
    pub type_expr: TypeExpr,
}

/// The signature of a function item. An absent `return_expr` is the unit
/// return.
#[derive(Debug, PartialEq, Eq)]
pub struct FnDecl {
    pub parameters: Vec<Param>,
    pub return_expr: Option<TypeExpr>,
}

/// One field of a struct item.
#[derive(Debug, PartialEq, Eq)]
pub struct Field {
    pub name: String,
    pub type_expr: TypeExpr,
}

/// An attribute, with the attributes nested in its argument list, if it has
/// one.
#[derive(Debug, PartialEq, Eq)]
pub struct Attribute {
    pub name: String,
    pub children: Option<Vec<Attribute>>,
}

/// What kind of item this is, with what that kind exposes.
#[derive(Debug, PartialEq, Eq)]
pub enum ItemKind {
    Function { abi: Abi, decl: FnDecl },
    Struct { fields: Vec<Field> },
    Other,
}

/// A top-level item of the source file.
#[derive(Debug, PartialEq, Eq)]
pub struct Item {
    pub kind: ItemKind,
    pub name: String,
    pub visibility: Visibility,
    pub attributes: Vec<Attribute>,
}

/// A pattern as mathematics: its identifier as a sequence of characters.
pub enum PatternView {
    Ident(Seq<char>),
    Other,
}

/// A type expression as mathematics.
pub enum TypeExprView {
    Pointer(Box<TypeExprView>),
    Path(Seq<Seq<char>>),
    Other,
}

/// A parameter as mathematics.
pub struct ParamView {
    pub pattern: PatternView,
    pub type_expr: TypeExprView,
}

/// A function signature as mathematics.
pub struct FnDeclView {
    pub parameters: Seq<ParamView>,
    pub return_expr: Option<TypeExprView>,
}

/// A struct field as mathematics.
pub struct FieldView {
    pub name: Seq<char>,
    pub type_expr: TypeExprView,
}

/// An attribute as mathematics, nested attributes included.
pub struct AttributeView {
    pub name: Seq<char>,
    pub children: Option<Seq<AttributeView>>,
}

/// The kind of an item as mathematics.
pub enum ItemKindView {
    Function { abi: Abi, decl: FnDeclView },
    Struct { fields: Seq<FieldView> },
    Other,
}

/// An item as mathematics: what every contract about items speaks of.
pub struct ItemView {
    pub kind: ItemKindView,
    pub name: Seq<char>,
    pub visibility: Visibility,
    pub attributes: Seq<AttributeView>,
}

/// The views of the elements of a sequence, in order.
pub open spec fn views<T: View>(s: Seq<T>) -> Seq<T::V> {
    Seq::new(s.len(), |i: int| s[i]@)
}

impl View for Pattern {
    type V = PatternView;

    open spec fn view(&self) -> PatternView {
        match self {
            Pattern::Ident(name) => PatternView::Ident(name@),
            Pattern::Other => PatternView::Other,
        }
    }
}

/// The view of a type expression, the pointed-to type included.
pub open spec fn type_expr_view(ty: TypeExpr) -> TypeExprView
    decreases ty,
{
    match ty {
        TypeExpr::Pointer(inner) => TypeExprView::Pointer(Box::new(type_expr_view(*inner))),
        TypeExpr::Path(segments) => TypeExprView::Path(views(segments@)),
        TypeExpr::Other => TypeExprView::Other,
    }
}

impl View for TypeExpr {
    type V = TypeExprView;

    open spec fn view(&self) -> TypeExprView {
        type_expr_view(*self)
    }
}

impl View for Param {
    type V = ParamView;

    open spec fn view(&self) -> ParamView {
        ParamView { pattern: self.pattern@, type_expr: self.type_expr@ }
    }
}

impl View for FnDecl {
    type V = FnDeclView;

    open spec fn view(&self) -> FnDeclView {
        FnDeclView {
            parameters: views(self.parameters@),
            return_expr: match self.return_expr {
                Some(ty) => Some(ty@),
                None => None,
            },
        }
    }
}

impl View for Field {
    type V = FieldView;

    open spec fn view(&self) -> FieldView {
        FieldView { name: self.name@, type_expr: self.type_expr@ }
    }
}

/// The view of an attribute, nested attributes included.
pub open spec fn attribute_view(attr: Attribute) -> AttributeView
    decreases attr,
{
    AttributeView {
        name: attr.name@,
        children: match attr.children {
            Some(list) => Some(
                Seq::new(
                    list@.len(),
                    |i: int|
                        if 0 <= i < list@.len() {
                            attribute_view(list@[i])
                        } else {
                            arbitrary()
                        },
                ),
            ),
            None => None,
        },
    }
}

impl View for Attribute {
    type V = AttributeView;

    open spec fn view(&self) -> AttributeView {
        attribute_view(*self)
    }
}

impl View for ItemKind {
    type V = ItemKindView;

    open spec fn view(&self) -> ItemKindView {
        match self {
            ItemKind::Function { abi, decl } => ItemKindView::Function { abi: *abi, decl: decl@ },
            ItemKind::Struct { fields } => ItemKindView::Struct { fields: views(fields@) },
            ItemKind::Other => ItemKindView::Other,
        }
    }
}

impl View for Item {
    type V = ItemView;

    open spec fn view(&self) -> ItemView {
        ItemView {
            kind: self.kind@,
            name: self.name@,
            visibility: self.visibility,
            attributes: views(self.attributes@),
        }
    }
}

/// Copies a list of texts.
fn clone_texts(texts: &Vec<String>) -> (copy: Vec<String>)
    ensures
        views(copy@) == views(texts@),
{
    let mut copy: Vec<String> = Vec::new();
    let mut i: usize = 0;
    while i < texts.len()
        invariant
            i <= texts.len(),
            copy@.len() == i,
            forall|j: int| 0 <= j < i ==> (#[trigger] copy@[j])@ == texts@[j]@,
        decreases texts.len() - i,
    {
        copy.push(texts[i].clone());
        i += 1;
    }
    assert(views(copy@) =~= views(texts@));
    copy
}

impl Clone for TypeExpr {
    fn clone(&self) -> (copy: Self)
        ensures
            copy@ == self@,
        decreases self,
    {
        match self {
            TypeExpr::Pointer(inner) => TypeExpr::Pointer(Box::new((**inner).clone())),
            TypeExpr::Path(segments) => TypeExpr::Path(clone_texts(segments)),
            TypeExpr::Other => TypeExpr::Other,
        }
    }
}

impl Clone for Pattern {
    fn clone(&self) -> (copy: Self)
        ensures
            copy@ == self@,
    {
        match self {
            Pattern::Ident(name) => Pattern::Ident(name.clone()),
            Pattern::Other => Pattern::Other,
        }
    }
}

impl Clone for Param {
    fn clone(&self) -> (copy: Self)
        ensures
            copy@ == self@,
    {
        Param { pattern: self.pattern.clone(), type_expr: self.type_expr.clone() }
    }
}

impl Clone for FnDecl {
    fn clone(&self) -> (copy: Self)
        ensures
            copy@ == self@,
    {
        let mut parameters: Vec<Param> = Vec::new();
        let mut i: usize = 0;
        while i < self.parameters.len()
            invariant
                i <= self.parameters.len(),
                parameters@.len() == i,
                forall|j: int| 0 <= j < i ==> (#[trigger] parameters@[j])@ == self.parameters@[j]@,
            decreases self.parameters.len() - i,
        {
            parameters.push(self.parameters[i].clone());
            i += 1;
        }
        assert(views(parameters@) =~= views(self.parameters@));
        let return_expr = match &self.return_expr {
            Some(ty) => Some(ty.clone()),
            None => None,
        };
        FnDecl { parameters, return_expr }
    }
}

impl Clone for Field {
    fn clone(&self) -> (copy: Self)
        ensures
            copy@ == self@,
    {
        Field { name: self.name.clone(), type_expr: self.type_expr.clone() }
    }
}

/// Copies a list of attributes.
fn clone_attributes(list: &Vec<Attribute>) -> (copy: Vec<Attribute>)
    ensures
        views(copy@) == views(list@),
    decreases list,
{
    let mut copy: Vec<Attribute> = Vec::new();
    let mut i: usize = 0;
    while i < list.len()
        invariant
            i <= list.len(),
            copy@.len() == i,
            forall|j: int| 0 <= j < i ==> (#[trigger] copy@[j])@ == list@[j]@,
        decreases list.len() - i,
    {
        copy.push(list[i].clone());
        i += 1;
    }
    assert(views(copy@) =~= views(list@));
    copy
}

impl Clone for Attribute {
    fn clone(&self) -> (copy: Self)
        ensures
            copy@ == self@,
        decreases self,
    {
        let children = match &self.children {
            Some(list) => Some(clone_attributes(list)),
            None => None,
        };
        let copy = Attribute { name: self.name.clone(), children };
        proof {
            lemma_children_view(*self);
            lemma_children_view(copy);
        }
        copy
    }
}

impl Clone for ItemKind {
    fn clone(&self) -> (copy: Self)
        ensures
            copy@ == self@,
    {
        match self {
            ItemKind::Function { abi, decl } => ItemKind::Function { abi: *abi, decl: decl.clone() },
            ItemKind::Struct { fields } => {
                let mut copy: Vec<Field> = Vec::new();
                let mut i: usize = 0;
                while i < fields.len()
                    invariant
                        i <= fields.len(),
                        copy@.len() == i,
                        forall|j: int| 0 <= j < i ==> (#[trigger] copy@[j])@ == fields@[j]@,
                    decreases fields.len() - i,
                {
                    copy.push(fields[i].clone());
                    i += 1;
                }
                assert(views(copy@) =~= views(fields@));
                ItemKind::Struct { fields: copy }
            },
            ItemKind::Other => ItemKind::Other,
        }
    }
}

impl Clone for Item {
    fn clone(&self) -> (copy: Self)
        ensures
            copy@ == self@,
    {
        Item {
            kind: self.kind.clone(),
            name: self.name.clone(),
            visibility: self.visibility,
            attributes: clone_attributes(&self.attributes),
        }
    }
}

/// Whether some attribute of the list has the given name.
pub open spec fn has_attribute(attrs: Seq<AttributeView>, name: Seq<char>) -> bool {
    exists|i: int| 0 <= i < attrs.len() && #[trigger] attrs[i].name == name
}

/// Whether some attribute of the list is named `repr` and has a child named
/// `C`.
pub open spec fn has_repr_c(attrs: Seq<AttributeView>) -> bool {
    exists|i: int|
        0 <= i < attrs.len() && (#[trigger] attrs[i]).name == "repr"@ && attrs[i].children is Some
            && has_attribute(attrs[i].children->0, "C"@)
}

/// The children of an attribute are the views of its nested attributes.
pub proof fn lemma_children_view(attr: Attribute)
    ensures
        attr@.children == match attr.children {
            Some(list) => Some(views(list@)),
            None => None,
        },
{
    match attr.children {
        Some(list) => {
            assert(attr@.children->0 =~= views(list@));
        },
        None => {},
    }
}

/// Tells whether an attribute of the list has the given name.
pub fn contains_name(attrs: &Vec<Attribute>, name: &str) -> (found: bool)
    ensures
        found == has_attribute(views(attrs@), name@),
{
    let wanted = String::from_str(name);
    let mut i: usize = 0;
    while i < attrs.len()
        invariant
            i <= attrs.len(),
            wanted@ == name@,
            forall|j: int| 0 <= j < i ==> (#[trigger] views(attrs@)[j]).name != name@,
        decreases attrs.len() - i,
    {
        if attrs[i].name == wanted {
            assert(views(attrs@)[i as int].name == name@);
            return true;
        }
        i += 1;
    }
    false
}

/// Tells whether the list holds a `repr` attribute with a child named `C`.
pub fn contains_repr_c(attrs: &Vec<Attribute>) -> (found: bool)
    ensures
        found == has_repr_c(views(attrs@)),
{
    let repr = String::from_str("repr");
    let mut i: usize = 0;
    while i < attrs.len()
        invariant
            i <= attrs.len(),
            repr@ == "repr"@,
            forall|j: int|
                0 <= j < i ==> !({
                    &&& (#[trigger] views(attrs@)[j]).name == "repr"@
                    &&& views(attrs@)[j].children is Some
                    &&& has_attribute(views(attrs@)[j].children->0, "C"@)
                }),
        decreases attrs.len() - i,
    {
        if attrs[i].name == repr {
            proof {
                lemma_children_view(attrs[i as int]);
            }
            match &attrs[i].children {
                Some(list) => {
                    if contains_name(list, "C") {
                        assert(views(attrs@)[i as int].name == "repr"@);
                        return true;
                    }
                },
                None => {},
            }
        }
        i += 1;
    }
    false
}

} // verus!
