//! The intermediate representation handed from the extractor to the emitter.

use vstd::prelude::*;
use crate::tree::views;

verus! {

/// One function parameter: its name and the source-language token of its
/// type.
#[derive(Debug, PartialEq, Eq)]
pub struct TypedIdent {
    pub name: String,
    pub ty: String,
}

/// One exportable function. `return_type` is a host-language type.
#[derive(Debug, PartialEq, Eq)]
pub struct ExportFunc {
    pub name: String,
    pub params: Vec<TypedIdent>,
    pub return_type: String,
}

/// A parameter entry as mathematics.
pub struct TypedIdentView {
    pub name: Seq<char>,
    pub ty: Seq<char>,
}

/// A function entry as mathematics.
pub struct ExportFuncView {
    pub name: Seq<char>,
    pub params: Seq<TypedIdentView>,
    pub return_type: Seq<char>,
}

impl View for TypedIdent {
    type V = TypedIdentView;

    open spec fn view(&self) -> TypedIdentView {
        TypedIdentView { name: self.name@, ty: self.ty@ }
    }
}

impl View for ExportFunc {
    type V = ExportFuncView;

    open spec fn view(&self) -> ExportFuncView {
        ExportFuncView {
            name: self.name@,
            params: views(self.params@),
            return_type: self.return_type@,
        }
    }
}

impl Clone for TypedIdent {
    fn clone(&self) -> (copy: Self)
        ensures
            copy@ == self@,
    {
        TypedIdent { name: self.name.clone(), ty: self.ty.clone() }
    }
}

impl Clone for ExportFunc {
    fn clone(&self) -> (copy: Self)
        ensures
            copy@ == self@,
    {
        let mut params: Vec<TypedIdent> = Vec::new();
        let mut i: usize = 0;
        while i < self.params.len()
            invariant
                i <= self.params.len(),
                params@.len() == i,
                forall|j: int| 0 <= j < i ==> (#[trigger] params@[j])@ == self.params@[j]@,
            decreases self.params.len() - i,
        {
            params.push(self.params[i].clone());
            i += 1;
        }
        assert(views(params@) =~= views(self.params@));
        ExportFunc { name: self.name.clone(), params, return_type: self.return_type.clone() }
    }
}

/// What a function hands back, as far as the emitter can represent it.
#[derive(Clone, Copy, Debug, PartialEq, Eq, Structural)]
pub enum RetKind {
    NoReturn,
    Pointer,
    Unsupported,
}

} // verus!
