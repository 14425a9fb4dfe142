//! Binding generator core: selects the exportable functions among the
//! top-level items of a parsed source file and renders the matching C#
//! external declarations.
//!
//! The items are handed in as plain values (`tree`), the extractor records
//! the exportable functions in source order (`extract`, `ir`), the type
//! mapper turns parameter type tokens into host types (`type_map`), and the
//! emitter renders the record as one text (`emit`). `generate` runs the whole
//! pipeline.

pub mod emit;
pub mod extract;
pub mod generate;
pub mod ir;
pub mod tree;
pub mod type_map;

pub use crate::emit::{render_args, render_one_param, write_to_csharp};
pub use crate::extract::{classify_return, typed_ident, HydraVisitor, Visit};
pub use crate::generate::generate;
pub use crate::ir::{ExportFunc, RetKind, TypedIdent};
pub use crate::tree::{
    contains_name, contains_repr_c, Abi, Attribute, Field, FnDecl, Item, ItemKind, Param, Pattern,
    TypeExpr, Visibility,
};
pub use crate::type_map::{map_param_type, UnknownPrimitive};
