//! The pipeline from the items of a source file to the C# text, and what
//! holds of it from end to end.

use vstd::prelude::*;
use crate::emit::{
    class_close, class_open, emit, header, lemma_empty_record, lemma_text_frame, result_view,
    write_to_csharp,
};
use crate::extract::{export_of, extract, lemma_inert_items, lemma_nothing_exported, HydraVisitor};
use crate::tree::{views, Item, ItemView};
use crate::type_map::UnknownPrimitive;

verus! {

/// What the generator makes of the items of a source file: the output, or
/// the first parameter type token that the table does not hold.
pub open spec fn generated(items: Seq<ItemView>) -> Result<Seq<char>, Seq<char>> {
    emit(extract(items))
}

/// Generates the C# text for the top-level items of a source file: extracts
/// the exportable functions in source order and renders them.
pub fn generate(items: &Vec<Item>) -> (r: Result<String, UnknownPrimitive>)
    ensures
        result_view(r) == generated(views(items@)),
{
    let mut visitor = HydraVisitor::new();
    visitor.walk_items(items);
    write_to_csharp(&visitor)
}

/// Every output begins with the header and ends with a line break and one
/// closing brace.
pub proof fn lemma_output_frame(items: Seq<ItemView>)
    ensures
        generated(items) matches Ok(text) ==> {
            &&& header().is_prefix_of(text)
            &&& text.len() >= 2
            &&& text[text.len() - 1] == '}'
            &&& text[text.len() - 2] == '\n'
        },
{
    lemma_text_frame(extract(items));
}

/// Two runs on the same items give the same result: whatever two results
/// meet the generator's contract for one input are equal.
pub proof fn lemma_runs_agree(
    items: Seq<ItemView>,
    first: Result<Seq<char>, Seq<char>>,
    second: Result<Seq<char>, Seq<char>>,
)
    requires
        first == generated(items),
        second == generated(items),
    ensures
        first == second,
{
}

/// Deleting items that contribute no entry does not change the result:
/// `keep` may drop any item but one that is exported.
pub proof fn lemma_deleting_inert_items(items: Seq<ItemView>, keep: spec_fn(ItemView) -> bool)
    requires
        forall|item: ItemView| export_of(item) is Some ==> #[trigger] keep(item),
    ensures
        generated(items.filter(keep)) == generated(items),
{
    lemma_inert_items(items, keep);
}

/// The output for a source without items is the header and an empty class.
pub proof fn lemma_empty_source()
    ensures
        generated(Seq::<ItemView>::empty()) == Ok::<Seq<char>, Seq<char>>(
            header() + class_open() + class_close(),
        ),
        header() + class_open() + class_close()
            == "// Auto generated by hydra-rs\n\nclass RustWrapper {\n}"@,
{
    lemma_empty_record();
}

/// A source none of whose items is exported gives the output of the empty
/// source.
pub proof fn lemma_nothing_accepted(items: Seq<ItemView>)
    requires
        forall|i: int| 0 <= i < items.len() ==> export_of(#[trigger] items[i]) is None,
    ensures
        generated(items) == generated(Seq::<ItemView>::empty()),
{
    lemma_nothing_exported(items);
}

} // verus!
