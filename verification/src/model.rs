//! The mathematical model of a description tree.
//!
//! Every contract in this crate speaks about these ghost mirrors of the
//! executable types: strings become sequences of characters, vectors become
//! sequences, and each node carries the metadata payload value itself.

use vstd::prelude::*;

verus! {

/// The mathematical value of a `Kind`.
pub enum KindView<M> {
    Struct { name: Seq<char>, children: Seq<EntryView<M>> },
    Aliased { name: Seq<char>, kind: Box<DescriptorView<M>> },
    Sequence(Box<DescriptorView<M>>),
    Bool,
    U64,
    String,
    F32,
}

/// The mathematical value of an `Entry`.
pub struct EntryView<M> {
    pub label: Seq<char>,
    pub docs: Option<Seq<Seq<char>>>,
    pub metadata: M,
    pub type_info: DescriptorView<M>,
}

/// The mathematical value of a `Descriptor`.
pub struct DescriptorView<M> {
    pub docs: Option<Seq<Seq<char>>>,
    pub metadata: M,
    pub kind: KindView<M>,
}

/// The mathematical value of an optional list of documentation lines.
pub open spec fn docs_view(docs: Option<Vec<String>>) -> Option<Seq<Seq<char>>> {
    match docs {
        None => None,
        Some(lines) => Some(lines@.map(|i: int, line: String| line@)),
    }
}

/// Whether the labels of a list of field entries are pairwise distinct.
pub open spec fn labels_distinct<M>(children: Seq<EntryView<M>>) -> bool {
    forall|i: int, j: int|
        0 <= i < j < children.len() ==> children[i].label != children[j].label
}

/// Whether a description tree keeps the structural invariant: every
/// struct-shaped node names each of its children once.
pub open spec fn well_formed<M>(d: DescriptorView<M>) -> bool
    decreases d,
{
    well_formed_kind(d.kind)
}

/// Whether a shape keeps the structural invariant.
pub open spec fn well_formed_kind<M>(k: KindView<M>) -> bool
    decreases k,
{
    match k {
        KindView::Struct { children, .. } => labels_distinct(children) && entries_well_formed(
            children,
        ),
        KindView::Aliased { kind, .. } => well_formed(*kind),
        KindView::Sequence(element) => well_formed(*element),
        KindView::Bool => true,
        KindView::U64 => true,
        KindView::String => true,
        KindView::F32 => true,
    }
}

/// Whether every entry of a list describes its field with a well-formed tree.
pub open spec fn entries_well_formed<M>(children: Seq<EntryView<M>>) -> bool
    decreases children,
{
    if children.len() == 0 {
        true
    } else {
        well_formed(children[0].type_info) && entries_well_formed(
            children.subrange(1, children.len() as int),
        )
    }
}

/// A list's entries are well-formed exactly when each entry's tree is.
pub proof fn lemma_entries_well_formed<M>(children: Seq<EntryView<M>>)
    ensures
        entries_well_formed(children) <==> (forall|i: int|
            0 <= i < children.len() ==> well_formed(#[trigger] children[i].type_info)),
    decreases children,
{
    if children.len() > 0 {
        let rest = children.subrange(1, children.len() as int);
        lemma_entries_well_formed(rest);
        if entries_well_formed(children) {
            assert forall|i: int| 0 <= i < children.len() implies well_formed(
                #[trigger] children[i].type_info,
            ) by {
                if i > 0 {
                    assert(rest[i - 1] == children[i]);
                    assert(well_formed(rest[i - 1].type_info));
                }
            }
        }
        if forall|i: int| 0 <= i < children.len() ==> well_formed(#[trigger] children[i].type_info) {
            assert forall|i: int| 0 <= i < rest.len() implies well_formed(
                #[trigger] rest[i].type_info,
            ) by {
                assert(rest[i] == children[i + 1]);
                assert(well_formed(children[i + 1].type_info));
            }
            assert(entries_well_formed(rest));
            assert(well_formed(children[0].type_info));
        }
    }
}

} // verus!
