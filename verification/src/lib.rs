//! A data-description algebra: a program can ask a type for a structural
//! description of itself — its shape (primitive, struct with fields, named
//! wrapper, homogeneous sequence), per-node documentation lines, and a
//! caller-chosen metadata payload attached at every level of the tree.
//!
//! The shape algebra is the [`Kind`] tagged union; [`Descriptor`] wraps a
//! `Kind` with documentation and a metadata payload; [`Entry`] is one named,
//! documented field of a struct-shaped description. The capability itself is
//! the [`Described`] trait: `T::metadata()` builds the complete tree for `T`,
//! generic over the payload type, which supplies a neutral value through
//! [`Neutral`].

use vstd::prelude::*;

mod compose;
mod laws;
mod model;
pub mod nalgebra;
mod payload;
mod shape;

pub use compose::aliased_descriptor;
pub use compose::field_entry;
pub use compose::sequence_descriptor;
pub use compose::single_doc;
pub use compose::struct_descriptor;
pub use laws::lemma_container_depths;
pub use laws::lemma_containers_well_formed;
pub use laws::lemma_isometry3_shape_independent;
pub use laws::lemma_matrix3_shape_independent;
pub use laws::lemma_primitive_descriptors;
pub use laws::lemma_primitive_shape_independent;
pub use laws::lemma_primitives_well_formed;
pub use laws::lemma_rotation3_shape_independent;
pub use laws::lemma_sequence_depth;
pub use laws::lemma_struct_of_structs;
pub use laws::lemma_struct_well_formed;
pub use model::DescriptorView;
pub use model::EntryView;
pub use model::KindView;
pub use model::docs_view;
pub use model::entries_well_formed;
pub use model::labels_distinct;
pub use model::lemma_entries_well_formed;
pub use model::well_formed;
pub use model::well_formed_kind;
pub use payload::MetaMap;
pub use shape::FieldShape;
pub use shape::Shape;
pub use shape::field_shapes;
pub use shape::lemma_field_shapes;
pub use shape::lemma_field_shapes_congruent;
pub use shape::sequence_core;
pub use shape::sequence_depth;
pub use shape::shape_of;
pub use shape::shape_of_kind;

verus! {

/// The shape of a described type: one active variant.
///
/// `Struct` is a product of named fields in declaration order; `Aliased` is a
/// named wrapper around another description, reported under its own name;
/// `Sequence` is a homogeneous collection described by its element; the
/// remaining variants are primitive leaves, identified by shape alone.
#[derive(Debug, PartialEq, Eq)]
pub enum Kind<M = MetaMap> {
    Struct { name: String, children: Vec<Entry<M>> },
    Aliased { name: String, kind: Box<Descriptor<M>> },
    Sequence(Box<Descriptor<M>>),
    Bool,
    U64,
    String,
    F32,
}

/// One field of a struct-shaped description: its label, its own optional
/// documentation lines, its own metadata payload, and the full description of
/// the field's type.
#[derive(Debug, PartialEq, Eq)]
pub struct Entry<M = MetaMap> {
    pub label: String,
    pub docs: Option<Vec<String>>,
    pub metadata: M,
    pub type_info: Descriptor<M>,
}

/// The universal description node: a [`Kind`] together with optional
/// documentation lines (`None` means no documentation was provided, which is
/// distinct from an empty list) and a metadata payload of the caller-chosen
/// type `M`.
#[derive(Debug, PartialEq, Eq)]
pub struct Descriptor<M = MetaMap> {
    pub docs: Option<Vec<String>>,
    pub metadata: M,
    pub kind: Kind<M>,
}

impl<M> Descriptor<M> {
    /// The mathematical value of this description tree.
    pub open spec fn view(self) -> DescriptorView<M>
        decreases self,
    {
        DescriptorView {
            docs: docs_view(self.docs),
            metadata: self.metadata,
            kind: self.kind.view(),
        }
    }
}

impl<M> Kind<M> {
    /// The mathematical value of this shape.
    pub open spec fn view(self) -> KindView<M>
        decreases self,
    {
        match self {
            Kind::Struct { name, children } => {
                // Termination: each entry of `children@` is a smaller value
                // than this kind.
                proof {
                    assert(decreases_to!(self => children));
                    assert(decreases_to!(children => children@));
                }
                KindView::Struct { name: name@, children: entries_view(children@) }
            },
            Kind::Aliased { name, kind } => KindView::Aliased {
                name: name@,
                kind: Box::new((*kind).view()),
            },
            Kind::Sequence(element) => KindView::Sequence(Box::new((*element).view())),
            Kind::Bool => KindView::Bool,
            Kind::U64 => KindView::U64,
            Kind::String => KindView::String,
            Kind::F32 => KindView::F32,
        }
    }
}

/// The mathematical values of a list of field entries, in order.
pub open spec fn entries_view<M>(entries: Seq<Entry<M>>) -> Seq<EntryView<M>>
    decreases entries,
{
    if entries.len() == 0 {
        Seq::empty()
    } else {
        seq![entries[0].view()] + entries_view(entries.subrange(1, entries.len() as int))
    }
}

/// Field order preservation: a list of `n` entries is modelled by exactly `n`
/// entry values, one for each entry and in the same order.
pub proof fn lemma_entries_view<M>(entries: Seq<Entry<M>>)
    ensures
        entries_view(entries).len() == entries.len(),
        forall|i: int| 0 <= i < entries.len() ==> entries_view(entries)[i] == entries[i].view(),
    decreases entries,
{
    if entries.len() > 0 {
        let rest = entries.subrange(1, entries.len() as int);
        lemma_entries_view(rest);
        assert forall|i: int| 0 <= i < entries.len() implies entries_view(entries)[i] == entries[
            i
        ].view() by {
            if i > 0 {
                assert(rest[i - 1] == entries[i]);
            }
        }
    }
}

impl<M> Entry<M> {
    /// The mathematical value of this field entry.
    pub open spec fn view(self) -> EntryView<M>
        decreases self,
    {
        EntryView {
            label: self.label@,
            docs: docs_view(self.docs),
            metadata: self.metadata,
            type_info: self.type_info.view(),
        }
    }
}

/// A metadata payload type must supply an explicit neutral value, used
/// whenever no more specific payload is given for a node.
pub trait Neutral: Sized {
    /// The neutral value itself, as a mathematical value.
    spec fn neutral_spec() -> Self;

    /// Builds the neutral value.
    fn neutral() -> (r: Self)
        ensures
            r == Self::neutral_spec(),
    ;
}

impl Neutral for () {
    open spec fn neutral_spec() -> Self {
        ()
    }

    fn neutral() -> (r: Self) {
    }
}

/// A stand-in for the 32-bit floating-point primitive.
///
/// The verified code of this crate carries no floating-point values, so where
/// a description speaks of a floating-point element type, it speaks of this
/// marker; its description is the `F32` leaf.
pub struct F32;

/// The description capability: a type that can report its own structure as a
/// [`Descriptor`] over any metadata payload type `M`.
///
/// The contract makes the guarantees of the capability explicit: the call is
/// total (every implementation returns a complete tree) and deterministic
/// (every call returns a tree whose value is `Self::descriptor_view()`, so two
/// calls with the same `M` yield structurally equal trees).
pub trait Described<M: Neutral = MetaMap>: Sized {
    /// The description tree this type reports, as a mathematical value.
    spec fn descriptor_view() -> DescriptorView<M>;

    /// Builds the complete description tree for this type.
    fn metadata() -> (r: Descriptor<M>)
        ensures
            r.view() == Self::descriptor_view(),
    ;
}

impl<M: Neutral> Described<M> for bool {
    open spec fn descriptor_view() -> DescriptorView<M> {
        DescriptorView { docs: None, metadata: M::neutral_spec(), kind: KindView::Bool }
    }

    fn metadata() -> (r: Descriptor<M>) {
        Descriptor { docs: None, metadata: M::neutral(), kind: Kind::Bool }
    }
}

impl<M: Neutral> Described<M> for u64 {
    open spec fn descriptor_view() -> DescriptorView<M> {
        DescriptorView { docs: None, metadata: M::neutral_spec(), kind: KindView::U64 }
    }

    fn metadata() -> (r: Descriptor<M>) {
        Descriptor { docs: None, metadata: M::neutral(), kind: Kind::U64 }
    }
}

impl<M: Neutral> Described<M> for F32 {
    open spec fn descriptor_view() -> DescriptorView<M> {
        DescriptorView { docs: None, metadata: M::neutral_spec(), kind: KindView::F32 }
    }

    fn metadata() -> (r: Descriptor<M>) {
        Descriptor { docs: None, metadata: M::neutral(), kind: Kind::F32 }
    }
}

impl<M: Neutral> Described<M> for String {
    open spec fn descriptor_view() -> DescriptorView<M> {
        DescriptorView { docs: None, metadata: M::neutral_spec(), kind: KindView::String }
    }

    fn metadata() -> (r: Descriptor<M>) {
        Descriptor { docs: None, metadata: M::neutral(), kind: Kind::String }
    }
}

} // verus!
