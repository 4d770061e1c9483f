//! The shape of a description tree, with metadata and documentation erased.
//!
//! Two description trees over different metadata payload types cannot be
//! compared directly, since their types differ. [`Shape`] keeps exactly the
//! structural part — variant, names, labels, field order and nesting — so the
//! laws about payload independence and nesting depth can speak across payload
//! types.

use vstd::prelude::*;

use crate::model::DescriptorView;
use crate::model::EntryView;
use crate::model::KindView;

verus! {

/// A description tree with everything but structure erased.
pub enum Shape {
    Struct { name: Seq<char>, fields: Seq<FieldShape> },
    Aliased { name: Seq<char>, inner: Box<Shape> },
    Sequence(Box<Shape>),
    Bool,
    U64,
    String,
    F32,
}

/// One field of a struct shape: its label and the shape of its type.
pub struct FieldShape {
    pub label: Seq<char>,
    pub shape: Shape,
}

/// The shape of a description tree.
pub open spec fn shape_of<M>(d: DescriptorView<M>) -> Shape
    decreases d,
{
    shape_of_kind(d.kind)
}

/// The shape of a kind.
pub open spec fn shape_of_kind<M>(k: KindView<M>) -> Shape
    decreases k,
{
    match k {
        KindView::Struct { name, children } => Shape::Struct {
            name,
            fields: field_shapes(children),
        },
        KindView::Aliased { name, kind } => Shape::Aliased {
            name,
            inner: Box::new(shape_of(*kind)),
        },
        KindView::Sequence(element) => Shape::Sequence(Box::new(shape_of(*element))),
        KindView::Bool => Shape::Bool,
        KindView::U64 => Shape::U64,
        KindView::String => Shape::String,
        KindView::F32 => Shape::F32,
    }
}

/// The shapes of a list of field entries, in order.
pub open spec fn field_shapes<M>(children: Seq<EntryView<M>>) -> Seq<FieldShape>
    decreases children,
{
    if children.len() == 0 {
        Seq::empty()
    } else {
        seq![FieldShape { label: children[0].label, shape: shape_of(children[0].type_info) }]
            + field_shapes(children.subrange(1, children.len() as int))
    }
}

/// A list of `n` entries has exactly `n` field shapes, one for each entry and
/// in the same order.
pub proof fn lemma_field_shapes<M>(children: Seq<EntryView<M>>)
    ensures
        field_shapes(children).len() == children.len(),
        forall|i: int|
            0 <= i < children.len() ==> field_shapes(children)[i] == (FieldShape {
                label: children[i].label,
                shape: shape_of(children[i].type_info),
            }),
    decreases children,
{
    if children.len() > 0 {
        let rest = children.subrange(1, children.len() as int);
        lemma_field_shapes(rest);
        assert forall|i: int|
            0 <= i < children.len() implies field_shapes(children)[i] == (FieldShape {
            label: children[i].label,
            shape: shape_of(children[i].type_info),
        }) by {
            if i > 0 {
                assert(rest[i - 1] == children[i]);
            }
        }
    }
}

/// Two lists of entries whose labels and type shapes agree pairwise have the
/// same field shapes, whatever their metadata payload types.
pub proof fn lemma_field_shapes_congruent<M1, M2>(
    c1: Seq<EntryView<M1>>,
    c2: Seq<EntryView<M2>>,
)
    requires
        c1.len() == c2.len(),
        forall|i: int|
            0 <= i < c1.len() ==> c1[i].label == c2[i].label && shape_of(c1[i].type_info)
                == shape_of(c2[i].type_info),
    ensures
        field_shapes(c1) == field_shapes(c2),
{
    lemma_field_shapes(c1);
    lemma_field_shapes(c2);
    assert(field_shapes(c1) =~= field_shapes(c2));
}

/// How many sequence wrappers stand around a shape before anything else.
pub open spec fn sequence_depth(s: Shape) -> nat
    decreases s,
{
    match s {
        Shape::Sequence(inner) => 1 + sequence_depth(*inner),
        _ => 0,
    }
}

/// What stands under all the sequence wrappers of a shape.
pub open spec fn sequence_core(s: Shape) -> Shape
    decreases s,
{
    match s {
        Shape::Sequence(inner) => sequence_core(*inner),
        _ => s,
    }
}

} // verus!
