//! The laws of the description algebra.
//!
//! Each proof function here states one guarantee of the crate as a whole:
//! what the primitive descriptions are, that composition keeps field order
//! and nested descriptions intact, how sequence nesting accumulates, and that
//! the choice of metadata payload type never affects the shape of a tree.

use vstd::prelude::*;

use crate::Described;
use crate::Entry;
use crate::Neutral;
use crate::entries_view;
use crate::lemma_entries_view;
use crate::model::DescriptorView;
use crate::model::EntryView;
use crate::model::KindView;
use crate::model::entries_well_formed;
use crate::model::lemma_entries_well_formed;
use crate::model::labels_distinct;
use crate::model::well_formed;
use crate::nalgebra::Isometry3;
use crate::nalgebra::Matrix3;
use crate::nalgebra::Rotation3;
use crate::nalgebra::Vector3;
use crate::shape::lemma_field_shapes_congruent;
use crate::shape::sequence_core;
use crate::shape::sequence_depth;
use crate::shape::shape_of;

verus! {

/// Primitive totality: every built-in primitive reports a leaf of its own
/// shape, no documentation, and the neutral metadata payload — nothing else.
pub proof fn lemma_primitive_descriptors<M: Neutral>()
    ensures
        <bool as Described<M>>::descriptor_view() == (DescriptorView {
            docs: None,
            metadata: M::neutral_spec(),
            kind: KindView::<M>::Bool,
        }),
        <u64 as Described<M>>::descriptor_view() == (DescriptorView {
            docs: None,
            metadata: M::neutral_spec(),
            kind: KindView::<M>::U64,
        }),
        <String as Described<M>>::descriptor_view() == (DescriptorView {
            docs: None,
            metadata: M::neutral_spec(),
            kind: KindView::<M>::String,
        }),
        <crate::F32 as Described<M>>::descriptor_view() == (DescriptorView {
            docs: None,
            metadata: M::neutral_spec(),
            kind: KindView::<M>::F32,
        }),
{
}

/// Struct-of-structs composition: in the description of a struct, each
/// field's reported description is the field type's own description, intact.
/// In particular a field whose type is itself struct-shaped keeps that inner
/// struct's name and children unchanged.
pub proof fn lemma_struct_of_structs<M>(
    outer: Seq<Entry<M>>,
    i: int,
    inner_name: Seq<char>,
    inner_children: Seq<EntryView<M>>,
)
    requires
        0 <= i < outer.len(),
        outer[i].type_info.view().kind == (KindView::Struct {
            name: inner_name,
            children: inner_children,
        }),
    ensures
        entries_view(outer)[i].type_info.kind == (KindView::Struct {
            name: inner_name,
            children: inner_children,
        }),
{
    lemma_entries_view(outer);
}

/// Nested-sequence depth: one sequence wrapper stands one level deep around
/// its element, so `k` nested wrappers stand `k` levels deep, with the
/// element's own shape at the core.
pub proof fn lemma_sequence_depth<M>(d: DescriptorView<M>, element: DescriptorView<M>)
    requires
        d.kind == KindView::Sequence(Box::new(element)),
    ensures
        sequence_depth(shape_of(d)) == 1 + sequence_depth(shape_of(element)),
        sequence_core(shape_of(d)) == sequence_core(shape_of(element)),
{
}

/// A matrix is described one sequence level around its element; a rotation,
/// two levels, with the element's shape at the core of both.
pub proof fn lemma_container_depths<M: Neutral, T: Described<M>>()
    ensures
        sequence_depth(shape_of(Matrix3::<T>::descriptor_view())) == 1 + sequence_depth(
            shape_of(T::descriptor_view()),
        ),
        sequence_depth(shape_of(Vector3::<T>::descriptor_view())) == 1 + sequence_depth(
            shape_of(T::descriptor_view()),
        ),
        sequence_depth(shape_of(Rotation3::<T>::descriptor_view())) == 2 + sequence_depth(
            shape_of(T::descriptor_view()),
        ),
        sequence_core(shape_of(Rotation3::<T>::descriptor_view())) == sequence_core(
            shape_of(T::descriptor_view()),
        ),
{
    lemma_sequence_depth(Matrix3::<T>::descriptor_view(), T::descriptor_view());
    lemma_sequence_depth(Vector3::<T>::descriptor_view(), T::descriptor_view());
    lemma_sequence_depth(Rotation3::<T>::descriptor_view(), Matrix3::<T>::descriptor_view());
}

/// A struct-shaped description keeps the structural invariant whenever its
/// labels are pairwise distinct and each field's own description keeps it.
pub proof fn lemma_struct_well_formed<M>(
    d: DescriptorView<M>,
    name: Seq<char>,
    children: Seq<EntryView<M>>,
)
    requires
        d.kind == (KindView::Struct { name, children }),
        labels_distinct(children),
        forall|i: int| 0 <= i < children.len() ==> well_formed(#[trigger] children[i].type_info),
    ensures
        well_formed(d),
{
    lemma_entries_well_formed(children);
}

/// Every primitive description keeps the structural invariant.
pub proof fn lemma_primitives_well_formed<M: Neutral>()
    ensures
        well_formed(<bool as Described<M>>::descriptor_view()),
        well_formed(<u64 as Described<M>>::descriptor_view()),
        well_formed(<String as Described<M>>::descriptor_view()),
        well_formed(<crate::F32 as Described<M>>::descriptor_view()),
{
}

/// A container description keeps the structural invariant whenever its
/// element's description does.
pub proof fn lemma_containers_well_formed<M: Neutral, T: Described<M>>()
    requires
        well_formed(T::descriptor_view()),
    ensures
        well_formed(Matrix3::<T>::descriptor_view()),
        well_formed(Vector3::<T>::descriptor_view()),
        well_formed(Rotation3::<T>::descriptor_view()),
        well_formed(Isometry3::<T>::descriptor_view()),
{
    assert(well_formed(Matrix3::<T>::descriptor_view()));
    assert(well_formed(Vector3::<T>::descriptor_view()));
    assert(well_formed(Rotation3::<T>::descriptor_view()));
    let children = Isometry3::<T>::descriptor_view().kind->Struct_children;
    assert(children.len() == 2);
    assert(children[0].type_info == Rotation3::<T>::descriptor_view());
    assert(children[1].type_info == Vector3::<T>::descriptor_view());
    reveal_strlit("rotation");
    reveal_strlit("translation");
    assert(children[0].label == "rotation"@);
    assert(children[1].label == "translation"@);
    assert("rotation"@.len() != "translation"@.len());
    assert forall|i: int, j: int|
        0 <= i < j < children.len() implies children[i].label != children[j].label by {
        assert(children[0].label != children[1].label);
    }
    assert(labels_distinct(children));
    lemma_entries_well_formed(children);
    assert(entries_well_formed(children));
}

/// Payload independence for the primitives: the shape of a primitive's
/// description is the same whatever the metadata payload type.
pub proof fn lemma_primitive_shape_independent<M1: Neutral, M2: Neutral>()
    ensures
        shape_of(<bool as Described<M1>>::descriptor_view()) == shape_of(
            <bool as Described<M2>>::descriptor_view(),
        ),
        shape_of(<u64 as Described<M1>>::descriptor_view()) == shape_of(
            <u64 as Described<M2>>::descriptor_view(),
        ),
        shape_of(<String as Described<M1>>::descriptor_view()) == shape_of(
            <String as Described<M2>>::descriptor_view(),
        ),
        shape_of(<crate::F32 as Described<M1>>::descriptor_view()) == shape_of(
            <crate::F32 as Described<M2>>::descriptor_view(),
        ),
{
}

/// Payload independence for the matrix and vector shapes: elements of equal
/// shape give containers of equal shape, whatever the payload types.
pub proof fn lemma_matrix3_shape_independent<
    M1: Neutral,
    M2: Neutral,
    T1: Described<M1>,
    T2: Described<M2>,
>()
    requires
        shape_of(T1::descriptor_view()) == shape_of(T2::descriptor_view()),
    ensures
        shape_of(Matrix3::<T1>::descriptor_view()) == shape_of(Matrix3::<T2>::descriptor_view()),
        shape_of(Vector3::<T1>::descriptor_view()) == shape_of(Vector3::<T2>::descriptor_view()),
{
}

/// Payload independence for the rotation shape.
pub proof fn lemma_rotation3_shape_independent<
    M1: Neutral,
    M2: Neutral,
    T1: Described<M1>,
    T2: Described<M2>,
>()
    requires
        shape_of(T1::descriptor_view()) == shape_of(T2::descriptor_view()),
    ensures
        shape_of(Rotation3::<T1>::descriptor_view()) == shape_of(
            Rotation3::<T2>::descriptor_view(),
        ),
{
    lemma_matrix3_shape_independent::<M1, M2, T1, T2>();
}

/// Payload independence for the isometry shape.
pub proof fn lemma_isometry3_shape_independent<
    M1: Neutral,
    M2: Neutral,
    T1: Described<M1>,
    T2: Described<M2>,
>()
    requires
        shape_of(T1::descriptor_view()) == shape_of(T2::descriptor_view()),
    ensures
        shape_of(Isometry3::<T1>::descriptor_view()) == shape_of(
            Isometry3::<T2>::descriptor_view(),
        ),
{
    lemma_rotation3_shape_independent::<M1, M2, T1, T2>();
    lemma_matrix3_shape_independent::<M1, M2, T1, T2>();
    let c1 = Isometry3::<T1>::descriptor_view().kind->Struct_children;
    let c2 = Isometry3::<T2>::descriptor_view().kind->Struct_children;
    assert(c1[0].label == c2[0].label);
    assert(c1[1].label == c2[1].label);
    lemma_field_shapes_congruent(c1, c2);
}

} // verus!
