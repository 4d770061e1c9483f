//! Descriptions of linear-algebra container shapes.
//!
//! Four example container policies, the shapes of the nalgebra library's
//! matrix, vector, rotation and isometry types: each is a phantom marker type
//! whose description composes the element type's own description through the
//! ordinary sequence and struct rules — a matrix is a sequence of elements, a
//! rotation is a sequence of matrix rows (a 3×3 matrix), an isometry is a
//! struct of a rotation and a translation. No traversal is special-cased: a
//! new container shape needs exactly one [`Described`] implementation built
//! from the same rules.

use vstd::prelude::*;

use crate::Described;
use crate::Descriptor;
use crate::Entry;
use crate::Neutral;
use crate::field_entry;
use crate::lemma_entries_view;
use crate::model::DescriptorView;
use crate::model::EntryView;
use crate::model::KindView;
use crate::sequence_descriptor;
use crate::single_doc;
use crate::struct_descriptor;

verus! {

/// The shape of a 3-row, 3-column matrix with elements of type `T`.
pub struct Matrix3<T>(pub core::marker::PhantomData<T>);

/// The shape of a 3-dimensional column vector with elements of type `T`.
pub struct Vector3<T>(pub core::marker::PhantomData<T>);

/// The shape of a 3-dimensional rotation with elements of type `T`, reported
/// as a 3×3 matrix.
pub struct Rotation3<T>(pub core::marker::PhantomData<T>);

/// The shape of a 3-dimensional isometry with elements of type `T`: a
/// rotation together with a translation.
pub struct Isometry3<T>(pub core::marker::PhantomData<T>);

impl<M: Neutral, T: Described<M>> Described<M> for Matrix3<T> {
    open spec fn descriptor_view() -> DescriptorView<M> {
        DescriptorView {
            docs: Some(seq!["A matrix from nalgebra"@]),
            metadata: M::neutral_spec(),
            kind: KindView::Sequence(Box::new(T::descriptor_view())),
        }
    }

    fn metadata() -> (r: Descriptor<M>) {
        sequence_descriptor(single_doc("A matrix from nalgebra"), M::neutral(), T::metadata())
    }
}

impl<M: Neutral, T: Described<M>> Described<M> for Vector3<T> {
    open spec fn descriptor_view() -> DescriptorView<M> {
        DescriptorView {
            docs: Some(seq!["A matrix from nalgebra"@]),
            metadata: M::neutral_spec(),
            kind: KindView::Sequence(Box::new(T::descriptor_view())),
        }
    }

    fn metadata() -> (r: Descriptor<M>) {
        sequence_descriptor(single_doc("A matrix from nalgebra"), M::neutral(), T::metadata())
    }
}

impl<M: Neutral, T: Described<M>> Described<M> for Rotation3<T> {
    open spec fn descriptor_view() -> DescriptorView<M> {
        DescriptorView {
            docs: Some(seq!["A 3D rotation matrix from nalgebra"@]),
            metadata: M::neutral_spec(),
            kind: KindView::Sequence(Box::new(Matrix3::<T>::descriptor_view())),
        }
    }

    fn metadata() -> (r: Descriptor<M>) {
        sequence_descriptor(
            single_doc("A 3D rotation matrix from nalgebra"),
            M::neutral(),
            Matrix3::<T>::metadata(),
        )
    }
}

impl<M: Neutral, T: Described<M>> Described<M> for Isometry3<T> {
    open spec fn descriptor_view() -> DescriptorView<M> {
        DescriptorView {
            docs: Some(seq!["A 3D isometry from nalgebra"@]),
            metadata: M::neutral_spec(),
            kind: KindView::Struct {
                name: "Isometry3"@,
                children: seq![
                    EntryView {
                        label: "rotation"@,
                        docs: Some(seq!["The rotation component of the isometry"@]),
                        metadata: M::neutral_spec(),
                        type_info: Rotation3::<T>::descriptor_view(),
                    },
                    EntryView {
                        label: "translation"@,
                        docs: Some(seq!["The translation component of the isometry"@]),
                        metadata: M::neutral_spec(),
                        type_info: Vector3::<T>::descriptor_view(),
                    },
                ],
            },
        }
    }

    fn metadata() -> (r: Descriptor<M>) {
        let rotation = field_entry(
            "rotation".to_string(),
            single_doc("The rotation component of the isometry"),
            M::neutral(),
            Rotation3::<T>::metadata(),
        );
        let translation = field_entry(
            "translation".to_string(),
            single_doc("The translation component of the isometry"),
            M::neutral(),
            Vector3::<T>::metadata(),
        );
        let ghost rotation_view = rotation.view();
        let ghost translation_view = translation.view();
        let mut children: Vec<Entry<M>> = Vec::new();
        children.push(rotation);
        children.push(translation);
        let ghost child_entries = children@;
        proof {
            reveal_strlit("rotation");
            reveal_strlit("translation");
            assert(children@[0].view() == rotation_view);
            assert(children@[1].view() == translation_view);
            assert(children@[0].label@ == rotation_view.label);
            assert(children@[1].label@ == translation_view.label);
            assert(children@[0].label@ != children@[1].label@);
        }
        let r = struct_descriptor(
            "Isometry3".to_string(),
            single_doc("A 3D isometry from nalgebra"),
            M::neutral(),
            children,
        );
        proof {
            lemma_entries_view(child_entries);
            assert(crate::entries_view(child_entries) =~= seq![rotation_view, translation_view]);
        }
        r
    }
}

} // verus!
