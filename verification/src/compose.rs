//! Assembling description trees.
//!
//! A struct-shaped description is built field by field: each field's own type
//! reports its descriptor, the field's label, documentation and metadata are
//! attached to the [`Entry`] that wraps it — never injected into the field
//! type's own descriptor — and the entries are joined under the struct's name
//! in declaration order. Named wrappers and homogeneous sequences wrap a
//! complete descriptor unchanged.

use vstd::prelude::*;

use crate::Descriptor;
use crate::Entry;
use crate::Kind;
use crate::entries_view;
use crate::model::DescriptorView;
use crate::model::EntryView;
use crate::model::KindView;
use crate::model::docs_view;

verus! {

/// Wraps one documentation line as a documentation list.
pub fn single_doc(line: &str) -> (r: Option<Vec<String>>)
    ensures
        docs_view(r) == Some(seq![line@]),
{
    let lines: Vec<String> = vec![line.to_string()];
    proof {
        assert(lines@.map(|i: int, l: String| l@) =~= seq![line@]);
    }
    Some(lines)
}

/// Builds the entry for one struct field: the field's declared label, its own
/// documentation lines and metadata payload, and the complete descriptor of
/// the field's type, taken over unchanged.
pub fn field_entry<M>(
    label: String,
    docs: Option<Vec<String>>,
    metadata: M,
    type_info: Descriptor<M>,
) -> (r: Entry<M>)
    ensures
        r.view() == (EntryView {
            label: label@,
            docs: docs_view(docs),
            metadata,
            type_info: type_info.view(),
        }),
{
    Entry { label, docs, metadata, type_info }
}

/// Builds a struct-shaped descriptor from its name, its own documentation and
/// metadata, and its field entries; the children keep the given order. Each
/// child must be named once: labels are unique within their parent.
pub fn struct_descriptor<M>(
    name: String,
    docs: Option<Vec<String>>,
    metadata: M,
    children: Vec<Entry<M>>,
) -> (r: Descriptor<M>)
    requires
        forall|i: int, j: int|
            0 <= i < j < children@.len() ==> children@[i].label@ != children@[j].label@,
    ensures
        r.view() == (DescriptorView {
            docs: docs_view(docs),
            metadata,
            kind: KindView::Struct { name: name@, children: entries_view(children@) },
        }),
{
    Descriptor { docs, metadata, kind: Kind::Struct { name, children } }
}

/// Builds a sequence-shaped descriptor: a homogeneous collection whose
/// element is described by the given descriptor, taken over unchanged; the
/// container supplies its own documentation and metadata.
pub fn sequence_descriptor<M>(
    docs: Option<Vec<String>>,
    metadata: M,
    element: Descriptor<M>,
) -> (r: Descriptor<M>)
    ensures
        r.view() == (DescriptorView {
            docs: docs_view(docs),
            metadata,
            kind: KindView::Sequence(Box::new(element.view())),
        }),
{
    Descriptor { docs, metadata, kind: Kind::Sequence(Box::new(element)) }
}

/// Builds an aliased descriptor: a type that is structurally another type but
/// is reported under its own name; the wrapped descriptor is unchanged.
pub fn aliased_descriptor<M>(
    name: String,
    docs: Option<Vec<String>>,
    metadata: M,
    inner: Descriptor<M>,
) -> (r: Descriptor<M>)
    ensures
        r.view() == (DescriptorView {
            docs: docs_view(docs),
            metadata,
            kind: KindView::Aliased { name: name@, kind: Box::new(inner.view()) },
        }),
{
    Descriptor { docs, metadata, kind: Kind::Aliased { name, kind: Box::new(inner) } }
}

} // verus!
