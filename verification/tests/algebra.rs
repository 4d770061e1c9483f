use struct_metadata::Described;
use struct_metadata::Descriptor;
use struct_metadata::Entry;
use struct_metadata::F32;
use struct_metadata::Kind;
use struct_metadata::MetaMap;
use struct_metadata::Neutral;
use struct_metadata::aliased_descriptor;
use struct_metadata::field_entry;
use struct_metadata::sequence_descriptor;
use struct_metadata::single_doc;
use struct_metadata::struct_descriptor;
use struct_metadata::nalgebra::Isometry3;
use struct_metadata::nalgebra::Matrix3;

#[test]
fn bool_metadata_is_primitive_leaf() {
    let data: Descriptor<()> = bool::metadata();
    assert!(matches!(data.kind, Kind::Bool));
    assert_eq!(data.docs, None);
}

#[test]
fn u64_metadata_is_primitive_leaf() {
    let data: Descriptor<()> = u64::metadata();
    assert!(matches!(data.kind, Kind::U64));
    assert_eq!(data.docs, None);
}

#[test]
fn string_metadata_is_primitive_leaf() {
    let data: Descriptor<()> = String::metadata();
    assert!(matches!(data.kind, Kind::String));
    assert_eq!(data.docs, None);
}

#[test]
fn float_marker_metadata_is_primitive_leaf() {
    let data: Descriptor<MetaMap> = F32::metadata();
    assert!(matches!(data.kind, Kind::F32));
    assert_eq!(data.docs, None);
    // The payload of a primitive is the neutral value: here, the empty map.
    assert_eq!(data.metadata.get(&"anything".to_string()), None);
}

#[test]
fn struct_descriptor_keeps_field_order() {
    let children: Vec<Entry<()>> = vec![
        field_entry("first".to_string(), None, (), bool::metadata()),
        field_entry("second".to_string(), None, (), u64::metadata()),
        field_entry("third".to_string(), None, (), String::metadata()),
    ];
    let data = struct_descriptor("Record".to_string(), None, (), children);
    if let Kind::Struct { name, children } = data.kind {
        assert_eq!(name, "Record");
        let labels: Vec<&str> = children.iter().map(|e| e.label.as_str()).collect();
        assert_eq!(labels, vec!["first", "second", "third"]);
        assert!(matches!(children[0].type_info.kind, Kind::Bool));
        assert!(matches!(children[1].type_info.kind, Kind::U64));
        assert!(matches!(children[2].type_info.kind, Kind::String));
    } else {
        panic!("Expected a struct-shaped descriptor");
    }
}

#[test]
fn aliased_descriptor_keeps_inner_descriptor() {
    let inner: Descriptor<()> = u64::metadata();
    let data = aliased_descriptor("Timestamp".to_string(), single_doc("Seconds since epoch"), (), inner);
    assert_eq!(data.docs, Some(vec!["Seconds since epoch".to_string()]));
    if let Kind::Aliased { name, kind } = data.kind {
        assert_eq!(name, "Timestamp");
        assert!(matches!(kind.kind, Kind::U64));
        assert_eq!(kind.docs, None);
    } else {
        panic!("Expected an aliased descriptor");
    }
}

#[test]
fn sequence_descriptor_nests_by_one_level() {
    let element: Descriptor<()> = bool::metadata();
    let once = sequence_descriptor(None, (), element);
    let twice = sequence_descriptor(None, (), once);
    if let Kind::Sequence(level_one) = twice.kind {
        if let Kind::Sequence(level_two) = &level_one.kind {
            assert!(matches!(level_two.kind, Kind::Bool));
        } else {
            panic!("Expected two nested sequence levels");
        }
    } else {
        panic!("Expected a sequence descriptor");
    }
}

/// Structural equality of two kinds, ignoring documentation and metadata.
fn same_shape<M1, M2>(a: &Kind<M1>, b: &Kind<M2>) -> bool {
    match (a, b) {
        (Kind::Struct { name: n1, children: c1 }, Kind::Struct { name: n2, children: c2 }) => {
            n1 == n2 && c1.len() == c2.len() && c1.iter().zip(c2.iter()).all(|(x, y)| {
                x.label == y.label && same_shape(&x.type_info.kind, &y.type_info.kind)
            })
        }
        (Kind::Aliased { name: n1, kind: k1 }, Kind::Aliased { name: n2, kind: k2 }) => {
            n1 == n2 && same_shape(&k1.kind, &k2.kind)
        }
        (Kind::Sequence(e1), Kind::Sequence(e2)) => same_shape(&e1.kind, &e2.kind),
        (Kind::Bool, Kind::Bool) => true,
        (Kind::U64, Kind::U64) => true,
        (Kind::String, Kind::String) => true,
        (Kind::F32, Kind::F32) => true,
        _ => false,
    }
}

#[test]
fn payload_choice_never_affects_shape() {
    let unit_payload: Descriptor<()> = Isometry3::<F32>::metadata();
    let map_payload: Descriptor<MetaMap> = Isometry3::<F32>::metadata();
    assert!(same_shape(&unit_payload.kind, &map_payload.kind));

    let unit_matrix: Descriptor<()> = Matrix3::<F32>::metadata();
    let map_matrix: Descriptor<MetaMap> = Matrix3::<F32>::metadata();
    assert!(same_shape(&unit_matrix.kind, &map_matrix.kind));

    // And different shapes are told apart.
    assert!(!same_shape(&unit_payload.kind, &unit_matrix.kind));
}

#[test]
fn meta_map_get_returns_last_entry_for_key() {
    let map = MetaMap::new()
        .insert("display_name".to_string(), "Segment".to_string())
        .insert("description".to_string(), "A line".to_string())
        .insert("display_name".to_string(), "Linear Segment".to_string());
    assert_eq!(
        map.get(&"display_name".to_string()),
        Some(&"Linear Segment".to_string())
    );
    assert_eq!(map.get(&"description".to_string()), Some(&"A line".to_string()));
    assert_eq!(map.get(&"missing".to_string()), None);
}

#[test]
fn meta_map_neutral_is_empty() {
    let map = MetaMap::neutral();
    assert_eq!(map.get(&"display_name".to_string()), None);
}

#[test]
fn entry_metadata_is_independent_of_siblings() {
    let mut first = MetaMap::new();
    first = first.insert("display_name".to_string(), "First".to_string());
    let mut second = MetaMap::new();
    second = second.insert("display_name".to_string(), "Second".to_string());
    let top = MetaMap::new().insert("display_name".to_string(), "Pair".to_string());
    let children: Vec<Entry<MetaMap>> = vec![
        field_entry("first".to_string(), None, first, bool::metadata()),
        field_entry("second".to_string(), None, second, u64::metadata()),
    ];
    let data = struct_descriptor("Pair".to_string(), None, top, children);
    assert_eq!(
        data.metadata.get(&"display_name".to_string()),
        Some(&"Pair".to_string())
    );
    if let Kind::Struct { children, .. } = data.kind {
        assert_eq!(
            children[0].metadata.get(&"display_name".to_string()),
            Some(&"First".to_string())
        );
        assert_eq!(
            children[1].metadata.get(&"display_name".to_string()),
            Some(&"Second".to_string())
        );
    } else {
        panic!("Expected a struct-shaped descriptor");
    }
}
