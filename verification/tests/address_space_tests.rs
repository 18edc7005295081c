use tank_server::address_space::{
    base_object_type_id, objects_folder_id, property_type_id, AddressSpace, DataTypeKind,
    ModelError, NodeId, Variant,
};

#[test]
fn register_namespace_is_idempotent_per_uri() {
    let mut space = AddressSpace::new();
    let a = space.register_namespace("urn:plant-a".to_string()).unwrap();
    let b = space.register_namespace("urn:plant-b".to_string()).unwrap();
    let a_again = space.register_namespace("urn:plant-a".to_string()).unwrap();
    assert_eq!(a, 2);
    assert_eq!(b, 3);
    assert_eq!(a_again, a);
}

#[test]
fn defining_under_a_missing_parent_fails() {
    let mut space = AddressSpace::new();
    let ghost_parent = NodeId { namespace: 1, numeric: 4242 };
    let id = space.next_numeric_id(1);
    let r = space.define_variable(
        id,
        "Orphan".to_string(),
        DataTypeKind::Int32,
        Some(Variant::Int32(0)),
        ghost_parent,
        property_type_id(),
        None,
    );
    assert_eq!(r, Err(ModelError::UnknownReferenceTarget));
    assert!(!space.has_node(id));
}

#[test]
fn duplicate_identifiers_are_refused() {
    let mut space = AddressSpace::new();
    let id = space.next_numeric_id(1);
    space
        .define_object(id, "one".to_string(), objects_folder_id(), base_object_type_id())
        .unwrap();
    let r = space.define_object(id, "two".to_string(), objects_folder_id(), base_object_type_id());
    assert_eq!(r, Err(ModelError::DuplicateNodeId));
}

#[test]
fn set_variable_value_rejects_missing_or_non_variable_nodes() {
    let mut space = AddressSpace::new();
    let missing = NodeId { namespace: 1, numeric: 777 };
    let r = space.set_variable_value(missing, Variant::Int32(1), 0, 0);
    assert_eq!(r, Err(ModelError::NodeNotFound));
    let r = space.set_variable_value(objects_folder_id(), Variant::Int32(1), 0, 0);
    assert_eq!(r, Err(ModelError::NotAVariable));
    assert_eq!(space.variable_value(objects_folder_id()), None);
}

#[test]
fn set_variable_value_overwrites_value_and_timestamps() {
    let mut space = AddressSpace::new();
    let parent = space.next_numeric_id(1);
    space
        .define_object(parent, "holder".to_string(), objects_folder_id(), base_object_type_id())
        .unwrap();
    let var = space.next_numeric_id(1);
    space
        .define_variable(
            var,
            "Gauge".to_string(),
            DataTypeKind::Double,
            Some(Variant::Double(0)),
            parent,
            property_type_id(),
            None,
        )
        .unwrap();
    space.set_variable_value(var, Variant::Double(42.5f64.to_bits()), 9, 9).unwrap();
    assert_eq!(space.variable_value(var), Some(Variant::Double(42.5f64.to_bits())));
    space.set_variable_value(var, Variant::Double(10.0f64.to_bits()), 10, 10).unwrap();
    assert_eq!(space.variable_value(var), Some(Variant::Double(10.0f64.to_bits())));
}
