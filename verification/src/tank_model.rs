use vstd::prelude::*;
use crate::address_space::{
    base_object_type_id, lemma_fresh_numeric, lemma_numeric_below_push,
    modelling_rule_mandatory_id, objects_folder_id, property_type_id, spec_base_object_type_id,
    spec_modelling_rule_mandatory_id, spec_nodes_numeric_below, spec_objects_folder_id,
    spec_property_type_id, AddressSpace, Argument, DataTypeKind, NodeClass, NodeId, Reference,
    ReferenceKind, Variant,
};

verus! {

broadcast use vstd::string::group_string_axioms;

/// The identifiers of every node the tank-system model owns.
#[derive(Clone, Copy, PartialEq, Eq, Structural, Debug)]
pub struct TankNodeIds {
    pub tank_system_type: NodeId,
    pub type_fill_percentage: NodeId,
    pub type_valve_position: NodeId,
    pub type_threshold: NodeId,
    pub tank_system: NodeId,
    pub fill_percentage: NodeId,
    pub valve_position: NodeId,
    pub threshold: NodeId,
    pub get_tank_system_params: NodeId,
    pub set_threshold: NodeId,
}

/// The node under `id` is a Variable with this name, data type and value.
pub open spec fn spec_is_variable_node(
    space: AddressSpace,
    id: NodeId,
    name: Seq<char>,
    dt: DataTypeKind,
    value: Option<Variant>,
) -> bool {
    &&& space.spec_has_node(id)
    &&& space.spec_node(id).class == NodeClass::Variable
    &&& space.spec_node(id).browse_name@ == name
    &&& space.spec_node(id).data_type == Some(dt)
    &&& space.spec_node(id).value == value
}

/// The structural facts the rest of the library relies on: the three concrete
/// property nodes exist, are variables of the declared data types, and are
/// pairwise distinct.
pub open spec fn spec_tank_variables_wf(space: AddressSpace, ids: TankNodeIds) -> bool {
    &&& space.wf()
    &&& ids.fill_percentage != ids.valve_position
    &&& ids.fill_percentage != ids.threshold
    &&& ids.valve_position != ids.threshold
    &&& space.spec_has_node(ids.fill_percentage)
    &&& space.spec_has_node(ids.valve_position)
    &&& space.spec_has_node(ids.threshold)
    &&& space.spec_node(ids.fill_percentage).class == NodeClass::Variable
    &&& space.spec_node(ids.valve_position).class == NodeClass::Variable
    &&& space.spec_node(ids.threshold).class == NodeClass::Variable
    &&& space.spec_node(ids.fill_percentage).data_type == Some(DataTypeKind::Double)
    &&& space.spec_node(ids.valve_position).data_type == Some(DataTypeKind::Boolean)
    &&& space.spec_node(ids.threshold).data_type == Some(DataTypeKind::Int32)
}

/// Declares the tank-system object type with its three mandatory property
/// slots. Returns the identifiers of the type node and of the three slots.
#[verifier::rlimit(100)]
fn define_tank_type_nodes(space: &mut AddressSpace, ns: u16) -> (ids: (
    NodeId,
    NodeId,
    NodeId,
    NodeId,
))
    requires
        old(space).wf(),
        spec_nodes_numeric_below(old(space).nodes@, old(space).next_numeric),
        old(space).next_numeric < u32::MAX - 16,
        old(space).spec_has_node(spec_base_object_type_id()),
        old(space).spec_has_node(spec_property_type_id()),
        old(space).spec_has_node(spec_modelling_rule_mandatory_id()),
    ensures
        final(space).wf(),
        spec_nodes_numeric_below(final(space).nodes@, final(space).next_numeric),
        final(space).next_numeric == old(space).next_numeric + 4,
        final(space).namespaces == old(space).namespaces,
        ids.0 == (NodeId { namespace: ns, numeric: old(space).next_numeric }),
        ids.1 == (NodeId { namespace: ns, numeric: (old(space).next_numeric + 1) as u32 }),
        ids.2 == (NodeId { namespace: ns, numeric: (old(space).next_numeric + 2) as u32 }),
        ids.3 == (NodeId { namespace: ns, numeric: (old(space).next_numeric + 3) as u32 }),
        forall|other: NodeId|
            other != ids.0 && other != ids.1 && other != ids.2 && other != ids.3 ==> (final(space).spec_has_node(other) <==> old(space).spec_has_node(other)),
        forall|other: NodeId|
            other != ids.0 && other != ids.1 && other != ids.2 && other != ids.3 && old(space).spec_has_node(other) ==> final(space).spec_node(other) == old(space).spec_node(other),
        final(space).spec_has_node(ids.0),
        final(space).spec_node(ids.0).class == NodeClass::ObjectType,
        final(space).spec_node(ids.0).browse_name@ == "tankSystemType"@,
        final(space).spec_has_reference(
            ids.0,
            ReferenceKind::SubtypeOf,
            spec_base_object_type_id(),
        ),
        spec_is_variable_node(*final(space), ids.1, "FillPercentage"@, DataTypeKind::Double, None),
        spec_is_variable_node(*final(space), ids.2, "ValvePosition"@, DataTypeKind::Boolean, None),
        spec_is_variable_node(*final(space), ids.3, "Threshold"@, DataTypeKind::Int32, None),
        final(space).spec_has_reference(ids.1, ReferenceKind::PropertyOf, ids.0),
        final(space).spec_has_reference(ids.2, ReferenceKind::PropertyOf, ids.0),
        final(space).spec_has_reference(ids.3, ReferenceKind::PropertyOf, ids.0),
        final(space).spec_has_reference(
            ids.1,
            ReferenceKind::HasModellingRule,
            spec_modelling_rule_mandatory_id(),
        ),
        final(space).spec_has_reference(
            ids.2,
            ReferenceKind::HasModellingRule,
            spec_modelling_rule_mandatory_id(),
        ),
        final(space).spec_has_reference(
            ids.3,
            ReferenceKind::HasModellingRule,
            spec_modelling_rule_mandatory_id(),
        ),
{
    let tank_system_type = space.next_numeric_id(ns);
    proof {
        lemma_fresh_numeric(*space, tank_system_type);
    }
    let ghost pre0 = *space;
    match space.define_object_type(
        tank_system_type,
        "tankSystemType".to_string(),
        base_object_type_id(),
    ) {
        Ok(()) => {}
        Err(_) => unreached(),
    }
    proof {
        lemma_numeric_below_push(
            pre0.nodes@,
            space.nodes@,
            space.spec_node(tank_system_type),
            tank_system_type.numeric,
            space.next_numeric,
        );
        assert(space.spec_node(tank_system_type).references@[0] == (Reference {
            kind: ReferenceKind::SubtypeOf,
            target: spec_base_object_type_id(),
        }));
    }

    let type_fill_percentage = space.next_numeric_id(ns);
    proof {
        lemma_fresh_numeric(*space, type_fill_percentage);
    }
    let ghost pre1 = *space;
    match space.define_variable(
        type_fill_percentage,
        "FillPercentage".to_string(),
        DataTypeKind::Double,
        None,
        tank_system_type,
        property_type_id(),
        Some(modelling_rule_mandatory_id()),
    ) {
        Ok(()) => {}
        Err(_) => unreached(),
    }
    proof {
        lemma_numeric_below_push(
            pre1.nodes@,
            space.nodes@,
            space.spec_node(type_fill_percentage),
            type_fill_percentage.numeric,
            space.next_numeric,
        );
        assert(space.spec_node(type_fill_percentage).references@[0] == (Reference {
            kind: ReferenceKind::PropertyOf,
            target: tank_system_type,
        }));
        assert(space.spec_node(type_fill_percentage).references@[2] == (Reference {
            kind: ReferenceKind::HasModellingRule,
            target: spec_modelling_rule_mandatory_id(),
        }));
    }

    let type_valve_position = space.next_numeric_id(ns);
    proof {
        lemma_fresh_numeric(*space, type_valve_position);
    }
    let ghost pre2 = *space;
    match space.define_variable(
        type_valve_position,
        "ValvePosition".to_string(),
        DataTypeKind::Boolean,
        None,
        tank_system_type,
        property_type_id(),
        Some(modelling_rule_mandatory_id()),
    ) {
        Ok(()) => {}
        Err(_) => unreached(),
    }
    proof {
        lemma_numeric_below_push(
            pre2.nodes@,
            space.nodes@,
            space.spec_node(type_valve_position),
            type_valve_position.numeric,
            space.next_numeric,
        );
        assert(space.spec_node(type_valve_position).references@[0] == (Reference {
            kind: ReferenceKind::PropertyOf,
            target: tank_system_type,
        }));
        assert(space.spec_node(type_valve_position).references@[2] == (Reference {
            kind: ReferenceKind::HasModellingRule,
            target: spec_modelling_rule_mandatory_id(),
        }));
    }

    let type_threshold = space.next_numeric_id(ns);
    proof {
        lemma_fresh_numeric(*space, type_threshold);
    }
    let ghost pre3 = *space;
    match space.define_variable(
        type_threshold,
        "Threshold".to_string(),
        DataTypeKind::Int32,
        None,
        tank_system_type,
        property_type_id(),
        Some(modelling_rule_mandatory_id()),
    ) {
        Ok(()) => {}
        Err(_) => unreached(),
    }
    proof {
        lemma_numeric_below_push(
            pre3.nodes@,
            space.nodes@,
            space.spec_node(type_threshold),
            type_threshold.numeric,
            space.next_numeric,
        );
        assert(space.spec_node(type_threshold).references@[0] == (Reference {
            kind: ReferenceKind::PropertyOf,
            target: tank_system_type,
        }));
        assert(space.spec_node(type_threshold).references@[2] == (Reference {
            kind: ReferenceKind::HasModellingRule,
            target: spec_modelling_rule_mandatory_id(),
        }));
    }

    (tank_system_type, type_fill_percentage, type_valve_position, type_threshold)
}

/// Declares the tank-system instance and its three concrete property nodes,
/// with their initial values.
#[verifier::rlimit(100)]
fn define_tank_instance_nodes(space: &mut AddressSpace, ns: u16, tank_system_type: NodeId) -> (ids:
    (NodeId, NodeId, NodeId, NodeId))
    requires
        old(space).wf(),
        spec_nodes_numeric_below(old(space).nodes@, old(space).next_numeric),
        old(space).next_numeric < u32::MAX - 16,
        old(space).spec_has_node(spec_objects_folder_id()),
        old(space).spec_has_node(spec_property_type_id()),
        old(space).spec_has_node(tank_system_type),
    ensures
        final(space).wf(),
        spec_nodes_numeric_below(final(space).nodes@, final(space).next_numeric),
        final(space).next_numeric == old(space).next_numeric + 4,
        final(space).namespaces == old(space).namespaces,
        ids.0 == (NodeId { namespace: ns, numeric: old(space).next_numeric }),
        ids.1 == (NodeId { namespace: ns, numeric: (old(space).next_numeric + 1) as u32 }),
        ids.2 == (NodeId { namespace: ns, numeric: (old(space).next_numeric + 2) as u32 }),
        ids.3 == (NodeId { namespace: ns, numeric: (old(space).next_numeric + 3) as u32 }),
        forall|other: NodeId|
            other != ids.0 && other != ids.1 && other != ids.2 && other != ids.3 ==> (final(space).spec_has_node(other) <==> old(space).spec_has_node(other)),
        forall|other: NodeId|
            other != ids.0 && other != ids.1 && other != ids.2 && other != ids.3 && old(space).spec_has_node(other) ==> final(space).spec_node(other) == old(space).spec_node(other),
        final(space).spec_has_node(ids.0),
        final(space).spec_node(ids.0).class == NodeClass::Object,
        final(space).spec_node(ids.0).browse_name@ == "tankSystem1"@,
        final(space).spec_has_reference(
            ids.0,
            ReferenceKind::OrganizedBy,
            spec_objects_folder_id(),
        ),
        final(space).spec_has_reference(ids.0, ReferenceKind::HasTypeDefinition, tank_system_type),
        spec_is_variable_node(
            *final(space),
            ids.1,
            "FillPercentage"@,
            DataTypeKind::Double,
            Some(Variant::Double(0)),
        ),
        spec_is_variable_node(
            *final(space),
            ids.2,
            "ValvePosition"@,
            DataTypeKind::Boolean,
            Some(Variant::Boolean(false)),
        ),
        spec_is_variable_node(
            *final(space),
            ids.3,
            "Threshold"@,
            DataTypeKind::Int32,
            Some(Variant::Int32(0)),
        ),
        final(space).spec_has_reference(ids.1, ReferenceKind::PropertyOf, ids.0),
        final(space).spec_has_reference(ids.2, ReferenceKind::PropertyOf, ids.0),
        final(space).spec_has_reference(ids.3, ReferenceKind::PropertyOf, ids.0),
{
    let tank_system = space.next_numeric_id(ns);
    proof {
        lemma_fresh_numeric(*space, tank_system);
    }
    let ghost pre0 = *space;
    match space.define_object(
        tank_system,
        "tankSystem1".to_string(),
        objects_folder_id(),
        tank_system_type,
    ) {
        Ok(()) => {}
        Err(_) => unreached(),
    }
    proof {
        lemma_numeric_below_push(
            pre0.nodes@,
            space.nodes@,
            space.spec_node(tank_system),
            tank_system.numeric,
            space.next_numeric,
        );
        assert(space.spec_node(tank_system).references@[0] == (Reference {
            kind: ReferenceKind::OrganizedBy,
            target: spec_objects_folder_id(),
        }));
        assert(space.spec_node(tank_system).references@[1] == (Reference {
            kind: ReferenceKind::HasTypeDefinition,
            target: tank_system_type,
        }));
    }

    let fill_percentage = space.next_numeric_id(ns);
    proof {
        lemma_fresh_numeric(*space, fill_percentage);
    }
    let ghost pre1 = *space;
    match space.define_variable(
        fill_percentage,
        "FillPercentage".to_string(),
        DataTypeKind::Double,
        Some(Variant::Double(0)),
        tank_system,
        property_type_id(),
        None,
    ) {
        Ok(()) => {}
        Err(_) => unreached(),
    }
    proof {
        lemma_numeric_below_push(
            pre1.nodes@,
            space.nodes@,
            space.spec_node(fill_percentage),
            fill_percentage.numeric,
            space.next_numeric,
        );
        assert(space.spec_node(fill_percentage).references@[0] == (Reference {
            kind: ReferenceKind::PropertyOf,
            target: tank_system,
        }));
    }

    let valve_position = space.next_numeric_id(ns);
    proof {
        lemma_fresh_numeric(*space, valve_position);
    }
    let ghost pre2 = *space;
    match space.define_variable(
        valve_position,
        "ValvePosition".to_string(),
        DataTypeKind::Boolean,
        Some(Variant::Boolean(false)),
        tank_system,
        property_type_id(),
        None,
    ) {
        Ok(()) => {}
        Err(_) => unreached(),
    }
    proof {
        lemma_numeric_below_push(
            pre2.nodes@,
            space.nodes@,
            space.spec_node(valve_position),
            valve_position.numeric,
            space.next_numeric,
        );
        assert(space.spec_node(valve_position).references@[0] == (Reference {
            kind: ReferenceKind::PropertyOf,
            target: tank_system,
        }));
    }

    let threshold = space.next_numeric_id(ns);
    proof {
        lemma_fresh_numeric(*space, threshold);
    }
    let ghost pre3 = *space;
    match space.define_variable(
        threshold,
        "Threshold".to_string(),
        DataTypeKind::Int32,
        Some(Variant::Int32(0)),
        tank_system,
        property_type_id(),
        None,
    ) {
        Ok(()) => {}
        Err(_) => unreached(),
    }
    proof {
        lemma_numeric_below_push(
            pre3.nodes@,
            space.nodes@,
            space.spec_node(threshold),
            threshold.numeric,
            space.next_numeric,
        );
        assert(space.spec_node(threshold).references@[0] == (Reference {
            kind: ReferenceKind::PropertyOf,
            target: tank_system,
        }));
    }

    (tank_system, fill_percentage, valve_position, threshold)
}

/// Declares the two method nodes with their argument signatures.
#[verifier::rlimit(100)]
fn define_tank_method_nodes(space: &mut AddressSpace, ns: u16, tank_system: NodeId) -> (ids: (
    NodeId,
    NodeId,
))
    requires
        old(space).wf(),
        spec_nodes_numeric_below(old(space).nodes@, old(space).next_numeric),
        old(space).next_numeric < u32::MAX - 16,
        old(space).spec_has_node(tank_system),
    ensures
        final(space).wf(),
        spec_nodes_numeric_below(final(space).nodes@, final(space).next_numeric),
        final(space).next_numeric == old(space).next_numeric + 2,
        final(space).namespaces == old(space).namespaces,
        ids.0 == (NodeId { namespace: ns, numeric: old(space).next_numeric }),
        ids.1 == (NodeId { namespace: ns, numeric: (old(space).next_numeric + 1) as u32 }),
        forall|other: NodeId|
            other != ids.0 && other != ids.1 ==> (final(space).spec_has_node(other) <==> old(space).spec_has_node(other)),
        forall|other: NodeId|
            other != ids.0 && other != ids.1 && old(space).spec_has_node(other) ==> final(space).spec_node(other) == old(space).spec_node(other),
        final(space).spec_has_node(ids.0),
        final(space).spec_node(ids.0).class == NodeClass::Method,
        final(space).spec_node(ids.0).browse_name@ == "getTankSystemParams"@,
        final(space).spec_has_reference(ids.0, ReferenceKind::ComponentOf, tank_system),
        final(space).spec_node(ids.0).input_arguments@.len() == 0,
        ({
            let out = final(space).spec_node(ids.0).output_arguments@;
            &&& out.len() == 3
            &&& out[0].name@ == "FillPercentage"@ && out[0].data_type == DataTypeKind::Double
            &&& out[1].name@ == "ValvePosition"@ && out[1].data_type == DataTypeKind::Boolean
            &&& out[2].name@ == "Threshold"@ && out[2].data_type == DataTypeKind::Int32
        }),
        final(space).spec_has_node(ids.1),
        final(space).spec_node(ids.1).class == NodeClass::Method,
        final(space).spec_node(ids.1).browse_name@ == "setThreshold"@,
        final(space).spec_has_reference(ids.1, ReferenceKind::ComponentOf, tank_system),
        final(space).spec_node(ids.1).output_arguments@.len() == 0,
        ({
            let inp = final(space).spec_node(ids.1).input_arguments@;
            &&& inp.len() == 1
            &&& inp[0].name@ == "newThreshold"@ && inp[0].data_type == DataTypeKind::Int32
        }),
{
    let get_tank_system_params = space.next_numeric_id(ns);
    proof {
        lemma_fresh_numeric(*space, get_tank_system_params);
    }
    let ghost pre0 = *space;
    let mut output_arguments: Vec<Argument> = Vec::new();
    output_arguments.push(
        Argument { name: "FillPercentage".to_string(), data_type: DataTypeKind::Double },
    );
    output_arguments.push(
        Argument { name: "ValvePosition".to_string(), data_type: DataTypeKind::Boolean },
    );
    output_arguments.push(
        Argument { name: "Threshold".to_string(), data_type: DataTypeKind::Int32 },
    );
    match space.define_method(
        get_tank_system_params,
        "getTankSystemParams".to_string(),
        tank_system,
        Vec::new(),
        output_arguments,
    ) {
        Ok(()) => {}
        Err(_) => unreached(),
    }
    proof {
        lemma_numeric_below_push(
            pre0.nodes@,
            space.nodes@,
            space.spec_node(get_tank_system_params),
            get_tank_system_params.numeric,
            space.next_numeric,
        );
        assert(space.spec_node(get_tank_system_params).references@[0] == (Reference {
            kind: ReferenceKind::ComponentOf,
            target: tank_system,
        }));
    }

    let set_threshold = space.next_numeric_id(ns);
    proof {
        lemma_fresh_numeric(*space, set_threshold);
    }
    let ghost pre1 = *space;
    let mut input_arguments: Vec<Argument> = Vec::new();
    input_arguments.push(
        Argument { name: "newThreshold".to_string(), data_type: DataTypeKind::Int32 },
    );
    match space.define_method(
        set_threshold,
        "setThreshold".to_string(),
        tank_system,
        input_arguments,
        Vec::new(),
    ) {
        Ok(()) => {}
        Err(_) => unreached(),
    }
    proof {
        lemma_numeric_below_push(
            pre1.nodes@,
            space.nodes@,
            space.spec_node(set_threshold),
            set_threshold.numeric,
            space.next_numeric,
        );
        assert(space.spec_node(set_threshold).references@[0] == (Reference {
            kind: ReferenceKind::ComponentOf,
            target: tank_system,
        }));
    }

    (get_tank_system_params, set_threshold)
}

/// Builds the whole tank-system model in the construction order the graph
/// demands: namespace, object type, type-level mandatory property slots,
/// instance, instance-level property nodes, then the two method nodes.
/// Construction cannot fail: every identifier is freshly generated and every
/// relation targets a node inserted earlier.
#[verifier::rlimit(100)]
pub fn build_tank_system_model(namespace_uri: String) -> (r: (AddressSpace, TankNodeIds))
    ensures
        spec_tank_variables_wf(r.0, r.1),
        ({
            let space = r.0;
            let ids = r.1;
            &&& spec_is_variable_node(
                space,
                ids.fill_percentage,
                "FillPercentage"@,
                DataTypeKind::Double,
                Some(Variant::Double(0)),
            )
            &&& spec_is_variable_node(
                space,
                ids.valve_position,
                "ValvePosition"@,
                DataTypeKind::Boolean,
                Some(Variant::Boolean(false)),
            )
            &&& spec_is_variable_node(
                space,
                ids.threshold,
                "Threshold"@,
                DataTypeKind::Int32,
                Some(Variant::Int32(0)),
            )
            &&& space.spec_variable_value(ids.fill_percentage) == Some(Variant::Double(0))
            &&& space.spec_variable_value(ids.valve_position) == Some(Variant::Boolean(false))
            &&& space.spec_variable_value(ids.threshold) == Some(Variant::Int32(0))
            &&& space.spec_node(ids.tank_system_type).class == NodeClass::ObjectType
            &&& space.spec_node(ids.tank_system_type).browse_name@ == "tankSystemType"@
            &&& space.spec_has_reference(
                ids.tank_system_type,
                ReferenceKind::SubtypeOf,
                spec_base_object_type_id(),
            )
            &&& space.spec_node(ids.tank_system).class == NodeClass::Object
            &&& space.spec_node(ids.tank_system).browse_name@ == "tankSystem1"@
            &&& space.spec_has_reference(
                ids.tank_system,
                ReferenceKind::OrganizedBy,
                spec_objects_folder_id(),
            )
            &&& space.spec_has_reference(
                ids.tank_system,
                ReferenceKind::HasTypeDefinition,
                ids.tank_system_type,
            )
            &&& space.spec_has_reference(
                ids.fill_percentage,
                ReferenceKind::PropertyOf,
                ids.tank_system,
            )
            &&& space.spec_has_reference(
                ids.valve_position,
                ReferenceKind::PropertyOf,
                ids.tank_system,
            )
            &&& space.spec_has_reference(ids.threshold, ReferenceKind::PropertyOf, ids.tank_system)
            &&& spec_is_variable_node(
                space,
                ids.type_fill_percentage,
                "FillPercentage"@,
                DataTypeKind::Double,
                None,
            )
            &&& spec_is_variable_node(
                space,
                ids.type_valve_position,
                "ValvePosition"@,
                DataTypeKind::Boolean,
                None,
            )
            &&& spec_is_variable_node(
                space,
                ids.type_threshold,
                "Threshold"@,
                DataTypeKind::Int32,
                None,
            )
            &&& space.spec_has_reference(
                ids.type_fill_percentage,
                ReferenceKind::HasModellingRule,
                spec_modelling_rule_mandatory_id(),
            )
            &&& space.spec_has_reference(
                ids.type_valve_position,
                ReferenceKind::HasModellingRule,
                spec_modelling_rule_mandatory_id(),
            )
            &&& space.spec_has_reference(
                ids.type_threshold,
                ReferenceKind::HasModellingRule,
                spec_modelling_rule_mandatory_id(),
            )
            &&& space.spec_node(ids.get_tank_system_params).class == NodeClass::Method
            &&& space.spec_node(ids.get_tank_system_params).browse_name@ == "getTankSystemParams"@
            &&& space.spec_has_reference(
                ids.get_tank_system_params,
                ReferenceKind::ComponentOf,
                ids.tank_system,
            )
            &&& space.spec_node(ids.get_tank_system_params).input_arguments@.len() == 0
            &&& ({
                let out = space.spec_node(ids.get_tank_system_params).output_arguments@;
                &&& out.len() == 3
                &&& out[0].name@ == "FillPercentage"@ && out[0].data_type == DataTypeKind::Double
                &&& out[1].name@ == "ValvePosition"@ && out[1].data_type == DataTypeKind::Boolean
                &&& out[2].name@ == "Threshold"@ && out[2].data_type == DataTypeKind::Int32
            })
            &&& space.spec_node(ids.set_threshold).class == NodeClass::Method
            &&& space.spec_node(ids.set_threshold).browse_name@ == "setThreshold"@
            &&& space.spec_has_reference(
                ids.set_threshold,
                ReferenceKind::ComponentOf,
                ids.tank_system,
            )
            &&& space.spec_node(ids.set_threshold).output_arguments@.len() == 0
            &&& ({
                let inp = space.spec_node(ids.set_threshold).input_arguments@;
                &&& inp.len() == 1
                &&& inp[0].name@ == "newThreshold"@ && inp[0].data_type == DataTypeKind::Int32
            })
        }),
{
    let mut space = AddressSpace::new();
    let ns = match space.register_namespace(namespace_uri) {
        Ok(i) => i,
        Err(_) => unreached(),
    };

    let type_ids = define_tank_type_nodes(&mut space, ns);
    let tank_system_type = type_ids.0;
    let type_fill_percentage = type_ids.1;
    let type_valve_position = type_ids.2;
    let type_threshold = type_ids.3;

    let instance_ids = define_tank_instance_nodes(&mut space, ns, tank_system_type);
    let tank_system = instance_ids.0;
    let fill_percentage = instance_ids.1;
    let valve_position = instance_ids.2;
    let threshold = instance_ids.3;

    let method_ids = define_tank_method_nodes(&mut space, ns, tank_system);
    let get_tank_system_params = method_ids.0;
    let set_threshold = method_ids.1;

    let ids = TankNodeIds {
        tank_system_type,
        type_fill_percentage,
        type_valve_position,
        type_threshold,
        tank_system,
        fill_percentage,
        valve_position,
        threshold,
        get_tank_system_params,
        set_threshold,
    };
    (space, ids)
}

} // verus!
