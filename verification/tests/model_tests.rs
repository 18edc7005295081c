use tank_server::address_space::Variant;
use tank_server::methods::{GetTankSystemParamsMethod, SetThresholdMethod, StatusCode};
use tank_server::mirror::set_threshold_and_sync;
use tank_server::store::TankStore;
use tank_server::tank_model::build_tank_system_model;

fn handlers() -> (GetTankSystemParamsMethod, SetThresholdMethod) {
    let get = GetTankSystemParamsMethod {
        fill_pct_node: tank_server::address_space::NodeId { namespace: 2, numeric: 1005 },
        valve_pos_node: tank_server::address_space::NodeId { namespace: 2, numeric: 1006 },
        threshold_node: tank_server::address_space::NodeId { namespace: 2, numeric: 1007 },
    };
    let set = SetThresholdMethod { threshold_node: get.threshold_node };
    (get, set)
}

#[test]
fn example_scenario_latest_level_wins() {
    let mut store = TankStore::new();
    store.levels.insert(42.5f64.to_bits());
    store.levels.insert(10.0f64.to_bits());
    store.valves.insert(false);
    store.thresholds.insert(0);
    let (get, set) = handlers();

    let (result, _updates) = get.call_on_store(&store, 1).unwrap();
    assert_eq!(result.status_code, StatusCode::Good);
    let out = result.output_arguments.unwrap();
    assert_eq!(out[0], Variant::Double(10.0f64.to_bits()));

    let args = Some(vec![Variant::Int32(7)]);
    let (ack, updates) = set.call_on_store(&mut store, &args, 2).unwrap();
    assert_eq!(ack.status_code, StatusCode::Good);
    assert_eq!(ack.input_argument_results, Some(vec![StatusCode::Good]));
    assert_eq!(store.thresholds.len(), 2);
    assert_eq!(updates.len(), 1);
    assert_eq!(updates[0].value, Variant::Int32(7));

    let (result, _updates) = get.call_on_store(&store, 3).unwrap();
    let out = result.output_arguments.unwrap();
    assert_eq!(out[2], Variant::Int32(7));
}

#[test]
fn wrong_argument_type_is_rejected_and_store_untouched() {
    let mut store = TankStore::new();
    store.thresholds.insert(4);
    let (_, set) = handlers();
    let args = Some(vec![Variant::Text("abc".to_string())]);
    let r = set.call_on_store(&mut store, &args, 1);
    assert!(matches!(r, Err(StatusCode::BadInvalidArgument)));
    assert_eq!(store.thresholds.len(), 1);
    assert_eq!(store.thresholds.latest(), Some(4));
}

#[test]
fn zero_and_two_arguments_are_rejected() {
    let mut store = TankStore::new();
    let (_, set) = handlers();
    let r = set.call_on_store(&mut store, &None, 1);
    assert!(matches!(r, Err(StatusCode::BadInvalidArgument)));
    let r = set.call_on_store(&mut store, &Some(vec![]), 1);
    assert!(matches!(r, Err(StatusCode::BadInvalidArgument)));
    let r = set.call_on_store(&mut store, &Some(vec![Variant::Int32(1), Variant::Int32(2)]), 1);
    assert!(matches!(r, Err(StatusCode::BadInvalidArgument)));
    assert_eq!(store.thresholds.len(), 0);
}

#[test]
fn empty_valve_sequence_yields_out_of_range() {
    let mut store = TankStore::new();
    store.levels.insert(42.5f64.to_bits());
    store.thresholds.insert(3);
    let (get, _) = handlers();
    let r = get.call_on_store(&store, 1);
    assert!(matches!(r, Err(StatusCode::BadOutOfRange)));
}

#[test]
fn completely_empty_store_yields_out_of_range() {
    let store = TankStore::new();
    let (get, _) = handlers();
    let r = get.call_on_store(&store, 1);
    assert!(matches!(r, Err(StatusCode::BadOutOfRange)));
}

#[test]
fn threshold_mirror_becomes_consistent_after_sync() {
    let (mut space, ids) = build_tank_system_model("urn:tank-server".to_string());
    let mut store = TankStore::new();
    let set = SetThresholdMethod { threshold_node: ids.threshold };

    let args = Some(vec![Variant::Int32(99)]);
    let ack = set_threshold_and_sync(&set, &mut store, &mut space, &args, 7).unwrap();
    assert_eq!(ack.status_code, StatusCode::Good);
    assert_eq!(space.variable_value(ids.threshold), Some(Variant::Int32(99)));
    assert_eq!(store.thresholds.latest(), Some(99));
}

#[test]
fn built_model_exposes_initial_values() {
    let (space, ids) = build_tank_system_model("urn:tank-server".to_string());
    assert_eq!(space.variable_value(ids.fill_percentage), Some(Variant::Double(0)));
    assert_eq!(space.variable_value(ids.valve_position), Some(Variant::Boolean(false)));
    assert_eq!(space.variable_value(ids.threshold), Some(Variant::Int32(0)));
    assert!(space.has_node(ids.tank_system));
    assert!(space.has_node(ids.tank_system_type));
    assert!(space.has_node(ids.get_tank_system_params));
    assert!(space.has_node(ids.set_threshold));
}

#[test]
fn mirror_updates_from_get_land_on_all_three_nodes() {
    let (mut space, ids) = build_tank_system_model("urn:tank-server".to_string());
    let mut store = TankStore::new();
    store.levels.insert(55.25f64.to_bits());
    store.valves.insert(true);
    store.thresholds.insert(-8);
    let get = GetTankSystemParamsMethod {
        fill_pct_node: ids.fill_percentage,
        valve_pos_node: ids.valve_position,
        threshold_node: ids.threshold,
    };
    let (_result, updates) = get.call_on_store(&store, 11).unwrap();
    let applied = tank_server::mirror::apply_mirror_updates(&mut space, &updates);
    assert_eq!(applied, 3);
    assert_eq!(
        space.variable_value(ids.fill_percentage),
        Some(Variant::Double(55.25f64.to_bits()))
    );
    assert_eq!(space.variable_value(ids.valve_position), Some(Variant::Boolean(true)));
    assert_eq!(space.variable_value(ids.threshold), Some(Variant::Int32(-8)));
}
