use rusqlite::Connection;
use tank_server::address_space::{NodeId, Variant};
use tank_server::methods::{GetTankSystemParamsMethod, SetThresholdMethod, StatusCode};

fn open_store() -> Connection {
    let conn = Connection::open_in_memory().unwrap();
    conn.execute_batch(
        "CREATE TABLE waterlevel (id INTEGER PRIMARY KEY AUTOINCREMENT, level REAL);
         CREATE TABLE valveposition (id INTEGER PRIMARY KEY AUTOINCREMENT, position BOOLEAN);
         CREATE TABLE triggerthreshold (id INTEGER PRIMARY KEY AUTOINCREMENT, threshold INTEGER);",
    )
    .unwrap();
    conn
}

fn get_handler() -> GetTankSystemParamsMethod {
    GetTankSystemParamsMethod {
        fill_pct_node: NodeId { namespace: 1, numeric: 1005 },
        valve_pos_node: NodeId { namespace: 1, numeric: 1006 },
        threshold_node: NodeId { namespace: 1, numeric: 1007 },
    }
}

#[test]
fn persisted_scenario_latest_level_wins() {
    let conn = open_store();
    conn.execute("INSERT INTO waterlevel (level) VALUES (?1);", [42.5f64]).unwrap();
    conn.execute("INSERT INTO waterlevel (level) VALUES (?1);", [10.0f64]).unwrap();
    conn.execute("INSERT INTO valveposition (position) VALUES (?1);", [true]).unwrap();
    conn.execute("INSERT INTO triggerthreshold (threshold) VALUES (?1);", [0i32]).unwrap();

    let get = get_handler();
    let (result, updates) = get.call(&conn, 5).unwrap();
    assert_eq!(result.status_code, StatusCode::Good);
    let out = result.output_arguments.unwrap();
    assert_eq!(out[0], Variant::Double(10.0f64.to_bits()));
    assert_eq!(out[1], Variant::Boolean(true));
    assert_eq!(out[2], Variant::Int32(0));
    assert_eq!(updates.len(), 3);
    assert_eq!(updates[0].value, out[0]);
    assert_eq!(updates[1].value, out[1]);
    assert_eq!(updates[2].value, out[2]);
}

#[test]
fn persisted_set_threshold_appends_one_row() {
    let conn = open_store();
    let set = SetThresholdMethod { threshold_node: NodeId { namespace: 1, numeric: 1007 } };
    let args = Some(vec![Variant::Int32(7)]);
    let (ack, updates) = set.call(&conn, &args, 1).unwrap_or_else(|_| panic!("call failed"));
    assert_eq!(ack.status_code, StatusCode::Good);
    assert_eq!(updates[0].value, Variant::Int32(7));

    let rows: i64 = conn
        .query_row("SELECT COUNT(*) FROM triggerthreshold;", [], |r| r.get(0))
        .unwrap();
    assert_eq!(rows, 1);
    let latest: i32 = conn
        .query_row("SELECT threshold FROM triggerthreshold ORDER BY id DESC LIMIT 1;", [], |r| {
            r.get(0)
        })
        .unwrap();
    assert_eq!(latest, 7);
}

#[test]
fn persisted_set_threshold_rejects_bad_arguments_without_insert() {
    let conn = open_store();
    let set = SetThresholdMethod { threshold_node: NodeId { namespace: 1, numeric: 1007 } };
    let args = Some(vec![Variant::Text("abc".to_string())]);
    let r = set.call(&conn, &args, 1);
    assert!(matches!(r, Err(StatusCode::BadInvalidArgument)));
    let rows: i64 = conn
        .query_row("SELECT COUNT(*) FROM triggerthreshold;", [], |r| r.get(0))
        .unwrap();
    assert_eq!(rows, 0);
}

#[test]
fn persisted_empty_valve_sequence_yields_out_of_range() {
    let conn = open_store();
    conn.execute("INSERT INTO waterlevel (level) VALUES (?1);", [42.5f64]).unwrap();
    conn.execute("INSERT INTO triggerthreshold (threshold) VALUES (?1);", [3i32]).unwrap();
    let get = get_handler();
    let r = get.call(&conn, 1);
    assert!(matches!(r, Err(StatusCode::BadOutOfRange)));
}

#[test]
fn persisted_missing_table_yields_internal_error() {
    let conn = Connection::open_in_memory().unwrap();
    let get = get_handler();
    let r = get.call(&conn, 1);
    assert!(matches!(r, Err(StatusCode::BadInternalError)));
}
