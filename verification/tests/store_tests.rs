use tank_server::store::{ReadingLog, TankStore};

#[test]
fn empty_log_has_no_latest() {
    let log: ReadingLog<i32> = ReadingLog::new();
    assert_eq!(log.latest(), None);
    assert_eq!(log.len(), 0);
}

#[test]
fn latest_follows_the_highest_identifier() {
    let mut log: ReadingLog<i32> = ReadingLog::new();
    let id1 = log.insert(5);
    let id2 = log.insert(-3);
    let id3 = log.insert(12);
    assert!(id1 < id2 && id2 < id3);
    assert_eq!(log.latest(), Some(12));
    assert_eq!(log.len(), 3);
}

#[test]
fn insert_never_alters_existing_rows() {
    let mut log: ReadingLog<bool> = ReadingLog::new();
    log.insert(true);
    log.insert(false);
    let before: Vec<(u64, bool)> = log.rows.iter().map(|r| (r.id, r.value)).collect();
    log.insert(true);
    assert_eq!(log.rows.len(), before.len() + 1);
    for (i, (id, value)) in before.iter().enumerate() {
        assert_eq!(log.rows[i].id, *id);
        assert_eq!(log.rows[i].value, *value);
    }
}

#[test]
fn identifiers_strictly_increase_over_many_inserts() {
    let mut log: ReadingLog<u64> = ReadingLog::new();
    let mut last = 0u64;
    for i in 0..100u64 {
        let id = log.insert(i);
        assert!(id > last);
        last = id;
        assert_eq!(log.latest(), Some(i));
    }
}

#[test]
fn new_tank_store_is_empty() {
    let store = TankStore::new();
    assert_eq!(store.levels.len(), 0);
    assert_eq!(store.valves.len(), 0);
    assert_eq!(store.thresholds.len(), 0);
}
