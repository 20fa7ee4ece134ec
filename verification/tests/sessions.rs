use session_auth::errors::StoreError;
use session_auth::repositories::postgres_store::is_valid_identifier;
use session_auth::repositories::postgres_store::PostgresStore;
use session_auth::repositories::session_repository::delete_by_id;
use session_auth::repositories::session_repository::delete_expired;
use session_auth::repositories::session_repository::get_by_id;
use session_auth::repositories::session_repository::save;
use session_auth::repositories::session_repository::SessionDb;
use session_auth::repositories::session_repository::SessionTable;

const DAY: i64 = 86_400;

fn record(id: &str, data: &[u8], expiry_date: i64) -> SessionDb {
    SessionDb { id: id.to_string(), data: data.to_vec(), expiry_date }
}

fn unix_now() -> i64 {
    std::time::SystemTime::now().duration_since(std::time::UNIX_EPOCH).unwrap().as_secs() as i64
}

#[test]
fn save_then_load_gives_the_record_back() {
    let mut store = PostgresStore::new(SessionTable::new());
    let saved = record("tok-1", &[1, 2, 3, 255], 1_000);
    assert_eq!(store.save(&saved), Ok(()));
    assert_eq!(store.load_at(&"tok-1".to_string(), 999), Ok(Some(record("tok-1", &[1, 2, 3, 255], 1_000))));
    assert_eq!(store.load_at(&"tok-2".to_string(), 999), Ok(None));
}

#[test]
fn save_overwrites_payload_and_expiry_together() {
    let mut table = SessionTable::new();
    save(&mut table, &record("tok", &[1], 100)).unwrap();
    save(&mut table, &record("other", &[9], 100)).unwrap();
    save(&mut table, &record("tok", &[2, 3], 200)).unwrap();
    assert_eq!(get_by_id(&table, "tok".to_string()), Ok(record("tok", &[2, 3], 200)));
    assert_eq!(get_by_id(&table, "other".to_string()), Ok(record("other", &[9], 100)));
    assert_eq!(table.load_at(&"tok".to_string(), 150), Some(record("tok", &[2, 3], 200)));
}

#[test]
fn load_at_the_moment_of_expiry_is_absent() {
    let mut store = PostgresStore::new(SessionTable::new());
    store.save(&record("tok", &[7], 500)).unwrap();
    assert!(store.load_at(&"tok".to_string(), 499).unwrap().is_some());
    assert_eq!(store.load_at(&"tok".to_string(), 500), Ok(None));
    assert_eq!(store.load_at(&"tok".to_string(), 501), Ok(None));
}

#[test]
fn expired_session_is_absent_though_still_stored() {
    let login_time: i64 = 1_700_000_000;
    let mut table = SessionTable::new();
    save(&mut table, &record("tok", &[1], login_time + DAY)).unwrap();
    assert!(table.load_at(&"tok".to_string(), login_time + DAY - 1).is_some());
    assert_eq!(table.load_at(&"tok".to_string(), login_time + DAY + 1), None);
    assert_eq!(get_by_id(&table, "tok".to_string()), Ok(record("tok", &[1], login_time + DAY)));
}

#[test]
fn delete_twice_is_no_error() {
    let mut store = PostgresStore::new(SessionTable::new());
    store.save(&record("a", &[1], 100)).unwrap();
    store.save(&record("b", &[2], 100)).unwrap();
    assert_eq!(store.delete(&"a".to_string()), Ok(()));
    assert_eq!(store.delete(&"a".to_string()), Ok(()));
    assert_eq!(store.load_at(&"a".to_string(), 0), Ok(None));
    assert_eq!(store.load_at(&"b".to_string(), 0), Ok(Some(record("b", &[2], 100))));
}

#[test]
fn delete_by_id_of_absent_row_changes_nothing() {
    let mut table = SessionTable::new();
    save(&mut table, &record("a", &[1], 100)).unwrap();
    assert_eq!(delete_by_id(&mut table, "zzz".to_string()), Ok(()));
    assert_eq!(get_by_id(&table, "a".to_string()), Ok(record("a", &[1], 100)));
    assert_eq!(delete_by_id(&mut table, "a".to_string()), Ok(()));
    assert_eq!(get_by_id(&table, "a".to_string()), Err(StoreError::NotFound));
}

#[test]
fn sweep_removes_all_and_only_expired_rows() {
    let mut table = SessionTable::new();
    save(&mut table, &record("past", &[1], 99)).unwrap();
    save(&mut table, &record("edge", &[2], 100)).unwrap();
    save(&mut table, &record("older", &[3], -5)).unwrap();
    save(&mut table, &record("future", &[4], 101)).unwrap();
    save(&mut table, &record("oldest", &[5], i64::MIN)).unwrap();
    table.delete_expired_at(100);
    assert_eq!(get_by_id(&table, "past".to_string()), Err(StoreError::NotFound));
    assert_eq!(get_by_id(&table, "older".to_string()), Err(StoreError::NotFound));
    assert_eq!(get_by_id(&table, "oldest".to_string()), Err(StoreError::NotFound));
    assert_eq!(get_by_id(&table, "edge".to_string()), Ok(record("edge", &[2], 100)));
    assert_eq!(get_by_id(&table, "future".to_string()), Ok(record("future", &[4], 101)));
}

#[test]
fn row_saved_after_a_sweep_survives_the_next() {
    let mut store = PostgresStore::new(SessionTable::new());
    store.save(&record("old", &[1], 10)).unwrap();
    store.delete_expired_at(50).unwrap();
    store.save(&record("new", &[2], 60)).unwrap();
    store.delete_expired_at(50).unwrap();
    assert_eq!(store.load_at(&"new".to_string(), 50), Ok(Some(record("new", &[2], 60))));
    assert_eq!(store.load_at(&"old".to_string(), 0), Ok(None));
}

#[test]
fn sweep_and_load_go_by_the_clock() {
    let now = unix_now();
    let mut table = SessionTable::new();
    save(&mut table, &record("gone", &[1], now - 3_600)).unwrap();
    save(&mut table, &record("kept", &[2], now + 3_600)).unwrap();
    assert_eq!(delete_expired(&mut table), Ok(()));
    assert_eq!(get_by_id(&table, "gone".to_string()), Err(StoreError::NotFound));
    assert_eq!(get_by_id(&table, "kept".to_string()), Ok(record("kept", &[2], now + 3_600)));

    let mut store = PostgresStore::new(table);
    store.save(&record("stale", &[3], now - 3_600)).unwrap();
    assert_eq!(store.load(&"stale".to_string()), Ok(None));
    assert_eq!(store.load(&"kept".to_string()), Ok(Some(record("kept", &[2], now + 3_600))));
    assert_eq!(store.delete_expired(), Ok(()));
    assert_eq!(store.load_at(&"stale".to_string(), i64::MIN), Ok(None));
}

#[test]
fn identifiers_are_recognised() {
    assert!(is_valid_identifier("sessions"));
    assert!(is_valid_identifier("_private"));
    assert!(is_valid_identifier("t1$x_y"));
    assert!(is_valid_identifier("été"));
    assert!(!is_valid_identifier(""));
    assert!(!is_valid_identifier("1table"));
    assert!(!is_valid_identifier("$table"));
    assert!(!is_valid_identifier("my table"));
    assert!(!is_valid_identifier("drop;"));
}

#[test]
fn store_is_kept_under_its_names() {
    let store = PostgresStore::new(SessionTable::new());
    assert_eq!(store.schema_name(), "sessions");
    assert_eq!(store.table_name(), "session");
    assert!(is_valid_identifier(store.schema_name()));
    assert!(is_valid_identifier(store.table_name()));
}
