use docstore::document::{Document, NewDocument};
use docstore::error::StoreError;
use docstore::ident::check_external_id;
use docstore::pool::PoolSettings;
use docstore::readback::select_stored;
use docstore::session::{AcquireFailure, Action, Event, InsertSession, Phase};

const SAMPLE_ID: &str = "123e4567-e89b-42d3-a456-426614174000";

fn parse(s: &str) -> serde_json::Value {
    serde_json::from_str(s).unwrap()
}

/// Runs a session through a lease and a one-row insert; returns the row it wrote.
fn lease_and_insert(s: &mut InsertSession) -> NewDocument {
    let row = match s.step(Event::Leased) {
        Action::Insert(r) => r,
        _ => panic!("expected an insert"),
    };
    match s.step(Event::Inserted(1)) {
        Action::Fetch(id) => assert_eq!(id, row.external_id),
        _ => panic!("expected a fetch"),
    }
    row
}

fn release_and_finish(s: &mut InsertSession) -> Result<Document, StoreError> {
    assert_eq!(s.phase, Phase::Releasing);
    match s.step(Event::Released) {
        Action::Finish(r) => r,
        _ => panic!("expected the end"),
    }
}

/// The whole insert path, with `table` standing in for the backing store.
fn run_insert(payload: &serde_json::Value, table: &mut Vec<Document>) -> Result<Document, StoreError> {
    let (mut s, first) = InsertSession::start(payload);
    assert!(matches!(first, Action::Acquire));
    let row = lease_and_insert(&mut s);
    let next_id = table.len() as i64 + 1;
    table.push(Document::new(next_id, row.external_id.clone(), row.payload.clone()));
    let fetched: Vec<Document> =
        table.iter().filter(|d| d.external_id == row.external_id).cloned().collect();
    assert!(matches!(s.step(Event::Fetched(fetched)), Action::Release));
    release_and_finish(&mut s)
}

#[test]
fn begin_keeps_payload_and_generates_id() {
    let (s, a) = InsertSession::begin("{\"a\":1}".to_string());
    assert!(matches!(a, Action::Acquire));
    assert_eq!(s.phase, Phase::Acquiring);
    assert_eq!(s.row.payload, "{\"a\":1}");
    assert_eq!(s.row.external_id.len(), 36);
    assert!(check_external_id(&s.row.external_id));
}

#[test]
fn identical_payloads_get_distinct_documents() {
    let payload = parse("{\"a\":1}");
    let mut table = Vec::new();
    let d1 = run_insert(&payload, &mut table).unwrap();
    let d2 = run_insert(&payload, &mut table).unwrap();
    assert_ne!(d1.external_id, d2.external_id);
    assert_ne!(d1.internal_id, d2.internal_id);
    assert_eq!(table.len(), 2);
}

#[test]
fn insert_then_reload_scenario() {
    let mut table = vec![Document::new(1, SAMPLE_ID.to_string(), "[1,2]".to_string())];
    let d = run_insert(&parse("{\"a\":1}"), &mut table).unwrap();
    assert_eq!(d.decode_payload().unwrap(), parse("{\"a\":1}"));
    assert_eq!(d.internal_id, 2);
    let by_id: Vec<&Document> = table.iter().filter(|r| r.external_id == d.external_id).collect();
    assert_eq!(by_id.len(), 1);
    assert_eq!(by_id[0].payload, d.payload);
}

#[test]
fn round_trip_of_several_payloads() {
    let texts = [
        "null",
        "true",
        "-17",
        "\"text with \\\"quotes\\\" and \\u00e9\"",
        "[1,[2,[3,{}]],\"x\"]",
        "{\"nested\":{\"list\":[1,2,3],\"flag\":false},\"s\":\"v\"}",
    ];
    let mut table = Vec::new();
    for t in texts.iter() {
        let p = parse(t);
        let d = run_insert(&p, &mut table).unwrap();
        assert_eq!(d.decode_payload().unwrap(), p);
    }
}

#[test]
fn write_failure_releases_the_lease() {
    let (mut s, _) = InsertSession::begin("{}".to_string());
    assert!(matches!(s.step(Event::Leased), Action::Insert(_)));
    assert!(matches!(s.step(Event::InsertFailed), Action::Release));
    assert_eq!(release_and_finish(&mut s).unwrap_err(), StoreError::WriteError);
    assert_eq!(s.phase, Phase::Done);
}

#[test]
fn zero_rows_written_is_a_write_error() {
    let (mut s, _) = InsertSession::begin("{}".to_string());
    s.step(Event::Leased);
    assert!(matches!(s.step(Event::Inserted(0)), Action::Release));
    assert_eq!(release_and_finish(&mut s).unwrap_err(), StoreError::WriteError);
}

#[test]
fn lease_timeout_is_pool_exhausted() {
    let (mut s, _) = InsertSession::begin("{}".to_string());
    match s.step(Event::LeaseFailed(AcquireFailure::TimedOut)) {
        Action::Finish(r) => assert_eq!(r.unwrap_err(), StoreError::PoolExhausted),
        _ => panic!("expected the end"),
    }
    assert_eq!(s.phase, Phase::Done);
}

#[test]
fn closed_pool_is_pool_closed() {
    let (mut s, _) = InsertSession::begin("{}".to_string());
    match s.step(Event::LeaseFailed(AcquireFailure::Closed)) {
        Action::Finish(r) => assert_eq!(r.unwrap_err(), StoreError::PoolClosed),
        _ => panic!("expected the end"),
    }
}

#[test]
fn failed_fetch_is_read_back_error() {
    let (mut s, _) = InsertSession::begin("{}".to_string());
    lease_and_insert(&mut s);
    assert!(matches!(s.step(Event::FetchFailed), Action::Release));
    assert_eq!(release_and_finish(&mut s).unwrap_err(), StoreError::ReadBackError);
}

#[test]
fn missing_row_is_read_back_error() {
    let (mut s, _) = InsertSession::begin("{}".to_string());
    lease_and_insert(&mut s);
    assert!(matches!(s.step(Event::Fetched(Vec::new())), Action::Release));
    assert_eq!(release_and_finish(&mut s).unwrap_err(), StoreError::ReadBackError);
}

#[test]
fn accepts_follows_the_phase() {
    let (mut s, _) = InsertSession::begin("{}".to_string());
    assert!(s.accepts(&Event::Leased));
    assert!(!s.accepts(&Event::Released));
    s.step(Event::Leased);
    assert!(s.accepts(&Event::InsertFailed));
    assert!(!s.accepts(&Event::Leased));
    s.step(Event::InsertFailed);
    assert!(s.accepts(&Event::Released));
    s.step(Event::Released);
    assert!(!s.accepts(&Event::Released));
}

#[test]
fn select_picks_the_row_with_the_id() {
    let row = NewDocument::new(SAMPLE_ID.to_string(), "{\"a\":1}".to_string());
    let other = "00000000-0000-4000-8000-000000000000".to_string();
    let rows = vec![
        Document::new(3, other.clone(), "{\"a\":1}".to_string()),
        Document::new(4, SAMPLE_ID.to_string(), "{\"a\":1}".to_string()),
        Document::new(5, other, "2".to_string()),
    ];
    let d = select_stored(&row, &rows).unwrap();
    assert_eq!(d.internal_id, 4);
    assert_eq!(d.external_id, SAMPLE_ID);
}

#[test]
fn select_refuses_a_shared_id() {
    let row = NewDocument::new(SAMPLE_ID.to_string(), "{}".to_string());
    let rows = vec![
        Document::new(1, SAMPLE_ID.to_string(), "{}".to_string()),
        Document::new(2, SAMPLE_ID.to_string(), "{}".to_string()),
    ];
    assert_eq!(select_stored(&row, &rows).unwrap_err(), StoreError::ReadBackError);
}

#[test]
fn select_refuses_a_changed_payload() {
    let row = NewDocument::new(SAMPLE_ID.to_string(), "{\"a\":1}".to_string());
    let rows = vec![Document::new(1, SAMPLE_ID.to_string(), "{\"a\":2}".to_string())];
    assert_eq!(select_stored(&row, &rows).unwrap_err(), StoreError::ReadBackError);
}

#[test]
fn json_text_of_a_document() {
    let d = Document::new(42, SAMPLE_ID.to_string(), "{\"a\":1}".to_string());
    assert_eq!(
        d.to_json_text().unwrap(),
        "{\"internal_id\":42,\"external_id\":\"123e4567-e89b-42d3-a456-426614174000\",\"payload\":{\"a\":1}}"
    );
    let v = parse(&d.to_json_text().unwrap());
    assert_eq!(v["payload"], parse("{\"a\":1}"));
    assert_eq!(v["internal_id"], parse("42"));
}

#[test]
fn json_text_of_extreme_ids() {
    let d = Document::new(i64::MIN, SAMPLE_ID.to_string(), "0".to_string());
    assert_eq!(
        d.to_json_text().unwrap(),
        "{\"internal_id\":-9223372036854775808,\"external_id\":\"123e4567-e89b-42d3-a456-426614174000\",\"payload\":0}"
    );
    let d = Document::new(0, SAMPLE_ID.to_string(), "[]".to_string());
    assert!(d.to_json_text().unwrap().starts_with("{\"internal_id\":0,"));
}

#[test]
fn json_text_refuses_a_foreign_row() {
    let bad_id = Document::new(1, "not-an-id".to_string(), "{}".to_string());
    assert_eq!(bad_id.to_json_text().unwrap_err(), StoreError::ReadBackError);
    let bad_payload = Document::new(1, SAMPLE_ID.to_string(), "{a:1}".to_string());
    assert_eq!(bad_payload.to_json_text().unwrap_err(), StoreError::ReadBackError);
    assert_eq!(bad_payload.decode_payload().unwrap_err(), StoreError::ReadBackError);
}

#[test]
fn external_id_form() {
    assert!(check_external_id(SAMPLE_ID));
    assert!(!check_external_id("123E4567-e89b-42d3-a456-426614174000"));
    assert!(!check_external_id("123e4567-e89b-12d3-a456-426614174000"));
    assert!(!check_external_id("123e4567e89b42d3a456426614174000"));
    assert!(!check_external_id(""));
}

#[test]
fn start_stores_compact_json() {
    let v = parse("{ \"a\" : [ 1 , 2 ] }");
    let (s, _) = InsertSession::start(&v);
    assert_eq!(s.row.payload, "{\"a\":[1,2]}");
}

#[test]
fn pool_settings_checks() {
    let p = PoolSettings::new("postgres://localhost/db".to_string(), 4, 500).unwrap();
    assert_eq!(p.max_size, 4);
    assert_eq!(p.wait_millis, 500);
    assert_eq!(
        PoolSettings::new(String::new(), 4, 500).err(),
        Some(StoreError::ConfigurationError)
    );
    assert_eq!(
        PoolSettings::new("x".to_string(), 0, 500).err(),
        Some(StoreError::ConfigurationError)
    );
    assert_eq!(
        PoolSettings::new("x".to_string(), 1, 0).err(),
        Some(StoreError::ConfigurationError)
    );
}
