use rdev_poc::report::KeyEventRecord;

fn expected(r: &KeyEventRecord) -> String {
    let mut time = serde_json::Map::new();
    time.insert("secs_since_epoch".to_string(), serde_json::Value::from(r.time_secs));
    time.insert("nanos_since_epoch".to_string(), serde_json::Value::from(r.time_nanos));
    let mut m = serde_json::Map::new();
    m.insert(
        "event".to_string(),
        serde_json::Value::String(r.name.clone().unwrap()),
    );
    m.insert("event_time".to_string(), serde_json::Value::Object(time));
    m.insert("event_type".to_string(), serde_json::Value::String(r.event_type.clone()));
    m.insert(
        "timestamp_local".to_string(),
        serde_json::Value::String(r.timestamp_local.clone()),
    );
    m.insert("timestamp_utc".to_string(), serde_json::Value::String(r.timestamp_utc.clone()));
    m.insert("uuid".to_string(), serde_json::Value::String(r.uuid.clone()));
    serde_json::Value::Object(m).to_string()
}

fn rec(name: &str, secs: u64, nanos: u32) -> KeyEventRecord {
    KeyEventRecord {
        name: Some(name.to_string()),
        time_secs: secs,
        time_nanos: nanos,
        event_type: "KeyPress(KeyA)".to_string(),
        timestamp_local: "2024-05-01T10:00:00.123456789+02:00".to_string(),
        timestamp_utc: "2024-05-01T08:00:00.123456789+00:00".to_string(),
        uuid: "67e55044-10b1-426f-9247-bb680e5fe0c8".to_string(),
    }
}

#[test]
fn report_exact_text() {
    let r = KeyEventRecord {
        name: Some("a".to_string()),
        time_secs: 1700000000,
        time_nanos: 5,
        event_type: "KeyPress(KeyA)".to_string(),
        timestamp_local: "L".to_string(),
        timestamp_utc: "U".to_string(),
        uuid: "X".to_string(),
    };
    assert_eq!(
        r.to_json().unwrap(),
        "{\"event\":\"a\",\"event_time\":{\"nanos_since_epoch\":5,\"secs_since_epoch\":1700000000},\"event_type\":\"KeyPress(KeyA)\",\"timestamp_local\":\"L\",\"timestamp_utc\":\"U\",\"uuid\":\"X\"}"
    );
}

#[test]
fn report_matches_serde_json() {
    for (name, secs, nanos) in [
        ("a", 0u64, 0u32),
        ("Z", 9, 10),
        ("\"", 1234567890123, 999999999),
        ("\\", u64::MAX, u32::MAX),
        ("\n\r\t\u{8}\u{c}\u{1}\u{1f}\u{7f}", 42, 7),
        ("é€😀", 100, 1000),
        ("", 10, 99),
    ] {
        let r = rec(name, secs, nanos);
        assert_eq!(r.to_json().unwrap(), expected(&r), "{:?}", name);
    }
}

#[test]
fn report_escapes_control_characters_in_lower_case_hex() {
    let r = rec("\u{1b}\u{1f}", 1, 1);
    assert!(r.to_json().unwrap().starts_with("{\"event\":\"\\u001b\\u001f\""));
}

#[test]
fn report_of_event_without_text_is_none() {
    let mut r = rec("a", 1, 1);
    r.name = None;
    assert!(r.to_json().is_none());
}

#[test]
fn report_parses_back() {
    let r = rec("x\"y", 77, 88);
    let v: serde_json::Value = serde_json::from_str(&r.to_json().unwrap()).unwrap();
    assert_eq!(v["event"], "x\"y");
    assert_eq!(v["event_time"]["secs_since_epoch"], 77);
    assert_eq!(v["event_time"]["nanos_since_epoch"], 88);
    assert_eq!(v["uuid"], "67e55044-10b1-426f-9247-bb680e5fe0c8");
}
