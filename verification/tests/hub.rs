use rdev_poc::hub::{read_message, Registry, AUTH_CODE};
use rdev_poc::json::Field;
use rdev_poc::keyboard::{get_keys_map, Key, KeyEvent, TargetOs};
use rdev_poc::report::KeyEventRecord;
use rdev_poc::typing::Action;

fn message(t: &str, d: &str) -> String {
    let mut m = serde_json::Map::new();
    m.insert("type".to_string(), serde_json::Value::String(t.to_string()));
    m.insert("data".to_string(), serde_json::Value::String(d.to_string()));
    serde_json::Value::Object(m).to_string()
}

fn record(name: Option<&str>) -> KeyEventRecord {
    KeyEventRecord {
        name: name.map(|s| s.to_string()),
        time_secs: 1,
        time_nanos: 2,
        event_type: "KeyPress(KeyA)".to_string(),
        timestamp_local: "l".to_string(),
        timestamp_utc: "u".to_string(),
        uuid: "id".to_string(),
    }
}

fn sorted(mut v: Vec<u64>) -> Vec<u64> {
    v.sort();
    v
}

#[test]
fn auth_with_the_code_lets_the_client_in() {
    let keys = get_keys_map();
    let mut r: Registry<&str> = Registry::new();
    r.connect(7, "seven");
    assert!(r.recipients().is_empty());
    let actions = r.handle_text(7, &message("auth", AUTH_CODE), &keys, TargetOs::MacOs);
    assert_eq!(
        actions,
        vec![Action::Authenticated(7), Action::EnterTypeBlock, Action::LeaveTypeBlock]
    );
    assert_eq!(r.recipients(), vec![7]);
}

#[test]
fn auth_with_a_wrong_code_is_refused() {
    let keys = get_keys_map();
    let mut r: Registry<&str> = Registry::new();
    r.connect(7, "seven");
    let actions = r.handle_text(7, &message("auth", "letmein"), &keys, TargetOs::MacOs);
    assert_eq!(actions, vec![Action::EnterTypeBlock, Action::LeaveTypeBlock]);
    assert!(r.recipients().is_empty());
}

#[test]
fn malformed_message_is_reported_and_changes_nothing() {
    let keys = get_keys_map();
    let mut r: Registry<&str> = Registry::new();
    r.connect(1, "one");
    for text in ["not json", "[1, 2]", "\"auth\"", "{\"type\": "] {
        let actions = r.handle_text(1, text, &keys, TargetOs::MacOs);
        assert_eq!(actions.len(), 1);
        assert!(matches!(actions[0], Action::ReportParseError(_)));
    }
    assert!(r.recipients().is_empty());
}

#[test]
fn message_without_string_data_does_nothing() {
    let keys = get_keys_map();
    let mut r: Registry<&str> = Registry::new();
    for text in [
        "{}",
        "{\"type\":\"write_sequence\"}",
        "{\"type\":\"write_sequence\",\"data\":5}",
        "{\"data\":\"abc\"}",
    ] {
        assert!(r.handle_text(1, text, &keys, TargetOs::MacOs).is_empty(), "{}", text);
    }
}

#[test]
fn message_with_non_string_type_only_toggles_the_flag() {
    let keys = get_keys_map();
    let mut r: Registry<&str> = Registry::new();
    let actions = r.handle_text(1, "{\"type\":null,\"data\":\"x\"}", &keys, TargetOs::MacOs);
    assert_eq!(actions, vec![Action::EnterTypeBlock, Action::LeaveTypeBlock]);
    let actions = r.handle_text(1, "{\"type\":\"unknown\",\"data\":\"x\"}", &keys, TargetOs::MacOs);
    assert_eq!(actions, vec![Action::EnterTypeBlock, Action::LeaveTypeBlock]);
}

#[test]
fn write_sequence_types_the_text() {
    let keys = get_keys_map();
    let mut r: Registry<&str> = Registry::new();
    let actions = r.handle_text(1, &message("write_sequence", "Hi!"), &keys, TargetOs::MacOs);
    assert_eq!(
        actions,
        vec![
            Action::EnterTypeBlock,
            Action::TypeText("Hi!".to_string()),
            Action::LeaveTypeBlock
        ]
    );
}

#[test]
fn paste_text_via_clipboard_sets_and_pastes() {
    let keys = get_keys_map();
    let mut r: Registry<&str> = Registry::new();
    let actions =
        r.handle_text(1, &message("paste_text_via_clipboard", "clip"), &keys, TargetOs::LinuxOrWindows);
    assert_eq!(
        actions,
        vec![
            Action::EnterTypeBlock,
            Action::SetClipboard("clip".to_string()),
            Action::Simulate(KeyEvent::Press(Key::ControlLeft)),
            Action::Simulate(KeyEvent::Press(Key::KeyV)),
            Action::Simulate(KeyEvent::Release(Key::KeyV)),
            Action::Simulate(KeyEvent::Release(Key::ControlLeft)),
            Action::LeaveTypeBlock
        ]
    );
    let actions = r.handle_text(1, &message("paste_text_via_clipboard", "clip"), &keys, TargetOs::Other);
    assert_eq!(
        actions,
        vec![
            Action::EnterTypeBlock,
            Action::SetClipboard("clip".to_string()),
            Action::LeaveTypeBlock
        ]
    );
}

#[test]
fn set_text_in_clipboard_only_sets() {
    let keys = get_keys_map();
    let mut r: Registry<&str> = Registry::new();
    let actions = r.handle_text(1, &message("set_text_in_clipboard", "x y"), &keys, TargetOs::MacOs);
    assert_eq!(
        actions,
        vec![
            Action::EnterTypeBlock,
            Action::SetClipboard("x y".to_string()),
            Action::LeaveTypeBlock
        ]
    );
}

#[test]
fn type_characters_one_by_one_message() {
    let keys = get_keys_map();
    let mut r: Registry<&str> = Registry::new();
    let actions =
        r.handle_text(1, &message("type_characters_one_by_one", "Ok?"), &keys, TargetOs::MacOs);
    assert_eq!(
        actions,
        vec![
            Action::EnterTypeBlock,
            Action::Simulate(KeyEvent::Press(Key::ShiftLeft)),
            Action::Simulate(KeyEvent::Press(Key::KeyO)),
            Action::Simulate(KeyEvent::Release(Key::ShiftLeft)),
            Action::Simulate(KeyEvent::Press(Key::KeyK)),
            Action::TypeChar('?'),
            Action::LeaveTypeBlock
        ]
    );
}

#[test]
fn handle_fields_answers_parsed_fields() {
    let keys = get_keys_map();
    let mut r: Registry<&str> = Registry::new();
    r.connect(3, "three");
    let actions = r.handle_fields(
        3,
        &Field::Text("auth".to_string()),
        &Field::Text(AUTH_CODE.to_string()),
        &keys,
        TargetOs::MacOs,
    );
    assert_eq!(
        actions,
        vec![Action::Authenticated(3), Action::EnterTypeBlock, Action::LeaveTypeBlock]
    );
    assert_eq!(r.recipients(), vec![3]);
    assert!(r
        .handle_fields(3, &Field::Absent, &Field::Text("x".to_string()), &keys, TargetOs::MacOs)
        .is_empty());
    assert!(r
        .handle_fields(3, &Field::Null, &Field::Number, &keys, TargetOs::MacOs)
        .is_empty());
    assert_eq!(
        r.handle_fields(3, &Field::Bool(true), &Field::Text("x".to_string()), &keys, TargetOs::MacOs),
        vec![Action::EnterTypeBlock, Action::LeaveTypeBlock]
    );
}

#[test]
fn disconnect_revokes_and_reconnect_needs_auth() {
    let keys = get_keys_map();
    let mut r: Registry<&str> = Registry::new();
    r.connect(1, "one");
    r.connect(2, "two");
    r.handle_text(1, &message("auth", AUTH_CODE), &keys, TargetOs::MacOs);
    r.handle_text(2, &message("auth", AUTH_CODE), &keys, TargetOs::MacOs);
    assert_eq!(sorted(r.recipients()), vec![1, 2]);
    r.disconnect(1);
    assert_eq!(r.recipients(), vec![2]);
    assert!(r.responder(1).is_none());
    r.connect(1, "one again");
    assert_eq!(r.recipients(), vec![2]);
    assert_eq!(r.responder(1), Some(&"one again"));
    r.handle_text(1, &message("auth", AUTH_CODE), &keys, TargetOs::MacOs);
    assert_eq!(sorted(r.recipients()), vec![1, 2]);
}

#[test]
fn authenticated_but_unconnected_client_hears_nothing() {
    let keys = get_keys_map();
    let mut r: Registry<&str> = Registry::new();
    r.handle_text(9, &message("auth", AUTH_CODE), &keys, TargetOs::MacOs);
    assert!(r.recipients().is_empty());
    r.connect(9, "nine");
    assert_eq!(r.recipients(), vec![9]);
}

#[test]
fn key_events_are_silenced_while_typing() {
    let keys = get_keys_map();
    let mut r: Registry<&str> = Registry::new();
    r.connect(1, "one");
    r.handle_text(1, &message("auth", AUTH_CODE), &keys, TargetOs::MacOs);
    assert!(r.report_key_event(true, &record(Some("a"))).is_none());
    assert!(r.report_key_event(false, &record(None)).is_none());
    let (msg, ids) = r.report_key_event(false, &record(Some("a"))).unwrap();
    assert_eq!(ids, vec![1]);
    assert_eq!(Some(msg), record(Some("a")).to_json());
}

#[test]
fn key_report_with_no_audience_still_has_a_message() {
    let r: Registry<&str> = Registry::new();
    let (msg, ids) = r.report_key_event(false, &record(Some("a"))).unwrap();
    assert!(ids.is_empty());
    assert!(msg.starts_with("{\"event\":\"a\""));
}

#[test]
fn read_message_reads_type_and_data() {
    assert_eq!(
        read_message("{\"data\":\"d\",\"type\":\"t\"}"),
        Ok((Field::Text("t".to_string()), Field::Text("d".to_string())))
    );
    assert_eq!(
        read_message("{\"type\":null,\"data\":[1]}"),
        Ok((Field::Null, Field::Array))
    );
    assert_eq!(
        read_message("{\"type\":true,\"data\":{\"a\":1}}"),
        Ok((Field::Bool(true), Field::Object))
    );
    assert_eq!(read_message("{\"type\":1.5}"), Ok((Field::Number, Field::Absent)));
    assert_eq!(read_message("{}"), Ok((Field::Absent, Field::Absent)));
    assert_eq!(
        read_message("{\"type\":\"a\",\"type\":\"b\"}"),
        Ok((Field::Text("b".to_string()), Field::Absent))
    );
}

#[test]
fn parse_error_report_carries_the_parser_account() {
    let keys = get_keys_map();
    let mut r: Registry<&str> = Registry::new();
    let text = "{\"type\": ";
    let expected = format!(
        "{:?}",
        serde_json::from_str::<std::collections::HashMap<String, serde_json::Value>>(text)
            .unwrap_err()
    );
    assert_eq!(read_message(text), Err(expected.clone()));
    assert_eq!(
        r.handle_text(1, text, &keys, TargetOs::MacOs),
        vec![Action::ReportParseError(expected)]
    );
}

fn is_v4_uuid(s: &str) -> bool {
    let c: Vec<char> = s.chars().collect();
    c.len() == 36
        && c[8] == '-'
        && c[13] == '-'
        && c[18] == '-'
        && c[23] == '-'
        && c[14] == '4'
        && c.iter().enumerate().all(|(i, ch)| [8, 13, 18, 23].contains(&i) || ch.is_ascii_hexdigit())
}

#[test]
fn observed_key_event_is_stamped_and_reported() {
    let keys = get_keys_map();
    let mut r: Registry<&str> = Registry::new();
    r.connect(4, "four");
    r.handle_text(4, &message("auth", AUTH_CODE), &keys, TargetOs::MacOs);
    assert!(r
        .observe_key_event(true, Some("a".to_string()), 1, 2, "KeyPress(KeyA)".to_string())
        .is_none());
    assert!(r
        .observe_key_event(false, None, 1, 2, "KeyPress(KeyA)".to_string())
        .is_none());
    let (msg, ids) = r
        .observe_key_event(false, Some("a".to_string()), 1, 2, "KeyPress(KeyA)".to_string())
        .unwrap();
    assert_eq!(ids, vec![4]);
    let v: serde_json::Value = serde_json::from_str(&msg).unwrap();
    assert_eq!(v["event"], "a");
    assert_eq!(v["event_time"]["secs_since_epoch"], 1);
    assert_eq!(v["event_time"]["nanos_since_epoch"], 2);
    assert_eq!(v["event_type"], "KeyPress(KeyA)");
    assert!(is_v4_uuid(v["uuid"].as_str().unwrap()));
    assert!(v["timestamp_utc"].as_str().unwrap().ends_with("+00:00"));
    assert!(!v["timestamp_local"].as_str().unwrap().is_empty());
}

fn digits(c: &[char]) -> bool {
    c.iter().all(|d| d.is_ascii_digit())
}

fn is_rfc3339(s: &str) -> bool {
    let c: Vec<char> = s.chars().collect();
    let y = match c.iter().position(|x| *x == 'T') {
        Some(t) if t >= 10 => t - 6,
        _ => return false,
    };
    let year_ok = (y == 4 && digits(&c[0..4]))
        || (y >= 5 && (c[0] == '+' || c[0] == '-') && digits(&c[1..y]));
    let n = c.len();
    if n < y + 21 {
        return false;
    }
    let f = n - y - 21;
    let frac_ok = f == 0 || ([4, 7, 10].contains(&f) && c[y + 15] == '.' && digits(&c[y + 16..y + 15 + f]));
    let o = y + 15 + f;
    year_ok
        && frac_ok
        && c[y] == '-'
        && digits(&c[y + 1..y + 3])
        && c[y + 3] == '-'
        && digits(&c[y + 4..y + 6])
        && digits(&c[y + 7..y + 9])
        && c[y + 9] == ':'
        && digits(&c[y + 10..y + 12])
        && c[y + 12] == ':'
        && digits(&c[y + 13..y + 15])
        && (c[o] == '+' || c[o] == '-')
        && digits(&c[o + 1..o + 3])
        && c[o + 3] == ':'
        && digits(&c[o + 4..o + 6])
}

#[test]
fn captured_timestamps_are_rfc3339() {
    for _ in 0..20 {
        let rec = KeyEventRecord::capture(None, 0, 0, String::new());
        assert!(is_rfc3339(&rec.timestamp_local), "{}", rec.timestamp_local);
        assert!(is_rfc3339(&rec.timestamp_utc), "{}", rec.timestamp_utc);
        assert!(rec.timestamp_utc.ends_with("+00:00"));
    }
    assert!(is_rfc3339("2024-05-01T08:00:00+00:00"));
    assert!(is_rfc3339("2024-05-01T08:00:00.123456789-07:30"));
    assert!(!is_rfc3339("2024-05-01T08:00:00.12+00:00"));
    assert!(!is_rfc3339("2024-05-01 08:00:00+00:00"));
}

#[test]
fn captured_record_keeps_the_event() {
    let rec = KeyEventRecord::capture(Some("x".to_string()), 5, 6, "KeyRelease(KeyX)".to_string());
    assert_eq!(rec.name, Some("x".to_string()));
    assert_eq!((rec.time_secs, rec.time_nanos), (5, 6));
    assert_eq!(rec.event_type, "KeyRelease(KeyX)");
    assert!(is_v4_uuid(&rec.uuid));
    let other = KeyEventRecord::capture(None, 5, 6, String::new());
    assert_ne!(rec.uuid, other.uuid);
}
