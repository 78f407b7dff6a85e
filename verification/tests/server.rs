use rdev_poc::server::{answer_ws, echo_reply, greet, WsInput, WsReply, ECHO_BUFFER_SIZE, WS_GREETING};

#[test]
fn greet_greets() {
    assert_eq!(greet("Ada"), Ok("Hello, Ada! You've been greeted from Rust!".to_string()));
    assert_eq!(greet(""), Ok("Hello, ! You've been greeted from Rust!".to_string()));
}

#[test]
fn websocket_answers() {
    assert_eq!(answer_ws(&WsInput::Text("hi".to_string())), (WsReply::SendGreeting, false));
    assert_eq!(answer_ws(&WsInput::Text(String::new())), (WsReply::SendGreeting, false));
    assert_eq!(answer_ws(&WsInput::Close), (WsReply::SendClose, true));
    assert_eq!(answer_ws(&WsInput::Other), (WsReply::Nothing, false));
    assert_eq!(answer_ws(&WsInput::ReadError), (WsReply::ReportReadError, false));
    assert_eq!(WS_GREETING, "Hello from Tauri WebSocket!");
}

#[test]
fn echo_returns_what_was_read() {
    let mut buf = vec![0u8; ECHO_BUFFER_SIZE];
    buf[..5].copy_from_slice(b"hello");
    assert_eq!(echo_reply(&buf, 5), b"hello".to_vec());
    assert_eq!(echo_reply(&buf, 0), Vec::<u8>::new());
    assert_eq!(echo_reply(&buf, ECHO_BUFFER_SIZE).len(), ECHO_BUFFER_SIZE);
}

fn session(inputs: &[WsInput]) -> Vec<WsReply> {
    let mut out = Vec::new();
    for i in inputs {
        let (r, stop) = answer_ws(i);
        out.push(r);
        if stop {
            break;
        }
    }
    out
}

#[test]
fn websocket_session_ignores_text_and_skips_read_errors() {
    let a = [
        WsInput::Text("one".to_string()),
        WsInput::ReadError,
        WsInput::Other,
        WsInput::Text("two".to_string()),
        WsInput::Close,
        WsInput::Text("after close".to_string()),
    ];
    let b = [
        WsInput::Text("x".to_string()),
        WsInput::ReadError,
        WsInput::Other,
        WsInput::Text("".to_string()),
        WsInput::Close,
        WsInput::Text("y".to_string()),
    ];
    assert_eq!(session(&a), session(&b));
    assert_eq!(
        session(&a),
        vec![
            WsReply::SendGreeting,
            WsReply::ReportReadError,
            WsReply::Nothing,
            WsReply::SendGreeting,
            WsReply::SendClose
        ]
    );
    let without: Vec<WsReply> =
        session(&a).into_iter().filter(|r| *r != WsReply::ReportReadError).collect();
    let a_clean = [
        WsInput::Text("one".to_string()),
        WsInput::Other,
        WsInput::Text("two".to_string()),
        WsInput::Close,
    ];
    assert_eq!(without, session(&a_clean));
}
