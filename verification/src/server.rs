use vstd::prelude::*;

verus! {

/// The greeting that the desktop shell shows for a name.
pub open spec fn greeting(name: Seq<char>) -> Seq<char> {
    "Hello, "@ + name + "! You've been greeted from Rust!"@
}

/// Greets `name`; the command never fails.
pub fn greet(name: &str) -> (r: Result<String, String>)
    ensures
        r matches Ok(s) && s@ == greeting(name@),
{
    let mut s = String::new();
    s.append("Hello, ");
    s.append(name);
    s.append("! You've been greeted from Rust!");
    Ok(s)
}

/// The greeting of a name is `Hello, `, the whole name, and `! You've been greeted
/// from Rust!`, character for character.
pub proof fn lemma_greeting_holds_name(name: Seq<char>)
    ensures
        greeting(name).len() == name.len() + 39,
        greeting(name).subrange(0, 7) == seq!['H', 'e', 'l', 'l', 'o', ',', ' '],
        greeting(name).subrange(7, 7 + name.len() as int) == name,
        greeting(name).subrange(7 + name.len() as int, 39 + name.len() as int) == seq!['!', ' ', 'Y', 'o', 'u', '\'', 'v', 'e', ' ', 'b', 'e', 'e', 'n', ' ', 'g', 'r', 'e', 'e', 't', 'e', 'd', ' ', 'f', 'r', 'o', 'm', ' ', 'R', 'u', 's', 't', '!'],
{
    reveal_strlit("Hello, ");
    reveal_strlit("! You've been greeted from Rust!");
    let g = greeting(name);
    assert(g.subrange(0, 7) =~= seq!['H', 'e', 'l', 'l', 'o', ',', ' ']);
    assert(g.subrange(7, 7 + name.len() as int) =~= name);
    assert(g.subrange(7 + name.len() as int, 39 + name.len() as int) =~= seq!['!', ' ', 'Y', 'o', 'u', '\'', 'v', 'e', ' ', 'b', 'e', 'e', 'n', ' ', 'g', 'r', 'e', 'e', 't', 'e', 'd', ' ', 'f', 'r', 'o', 'm', ' ', 'R', 'u', 's', 't', '!']);
}

/// What the websocket server reads from a connection.
#[derive(Debug, PartialEq, Eq)]
pub enum WsInput {
    /// A text message.
    Text(String),
    /// A close frame.
    Close,
    /// Any other message: binary data, ping, pong or a raw frame.
    Other,
    /// The read failed.
    ReadError,
}

/// The value of a `WsInput`, the text taken as a character sequence.
pub enum WsInputView {
    Text(Seq<char>),
    Close,
    Other,
    ReadError,
}

impl View for WsInput {
    type V = WsInputView;

    open spec fn view(&self) -> WsInputView {
        match self {
            WsInput::Text(s) => WsInputView::Text(s@),
            WsInput::Close => WsInputView::Close,
            WsInput::Other => WsInputView::Other,
            WsInput::ReadError => WsInputView::ReadError,
        }
    }
}

/// What the websocket server does in answer.
#[derive(PartialEq, Eq, Structural, Clone, Copy, Debug)]
pub enum WsReply {
    /// Send the greeting text back.
    SendGreeting,
    /// Send a close frame back.
    SendClose,
    /// Report that reading failed.
    ReportReadError,
    /// Do nothing.
    Nothing,
}

/// The text that the websocket server sends in answer to every text message.
pub const WS_GREETING: &'static str = "Hello from Tauri WebSocket!";

/// The answer to one input, and whether the connection ends after it: a text is
/// answered by the greeting, a close frame by a close frame after which the connection
/// ends, a failed read is reported, and anything else is ignored.
pub open spec fn ws_answer(input: WsInputView) -> (WsReply, bool) {
    match input {
        WsInputView::Text(_) => (WsReply::SendGreeting, false),
        WsInputView::Close => (WsReply::SendClose, true),
        WsInputView::Other => (WsReply::Nothing, false),
        WsInputView::ReadError => (WsReply::ReportReadError, false),
    }
}

/// The answer of the websocket server to what it read, and whether it then stops
/// serving the connection (see `ws_answer`).
pub fn answer_ws(input: &WsInput) -> (r: (WsReply, bool))
    ensures
        r == ws_answer(input@),
        input is Text ==> r == (WsReply::SendGreeting, false),
        input is Close ==> r == (WsReply::SendClose, true),
        input is Other ==> r == (WsReply::Nothing, false),
        input is ReadError ==> r == (WsReply::ReportReadError, false),
{
    match input {
        WsInput::Text(_) => (WsReply::SendGreeting, false),
        WsInput::Close => (WsReply::SendClose, true),
        WsInput::Other => (WsReply::Nothing, false),
        WsInput::ReadError => (WsReply::ReportReadError, false),
    }
}

/// The answers that a connection gets for what it sends, in order, up to and including
/// the answer to the first close frame.
pub open spec fn ws_session(inputs: Seq<WsInputView>) -> Seq<WsReply>
    decreases inputs.len(),
{
    if inputs.len() == 0 {
        seq![]
    } else if ws_answer(inputs[0]).1 {
        seq![ws_answer(inputs[0]).0]
    } else {
        seq![ws_answer(inputs[0]).0] + ws_session(inputs.drop_first())
    }
}

/// How a session goes on: a text is answered by the greeting and the session goes on,
/// whatever the text says; a close frame is answered by a close frame and ends the
/// session; a failed read is reported and the session goes on; any other input gets
/// no answer and the session goes on; and nothing is answered before anything is read.
pub proof fn lemma_session_steps(input: WsInputView, rest: Seq<WsInputView>)
    ensures
        ws_session(Seq::<WsInputView>::empty()) == Seq::<WsReply>::empty(),
        input is Text ==> ws_session(seq![input] + rest) == seq![WsReply::SendGreeting]
            + ws_session(rest),
        input is Close ==> ws_session(seq![input] + rest) == seq![WsReply::SendClose],
        input is ReadError ==> ws_session(seq![input] + rest) == seq![WsReply::ReportReadError]
            + ws_session(rest),
        input is Other ==> ws_session(seq![input] + rest) == seq![WsReply::Nothing] + ws_session(
            rest,
        ),
{
    let all = seq![input] + rest;
    assert(all[0] == input);
    assert(all.drop_first() =~= rest);
}

/// Whether two inputs are of the same kind; two texts are, whatever they say.
pub open spec fn same_kind(a: WsInputView, b: WsInputView) -> bool {
    match (a, b) {
        (WsInputView::Text(_), WsInputView::Text(_)) => true,
        _ => a == b,
    }
}

/// The answers of a connection do not depend on what its text messages say: two
/// connections that send inputs of the same kinds, one for one, get the same answers.
pub proof fn lemma_session_ignores_text(a: Seq<WsInputView>, b: Seq<WsInputView>)
    requires
        a.len() == b.len(),
        forall|i: int| 0 <= i < a.len() ==> same_kind(#[trigger] a[i], b[i]),
    ensures
        ws_session(a) == ws_session(b),
    decreases a.len(),
{
    if a.len() > 0 {
        assert(ws_answer(a[0]) == ws_answer(b[0]));
        lemma_session_ignores_text(a.drop_first(), b.drop_first());
    }
}

/// The inputs without the failed reads.
pub open spec fn without_read_errors(inputs: Seq<WsInputView>) -> Seq<WsInputView>
    decreases inputs.len(),
{
    if inputs.len() == 0 {
        seq![]
    } else if inputs[0] is ReadError {
        without_read_errors(inputs.drop_first())
    } else {
        seq![inputs[0]] + without_read_errors(inputs.drop_first())
    }
}

/// The answers without the reports of failed reads.
pub open spec fn without_read_reports(replies: Seq<WsReply>) -> Seq<WsReply>
    decreases replies.len(),
{
    if replies.len() == 0 {
        seq![]
    } else if replies[0] == WsReply::ReportReadError {
        without_read_reports(replies.drop_first())
    } else {
        seq![replies[0]] + without_read_reports(replies.drop_first())
    }
}

/// A failed read only adds its report: leaving the failed reads out of what a
/// connection sends leaves exactly the reports of them out of its answers, and the
/// connection goes on with the next input.
pub proof fn lemma_session_skips_read_errors(inputs: Seq<WsInputView>)
    ensures
        without_read_reports(ws_session(inputs)) == ws_session(without_read_errors(inputs)),
    decreases inputs.len(),
{
    if inputs.len() > 0 {
        lemma_session_skips_read_errors(inputs.drop_first());
        let rest = ws_session(inputs.drop_first());
        let (r, stop) = ws_answer(inputs[0]);
        if stop {
            assert(without_read_reports(seq![r]) == seq![r] + without_read_reports(seq![r].drop_first()));
            assert(seq![r].drop_first() =~= Seq::<WsReply>::empty());
            let w = without_read_errors(inputs);
            assert(w == seq![inputs[0]] + without_read_errors(inputs.drop_first()));
            assert(w[0] == inputs[0]);
            assert(ws_session(w) =~= seq![r]);
        } else {
            let s = ws_session(inputs);
            assert(s == seq![r] + rest);
            assert(s.drop_first() =~= rest);
            assert(s[0] == r);
            if inputs[0] is ReadError {
                assert(without_read_reports(s) == without_read_reports(rest));
            } else {
                let w = without_read_errors(inputs);
                assert(w == seq![inputs[0]] + without_read_errors(inputs.drop_first()));
                assert(w[0] == inputs[0]);
                assert(w.drop_first() =~= without_read_errors(inputs.drop_first()));
                assert(without_read_reports(s) == seq![r] + without_read_reports(rest));
            }
        }
    }
}

/// The size of the buffer into which the echo server reads.
pub const ECHO_BUFFER_SIZE: usize = 1024;

/// What the echo server writes back after reading `n` bytes into `buf`: exactly
/// those bytes.
pub fn echo_reply(buf: &[u8], n: usize) -> (r: Vec<u8>)
    requires
        n <= buf@.len(),
    ensures
        r@ == buf@.take(n as int),
{
    let mut out: Vec<u8> = Vec::new();
    let mut i: usize = 0;
    while i < n
        invariant
            i <= n,
            n <= buf@.len(),
            out@ == buf@.take(i as int),
        decreases n - i,
    {
        out.push(buf[i]);
        assert(buf@.take(i + 1) =~= buf@.take(i as int).push(buf@[i as int]));
        i = i + 1;
    }
    out
}

} // verus!
