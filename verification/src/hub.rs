use std::collections::{HashMap, HashSet};
use crate::json::{json_object, object_field, parse_object_field, Field, JsonValue};
use crate::keyboard::{paste_events, paste_shortcut, KeyEvent, KeysMap, Key, TargetOs};
use crate::report::{ends_in_zero_offset, is_rfc3339_text, is_v4_uuid_text, KeyEventRecord};
use crate::typing::{
    action_views, is_keystroke, lemma_typing_only_keystrokes, type_characters_one_by_one,
    typing_actions, Action, ActionView,
};
use vstd::prelude::*;

verus! {

broadcast use {vstd::std_specs::hash::group_hash_axioms, vstd::string::to_string_from_display_ensures_for_str};

/// The code that a client sends, as the data of an "auth" message, to be let in.
pub const AUTH_CODE: &'static str = "EdbKsUzjFHYNRmTAWqGClcBXgrZivLQhJoMItSbwEPaDnxOpfVuyXerHPksLOhBvXeUfzaCwIyRGtQJmNVblMnsjZdYKFrcPoAigXuhZWq";

/// Whether a field holds exactly the given text.
pub open spec fn field_is(f: Option<JsonValue>, text: Seq<char>) -> bool {
    f == Some(JsonValue::Text(text))
}

/// Whether a message with these "type" and "data" fields lets its client in.
pub open spec fn grants_access(
    t: Option<JsonValue>,
    d: Option<JsonValue>,
) -> bool {
    field_is(t, "auth"@) && field_is(d, AUTH_CODE@)
}

/// The work that a command of the given type does with its data.
pub open spec fn command_body(
    t: Option<JsonValue>,
    data: Seq<char>,
    keys: Map<char, (Key, bool)>,
    os: TargetOs,
) -> Seq<ActionView> {
    if field_is(t, "write_sequence"@) {
        seq![ActionView::TypeText(data)]
    } else if field_is(t, "paste_text_via_clipboard"@) {
        seq![ActionView::SetClipboard(data)] + paste_events(os).map_values(
            |e: KeyEvent| ActionView::Simulate(e),
        )
    } else if field_is(t, "set_text_in_clipboard"@) {
        seq![ActionView::SetClipboard(data)]
    } else if field_is(t, "type_characters_one_by_one"@) {
        typing_actions(keys, data)
    } else {
        seq![]
    }
}

/// The actions that answer a message with the given "type" and "data" fields.
/// A message with a "type" key and a string under "data" is a command: it first lets
/// its client in where it grants access, then raises the typing flag, does the work
/// of its type and lowers the flag again. Any other message does nothing.
pub open spec fn message_actions(
    client: u64,
    t: Option<JsonValue>,
    d: Option<JsonValue>,
    keys: Map<char, (Key, bool)>,
    os: TargetOs,
) -> Seq<ActionView> {
    if t is Some && d matches Some(JsonValue::Text(_)) {
        let data = d->0->Text_0;
        (if grants_access(t, d) {
            seq![ActionView::Authenticated(client)]
        } else {
            seq![]
        }) + seq![ActionView::EnterTypeBlock] + command_body(t, data, keys, os) + seq![
            ActionView::LeaveTypeBlock,
        ]
    } else {
        seq![]
    }
}

/// The "type" and "data" fields of a client message, or the parser's error where the
/// message is no JSON object.
pub open spec fn message_fields(text: Seq<char>) -> Result<
    (Option<JsonValue>, Option<JsonValue>),
    Seq<char>,
> {
    match json_object(text) {
        Ok(object) => Ok((object_field(object, "type"@), object_field(object, "data"@))),
        Err(e) => Err(e),
    }
}

/// Reads the "type" and "data" fields of a client message.
pub fn read_message(text: &str) -> (r: Result<(Field, Field), String>)
    ensures
        match message_fields(text@) {
            Ok((t, d)) => r matches Ok((a, b)) && a@ == t && b@ == d,
            Err(e) => r matches Err(s) && s@ == e,
        },
{
    let t = match parse_object_field(text, "type") {
        Ok(f) => f,
        Err(e) => {
            return Err(e);
        },
    };
    let d = match parse_object_field(text, "data") {
        Ok(f) => f,
        Err(e) => {
            return Err(e);
        },
    };
    Ok((t, d))
}

fn same_text(s: &String, lit: &str) -> (b: bool)
    ensures
        b == (s@ == lit@),
{
    let owned = lit.to_string();
    *s == owned
}

fn field_matches(f: &Field, lit: &str) -> (b: bool)
    ensures
        b == field_is(f@, lit@),
{
    match f {
        Field::Text(s) => same_text(s, lit),
        _ => false,
    }
}

/// The clients of the bridge: the responder of each connected client, and the set
/// of clients that have authenticated.
pub struct Registry<R> {
    clients: HashMap<u64, R>,
    validated: HashSet<u64>,
}

impl<R> Registry<R> {
    /// The responder of each connected client, by client id.
    pub closed spec fn responders(&self) -> Map<u64, R> {
        self.clients@
    }

    /// The ids of the connected clients.
    pub open spec fn connected(&self) -> Set<u64> {
        self.responders().dom()
    }

    /// The ids of the clients that have authenticated.
    pub closed spec fn authenticated(&self) -> Set<u64> {
        self.validated@
    }

    /// The clients that receive key reports: those that are connected and have
    /// authenticated.
    pub open spec fn audience(&self) -> Set<u64> {
        self.connected().intersect(self.authenticated())
    }

    /// A registry without clients.
    pub fn new() -> (r: Self)
        ensures
            r.responders() == Map::<u64, R>::empty(),
            r.authenticated() == Set::<u64>::empty(),
    {
        Registry { clients: HashMap::new(), validated: HashSet::new() }
    }

    /// Records the connection of a client with its responder.
    pub fn connect(&mut self, client: u64, responder: R)
        ensures
            final(self).responders() == old(self).responders().insert(client, responder),
            final(self).authenticated() == old(self).authenticated(),
    {
        self.clients.insert(client, responder);
    }

    /// Forgets a client that has disconnected, and its authentication.
    pub fn disconnect(&mut self, client: u64)
        ensures
            final(self).responders() == old(self).responders().remove(client),
            final(self).authenticated() == old(self).authenticated().remove(client),
    {
        self.clients.remove(&client);
        self.validated.remove(&client);
    }

    /// The responder of a connected client.
    pub fn responder(&self, client: u64) -> (r: Option<&R>)
        ensures
            r matches Some(x) ==> self.responders().contains_key(client) && *x == self.responders()[client],
            r is None ==> !self.responders().contains_key(client),
    {
        self.clients.get(&client)
    }

    /// The clients that receive key reports, each once, in no particular order.
    pub fn recipients(&self) -> (ids: Vec<u64>)
        ensures
            ids@.no_duplicates(),
            ids@.to_set() == self.audience(),
    {
        let mut out: Vec<u64> = Vec::new();
        for id in it: self.clients.keys()
            invariant
                it.seq().unref().to_set() == self.clients@.dom(),
                it.seq().no_duplicates(),
                out@.no_duplicates(),
                forall|x: u64| #[trigger] out@.contains(x) ==> self.audience().contains(x)
                    && (exists|k: int| 0 <= k < it.index() && *it.seq()[k] == x),
                forall|x: u64| #[trigger] self.audience().contains(x) && !out@.contains(x)
                    ==> (exists|k: int| it.index() <= k < it.seq().len() && *it.seq()[k] == x),
        {
            let ghost j = it.index();
            let ghost before = out@;
            assert(it.seq()[j] == id);
            if self.validated.contains(id) {
                assert(!before.contains(*id)) by {
                    if before.contains(*id) {
                        let k = choose|k: int| 0 <= k < j && *it.seq()[k] == *id;
                        assert(it.seq()[k] == it.seq()[j]);
                    }
                }
                out.push(*id);
                assert(before == out@.drop_last());
                assert(out@.contains(*id)) by {
                    assert(out@[out@.len() - 1] == *id);
                }
            }
            assert forall|x: u64| #[trigger] out@.contains(x) implies self.audience().contains(x)
                && (exists|k: int| 0 <= k < j + 1 && *it.seq()[k] == x) by {
                if x != *id {
                    let i = choose|i: int| 0 <= i < out@.len() && out@[i] == x;
                    assert(before[i] == x);
                    assert(before.contains(x));
                } else {
                    assert(*it.seq()[j] == x);
                }
            }
            assert forall|x: u64| #[trigger] self.audience().contains(x) && !out@.contains(x)
                implies (exists|k: int| j + 1 <= k < it.seq().len() && *it.seq()[k] == x) by {
                if x != *id {
                    if before.contains(x) {
                        let i = choose|i: int| 0 <= i < before.len() && before[i] == x;
                        assert(out@[i] == x);
                    }
                    let k = choose|k: int| j <= k < it.seq().len() && *it.seq()[k] == x;
                    assert(k != j);
                }
            }
        }
        assert(out@.to_set() =~= self.audience());
        out
    }

    /// Answers a client message whose "type" and "data" fields are `t` and `d`: lets
    /// the client in where the message grants access, and lists the actions of the
    /// message (see `message_actions`).
    pub fn handle_fields(
        &mut self,
        client: u64,
        t: &Field,
        d: &Field,
        keys: &KeysMap,
        os: TargetOs,
    ) -> (actions: Vec<Action>)
        ensures
            final(self).responders() == old(self).responders(),
            final(self).authenticated() == (if grants_access(t@, d@) {
                old(self).authenticated().insert(client)
            } else {
                old(self).authenticated()
            }),
            action_views(actions@) == message_actions(client, t@, d@, keys@, os),
    {
        let mut out: Vec<Action> = Vec::new();
        if let Field::Absent = t {
            assert(action_views(out@) =~= message_actions(client, t@, d@, keys@, os));
            return out;
        }
        let data = match d {
            Field::Text(data) => data,
            _ => {
                assert(action_views(out@) =~= message_actions(client, t@, d@, keys@, os));
                return out;
            },
        };
        if field_matches(t, "auth") && same_text(data, AUTH_CODE) {
            self.validated.insert(client);
            out.push(Action::Authenticated(client));
        }
        let ghost head = out@;
        assert(action_views(head) =~= (if grants_access(t@, d@) {
            seq![ActionView::Authenticated(client)]
        } else {
            seq![]
        }));
        out.push(Action::EnterTypeBlock);
        let ghost opened = out@;
        assert(action_views(opened) =~= action_views(head).push(ActionView::EnterTypeBlock));
        if field_matches(t, "write_sequence") {
            out.push(Action::TypeText(data.clone()));
        } else if field_matches(t, "paste_text_via_clipboard") {
            out.push(Action::SetClipboard(data.clone()));
            let events = paste_shortcut(os);
            let ghost start = out@;
            let mut i: usize = 0;
            while i < events.len()
                invariant
                    i <= events.len(),
                    events@ == paste_events(os),
                    action_views(out@) == action_views(start) + events@.take(i as int).map_values(
                        |e: KeyEvent| ActionView::Simulate(e),
                    ),
                decreases events.len() - i,
            {
                let ghost prev = out@;
                out.push(Action::Simulate(events[i]));
                assert(action_views(out@) =~= action_views(prev).push(ActionView::Simulate(events@[i as int])));
                assert(events@.take(i + 1) =~= events@.take(i as int).push(events@[i as int]));
                assert(action_views(out@) =~= action_views(start) + events@.take(i + 1).map_values(
                    |e: KeyEvent| ActionView::Simulate(e),
                ));
                i = i + 1;
            }
            assert(events@.take(events.len() as int) =~= events@);
        } else if field_matches(t, "set_text_in_clipboard") {
            out.push(Action::SetClipboard(data.clone()));
        } else if field_matches(t, "type_characters_one_by_one") {
            let mut typed = type_characters_one_by_one(keys, data.as_str());
            let ghost typed_seq = typed@;
            out.append(&mut typed);
            assert(action_views(out@) =~= action_views(opened) + action_views(typed_seq));
        }
        assert(action_views(out@) =~= action_views(opened) + command_body(t@, data@, keys@, os));
        let ghost body = out@;
        out.push(Action::LeaveTypeBlock);
        assert(action_views(out@) =~= action_views(body).push(ActionView::LeaveTypeBlock));
        assert(action_views(out@) =~= message_actions(client, t@, d@, keys@, os));
        out
    }

    /// Answers a text message of a client: parses it as a JSON object and answers its
    /// "type" and "data" fields as `handle_fields` does; text that is no JSON object
    /// changes nothing and is answered by a report of the parser's error.
    pub fn handle_text(&mut self, client: u64, text: &str, keys: &KeysMap, os: TargetOs) -> (actions: Vec<Action>)
        ensures
            final(self).responders() == old(self).responders(),
            match message_fields(text@) {
                Ok((t, d)) => {
                    &&& final(self).authenticated() == (if grants_access(t, d) {
                        old(self).authenticated().insert(client)
                    } else {
                        old(self).authenticated()
                    })
                    &&& action_views(actions@) == message_actions(client, t, d, keys@, os)
                },
                Err(e) => {
                    &&& final(self).authenticated() == old(self).authenticated()
                    &&& action_views(actions@) == seq![ActionView::ReportParseError(e)]
                },
            },
    {
        match read_message(text) {
            Ok((t, d)) => self.handle_fields(client, &t, &d, keys, os),
            Err(e) => {
                let mut out: Vec<Action> = Vec::new();
                out.push(Action::ReportParseError(e));
                assert(action_views(out@) =~= seq![ActionView::ReportParseError(e@)]);
                out
            },
        }
    }

    /// What becomes of a local key event: nothing while the bridge is typing or when
    /// the event produced no text; otherwise its JSON report and the clients that
    /// receive it, each once.
    pub fn report_key_event(&self, in_type_block: bool, event: &KeyEventRecord) -> (r: Option<(String, Vec<u64>)>)
        ensures
            r is None <==> (in_type_block || event.name is None),
            r matches Some((msg, ids)) ==> {
                &&& event.report() == Some(msg@)
                &&& ids@.no_duplicates()
                &&& ids@.to_set() == self.audience()
            },
    {
        if in_type_block {
            return None;
        }
        match event.to_json() {
            Some(msg) => Some((msg, self.recipients())),
            None => None,
        }
    }

    /// What becomes of a local key event with the given text, time and kind: nothing
    /// while the bridge is typing or when the event produced no text; otherwise the
    /// event is stamped with the current local and UTC times (RFC 3339, the UTC one with
    /// the zero offset) and a fresh random identifier, and its JSON
    /// report goes to the clients that receive reports, each once.
    pub fn observe_key_event(
        &self,
        in_type_block: bool,
        name: Option<String>,
        time_secs: u64,
        time_nanos: u32,
        event_type: String,
    ) -> (r: Option<(String, Vec<u64>)>)
        ensures
            r is None <==> (in_type_block || name is None),
            r matches Some((msg, ids)) ==> {
                &&& exists|rec: KeyEventRecord|
                    {
                        &&& rec.name == name
                        &&& rec.time_secs == time_secs
                        &&& rec.time_nanos == time_nanos
                        &&& rec.event_type == event_type
                        &&& is_rfc3339_text(rec.timestamp_local@)
                        &&& is_rfc3339_text(rec.timestamp_utc@)
                        &&& ends_in_zero_offset(rec.timestamp_utc@)
                        &&& is_v4_uuid_text(rec.uuid@)
                        &&& #[trigger] rec.report() == Some(msg@)
                    }
                &&& ids@.no_duplicates()
                &&& ids@.to_set() == self.audience()
            },
    {
        if in_type_block || name.is_none() {
            return None;
        }
        let rec = KeyEventRecord::capture(name, time_secs, time_nanos, event_type);
        let r = self.report_key_event(false, &rec);
        assert(r is Some);
        r
    }
}

/// A command is bracketed by the typing flag: after the optional admission of its
/// client, its first action raises the flag and its last lowers it, and in between
/// there are only keystrokes, texts to type and clipboard contents, so that the flag
/// stays raised for the whole of the command's work.
pub proof fn lemma_command_bracketed(
    client: u64,
    t: Option<JsonValue>,
    d: Option<JsonValue>,
    keys: Map<char, (Key, bool)>,
    os: TargetOs,
)
    requires
        t is Some,
        d matches Some(JsonValue::Text(_)),
    ensures
        ({
            let a = message_actions(client, t, d, keys, os);
            let k: int = if grants_access(t, d) { 1 } else { 0 };
            &&& grants_access(t, d) ==> a[0] == ActionView::Authenticated(client)
            &&& a.len() >= k + 2
            &&& a[k] == ActionView::EnterTypeBlock
            &&& a[a.len() - 1] == ActionView::LeaveTypeBlock
            &&& forall|i: int|
                k < i < a.len() - 1 ==> is_keystroke(#[trigger] a[i]) || a[i] is TypeText
                    || a[i] is SetClipboard
        }),
{
    let data = d->0->Text_0;
    lemma_typing_only_keystrokes(keys, data);
    let a = message_actions(client, t, d, keys, os);
    let k: int = if grants_access(t, d) { 1 } else { 0 };
    let body = command_body(t, data, keys, os);
    assert forall|i: int| k < i < a.len() - 1 implies is_keystroke(#[trigger] a[i]) || a[i] is TypeText
        || a[i] is SetClipboard by {
        assert(a[i] == body[i - k - 1]);
    }
}

/// A message that lets a client in carries the authentication code as its data.
pub proof fn lemma_access_needs_code(t: Option<JsonValue>, d: Option<JsonValue>)
    requires
        grants_access(t, d),
    ensures
        d == Some(JsonValue::Text(AUTH_CODE@)),
        t == Some(JsonValue::Text("auth"@)),
{
}

/// A client that disconnects loses its authentication: it receives no key reports,
/// and when it connects again it still receives none until it authenticates anew.
pub proof fn lemma_reconnect_needs_auth<R>(
    before: Registry<R>,
    gone: Registry<R>,
    back: Registry<R>,
    client: u64,
    responder: R,
)
    requires
        gone.responders() == before.responders().remove(client),
        gone.authenticated() == before.authenticated().remove(client),
        back.responders() == gone.responders().insert(client, responder),
        back.authenticated() == gone.authenticated(),
    ensures
        !gone.audience().contains(client),
        back.connected().contains(client),
        !back.audience().contains(client),
{
}

/// A connected client that is let in receives key reports from then on.
pub proof fn lemma_admitted_client_hears<R>(before: Registry<R>, after: Registry<R>, client: u64)
    requires
        before.connected().contains(client),
        after.responders() == before.responders(),
        after.authenticated() == before.authenticated().insert(client),
    ensures
        after.audience().contains(client),
        after.audience() == before.audience().insert(client),
{
    assert(after.audience() =~= before.audience().insert(client));
}

/// The commands, each with string data `data` and sent by a client that is not let in
/// by it: "write_sequence" types the data with the layout-aware typist;
/// "paste_text_via_clipboard" puts the data on the clipboard and presses the paste
/// shortcut of the platform the bridge runs on (Command+V on macOS, Control+V on Linux
/// and Windows, nothing elsewhere); "set_text_in_clipboard" only puts the data on the
/// clipboard; "type_characters_one_by_one" types the data one character at a time; each
/// between raising and lowering the typing flag.
pub proof fn lemma_command_table(
    client: u64,
    data: Seq<char>,
    keys: Map<char, (Key, bool)>,
    os: TargetOs,
)
    ensures
        message_actions(
            client,
            Some(JsonValue::Text("write_sequence"@)),
            Some(JsonValue::Text(data)),
            keys,
            os,
        ) == seq![
            ActionView::EnterTypeBlock,
            ActionView::TypeText(data),
            ActionView::LeaveTypeBlock,
        ],
        os == TargetOs::MacOs ==> message_actions(
            client,
            Some(JsonValue::Text("paste_text_via_clipboard"@)),
            Some(JsonValue::Text(data)),
            keys,
            os,
        ) == seq![
            ActionView::EnterTypeBlock,
            ActionView::SetClipboard(data),
            ActionView::Simulate(KeyEvent::Press(Key::MetaLeft)),
            ActionView::Simulate(KeyEvent::Press(Key::KeyV)),
            ActionView::Simulate(KeyEvent::Release(Key::KeyV)),
            ActionView::Simulate(KeyEvent::Release(Key::MetaLeft)),
            ActionView::LeaveTypeBlock,
        ],
        os == TargetOs::LinuxOrWindows ==> message_actions(
            client,
            Some(JsonValue::Text("paste_text_via_clipboard"@)),
            Some(JsonValue::Text(data)),
            keys,
            os,
        ) == seq![
            ActionView::EnterTypeBlock,
            ActionView::SetClipboard(data),
            ActionView::Simulate(KeyEvent::Press(Key::ControlLeft)),
            ActionView::Simulate(KeyEvent::Press(Key::KeyV)),
            ActionView::Simulate(KeyEvent::Release(Key::KeyV)),
            ActionView::Simulate(KeyEvent::Release(Key::ControlLeft)),
            ActionView::LeaveTypeBlock,
        ],
        os == TargetOs::Other ==> message_actions(
            client,
            Some(JsonValue::Text("paste_text_via_clipboard"@)),
            Some(JsonValue::Text(data)),
            keys,
            os,
        ) == seq![
            ActionView::EnterTypeBlock,
            ActionView::SetClipboard(data),
            ActionView::LeaveTypeBlock,
        ],
        message_actions(
            client,
            Some(JsonValue::Text("set_text_in_clipboard"@)),
            Some(JsonValue::Text(data)),
            keys,
            os,
        ) == seq![
            ActionView::EnterTypeBlock,
            ActionView::SetClipboard(data),
            ActionView::LeaveTypeBlock,
        ],
        message_actions(
            client,
            Some(JsonValue::Text("type_characters_one_by_one"@)),
            Some(JsonValue::Text(data)),
            keys,
            os,
        ) == seq![ActionView::EnterTypeBlock] + typing_actions(keys, data) + seq![
            ActionView::LeaveTypeBlock,
        ],
{
    reveal_strlit("auth");
    reveal_strlit("write_sequence");
    reveal_strlit("paste_text_via_clipboard");
    reveal_strlit("set_text_in_clipboard");
    reveal_strlit("type_characters_one_by_one");
    assert("auth"@.len() == 4);
    assert("write_sequence"@.len() == 14);
    assert("paste_text_via_clipboard"@.len() == 24);
    assert("set_text_in_clipboard"@.len() == 21);
    assert("type_characters_one_by_one"@.len() == 26);
    crate::keyboard::lemma_paste_events_table();
    let w = message_actions(client, Some(JsonValue::Text("write_sequence"@)), Some(JsonValue::Text(data)), keys, os);
    assert(w =~= seq![ActionView::EnterTypeBlock, ActionView::TypeText(data), ActionView::LeaveTypeBlock]);
    let p = message_actions(client, Some(JsonValue::Text("paste_text_via_clipboard"@)), Some(JsonValue::Text(data)), keys, os);
    let sim = paste_events(os).map_values(|e: KeyEvent| ActionView::Simulate(e));
    assert(p =~= seq![ActionView::EnterTypeBlock, ActionView::SetClipboard(data)] + sim + seq![ActionView::LeaveTypeBlock]);
    if os == TargetOs::Other {
        assert(sim =~= Seq::<ActionView>::empty());
    }
    let c = message_actions(client, Some(JsonValue::Text("set_text_in_clipboard"@)), Some(JsonValue::Text(data)), keys, os);
    assert(c =~= seq![ActionView::EnterTypeBlock, ActionView::SetClipboard(data), ActionView::LeaveTypeBlock]);
    let ty = message_actions(client, Some(JsonValue::Text("type_characters_one_by_one"@)), Some(JsonValue::Text(data)), keys, os);
    assert(ty =~= seq![ActionView::EnterTypeBlock] + typing_actions(keys, data) + seq![ActionView::LeaveTypeBlock]);
}

/// The authentication message with the code lets its client in and does no other work
/// than raising and lowering the typing flag.
pub proof fn lemma_auth_message(client: u64, keys: Map<char, (Key, bool)>, os: TargetOs)
    ensures
        message_actions(
            client,
            Some(JsonValue::Text("auth"@)),
            Some(JsonValue::Text(AUTH_CODE@)),
            keys,
            os,
        ) == seq![
            ActionView::Authenticated(client),
            ActionView::EnterTypeBlock,
            ActionView::LeaveTypeBlock,
        ],
{
    reveal_strlit("auth");
    reveal_strlit("write_sequence");
    reveal_strlit("paste_text_via_clipboard");
    reveal_strlit("set_text_in_clipboard");
    reveal_strlit("type_characters_one_by_one");
    assert("auth"@.len() == 4);
    assert("write_sequence"@.len() == 14);
    assert("paste_text_via_clipboard"@.len() == 24);
    assert("set_text_in_clipboard"@.len() == 21);
    assert("type_characters_one_by_one"@.len() == 26);
    let a = message_actions(client, Some(JsonValue::Text("auth"@)), Some(JsonValue::Text(AUTH_CODE@)), keys, os);
    assert(a =~= seq![ActionView::Authenticated(client), ActionView::EnterTypeBlock, ActionView::LeaveTypeBlock]);
}

/// A message is read by the values under its keys "type" and "data": where the text is
/// a JSON object, its fields are the value under "type" and the value under "data"
/// (`None` for an absent key); otherwise the parser's error.
pub proof fn lemma_message_fields_read_keys(text: Seq<char>)
    ensures
        json_object(text) matches Ok(o) ==> message_fields(text) == Ok::<
            (Option<JsonValue>, Option<JsonValue>),
            Seq<char>,
        >(
            (
                if o.contains_key("type"@) {
                    Some(o["type"@])
                } else {
                    None
                },
                if o.contains_key("data"@) {
                    Some(o["data"@])
                } else {
                    None
                },
            ),
        ),
        json_object(text) matches Err(e) ==> message_fields(text) == Err::<
            (Option<JsonValue>, Option<JsonValue>),
            Seq<char>,
        >(e),
{
}

/// A message that is no command does nothing: one without a "type" key, or without a
/// string under "data". A command of any other type than the four known ones, and not
/// the authentication message, only raises and lowers the typing flag.
pub proof fn lemma_other_messages(
    client: u64,
    t: Option<JsonValue>,
    d: Option<JsonValue>,
    keys: Map<char, (Key, bool)>,
    os: TargetOs,
)
    ensures
        (t is None || !(d is Some && d->0 is Text)) ==> message_actions(
            client,
            t,
            d,
            keys,
            os,
        ) == Seq::<ActionView>::empty(),
        (t is Some && (d is Some && d->0 is Text) && !grants_access(t, d) && t != Some(
            JsonValue::Text("write_sequence"@),
        ) && t != Some(JsonValue::Text("paste_text_via_clipboard"@)) && t != Some(
            JsonValue::Text("set_text_in_clipboard"@),
        ) && t != Some(JsonValue::Text("type_characters_one_by_one"@))) ==> message_actions(
            client,
            t,
            d,
            keys,
            os,
        ) == seq![ActionView::EnterTypeBlock, ActionView::LeaveTypeBlock],
{
    if t is Some && (d is Some && d->0 is Text) && !grants_access(t, d) && t != Some(
        JsonValue::Text("write_sequence"@),
    ) && t != Some(JsonValue::Text("paste_text_via_clipboard"@)) && t != Some(
        JsonValue::Text("set_text_in_clipboard"@),
    ) && t != Some(JsonValue::Text("type_characters_one_by_one"@)) {
        assert(message_actions(client, t, d, keys, os) =~= seq![
            ActionView::EnterTypeBlock,
            ActionView::LeaveTypeBlock,
        ]);
    }
}

/// Key reports go to exactly the clients that are connected and have authenticated.
pub proof fn lemma_audience_members<R>(reg: Registry<R>, client: u64)
    ensures
        reg.audience().contains(client) <==> (reg.responders().contains_key(client)
            && reg.authenticated().contains(client)),
{
}

} // verus!
