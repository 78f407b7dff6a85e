use crate::keyboard::{Key, KeyEvent, KeysMap};
use vstd::prelude::*;

verus! {

/// One step of the work that the bridge performs on the local machine.
#[derive(Debug, PartialEq, Eq)]
pub enum Action {
    /// Announce that the client with this id has authenticated.
    Authenticated(u64),
    /// Raise the flag that silences key reports while the bridge types.
    EnterTypeBlock,
    /// Lower that flag again.
    LeaveTypeBlock,
    /// Type a whole text with the layout-aware typist.
    TypeText(String),
    /// Put a text on the clipboard.
    SetClipboard(String),
    /// Send a simulated key event.
    Simulate(KeyEvent),
    /// Click the key that the current layout gives to the character.
    ClickLayout(char),
    /// Type one character with the layout-aware typist.
    TypeChar(char),
    /// Report that a client message was not a JSON object, with the parser's account.
    ReportParseError(String),
}

/// The mathematical value of an `Action`, texts taken as character sequences.
pub enum ActionView {
    Authenticated(u64),
    EnterTypeBlock,
    LeaveTypeBlock,
    TypeText(Seq<char>),
    SetClipboard(Seq<char>),
    Simulate(KeyEvent),
    ClickLayout(char),
    TypeChar(char),
    ReportParseError(Seq<char>),
}

impl View for Action {
    type V = ActionView;

    open spec fn view(&self) -> ActionView {
        match self {
            Action::Authenticated(id) => ActionView::Authenticated(*id),
            Action::EnterTypeBlock => ActionView::EnterTypeBlock,
            Action::LeaveTypeBlock => ActionView::LeaveTypeBlock,
            Action::TypeText(s) => ActionView::TypeText(s@),
            Action::SetClipboard(s) => ActionView::SetClipboard(s@),
            Action::Simulate(e) => ActionView::Simulate(*e),
            Action::ClickLayout(c) => ActionView::ClickLayout(*c),
            Action::TypeChar(c) => ActionView::TypeChar(*c),
            Action::ReportParseError(s) => ActionView::ReportParseError(s@),
        }
    }
}

/// The values of a sequence of actions.
pub open spec fn action_views(s: Seq<Action>) -> Seq<ActionView> {
    s.map_values(|a: Action| a@)
}

/// The actions that type one character with the given keys map. A bound character
/// whose key is `Unknown(0)` is clicked through the layout; another bound character
/// has its key pressed, between a press and a release of the left Shift key when its
/// binding is shifted; an unbound character is typed by the layout-aware typist.
pub open spec fn char_actions(keys: Map<char, (Key, bool)>, c: char) -> Seq<ActionView> {
    if keys.contains_key(c) {
        let key = keys[c].0;
        let shifted = keys[c].1;
        if key == Key::Unknown(0) {
            seq![ActionView::ClickLayout(c)]
        } else if shifted {
            seq![
                ActionView::Simulate(KeyEvent::Press(Key::ShiftLeft)),
                ActionView::Simulate(KeyEvent::Press(key)),
                ActionView::Simulate(KeyEvent::Release(Key::ShiftLeft)),
            ]
        } else {
            seq![ActionView::Simulate(KeyEvent::Press(key))]
        }
    } else {
        seq![ActionView::TypeChar(c)]
    }
}

/// The actions that type a text one character after the other.
pub open spec fn typing_actions(keys: Map<char, (Key, bool)>, text: Seq<char>) -> Seq<ActionView>
    decreases text.len(),
{
    if text.len() == 0 {
        seq![]
    } else {
        typing_actions(keys, text.drop_last()) + char_actions(keys, text.last())
    }
}

/// Typing a concatenation is typing its parts one after the other.
pub proof fn lemma_typing_concat(keys: Map<char, (Key, bool)>, a: Seq<char>, b: Seq<char>)
    ensures
        typing_actions(keys, a + b) == typing_actions(keys, a) + typing_actions(keys, b),
    decreases b.len(),
{
    if b.len() == 0 {
        assert(a + b =~= a);
        assert(typing_actions(keys, a) + typing_actions(keys, b) =~= typing_actions(keys, a));
    } else {
        lemma_typing_concat(keys, a, b.drop_last());
        assert((a + b).drop_last() =~= a + b.drop_last());
        assert((a + b).last() == b.last());
        assert(typing_actions(keys, a + b) =~= typing_actions(keys, a) + typing_actions(
            keys,
            b.drop_last(),
        ) + char_actions(keys, b.last()));
    }
}

/// Whether an action only types: a simulated key event, a layout click or a typed
/// character.
pub open spec fn is_keystroke(a: ActionView) -> bool {
    a is Simulate || a is ClickLayout || a is TypeChar
}

proof fn lemma_char_actions_keystrokes(keys: Map<char, (Key, bool)>, c: char)
    ensures
        forall|j: int|
            0 <= j < char_actions(keys, c).len() ==> is_keystroke(#[trigger] char_actions(keys, c)[j]),
{
    let a = char_actions(keys, c);
    assert forall|j: int| 0 <= j < a.len() implies is_keystroke(#[trigger] a[j]) by {
        if keys.contains_key(c) && keys[c].0 != Key::Unknown(0) && keys[c].1 {
            assert(j == 0 || j == 1 || j == 2);
        }
    }
}

/// Typing a text does nothing but keystrokes.
pub proof fn lemma_typing_only_keystrokes(keys: Map<char, (Key, bool)>, text: Seq<char>)
    ensures
        forall|i: int|
            0 <= i < typing_actions(keys, text).len() ==> is_keystroke(
                #[trigger] typing_actions(keys, text)[i],
            ),
    decreases text.len(),
{
    if text.len() > 0 {
        lemma_typing_only_keystrokes(keys, text.drop_last());
        let prev = typing_actions(keys, text.drop_last());
        let last = char_actions(keys, text.last());
        assert forall|i: int| 0 <= i < typing_actions(keys, text).len() implies is_keystroke(
            #[trigger] typing_actions(keys, text)[i],
        ) by {
            if i < prev.len() {
                assert(typing_actions(keys, text)[i] == prev[i]);
            } else {
                lemma_char_actions_keystrokes(keys, text.last());
                assert(typing_actions(keys, text)[i] == last[i - prev.len()]);
            }
        }
    }
}

/// With the default keys map, a text made of bound characters is typed by simulated
/// key events alone: neither the layout click nor the layout-aware typist is used.
pub proof fn lemma_default_typing_simulates(text: Seq<char>)
    requires
        forall|i: int| 0 <= i < text.len() ==> crate::keyboard::default_keys().contains_key(
            #[trigger] text[i],
        ),
    ensures
        forall|i: int|
            0 <= i < typing_actions(crate::keyboard::default_keys(), text).len() ==> (
            #[trigger] typing_actions(crate::keyboard::default_keys(), text)[i]) is Simulate,
    decreases text.len(),
{
    if text.len() > 0 {
        let keys = crate::keyboard::default_keys();
        let init = text.drop_last();
        assert forall|i: int| 0 <= i < init.len() implies keys.contains_key(#[trigger] init[i]) by {
            assert(init[i] == text[i]);
        }
        lemma_default_typing_simulates(init);
        crate::keyboard::lemma_default_keys_known(text.last());
    }
}

/// Typing one character, with any keys map: an unbound character goes to the
/// layout-aware typist; a character bound to `Unknown(0)` is clicked through the
/// layout; a character bound unshifted to another key presses that key; and a
/// character bound shifted to another key presses that key between a press and a
/// release of the left Shift key.
pub proof fn lemma_type_one_char(keys: Map<char, (Key, bool)>, c: char)
    ensures
        !keys.contains_key(c) ==> typing_actions(keys, seq![c]) == seq![ActionView::TypeChar(c)],
        keys.contains_key(c) && keys[c].0 == Key::Unknown(0) ==> typing_actions(keys, seq![c])
            == seq![ActionView::ClickLayout(c)],
        keys.contains_key(c) && keys[c].0 != Key::Unknown(0) && !keys[c].1 ==> typing_actions(
            keys,
            seq![c],
        ) == seq![ActionView::Simulate(KeyEvent::Press(keys[c].0))],
        keys.contains_key(c) && keys[c].0 != Key::Unknown(0) && keys[c].1 ==> typing_actions(
            keys,
            seq![c],
        ) == seq![
            ActionView::Simulate(KeyEvent::Press(Key::ShiftLeft)),
            ActionView::Simulate(KeyEvent::Press(keys[c].0)),
            ActionView::Simulate(KeyEvent::Release(Key::ShiftLeft)),
        ],
{
    let one = seq![c];
    assert(one.drop_last() =~= Seq::<char>::empty());
    assert(one.last() == c);
    assert(typing_actions(keys, one.drop_last()) == Seq::<ActionView>::empty());
    assert(typing_actions(keys, one) == typing_actions(keys, one.drop_last()) + char_actions(keys, c));
    assert(typing_actions(keys, one) =~= char_actions(keys, c));
}

/// Typing nothing does nothing, and typing a text and then one more character is
/// typing the text, then typing the character alone.
pub proof fn lemma_type_push(keys: Map<char, (Key, bool)>, text: Seq<char>, c: char)
    ensures
        typing_actions(keys, Seq::<char>::empty()) == Seq::<ActionView>::empty(),
        typing_actions(keys, text.push(c)) == typing_actions(keys, text) + typing_actions(
            keys,
            seq![c],
        ),
{
    assert(text.push(c) =~= text + seq![c]);
    lemma_typing_concat(keys, text, seq![c]);
}

/// With the default keys map, an upper-case letter is typed as its lower-case letter's
/// key held between a press and a release of the left Shift key, and the lower-case
/// letter as that key alone.
pub proof fn lemma_default_upper_case_typed_shifted(lower: char, upper: char)
    requires
        'a' as u32 <= lower as u32 <= 'z' as u32,
        upper as u32 + 32 == lower as u32,
    ensures
        ({
            let k = crate::keyboard::default_keys()[lower].0;
            &&& typing_actions(crate::keyboard::default_keys(), seq![lower]) == seq![
                ActionView::Simulate(KeyEvent::Press(k)),
            ]
            &&& typing_actions(crate::keyboard::default_keys(), seq![upper]) == seq![
                ActionView::Simulate(KeyEvent::Press(Key::ShiftLeft)),
                ActionView::Simulate(KeyEvent::Press(k)),
                ActionView::Simulate(KeyEvent::Release(Key::ShiftLeft)),
            ]
        }),
{
    crate::keyboard::lemma_upper_case_is_shifted_lower(lower, upper);
    crate::keyboard::lemma_default_keys_known(lower);
    crate::keyboard::lemma_default_keys_known(upper);
    lemma_type_one_char(crate::keyboard::default_keys(), lower);
    lemma_type_one_char(crate::keyboard::default_keys(), upper);
}

/// The value of an action keeps its kind and what it carries, and the values of a
/// sequence of actions are the values of its actions, one for one and in order.
pub proof fn lemma_action_views_faithful(a: Action, s: Seq<Action>)
    ensures
        a matches Action::Authenticated(id) ==> a@ == ActionView::Authenticated(id),
        a matches Action::EnterTypeBlock ==> a@ == ActionView::EnterTypeBlock,
        a matches Action::LeaveTypeBlock ==> a@ == ActionView::LeaveTypeBlock,
        a matches Action::TypeText(x) ==> a@ == ActionView::TypeText(x@),
        a matches Action::SetClipboard(x) ==> a@ == ActionView::SetClipboard(x@),
        a matches Action::Simulate(e) ==> a@ == ActionView::Simulate(e),
        a matches Action::ClickLayout(c) ==> a@ == ActionView::ClickLayout(c),
        a matches Action::TypeChar(c) ==> a@ == ActionView::TypeChar(c),
        a matches Action::ReportParseError(x) ==> a@ == ActionView::ReportParseError(x@),
        action_views(s).len() == s.len(),
        forall|i: int| 0 <= i < s.len() ==> #[trigger] action_views(s)[i] == s[i]@,
{
}

fn push_char_actions(keys: &KeysMap, c: char, out: &mut Vec<Action>)
    ensures
        action_views(final(out)@) == action_views(old(out)@) + char_actions(keys@, c),
{
    let ghost before = out@;
    match keys.get(c) {
        Some((key, shifted)) => {
            if key == Key::Unknown(0) {
                out.push(Action::ClickLayout(c));
            } else {
                if shifted {
                    out.push(Action::Simulate(KeyEvent::Press(Key::ShiftLeft)));
                }
                out.push(Action::Simulate(KeyEvent::Press(key)));
                if shifted {
                    out.push(Action::Simulate(KeyEvent::Release(Key::ShiftLeft)));
                }
            }
        },
        None => {
            out.push(Action::TypeChar(c));
        },
    }
    assert(action_views(out@) =~= action_views(before) + char_actions(keys@, c));
}

/// The actions that type `text` one character at a time with the keys of `keys`
/// (see `char_actions`).
pub fn type_characters_one_by_one(keys: &KeysMap, text: &str) -> (actions: Vec<Action>)
    ensures
        action_views(actions@) == typing_actions(keys@, text@),
{
    let mut out: Vec<Action> = Vec::new();
    let ghost chars = text@;
    for c in it: text.chars()
        invariant
            chars == text@,
            it.seq() == chars,
            action_views(out@) == typing_actions(keys@, chars.take(it.index() as int)),
    {
        let ghost i = it.index() as int;
        push_char_actions(keys, c, &mut out);
        assert(chars.take(i + 1).drop_last() =~= chars.take(i));
    }
    assert(chars.take(chars.len() as int) =~= chars);
    out
}

} // verus!
