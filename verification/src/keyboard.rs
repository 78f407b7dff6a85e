use std::collections::HashMap;
use vstd::prelude::*;

verus! {

broadcast use vstd::std_specs::hash::group_hash_axioms;

/// A key of the keyboard, named as the input simulator names it.
#[derive(PartialEq, Eq, Structural, Clone, Copy, Debug)]
pub enum Key {
    Alt,
    AltGr,
    Backspace,
    CapsLock,
    ControlLeft,
    ControlRight,
    Delete,
    DownArrow,
    End,
    Escape,
    F1,
    F10,
    F11,
    F12,
    F2,
    F3,
    F4,
    F5,
    F6,
    F7,
    F8,
    F9,
    Home,
    LeftArrow,
    MetaLeft,
    MetaRight,
    PageDown,
    PageUp,
    Return,
    RightArrow,
    ShiftLeft,
    ShiftRight,
    Space,
    Tab,
    UpArrow,
    PrintScreen,
    ScrollLock,
    Pause,
    NumLock,
    BackQuote,
    Num1,
    Num2,
    Num3,
    Num4,
    Num5,
    Num6,
    Num7,
    Num8,
    Num9,
    Num0,
    Minus,
    Equal,
    KeyQ,
    KeyW,
    KeyE,
    KeyR,
    KeyT,
    KeyY,
    KeyU,
    KeyI,
    KeyO,
    KeyP,
    LeftBracket,
    RightBracket,
    KeyA,
    KeyS,
    KeyD,
    KeyF,
    KeyG,
    KeyH,
    KeyJ,
    KeyK,
    KeyL,
    SemiColon,
    Quote,
    BackSlash,
    IntlBackslash,
    KeyZ,
    KeyX,
    KeyC,
    KeyV,
    KeyB,
    KeyN,
    KeyM,
    Comma,
    Dot,
    Slash,
    Insert,
    KpReturn,
    KpMinus,
    KpPlus,
    KpMultiply,
    KpDivide,
    Kp0,
    Kp1,
    Kp2,
    Kp3,
    Kp4,
    Kp5,
    Kp6,
    Kp7,
    Kp8,
    Kp9,
    KpDelete,
    Function,
    Unknown(u32),
}

/// A simulated key event: a key goes down or comes up.
#[derive(PartialEq, Eq, Structural, Clone, Copy, Debug)]
pub enum KeyEvent {
    Press(Key),
    Release(Key),
}

/// The platform family, which decides the modifier key of shortcuts.
#[derive(PartialEq, Eq, Structural, Clone, Copy, Debug)]
pub enum TargetOs {
    /// The Command key modifies shortcuts.
    MacOs,
    /// The Control key modifies shortcuts.
    LinuxOrWindows,
    /// No paste shortcut is known.
    Other,
}

/// The modifier held down for shortcuts on the given platform.
pub open spec fn shortcut_modifier(os: TargetOs) -> Option<Key> {
    match os {
        TargetOs::MacOs => Some(Key::MetaLeft),
        TargetOs::LinuxOrWindows => Some(Key::ControlLeft),
        TargetOs::Other => None,
    }
}

/// The key events of the paste shortcut: modifier down, V down, V up, modifier up.
pub open spec fn paste_events(os: TargetOs) -> Seq<KeyEvent> {
    match shortcut_modifier(os) {
        Some(m) => seq![
            KeyEvent::Press(m),
            KeyEvent::Press(Key::KeyV),
            KeyEvent::Release(Key::KeyV),
            KeyEvent::Release(m),
        ],
        None => seq![],
    }
}

/// The key events that paste the clipboard on the given platform.
pub fn paste_shortcut(os: TargetOs) -> (events: Vec<KeyEvent>)
    ensures
        events@ == paste_events(os),
{
    let modifier = match os {
        TargetOs::MacOs => Key::MetaLeft,
        TargetOs::LinuxOrWindows => Key::ControlLeft,
        TargetOs::Other => {
            return Vec::new();
        },
    };
    let mut events: Vec<KeyEvent> = Vec::new();
    events.push(KeyEvent::Press(modifier));
    events.push(KeyEvent::Press(Key::KeyV));
    events.push(KeyEvent::Release(Key::KeyV));
    events.push(KeyEvent::Release(modifier));
    events
}

/// Every key that the paste shortcut presses it releases again, in reverse order:
/// the first half of the events are presses, and the event at the mirrored position
/// releases the same key.
pub proof fn lemma_paste_releases_in_reverse(os: TargetOs)
    ensures
        paste_events(os).len() % 2 == 0,
        forall|i: int|
            #![trigger paste_events(os)[i]]
            0 <= i < paste_events(os).len() / 2 ==> {
                &&& paste_events(os)[i] is Press
                &&& paste_events(os)[paste_events(os).len() - 1 - i] == KeyEvent::Release(
                    paste_events(os)[i]->Press_0,
                )
            },
{
}

/// The letter key at the given position of the alphabet.
pub open spec fn letter_key(i: int) -> Key {
    if i == 0 {
        Key::KeyA
    } else if i == 1 {
        Key::KeyB
    } else if i == 2 {
        Key::KeyC
    } else if i == 3 {
        Key::KeyD
    } else if i == 4 {
        Key::KeyE
    } else if i == 5 {
        Key::KeyF
    } else if i == 6 {
        Key::KeyG
    } else if i == 7 {
        Key::KeyH
    } else if i == 8 {
        Key::KeyI
    } else if i == 9 {
        Key::KeyJ
    } else if i == 10 {
        Key::KeyK
    } else if i == 11 {
        Key::KeyL
    } else if i == 12 {
        Key::KeyM
    } else if i == 13 {
        Key::KeyN
    } else if i == 14 {
        Key::KeyO
    } else if i == 15 {
        Key::KeyP
    } else if i == 16 {
        Key::KeyQ
    } else if i == 17 {
        Key::KeyR
    } else if i == 18 {
        Key::KeyS
    } else if i == 19 {
        Key::KeyT
    } else if i == 20 {
        Key::KeyU
    } else if i == 21 {
        Key::KeyV
    } else if i == 22 {
        Key::KeyW
    } else if i == 23 {
        Key::KeyX
    } else if i == 24 {
        Key::KeyY
    } else if i == 25 {
        Key::KeyZ
    } else {
        Key::Unknown(0)
    }
}

/// The digit key of the given value.
pub open spec fn digit_key(i: int) -> Key {
    if i == 0 {
        Key::Num0
    } else if i == 1 {
        Key::Num1
    } else if i == 2 {
        Key::Num2
    } else if i == 3 {
        Key::Num3
    } else if i == 4 {
        Key::Num4
    } else if i == 5 {
        Key::Num5
    } else if i == 6 {
        Key::Num6
    } else if i == 7 {
        Key::Num7
    } else if i == 8 {
        Key::Num8
    } else if i == 9 {
        Key::Num9
    } else {
        Key::Unknown(0)
    }
}

fn letter_key_exec(i: u32) -> (k: Key)
    requires
        i < 26,
    ensures
        k == letter_key(i as int),
{
    match i {
        0 => Key::KeyA,
        1 => Key::KeyB,
        2 => Key::KeyC,
        3 => Key::KeyD,
        4 => Key::KeyE,
        5 => Key::KeyF,
        6 => Key::KeyG,
        7 => Key::KeyH,
        8 => Key::KeyI,
        9 => Key::KeyJ,
        10 => Key::KeyK,
        11 => Key::KeyL,
        12 => Key::KeyM,
        13 => Key::KeyN,
        14 => Key::KeyO,
        15 => Key::KeyP,
        16 => Key::KeyQ,
        17 => Key::KeyR,
        18 => Key::KeyS,
        19 => Key::KeyT,
        20 => Key::KeyU,
        21 => Key::KeyV,
        22 => Key::KeyW,
        23 => Key::KeyX,
        24 => Key::KeyY,
        25 => Key::KeyZ,
        _ => Key::Unknown(0),
    }
}

fn digit_key_exec(i: u32) -> (k: Key)
    requires
        i < 10,
    ensures
        k == digit_key(i as int),
{
    match i {
        0 => Key::Num0,
        1 => Key::Num1,
        2 => Key::Num2,
        3 => Key::Num3,
        4 => Key::Num4,
        5 => Key::Num5,
        6 => Key::Num6,
        7 => Key::Num7,
        8 => Key::Num8,
        9 => Key::Num9,
        _ => Key::Unknown(0),
    }
}

/// The binding of the character with the given code in the default keys map.
pub open spec fn code_binding(code: int) -> Option<(Key, bool)> {
    if 'a' as int <= code <= 'z' as int {
        Some((letter_key(code - 'a' as int), false))
    } else if 'A' as int <= code <= 'Z' as int {
        Some((letter_key(code - 'A' as int), true))
    } else if '0' as int <= code <= '9' as int {
        Some((digit_key(code - '0' as int), false))
    } else if code == '\n' as int {
        Some((Key::Return, false))
    } else if code == ' ' as int {
        Some((Key::Space, false))
    } else if code == '\t' as int {
        Some((Key::Tab, false))
    } else if code == '`' as int {
        Some((Key::BackQuote, false))
    } else if code == '-' as int {
        Some((Key::Minus, false))
    } else if code == '=' as int {
        Some((Key::Equal, false))
    } else {
        None
    }
}

/// The binding of a character in the default keys map: the key that types it and
/// whether Shift is held. Lower-case letters, digits, newline, space, tab,
/// backquote, minus and equals are typed unshifted; upper-case letters are the
/// shifted letter keys. Every other character has no binding.
pub open spec fn default_binding(c: char) -> Option<(Key, bool)> {
    code_binding((c as u32) as int)
}

/// The default keys map as a map.
pub open spec fn default_keys() -> Map<char, (Key, bool)> {
    Map::new(|c: char| default_binding(c) is Some, |c: char| default_binding(c)->0)
}

/// Distinct characters have distinct codes.
proof fn lemma_char_code_injective(c1: char, c2: char)
    requires
        c1 as u32 == c2 as u32,
    ensures
        c1 == c2,
{
    assert(c1 as int == c2 as int);
}

/// A map from characters to the key that types each of them, with a flag that says
/// whether Shift must be held.
pub struct KeysMap {
    table: HashMap<u32, (Key, bool)>,
}

impl View for KeysMap {
    type V = Map<char, (Key, bool)>;

    closed spec fn view(&self) -> Map<char, (Key, bool)> {
        Map::new(
            |c: char| self.table@.contains_key(c as u32),
            |c: char| self.table@[c as u32],
        )
    }
}

impl KeysMap {
    /// A map without bindings.
    pub fn new() -> (m: Self)
        ensures
            m@ == Map::<char, (Key, bool)>::empty(),
    {
        let m = KeysMap { table: HashMap::new() };
        assert(m@ =~= Map::<char, (Key, bool)>::empty());
        m
    }

    /// Binds `c` to `key`, with Shift held when `shifted`.
    pub fn insert(&mut self, c: char, key: Key, shifted: bool)
        ensures
            final(self)@ == old(self)@.insert(c, (key, shifted)),
    {
        let ghost before = self@;
        self.table.insert(c as u32, (key, shifted));
        assert forall|c2: char| #[trigger] self@.contains_key(c2) == before.insert(c, (key, shifted)).contains_key(c2)
            && (self@.contains_key(c2) ==> self@[c2] == before.insert(c, (key, shifted))[c2]) by {
            if c2 as u32 == c as u32 {
                lemma_char_code_injective(c2, c);
            }
        }
        assert(self@ =~= before.insert(c, (key, shifted)));
    }

    /// The binding of `c`, if it has one.
    pub fn get(&self, c: char) -> (r: Option<(Key, bool)>)
        ensures
            r == (if self@.contains_key(c) {
                Some(self@[c])
            } else {
                None
            }),
    {
        let code = c as u32;
        match self.table.get(&code) {
            Some(b) => Some(*b),
            None => None,
        }
    }
}

/// The table holds exactly the codes that `filled` admits, each with its default
/// binding.
spec fn table_holds(table: Map<u32, (Key, bool)>, filled: spec_fn(int) -> bool) -> bool {
    &&& forall|k: u32| #[trigger] table.contains_key(k) <==> filled(k as int)
    &&& forall|k: u32| #[trigger] table.contains_key(k) ==> code_binding(k as int) == Some(table[k])
}

spec fn lower_done(k: int, bound: int) -> bool {
    'a' as int <= k < bound
}

spec fn upper_done(k: int, bound: int) -> bool {
    lower_done(k, 'z' as int + 1) || 'A' as int <= k < bound
}

spec fn digits_done(k: int, bound: int) -> bool {
    upper_done(k, 'Z' as int + 1) || '0' as int <= k < bound
}

/// The default keys map: letters, digits, newline, space, tab, backquote, minus and
/// equals, each bound to the key that types it (see `default_binding`).
pub fn get_keys_map() -> (m: KeysMap)
    ensures
        m@ == default_keys(),
{
    let mut table: HashMap<u32, (Key, bool)> = HashMap::new();
    let mut i: u32 = 0;
    while i < 26
        invariant
            i <= 26,
            table_holds(table@, |k: int| lower_done(k, 'a' as int + i)),
        decreases 26 - i,
    {
        table.insert('a' as u32 + i, (letter_key_exec(i), false));
        i = i + 1;
    }
    i = 0;
    while i < 26
        invariant
            i <= 26,
            table_holds(table@, |k: int| upper_done(k, 'A' as int + i)),
        decreases 26 - i,
    {
        table.insert('A' as u32 + i, (letter_key_exec(i), true));
        i = i + 1;
    }
    i = 0;
    while i < 10
        invariant
            i <= 10,
            table_holds(table@, |k: int| digits_done(k, '0' as int + i)),
        decreases 10 - i,
    {
        table.insert('0' as u32 + i, (digit_key_exec(i), false));
        i = i + 1;
    }
    table.insert('\n' as u32, (Key::Return, false));
    table.insert(' ' as u32, (Key::Space, false));
    table.insert('\t' as u32, (Key::Tab, false));
    table.insert('`' as u32, (Key::BackQuote, false));
    table.insert('-' as u32, (Key::Minus, false));
    table.insert('=' as u32, (Key::Equal, false));
    let m = KeysMap { table };
    assert forall|k: u32| #[trigger] m.table@.contains_key(k) <==> code_binding(k as int) is Some by {}
    assert forall|c: char| #[trigger] default_keys().contains_key(c) == m@.contains_key(c) && (
    m@.contains_key(c) ==> m@[c] == default_keys()[c]) by {
    }
    assert(m@ =~= default_keys());
    m
}

/// In the default keys map every lower-case letter is bound unshifted, and its
/// upper-case letter (32 code points below it) is bound to the same key, shifted.
pub proof fn lemma_upper_case_is_shifted_lower(lower: char, upper: char)
    requires
        'a' as u32 <= lower as u32 <= 'z' as u32,
        upper as u32 + 32 == lower as u32,
    ensures
        default_keys().contains_key(lower),
        default_keys().contains_key(upper),
        !default_keys()[lower].1,
        default_keys()[upper] == (default_keys()[lower].0, true),
{
}

/// Letter keys of distinct positions of the alphabet differ.
proof fn lemma_letter_key_injective(i: int, j: int)
    requires
        0 <= i < 26,
        0 <= j < 26,
        letter_key(i) == letter_key(j),
    ensures
        i == j,
{
}

/// No two characters share a binding in the default keys map: a binding tells which
/// character it types.
pub proof fn lemma_default_bindings_distinct(c1: char, c2: char)
    requires
        default_keys().contains_key(c1),
        default_keys().contains_key(c2),
        default_keys()[c1] == default_keys()[c2],
    ensures
        c1 == c2,
{
    let a = (c1 as u32) as int;
    let b = (c2 as u32) as int;
    if 'a' as int <= a <= 'z' as int && 'a' as int <= b <= 'z' as int {
        lemma_letter_key_injective(a - 'a' as int, b - 'a' as int);
    } else if 'A' as int <= a <= 'Z' as int && 'A' as int <= b <= 'Z' as int {
        lemma_letter_key_injective(a - 'A' as int, b - 'A' as int);
    }
    assert(c1 as u32 == c2 as u32);
    lemma_char_code_injective(c1, c2);
}

/// The default keys map binds no character to the unknown key, so that every bound
/// character is typed by simulated key events.
pub proof fn lemma_default_keys_known(c: char)
    requires
        default_keys().contains_key(c),
    ensures
        default_keys()[c].0 != Key::Unknown(0),
{
}

/// The default keys map, binding by binding: each lower-case letter is its letter key
/// unshifted, each upper-case letter the same letter key shifted, each digit the
/// number key of the same value unshifted, and newline, space, tab, backquote, minus
/// and equals their own keys unshifted.
pub proof fn lemma_default_keys_table()
    ensures
        default_keys().contains_key('a') && default_keys()['a'] == (Key::KeyA, false),
        default_keys().contains_key('b') && default_keys()['b'] == (Key::KeyB, false),
        default_keys().contains_key('c') && default_keys()['c'] == (Key::KeyC, false),
        default_keys().contains_key('d') && default_keys()['d'] == (Key::KeyD, false),
        default_keys().contains_key('e') && default_keys()['e'] == (Key::KeyE, false),
        default_keys().contains_key('f') && default_keys()['f'] == (Key::KeyF, false),
        default_keys().contains_key('g') && default_keys()['g'] == (Key::KeyG, false),
        default_keys().contains_key('h') && default_keys()['h'] == (Key::KeyH, false),
        default_keys().contains_key('i') && default_keys()['i'] == (Key::KeyI, false),
        default_keys().contains_key('j') && default_keys()['j'] == (Key::KeyJ, false),
        default_keys().contains_key('k') && default_keys()['k'] == (Key::KeyK, false),
        default_keys().contains_key('l') && default_keys()['l'] == (Key::KeyL, false),
        default_keys().contains_key('m') && default_keys()['m'] == (Key::KeyM, false),
        default_keys().contains_key('n') && default_keys()['n'] == (Key::KeyN, false),
        default_keys().contains_key('o') && default_keys()['o'] == (Key::KeyO, false),
        default_keys().contains_key('p') && default_keys()['p'] == (Key::KeyP, false),
        default_keys().contains_key('q') && default_keys()['q'] == (Key::KeyQ, false),
        default_keys().contains_key('r') && default_keys()['r'] == (Key::KeyR, false),
        default_keys().contains_key('s') && default_keys()['s'] == (Key::KeyS, false),
        default_keys().contains_key('t') && default_keys()['t'] == (Key::KeyT, false),
        default_keys().contains_key('u') && default_keys()['u'] == (Key::KeyU, false),
        default_keys().contains_key('v') && default_keys()['v'] == (Key::KeyV, false),
        default_keys().contains_key('w') && default_keys()['w'] == (Key::KeyW, false),
        default_keys().contains_key('x') && default_keys()['x'] == (Key::KeyX, false),
        default_keys().contains_key('y') && default_keys()['y'] == (Key::KeyY, false),
        default_keys().contains_key('z') && default_keys()['z'] == (Key::KeyZ, false),
        default_keys().contains_key('A') && default_keys()['A'] == (Key::KeyA, true),
        default_keys().contains_key('B') && default_keys()['B'] == (Key::KeyB, true),
        default_keys().contains_key('C') && default_keys()['C'] == (Key::KeyC, true),
        default_keys().contains_key('D') && default_keys()['D'] == (Key::KeyD, true),
        default_keys().contains_key('E') && default_keys()['E'] == (Key::KeyE, true),
        default_keys().contains_key('F') && default_keys()['F'] == (Key::KeyF, true),
        default_keys().contains_key('G') && default_keys()['G'] == (Key::KeyG, true),
        default_keys().contains_key('H') && default_keys()['H'] == (Key::KeyH, true),
        default_keys().contains_key('I') && default_keys()['I'] == (Key::KeyI, true),
        default_keys().contains_key('J') && default_keys()['J'] == (Key::KeyJ, true),
        default_keys().contains_key('K') && default_keys()['K'] == (Key::KeyK, true),
        default_keys().contains_key('L') && default_keys()['L'] == (Key::KeyL, true),
        default_keys().contains_key('M') && default_keys()['M'] == (Key::KeyM, true),
        default_keys().contains_key('N') && default_keys()['N'] == (Key::KeyN, true),
        default_keys().contains_key('O') && default_keys()['O'] == (Key::KeyO, true),
        default_keys().contains_key('P') && default_keys()['P'] == (Key::KeyP, true),
        default_keys().contains_key('Q') && default_keys()['Q'] == (Key::KeyQ, true),
        default_keys().contains_key('R') && default_keys()['R'] == (Key::KeyR, true),
        default_keys().contains_key('S') && default_keys()['S'] == (Key::KeyS, true),
        default_keys().contains_key('T') && default_keys()['T'] == (Key::KeyT, true),
        default_keys().contains_key('U') && default_keys()['U'] == (Key::KeyU, true),
        default_keys().contains_key('V') && default_keys()['V'] == (Key::KeyV, true),
        default_keys().contains_key('W') && default_keys()['W'] == (Key::KeyW, true),
        default_keys().contains_key('X') && default_keys()['X'] == (Key::KeyX, true),
        default_keys().contains_key('Y') && default_keys()['Y'] == (Key::KeyY, true),
        default_keys().contains_key('Z') && default_keys()['Z'] == (Key::KeyZ, true),
        default_keys().contains_key('0') && default_keys()['0'] == (Key::Num0, false),
        default_keys().contains_key('1') && default_keys()['1'] == (Key::Num1, false),
        default_keys().contains_key('2') && default_keys()['2'] == (Key::Num2, false),
        default_keys().contains_key('3') && default_keys()['3'] == (Key::Num3, false),
        default_keys().contains_key('4') && default_keys()['4'] == (Key::Num4, false),
        default_keys().contains_key('5') && default_keys()['5'] == (Key::Num5, false),
        default_keys().contains_key('6') && default_keys()['6'] == (Key::Num6, false),
        default_keys().contains_key('7') && default_keys()['7'] == (Key::Num7, false),
        default_keys().contains_key('8') && default_keys()['8'] == (Key::Num8, false),
        default_keys().contains_key('9') && default_keys()['9'] == (Key::Num9, false),
        default_keys().contains_key('\n') && default_keys()['\n'] == (Key::Return, false),
        default_keys().contains_key(' ') && default_keys()[' '] == (Key::Space, false),
        default_keys().contains_key('\t') && default_keys()['\t'] == (Key::Tab, false),
        default_keys().contains_key('`') && default_keys()['`'] == (Key::BackQuote, false),
        default_keys().contains_key('-') && default_keys()['-'] == (Key::Minus, false),
        default_keys().contains_key('=') && default_keys()['='] == (Key::Equal, false),
{
}

/// The default keys map binds exactly the letters, the digits, newline, space, tab,
/// backquote, minus and equals, and nothing else.
pub proof fn lemma_default_keys_domain(c: char)
    ensures
        default_keys().contains_key(c) <==> (
            ('a' as u32 <= c as u32 && c as u32 <= 'z' as u32)
            || ('A' as u32 <= c as u32 && c as u32 <= 'Z' as u32)
            || ('0' as u32 <= c as u32 && c as u32 <= '9' as u32)
            || c == '\n' || c == ' ' || c == '\t' || c == '`' || c == '-' || c == '='
        ),
{
    if c as u32 == '\n' as u32 {
        lemma_char_code_injective(c, '\n');
    } else if c as u32 == ' ' as u32 {
        lemma_char_code_injective(c, ' ');
    } else if c as u32 == '\t' as u32 {
        lemma_char_code_injective(c, '\t');
    } else if c as u32 == '`' as u32 {
        lemma_char_code_injective(c, '`');
    } else if c as u32 == '-' as u32 {
        lemma_char_code_injective(c, '-');
    } else if c as u32 == '=' as u32 {
        lemma_char_code_injective(c, '=');
    }
}

/// The key events of the paste shortcut on each platform: Command and V on macOS,
/// Control and V on Linux and Windows, pressed in that order and released in the
/// reverse order; none elsewhere.
pub proof fn lemma_paste_events_table()
    ensures
        paste_events(TargetOs::MacOs) == seq![
            KeyEvent::Press(Key::MetaLeft),
            KeyEvent::Press(Key::KeyV),
            KeyEvent::Release(Key::KeyV),
            KeyEvent::Release(Key::MetaLeft),
        ],
        paste_events(TargetOs::LinuxOrWindows) == seq![
            KeyEvent::Press(Key::ControlLeft),
            KeyEvent::Press(Key::KeyV),
            KeyEvent::Release(Key::KeyV),
            KeyEvent::Release(Key::ControlLeft),
        ],
        paste_events(TargetOs::Other) == Seq::<KeyEvent>::empty(),
{
    assert(paste_events(TargetOs::Other) =~= Seq::<KeyEvent>::empty());
}

} // verus!
