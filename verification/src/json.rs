use std::collections::HashMap;
use vstd::prelude::*;

verus! {

/// A JSON value as the protocol reads it: its kind, and the text of a string.
pub enum JsonValue {
    Null,
    Bool(bool),
    Number,
    Text(Seq<char>),
    Array,
    Object,
}

/// A field of a client message, looked up by its key in the message's JSON object.
#[derive(Debug, PartialEq, Eq)]
pub enum Field {
    /// The object has no such key.
    Absent,
    /// The key holds `null`.
    Null,
    /// The key holds a boolean.
    Bool(bool),
    /// The key holds a number.
    Number,
    /// The key holds this string.
    Text(String),
    /// The key holds an array.
    Array,
    /// The key holds an object.
    Object,
}

impl View for Field {
    /// `None` for an absent key, else the value that the key holds.
    type V = Option<JsonValue>;

    open spec fn view(&self) -> Option<JsonValue> {
        match self {
            Field::Absent => None,
            Field::Null => Some(JsonValue::Null),
            Field::Bool(b) => Some(JsonValue::Bool(*b)),
            Field::Number => Some(JsonValue::Number),
            Field::Text(s) => Some(JsonValue::Text(s@)),
            Field::Array => Some(JsonValue::Array),
            Field::Object => Some(JsonValue::Object),
        }
    }
}


/// The value of a field keeps its kind and the text of a string: an absent key is
/// `None`, and a present one the value it holds.
pub proof fn lemma_field_view_faithful(f: Field)
    ensures
        f matches Field::Absent ==> f@ == None::<JsonValue>,
        f matches Field::Null ==> f@ == Some(JsonValue::Null),
        f matches Field::Bool(b) ==> f@ == Some(JsonValue::Bool(b)),
        f matches Field::Number ==> f@ == Some(JsonValue::Number),
        f matches Field::Text(s) ==> f@ == Some(JsonValue::Text(s@)),
        f matches Field::Array ==> f@ == Some(JsonValue::Array),
        f matches Field::Object ==> f@ == Some(JsonValue::Object),
{
}

/// What parsing `text` as a JSON object with string keys gives: the value under each
/// key (the last one where a key repeats), or, where the text is no such object, the
/// debug text of the parser's error.
pub uninterp spec fn json_object(text: Seq<char>) -> Result<Map<Seq<char>, JsonValue>, Seq<char>>;

/// The value under `key` in a parsed object, `None` where the key is absent.
pub open spec fn object_field(object: Map<Seq<char>, JsonValue>, key: Seq<char>) -> Option<JsonValue> {
    if object.contains_key(key) {
        Some(object[key])
    } else {
        None
    }
}

/// Parses `text` with `serde_json::from_str` into a map from strings to JSON values
/// and reads the value under `key`. Trusted: that the result is `Ok` exactly when
/// `json_object` of the text is, with the field that `json_object` gives under `key`,
/// and that an error is handed back as the debug text that `json_object` names.
#[verifier::external_body]
pub(crate) fn parse_object_field(text: &str, key: &str) -> (r: Result<Field, String>)
    ensures
        match json_object(text@) {
            Ok(object) => r matches Ok(f) && f@ == object_field(object, key@),
            Err(e) => r matches Err(s) && s@ == e,
        },
{
    match serde_json::from_str::<HashMap<String, serde_json::Value>>(text) {
        Ok(map) => Ok(match map.get(key) {
            None => Field::Absent,
            Some(serde_json::Value::Null) => Field::Null,
            Some(serde_json::Value::Bool(b)) => Field::Bool(*b),
            Some(serde_json::Value::Number(_)) => Field::Number,
            Some(serde_json::Value::String(s)) => Field::Text(s.clone()),
            Some(serde_json::Value::Array(_)) => Field::Array,
            Some(serde_json::Value::Object(_)) => Field::Object,
        }),
        Err(e) => Err(format!("{:?}", e)),
    }
}

/// The lower-case hexadecimal digit of a value below 16.
pub open spec fn hex_digit(d: int) -> char {
    if d < 10 {
        ('0' as int + d) as char
    } else {
        ('a' as int + d - 10) as char
    }
}

/// How one character stands inside a JSON string: quote, backslash and the control
/// characters below U+0020 are escaped (the five with a short escape by it, the others
/// as `\u00XX` in lower-case hexadecimal); every other character stands for itself.
pub open spec fn json_escape(c: char) -> Seq<char> {
    let code = c as u32;
    if c == '"' {
        seq!['\\', '"']
    } else if c == '\\' {
        seq!['\\', '\\']
    } else if code == 8 {
        seq!['\\', 'b']
    } else if code == 12 {
        seq!['\\', 'f']
    } else if c == '\n' {
        seq!['\\', 'n']
    } else if c == '\r' {
        seq!['\\', 'r']
    } else if c == '\t' {
        seq!['\\', 't']
    } else if code < 32 {
        seq!['\\', 'u', '0', '0', hex_digit(code as int / 16), hex_digit(code as int % 16)]
    } else {
        seq![c]
    }
}

/// The characters of a text, each escaped for a JSON string.
pub open spec fn json_escaped(s: Seq<char>) -> Seq<char>
    decreases s.len(),
{
    if s.len() == 0 {
        seq![]
    } else {
        json_escaped(s.drop_last()) + json_escape(s.last())
    }
}

/// A text written as a JSON string literal.
pub open spec fn json_string(s: Seq<char>) -> Seq<char> {
    seq!['"'] + json_escaped(s) + seq!['"']
}

/// Writes `s` as a JSON string with `serde_json::to_string`. Trusted: that the
/// result is `json_string` of `s`, which is how serde_json's compact formatter
/// escapes a string (its table of escapes and `write_char_escape`); serialising a
/// string into memory cannot fail.
#[verifier::external_body]
pub(crate) fn quote_json(s: &str) -> (r: String)
    ensures
        r@ == json_string(s@),
{
    serde_json::to_string(s).unwrap_or_default()
}

/// The character of a decimal digit.
pub open spec fn digit_char(d: int) -> char {
    ('0' as int + d) as char
}

/// The decimal numeral of `n`, without leading zeros.
pub open spec fn decimal(n: nat) -> Seq<char>
    decreases n,
{
    if n < 10 {
        seq![digit_char(n as int)]
    } else {
        decimal(n / 10) + seq![digit_char((n % 10) as int)]
    }
}

fn digit_str(d: u64) -> (s: &'static str)
    requires
        d < 10,
    ensures
        s@ == seq![digit_char(d as int)],
{
    proof {
        reveal_strlit("0");
        reveal_strlit("1");
        reveal_strlit("2");
        reveal_strlit("3");
        reveal_strlit("4");
        reveal_strlit("5");
        reveal_strlit("6");
        reveal_strlit("7");
        reveal_strlit("8");
        reveal_strlit("9");
    }
    if d == 0 {
        "0"
    } else if d == 1 {
        "1"
    } else if d == 2 {
        "2"
    } else if d == 3 {
        "3"
    } else if d == 4 {
        "4"
    } else if d == 5 {
        "5"
    } else if d == 6 {
        "6"
    } else if d == 7 {
        "7"
    } else if d == 8 {
        "8"
    } else {
        "9"
    }
}

/// The number that a text of decimal digits reads as, most significant digit first.
pub open spec fn numeral_value(s: Seq<char>) -> nat
    decreases s.len(),
{
    if s.len() == 0 {
        0
    } else {
        numeral_value(s.drop_last()) * 10 + ((s.last() as u32) - ('0' as u32)) as nat
    }
}

/// Whether a text is a decimal numeral of `n`: one or more decimal digits that read
/// as `n`.
pub open spec fn is_numeral_of(s: Seq<char>, n: nat) -> bool {
    &&& s.len() > 0
    &&& forall|i: int| 0 <= i < s.len() ==> '0' as u32 <= #[trigger] s[i] as u32 <= '9' as u32
    &&& numeral_value(s) == n
}

/// The decimal numeral of a number reads back as that number.
pub proof fn lemma_decimal_reads_back(n: nat)
    ensures
        is_numeral_of(decimal(n), n),
    decreases n,
{
    if n < 10 {
        let d = decimal(n);
        assert(d.drop_last() =~= Seq::<char>::empty());
        assert((d.last() as u32) == '0' as u32 + n);
        assert(d.len() == 1 && d[0] == d.last());
        assert(numeral_value(d) == numeral_value(d.drop_last()) * 10 + n);
        assert(numeral_value(d.drop_last()) == 0);
    } else {
        lemma_decimal_reads_back(n / 10);
        let d = decimal(n);
        let r = (n % 10) as int;
        assert(d.drop_last() =~= decimal(n / 10));
        assert(d.last() == digit_char(r));
        assert((d.last() as u32) == '0' as u32 + r);
        assert(numeral_value(d) == (n / 10) * 10 + r);
        assert((n / 10) * 10 + n % 10 == n) by (nonlinear_arith);
        assert forall|i: int| 0 <= i < d.len() implies '0' as u32 <= #[trigger] d[i] as u32 <= '9' as u32 by {
            if i < d.len() - 1 {
                assert(d[i] == decimal(n / 10)[i]);
            } else {
                assert(d[i] == d.last());
            }
        }
    }
}

/// Appends the decimal numeral of `n` to `out`, as JSON writes an unsigned integer.
pub fn push_decimal(out: &mut String, n: u64)
    ensures
        final(out)@ == old(out)@ + decimal(n as nat),
    decreases n,
{
    if n >= 10 {
        push_decimal(out, n / 10);
    }
    out.append(digit_str(n % 10));
    assert(n < 10 ==> n % 10 == n);
}

} // verus!
