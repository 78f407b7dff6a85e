use crate::json::{decimal, is_numeral_of, json_string, lemma_decimal_reads_back, push_decimal, quote_json};
use vstd::prelude::*;

verus! {

/// A local key event as the bridge reports it to its clients.
pub struct KeyEventRecord {
    /// The text that the event produced, if any; only such events are reported.
    pub name: Option<String>,
    /// Whole seconds of the event's time since the Unix epoch.
    pub time_secs: u64,
    /// Nanoseconds of the event's time past those seconds.
    pub time_nanos: u32,
    /// The kind of the event, as the input listener prints it.
    pub event_type: String,
    /// The local wall-clock time of the report, in RFC 3339.
    pub timestamp_local: String,
    /// The UTC time of the report, in RFC 3339.
    pub timestamp_utc: String,
    /// A fresh identifier of the report.
    pub uuid: String,
}

/// The JSON text of a key report: an object whose keys stand in sorted order, with the
/// event's time as an object of its nanoseconds and seconds since the epoch.
pub open spec fn report_json(
    name: Seq<char>,
    secs: nat,
    nanos: nat,
    event_type: Seq<char>,
    local: Seq<char>,
    utc: Seq<char>,
    uuid: Seq<char>,
) -> Seq<char> {
    "{\"event\":"@ + json_string(name) + ",\"event_time\":{\"nanos_since_epoch\":"@ + decimal(
        nanos,
    ) + ",\"secs_since_epoch\":"@ + decimal(secs) + "},\"event_type\":"@ + json_string(event_type)
        + ",\"timestamp_local\":"@ + json_string(local) + ",\"timestamp_utc\":"@ + json_string(utc)
        + ",\"uuid\":"@ + json_string(uuid) + "}"@
}

/// Whether a character is an ASCII decimal digit.
pub open spec fn is_digit(c: char) -> bool {
    '0' as u32 <= c as u32 <= '9' as u32
}

/// Whether the `count` characters of `s` from position `from` on are digits.
pub open spec fn digits_at(s: Seq<char>, from: int, count: int) -> bool {
    forall|i: int| from <= i < from + count ==> #[trigger] is_digit(s[i])
}

/// The layout of an RFC 3339 date and time with a year of `y` characters and a
/// fraction of `f` characters: the year (four digits, or a sign and at least four
/// digits), `-MM-DD`, `T`, `HH:MM:SS`, the fraction (nothing, or a dot and 3, 6 or 9
/// digits), and the offset `+HH:MM` or `-HH:MM`.
pub open spec fn rfc3339_layout(s: Seq<char>, y: int, f: int) -> bool {
    let o = y + 15 + f;
    &&& (y == 4 && digits_at(s, 0, 4)) || (y >= 5 && (s[0] == '+' || s[0] == '-') && digits_at(
        s,
        1,
        y - 1,
    ))
    &&& f == 0 || f == 4 || f == 7 || f == 10
    &&& s.len() == o + 6
    &&& s[y] == '-' && digits_at(s, y + 1, 2) && s[y + 3] == '-' && digits_at(s, y + 4, 2)
    &&& s[y + 6] == 'T' && digits_at(s, y + 7, 2) && s[y + 9] == ':'
    &&& digits_at(s, y + 10, 2) && s[y + 12] == ':' && digits_at(s, y + 13, 2)
    &&& f > 0 ==> s[y + 15] == '.' && digits_at(s, y + 16, f - 1)
    &&& (s[o] == '+' || s[o] == '-') && digits_at(s, o + 1, 2) && s[o + 3] == ':'
    &&& digits_at(s, o + 4, 2)
}

/// Whether a text is an RFC 3339 date and time as chrono's `to_rfc3339` writes it.
pub open spec fn is_rfc3339_text(s: Seq<char>) -> bool {
    exists|y: int, f: int| rfc3339_layout(s, y, f)
}

/// Whether a text ends in the zero offset `+00:00`.
pub open spec fn ends_in_zero_offset(s: Seq<char>) -> bool {
    &&& s.len() >= 6
    &&& s.subrange(s.len() - 6, s.len() as int) == seq!['+', '0', '0', ':', '0', '0']
}

/// Reads the local clock with `chrono::Local::now` and writes it with `to_rfc3339`.
/// Trusted: that the text has the layout of `write_rfc3339` with the seconds written
/// as `AutoSi` and the offset as hours and minutes (`is_rfc3339_text`). The time
/// itself and the local offset depend on the clock and the time zone and are not
/// stated.
#[verifier::external_body]
fn local_timestamp() -> (s: String)
    ensures
        is_rfc3339_text(s@),
{
    chrono::Local::now().to_rfc3339()
}

/// Reads the clock with `chrono::Utc::now` and writes it with `to_rfc3339`. Trusted:
/// the layout of `is_rfc3339_text`, with the zero offset `+00:00`, as `write_rfc3339`
/// writes a zero offset when it may not write `Z`. The time itself is not stated.
#[verifier::external_body]
fn utc_timestamp() -> (s: String)
    ensures
        is_rfc3339_text(s@),
        ends_in_zero_offset(s@),
{
    chrono::Utc::now().to_rfc3339()
}

/// Whether a text has the shape of a random (version 4) UUID in hyphenated lower-case
/// hexadecimal: 36 characters, hyphens at positions 8, 13, 18 and 23, and the version
/// digit `4` at position 14.
pub open spec fn is_v4_uuid_text(s: Seq<char>) -> bool {
    &&& s.len() == 36
    &&& s[8] == '-'
    &&& s[13] == '-'
    &&& s[18] == '-'
    &&& s[23] == '-'
    &&& s[14] == '4'
}

/// Draws a random UUID with `uuid::Uuid::new_v4` and writes it with `to_string`.
/// Trusted: the shape of the text (`is_v4_uuid_text`), which `new_v4`'s version mask
/// and the hyphenated formatter give; the random digits are not stated. `new_v4`
/// panics where the operating system gives no random bytes.
#[verifier::external_body]
fn fresh_uuid() -> (s: String)
    ensures
        is_v4_uuid_text(s@),
{
    uuid::Uuid::new_v4().to_string()
}

impl KeyEventRecord {
    /// The record of a key event with the given text, time and kind, stamped with the
    /// current local and UTC times and a fresh random identifier.
    pub fn capture(name: Option<String>, time_secs: u64, time_nanos: u32, event_type: String) -> (r: Self)
        ensures
            r.name == name,
            r.time_secs == time_secs,
            r.time_nanos == time_nanos,
            r.event_type == event_type,
            is_rfc3339_text(r.timestamp_local@),
            is_rfc3339_text(r.timestamp_utc@),
            ends_in_zero_offset(r.timestamp_utc@),
            is_v4_uuid_text(r.uuid@),
    {
        KeyEventRecord {
            name,
            time_secs,
            time_nanos,
            event_type,
            timestamp_local: local_timestamp(),
            timestamp_utc: utc_timestamp(),
            uuid: fresh_uuid(),
        }
    }

    /// The report of this event, when the event produced a text.
    pub open spec fn report(&self) -> Option<Seq<char>> {
        match self.name {
            Some(n) => Some(
                report_json(
                    n@,
                    self.time_secs as nat,
                    self.time_nanos as nat,
                    self.event_type@,
                    self.timestamp_local@,
                    self.timestamp_utc@,
                    self.uuid@,
                ),
            ),
            None => None,
        }
    }

    /// The JSON report of this event, or `None` for an event that produced no text.
    pub fn to_json(&self) -> (msg: Option<String>)
        ensures
            msg matches Some(m) ==> self.report() == Some(m@),
            msg is None ==> self.report() is None,
    {
        let name = match &self.name {
            Some(n) => n,
            None => {
                return None;
            },
        };
        let mut out = String::new();
        out.append("{\"event\":");
        out.append(quote_json(name.as_str()).as_str());
        out.append(",\"event_time\":{\"nanos_since_epoch\":");
        push_decimal(&mut out, self.time_nanos as u64);
        out.append(",\"secs_since_epoch\":");
        push_decimal(&mut out, self.time_secs);
        out.append("},\"event_type\":");
        out.append(quote_json(self.event_type.as_str()).as_str());
        out.append(",\"timestamp_local\":");
        out.append(quote_json(self.timestamp_local.as_str()).as_str());
        out.append(",\"timestamp_utc\":");
        out.append(quote_json(self.timestamp_utc.as_str()).as_str());
        out.append(",\"uuid\":");
        out.append(quote_json(self.uuid.as_str()).as_str());
        out.append("}");
        Some(out)
    }
}

/// The time of a key event reads back from its report: after the event's text, the
/// report holds `,"event_time":{"nanos_since_epoch":`, a numeral of the event's
/// nanoseconds, `,"secs_since_epoch":`, a numeral of its seconds, and `},`.
pub proof fn lemma_report_time_reads_back(
    name: Seq<char>,
    secs: nat,
    nanos: nat,
    event_type: Seq<char>,
    local: Seq<char>,
    utc: Seq<char>,
    uuid: Seq<char>,
)
    ensures
        exists|a: Seq<char>, b: Seq<char>|
            #![trigger is_numeral_of(a, nanos), is_numeral_of(b, secs)]
            {
                let p = "{\"event\":"@ + json_string(name) + ",\"event_time\":{\"nanos_since_epoch\":"@;
                let k = ",\"secs_since_epoch\":"@;
                let x = p + a + k + b + seq!['}', ','];
                &&& is_numeral_of(a, nanos)
                &&& is_numeral_of(b, secs)
                &&& report_json(name, secs, nanos, event_type, local, utc, uuid).len() >= x.len()
                &&& report_json(name, secs, nanos, event_type, local, utc, uuid).subrange(
                    0,
                    x.len() as int,
                ) == x
            },
{
    let a = decimal(nanos);
    let b = decimal(secs);
    lemma_decimal_reads_back(nanos);
    lemma_decimal_reads_back(secs);
    reveal_strlit("},\"event_type\":");
    let p = "{\"event\":"@ + json_string(name) + ",\"event_time\":{\"nanos_since_epoch\":"@;
    let k = ",\"secs_since_epoch\":"@;
    let head = p + a + k + b;
    let tail = "},\"event_type\":"@ + json_string(event_type) + ",\"timestamp_local\":"@
        + json_string(local) + ",\"timestamp_utc\":"@ + json_string(utc) + ",\"uuid\":"@
        + json_string(uuid) + "}"@;
    let r = report_json(name, secs, nanos, event_type, local, utc, uuid);
    assert(r =~= head + tail);
    assert(tail[0] == '}' && tail[1] == ',');
    let x = head + seq!['}', ','];
    assert(r.subrange(0, x.len() as int) =~= x);
}

/// The report of a key event, key by key in sorted order: the event's text under
/// "event", its time under "event_time" as the numerals of its nanoseconds and seconds
/// since the epoch, its kind under "event_type", the local and the UTC time of the
/// report under "timestamp_local" and "timestamp_utc", and the report's identifier
/// under "uuid", each text written as a JSON string.
pub proof fn lemma_report_layout(
    name: Seq<char>,
    secs: nat,
    nanos: nat,
    event_type: Seq<char>,
    local: Seq<char>,
    utc: Seq<char>,
    uuid: Seq<char>,
)
    ensures
        report_json(name, secs, nanos, event_type, local, utc, uuid) == seq!['{', '"', 'e', 'v', 'e', 'n', 't', '"', ':']
            + json_string(name) + seq![',', '"', 'e', 'v', 'e', 'n', 't', '_', 't', 'i', 'm', 'e', '"', ':', '{']
            + seq!['"', 'n', 'a', 'n', 'o', 's', '_', 's', 'i', 'n', 'c', 'e', '_', 'e', 'p', 'o', 'c', 'h', '"', ':']
            + decimal(nanos)
            + seq![',', '"', 's', 'e', 'c', 's', '_', 's', 'i', 'n', 'c', 'e', '_', 'e', 'p', 'o', 'c', 'h', '"', ':']
            + decimal(secs) + seq!['}', ',', '"', 'e', 'v', 'e', 'n', 't', '_', 't', 'y', 'p', 'e', '"', ':']
            + json_string(event_type)
            + seq![',', '"', 't', 'i', 'm', 'e', 's', 't', 'a', 'm', 'p', '_', 'l', 'o', 'c', 'a', 'l', '"', ':']
            + json_string(local)
            + seq![',', '"', 't', 'i', 'm', 'e', 's', 't', 'a', 'm', 'p', '_', 'u', 't', 'c', '"', ':']
            + json_string(utc) + seq![',', '"', 'u', 'u', 'i', 'd', '"', ':'] + json_string(uuid)
            + seq!['}'],
{
    reveal_strlit("{\"event\":");
    reveal_strlit(",\"event_time\":{\"nanos_since_epoch\":");
    reveal_strlit(",\"secs_since_epoch\":");
    reveal_strlit("},\"event_type\":");
    reveal_strlit(",\"timestamp_local\":");
    reveal_strlit(",\"timestamp_utc\":");
    reveal_strlit(",\"uuid\":");
    reveal_strlit("}");
    assert(report_json(name, secs, nanos, event_type, local, utc, uuid) =~= seq!['{', '"', 'e', 'v', 'e', 'n', 't', '"', ':']
            + json_string(name) + seq![',', '"', 'e', 'v', 'e', 'n', 't', '_', 't', 'i', 'm', 'e', '"', ':', '{']
            + seq!['"', 'n', 'a', 'n', 'o', 's', '_', 's', 'i', 'n', 'c', 'e', '_', 'e', 'p', 'o', 'c', 'h', '"', ':']
            + decimal(nanos)
            + seq![',', '"', 's', 'e', 'c', 's', '_', 's', 'i', 'n', 'c', 'e', '_', 'e', 'p', 'o', 'c', 'h', '"', ':']
            + decimal(secs) + seq!['}', ',', '"', 'e', 'v', 'e', 'n', 't', '_', 't', 'y', 'p', 'e', '"', ':']
            + json_string(event_type)
            + seq![',', '"', 't', 'i', 'm', 'e', 's', 't', 'a', 'm', 'p', '_', 'l', 'o', 'c', 'a', 'l', '"', ':']
            + json_string(local)
            + seq![',', '"', 't', 'i', 'm', 'e', 's', 't', 'a', 'm', 'p', '_', 'u', 't', 'c', '"', ':']
            + json_string(utc) + seq![',', '"', 'u', 'u', 'i', 'd', '"', ':'] + json_string(uuid)
            + seq!['}']);
}

/// The report of a recorded event is the report of its own fields, and an event that
/// produced no text has none.
pub proof fn lemma_record_report(rec: KeyEventRecord)
    ensures
        rec.name matches Some(n) ==> rec.report() == Some(
            report_json(
                n@,
                rec.time_secs as nat,
                rec.time_nanos as nat,
                rec.event_type@,
                rec.timestamp_local@,
                rec.timestamp_utc@,
                rec.uuid@,
            ),
        ),
        rec.name is None ==> rec.report() == None::<Seq<char>>,
{
}

} // verus!
