//! The telemetry sink of a worker: every transmitted, received or status
//! message becomes a timestamped record for the live observer and one
//! line for the worker's log file.

use crate::clock::millis_since;
use crate::clock::monotonic_now;
use crate::clock::timestamp_now;
use crate::clock::timestamp_shaped;
use crate::clock::utc_stamp_now;
use crate::clock::CalendarStamp;
use crate::payload::ending_text;
use crate::payload::framed;
use crate::payload::lemma_framed_is_text;
use crate::text::decimal;
use crate::text::padded;
use crate::text::render_decimal;
use crate::text::render_padded;
use crate::text::render_signed_padded;
use crate::text::signed_padded;
use crate::worker::Note;
use std::time::Instant;
use vstd::prelude::*;
use vstd::slice::slice_to_vec;
use vstd::string::StringExecFns;
use vstd::string::StringSliceAdditionalSpecFns;
use vstd::string::StrSliceExecFns;
use vstd::utf8::decode_utf8;
use vstd::utf8::encode_utf8;
use vstd::utf8::valid_utf8;

verus! {

/// The direction of a record: transmitted, received, or a status message
/// of the worker itself.
#[derive(Clone, Copy, Debug, PartialEq, Eq, Structural)]
pub enum Direction {
    Tx,
    Rx,
    Sys,
}

/// The family of transport that a record comes from.
#[derive(Clone, Copy, Debug, PartialEq, Eq, Structural)]
pub enum Origin {
    Serial,
    Socket,
}

/// One unit of observed traffic or status.
#[derive(Debug, PartialEq, Eq)]
pub struct TelemetryRecord {
    /// When the record was made, in RFC 3339 form.
    pub when_iso: String,
    /// The milliseconds since the same worker's previous record.
    pub interval_ms: u128,
    pub dir: Direction,
    pub origin: Origin,
    /// The bytes read as text, with invalid UTF-8 replaced.
    pub text: String,
    /// The bytes as they were.
    pub raw: Vec<u8>,
    pub conn_id: String,
}

/// What one emission hands to the outside: the record for the live
/// observer and the line for the log file.
#[derive(Debug, PartialEq, Eq)]
pub struct Emission {
    pub record: TelemetryRecord,
    pub log_line: String,
}

/// The text that `String::from_utf8_lossy` makes of `bytes`.
pub uninterp spec fn lossy_text(bytes: Seq<u8>) -> Seq<char>;

/// Whether `text` is what `bytes` read as: the lossy reading, which for
/// valid UTF-8 is the text that the bytes encode.
pub open spec fn reads_as(text: Seq<char>, bytes: Seq<u8>) -> bool {
    text == lossy_text(bytes) && (valid_utf8(bytes) ==> text == decode_utf8(bytes))
}

/// The name of a direction as records and log lines show it.
pub open spec fn direction_label(dir: Direction) -> Seq<char> {
    match dir {
        Direction::Tx => "TX"@,
        Direction::Rx => "RX"@,
        Direction::Sys => "SYS"@,
    }
}

/// The name of an origin as records and log file names show it.
pub open spec fn origin_label(origin: Origin) -> Seq<char> {
    match origin {
        Origin::Serial => "serial"@,
        Origin::Socket => "socket"@,
    }
}

/// A log line: `[<timestamp>] (<direction>) <interval> | <text>`.
pub open spec fn line_text(when: Seq<char>, dir: Direction, interval_ms: nat, text: Seq<char>) -> Seq<
    char,
> {
    "["@ + when + "] ("@ + direction_label(dir) + ") "@ + decimal(interval_ms) + " | "@ + text
}

/// The name of a worker's log file:
/// `<origin>_<connection id>_<YYYYMMDD>_<HHMMSS>.log`.
pub open spec fn file_name_text(origin: Origin, conn_id: Seq<char>, stamp: CalendarStamp) -> Seq<
    char,
> {
    origin_label(origin) + "_"@ + conn_id + "_"@ + signed_padded(stamp.year as int, 4) + padded(
        stamp.month as nat,
        2,
    ) + padded(stamp.day as nat, 2) + "_"@ + padded(stamp.hour as nat, 2) + padded(
        stamp.minute as nat,
        2,
    ) + padded(stamp.second as nat, 2) + ".log"@
}

/// Calls `String::from_utf8_lossy`, which reads bytes as UTF-8 text and
/// puts U+FFFD in place of what is not valid. Bytes that are valid UTF-8
/// come out as the text that they encode.
#[verifier::external_body]
pub(crate) fn lossy(bytes: &[u8]) -> (text: String)
    ensures
        text@ == lossy_text(bytes@),
        valid_utf8(bytes@) ==> text@ == decode_utf8(bytes@),
{
    String::from_utf8_lossy(bytes).into_owned()
}

/// The name of a direction.
pub fn direction_name(dir: Direction) -> (name: &'static str)
    ensures
        name@ == direction_label(dir),
{
    match dir {
        Direction::Tx => "TX",
        Direction::Rx => "RX",
        Direction::Sys => "SYS",
    }
}

/// The name of an origin.
pub fn origin_name(origin: Origin) -> (name: &'static str)
    ensures
        name@ == origin_label(origin),
{
    match origin {
        Origin::Serial => "serial",
        Origin::Socket => "socket",
    }
}

/// Formats one line of a worker's log.
pub fn log_line(when: &str, dir: Direction, interval_ms: u128, text: &str) -> (line: String)
    ensures
        line@ == line_text(when@, dir, interval_ms as nat, text@),
{
    let mut line = String::from_str("[");
    line.append(when);
    line.append("] (");
    line.append(direction_name(dir));
    line.append(") ");
    let interval = render_decimal(interval_ms);
    line.append(interval.as_str());
    line.append(" | ");
    line.append(text);
    line
}

/// Formats the name of the log file of a worker that starts at `stamp`.
pub fn log_file_name(origin: Origin, conn_id: &str, stamp: &CalendarStamp) -> (name: String)
    ensures
        name@ == file_name_text(origin, conn_id@, *stamp),
{
    let mut name = String::from_str(origin_name(origin));
    name.append("_");
    name.append(conn_id);
    name.append("_");
    let year = render_signed_padded(stamp.year as i64, 4);
    name.append(year.as_str());
    let month = render_padded(stamp.month as u128, 2);
    name.append(month.as_str());
    let day = render_padded(stamp.day as u128, 2);
    name.append(day.as_str());
    name.append("_");
    let hour = render_padded(stamp.hour as u128, 2);
    name.append(hour.as_str());
    let minute = render_padded(stamp.minute as u128, 2);
    name.append(minute.as_str());
    let second = render_padded(stamp.second as u128, 2);
    name.append(second.as_str());
    name.append(".log");
    name
}

/// The name of the log file of a worker that starts now: the file name
/// for the calendar fields of some moment.
pub fn rolling_log_file_name(origin: Origin, conn_id: &str) -> (name: String)
    ensures
        exists|stamp: CalendarStamp|
            stamp.in_range() && name@ == #[trigger] file_name_text(origin, conn_id@, stamp),
{
    let stamp = utc_stamp_now();
    log_file_name(origin, conn_id, &stamp)
}

/// Puts a record and its log line together from their parts.
pub fn compose(
    origin: Origin,
    conn_id: String,
    dir: Direction,
    raw: Vec<u8>,
    text: String,
    when: String,
    interval_ms: u128,
) -> (out: Emission)
    ensures
        out.record == (TelemetryRecord {
            when_iso: when,
            interval_ms,
            dir,
            origin,
            text,
            raw,
            conn_id,
        }),
        out.log_line@ == line_text(when@, dir, interval_ms as nat, text@),
{
    let log_line = log_line(when.as_str(), dir, interval_ms, text.as_str());
    Emission {
        record: TelemetryRecord { when_iso: when, interval_ms, dir, origin, text, raw, conn_id },
        log_line,
    }
}

/// The telemetry sink of one worker. It remembers when it last emitted,
/// on the monotonic clock, so that each record can say how long after
/// the previous one it came.
pub struct TelemetryLogger {
    origin: Origin,
    conn_id: String,
    /// The reading of the monotonic clock from which the next interval
    /// is measured.
    last: Instant,
}

impl TelemetryLogger {
    /// The origin that the sink's records carry.
    pub closed spec fn origin(&self) -> Origin {
        self.origin
    }

    /// The connection id that the sink's records carry.
    pub closed spec fn conn_id(&self) -> Seq<char> {
        self.conn_id@
    }

    /// The reading of the monotonic clock from which the next interval
    /// is measured: that of the last emission, or of the sink's making
    /// if it has not emitted yet.
    pub closed spec fn last(&self) -> Instant {
        self.last
    }

    /// A sink for the worker of connection `conn_id`, made at the reading
    /// `now`: the first interval is measured from there.
    pub fn new_at(origin: Origin, conn_id: &str, now: Instant) -> (sink: TelemetryLogger)
        ensures
            sink.origin() == origin,
            sink.conn_id() == conn_id@,
            sink.last() == now,
    {
        TelemetryLogger { origin, conn_id: String::from_str(conn_id), last: now }
    }

    /// A sink for the worker of connection `conn_id`. The first interval
    /// is measured from the reading taken here.
    pub fn new(origin: Origin, conn_id: &str) -> (sink: TelemetryLogger)
        ensures
            sink.origin() == origin,
            sink.conn_id() == conn_id@,
    {
        TelemetryLogger::new_at(origin, conn_id, monotonic_now())
    }

    /// The reading from which the next interval is measured.
    pub fn reference(&self) -> (reading: Instant)
        ensures
            reading == self.last(),
    {
        self.last
    }

    /// Makes the record and the log line of an emission from its parts,
    /// and restarts the interval at the reading `now`: whatever becomes
    /// of the record and the line afterwards, the next interval is
    /// measured from this emission.
    pub fn record_at(
        &mut self,
        dir: Direction,
        raw: Vec<u8>,
        text: String,
        when: String,
        interval_ms: u128,
        now: Instant,
    ) -> (out: Emission)
        ensures
            final(self).origin() == old(self).origin(),
            final(self).conn_id() == old(self).conn_id(),
            final(self).last() == now,
            out.record.dir == dir,
            out.record.origin == old(self).origin(),
            out.record.conn_id@ == old(self).conn_id(),
            out.record.raw == raw,
            out.record.text == text,
            out.record.when_iso == when,
            out.record.interval_ms == interval_ms,
            out.log_line@ == line_text(when@, dir, interval_ms as nat, text@),
    {
        let out = compose(self.origin, self.conn_id.clone(), dir, raw, text, when, interval_ms);
        self.last = now;
        out
    }

    /// Makes the record and the log line for `payload`, stamped with the
    /// current time and with the milliseconds that have passed since the
    /// reading kept from the previous emission, and restarts the interval
    /// at a reading taken now.
    pub fn emit(&mut self, dir: Direction, payload: &[u8]) -> (out: Emission)
        ensures
            final(self).origin() == old(self).origin(),
            final(self).conn_id() == old(self).conn_id(),
            out.record.dir == dir,
            out.record.origin == old(self).origin(),
            out.record.conn_id@ == old(self).conn_id(),
            out.record.raw@ == payload@,
            reads_as(out.record.text@, payload@),
            timestamp_shaped(out.record.when_iso@),
            out.record.interval_ms >= 0,
            out.log_line@ == line_text(
                out.record.when_iso@,
                dir,
                out.record.interval_ms as nat,
                out.record.text@,
            ),
    {
        let when = timestamp_now();
        let interval_ms = millis_since(&self.last);
        let text = lossy(payload);
        let raw = slice_to_vec(payload);
        self.record_at(dir, raw, text, when, interval_ms, monotonic_now())
    }

    /// Makes the record and the log line for a message given as text,
    /// stamped like any other, and restarts the interval at a reading
    /// taken now. The record's raw bytes are the UTF-8 bytes of the text.
    pub fn emit_text(&mut self, dir: Direction, text: &str) -> (out: Emission)
        ensures
            final(self).origin() == old(self).origin(),
            final(self).conn_id() == old(self).conn_id(),
            out.record.dir == dir,
            out.record.origin == old(self).origin(),
            out.record.conn_id@ == old(self).conn_id(),
            out.record.raw@ == encode_utf8(text@),
            out.record.text@ == text@,
            timestamp_shaped(out.record.when_iso@),
            out.record.interval_ms >= 0,
            out.log_line@ == line_text(
                out.record.when_iso@,
                dir,
                out.record.interval_ms as nat,
                text@,
            ),
    {
        let when = timestamp_now();
        let interval_ms = millis_since(&self.last);
        let raw = text.as_bytes_vec();
        self.record_at(dir, raw, String::from_str(text), when, interval_ms, monotonic_now())
    }

    /// Emits the record that a step of the worker's machine asked for.
    pub fn emit_note(&mut self, note: Note<Vec<u8>, String>) -> (out: Emission)
        ensures
            final(self).origin() == old(self).origin(),
            final(self).conn_id() == old(self).conn_id(),
            shows(out, old(self).origin(), old(self).conn_id(), note@),
    {
        match note {
            Note::Tx(bytes) => self.emit(Direction::Tx, bytes.as_slice()),
            Note::Rx(bytes) => self.emit(Direction::Rx, bytes.as_slice()),
            Note::Sys(text) => self.emit_text(Direction::Sys, text.as_str()),
        }
    }
}

/// Whether an emission is the one that `note` asks of a sink with the
/// given origin and connection id: the record carries the note's
/// direction, bytes and text and a timestamp, and the log line is that of
/// the record.
pub open spec fn shows(
    out: Emission,
    origin: Origin,
    conn_id: Seq<char>,
    note: Note<Seq<u8>, Seq<char>>,
) -> bool {
    &&& out.record.origin == origin
    &&& out.record.conn_id@ == conn_id
    &&& out.record.dir == note_direction(note)
    &&& out.record.raw@ == note_bytes(note)
    &&& note_reads_as(out.record.text@, note)
    &&& timestamp_shaped(out.record.when_iso@)
    &&& out.log_line@ == line_text(
        out.record.when_iso@,
        out.record.dir,
        out.record.interval_ms as nat,
        out.record.text@,
    )
}

/// The direction of the record that a note asks for.
pub open spec fn note_direction(note: Note<Seq<u8>, Seq<char>>) -> Direction {
    match note {
        Note::Tx(_) => Direction::Tx,
        Note::Rx(_) => Direction::Rx,
        Note::Sys(_) => Direction::Sys,
    }
}

/// The raw bytes of the record that a note asks for.
pub open spec fn note_bytes(note: Note<Seq<u8>, Seq<char>>) -> Seq<u8> {
    match note {
        Note::Tx(bytes) => bytes,
        Note::Rx(bytes) => bytes,
        Note::Sys(text) => encode_utf8(text),
    }
}

/// Whether `text` is the text of the record that a note asks for: the
/// reading of the bytes that were written or read, or the status message
/// itself.
pub open spec fn note_reads_as(text: Seq<char>, note: Note<Seq<u8>, Seq<char>>) -> bool {
    match note {
        Note::Tx(bytes) => reads_as(text, bytes),
        Note::Rx(bytes) => reads_as(text, bytes),
        Note::Sys(message) => text == message,
    }
}

/// The TX record of a transmitted text shows that text, followed by the
/// characters of its line ending: whatever `String::from_utf8_lossy`
/// does to other bytes, a framed payload is valid UTF-8 and is read back
/// unchanged.
pub proof fn lemma_tx_record_shows_payload(out: Emission, payload: Seq<char>, mode: Seq<char>)
    requires
        out.record.raw@ == framed(payload, mode),
        reads_as(out.record.text@, out.record.raw@),
    ensures
        out.record.text@ == payload + ending_text(mode),
{
    lemma_framed_is_text(payload, mode);
}

/// Workers that are open at once never share a log file: with years of
/// four digits, two log file names are the same only for the same origin
/// and the same connection id.
pub proof fn lemma_log_names_distinct(
    origin_a: Origin,
    id_a: Seq<char>,
    stamp_a: CalendarStamp,
    origin_b: Origin,
    id_b: Seq<char>,
    stamp_b: CalendarStamp,
)
    requires
        stamp_a.in_range(),
        stamp_b.in_range(),
        0 <= stamp_a.year <= 9999,
        0 <= stamp_b.year <= 9999,
        file_name_text(origin_a, id_a, stamp_a) == file_name_text(origin_b, id_b, stamp_b),
    ensures
        origin_a == origin_b,
        id_a == id_b,
{
    lemma_name_layout(origin_a, id_a, stamp_a);
    lemma_name_layout(origin_b, id_b, stamp_b);
    let name = file_name_text(origin_a, id_a, stamp_a);
    assert(id_a.len() == id_b.len());
    assert(origin_label(origin_a)[1] == name[1]);
    assert(origin_label(origin_b)[1] == name[1]);
    assert forall|k: int| 0 <= k < id_a.len() implies id_a[k] == id_b[k] by {
        assert(id_a[k] == name[7 + k]);
        assert(id_b[k] == name[7 + k]);
    }
    assert(id_a =~= id_b);
}

/// The layout of a log file name with a year of four digits: the origin
/// in its first six characters, the connection id from the eighth on,
/// and twenty characters after the id.
proof fn lemma_name_layout(origin: Origin, conn_id: Seq<char>, stamp: CalendarStamp)
    requires
        stamp.in_range(),
        0 <= stamp.year <= 9999,
    ensures
        file_name_text(origin, conn_id, stamp).len() == conn_id.len() + 27,
        file_name_text(origin, conn_id, stamp)[1] == origin_label(origin)[1],
        origin_label(origin)[1] == (if origin == Origin::Serial {
            'e'
        } else {
            'o'
        }),
        forall|k: int|
            0 <= k < conn_id.len() ==> #[trigger] file_name_text(origin, conn_id, stamp)[7 + k]
                == conn_id[k],
{
    reveal_strlit("serial");
    reveal_strlit("socket");
    reveal_strlit("_");
    reveal_strlit(".log");
    assert(crate::text::ten_pow(2) == 100 && crate::text::ten_pow(4) == 10000) by {
        reveal_with_fuel(crate::text::ten_pow, 5);
    }
    crate::text::lemma_padded_width(stamp.year as nat, 4);
    crate::text::lemma_padded_width(stamp.month as nat, 2);
    crate::text::lemma_padded_width(stamp.day as nat, 2);
    crate::text::lemma_padded_width(stamp.hour as nat, 2);
    crate::text::lemma_padded_width(stamp.minute as nat, 2);
    crate::text::lemma_padded_width(stamp.second as nat, 2);
    let head = origin_label(origin) + "_"@ + conn_id;
    assert(origin_label(origin).len() == 6);
    assert(head.len() == conn_id.len() + 7);
    assert(head[1] == origin_label(origin)[1]);
    assert forall|k: int| 0 <= k < conn_id.len() implies head[7 + k] == conn_id[k] by {}
    let name = file_name_text(origin, conn_id, stamp);
    assert(name.len() == head.len() + 20);
    assert forall|k: int| 0 <= k < head.len() implies name[k] == head[k] by {}
    assert forall|k: int| 0 <= k < conn_id.len() implies #[trigger] name[7 + k] == conn_id[k] by {
        assert(name[7 + k] == head[7 + k]);
    }
}

} // verus!
