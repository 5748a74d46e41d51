use portlink::clock::prefer_local;
use portlink::clock::timestamp_now;
use portlink::clock::timestamp_or_epoch;
use portlink::clock::utc_stamp_now;
use portlink::clock::CalendarStamp;
use portlink::telemetry::compose;
use portlink::telemetry::rolling_log_file_name;
use portlink::telemetry::direction_name;
use portlink::telemetry::log_file_name;
use portlink::telemetry::log_line;
use portlink::telemetry::origin_name;
use portlink::telemetry::Direction;
use portlink::telemetry::Origin;
use portlink::telemetry::TelemetryLogger;
use portlink::worker::Note;
use std::time::Duration;
use std::time::Instant;

#[test]
fn directions_and_origins_have_their_names() {
    assert_eq!(direction_name(Direction::Tx), "TX");
    assert_eq!(direction_name(Direction::Rx), "RX");
    assert_eq!(direction_name(Direction::Sys), "SYS");
    assert_eq!(origin_name(Origin::Serial), "serial");
    assert_eq!(origin_name(Origin::Socket), "socket");
}

#[test]
fn log_line_has_the_documented_format() {
    assert_eq!(
        log_line("2024-03-07T04:05:09Z", Direction::Tx, 12, "AT"),
        "[2024-03-07T04:05:09Z] (TX) 12 | AT"
    );
    assert_eq!(log_line("", Direction::Sys, 0, ""), "[] (SYS) 0 | ");
    assert_eq!(
        log_line("t", Direction::Rx, u128::MAX, "x | y"),
        format!("[{}] ({}) {} | {}", "t", "RX", u128::MAX, "x | y")
    );
}

#[test]
fn log_file_name_pads_every_field() {
    let stamp = CalendarStamp { year: 2024, month: 3, day: 7, hour: 4, minute: 5, second: 9 };
    assert_eq!(log_file_name(Origin::Serial, "main", &stamp), "serial_main_20240307_040509.log");
    let late = CalendarStamp { year: 1999, month: 12, day: 31, hour: 23, minute: 59, second: 59 };
    assert_eq!(log_file_name(Origin::Socket, "bench-2", &late), "socket_bench-2_19991231_235959.log");
}

#[test]
fn log_file_name_formats_like_the_standard_formatter() {
    let stamps = [
        CalendarStamp { year: 0, month: 1, day: 1, hour: 0, minute: 0, second: 0 },
        CalendarStamp { year: 987, month: 10, day: 9, hour: 10, minute: 9, second: 10 },
        CalendarStamp { year: 12345, month: 2, day: 29, hour: 1, minute: 2, second: 3 },
        CalendarStamp { year: -5, month: 6, day: 15, hour: 12, minute: 30, second: 45 },
        CalendarStamp { year: -12345, month: 6, day: 15, hour: 12, minute: 30, second: 45 },
        CalendarStamp { year: i32::MIN, month: 255, day: 0, hour: 100, minute: 200, second: 99 },
        CalendarStamp { year: i32::MAX, month: 0, day: 255, hour: 255, minute: 0, second: 255 },
    ];
    for s in stamps {
        let expected = format!(
            "{}_{}_{:04}{:02}{:02}_{:02}{:02}{:02}.log",
            "serial", "id", s.year, s.month, s.day, s.hour, s.minute, s.second
        );
        assert_eq!(log_file_name(Origin::Serial, "id", &s), expected);
    }
}

#[test]
fn rolling_log_name_carries_origin_id_and_a_utc_stamp() {
    let before = utc_stamp_now();
    let name = rolling_log_file_name(Origin::Socket, "main");
    let after = utc_stamp_now();
    let from = log_file_name(Origin::Socket, "main", &before);
    let to = log_file_name(Origin::Socket, "main", &after);
    assert!(name.starts_with("socket_main_"));
    assert!(name.ends_with(".log"));
    assert_eq!(name.len(), "socket_main_YYYYMMDD_HHMMSS.log".len());
    assert!(from <= name && name <= to);
}

#[test]
fn utc_stamp_fields_are_within_their_ranges() {
    let stamp = utc_stamp_now();
    assert!(stamp.year >= 2024);
    assert!(1 <= stamp.month && stamp.month <= 12);
    assert!(1 <= stamp.day && stamp.day <= 31);
    assert!(stamp.hour < 24);
    assert!(stamp.minute < 60);
    assert!(stamp.second < 60);
}

#[test]
fn timestamp_falls_back_to_the_epoch() {
    assert_eq!(timestamp_or_epoch(None), "1970-01-01T00:00:00Z");
    assert_eq!(timestamp_or_epoch(Some("2024-03-07T04:05:09+01:00".to_string())), "2024-03-07T04:05:09+01:00");
    assert_eq!(timestamp_or_epoch(Some(String::new())), "");
}

#[test]
fn timestamp_now_is_in_rfc_3339_form() {
    let text = timestamp_now();
    let bytes = text.as_bytes();
    assert!(bytes.len() >= 20);
    assert_eq!(bytes[4], b'-');
    assert_eq!(bytes[7], b'-');
    assert_eq!(bytes[10], b'T');
    assert_eq!(bytes[13], b':');
    assert_eq!(bytes[16], b':');
    for i in [0usize, 1, 2, 3, 5, 6, 8, 9, 11, 12, 14, 15, 17, 18] {
        assert!(bytes[i].is_ascii_digit());
    }
    let year: u32 = text[0..4].parse().unwrap();
    assert!(year >= 2024);
    let n: usize = bytes.len();
    if bytes[n - 1] != b'Z' {
        assert!(n >= 25);
        assert!(bytes[n - 6] == b'+' || bytes[n - 6] == b'-');
        assert!(bytes[n - 5].is_ascii_digit() && bytes[n - 4].is_ascii_digit());
        assert_eq!(bytes[n - 3], b':');
        assert!(bytes[n - 2].is_ascii_digit() && bytes[n - 1].is_ascii_digit());
    }
}

#[test]
fn the_local_reading_is_preferred_to_the_utc_reading() {
    let epoch = time::OffsetDateTime::UNIX_EPOCH;
    let later = epoch + time::Duration::days(365);
    assert_eq!(prefer_local(Some(later), epoch), later);
    assert_eq!(prefer_local(None, epoch), epoch);
    assert_eq!(prefer_local(None, later), later);
}

#[test]
fn records_carry_a_timestamp_of_rfc_3339_shape() {
    let mut sink = TelemetryLogger::new(Origin::Serial, "main");
    let out = sink.emit(Direction::Tx, b"AT");
    let when = out.record.when_iso.as_bytes();
    assert!(when.len() >= 20);
    assert_eq!(when[4], b'-');
    assert_eq!(when[7], b'-');
    assert_eq!(when[10], b'T');
    assert_eq!(when[13], b':');
    assert_eq!(when[16], b':');
    assert!(out.log_line.starts_with(&format!("[{}] (TX) ", out.record.when_iso)));
}

#[test]
fn compose_puts_the_parts_into_record_and_line() {
    let out = compose(
        Origin::Serial,
        "main".to_string(),
        Direction::Rx,
        vec![79, 75],
        "OK".to_string(),
        "2024-03-07T04:05:09Z".to_string(),
        250,
    );
    assert_eq!(out.record.when_iso, "2024-03-07T04:05:09Z");
    assert_eq!(out.record.interval_ms, 250);
    assert_eq!(out.record.dir, Direction::Rx);
    assert_eq!(out.record.origin, Origin::Serial);
    assert_eq!(out.record.text, "OK");
    assert_eq!(out.record.raw, vec![79, 75]);
    assert_eq!(out.record.conn_id, "main");
    assert_eq!(out.log_line, "[2024-03-07T04:05:09Z] (RX) 250 | OK");
}

#[test]
fn emit_records_the_bytes_and_their_text() {
    let mut sink = TelemetryLogger::new(Origin::Serial, "main");
    let out = sink.emit(Direction::Tx, b"AT\r\n");
    assert_eq!(out.record.dir, Direction::Tx);
    assert_eq!(out.record.origin, Origin::Serial);
    assert_eq!(out.record.conn_id, "main");
    assert_eq!(out.record.raw, b"AT\r\n".to_vec());
    assert_eq!(out.record.text, "AT\r\n");
    assert_eq!(
        out.log_line,
        format!("[{}] (TX) {} | AT\r\n", out.record.when_iso, out.record.interval_ms)
    );
}

#[test]
fn emit_replaces_invalid_utf8_in_the_text_only() {
    let mut sink = TelemetryLogger::new(Origin::Socket, "aux");
    let out = sink.emit(Direction::Rx, &[0x4f, 0xff, 0x4b]);
    assert_eq!(out.record.raw, vec![0x4f, 0xff, 0x4b]);
    assert_eq!(out.record.text, "O\u{fffd}K");
    assert_eq!(out.record.origin, Origin::Socket);
    assert!(out.log_line.ends_with(" | O\u{fffd}K"));
    let empty = sink.emit(Direction::Rx, &[]);
    assert_eq!(empty.record.text, "");
    assert!(empty.record.raw.is_empty());
}

#[test]
fn emit_text_records_the_text_and_its_bytes() {
    let mut sink = TelemetryLogger::new(Origin::Socket, "main");
    let out = sink.emit_text(Direction::Sys, "[INFO] caf\u{e9}");
    assert_eq!(out.record.dir, Direction::Sys);
    assert_eq!(out.record.text, "[INFO] caf\u{e9}");
    assert_eq!(out.record.raw, "[INFO] caf\u{e9}".as_bytes().to_vec());
    assert_eq!(
        out.log_line,
        format!("[{}] (SYS) {} | [INFO] caf\u{e9}", out.record.when_iso, out.record.interval_ms)
    );
}

#[test]
fn emit_note_picks_direction_and_text() {
    let mut sink = TelemetryLogger::new(Origin::Serial, "main");
    let tx = sink.emit_note(Note::Tx(b"AT".to_vec()));
    assert_eq!(tx.record.dir, Direction::Tx);
    assert_eq!(tx.record.raw, b"AT".to_vec());
    assert_eq!(tx.record.text, "AT");
    let rx = sink.emit_note(Note::Rx(vec![0xc3, 0x28]));
    assert_eq!(rx.record.dir, Direction::Rx);
    assert_eq!(rx.record.text, "\u{fffd}(");
    let sys = sink.emit_note(Note::Sys("[ERROR] read failed: reset".to_string()));
    assert_eq!(sys.record.dir, Direction::Sys);
    assert_eq!(sys.record.text, "[ERROR] read failed: reset");
    assert_eq!(sys.record.raw, b"[ERROR] read failed: reset".to_vec());
}

#[test]
fn intervals_are_measured_from_the_previous_emission() {
    let mut sink = TelemetryLogger::new(Origin::Serial, "main");
    let first = sink.emit(Direction::Tx, b"a");
    let second = sink.emit(Direction::Rx, b"b");
    let third = sink.emit_text(Direction::Sys, "c");
    assert!(first.record.interval_ms < 10_000);
    assert!(second.record.interval_ms < 10_000);
    assert!(third.record.interval_ms < 10_000);
}

#[test]
fn log_file_names_differ_with_origin_and_id() {
    let stamp = CalendarStamp { year: 2024, month: 3, day: 7, hour: 4, minute: 5, second: 9 };
    let later = CalendarStamp { year: 2024, month: 3, day: 7, hour: 4, minute: 5, second: 10 };
    let cases = [
        (Origin::Serial, "main"),
        (Origin::Socket, "main"),
        (Origin::Serial, "main_"),
        (Origin::Serial, "main_20240307"),
        (Origin::Serial, ""),
        (Origin::Socket, "_"),
    ];
    let mut names: Vec<String> = Vec::new();
    for (origin, id) in cases {
        names.push(log_file_name(origin, id, &stamp));
        names.push(log_file_name(origin, id, &later));
    }
    for i in 0..names.len() {
        for j in 0..names.len() {
            assert_eq!(names[i] == names[j], i == j);
        }
    }
}

#[test]
fn a_new_sink_measures_from_the_reading_it_was_made_at() {
    let made = Instant::now();
    let sink = TelemetryLogger::new_at(Origin::Serial, "main", made);
    assert_eq!(sink.reference(), made);
    let before = Instant::now();
    let fresh = TelemetryLogger::new(Origin::Socket, "aux");
    let after = Instant::now();
    assert!(before <= fresh.reference() && fresh.reference() <= after);
}

#[test]
fn record_at_restarts_the_interval_at_the_given_reading() {
    let made = Instant::now();
    let first = made + Duration::from_millis(250);
    let second = first + Duration::from_millis(40);
    let mut sink = TelemetryLogger::new_at(Origin::Serial, "main", made);
    let out = sink.record_at(
        Direction::Tx,
        b"AT".to_vec(),
        "AT".to_string(),
        "2024-03-07T04:05:09Z".to_string(),
        250,
        first,
    );
    assert_eq!(sink.reference(), first);
    assert_eq!(out.record.interval_ms, 250);
    assert_eq!(out.record.when_iso, "2024-03-07T04:05:09Z");
    assert_eq!(out.record.dir, Direction::Tx);
    assert_eq!(out.record.origin, Origin::Serial);
    assert_eq!(out.record.conn_id, "main");
    assert_eq!(out.record.raw, b"AT".to_vec());
    assert_eq!(out.record.text, "AT");
    assert_eq!(out.log_line, "[2024-03-07T04:05:09Z] (TX) 250 | AT");
    let next = sink.record_at(
        Direction::Rx,
        b"OK".to_vec(),
        "OK".to_string(),
        "2024-03-07T04:05:09.04Z".to_string(),
        40,
        second,
    );
    assert_eq!(sink.reference(), second);
    assert_eq!(next.log_line, "[2024-03-07T04:05:09.04Z] (RX) 40 | OK");
}

#[test]
fn emit_measures_from_the_previous_emission_and_restarts() {
    let long_ago = Instant::now().checked_sub(Duration::from_secs(5)).unwrap();
    let mut sink = TelemetryLogger::new_at(Origin::Serial, "main", long_ago);
    let before = Instant::now();
    let first = sink.emit(Direction::Tx, b"a");
    let restarted = sink.reference();
    assert!(first.record.interval_ms >= 5_000);
    assert!(first.record.interval_ms < 15_000);
    assert!(restarted >= before);
    let second = sink.emit(Direction::Rx, b"b");
    assert!(second.record.interval_ms < 5_000);
    assert!(sink.reference() >= restarted);
}

#[test]
fn emit_text_measures_from_the_previous_emission_and_restarts() {
    let long_ago = Instant::now().checked_sub(Duration::from_secs(5)).unwrap();
    let mut sink = TelemetryLogger::new_at(Origin::Socket, "main", long_ago);
    let before = Instant::now();
    let first = sink.emit_text(Direction::Sys, "[INFO] up");
    assert!(first.record.interval_ms >= 5_000);
    assert!(first.record.interval_ms < 15_000);
    assert!(sink.reference() >= before);
    let second = sink.emit_text(Direction::Sys, "[INFO] still up");
    assert!(second.record.interval_ms < 5_000);
}
