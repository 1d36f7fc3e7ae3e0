use getraenkekassengeraete::backoff::Backoff;
use getraenkekassengeraete::barcode::{InputRecord, ScanState, parse_record};
use getraenkekassengeraete::bytes::{u8_2, u8_4, u8_8};
use getraenkekassengeraete::storno::{DebounceState, contains_token};

/// One raw input record, little-endian, as the device delivers it.
fn record_bytes(kind: u16, code: u16, value: i32) -> Vec<u8> {
    let mut b = Vec::new();
    b.extend_from_slice(&0i64.to_le_bytes());
    b.extend_from_slice(&0i64.to_le_bytes());
    b.extend_from_slice(&kind.to_le_bytes());
    b.extend_from_slice(&code.to_le_bytes());
    b.extend_from_slice(&value.to_le_bytes());
    b
}

fn release(code: u16) -> Vec<u8> {
    record_bytes(1, code, 0)
}

#[test]
fn backoff_first_episode_delays() {
    let mut b = Backoff::new();
    let mut seen = Vec::new();
    for _ in 0..6 {
        seen.push(b.current_delay());
        b.on_failure();
    }
    assert_eq!(seen, vec![0, 1, 2, 4, 4, 4]);
}

#[test]
fn backoff_second_episode_delays() {
    let mut b = Backoff::new();
    // first episode: immediate attempt succeeds, then the handle dies
    b.new_episode();
    let mut seen = Vec::new();
    for _ in 0..5 {
        seen.push(b.current_delay());
        b.on_failure();
    }
    assert_eq!(seen, vec![1, 2, 4, 4, 4]);
}

#[test]
fn record_parsing_le_fields() {
    let mut b = Vec::new();
    b.extend_from_slice(&(-2i64).to_le_bytes());
    b.extend_from_slice(&123456i64.to_le_bytes());
    b.extend_from_slice(&1u16.to_le_bytes());
    b.extend_from_slice(&28u16.to_le_bytes());
    b.extend_from_slice(&(-1i32).to_le_bytes());
    let r: InputRecord = parse_record(&b);
    assert_eq!(r.tv_sec, -2);
    assert_eq!(r.tv_usec, 123456);
    assert_eq!(r.kind, 1);
    assert_eq!(r.code, 28);
    assert_eq!(r.value, -1);
}

#[test]
fn byte_prefixes() {
    let u = [9u8, 8, 7, 6, 5, 4, 3, 2, 1];
    assert_eq!(u8_8(&u), [9, 8, 7, 6, 5, 4, 3, 2]);
    assert_eq!(u8_4(&u), [9, 8, 7, 6]);
    assert_eq!(u8_2(&u), [9, 8]);
}

#[test]
fn barcode_round_trip() {
    // key codes 2, 3, 4 are the digits "1", "2", "3"
    let mut chunk = Vec::new();
    chunk.extend_from_slice(&release(2));
    chunk.extend_from_slice(&release(3));
    chunk.extend_from_slice(&release(4));
    chunk.extend_from_slice(&release(28));
    let mut s = ScanState::new();
    let emitted = s.feed_chunk(&chunk);
    assert_eq!(emitted, Some("123".to_string()));
    assert_eq!(s.buf, "");

    // Enter with nothing scanned emits nothing and leaves the buffer empty
    let mut s2 = ScanState::new();
    let emitted2 = s2.feed_chunk(&release(28));
    assert_eq!(emitted2, None);
    assert_eq!(s2.buf, "");
}

#[test]
fn barcode_reset_on_invalid() {
    // digit "4", an unmapped key, digits "5", "6", then Enter
    let mut chunk = Vec::new();
    chunk.extend_from_slice(&release(5));
    chunk.extend_from_slice(&release(30));
    chunk.extend_from_slice(&release(6));
    chunk.extend_from_slice(&release(7));
    chunk.extend_from_slice(&release(28));
    let mut s = ScanState::new();
    let emitted = s.feed_chunk(&chunk);
    assert_eq!(emitted, Some("56".to_string()));
}

#[test]
fn barcode_ignores_presses_and_other_event_types() {
    let mut chunk = Vec::new();
    chunk.extend_from_slice(&record_bytes(1, 2, 1)); // key press, ignored
    chunk.extend_from_slice(&record_bytes(1, 2, 2)); // auto-repeat, ignored
    chunk.extend_from_slice(&record_bytes(0, 2, 0)); // not a key event
    chunk.extend_from_slice(&release(3));
    chunk.extend_from_slice(&release(28));
    let mut s = ScanState::new();
    assert_eq!(s.feed_chunk(&chunk), Some("2".to_string()));
}

#[test]
fn barcode_trailing_bytes_discarded() {
    let mut chunk = Vec::new();
    chunk.extend_from_slice(&release(2));
    chunk.extend_from_slice(&[1, 0, 28, 0]); // not a complete record
    let mut s = ScanState::new();
    assert_eq!(s.feed_chunk(&chunk), None);
    assert_eq!(s.buf, "1");
}

#[test]
fn barcode_chunk_stops_after_emission() {
    let mut chunk = Vec::new();
    chunk.extend_from_slice(&release(2));
    chunk.extend_from_slice(&release(28));
    chunk.extend_from_slice(&release(3)); // after the emission; dropped
    let mut s = ScanState::new();
    assert_eq!(s.feed_chunk(&chunk), Some("1".to_string()));
    assert_eq!(s.buf, "");
}

#[test]
fn storno_debounce() {
    // start token at t = 0 ms
    let mut d = DebounceState::new(0);
    assert!(matches!(d.observe_chunk(b"storno\n", 0), Ok(false)));
    // end token at t = 30 ms: too close, keep waiting
    let r30 = d.observe_chunk(b"stornoend\n", 30);
    assert!(matches!(r30, Ok(false)));
    // end token at t = 60 ms from the same start: exactly one emission
    let r60 = d.observe_chunk(b"stornoend\n", 60);
    assert!(matches!(r60, Ok(true)));
}

#[test]
fn storno_same_pulse_ignored() {
    // both tokens in the same electrical pulse: no deliberate gesture
    let mut d = DebounceState::new(0);
    let r = d.observe_chunk(b"storno\nstornoend\n", 100);
    assert!(matches!(r, Ok(false)));
}

#[test]
fn storno_end_after_session_start_only() {
    // an end token soon after session start is ignored too
    let mut d = DebounceState::new(1000);
    assert!(matches!(d.observe_chunk(b"stornoend\n", 1020), Ok(false)));
    assert!(matches!(d.observe_chunk(b"stornoend\n", 1050), Ok(true)));
}

#[test]
fn storno_invalid_text_is_decode_error() {
    let mut d = DebounceState::new(0);
    let r = d.observe_chunk(&[0xff, 0xfe, 0xfd], 10);
    assert!(r.is_err());
    // valid text goes through fine
    assert!(d.observe_chunk(b"hello\n", 10).is_ok());
}

#[test]
fn token_search() {
    assert!(contains_token(b"xxstorno\nyy", b"storno\n"));
    assert!(!contains_token(b"stornoend\n", b"storno\n"));
    assert!(contains_token(b"stornoend\n", b"stornoend\n"));
    assert!(!contains_token(b"stor", b"storno\n"));
    assert!(contains_token(b"abc", b""));
}
