//! Decoder for the keyboard-class barcode scanner.
//!
//! The device delivers fixed-size binary event records.  A record is
//! 24 bytes, little-endian: two 8-byte signed integers (a timestamp),
//! a 2-byte event-type code, a 2-byte key code and a 4-byte signed
//! value.  Only key events (`type == 1`) whose value is 0 (key
//! release) matter: key codes 2 through 11 append the digits
//! '1'..'9','0' to the scan buffer, key code 28 (Enter) submits a
//! non-empty buffer as a completed barcode, and any other key code
//! aborts the partial scan.

use vstd::prelude::*;
use vstd::bytes::{spec_u16_from_le_bytes, spec_u32_from_le_bytes, spec_u64_from_le_bytes};
use vstd::bytes::{u16_from_le_bytes, u32_from_le_bytes, u64_from_le_bytes};
use vstd::slice::slice_subrange;

verus! {

/// Size in bytes of one raw input record.
pub const RECORD_SIZE: usize = 24;

/// Event-type code of a key event.
pub const KEY_EVENT_TYPE: u16 = 1;

/// Key code of the Enter key, which submits the scan buffer.
pub const ENTER_CODE: u16 = 28;

/// Two's-complement reading of a 32-bit word.
pub open spec fn as_signed_32(u: u32) -> int {
    if u < 0x8000_0000 {
        u as int
    } else {
        u as int - 0x1_0000_0000
    }
}

/// Two's-complement reading of a 64-bit word.
pub open spec fn as_signed_64(u: u64) -> int {
    if u < 0x8000_0000_0000_0000 {
        u as int
    } else {
        u as int - 0x1_0000_0000_0000_0000
    }
}

/// Signed 32-bit integer from 4 little-endian bytes.
pub fn i32_from_le(s: &[u8]) -> (r: i32)
    requires
        s@.len() == 4,
    ensures
        r as int == as_signed_32(spec_u32_from_le_bytes(s@)),
{
    let u = u32_from_le_bytes(s);
    if u < 0x8000_0000 {
        u as i32
    } else {
        let m: i64 = 0x1_0000_0000i64 - u as i64;
        (-m) as i32
    }
}

/// Signed 64-bit integer from 8 little-endian bytes.
pub fn i64_from_le(s: &[u8]) -> (r: i64)
    requires
        s@.len() == 8,
    ensures
        r as int == as_signed_64(spec_u64_from_le_bytes(s@)),
{
    let u = u64_from_le_bytes(s);
    if u < 0x8000_0000_0000_0000 {
        u as i64
    } else {
        let m: i128 = 0x1_0000_0000_0000_0000i128 - u as i128;
        (-m) as i64
    }
}

/// One decoded raw input record.
pub struct InputRecord {
    /// Seconds part of the record timestamp.
    pub tv_sec: i64,
    /// Microseconds part of the record timestamp.
    pub tv_usec: i64,
    /// Event-type code; only [`KEY_EVENT_TYPE`] is acted on.
    pub kind: u16,
    /// Key code.
    pub code: u16,
    /// Event value; 0 means key release.
    pub value: i32,
}

/// The record encoded by the first 24 bytes of `b`.
pub open spec fn record_of(b: Seq<u8>) -> InputRecord
    recommends
        b.len() >= 24,
{
    InputRecord {
        tv_sec: as_signed_64(spec_u64_from_le_bytes(b.subrange(0, 8))) as i64,
        tv_usec: as_signed_64(spec_u64_from_le_bytes(b.subrange(8, 16))) as i64,
        kind: spec_u16_from_le_bytes(b.subrange(16, 18)),
        code: spec_u16_from_le_bytes(b.subrange(18, 20)),
        value: as_signed_32(spec_u32_from_le_bytes(b.subrange(20, 24))) as i32,
    }
}

/// Decode the record held in the first 24 bytes of `buf`.
pub fn parse_record(buf: &[u8]) -> (r: InputRecord)
    requires
        buf@.len() >= 24,
    ensures
        r == record_of(buf@),
{
    let tv_sec = i64_from_le(slice_subrange(buf, 0, 8));
    let tv_usec = i64_from_le(slice_subrange(buf, 8, 16));
    let kind = u16_from_le_bytes(slice_subrange(buf, 16, 18));
    let code = u16_from_le_bytes(slice_subrange(buf, 18, 20));
    let value = i32_from_le(slice_subrange(buf, 20, 24));
    InputRecord { tv_sec, tv_usec, kind, code, value }
}

/// Whether `code` is one of the ten digit keys.
pub open spec fn is_digit_code(code: u16) -> bool {
    2 <= code <= 11
}

/// The digit character produced by digit key `code`: keys 2..11 give
/// '1'..'9' then '0'.
pub open spec fn digit_char(code: u16) -> char
    recommends
        is_digit_code(code),
{
    if code == 2 {
        '1'
    } else if code == 3 {
        '2'
    } else if code == 4 {
        '3'
    } else if code == 5 {
        '4'
    } else if code == 6 {
        '5'
    } else if code == 7 {
        '6'
    } else if code == 8 {
        '7'
    } else if code == 9 {
        '8'
    } else if code == 10 {
        '9'
    } else {
        '0'
    }
}

/// Whether a record is acted on at all: only key events whose value is
/// 0 (key release) are; key presses and auto-repeats are ignored so a
/// held key is not counted twice.
pub open spec fn is_release(r: InputRecord) -> bool {
    r.kind == KEY_EVENT_TYPE && r.value == 0
}

/// Scan buffer contents after one record is applied to buffer `buf`.
pub open spec fn step_buf(buf: Seq<char>, r: InputRecord) -> Seq<char> {
    if !is_release(r) {
        buf
    } else if is_digit_code(r.code) {
        buf.push(digit_char(r.code))
    } else {
        // Enter submits (and clears); any other key aborts the scan.
        Seq::empty()
    }
}

/// Barcode emitted (if any) when one record is applied to buffer
/// `buf`: Enter on a non-empty buffer emits its contents, everything
/// else emits nothing.
pub open spec fn step_emit(buf: Seq<char>, r: InputRecord) -> Option<Seq<char>> {
    if is_release(r) && r.code == ENTER_CODE && buf.len() > 0 {
        Some(buf)
    } else {
        None
    }
}

/// Scan buffer and emission after a whole chunk of raw bytes is
/// applied, record by record.  Trailing bytes that do not form a
/// complete record are discarded, and so are the records after the
/// one that emits: a completed barcode returns at once.
pub open spec fn scan_chunk(buf: Seq<char>, b: Seq<u8>) -> (Seq<char>, Option<Seq<char>>)
    decreases b.len(),
{
    if b.len() < 24 {
        (buf, None)
    } else {
        let r = record_of(b);
        match step_emit(buf, r) {
            Some(code) => (Seq::empty(), Some(code)),
            None => scan_chunk(step_buf(buf, r), b.skip(24)),
        }
    }
}

/// Scan buffer of the barcode decoder: the digits of the partially
/// assembled barcode, in arrival order.
pub struct ScanState {
    /// Digits decoded so far.
    pub buf: String,
}

impl ScanState {
    /// Fresh decoder state with an empty scan buffer.
    pub fn new() -> (r: ScanState)
        ensures
            r.buf@ == Seq::<char>::empty(),
    {
        ScanState { buf: String::new() }
    }

    /// Discard any partial scan, as after a device error: a
    /// half-scanned barcode interrupted by a read failure is dropped,
    /// not resumed.
    pub fn reset(&mut self)
        ensures
            final(self).buf@ == Seq::<char>::empty(),
    {
        self.buf = String::new();
    }

    /// Apply one decoded record to the scan buffer; a completed
    /// barcode is returned as soon as Enter closes a non-empty scan.
    pub fn step(&mut self, r: &InputRecord) -> (emit: Option<String>)
        ensures
            final(self).buf@ == step_buf(old(self).buf@, *r),
            match emit {
                Some(s) => step_emit(old(self).buf@, *r) == Some(s@),
                None => step_emit(old(self).buf@, *r) is None,
            },
    {
        proof {
            reveal_strlit("1");
            reveal_strlit("2");
            reveal_strlit("3");
            reveal_strlit("4");
            reveal_strlit("5");
            reveal_strlit("6");
            reveal_strlit("7");
            reveal_strlit("8");
            reveal_strlit("9");
            reveal_strlit("0");
        }
        if r.kind != KEY_EVENT_TYPE {
            return None;
        }
        if r.value != 0 {
            return None;
        }
        match r.code {
            2 => {
                self.buf.append("1");
                assert(self.buf@ =~= step_buf(old(self).buf@, *r));
                None
            },
            3 => {
                self.buf.append("2");
                assert(self.buf@ =~= step_buf(old(self).buf@, *r));
                None
            },
            4 => {
                self.buf.append("3");
                assert(self.buf@ =~= step_buf(old(self).buf@, *r));
                None
            },
            5 => {
                self.buf.append("4");
                assert(self.buf@ =~= step_buf(old(self).buf@, *r));
                None
            },
            6 => {
                self.buf.append("5");
                assert(self.buf@ =~= step_buf(old(self).buf@, *r));
                None
            },
            7 => {
                self.buf.append("6");
                assert(self.buf@ =~= step_buf(old(self).buf@, *r));
                None
            },
            8 => {
                self.buf.append("7");
                assert(self.buf@ =~= step_buf(old(self).buf@, *r));
                None
            },
            9 => {
                self.buf.append("8");
                assert(self.buf@ =~= step_buf(old(self).buf@, *r));
                None
            },
            10 => {
                self.buf.append("9");
                assert(self.buf@ =~= step_buf(old(self).buf@, *r));
                None
            },
            11 => {
                self.buf.append("0");
                assert(self.buf@ =~= step_buf(old(self).buf@, *r));
                None
            },
            28 => {
                if !self.buf.as_str().is_empty() {
                    let out = self.buf.clone();
                    self.buf = String::new();
                    Some(out)
                } else {
                    // Enter with nothing scanned: not an error, simply
                    // ignored.
                    self.buf = String::new();
                    None
                }
            },
            _ => {
                // A stray key aborts the current partial scan.
                self.buf = String::new();
                None
            },
        }
    }

    /// Apply a whole chunk of raw bytes, record by record, returning
    /// the first completed barcode if one is submitted.  Trailing
    /// bytes that do not form a complete record are discarded rather
    /// than carried over to the next read, and so is the remainder of
    /// a chunk after an emission.
    pub fn feed_chunk(&mut self, chunk: &[u8]) -> (emit: Option<String>)
        ensures
            final(self).buf@ == scan_chunk(old(self).buf@, chunk@).0,
            match emit {
                Some(s) => scan_chunk(old(self).buf@, chunk@).1 == Some(s@),
                None => scan_chunk(old(self).buf@, chunk@).1 is None,
            },
    {
        let mut i: usize = 0;
        proof {
            assert(chunk@.skip(0) =~= chunk@);
        }
        while chunk.len() - i >= RECORD_SIZE
            invariant
                0 <= i <= chunk@.len(),
                scan_chunk(old(self).buf@, chunk@) == scan_chunk(self.buf@, chunk@.skip(i as int)),
            decreases chunk@.len() - i,
        {
            let ghost c = chunk@;
            let rec = parse_record(slice_subrange(chunk, i, chunk.len()));
            proof {
                assert(c.skip(i as int).len() >= 24);
                assert(record_of(c.skip(i as int)) == rec) by {
                    assert(c.skip(i as int).subrange(0, 8) =~= c.subrange(i as int, i + 8));
                    assert(c.skip(i as int).subrange(8, 16) =~= c.subrange(i + 8, i + 16));
                    assert(c.skip(i as int).subrange(16, 18) =~= c.subrange(i + 16, i + 18));
                    assert(c.skip(i as int).subrange(18, 20) =~= c.subrange(i + 18, i + 20));
                    assert(c.skip(i as int).subrange(20, 24) =~= c.subrange(i + 20, i + 24));
                    assert(c.subrange(i as int, c.len() as int).subrange(0, 8) =~= c.subrange(
                        i as int,
                        i + 8,
                    ));
                    assert(c.subrange(i as int, c.len() as int).subrange(8, 16) =~= c.subrange(
                        i + 8,
                        i + 16,
                    ));
                    assert(c.subrange(i as int, c.len() as int).subrange(16, 18) =~= c.subrange(
                        i + 16,
                        i + 18,
                    ));
                    assert(c.subrange(i as int, c.len() as int).subrange(18, 20) =~= c.subrange(
                        i + 18,
                        i + 20,
                    ));
                    assert(c.subrange(i as int, c.len() as int).subrange(20, 24) =~= c.subrange(
                        i + 20,
                        i + 24,
                    ));
                }
            }
            let ghost pre_buf = self.buf@;
            let emit = self.step(&rec);
            proof {
                assert(c.skip(i as int).skip(24) =~= c.skip(i + 24));
            }
            match emit {
                Some(s) => {
                    proof {
                        assert(step_emit(pre_buf, rec) == Some(s@));
                        assert(scan_chunk(pre_buf, c.skip(i as int)) == (
                            Seq::<char>::empty(),
                            Some(s@),
                        ));
                        assert(self.buf@ =~= Seq::<char>::empty());
                    }
                    return Some(s);
                },
                None => {},
            }
            i = i + RECORD_SIZE;
        }
        proof {
            assert(chunk@.skip(i as int).len() < 24);
        }
        None
    }
}

} // verus!
