//! Decoder for the serial cancel ("storno") switch.
//!
//! The device emits ASCII lines: a start token when the key is turned
//! and an end token when the pulse ends.  The switch sometimes reports
//! both tokens in the same electrical pulse, so an end token only
//! counts as a deliberate gesture when at least
//! [`MIN_STORNO_MS`] milliseconds have passed since the last start
//! token; otherwise it is ignored and the decoder keeps waiting.

use vstd::prelude::*;

verus! {

/// Minimum separation, in milliseconds, between a start token and an
/// end token for the pair to count as a deliberate gesture.
pub const MIN_STORNO_MS: u64 = 50;

/// The start token, `"storno\n"`, as bytes.
pub open spec fn start_token() -> Seq<u8> {
    seq![115u8, 116u8, 111u8, 114u8, 110u8, 111u8, 10u8]
}

/// The end token, `"stornoend\n"`, as bytes.
pub open spec fn end_token() -> Seq<u8> {
    seq![115u8, 116u8, 111u8, 114u8, 110u8, 111u8, 101u8, 110u8, 100u8, 10u8]
}

/// Whether `t` occurs as a contiguous subsequence of `c`.
pub open spec fn has_token(c: Seq<u8>, t: Seq<u8>) -> bool {
    exists|i: int| 0 <= i <= c.len() - t.len() && #[trigger] c.subrange(i, i + t.len()) == t
}

/// The start token as a byte vector.
pub fn start_token_bytes() -> (r: Vec<u8>)
    ensures
        r@ == start_token(),
{
    let mut v: Vec<u8> = Vec::new();
    v.push(115);
    v.push(116);
    v.push(111);
    v.push(114);
    v.push(110);
    v.push(111);
    v.push(10);
    proof {
        assert(v@ =~= start_token());
    }
    v
}

/// The end token as a byte vector.
pub fn end_token_bytes() -> (r: Vec<u8>)
    ensures
        r@ == end_token(),
{
    let mut v: Vec<u8> = Vec::new();
    v.push(115);
    v.push(116);
    v.push(111);
    v.push(114);
    v.push(110);
    v.push(111);
    v.push(101);
    v.push(110);
    v.push(100);
    v.push(10);
    proof {
        assert(v@ =~= end_token());
    }
    v
}

/// Substring search: whether `token` occurs contiguously in `chunk`.
pub fn contains_token(chunk: &[u8], token: &[u8]) -> (r: bool)
    ensures
        r == has_token(chunk@, token@),
{
    let n = chunk.len();
    let m = token.len();
    if m > n {
        return false;
    }
    if m == 0 {
        proof {
            assert(chunk@.subrange(0, 0 + token@.len() as int) =~= token@);
            assert(has_token(chunk@, token@));
        }
        return true;
    }
    let mut i: usize = 0;
    while i <= n - m
        invariant
            1 <= m <= n,
            n == chunk@.len(),
            m == token@.len(),
            0 <= i <= n - m + 1,
            forall|k: int|
                0 <= k < i ==> #[trigger] chunk@.subrange(k, k + m) != token@,
        decreases n - m - i + 1,
    {
        let mut j: usize = 0;
        let mut matched = true;
        while j < m
            invariant
                m <= n,
                n == chunk@.len(),
                m == token@.len(),
                0 <= i <= n - m,
                0 <= j <= m,
                matched ==> forall|k: int| 0 <= k < j ==> chunk@[i + k] == #[trigger] token@[k],
                !matched ==> chunk@.subrange(i as int, i + m) != token@,
            decreases m - j,
        {
            if chunk[i + j] != token[j] {
                proof {
                    assert(chunk@.subrange(i as int, i + m)[j as int] == chunk@[i + j]);
                }
                matched = false;
                j = m;
            } else {
                j = j + 1;
            }
        }
        if matched {
            proof {
                assert(chunk@.subrange(i as int, i + m) =~= token@);
            }
            return true;
        }
        i = i + 1;
    }
    proof {
        assert forall|k: int| 0 <= k <= chunk@.len() - m implies #[trigger] chunk@.subrange(
            k,
            k + m,
        ) != token@ by {
            assert(k < i);
        }
    }
    false
}

/// Error of one storno read session: the chunk was not valid text.
/// Treated like a read error: the device handle is invalidated and
/// acquisition restarts with fresh backoff.
pub struct DecodeError;

/// Whether a byte sequence is valid UTF-8.
pub uninterp spec fn is_utf8(b: Seq<u8>) -> bool;

/// Relies on core::str::from_utf8: whether it accepts the bytes
/// depends on the bytes alone.
#[verifier::external_body]
fn utf8_valid(b: &[u8]) -> (r: bool)
    ensures
        r == is_utf8(b@),
{
    core::str::from_utf8(b).is_ok()
}

/// The last-start timestamp after a chunk is observed at `now_ms`: a
/// chunk holding the start token moves it to `now_ms`.
pub open spec fn start_after(last_start_ms: u64, c: Seq<u8>, now_ms: u64) -> u64 {
    if has_token(c, start_token()) {
        now_ms
    } else {
        last_start_ms
    }
}

/// Whether a chunk observed at `now_ms` completes a gesture: it holds
/// the end token and at least [`MIN_STORNO_MS`] milliseconds have
/// passed since the last start token (a start token in the same chunk
/// counts as "now", so such a pair never emits).
pub open spec fn emits(last_start_ms: u64, c: Seq<u8>, now_ms: u64) -> bool {
    has_token(c, end_token()) && now_ms - start_after(last_start_ms, c, now_ms)
        >= MIN_STORNO_MS
}

/// Debounce state of the storno decoder: the timestamp, in
/// milliseconds of a monotonic clock, of the last observed start
/// token.  Initialized to the session start time, so an end token
/// arriving within [`MIN_STORNO_MS`] of session start is ignored too.
pub struct DebounceState {
    /// Timestamp of the last observed start token, in milliseconds.
    pub last_start_ms: u64,
}

impl DebounceState {
    /// Fresh debounce state at session start time `now_ms`.
    pub fn new(now_ms: u64) -> (r: DebounceState)
        ensures
            r.last_start_ms == now_ms,
    {
        DebounceState { last_start_ms: now_ms }
    }

    /// Observe one chunk read at `now_ms`.  Returns `Ok(true)` when
    /// the chunk completes a deliberate gesture, `Ok(false)` when the
    /// decoder should keep waiting, and `Err` exactly when the chunk
    /// is not valid text.
    pub fn observe_chunk(&mut self, chunk: &[u8], now_ms: u64) -> (r: Result<
        bool,
        DecodeError,
    >)
        requires
            old(self).last_start_ms <= now_ms,
        ensures
            r is Err <==> !is_utf8(chunk@),
            r is Ok ==> final(self).last_start_ms == start_after(
                old(self).last_start_ms,
                chunk@,
                now_ms,
            ),
            r is Err ==> *final(self) == *old(self),
            r == Ok::<bool, DecodeError>(true) <==> is_utf8(chunk@) && emits(
                old(self).last_start_ms,
                chunk@,
                now_ms,
            ),
    {
        if !utf8_valid(chunk) {
            return Err(DecodeError);
        }
        let start = start_token_bytes();
        let end = end_token_bytes();
        if contains_token(chunk, start.as_slice()) {
            self.last_start_ms = now_ms;
        }
        if contains_token(chunk, end.as_slice()) && now_ms - self.last_start_ms
            >= MIN_STORNO_MS {
            Ok(true)
        } else {
            Ok(false)
        }
    }
}

} // verus!
