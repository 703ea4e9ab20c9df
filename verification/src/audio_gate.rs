//! Accounting of buffered audio, and the test that holds back early commits.

use vstd::prelude::*;

verus! {

/// Samples per second of the audio stream.
pub const SAMPLE_RATE: u64 = 24000;

/// Bytes per sample: 16-bit PCM, mono.
pub const BYTES_PER_SAMPLE: u64 = 2;

/// Shortest stretch of audio, in milliseconds, that may be committed.
pub const MIN_COMMIT_MS: u32 = 100;

/// Bytes that `ms` milliseconds of audio occupy.
pub open spec fn min_bytes_for_spec(ms: int) -> int {
    (24000 * ms / 1000) * 2
}

/// Milliseconds of audio that `byte_count` bytes hold, rounded down.
pub open spec fn estimate_duration_ms_spec(byte_count: int) -> int {
    byte_count * 1000 / (24000int * 2)
}

/// Whether `byte_count` buffered bytes are enough for a commit.
pub open spec fn admit_commit_spec(byte_count: int) -> bool {
    byte_count >= min_bytes_for_spec(100)
}

/// Bytes that `ms` milliseconds of audio occupy.
pub fn min_bytes_for(ms: u32) -> (bytes: u64)
    ensures
        bytes == min_bytes_for_spec(ms as int),
        bytes == 48 * ms,
{
    let m: u64 = ms as u64;
    let samples: u64 = SAMPLE_RATE * m / 1000;
    assert(samples == 24 * m) by (nonlinear_arith)
        requires
            samples == (24000 * m) / 1000,
    ;
    samples * BYTES_PER_SAMPLE
}

/// Milliseconds of audio that `byte_count` bytes hold, rounded down.
pub fn estimate_duration_ms(byte_count: u64) -> (ms: u64)
    ensures
        ms == estimate_duration_ms_spec(byte_count as int),
        ms == byte_count / 48,
{
    let wide: u128 = byte_count as u128;
    let scaled: u128 = wide * 1000 / 48000;
    assert(scaled == wide / 48) by (nonlinear_arith)
        requires
            scaled == (wide * 1000) / 48000,
    ;
    scaled as u64
}

/// Whether `byte_count` buffered bytes are enough for a commit.
pub fn admit_commit(byte_count: u64) -> (admitted: bool)
    ensures
        admitted == admit_commit_spec(byte_count as int),
        admitted == (byte_count >= 4800),
{
    byte_count >= min_bytes_for(MIN_COMMIT_MS)
}

/// The commit threshold is exact: every count below the bytes of 100 ms is
/// held back, every count from there on is admitted, and the duration
/// estimate of the threshold itself is 100 ms.
pub proof fn lemma_admit_threshold(b: int)
    ensures
        min_bytes_for_spec(100) == 4800,
        b < min_bytes_for_spec(100) ==> !admit_commit_spec(b),
        b >= min_bytes_for_spec(100) ==> admit_commit_spec(b),
        admit_commit_spec(min_bytes_for_spec(100)),
        estimate_duration_ms_spec(4800) == 100,
{
}

/// The duration estimate is exact and linear: the bytes of `ms` milliseconds
/// are estimated as `ms`, `k` more milliseconds of audio add `k` to any
/// estimate, and more bytes never give a shorter estimate.
pub proof fn lemma_estimate_exact(ms: int, k: int, a: int, b: int)
    requires
        0 <= ms,
        0 <= k,
        0 <= a <= b,
    ensures
        min_bytes_for_spec(ms) == 48 * ms,
        estimate_duration_ms_spec(min_bytes_for_spec(ms)) == ms,
        estimate_duration_ms_spec(a + min_bytes_for_spec(k)) == estimate_duration_ms_spec(a) + k,
        estimate_duration_ms_spec(a) <= estimate_duration_ms_spec(b),
{
    assert((24000 * ms / 1000) * 2 == 48 * ms) by (nonlinear_arith)
        requires
            0 <= ms,
    ;
    assert((24000 * k / 1000) * 2 == 48 * k) by (nonlinear_arith)
        requires
            0 <= k,
    ;
    assert((48 * ms) * 1000 / 48000 == ms) by (nonlinear_arith)
        requires
            0 <= ms,
    ;
    assert((a + 48 * k) * 1000 / 48000 == a * 1000 / 48000 + k) by (nonlinear_arith)
        requires
            0 <= a,
            0 <= k,
    ;
    assert(a * 1000 / 48000 <= b * 1000 / 48000) by (nonlinear_arith)
        requires
            0 <= a <= b,
    ;
}

/// Count of audio bytes that were forwarded since the last commit.
#[derive(Clone, Copy, Debug, PartialEq, Eq, Structural)]
pub struct AudioGate {
    buffered: u64,
}

impl AudioGate {
    /// The number of buffered bytes.
    pub closed spec fn view(&self) -> nat {
        self.buffered as nat
    }

    /// A gate with nothing buffered.
    pub fn new() -> (gate: AudioGate)
        ensures
            gate@ == 0,
    {
        AudioGate { buffered: 0 }
    }

    /// The number of buffered bytes.
    pub fn buffered_bytes(&self) -> (n: u64)
        ensures
            n == self@,
    {
        self.buffered
    }

    /// Whether one more frame of `len` bytes can still be counted.
    pub fn has_room_for(&self, len: usize) -> (ok: bool)
        ensures
            ok == (self@ + len <= u64::MAX),
    {
        len as u64 <= u64::MAX - self.buffered
    }

    /// Counts a frame of `len` bytes.
    pub fn append(&mut self, len: usize)
        requires
            old(self)@ + len <= u64::MAX,
        ensures
            final(self)@ == old(self)@ + len,
    {
        self.buffered = self.buffered + len as u64;
    }

    /// Duration of the buffered audio in milliseconds.
    pub fn buffered_ms(&self) -> (ms: u64)
        ensures
            ms == estimate_duration_ms_spec(self@ as int),
    {
        estimate_duration_ms(self.buffered)
    }

    /// Whether the buffered audio is enough for a commit.
    pub fn admits(&self) -> (admitted: bool)
        ensures
            admitted == admit_commit_spec(self@ as int),
    {
        admit_commit(self.buffered)
    }

    /// Forgets the buffered bytes, after a commit was forwarded or the
    /// session was configured anew.
    pub fn reset(&mut self)
        ensures
            final(self)@ == 0,
    {
        self.buffered = 0;
    }
}

} // verus!
