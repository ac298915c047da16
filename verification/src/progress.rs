//! Progress samples and the throttled reporter that produces them.
//!
//! A sample carries a byte count, the fixed session total, a percentage
//! clamped to 0..=100, and the cumulative average throughput since the
//! session started. The reporter emits a sample after a chunk only when at
//! least the throttle window has passed since the last emission, and emits
//! exactly one final sample, always at 100 percent, when the copy ends.

use vstd::prelude::*;

verus! {

/// Milliseconds that must have passed since the last emission before another
/// mid-copy sample may be emitted.
pub const THROTTLE_WINDOW_MS: u64 = 100;

/// One progress snapshot, over plain integers. Percentages are whole
/// percents in 0..=100; throughput is cumulative average bytes per second
/// since the session started, not instantaneous.
#[derive(Debug, Clone, PartialEq, Eq, Structural)]
pub struct WriteProgress {
    /// Bytes transferred so far; never exceeds `total_bytes` in any emitted
    /// sample, and never decreases within a session.
    pub bytes_written: u64,
    /// Total bytes the session will transfer; fixed for its lifetime.
    pub total_bytes: u64,
    /// `bytes_written * 100 / total_bytes`, clamped to 0..=100; 100 when the
    /// total is zero.
    pub progress_percent: u64,
    /// Cumulative average bytes per second since the session started; zero
    /// while no time has passed.
    pub throughput_bps: u64,
}

/// Whole-percent progress, clamped to 0..=100. An empty transfer is complete,
/// so a zero total maps to 100.
pub open spec fn spec_percent(bytes_written: int, total_bytes: int) -> int {
    if total_bytes <= 0 {
        100
    } else if bytes_written >= total_bytes {
        100
    } else if bytes_written <= 0 {
        0
    } else {
        bytes_written * 100 / total_bytes
    }
}

/// Milliseconds elapsed between two clock readings; zero when the readings
/// are out of order.
pub open spec fn spec_elapsed_ms(start_ms: int, now_ms: int) -> int {
    if now_ms >= start_ms {
        now_ms - start_ms
    } else {
        0
    }
}

/// Cumulative average bytes per second, clamped to `u64::MAX`; zero while no
/// whole millisecond has passed.
pub open spec fn spec_throughput_bps(bytes_written: int, elapsed_ms: int) -> int {
    if elapsed_ms <= 0 {
        0
    } else if bytes_written * 1000 / elapsed_ms > u64::MAX {
        u64::MAX as int
    } else {
        bytes_written * 1000 / elapsed_ms
    }
}

/// Whether the throttle allows a mid-copy emission at `now_ms` when the last
/// emission was at `last_emit_ms`.
pub open spec fn spec_should_emit(last_emit_ms: int, now_ms: int) -> bool {
    now_ms >= last_emit_ms && now_ms - last_emit_ms > THROTTLE_WINDOW_MS
}

/// The sample a session with the given total, started at `start_ms`, emits
/// at `now_ms` once `bytes_written` bytes have been transferred.
pub open spec fn spec_sample(bytes_written: int, total_bytes: int, start_ms: int, now_ms: int)
    -> WriteProgress {
    WriteProgress {
        bytes_written: bytes_written as u64,
        total_bytes: total_bytes as u64,
        progress_percent: spec_percent(bytes_written, total_bytes) as u64,
        throughput_bps: spec_throughput_bps(
            bytes_written,
            spec_elapsed_ms(start_ms, now_ms),
        ) as u64,
    }
}

/// A transfer strictly short of its total sits strictly below 100 percent.
pub proof fn lemma_percent_below_100(bytes_written: int, total_bytes: int)
    requires
        0 <= bytes_written < total_bytes,
    ensures
        0 <= spec_percent(bytes_written, total_bytes) < 100,
{
    if bytes_written > 0 {
        assert(bytes_written * 100 <= (total_bytes - 1) * 100) by (nonlinear_arith)
            requires bytes_written <= total_bytes - 1;
        assert((total_bytes - 1) * 100 / total_bytes < 100) by (nonlinear_arith)
            requires total_bytes > 0;
        vstd::arithmetic::div_mod::lemma_div_is_ordered(
            bytes_written * 100,
            (total_bytes - 1) * 100,
            total_bytes,
        );
        assert(bytes_written * 100 / total_bytes >= 0) by (nonlinear_arith)
            requires bytes_written >= 0 && total_bytes > 0;
    }
}

fn percent_of(bytes_written: u64, total_bytes: u64) -> (r: u64)
    ensures
        r == spec_percent(bytes_written as int, total_bytes as int),
{
    if total_bytes == 0 || bytes_written >= total_bytes {
        100
    } else {
        proof {
            lemma_percent_below_100(bytes_written as int, total_bytes as int);
        }
        let q: u128 = (bytes_written as u128) * 100 / (total_bytes as u128);
        q as u64
    }
}

fn throughput_of(bytes_written: u64, elapsed_ms: u64) -> (r: u64)
    ensures
        r == spec_throughput_bps(bytes_written as int, elapsed_ms as int),
{
    if elapsed_ms == 0 {
        0
    } else {
        let q: u128 = (bytes_written as u128) * 1000 / (elapsed_ms as u128);
        if q > u64::MAX as u128 {
            u64::MAX
        } else {
            q as u64
        }
    }
}

/// Builds the snapshot a session emits at `now_ms`.
pub fn make_sample(bytes_written: u64, total_bytes: u64, start_ms: u64, now_ms: u64)
    -> (s: WriteProgress)
    ensures
        s == spec_sample(bytes_written as int, total_bytes as int, start_ms as int, now_ms as int),
{
    let elapsed: u64 = if now_ms >= start_ms {
        now_ms - start_ms
    } else {
        0
    };
    WriteProgress {
        bytes_written,
        total_bytes,
        progress_percent: percent_of(bytes_written, total_bytes),
        throughput_bps: throughput_of(bytes_written, elapsed),
    }
}

/// Throttled progress accounting for one session: the transferred-byte
/// counter, the session start time, and the time of the last emission.
///
/// The counter only grows, mid-copy samples are emitted only when the
/// throttle window has passed and the transfer is not yet complete, and the
/// one closing sample always reads 100 percent.
pub struct ProgressReporter {
    /// Total bytes the session will transfer.
    pub total_bytes: u64,
    /// Bytes transferred so far.
    pub bytes_written: u64,
    /// Clock reading at which the session started.
    pub start_ms: u64,
    /// Clock reading of the last emission; starts at `start_ms`.
    pub last_emit_ms: u64,
}

impl ProgressReporter {
    /// A fresh reporter for a session of `total_bytes`, started at `start_ms`.
    pub fn new(total_bytes: u64, start_ms: u64) -> (r: ProgressReporter)
        ensures
            r.total_bytes == total_bytes,
            r.bytes_written == 0,
            r.start_ms == start_ms,
            r.last_emit_ms == start_ms,
    {
        ProgressReporter { total_bytes, bytes_written: 0, start_ms, last_emit_ms: start_ms }
    }

    /// Accounts one successfully written chunk of `n` bytes at time `now_ms`,
    /// and emits a throttled sample if the window has passed and the transfer
    /// is still short of its total. The final chunk never emits here: the
    /// closing 100-percent sample comes from `finish` alone.
    pub fn note_chunk(&mut self, n: u64, now_ms: u64) -> (s: Option<WriteProgress>)
        requires
            old(self).bytes_written + n <= u64::MAX,
        ensures
            final(self).bytes_written == old(self).bytes_written + n,
            final(self).total_bytes == old(self).total_bytes,
            final(self).start_ms == old(self).start_ms,
            s is Some <==> (final(self).bytes_written < old(self).total_bytes
                && spec_should_emit(old(self).last_emit_ms as int, now_ms as int)),
            s is Some ==> (s == Some(spec_sample(
                final(self).bytes_written as int,
                old(self).total_bytes as int,
                old(self).start_ms as int,
                now_ms as int,
            )) && final(self).last_emit_ms == now_ms),
            s is None ==> final(self).last_emit_ms == old(self).last_emit_ms,
    {
        self.bytes_written = self.bytes_written + n;
        let window_passed = now_ms >= self.last_emit_ms
            && now_ms - self.last_emit_ms > THROTTLE_WINDOW_MS;
        if self.bytes_written < self.total_bytes && window_passed {
            self.last_emit_ms = now_ms;
            Some(make_sample(self.bytes_written, self.total_bytes, self.start_ms, now_ms))
        } else {
            None
        }
    }

    /// The one closing sample, emitted right before the copy reports
    /// success; always reads exactly 100 percent.
    pub fn finish(&self, now_ms: u64) -> (s: WriteProgress)
        requires
            self.bytes_written >= self.total_bytes,
        ensures
            s == spec_sample(
                self.bytes_written as int,
                self.total_bytes as int,
                self.start_ms as int,
                now_ms as int,
            ),
            s.progress_percent == 100,
            s.bytes_written == self.bytes_written,
            s.total_bytes == self.total_bytes,
    {
        make_sample(self.bytes_written, self.total_bytes, self.start_ms, now_ms)
    }
}

} // verus!
