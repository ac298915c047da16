//! The chunked copy loop, the post-copy verification pass, the capacity
//! check, and the session orchestrator that sequences them.
//!
//! Streams are modelled as byte slices: the source is the image's content,
//! the destination is a fixed-size byte vector standing for the raw device,
//! written in place from offset 0 and never grown or truncated. Clock
//! readings are millisecond counts supplied by the caller, one per chunk
//! boundary; cancellation arrives through a shared atomic flag polled at
//! each chunk boundary.

use core::sync::atomic::{AtomicBool, Ordering};
use vstd::prelude::*;
use crate::error::WriterError;
use crate::progress::{ProgressReporter, WriteProgress, spec_sample, spec_should_emit,
    lemma_percent_below_100};

verus! {

/// Default copy buffer: 1 MiB.
pub const BUFFER_SIZE: usize = 1048576;

/// Default verification buffer: 64 KiB, independent of the copy buffer.
pub const VERIFY_BUFFER_SIZE: usize = 65536;

/// One pending write of an image file onto a device: the two paths and the
/// copy buffer size.
pub struct UsbWriter {
    /// Path of the image file to read.
    pub iso_path: String,
    /// Path of the device node to write.
    pub device_path: String,
    /// Size of the copy buffer in bytes.
    pub buffer_size: usize,
}

impl UsbWriter {
    /// A writer for the given paths, with the default copy buffer.
    pub fn new(iso_path: String, device_path: String) -> (w: UsbWriter)
        ensures
            w.iso_path@ == iso_path@,
            w.device_path@ == device_path@,
            w.buffer_size == BUFFER_SIZE,
    {
        UsbWriter { iso_path, device_path, buffer_size: BUFFER_SIZE }
    }
}

/// What a successful copy returns: the byte count transferred and every
/// progress sample emitted, the closing 100-percent sample included.
#[derive(Debug, Clone)]
pub struct CopyReport {
    /// Bytes transferred; equals the source length on success.
    pub bytes_written: u64,
    /// The progress samples, in emission order.
    pub samples: Vec<WriteProgress>,
}

/// The destination's contents after a complete copy: the source's bytes,
/// then whatever the destination held beyond the source's length.
pub open spec fn spec_copied(src: Seq<u8>, dst0: Seq<u8>) -> Seq<u8> {
    src + dst0.skip(src.len() as int)
}

/// The destination's contents after a copy that failed for want of space:
/// only whole chunks are written, so the copied prefix ends at the last
/// chunk boundary that fits.
pub open spec fn spec_fail_prefix(dest_len: int, buf: int) -> int
    recommends
        buf >= 1,
{
    buf * (dest_len / buf)
}

/// The destination's contents after `k` bytes were copied in place.
pub open spec fn spec_partial_copy(src: Seq<u8>, dst0: Seq<u8>, k: int) -> Seq<u8> {
    src.subrange(0, k) + dst0.skip(k)
}

/// The clock reading for chunk boundary `i`: the caller's `i`-th reading,
/// its last one once they run out, or the start time when it gave none.
pub open spec fn spec_time_at(times: Seq<u64>, start_ms: u64, i: int) -> u64 {
    if times.len() == 0 {
        start_ms
    } else if i < times.len() {
        times[i]
    } else {
        times[times.len() - 1]
    }
}

/// How many chunks a copy of `len` bytes takes with buffer `buf`.
pub open spec fn spec_num_chunks(len: int, buf: int) -> int
    recommends
        buf >= 1,
{
    (len + buf - 1) / buf
}

/// Every mid-copy sample the throttle lets through, for a copy of `len`
/// bytes with buffer `buf`, resumed at chunk `i` with `copied` bytes
/// already written and the last emission at `last_emit_ms`. A chunk emits
/// when the throttle window has passed and the transfer is still short of
/// its total; the closing 100-percent sample is not part of this sequence.
pub open spec fn spec_mid_samples(
    len: int,
    buf: int,
    start_ms: u64,
    times: Seq<u64>,
    i: int,
    copied: int,
    last_emit_ms: u64,
) -> Seq<WriteProgress>
    decreases len - copied,
{
    if buf < 1 || copied >= len {
        Seq::empty()
    } else {
        let n = if len - copied < buf {
            len - copied
        } else {
            buf
        };
        let next = copied + n;
        let now = spec_time_at(times, start_ms, i);
        if next < len && spec_should_emit(last_emit_ms as int, now as int) {
            seq![spec_sample(next, len, start_ms as int, now as int)] + spec_mid_samples(
                len,
                buf,
                start_ms,
                times,
                i + 1,
                next,
                now,
            )
        } else {
            spec_mid_samples(len, buf, start_ms, times, i + 1, next, last_emit_ms)
        }
    }
}

fn time_at(times: &[u64], start_ms: u64, i: usize) -> (r: u64)
    ensures
        r == spec_time_at(times@, start_ms, i as int),
{
    if times.len() == 0 {
        start_ms
    } else if i < times.len() {
        times[i]
    } else {
        times[times.len() - 1]
    }
}

/// Polls the cancellation flag, if the caller supplied one. The flag is
/// shared with other threads, so nothing can be promised about its value.
fn cancel_requested(cancel: Option<&AtomicBool>) -> (r: bool)
    ensures
        cancel is None ==> r == false,
{
    match cancel {
        Some(flag) => flag.load(Ordering::Relaxed),
        None => false,
    }
}

/// Copies the source onto the destination in place, one buffer's worth at a
/// time, polling for cancellation at each chunk boundary and accounting
/// progress through a throttled reporter.
///
/// On success the destination holds the source's bytes followed by its own
/// old tail, the byte count equals the source's length, and the sample list
/// ends with the one and only 100-percent sample. A chunk that does not fit
/// is a fatal short write: whole chunks already written stay in place and
/// the copy reports an I/O failure. Nothing is promised of the shared
/// cancellation flag, so success is owed only when no flag was supplied.
#[verifier::loop_isolation(false)]
pub fn copy_with_progress(
    source: &[u8],
    dest: &mut Vec<u8>,
    buffer_size: usize,
    start_ms: u64,
    chunk_times_ms: &[u64],
    cancel: Option<&AtomicBool>,
) -> (r: Result<CopyReport, WriterError>)
    requires
        buffer_size >= 1,
    ensures
        final(dest)@.len() == old(dest)@.len(),
        r matches Ok(report) ==> {
            &&& source@.len() <= old(dest)@.len()
            &&& report.bytes_written == source@.len()
            &&& final(dest)@ == spec_copied(source@, old(dest)@)
            &&& report.samples@.len() >= 1
            &&& report.samples@.last() == spec_sample(
                source@.len() as int,
                source@.len() as int,
                start_ms as int,
                spec_time_at(
                    chunk_times_ms@,
                    start_ms,
                    spec_num_chunks(source@.len() as int, buffer_size as int),
                ) as int,
            )
            &&& report.samples@.last().progress_percent == 100
            &&& report.samples@ == spec_mid_samples(
                source@.len() as int,
                buffer_size as int,
                start_ms,
                chunk_times_ms@,
                0,
                0,
                start_ms,
            ).push(report.samples@.last())
            &&& (forall|k: int| #![trigger report.samples@[k]]
                0 <= k < report.samples@.len() - 1 ==> report.samples@[k].progress_percent < 100
                    && report.samples@[k].bytes_written < source@.len())
            &&& (forall|k: int| #![trigger report.samples@[k]]
                0 <= k < report.samples@.len() ==> report.samples@[k].total_bytes == source@.len()
                    && report.samples@[k].bytes_written <= source@.len())
            &&& (forall|k1: int, k2: int| #![trigger report.samples@[k1], report.samples@[k2]]
                0 <= k1 <= k2 < report.samples@.len() ==> report.samples@[k1].bytes_written
                    <= report.samples@[k2].bytes_written)
        },
        cancel is None ==> (r is Ok <==> source@.len() <= old(dest)@.len()),
        r matches Err(e) ==> (e matches WriterError::Cancelled || e matches WriterError::IoError(
            _,
        )),
        r matches Err(WriterError::IoError(_)) ==> {
            &&& source@.len() > old(dest)@.len()
            &&& final(dest)@ == spec_partial_copy(
                source@,
                old(dest)@,
                spec_fail_prefix(old(dest)@.len() as int, buffer_size as int),
            )
        },
        r matches Err(WriterError::Cancelled) ==> {
            &&& cancel is Some
            &&& exists|k: int|
                {
                    &&& 0 <= k <= source@.len()
                    &&& (k % (buffer_size as int) == 0 || k == source@.len())
                    &&& final(dest)@ == #[trigger] spec_partial_copy(source@, old(dest)@, k)
                }
        },
{
    let ghost src = source@;
    let ghost dst0 = old(dest)@;
    let length = source.len();
    let total: u64 = length as u64;
    let mut reporter = ProgressReporter::new(total, start_ms);
    let mut samples: Vec<WriteProgress> = Vec::new();
    let mut pos: usize = 0;
    let mut chunk_idx: usize = 0;
    loop
        invariant
            pos <= length,
            pos <= dest@.len(),
            pos as int % (buffer_size as int) == 0 || pos == length,
            dest@.len() == dst0.len(),
            dest@ == spec_partial_copy(src, dst0, pos as int),
            reporter.total_bytes == total,
            reporter.bytes_written == pos as u64,
            reporter.start_ms == start_ms,
            chunk_idx <= pos,
            pos == 0 ==> chunk_idx == 0,
            pos >= 1 ==> chunk_idx as int * (buffer_size as int) >= pos as int && (chunk_idx as int
                - 1) * (buffer_size as int) < pos as int,
            forall|k: int| #![trigger samples@[k]]
                0 <= k < samples@.len() ==> samples@[k].progress_percent < 100
                    && samples@[k].bytes_written < total && samples@[k].total_bytes == total
                    && samples@[k].bytes_written <= pos as u64,
            forall|k1: int, k2: int| #![trigger samples@[k1], samples@[k2]]
                0 <= k1 <= k2 < samples@.len() ==> samples@[k1].bytes_written
                    <= samples@[k2].bytes_written,
            spec_mid_samples(
                length as int,
                buffer_size as int,
                start_ms,
                chunk_times_ms@,
                0,
                0,
                start_ms,
            ) == samples@ + spec_mid_samples(
                length as int,
                buffer_size as int,
                start_ms,
                chunk_times_ms@,
                chunk_idx as int,
                pos as int,
                reporter.last_emit_ms,
            ),
        decreases length - pos,
    {
        let ghost pre_chunk_idx = chunk_idx as int;
        let ghost pre_pos = pos as int;
        let ghost pre_last = reporter.last_emit_ms;
        let ghost pre_samples = samples@;
        // Cancellation is honored within one buffer's worth of work.
        if cancel_requested(cancel) {
            assert(dest@ == spec_partial_copy(src, dst0, pos as int));
            return Err(WriterError::Cancelled);
        }
        let remaining = length - pos;
        let n = if remaining < buffer_size {
            remaining
        } else {
            buffer_size
        };
        if n == 0 {
            break;
        }
        // A chunk that does not fit on the device is a fatal short write.
        if n > dest.len() - pos {
            proof {
                let b = buffer_size as int;
                let d = dst0.len() as int;
                assert(pos + n > d);
                assert(pos as int % b == 0) by {
                    if pos == length {
                        assert(n == 0);
                    }
                }
                vstd::arithmetic::div_mod::lemma_fundamental_div_mod(pos as int, b);
                assert(pos as int == b * (pos as int / b));
                assert(pos + buffer_size > d);
                assert((pos as int / b) * b == b * (pos as int / b)) by (nonlinear_arith);
                assert(0 <= d - (pos as int) < b);
                assert(d == (pos as int / b) * b + (d - (pos as int)));
                vstd::arithmetic::div_mod::lemma_fundamental_div_mod_converse_div(
                    d,
                    b,
                    pos as int / b,
                    d - pos as int,
                );
                assert(pos as int == spec_fail_prefix(d, b));
            }
            return Err(WriterError::IoError(
                "short write: the device is smaller than the image".to_owned(),
            ));
        }
        // Write exactly this chunk at the current offset.
        let mut j: usize = 0;
        while j < n
            invariant
                j <= n,
                pos + n <= dest@.len(),
                pos + n <= length,
                dest@.len() == dst0.len(),
                forall|i: int| 0 <= i < pos + j ==> dest@[i] == src[i],
                forall|i: int| pos + j <= i < dst0.len() ==> dest@[i] == dst0[i],
            decreases n - j,
        {
            assert(dest@[pos + j as int] == dst0[pos + j as int]);
            dest[pos + j] = source[pos + j];
            j = j + 1;
        }
        pos = pos + n;
        assert(dest@ =~= spec_partial_copy(src, dst0, pos as int));
        let now = time_at(chunk_times_ms, start_ms, chunk_idx);
        chunk_idx = chunk_idx + 1;
        proof {
            let b = buffer_size as int;
            let p0 = pos as int - n as int;
            let c1 = chunk_idx as int;
            assert(pos as int % b == 0 || pos == length) by {
                if n == buffer_size {
                    vstd::arithmetic::div_mod::lemma_mod_add_multiples_vanish(p0, b);
                    assert(p0 % b == 0) by {
                        if p0 == length {
                            assert(n == 0);
                        }
                    }
                }
            }
            if p0 == 0 {
                assert(c1 * b == b) by (nonlinear_arith)
                    requires c1 == 1;
                assert((c1 - 1) * b == 0) by (nonlinear_arith)
                    requires c1 == 1;
            } else {
                assert(p0 % b == 0) by {
                    if p0 == length {
                        assert(n == 0);
                    }
                }
                vstd::arithmetic::div_mod::lemma_fundamental_div_mod(p0, b);
                assert(p0 == b * (p0 / b));
                assert((c1 - 1) * b <= p0) by (nonlinear_arith)
                    requires
                        (c1 - 2) * b < p0,
                        p0 == b * (p0 / b),
                        b >= 1,
                ;
                assert(c1 * b == (c1 - 1) * b + b) by (nonlinear_arith);
            }
        }
        let emitted = reporter.note_chunk(n as u64, now);
        if let Some(s) = emitted {
            proof {
                lemma_percent_below_100(pos as int, total as int);
            }
            samples.push(s);
        }
        proof {
            // One unfolding of the sample trace at the chunk just written.
            let ll = length as int;
            let b = buffer_size as int;
            let t = chunk_times_ms@;
            let n_spec = if ll - pre_pos < b {
                ll - pre_pos
            } else {
                b
            };
            assert(n_spec == n as int);
            let now_spec = spec_time_at(t, start_ms, pre_chunk_idx);
            assert(now_spec == now);
            if pre_pos + n_spec < ll && spec_should_emit(pre_last as int, now_spec as int) {
                assert(spec_mid_samples(ll, b, start_ms, t, pre_chunk_idx, pre_pos, pre_last)
                    == seq![spec_sample(pre_pos + n_spec, ll, start_ms as int, now_spec as int)]
                    + spec_mid_samples(
                    ll,
                    b,
                    start_ms,
                    t,
                    pre_chunk_idx + 1,
                    pre_pos + n_spec,
                    now_spec,
                ));
                assert(samples@ =~= pre_samples + seq![
                    spec_sample(pre_pos + n_spec, ll, start_ms as int, now_spec as int),
                ]);
                assert(pre_samples + (seq![
                    spec_sample(pre_pos + n_spec, ll, start_ms as int, now_spec as int),
                ] + spec_mid_samples(ll, b, start_ms, t, pre_chunk_idx + 1, pre_pos + n_spec, now_spec))
                    =~= samples@ + spec_mid_samples(
                    ll,
                    b,
                    start_ms,
                    t,
                    pre_chunk_idx + 1,
                    pre_pos + n_spec,
                    now_spec,
                ));
            } else {
                assert(spec_mid_samples(ll, b, start_ms, t, pre_chunk_idx, pre_pos, pre_last)
                    == spec_mid_samples(
                    ll,
                    b,
                    start_ms,
                    t,
                    pre_chunk_idx + 1,
                    pre_pos + n_spec,
                    pre_last,
                ));
            }
        }
    }
    // All data is on the device; a real destination is flushed here so the
    // verification pass never reads stale cached data.
    assert(pos == length);
    proof {
        let b = buffer_size as int;
        let ll = length as int;
        let c = chunk_idx as int;
        if ll == 0 {
            vstd::arithmetic::div_mod::lemma_basic_div(b - 1, b);
            assert(spec_num_chunks(ll, b) == 0);
        } else {
            assert(0 <= ll + b - 1 - c * b < b) by (nonlinear_arith)
                requires c * b >= ll, (c - 1) * b < ll, b >= 1;
            vstd::arithmetic::div_mod::lemma_fundamental_div_mod_converse_div(
                ll + b - 1,
                b,
                c,
                ll + b - 1 - c * b,
            );
            assert(spec_num_chunks(ll, b) == c);
        }
    }
    proof {
        // The copy is complete, so the remaining trace is empty and the
        // samples so far are exactly the mid-copy trace.
        let ll = length as int;
        let b = buffer_size as int;
        let t = chunk_times_ms@;
        assert(spec_mid_samples(ll, b, start_ms, t, chunk_idx as int, pos as int,
            reporter.last_emit_ms) =~= Seq::<WriteProgress>::empty());
        assert(spec_mid_samples(ll, b, start_ms, t, 0, 0, start_ms) =~= samples@);
    }
    let final_now = time_at(chunk_times_ms, start_ms, chunk_idx);
    let closing = reporter.finish(final_now);
    samples.push(closing);
    assert(dest@ =~= spec_copied(src, dst0));
    Ok(CopyReport { bytes_written: pos as u64, samples })
}

/// A source shorter than or equal to the destination, matching it byte for
/// byte over the source's whole length. This is what the verification pass
/// reports as success.
pub open spec fn spec_verify_ok(src: Seq<u8>, dst: Seq<u8>) -> bool {
    src.len() <= dst.len() && dst.subrange(0, src.len() as int) == src
}

/// Re-reads source and destination from their start and compares them
/// chunk by chunk, polling for cancellation at each chunk boundary. The
/// destination may be larger: only the source's length must match. A pure,
/// read-only pass: its verdict is a function of the two contents alone, so
/// repeating it on unchanged inputs returns the same verdict.
#[verifier::loop_isolation(false)]
pub fn verify_write(
    source: &[u8],
    dest: &[u8],
    buffer_size: usize,
    cancel: Option<&AtomicBool>,
) -> (r: Result<bool, WriterError>)
    requires
        buffer_size >= 1,
    ensures
        cancel is None ==> r is Ok,
        r matches Ok(b) ==> b == spec_verify_ok(source@, dest@),
        r matches Err(e) ==> cancel is Some && e matches WriterError::Cancelled,
{
    let ghost src = source@;
    let ghost dst = dest@;
    let length = source.len();
    let dest_len = dest.len();
    let mut pos: usize = 0;
    loop
        invariant
            pos <= length,
            pos <= dest_len,
            forall|i: int| 0 <= i < pos ==> src[i] == dst[i],
        decreases length - pos,
    {
        if cancel_requested(cancel) {
            return Err(WriterError::Cancelled);
        }
        let src_remaining = length - pos;
        let n = if src_remaining < buffer_size {
            src_remaining
        } else {
            buffer_size
        };
        if n == 0 {
            break;
        }
        let dst_remaining = dest_len - pos;
        let m = if dst_remaining < buffer_size {
            dst_remaining
        } else {
            buffer_size
        };
        if m < n {
            // The destination ran out before the source: a length mismatch.
            assert(dest_len < length);
            return Ok(false);
        }
        let mut j: usize = 0;
        while j < n
            invariant
                j <= n,
                pos + n <= length,
                pos + n <= dest_len,
                forall|i: int| 0 <= i < pos + j ==> src[i] == dst[i],
            decreases n - j,
        {
            if source[pos + j] != dest[pos + j] {
                proof {
                    let w = pos + j as int;
                    if src.len() <= dst.len() {
                        assert(dst.subrange(0, src.len() as int)[w] == dst[w]);
                    }
                }
                return Ok(false);
            }
            j = j + 1;
        }
        pos = pos + n;
    }
    assert(pos == length);
    assert(dst.subrange(0, src.len() as int) =~= src);
    Ok(true)
}

/// The byte offset of the first difference between source and destination:
/// the first offset where the bytes differ, or where the destination ends
/// while the source goes on. `None` means the destination carries the
/// source in full.
#[verifier::loop_isolation(false)]
pub fn first_mismatch(source: &[u8], dest: &[u8]) -> (r: Option<u64>)
    ensures
        r is None <==> spec_verify_ok(source@, dest@),
        r matches Some(k) ==> {
            &&& 0 <= k < source@.len()
            &&& k <= dest@.len()
            &&& (forall|i: int| 0 <= i < k ==> source@[i] == dest@[i])
            &&& (k == dest@.len() || source@[k as int] != dest@[k as int])
        },
{
    let ghost src = source@;
    let ghost dst = dest@;
    let length = source.len();
    let dest_len = dest.len();
    let mut i: usize = 0;
    while i < length
        invariant
            i <= length,
            i <= dest_len,
            forall|j: int| 0 <= j < i ==> src[j] == dst[j],
        decreases length - i,
    {
        if i == dest_len {
            proof {
                if src.len() <= dst.len() {
                    assert(false);
                }
            }
            return Some(i as u64);
        }
        if source[i] != dest[i] {
            proof {
                if src.len() <= dst.len() {
                    assert(dst.subrange(0, src.len() as int)[i as int] == dst[i as int]);
                }
            }
            return Some(i as u64);
        }
        i = i + 1;
    }
    assert(dst.subrange(0, src.len() as int) =~= src);
    None
}

/// Fails fast with `InsufficientSpace` when the device's known capacity is
/// smaller than the image. An unknown capacity passes: the check is
/// best-effort, and a genuine shortfall then surfaces as an I/O failure
/// during the copy.
pub fn check_capacity(iso_size: u64, device_capacity: Option<u64>) -> (r: Result<
    (),
    WriterError,
>)
    ensures
        r is Ok <==> (device_capacity is None || iso_size <= device_capacity->0),
        r is Err ==> r matches Err(WriterError::InsufficientSpace),
{
    match device_capacity {
        Some(capacity) => {
            if iso_size > capacity {
                Err(WriterError::InsufficientSpace)
            } else {
                Ok(())
            }
        },
        None => Ok(()),
    }
}

/// A copy of the source over any large-enough destination passes the
/// verification pass: writing, then verifying, reports success.
pub proof fn lemma_write_then_verify_succeeds(src: Seq<u8>, dst0: Seq<u8>)
    requires
        src.len() <= dst0.len(),
    ensures
        spec_verify_ok(src, spec_copied(src, dst0)),
{
    assert(spec_copied(src, dst0).subrange(0, src.len() as int) =~= src);
}

/// One differing byte anywhere in the compared range makes the verification
/// pass report failure.
pub proof fn lemma_corruption_detected(src: Seq<u8>, dst: Seq<u8>, k: int)
    requires
        src.len() <= dst.len(),
        0 <= k < src.len(),
        dst[k] != src[k],
    ensures
        !spec_verify_ok(src, dst),
{
    assert(dst.subrange(0, src.len() as int)[k] == dst[k]);
}

/// Verification is deterministic: any two verdicts on the same unchanged
/// contents agree, because `verify_write` promises its verdict equals
/// `spec_verify_ok` of the contents alone.
pub proof fn lemma_verification_deterministic(
    src: Seq<u8>,
    dst: Seq<u8>,
    verdict1: bool,
    verdict2: bool,
)
    requires
        verdict1 == spec_verify_ok(src, dst),
        verdict2 == spec_verify_ok(src, dst),
    ensures
        verdict1 == verdict2,
{
}

} // verus!
