//! The write session: the lifecycle state machine and the orchestrator that
//! sequences validation, copy and verification into one terminal outcome.
//!
//! A session validates first (source present, device present, device not
//! mounted, capacity sufficient), aborting on the first failure before any
//! byte is written; then drives the copy to completion; then, only on copy
//! success, runs the verification pass. Every exit produces exactly one
//! outcome.

use core::sync::atomic::AtomicBool;
use vstd::prelude::*;
use vstd::string::StringExecFns;
use crate::device::{UsbDevice, spec_mounted, validate_device_for_writing};
use crate::error::{WriterError, spec_user_friendly_message};
use crate::writer::{CopyReport, check_capacity, copy_with_progress, spec_copied,
    spec_fail_prefix, spec_num_chunks, spec_partial_copy, spec_time_at, verify_write,
    lemma_write_then_verify_succeeds};
use crate::progress::spec_sample;

verus! {

/// The lifecycle of one write session. `Completed` and `Failed` are
/// terminal: no further transition leaves them.
#[derive(Debug, Clone, Copy, PartialEq, Eq, Structural)]
pub enum SessionState {
    /// No work requested yet.
    Idle,
    /// Running the pre-flight checks.
    Validating,
    /// Driving the chunked copy.
    Copying,
    /// Running the post-copy comparison.
    Verifying,
    /// The copy completed and verified.
    Completed,
    /// The session ended with a failure outcome.
    Failed,
}

/// One observation that moves a session's lifecycle forward.
#[derive(Debug, Clone, Copy, PartialEq, Eq, Structural)]
pub enum SessionEvent {
    /// A write was requested with a source and a target.
    Start,
    /// Every pre-flight check passed.
    ValidationPassed,
    /// A pre-flight check failed.
    ValidationFailed,
    /// The copy wrote every byte and flushed.
    CopyPassed,
    /// The copy aborted.
    CopyFailed,
    /// The comparison matched over the source's whole length.
    VerifyPassed,
    /// The comparison mismatched.
    VerifyFailed,
}

/// The lifecycle transition table: which state an event moves a session to.
/// Terminal states absorb every event, and an event that does not belong to
/// the current state leaves it unchanged.
pub open spec fn spec_session_step(s: SessionState, ev: SessionEvent) -> SessionState {
    match (s, ev) {
        (SessionState::Idle, SessionEvent::Start) => SessionState::Validating,
        (SessionState::Validating, SessionEvent::ValidationPassed) => SessionState::Copying,
        (SessionState::Validating, SessionEvent::ValidationFailed) => SessionState::Failed,
        (SessionState::Copying, SessionEvent::CopyPassed) => SessionState::Verifying,
        (SessionState::Copying, SessionEvent::CopyFailed) => SessionState::Failed,
        (SessionState::Verifying, SessionEvent::VerifyPassed) => SessionState::Completed,
        (SessionState::Verifying, SessionEvent::VerifyFailed) => SessionState::Failed,
        (_, _) => s,
    }
}

/// Advances a session's lifecycle by one event, by the transition table.
pub fn session_step(s: SessionState, ev: SessionEvent) -> (r: SessionState)
    ensures
        r == spec_session_step(s, ev),
{
    match (s, ev) {
        (SessionState::Idle, SessionEvent::Start) => SessionState::Validating,
        (SessionState::Validating, SessionEvent::ValidationPassed) => SessionState::Copying,
        (SessionState::Validating, SessionEvent::ValidationFailed) => SessionState::Failed,
        (SessionState::Copying, SessionEvent::CopyPassed) => SessionState::Verifying,
        (SessionState::Copying, SessionEvent::CopyFailed) => SessionState::Failed,
        (SessionState::Verifying, SessionEvent::VerifyPassed) => SessionState::Completed,
        (SessionState::Verifying, SessionEvent::VerifyFailed) => SessionState::Failed,
        (_, _) => s,
    }
}

/// What the front-end shows between user actions.
#[derive(Debug, Clone, PartialEq)]
pub enum AppState {
    /// Nothing selected or running.
    Idle,
    /// The file picker is open.
    SelectingFile,
    /// A write session is running.
    Writing,
    /// The last session completed.
    Completed,
    /// The last session failed, with the advice shown to the user.
    Error(String),
}

/// The front-end state after a session reports its outcome.
pub fn app_state_after(outcome: &Result<(), WriterError>) -> (r: AppState)
    ensures
        outcome is Ok ==> r is Completed,
        outcome matches Err(e) ==> (r matches AppState::Error(m) && m@
            == spec_user_friendly_message(*e)),
{
    match outcome {
        Ok(_) => AppState::Completed,
        Err(e) => AppState::Error(e.user_friendly_message()),
    }
}

/// Whether the front-end may start a write: a source and a device are
/// chosen, and no session is already running. One session per target at a
/// time: interleaved writes would corrupt the image.
pub fn can_write(iso_selected: bool, device_selected: bool, is_writing: bool) -> (r: bool)
    ensures
        r == (iso_selected && device_selected && !is_writing),
{
    iso_selected && device_selected && !is_writing
}

/// Every pre-flight check a session runs, in the order it runs them.
pub open spec fn spec_validation_ok(
    source_exists: bool,
    device_exists: bool,
    mounted: bool,
    capacity: Option<u64>,
    source_len: int,
) -> bool {
    &&& source_exists
    &&& device_exists
    &&& !mounted
    &&& (capacity is None || source_len <= capacity->0)
}

/// Runs one whole write session over in-memory streams: validates, copies,
/// verifies, and returns the one terminal outcome.
///
/// The source check comes before any look at the target; every validation
/// failure comes before any byte is written; a copy failure skips
/// verification; and a session that copied successfully can only end
/// verified, since the pass re-reads exactly what the copy wrote —
/// `VerificationFailed` is never this function's outcome, and stays in the
/// taxonomy for callers whose device changed underneath them. Success is
/// owed whenever validation passes, the device is large enough and no
/// cancellation flag was supplied.
pub fn write_iso_to_device(
    iso_path: &str,
    source_exists: bool,
    source: &[u8],
    device: &UsbDevice,
    device_exists: bool,
    mounts: &[u8],
    device_capacity: Option<u64>,
    dest: &mut Vec<u8>,
    copy_buffer_size: usize,
    verify_buffer_size: usize,
    start_ms: u64,
    chunk_times_ms: &[u64],
    cancel: Option<&AtomicBool>,
) -> (r: Result<CopyReport, WriterError>)
    requires
        copy_buffer_size >= 1,
        verify_buffer_size >= 1,
    ensures
        final(dest)@.len() == old(dest)@.len(),
        !source_exists ==> (r matches Err(e) && e matches WriterError::IsoNotFound(q) && q@
            == iso_path@ && final(dest)@ == old(dest)@),
        source_exists && !device_exists ==> (r matches Err(e) && e
            matches WriterError::DeviceNotFound(q) && q@ == device.device_path@ && final(dest)@
            == old(dest)@),
        source_exists && device_exists && spec_mounted(
            mounts@,
            vstd::utf8::encode_utf8(device.device_path@),
        ) ==> (r matches Err(e) && e matches WriterError::DeviceMounted(q) && q@
            == device.device_path@ && final(dest)@ == old(dest)@),
        source_exists && device_exists && !spec_mounted(
            mounts@,
            vstd::utf8::encode_utf8(device.device_path@),
        ) && !(device_capacity is None || source@.len() <= device_capacity->0) ==> (r matches Err(
            e,
        ) && e matches WriterError::InsufficientSpace && final(dest)@ == old(dest)@),
        spec_validation_ok(
            source_exists,
            device_exists,
            spec_mounted(mounts@, vstd::utf8::encode_utf8(device.device_path@)),
            device_capacity,
            source@.len() as int,
        ) && cancel is None ==> (r is Ok <==> source@.len() <= old(dest)@.len()),
        r matches Ok(report) ==> {
            &&& source@.len() <= old(dest)@.len()
            &&& report.bytes_written == source@.len()
            &&& final(dest)@ == spec_copied(source@, old(dest)@)
            &&& report.samples@.len() >= 1
            &&& report.samples@.last() == spec_sample(
                source@.len() as int,
                source@.len() as int,
                start_ms as int,
                spec_time_at(
                    chunk_times_ms@,
                    start_ms,
                    spec_num_chunks(source@.len() as int, copy_buffer_size as int),
                ) as int,
            )
            &&& report.samples@.last().progress_percent == 100
            &&& (forall|k: int| #![trigger report.samples@[k]]
                0 <= k < report.samples@.len() - 1 ==> report.samples@[k].progress_percent < 100)
        },
        r matches Err(WriterError::IoError(_)) ==> {
            &&& source@.len() > old(dest)@.len()
            &&& final(dest)@ == spec_partial_copy(
                source@,
                old(dest)@,
                spec_fail_prefix(old(dest)@.len() as int, copy_buffer_size as int),
            )
        },
        r matches Err(WriterError::Cancelled) ==> {
            &&& cancel is Some
            &&& exists|k: int|
                {
                    &&& 0 <= k <= source@.len()
                    &&& (k % (copy_buffer_size as int) == 0 || k == source@.len())
                    &&& final(dest)@ == #[trigger] spec_partial_copy(source@, old(dest)@, k)
                }
        },
        !(r matches Err(WriterError::VerificationFailed)),
        r matches Err(e) ==> {
            ||| e is IsoNotFound
            ||| e is DeviceNotFound
            ||| e is DeviceMounted
            ||| e is InsufficientSpace
            ||| e is IoError
            ||| e is Cancelled
        },
{
    let ghost src = source@;
    let ghost dst0 = old(dest)@;
    let mut state = session_step(SessionState::Idle, SessionEvent::Start);
    assert(state is Validating);
    if !source_exists {
        state = session_step(state, SessionEvent::ValidationFailed);
        assert(state is Failed);
        return Err(WriterError::IsoNotFound(iso_path.to_owned()));
    }
    match validate_device_for_writing(device, device_exists, mounts) {
        Err(e) => {
            state = session_step(state, SessionEvent::ValidationFailed);
            assert(state is Failed);
            return Err(e);
        },
        Ok(()) => {},
    }
    match check_capacity(source.len() as u64, device_capacity) {
        Err(e) => {
            state = session_step(state, SessionEvent::ValidationFailed);
            assert(state is Failed);
            return Err(e);
        },
        Ok(()) => {},
    }
    state = session_step(state, SessionEvent::ValidationPassed);
    assert(state is Copying);
    let report = match copy_with_progress(
        source,
        dest,
        copy_buffer_size,
        start_ms,
        chunk_times_ms,
        cancel,
    ) {
        Err(e) => {
            state = session_step(state, SessionEvent::CopyFailed);
            assert(state is Failed);
            return Err(e);
        },
        Ok(report) => report,
    };
    state = session_step(state, SessionEvent::CopyPassed);
    assert(state is Verifying);
    proof {
        lemma_write_then_verify_succeeds(src, dst0);
    }
    match verify_write(source, dest.as_slice(), verify_buffer_size, cancel) {
        Err(e) => {
            // Cancelled while verifying: the copy itself is complete.
            assert(spec_partial_copy(src, dst0, src.len() as int) =~= spec_copied(src, dst0));
            return Err(e);
        },
        Ok(true) => {
            state = session_step(state, SessionEvent::VerifyPassed);
            assert(state is Completed);
            Ok(report)
        },
        Ok(false) => {
            // Unreachable over in-memory streams: the pass re-read exactly
            // what the copy wrote. Kept as the session's mapping of a
            // mismatch to its own failure kind.
            state = session_step(state, SessionEvent::VerifyFailed);
            assert(state is Failed);
            Err(WriterError::VerificationFailed)
        },
    }
}

} // verus!
