use core::sync::atomic::AtomicBool;
use schrijver::device::UsbDevice;
use schrijver::error::WriterError;
use schrijver::session::{app_state_after, can_write, session_step, write_iso_to_device,
    AppState, SessionEvent, SessionState};
use schrijver::writer::{copy_with_progress, verify_write};

fn sample_device(path: &str) -> UsbDevice {
    UsbDevice {
        name: "Test Stick".to_string(),
        device_path: path.to_string(),
        size: 0,
        vendor: "Acme".to_string(),
        model: "Stick".to_string(),
        is_removable: true,
    }
}

#[test]
fn test_session_success_round_trip() {
    let source: Vec<u8> = (0u8..200).collect();
    let mut dest: Vec<u8> = vec![0u8; 256];
    let device = sample_device("/dev/sdz");
    let mounts = b"/dev/sda1 / ext4 rw 0 0\n";

    let report = write_iso_to_device(
        "image.iso", true, &source, &device, true, mounts, Some(256), &mut dest, 16, 7, 0, &[],
        None,
    )
    .unwrap();

    assert_eq!(report.bytes_written, 200);
    assert_eq!(&dest[..200], &source[..]);
    assert_eq!(&dest[200..], &[0u8; 56][..]);
    assert_eq!(report.samples.last().unwrap().progress_percent, 100);
}

#[test]
fn test_session_source_missing_before_any_target_interaction() {
    let source: Vec<u8> = Vec::new();
    let mut dest: Vec<u8> = vec![9u8; 8];
    let device = sample_device("/dev/sdz");

    let result = write_iso_to_device(
        "missing.iso", false, &source, &device, true, b"", None, &mut dest, 16, 7, 0, &[], None,
    );

    match result {
        Err(WriterError::IsoNotFound(p)) => assert_eq!(p, "missing.iso"),
        other => panic!("expected IsoNotFound, got {:?}", other),
    }
    assert_eq!(dest, vec![9u8; 8]);
}

#[test]
fn test_session_device_missing() {
    let source: Vec<u8> = vec![1, 2, 3];
    let mut dest: Vec<u8> = vec![0u8; 8];
    let device = sample_device("/dev/sdz");

    let result = write_iso_to_device(
        "image.iso", true, &source, &device, false, b"", None, &mut dest, 16, 7, 0, &[], None,
    );

    match result {
        Err(WriterError::DeviceNotFound(p)) => assert_eq!(p, "/dev/sdz"),
        other => panic!("expected DeviceNotFound, got {:?}", other),
    }
    assert_eq!(dest, vec![0u8; 8]);
}

#[test]
fn test_session_mounted_device_refused_with_no_write() {
    let source: Vec<u8> = vec![1, 2, 3];
    let mut dest: Vec<u8> = vec![0u8; 8];
    let device = sample_device("/dev/sdb");
    // A mounted partition of the same device also counts.
    let mounts = b"/dev/sda1 / ext4 rw 0 0\n/dev/sdb1 /mnt/usb vfat rw 0 0\n";

    let result = write_iso_to_device(
        "image.iso", true, &source, &device, true, mounts, Some(8), &mut dest, 16, 7, 0, &[],
        None,
    );

    match result {
        Err(WriterError::DeviceMounted(p)) => assert_eq!(p, "/dev/sdb"),
        other => panic!("expected DeviceMounted, got {:?}", other),
    }
    assert_eq!(dest, vec![0u8; 8]);
}

#[test]
fn test_session_insufficient_space_before_any_write() {
    // Known capacity 100, source 200: the session fails before any device
    // handle would be opened, so the destination is untouched.
    let source: Vec<u8> = vec![0u8; 200];
    let mut dest: Vec<u8> = vec![5u8; 100];
    let device = sample_device("/dev/sdz");

    let result = write_iso_to_device(
        "image.iso", true, &source, &device, true, b"", Some(100), &mut dest, 16, 7, 0, &[],
        None,
    );

    assert!(matches!(result, Err(WriterError::InsufficientSpace)));
    assert_eq!(dest, vec![5u8; 100]);
}

#[test]
fn test_session_cancelled() {
    let source: Vec<u8> = vec![1, 2, 3];
    let mut dest: Vec<u8> = vec![0u8; 8];
    let device = sample_device("/dev/sdz");
    let cancel = AtomicBool::new(true);

    let result = write_iso_to_device(
        "image.iso", true, &source, &device, true, b"", None, &mut dest, 16, 7, 0, &[],
        Some(&cancel),
    );

    assert!(matches!(result, Err(WriterError::Cancelled)));
    assert_eq!(dest, vec![0u8; 8]);
}

#[test]
fn test_corruption_after_copy_fails_verification_without_rollback() {
    // The copy succeeds, then one byte on the destination changes under the
    // session's feet. Verification reports the mismatch; the data already
    // written stays exactly as it is, corrupted byte included.
    let source: Vec<u8> = (0u8..200).collect();
    let mut dest: Vec<u8> = vec![0u8; 200];
    copy_with_progress(&source, &mut dest, 16, 0, &[], None).unwrap();

    let offset = 123;
    dest[offset] ^= 0xFF;
    let verdict = verify_write(&source, &dest, 64, None).unwrap();
    assert!(!verdict);

    let mut expected = source.clone();
    expected[offset] ^= 0xFF;
    assert_eq!(dest, expected);
    // The outcome kind for this failure is distinct from a copy fault and
    // not worth an automatic retry.
    assert!(!WriterError::VerificationFailed.is_recoverable());
}

#[test]
fn test_session_step_transition_table() {
    assert_eq!(
        session_step(SessionState::Idle, SessionEvent::Start),
        SessionState::Validating
    );
    assert_eq!(
        session_step(SessionState::Validating, SessionEvent::ValidationPassed),
        SessionState::Copying
    );
    assert_eq!(
        session_step(SessionState::Validating, SessionEvent::ValidationFailed),
        SessionState::Failed
    );
    assert_eq!(
        session_step(SessionState::Copying, SessionEvent::CopyPassed),
        SessionState::Verifying
    );
    assert_eq!(
        session_step(SessionState::Copying, SessionEvent::CopyFailed),
        SessionState::Failed
    );
    assert_eq!(
        session_step(SessionState::Verifying, SessionEvent::VerifyPassed),
        SessionState::Completed
    );
    assert_eq!(
        session_step(SessionState::Verifying, SessionEvent::VerifyFailed),
        SessionState::Failed
    );
    // Terminal states absorb every event.
    assert_eq!(
        session_step(SessionState::Completed, SessionEvent::Start),
        SessionState::Completed
    );
    assert_eq!(
        session_step(SessionState::Failed, SessionEvent::CopyPassed),
        SessionState::Failed
    );
    // An event foreign to the current state changes nothing.
    assert_eq!(
        session_step(SessionState::Idle, SessionEvent::VerifyPassed),
        SessionState::Idle
    );
}

#[test]
fn test_app_state_after_outcome() {
    assert_eq!(app_state_after(&Ok(())), AppState::Completed);
    match app_state_after(&Err(WriterError::Cancelled)) {
        AppState::Error(m) => assert_eq!(m, "The operation was cancelled by the user."),
        other => panic!("expected Error, got {:?}", other),
    }
}

#[test]
fn test_can_write_needs_selection_and_idle_writer() {
    assert!(can_write(true, true, false));
    assert!(!can_write(false, true, false));
    assert!(!can_write(true, false, false));
    assert!(!can_write(true, true, true));
}
