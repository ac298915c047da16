use core::sync::atomic::AtomicBool;
use schrijver::error::WriterError;
use schrijver::writer::{copy_with_progress, first_mismatch, verify_write, check_capacity,
    UsbWriter, BUFFER_SIZE};

#[test]
fn test_copy_with_progress() {
    let test_data = b"Hello, World! This is test data for USB writing.";
    let mut writer: Vec<u8> = vec![0u8; test_data.len()];

    let result = copy_with_progress(test_data, &mut writer, 16, 0, &[], None);

    assert!(result.is_ok());
    assert_eq!(writer, test_data);
}

#[test]
fn test_copy_reads_in_buffer_sized_chunks() {
    // 50 bytes with a 16-byte buffer: chunks of 16, 16, 16, 2. With the
    // clock advancing past the throttle window at every chunk boundary,
    // each whole chunk emits a sample, so the running byte counts show the
    // read sizes directly.
    let source: Vec<u8> = (0u8..50).collect();
    let mut dest: Vec<u8> = vec![0u8; 50];
    let times: Vec<u64> = vec![200, 400, 600, 800];

    let report = copy_with_progress(&source, &mut dest, 16, 0, &times, None).unwrap();

    assert_eq!(report.bytes_written, 50);
    assert_eq!(dest, source);
    let bytes: Vec<u64> = report.samples.iter().map(|s| s.bytes_written).collect();
    assert_eq!(bytes, vec![16, 32, 48, 50]);
    let percents: Vec<u64> = report.samples.iter().map(|s| s.progress_percent).collect();
    assert_eq!(percents, vec![32, 64, 96, 100]);
}

#[test]
fn test_final_sample_is_the_only_100() {
    // The whole transfer finishes inside one throttle window: no mid-copy
    // sample is emitted, yet the one closing sample still reads 100.
    let source: Vec<u8> = (0u8..50).collect();
    let mut dest: Vec<u8> = vec![0u8; 50];
    let times: Vec<u64> = vec![10, 20, 30, 40, 50];

    let report = copy_with_progress(&source, &mut dest, 16, 0, &times, None).unwrap();

    assert_eq!(report.samples.len(), 1);
    assert_eq!(report.samples[0].progress_percent, 100);
    assert_eq!(report.samples[0].bytes_written, 50);
    assert_eq!(report.samples[0].total_bytes, 50);
}

#[test]
fn test_final_sample_100_with_throttled_mid_samples() {
    // Even when mid-copy samples are emitted, 100 appears exactly once, as
    // the last sample.
    let source: Vec<u8> = (0u8..50).collect();
    let mut dest: Vec<u8> = vec![0u8; 50];
    let times: Vec<u64> = vec![500, 1000, 1500, 2000, 2500];

    let report = copy_with_progress(&source, &mut dest, 16, 0, &times, None).unwrap();

    let hundreds = report
        .samples
        .iter()
        .filter(|s| s.progress_percent == 100)
        .count();
    assert_eq!(hundreds, 1);
    assert_eq!(report.samples.last().unwrap().progress_percent, 100);
}

#[test]
fn test_copy_buffer_not_dividing_length() {
    // Buffer sizes that do not divide the length still transfer every byte.
    for buffer in [1usize, 3, 7, 16, 49, 50, 64] {
        let source: Vec<u8> = (0u8..50).collect();
        let mut dest: Vec<u8> = vec![0xAAu8; 50];
        let report = copy_with_progress(&source, &mut dest, buffer, 0, &[], None).unwrap();
        assert_eq!(report.bytes_written, 50);
        assert_eq!(dest, source);
    }
}

#[test]
fn test_copy_empty_source() {
    let source: Vec<u8> = Vec::new();
    let mut dest: Vec<u8> = vec![7u8, 8, 9];

    let report = copy_with_progress(&source, &mut dest, 16, 0, &[], None).unwrap();

    assert_eq!(report.bytes_written, 0);
    assert_eq!(dest, vec![7u8, 8, 9]);
    assert_eq!(report.samples.len(), 1);
    assert_eq!(report.samples[0].progress_percent, 100);
}

#[test]
fn test_copy_leaves_destination_tail_untouched() {
    let source: Vec<u8> = vec![1, 2, 3];
    let mut dest: Vec<u8> = vec![0xFFu8; 6];

    copy_with_progress(&source, &mut dest, 2, 0, &[], None).unwrap();

    assert_eq!(dest, vec![1, 2, 3, 0xFF, 0xFF, 0xFF]);
}

#[test]
fn test_copy_short_write_is_fatal_io_error() {
    // A destination smaller than the source fails mid-copy with an I/O
    // failure; whole chunks already written stay in place.
    let source: Vec<u8> = (0u8..100).collect();
    let mut dest: Vec<u8> = vec![0u8; 50];

    let result = copy_with_progress(&source, &mut dest, 16, 0, &[], None);

    assert!(matches!(result, Err(WriterError::IoError(_))));
    assert_eq!(&dest[..48], &source[..48]);
    assert_eq!(&dest[48..], &[0u8, 0u8]);
}

#[test]
fn test_copy_cancelled_before_first_chunk() {
    let source: Vec<u8> = (0u8..50).collect();
    let mut dest: Vec<u8> = vec![0u8; 50];
    let cancel = AtomicBool::new(true);

    let result = copy_with_progress(&source, &mut dest, 16, 0, &[], Some(&cancel));

    assert!(matches!(result, Err(WriterError::Cancelled)));
    assert_eq!(dest, vec![0u8; 50]);
}

#[test]
fn test_verify_round_trip() {
    // Writer followed by Verifier reports success, for zero-length content,
    // content smaller than one buffer, and content spanning many chunks.
    for len in [0usize, 3, 64, 200] {
        let source: Vec<u8> = (0..len).map(|i| (i % 251) as u8).collect();
        let mut dest: Vec<u8> = vec![0u8; len + 10];
        copy_with_progress(&source, &mut dest, 16, 0, &[], None).unwrap();
        let verdict = verify_write(&source, &dest, 7, None).unwrap();
        assert!(verdict);
    }
}

#[test]
fn test_verify_detects_single_flipped_byte() {
    let source: Vec<u8> = (0u8..200).collect();
    for offset in [0usize, 1, 99, 198, 199] {
        let mut dest: Vec<u8> = vec![0u8; 200];
        copy_with_progress(&source, &mut dest, 16, 0, &[], None).unwrap();
        dest[offset] ^= 0x01;
        let verdict = verify_write(&source, &dest, 64, None).unwrap();
        assert!(!verdict);
        // The pass is read-only and its verdict a function of the contents:
        // repeating it returns the same answer.
        let again = verify_write(&source, &dest, 64, None).unwrap();
        assert_eq!(verdict, again);
    }
}

#[test]
fn test_verify_accepts_larger_destination() {
    let source: Vec<u8> = vec![5, 6, 7];
    let dest: Vec<u8> = vec![5, 6, 7, 99, 98];
    assert!(verify_write(&source, &dest, 2, None).unwrap());
}

#[test]
fn test_verify_rejects_shorter_destination() {
    let source: Vec<u8> = vec![5, 6, 7, 8];
    let dest: Vec<u8> = vec![5, 6, 7];
    assert!(!verify_write(&source, &dest, 2, None).unwrap());
}

#[test]
fn test_verify_cancelled() {
    let source: Vec<u8> = vec![1, 2, 3];
    let dest: Vec<u8> = vec![1, 2, 3];
    let cancel = AtomicBool::new(true);
    let result = verify_write(&source, &dest, 2, Some(&cancel));
    assert!(matches!(result, Err(WriterError::Cancelled)));
}

#[test]
fn test_first_mismatch_reports_offset() {
    let source: Vec<u8> = (0u8..50).collect();
    let mut dest: Vec<u8> = source.clone();
    assert_eq!(first_mismatch(&source, &dest), None);
    dest[17] ^= 0x80;
    assert_eq!(first_mismatch(&source, &dest), Some(17));
}

#[test]
fn test_first_mismatch_at_truncated_destination() {
    let source: Vec<u8> = vec![1, 2, 3, 4];
    let dest: Vec<u8> = vec![1, 2];
    assert_eq!(first_mismatch(&source, &dest), Some(2));
}

#[test]
fn test_check_capacity() {
    assert!(check_capacity(100, Some(100)).is_ok());
    assert!(check_capacity(100, Some(101)).is_ok());
    assert!(matches!(
        check_capacity(101, Some(100)),
        Err(WriterError::InsufficientSpace)
    ));
    // An unknown capacity is not a failure: the check is best-effort.
    assert!(check_capacity(u64::MAX, None).is_ok());
}

#[test]
fn test_usb_writer_new_uses_default_buffer() {
    let w = UsbWriter::new("image.iso".to_string(), "/dev/sdz".to_string());
    assert_eq!(w.iso_path, "image.iso");
    assert_eq!(w.device_path, "/dev/sdz");
    assert_eq!(w.buffer_size, BUFFER_SIZE);
    assert_eq!(BUFFER_SIZE, 1024 * 1024);
}
