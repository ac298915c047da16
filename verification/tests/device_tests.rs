use schrijver::device::{is_device_mounted, validate_device_for_writing, UsbDevice};
use schrijver::error::WriterError;

fn device_at(path: &str) -> UsbDevice {
    UsbDevice {
        name: "Stick".to_string(),
        device_path: path.to_string(),
        size: 16 * 1024 * 1024 * 1024,
        vendor: "Acme".to_string(),
        model: "Stick 16G".to_string(),
        is_removable: true,
    }
}

#[test]
fn test_mounted_device_found_by_exact_path() {
    let mounts = b"/dev/sdb /mnt/usb vfat rw,relatime 0 0\n";
    assert!(is_device_mounted(mounts, b"/dev/sdb"));
}

#[test]
fn test_mounted_partition_counts_as_mounted_device() {
    // An entry for a partition begins with the device path, so the device
    // itself counts as mounted.
    let mounts = b"proc /proc proc rw 0 0\n/dev/sdb1 /mnt/usb vfat rw 0 0\n";
    assert!(is_device_mounted(mounts, b"/dev/sdb"));
}

#[test]
fn test_unmounted_device_not_found() {
    let mounts = b"/dev/sda1 / ext4 rw 0 0\n/dev/sdb1 /mnt vfat rw 0 0\n";
    assert!(!is_device_mounted(mounts, b"/dev/sdc"));
}

#[test]
fn test_mount_prefix_goes_one_way_only() {
    // The record's source must begin with the device path, not the other
    // way round: a query for the partition does not match the bare disk.
    let mounts = b"/dev/sdb /mnt vfat rw 0 0\n";
    assert!(!is_device_mounted(mounts, b"/dev/sdb1"));
}

#[test]
fn test_empty_mount_table() {
    assert!(!is_device_mounted(b"", b"/dev/sdb"));
}

#[test]
fn test_mount_table_without_trailing_newline() {
    let mounts = b"/dev/sdb1 /mnt vfat rw 0 0";
    assert!(is_device_mounted(mounts, b"/dev/sdb"));
}

#[test]
fn test_mount_record_with_leading_blanks() {
    let mounts = b"   /dev/sdb1 /mnt vfat rw 0 0\n";
    assert!(is_device_mounted(mounts, b"/dev/sdb"));
}

#[test]
fn test_device_path_with_whitespace_never_matches() {
    let mounts = b"/dev/sd b /mnt vfat rw 0 0\n";
    assert!(!is_device_mounted(mounts, b"/dev/sd b"));
}

#[test]
fn test_mount_match_only_on_first_field() {
    // The device path appearing in a later field (the mount point) does not
    // make the device mounted.
    let mounts = b"tmpfs /dev/sdb tmpfs rw 0 0\n";
    assert!(!is_device_mounted(mounts, b"/dev/sdb"));
}

#[test]
fn test_validate_missing_device() {
    let device = device_at("/dev/sdz");
    match validate_device_for_writing(&device, false, b"") {
        Err(WriterError::DeviceNotFound(p)) => assert_eq!(p, "/dev/sdz"),
        other => panic!("expected DeviceNotFound, got {:?}", other),
    }
}

#[test]
fn test_validate_mounted_device() {
    let device = device_at("/dev/sdb");
    let mounts = b"/dev/sdb1 /mnt vfat rw 0 0\n";
    match validate_device_for_writing(&device, true, mounts) {
        Err(WriterError::DeviceMounted(p)) => assert_eq!(p, "/dev/sdb"),
        other => panic!("expected DeviceMounted, got {:?}", other),
    }
}

#[test]
fn test_validate_ready_device() {
    let device = device_at("/dev/sdb");
    let mounts = b"/dev/sda1 / ext4 rw 0 0\n";
    assert!(validate_device_for_writing(&device, true, mounts).is_ok());
}
