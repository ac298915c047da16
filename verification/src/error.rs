//! The failure taxonomy of a write session, and the classification of
//! low-level I/O faults into it.

use vstd::prelude::*;
use vstd::string::StringExecFns;

verus! {

/// One terminal failure of a write session. A session produces exactly one
/// outcome: success, or one of these.
#[derive(Debug, Clone)]
pub enum WriterError {
    /// The image file does not exist.
    IsoNotFound(String),
    /// The target device path does not exist.
    DeviceNotFound(String),
    /// The target device is currently mounted; writing would corrupt it.
    DeviceMounted(String),
    /// Insufficient privilege to open the device for writing.
    PermissionDenied,
    /// The device's known capacity is smaller than the image.
    InsufficientSpace,
    /// The copy completed but the read-back comparison mismatched.
    VerificationFailed,
    /// A catch-all underlying I/O fault, with a diagnostic string.
    IoError(String),
    /// The device is temporarily unavailable.
    DeviceBusy,
    /// The image fails a basic format sanity check.
    InvalidIsoFormat,
    /// The user aborted the operation.
    Cancelled,
    /// An unclassified fault, with a diagnostic string.
    Unknown(String),
}

/// The failures a caller may retry after user action: unmounting the device,
/// waiting for it to become free, or simply deciding to start over.
pub open spec fn spec_is_recoverable(e: WriterError) -> bool {
    e matches WriterError::DeviceMounted(_) || e matches WriterError::DeviceBusy
        || e matches WriterError::Cancelled
}

/// The advice shown to the user for each failure.
pub open spec fn spec_user_friendly_message(e: WriterError) -> Seq<char> {
    match e {
        WriterError::IsoNotFound(path) => "The ISO file '"@ + path@
            + "' could not be found. Please check if the file exists and try again."@,
        WriterError::DeviceNotFound(device) => "The USB device '"@ + device@
            + "' could not be found. Please ensure the device is connected and try refreshing the device list."@,
        WriterError::DeviceMounted(device) => "The device '"@ + device@
            + "' is currently mounted. Please unmount all partitions on this device before writing."@,
        WriterError::PermissionDenied => "Permission denied. You may need to run this application with administrator/root privileges to write to USB devices."@,
        WriterError::InsufficientSpace => "The USB device does not have enough space for this ISO file. Please use a larger USB device."@,
        WriterError::VerificationFailed => "The write operation completed, but verification failed. The data on the USB device may be corrupted. Please try again."@,
        WriterError::DeviceBusy => "The USB device is currently busy. Please wait a moment and try again."@,
        WriterError::InvalidIsoFormat => "The selected file does not appear to be a valid ISO file. Please select a proper ISO image."@,
        WriterError::Cancelled => "The operation was cancelled by the user."@,
        WriterError::IoError(err) => "An I/O error occurred: "@ + err@
            + ". Please check your system and device connections."@,
        WriterError::Unknown(msg) => "An unexpected error occurred: "@ + msg@,
    }
}

impl WriterError {
    /// Whether the failure is worth retrying after the user intervenes.
    pub fn is_recoverable(&self) -> (r: bool)
        ensures
            r == spec_is_recoverable(*self),
    {
        match self {
            WriterError::DeviceMounted(_) => true,
            WriterError::DeviceBusy => true,
            WriterError::Cancelled => true,
            _ => false,
        }
    }

    /// The advice shown to the user for this failure.
    pub fn user_friendly_message(&self) -> (r: String)
        ensures
            r@ == spec_user_friendly_message(*self),
    {
        match self {
            WriterError::IsoNotFound(path) => {
                let mut s = "The ISO file '".to_owned();
                s.append(path.as_str());
                s.append("' could not be found. Please check if the file exists and try again.");
                s
            },
            WriterError::DeviceNotFound(device) => {
                let mut s = "The USB device '".to_owned();
                s.append(device.as_str());
                s.append(
                    "' could not be found. Please ensure the device is connected and try refreshing the device list.",
                );
                s
            },
            WriterError::DeviceMounted(device) => {
                let mut s = "The device '".to_owned();
                s.append(device.as_str());
                s.append(
                    "' is currently mounted. Please unmount all partitions on this device before writing.",
                );
                s
            },
            WriterError::PermissionDenied => "Permission denied. You may need to run this application with administrator/root privileges to write to USB devices.".to_owned(),
            WriterError::InsufficientSpace => "The USB device does not have enough space for this ISO file. Please use a larger USB device.".to_owned(),
            WriterError::VerificationFailed => "The write operation completed, but verification failed. The data on the USB device may be corrupted. Please try again.".to_owned(),
            WriterError::DeviceBusy => "The USB device is currently busy. Please wait a moment and try again.".to_owned(),
            WriterError::InvalidIsoFormat => "The selected file does not appear to be a valid ISO file. Please select a proper ISO image.".to_owned(),
            WriterError::Cancelled => "The operation was cancelled by the user.".to_owned(),
            WriterError::IoError(err) => {
                let mut s = "An I/O error occurred: ".to_owned();
                s.append(err.as_str());
                s.append(". Please check your system and device connections.");
                s
            },
            WriterError::Unknown(msg) => {
                let mut s = "An unexpected error occurred: ".to_owned();
                s.append(msg.as_str());
                s
            },
        }
    }
}

/// The shape of a host I/O fault, as the caller read it off the error it
/// got: just the kind and a diagnostic string, with no host type attached.
#[derive(Debug, Clone, Copy, PartialEq, Eq, Structural)]
pub enum IoKind {
    /// The path does not exist.
    NotFound,
    /// The caller lacks the privilege for the operation.
    PermissionDenied,
    /// The data read fails a validity check.
    InvalidData,
    /// Any other fault.
    Other,
}

/// Classifies a general host I/O fault into the session's failure taxonomy.
pub fn classify_io_error(kind: IoKind, detail: String) -> (r: WriterError)
    ensures
        kind is NotFound ==> (r matches WriterError::DeviceNotFound(q) && q@
            == "Device not found"@),
        kind is PermissionDenied ==> r is PermissionDenied,
        kind is InvalidData ==> r is InvalidIsoFormat,
        kind is Other ==> (r matches WriterError::IoError(q) && q@ == detail@),
{
    match kind {
        IoKind::NotFound => WriterError::DeviceNotFound("Device not found".to_owned()),
        IoKind::PermissionDenied => WriterError::PermissionDenied,
        IoKind::InvalidData => WriterError::InvalidIsoFormat,
        IoKind::Other => WriterError::IoError(detail),
    }
}

/// Classifies the fault met while opening the target device for writing:
/// missing privilege and a missing node get their own kinds, anything else
/// is a plain I/O failure carrying the diagnostic.
pub fn classify_device_open_error(kind: IoKind, device_path: &str, detail: String) -> (r:
    WriterError)
    ensures
        kind is PermissionDenied ==> r is PermissionDenied,
        kind is NotFound ==> (r matches WriterError::DeviceNotFound(q) && q@ == device_path@),
        !(kind is PermissionDenied) && !(kind is NotFound) ==> (r matches WriterError::IoError(q)
            && q@ == detail@),
{
    match kind {
        IoKind::PermissionDenied => WriterError::PermissionDenied,
        IoKind::NotFound => WriterError::DeviceNotFound(device_path.to_owned()),
        _ => WriterError::IoError(detail),
    }
}

} // verus!
