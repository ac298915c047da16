//! Target-device records and the pre-flight checks run before any
//! destructive action: existence and mount state.
//!
//! The mount check works on the text of the host's live mount table, handed
//! in as bytes: a device counts as mounted when any record's source field
//! begins with the device path, which also catches mounted partitions of the
//! same device. Reading that text from the host is the caller's job.

use vstd::prelude::*;
use crate::error::WriterError;

verus! {

/// One candidate target device, as the enumerator reports it: a display
/// name, the device node path, the raw capacity in bytes (zero when
/// unknown), vendor and model strings, and whether the host flags it as
/// removable. The removability flag is informational only.
#[derive(Debug, Clone, PartialEq)]
pub struct UsbDevice {
    /// Human-readable name shown to the user.
    pub name: String,
    /// Path of the device node.
    pub device_path: String,
    /// Raw capacity in bytes; zero when the platform could not report it.
    pub size: u64,
    /// Vendor string from the host's device metadata.
    pub vendor: String,
    /// Model string from the host's device metadata.
    pub model: String,
    /// Whether the host flags the device as removable.
    pub is_removable: bool,
}

/// Horizontal whitespace inside a mount record: space, tab, carriage
/// return, vertical tab or form feed. Newlines separate records instead.
pub open spec fn is_blank(b: u8) -> bool {
    b == 32u8 || b == 9u8 || b == 13u8 || b == 11u8 || b == 12u8
}

/// `m[i..e)` is exactly one record of the mount table: it abuts the start of
/// the text or a newline on the left, a newline or the end on the right, and
/// holds no newline itself.
pub open spec fn spec_record_bounds(m: Seq<u8>, i: int, e: int) -> bool {
    &&& 0 <= i <= e <= m.len()
    &&& (i == 0 || m[i - 1] == 10u8)
    &&& (e == m.len() || m[e] == 10u8)
    &&& (forall|j: int| i <= j < e ==> m[j] != 10u8)
}

/// `s` is the start of the first whitespace-delimited field of the record
/// `m[i..e)`, and `p` is a prefix of the bytes from `s` to the record's end.
pub open spec fn spec_field_prefix_at(m: Seq<u8>, i: int, e: int, p: Seq<u8>, s: int) -> bool {
    &&& i <= s < e
    &&& !is_blank(m[s])
    &&& (forall|j: int| i <= j < s ==> is_blank(m[j]))
    &&& s + p.len() <= e
    &&& m.subrange(s, s + p.len() as int) == p
}

/// The first whitespace-delimited field of the record `m[i..e)` exists and
/// begins with `p`. The field starts at the first non-blank byte of the
/// record; `p` can only be its prefix when `p` itself holds no whitespace.
pub open spec fn spec_record_matches(m: Seq<u8>, i: int, e: int, p: Seq<u8>) -> bool {
    &&& (forall|k: int| 0 <= k < p.len() ==> !is_blank(p[k]) && p[k] != 10u8)
    &&& exists|s: int| #[trigger] spec_field_prefix_at(m, i, e, p, s)
}

/// Some record of the mount table `m` names a source that begins with the
/// device path `p`.
pub open spec fn spec_mounted(m: Seq<u8>, p: Seq<u8>) -> bool {
    exists|i: int, e: int| spec_record_bounds(m, i, e) && #[trigger] spec_record_matches(m, i, e, p)
}

/// Whether the first field of the record `mounts[rec_start..rec_end)` begins
/// with `device_path`.
#[verifier::loop_isolation(false)]
fn record_matches(mounts: &[u8], rec_start: usize, rec_end: usize, device_path: &[u8]) -> (r:
    bool)
    requires
        rec_start <= rec_end <= mounts@.len(),
        forall|k: int|
            0 <= k < device_path@.len() ==> !is_blank(device_path@[k]) && device_path@[k]
                != 10u8,
    ensures
        r == spec_record_matches(mounts@, rec_start as int, rec_end as int, device_path@),
{
    let ghost m = mounts@;
    let ghost p = device_path@;
    let mut s: usize = rec_start;
    while s < rec_end && is_blank_byte(mounts[s])
        invariant
            rec_start <= s <= rec_end,
            forall|j: int| rec_start <= j < s ==> is_blank(m[j]),
        decreases rec_end - s,
    {
        s = s + 1;
    }
    if s == rec_end {
        // The record is all blank: no field starts anywhere in it.
        assert forall|s2: int| !spec_field_prefix_at(m, rec_start as int, rec_end as int, p, s2)
            by {
            if rec_start <= s2 < rec_end {
                assert(is_blank(m[s2]));
            }
        }
        return false;
    }
    // `s` is the first non-blank position, hence the only possible field start.
    assert(!is_blank(m[s as int]));
    if device_path.len() > rec_end - s {
        assert forall|s2: int| !spec_field_prefix_at(m, rec_start as int, rec_end as int, p, s2)
            by {
            if spec_field_prefix_at(m, rec_start as int, rec_end as int, p, s2) {
                if s2 < s {
                    assert(is_blank(m[s2]));
                } else if s2 > s {
                    assert(is_blank(m[s as int]));
                }
                assert(s2 == s as int);
            }
        }
        return false;
    }
    let mut k: usize = 0;
    while k < device_path.len()
        invariant
            0 <= k <= p.len(),
            s + p.len() <= rec_end,
            forall|j: int| 0 <= j < k ==> m[s + j] == p[j],
        decreases device_path@.len() - k,
    {
        if mounts[s + k] != device_path[k] {
            assert forall|s2: int|
                !spec_field_prefix_at(m, rec_start as int, rec_end as int, p, s2) by {
                if spec_field_prefix_at(m, rec_start as int, rec_end as int, p, s2) {
                    if s2 < s {
                        assert(is_blank(m[s2]));
                    } else if s2 > s {
                        assert(is_blank(m[s as int]));
                    }
                    assert(s2 == s as int);
                    assert(m.subrange(s as int, s + p.len() as int)[k as int] == m[s + k as int]);
                }
            }
            return false;
        }
        k = k + 1;
    }
    assert(m.subrange(s as int, s + p.len() as int) =~= p);
    assert(spec_field_prefix_at(m, rec_start as int, rec_end as int, p, s as int));
    true
}

/// Blank test on one byte, matching `is_blank`.
fn is_blank_byte(b: u8) -> (r: bool)
    ensures
        r == is_blank(b),
{
    b == 32 || b == 9 || b == 13 || b == 11 || b == 12
}

/// Scans the mount table text for any record whose source path begins with
/// the device path. A `true` result means the device, or a partition of it,
/// is currently mounted.
#[verifier::loop_isolation(false)]
pub fn is_device_mounted(mounts: &[u8], device_path: &[u8]) -> (r: bool)
    ensures
        r == spec_mounted(mounts@, device_path@),
{
    let ghost m = mounts@;
    let ghost p = device_path@;
    let mut k: usize = 0;
    while k < device_path.len()
        invariant
            0 <= k <= p.len(),
            forall|j: int| 0 <= j < k ==> !is_blank(p[j]) && p[j] != 10u8,
        decreases device_path@.len() - k,
    {
        let b = device_path[k];
        if is_blank_byte(b) || b == 10 {
            // A device path holding whitespace can never be a field prefix.
            return false;
        }
        k = k + 1;
    }
    let n = mounts.len();
    let mut pos: usize = 0;
    while pos < n
        invariant
            0 <= pos <= n,
            pos == 0 || m[pos - 1] == 10u8,
            forall|i: int, e: int|
                spec_record_bounds(m, i, e) && i < pos ==> !#[trigger] spec_record_matches(
                    m,
                    i,
                    e,
                    p,
                ),
        decreases n - pos,
    {
        let mut e: usize = pos;
        while e < n && mounts[e] != 10
            invariant
                pos <= e <= n,
                forall|j: int| pos <= j < e ==> m[j] != 10u8,
            decreases n - e,
        {
            e = e + 1;
        }
        assert(spec_record_bounds(m, pos as int, e as int));
        if record_matches(mounts, pos, e, device_path) {
            assert(spec_mounted(m, p));
            return true;
        }
        assert forall|i: int, e2: int|
            spec_record_bounds(m, i, e2) && i < e + 1 implies !spec_record_matches(
            m,
            i,
            e2,
            p,
        ) by {
            if i >= pos {
                // Inside a newline-free stretch, only `pos` starts a record,
                // and its record can only end where ours does.
                assert(i == pos) by {
                    if i > pos {
                        assert(m[i - 1] != 10u8);
                    }
                }
                assert(e2 == e as int) by {
                    if e2 < e {
                        assert(m[e2] != 10u8);
                    } else if e2 > e {
                        assert(e < n && m[e as int] == 10u8);
                    }
                }
            }
        }
        if e == n {
            // The last record reaches the end of the text: none follows it.
            assert forall|i: int, e2: int| spec_record_bounds(m, i, e2)
                implies !spec_record_matches(m, i, e2, p) by {}
            return false;
        }
        pos = e + 1;
    }
    assert forall|i: int, e: int| spec_record_bounds(m, i, e) implies !spec_record_matches(
        m,
        i,
        e,
        p,
    ) by {
        if i >= pos {
            // Only the empty record at the very end starts at or past `pos`,
            // and an empty record has no field.
            assert(i == m.len() && e == m.len());
        }
    }
    false
}

/// Pre-flight validation of a target device: it must exist on the
/// filesystem and must not be mounted. Runs no destructive action and never
/// opens the device; the caller supplies the existence answer and the mount
/// table text it read from the host.
pub fn validate_device_for_writing(device: &UsbDevice, device_exists: bool, mounts: &[u8]) -> (r:
    Result<(), WriterError>)
    ensures
        !device_exists ==> (r matches Err(e) && e matches WriterError::DeviceNotFound(q)
            && q@ == device.device_path@),
        device_exists && spec_mounted(mounts@, vstd::utf8::encode_utf8(device.device_path@)) ==> (
        r matches Err(e) && e matches WriterError::DeviceMounted(q) && q@ == device.device_path@),
        device_exists && !spec_mounted(mounts@, vstd::utf8::encode_utf8(device.device_path@))
            ==> r is Ok,
{
    if !device_exists {
        return Err(WriterError::DeviceNotFound(device.device_path.clone()));
    }
    if is_device_mounted(mounts, device.device_path.as_str().as_bytes()) {
        return Err(WriterError::DeviceMounted(device.device_path.clone()));
    }
    Ok(())
}

} // verus!
