//! Compact device listing: a reduced record of the same enumeration,
//! for callers that only show a path, a display name and a size.

use vstd::prelude::*;
use vstd::string::StringExecFns;
use crate::platform::{linux, RawDeviceScan, StorageInterface};
use crate::text::ascii_chars;

verus! {

/// A reduced device record.
#[derive(Debug)]
pub struct StorageDevice {
    pub path: String,
    pub name: String,
    pub size: Option<u64>,
    pub device_type: DeviceType,
}

/// Device class of the reduced record.
#[derive(Debug, Clone, Copy, PartialEq, Eq, Structural)]
pub enum DeviceType {
    HDD,
    SSD,
    NVMe,
    USB,
    Unknown,
}

/// The reduced class of a full record's class.
pub open spec fn reduced_type(t: crate::platform::DeviceType) -> DeviceType {
    match t {
        crate::platform::DeviceType::HDD => DeviceType::HDD,
        crate::platform::DeviceType::SSD => DeviceType::SSD,
        crate::platform::DeviceType::NVMe => DeviceType::NVMe,
        crate::platform::DeviceType::USB => DeviceType::USB,
        crate::platform::DeviceType::Unknown => DeviceType::Unknown,
    }
}

/// The reduced record a scan becomes: the same path, display name,
/// size and class as the full record.
pub open spec fn device_matches(d: StorageDevice, e: RawDeviceScan, mounts: Seq<u8>) -> bool {
    &&& d.path@ == "/dev/"@ + e.name@
    &&& d.name@ == (match linux::model_choice(e) {
        Some(t) => vstd::utf8::decode_utf8(t),
        None => e.name@,
    })
    &&& d.size == linux::scan_size(e)
    &&& d.device_type == reduced_type(linux::scan_device_type(e))
}

/// An injective per-index mapping from reduced records to the kept
/// scans they were built from: record `i` was built from scan `f[i]`,
/// and no two records share a scan.  The mapping is the full listing's,
/// so the reduced listing agrees with it record by record.
pub open spec fn listed_injectively(
    r: Seq<StorageDevice>,
    entries: Seq<RawDeviceScan>,
    mounts: Seq<u8>,
    f: Seq<int>,
) -> bool {
    &&& f.len() == r.len()
    &&& forall|i: int|
        0 <= i < r.len() ==> 0 <= (#[trigger] f[i]) < entries.len() && linux::kept_scan(
            entries[f[i]],
        ) && device_matches(r[i], entries[f[i]], mounts)
    &&& forall|i: int, j: int| 0 <= i < j < r.len() ==> f[i] != f[j]
}

/// The reduced list is ordered by path.
pub open spec fn sorted_by_path(s: Seq<StorageDevice>) -> bool {
    forall|i: int, j: int|
        0 <= i < j < s.len() ==> linux::lex_le(
            vstd::utf8::encode_utf8((#[trigger] s[i]).path@),
            vstd::utf8::encode_utf8((#[trigger] s[j]).path@),
        )
}

/// Detect all available storage devices from the raw scans: the full
/// listing, reduced record by record.
pub fn detect_storage_devices(entries: Vec<RawDeviceScan>, mounts: &Vec<u8>) -> (r: Vec<
    StorageDevice,
>)
    ensures
        sorted_by_path(r@),
        r@.len() == entries@.filter(|e: RawDeviceScan| linux::kept_scan(e)).len(),
        exists|f: Seq<int>| listed_injectively(r@, entries@, mounts@, f),
{
    let full = <linux::LinuxStorage as StorageInterface>::detect_storage_devices(entries, mounts);
    let ghost f = choose|f: Seq<int>| linux::listed_injectively(full@, entries@, mounts@, f);
    let mut r: Vec<StorageDevice> = Vec::new();
    let mut i: usize = 0;
    let n = full.len();
    while i < n
        invariant
            i <= n,
            n == full@.len(),
            r@.len() == i,
            linux::detect_post(entries@, mounts@, full@),
            linux::sorted_by_path(full@),
            linux::listed_injectively(full@, entries@, mounts@, f),
            forall|k: int| 0 <= k < i ==> (#[trigger] r@[k]).path@ == full@[k].path@,
            forall|k: int|
                0 <= k < i ==> device_matches(#[trigger] r@[k], entries@[f[k]], mounts@),
        decreases n - i,
    {
        let d = create_storage_device(&full[i]);
        r.push(d);
        proof {
            assert(linux::device_matches(full@[i as int], entries@[f[i as int]], mounts@));
            assert(device_matches(d, entries@[f[i as int]], mounts@));
        }
        i = i + 1;
    }
    proof {
        assert(listed_injectively(r@, entries@, mounts@, f));
    }
    r
}

/// Reduce one full record.
pub fn create_storage_device(d: &crate::platform::StorageDevice) -> (r: StorageDevice)
    ensures
        r.path@ == d.path@,
        r.name@ == d.name@,
        r.size == d.size,
        r.device_type == reduced_type(d.device_type),
{
    StorageDevice {
        path: d.path.clone(),
        name: d.name.clone(),
        size: d.size,
        device_type: match d.device_type {
            crate::platform::DeviceType::HDD => DeviceType::HDD,
            crate::platform::DeviceType::SSD => DeviceType::SSD,
            crate::platform::DeviceType::NVMe => DeviceType::NVMe,
            crate::platform::DeviceType::USB => DeviceType::USB,
            crate::platform::DeviceType::Unknown => DeviceType::Unknown,
        },
    }
}

/// A byte count rendered for people.
pub fn format_size(bytes: u64) -> (r: String)
    ensures
        r@ =~= ascii_chars(linux::format_size_bytes(bytes)),
{
    <linux::LinuxStorage as StorageInterface>::format_size(bytes)
}

impl StorageDevice {
    /// One line for people: the path, the display name, and the size
    /// when one is known.
    pub fn describe(&self) -> (r: String)
        ensures
            self.size matches Some(b) ==> r@ == self.path@ + " - "@ + self.name@ + " ("@
                + ascii_chars(linux::format_size_bytes(b)) + ")"@,
            self.size is None ==> r@ == self.path@ + " - "@ + self.name@,
    {
        let mut r = self.path.clone();
        r.append(" - ");
        r.append(self.name.as_str());
        match self.size {
            Some(b) => {
                r.append(" (");
                let sz = format_size(b);
                r.append(sz.as_str());
                r.append(")");
            }
            None => {}
        }
        r
    }
}

} // verus!
