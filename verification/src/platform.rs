//! Platform-facing device description types.

use vstd::prelude::*;
use crate::erasure::ata::{AtaDeviceInfo, AtaError, AtaStorageDriver};

pub mod linux;

verus! {

/// What the enumeration collaborator read about one block device:
/// the raw file contents, handed in as plain values.
pub struct RawDeviceScan {
    /// Kernel block device name, e.g. the directory name under the
    /// block device registry.
    pub name: String,
    /// The device node exists and is accessible.
    pub present: bool,
    pub model_file: Option<Vec<u8>>,
    pub name_file: Option<Vec<u8>>,
    pub rotational_file: Option<Vec<u8>>,
    pub size_file: Option<Vec<u8>>,
    pub serial_file: Option<Vec<u8>>,
    pub wwid_file: Option<Vec<u8>>,
    pub vendor_file: Option<Vec<u8>>,
    pub manufacturer_file: Option<Vec<u8>>,
    pub state_file: Option<Vec<u8>>,
    /// The device's topology link points through a USB transport.
    pub usb_link: bool,
}

/// One enumerated block device.
#[derive(Debug)]
pub struct StorageDevice {
    pub path: String,
    pub name: String,
    pub size: Option<u64>,
    pub device_type: DeviceType,
    pub serial_number: Option<String>,
    pub model: Option<String>,
    pub vendor: Option<String>,
    pub status: DeviceStatus,
}

/// Class of a block storage device, derived from transport and
/// rotational hints at enumeration time.
#[derive(Debug, Clone, Copy, PartialEq, Eq, Structural)]
pub enum DeviceType {
    HDD,
    SSD,
    NVMe,
    USB,
    Unknown,
}

/// Availability of a device at enumeration time.
#[derive(Debug, Clone, Copy, PartialEq, Eq, Structural)]
pub enum DeviceStatus {
    Active,
    Mounted,
    Available,
}

/// The family of erasure strategy a caller may request.
#[derive(Debug, Clone, Copy, PartialEq, Eq, Structural)]
pub enum WipeMethod {
    Overwrite,
    SecureErase,
    CryptoErase,
}

impl WipeMethod {
    /// Every method family a caller can pick from.
    pub fn get_all_methods() -> (r: Vec<WipeMethod>)
        ensures
            r@ =~= seq![
                WipeMethod::Overwrite,
                WipeMethod::SecureErase,
                WipeMethod::CryptoErase,
            ],
    {
        let mut v: Vec<WipeMethod> = Vec::new();
        v.push(WipeMethod::Overwrite);
        v.push(WipeMethod::SecureErase);
        v.push(WipeMethod::CryptoErase);
        v
    }

    /// A short human-readable label.
    pub fn label(&self) -> (r: &'static str)
        ensures
            self is Overwrite ==> r@ == "Overwrite (Multiple Pass)"@,
            self is SecureErase ==> r@ == "Secure Erase (ATA/NVMe)"@,
            self is CryptoErase ==> r@ == "Crypto Erase (SED)"@,
    {
        match self {
            WipeMethod::Overwrite => "Overwrite (Multiple Pass)",
            WipeMethod::SecureErase => "Secure Erase (ATA/NVMe)",
            WipeMethod::CryptoErase => "Crypto Erase (SED)",
        }
    }
}

/// Platform backend: turns what the enumeration collaborator read into
/// device records, renders sizes, and parses ATA identify blocks.
pub trait StorageInterface {
    /// Build the device list from the raw scans: virtual devices
    /// (loopbacks, ram disks, mapper devices) and absent nodes are
    /// skipped, each kept scan becomes a record, and the list is
    /// ordered by device path.
    fn detect_storage_devices(entries: Vec<RawDeviceScan>, mounts: &Vec<u8>) -> (r: Vec<
        StorageDevice,
    >)
        ensures
            linux::detect_post(entries@, mounts@, r@),
    ;

    /// Render a byte count for people: whole bytes below one KiB, one
    /// decimal place and the matching unit above it.
    fn format_size(bytes: u64) -> (r: String)
        ensures
            r@ =~= crate::text::ascii_chars(linux::format_size_bytes(bytes)),
    ;

    /// Parse the identify block the driver's collaborator read.
    fn identify_ata_device(ata_storage_driver: &AtaStorageDriver, words: &Vec<u16>) -> (r: Result<
        AtaDeviceInfo,
        AtaError,
    >)
        ensures
            words@.len() != 256 ==> r == Err::<AtaDeviceInfo, AtaError>(AtaError::CommandFailed),
            words@.len() == 256 ==> (r matches Ok(info)
                && info.model@ =~= crate::text::ascii_chars(
                    crate::erasure::ata::ata_string_bytes(words@, 27, 20))
                && info.serial@ =~= crate::text::ascii_chars(
                    crate::erasure::ata::ata_string_bytes(words@, 10, 10))
                && info.firmware@ =~= crate::text::ascii_chars(
                    crate::erasure::ata::ata_string_bytes(words@, 23, 4))
                && info.sector_size == crate::erasure::ata::logical_sector_size(words@)
                && info.sector_count == crate::erasure::ata::lba48_count(words@)
                && info.security_supported == crate::erasure::ata::word_bit(words@[128], 0)
                && info.security_enabled == crate::erasure::ata::word_bit(words@[128], 1)
                && info.security_locked == crate::erasure::ata::word_bit(words@[128], 2)
                && info.security_frozen == crate::erasure::ata::word_bit(words@[128], 3)
                && info.enhanced_erase_supported == crate::erasure::ata::word_bit(words@[128], 5)),
    ;
}

} // verus!
