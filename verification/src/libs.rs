//! Cross-platform storage facade over the platform backend.

use vstd::prelude::*;
use crate::platform::{linux, RawDeviceScan, StorageDevice, StorageInterface};
use crate::text::ascii_chars;

verus! {

/// Storage entry point the presentation layer talks to.
pub struct StorageDriver;

impl StorageDriver {
    /// The ordered device list built from the raw scans.
    pub fn detect_storage_devices(entries: Vec<RawDeviceScan>, mounts: &Vec<u8>) -> (r: Vec<
        StorageDevice,
    >)
        ensures
            linux::detect_post(entries@, mounts@, r@),
    {
        <linux::LinuxStorage as StorageInterface>::detect_storage_devices(entries, mounts)
    }

    /// A byte count rendered for people.
    pub fn format_size(bytes: u64) -> (r: String)
        ensures
            r@ =~= ascii_chars(linux::format_size_bytes(bytes)),
    {
        <linux::LinuxStorage as StorageInterface>::format_size(bytes)
    }
}

} // verus!
