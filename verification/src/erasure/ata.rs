//! ATA security: IDENTIFY DEVICE parsing and the SECURITY ERASE UNIT
//! driver.
//!
//! The identify block is handed in as the 256 data words an external
//! collaborator read from the device; parsing the geometry, identity
//! strings and the security feature word is this module's verified
//! logic.  The erase driver acts on the simulated device: a frozen
//! security state is reported immediately and never retried, a locked
//! device is attempted only with explicit authorisation, and the
//! command timeout is derived from the device's reported estimate.

use vstd::prelude::*;
use crate::caps::CapabilityRecord;
use crate::device::SimDevice;
use crate::erasure::{CancelToken, DriverOutcome, ProgressSink, ProgressSnapshot};
use crate::text::{ascii_chars, ascii_to_string, contains_bytes, contains_seq, printable_or_space};

verus! {

/// What IDENTIFY DEVICE reports about one ATA device.
pub struct AtaDeviceInfo {
    pub model: String,
    pub serial: String,
    pub firmware: String,
    pub sector_size: u16,
    pub sector_count: u64,
    pub security_supported: bool,
    pub security_enabled: bool,
    pub security_locked: bool,
    pub security_frozen: bool,
    pub enhanced_erase_supported: bool,
}

/// ATA-level failures.
#[derive(Debug, Clone, Copy, PartialEq, Eq, Structural)]
pub enum AtaError {
    IoError,
    Unsupported,
    DeviceNotFound,
    PermissionDenied,
    CommandFailed,
}

/// Driver bound to one device path; the open handle itself lives with
/// the external collaborator that reads the identify block.
pub struct AtaStorageDriver {
    pub device_path: String,
}

/// Bit `k` of an identify word.
pub open spec fn word_bit(w: u16, k: u16) -> bool {
    (w >> k) & 1 == 1
}

/// The LBA48 sector count, words 100 through 103, least word first.
pub open spec fn lba48_count(words: Seq<u16>) -> u64 {
    (words[100] as u64) | ((words[101] as u64) << 16) | ((words[102] as u64) << 32)
        | ((words[103] as u64) << 48)
}

/// The logical sector size in bytes: 512 unless word 106 reports a
/// longer logical sector, whose word count stands in word 117.
pub open spec fn logical_sector_size(words: Seq<u16>) -> u16 {
    if word_bit(words[106], 12) && words[117] <= 0x7FFF {
        (2 * words[117]) as u16
    } else {
        512
    }
}

/// An identify string: each data word carries two ASCII characters,
/// high byte first; everything unprintable becomes a space.
pub open spec fn ata_string_bytes(words: Seq<u16>, lo: int, nwords: int) -> Seq<u8> {
    Seq::new((nwords * 2) as nat, |i: int|
        printable_or_space(
            if i % 2 == 0 {
                (words[lo + i / 2] >> 8) as u8
            } else {
                (words[lo + i / 2] & 0xFF) as u8
            }
        ))
}

/// Extract one identify string as bytes.
#[verifier::loop_isolation(false)]
fn ata_string(words: &Vec<u16>, lo: usize, nwords: usize) -> (r: Vec<u8>)
    requires
        lo + nwords <= words@.len(),
    ensures
        r@ =~= ata_string_bytes(words@, lo as int, nwords as int),
        forall|i: int| 0 <= i < r@.len() ==> (#[trigger] r@[i]) < 128,
{
    let total = words.len();
    let mut r: Vec<u8> = Vec::new();
    let mut j: usize = 0;
    while j < nwords
        invariant
            j <= nwords,
            lo + nwords <= total,
            r@.len() == 2 * j,
            forall|i: int| 0 <= i < r@.len()
                ==> (#[trigger] r@[i]) == ata_string_bytes(words@, lo as int, nwords as int)[i],
        decreases nwords - j,
    {
        let w = words[lo + j];
        proof {
            assert(w >> 8 <= 255) by (bit_vector);
            assert(w & 0xFF <= 255) by (bit_vector);
        }
        let hi = (w >> 8) as u8;
        let lo_b = (w & 0xFF) as u8;
        r.push(if 0x20 <= hi && hi <= 0x7E { hi } else { 0x20 });
        r.push(if 0x20 <= lo_b && lo_b <= 0x7E { lo_b } else { 0x20 });
        proof {
            assert((2 * j as int) % 2 == 0);
            assert((2 * j as int) / 2 == j as int);
            assert((2 * j as int + 1) % 2 == 1);
            assert((2 * j as int + 1) / 2 == j as int);
        }
        j = j + 1;
    }
    proof {
        assert(r@ =~= ata_string_bytes(words@, lo as int, nwords as int));
    }
    r
}

impl AtaStorageDriver {
    /// Bind the driver to a device path.  Opening the device and
    /// reading its identify block stay with the caller.
    pub fn new(device_path: &str) -> (d: AtaStorageDriver)
        ensures
            d.device_path@ == device_path@,
    {
        AtaStorageDriver { device_path: device_path.to_owned() }
    }

    /// Whether the device's topology link marks it as an ATA device;
    /// the caller hands in the link text it read.
    pub fn is_ata_device(&self, device_link: &[u8]) -> (r: bool)
        ensures
            r == contains_seq(device_link@, seq![0x61u8, 0x74u8, 0x61u8]),
    {
        let mut needle: Vec<u8> = Vec::new();
        needle.push(0x61);
        needle.push(0x74);
        needle.push(0x61);
        proof {
            assert(needle@ =~= seq![0x61u8, 0x74u8, 0x61u8]);
        }
        contains_bytes(device_link, needle.as_slice())
    }

    /// Parse the 256-word IDENTIFY DEVICE block: identity strings,
    /// geometry, and the word-128 security feature bits.
    pub fn identify_ata_device(&self, words: &Vec<u16>) -> (r: Result<AtaDeviceInfo, AtaError>)
        ensures
            words@.len() != 256 ==> r == Err::<AtaDeviceInfo, AtaError>(AtaError::CommandFailed),
            words@.len() == 256 ==> (r matches Ok(info)
                && info.model@ =~= ascii_chars(ata_string_bytes(words@, 27, 20))
                && info.serial@ =~= ascii_chars(ata_string_bytes(words@, 10, 10))
                && info.firmware@ =~= ascii_chars(ata_string_bytes(words@, 23, 4))
                && info.sector_size == logical_sector_size(words@)
                && info.sector_count == lba48_count(words@)
                && info.security_supported == word_bit(words@[128], 0)
                && info.security_enabled == word_bit(words@[128], 1)
                && info.security_locked == word_bit(words@[128], 2)
                && info.security_frozen == word_bit(words@[128], 3)
                && info.enhanced_erase_supported == word_bit(words@[128], 5)),
    {
        if words.len() != 256 {
            return Err(AtaError::CommandFailed);
        }
        let model = ascii_to_string(ata_string(words, 27, 20));
        let serial = ascii_to_string(ata_string(words, 10, 10));
        let firmware = ascii_to_string(ata_string(words, 23, 4));
        let w106 = words[106];
        let w117 = words[117];
        let sector_size: u16 = if (w106 >> 12) & 1 == 1 && w117 <= 0x7FFF {
            2 * w117
        } else {
            512
        };
        let sector_count: u64 = (words[100] as u64) | ((words[101] as u64) << 16)
            | ((words[102] as u64) << 32) | ((words[103] as u64) << 48);
        let sec = words[128];
        Ok(AtaDeviceInfo {
            model,
            serial,
            firmware,
            sector_size,
            sector_count,
            security_supported: (sec >> 0) & 1 == 1,
            security_enabled: (sec >> 1) & 1 == 1,
            security_locked: (sec >> 2) & 1 == 1,
            security_frozen: (sec >> 3) & 1 == 1,
            enhanced_erase_supported: (sec >> 5) & 1 == 1,
        })
    }
}

/// What one ATA erase invocation did.
#[derive(Debug, Clone, Copy, PartialEq, Eq, Structural)]
pub struct AtaEraseReport {
    pub outcome: DriverOutcome,
    /// The enhanced erase variant was issued: it was requested and the
    /// device supports it.
    pub enhanced_used: bool,
}

/// Everything an ATA erase leaves alone, whatever happens.
pub open spec fn ata_untouched_rest(pre: SimDevice, post: SimDevice) -> bool {
    &&& post.identity == pre.identity
    &&& post.class == pre.class
    &&& post.sector_size == pre.sector_size
    &&& post.sector_count == pre.sector_count
    &&& post.model == pre.model
    &&& post.serial == pre.serial
    &&& post.vendor == pre.vendor
    &&& post.write_faults@ =~= pre.write_faults@
    &&& post.nvme == pre.nvme
    &&& post.sed == pre.sed
    &&& post.nvme_sanitize_count == pre.nvme_sanitize_count
    &&& post.probe_io_fault == pre.probe_io_fault
    &&& post.access_granted == pre.access_granted
}

/// The locked state blocks the erase: the device is locked and the
/// caller either did not authorise the factory master password or the
/// device no longer accepts it.  Passwords are never guessed.
pub open spec fn ata_auth_blocked(dev: SimDevice, allow_master_password: bool) -> bool {
    dev.ata.locked && !(allow_master_password && dev.ata.master_password_usable)
}

/// Issue SECURITY ERASE UNIT against the device.
///
/// A frozen security state is reported immediately, before any command
/// reaches the device — resolution needs a power cycle, which is not
/// software's to perform.  The cancel token is polled once, before the
/// command is issued; a command already issued is never reported
/// cancelled.  The timeout is twice the device's reported estimate.
pub fn run_ata_erase(
    dev: &mut SimDevice,
    record: &CapabilityRecord,
    enhanced: bool,
    allow_master_password: bool,
    cancel: &CancelToken,
    sink: &mut ProgressSink,
) -> (r: AtaEraseReport)
    requires
        old(dev).wf(),
        old(dev).ata_erase_count < u64::MAX,
        record.ata_security_supported == old(dev).ata.supported,
        record.ata_security_locked == old(dev).ata.locked,
        record.ata_security_frozen == old(dev).ata.frozen,
        record.ata_enhanced_erase == old(dev).ata.enhanced_erase_supported,
        record.ata_erase_minutes_estimate == old(dev).ata.erase_minutes_estimate,
    ensures
        r.enhanced_used == (enhanced && old(dev).ata.enhanced_erase_supported),
        final(dev).wf(),
        final(sink).capacity == old(sink).capacity,
        final(sink).snaps@.subrange(0, old(sink).snaps@.len() as int) =~= old(sink).snaps@,
        old(dev).ata.frozen ==> r.outcome == DriverOutcome::SecurityFrozen
            && *final(dev) == *old(dev)
            && final(dev).ata_erase_count == old(dev).ata_erase_count,
        !old(dev).ata.frozen && ata_auth_blocked(*old(dev), allow_master_password)
            ==> r.outcome == DriverOutcome::AuthenticationFailed && *final(dev) == *old(dev),
        !old(dev).ata.frozen && !ata_auth_blocked(*old(dev), allow_master_password)
            && cancel.fired(0)
            ==> r.outcome == DriverOutcome::Cancelled && *final(dev) == *old(dev),
        !old(dev).ata.frozen && !ata_auth_blocked(*old(dev), allow_master_password)
            && !cancel.fired(0) && !old(dev).ata.supported
            ==> r.outcome == DriverOutcome::CommandFailed && *final(dev) == *old(dev),
        !old(dev).ata.frozen && !ata_auth_blocked(*old(dev), allow_master_password)
            && !cancel.fired(0) && old(dev).ata.supported
            ==> ata_untouched_rest(*old(dev), *final(dev))
                && final(dev).ata_erase_count == old(dev).ata_erase_count + 1
                && (if old(dev).ata.erase_minutes_actual > 2 * (old(dev).ata.erase_minutes_estimate as u32) {
                    r.outcome == DriverOutcome::Timeout
                        && final(dev).data@ =~= old(dev).data@
                        && final(dev).ata == old(dev).ata
                } else {
                    r.outcome == DriverOutcome::Success
                        && final(dev).data@ =~= Seq::new(old(dev).data@.len(), |i: int| 0u8)
                        && final(dev).flushed
                        && final(dev).ata.enabled
                        && final(dev).ata.locked
                        && final(dev).ata.supported == old(dev).ata.supported
                        && final(dev).ata.frozen == old(dev).ata.frozen
                        && final(dev).ata.enhanced_erase_supported
                            == old(dev).ata.enhanced_erase_supported
                }),
{
    let enhanced_used = enhanced && record.ata_enhanced_erase;
    if record.ata_security_frozen {
        return AtaEraseReport { outcome: DriverOutcome::SecurityFrozen, enhanced_used };
    }
    if record.ata_security_locked && !(allow_master_password && dev.ata.master_password_usable) {
        return AtaEraseReport { outcome: DriverOutcome::AuthenticationFailed, enhanced_used };
    }
    if cancel.is_fired(0) {
        return AtaEraseReport { outcome: DriverOutcome::Cancelled, enhanced_used };
    }
    if !record.ata_security_supported {
        return AtaEraseReport { outcome: DriverOutcome::CommandFailed, enhanced_used };
    }
    let estimate = record.ata_erase_minutes_estimate;
    sink.report(ProgressSnapshot {
        phase_index: 0,
        phase_total: 2,
        units_done: 0,
        units_total: estimate as u64,
    });
    dev.ata_erase_count = dev.ata_erase_count + 1;
    let timeout: u32 = 2 * (estimate as u32);
    if dev.ata.erase_minutes_actual > timeout {
        return AtaEraseReport { outcome: DriverOutcome::Timeout, enhanced_used };
    }
    dev.zero_media();
    dev.ata.enabled = true;
    dev.ata.locked = true;
    sink.report(ProgressSnapshot {
        phase_index: 1,
        phase_total: 2,
        units_done: estimate as u64,
        units_total: estimate as u64,
    });
    AtaEraseReport { outcome: DriverOutcome::Success, enhanced_used }
}

} // verus!
