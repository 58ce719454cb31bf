//! Simulated block device.
//!
//! The engine runs one erasure job against one device.  Real hardware is
//! reached through an external enumeration collaborator; the engine's own
//! logic is exercised against this in-memory model, which carries the
//! media bytes, the hardware security state the drivers act on, and a
//! per-byte budget of transient write faults.

use vstd::prelude::*;
use crate::platform::DeviceType;

verus! {

/// How many times a single failing write is retried before the whole
/// pass is abandoned.
pub const WRITE_RETRY_LIMIT: u8 = 3;

/// ATA security feature state as reported by IDENTIFY DEVICE.
#[derive(Debug, Clone, Copy, PartialEq, Eq, Structural)]
pub struct AtaSecurityState {
    pub supported: bool,
    pub enabled: bool,
    pub locked: bool,
    pub frozen: bool,
    pub enhanced_erase_supported: bool,
    /// True while the factory master password is still usable.
    pub master_password_usable: bool,
    /// Device-reported estimate for one erase, in minutes.
    pub erase_minutes_estimate: u16,
    /// Minutes one erase actually takes on this device.
    pub erase_minutes_actual: u32,
}

/// NVMe controller capabilities and sanitize behaviour.
#[derive(Debug, Clone, Copy, PartialEq, Eq, Structural)]
pub struct NvmeState {
    pub format_supported: bool,
    pub sanitize_supported: bool,
    pub crypto_erase_supported: bool,
    /// A sanitize command on this controller ends in the failed status.
    pub sanitize_will_fail: bool,
    /// Progress gained per poll of the sanitize status log, in percent.
    pub sanitize_step_percent: u8,
}

/// Self-encrypting-drive (OPAL) state.
#[derive(Debug, Clone, Copy, PartialEq, Eq, Structural)]
pub struct SedState {
    pub opal_supported: bool,
    pub locking_range_count: u16,
    /// Credential (admin password or PSID) the device accepts.
    pub credential: u64,
    /// Generation counter of the data-encryption key; a crypto-erase
    /// discards the key and increments this.
    pub key_generation: u64,
}

/// In-memory model of one exclusively held block device.
pub struct SimDevice {
    /// Stable identity used by the device-lock table.
    pub identity: u64,
    pub class: DeviceType,
    pub sector_size: u32,
    pub sector_count: u64,
    pub model: String,
    pub serial: String,
    pub vendor: String,
    /// Media content, byte by byte.
    pub data: Vec<u8>,
    /// Remaining transient write faults per byte: a write at index `i`
    /// fails and consumes one fault while `write_faults[i] > 0`.
    pub write_faults: Vec<u8>,
    /// True when every completed write has been flushed to the media.
    pub flushed: bool,
    pub ata: AtaSecurityState,
    pub nvme: NvmeState,
    pub sed: SedState,
    /// Number of ATA SECURITY ERASE UNIT commands the device has seen.
    pub ata_erase_count: u64,
    /// Number of NVMe Sanitize / Format NVM commands the device has seen.
    pub nvme_sanitize_count: u64,
    /// Capability queries on this device fail with a read error.
    pub probe_io_fault: bool,
    /// The caller holds the elevated access the device demands.
    pub access_granted: bool,
}

impl SimDevice {
    /// Structural well-formedness: the fault budget shadows the media.
    pub open spec fn wf(self) -> bool {
        &&& self.data.len() == self.write_faults.len()
        &&& self.data.len() == self.sector_count * self.sector_size
    }

    /// Everything but the media bytes, fault budget and flush mark.
    pub open spec fn same_device_state(self, other: SimDevice) -> bool {
        &&& self.identity == other.identity
        &&& self.class == other.class
        &&& self.sector_size == other.sector_size
        &&& self.sector_count == other.sector_count
        &&& self.model == other.model
        &&& self.serial == other.serial
        &&& self.vendor == other.vendor
        &&& self.ata == other.ata
        &&& self.nvme == other.nvme
        &&& self.sed == other.sed
        &&& self.ata_erase_count == other.ata_erase_count
        &&& self.nvme_sanitize_count == other.nvme_sanitize_count
        &&& self.probe_io_fault == other.probe_io_fault
        &&& self.access_granted == other.access_granted
    }

    /// A fresh device: zeroed media, no faults, no security features.
    pub fn new(identity: u64, class: DeviceType, sector_size: u32, sector_count: u64) -> (dev: SimDevice)
        requires
            sector_count <= usize::MAX,
            sector_count * sector_size <= usize::MAX,
        ensures
            dev.wf(),
            dev.identity == identity,
            dev.class == class,
            dev.sector_size == sector_size,
            dev.sector_count == sector_count,
            dev.data@ =~= Seq::new((sector_count * sector_size) as nat, |i: int| 0u8),
            dev.write_faults@ =~= Seq::new((sector_count * sector_size) as nat, |i: int| 0u8),
            dev.flushed,
            dev.ata == (AtaSecurityState {
                supported: false,
                enabled: false,
                locked: false,
                frozen: false,
                enhanced_erase_supported: false,
                master_password_usable: false,
                erase_minutes_estimate: 0,
                erase_minutes_actual: 0,
            }),
            dev.nvme == (NvmeState {
                format_supported: false,
                sanitize_supported: false,
                crypto_erase_supported: false,
                sanitize_will_fail: false,
                sanitize_step_percent: 0,
            }),
            dev.sed == (SedState {
                opal_supported: false,
                locking_range_count: 0,
                credential: 0,
                key_generation: 0,
            }),
            dev.ata_erase_count == 0,
            dev.nvme_sanitize_count == 0,
            !dev.probe_io_fault,
            dev.access_granted,
    {
        let total: usize = (sector_count as usize) * (sector_size as usize);
        let mut data: Vec<u8> = Vec::new();
        let mut faults: Vec<u8> = Vec::new();
        let mut i: usize = 0;
        while i < total
            invariant
                i <= total,
                data@ =~= Seq::new(i as nat, |j: int| 0u8),
                faults@ =~= Seq::new(i as nat, |j: int| 0u8),
            decreases total - i,
        {
            data.push(0u8);
            faults.push(0u8);
            i = i + 1;
        }
        SimDevice {
            identity,
            class,
            sector_size,
            sector_count,
            model: String::new(),
            serial: String::new(),
            vendor: String::new(),
            data,
            write_faults: faults,
            flushed: true,
            ata: AtaSecurityState {
                supported: false,
                enabled: false,
                locked: false,
                frozen: false,
                enhanced_erase_supported: false,
                master_password_usable: false,
                erase_minutes_estimate: 0,
                erase_minutes_actual: 0,
            },
            nvme: NvmeState {
                format_supported: false,
                sanitize_supported: false,
                crypto_erase_supported: false,
                sanitize_will_fail: false,
                sanitize_step_percent: 0,
            },
            sed: SedState {
                opal_supported: false,
                locking_range_count: 0,
                credential: 0,
                key_generation: 0,
            },
            ata_erase_count: 0,
            nvme_sanitize_count: 0,
            probe_io_fault: false,
            access_granted: true,
        }
    }

    /// One write attempt.  While the byte still has transient faults the
    /// attempt fails and consumes one fault; otherwise the byte lands.
    /// Any write leaves the media unflushed until `flush` is called.
    pub fn write_byte(&mut self, i: usize, b: u8) -> (ok: bool)
        requires
            old(self).wf(),
            i < old(self).data.len(),
        ensures
            final(self).wf(),
            old(self).same_device_state(*final(self)),
            !final(self).flushed,
            ok <==> old(self).write_faults@[i as int] == 0,
            ok ==> final(self).data@ =~= old(self).data@.update(i as int, b)
                && final(self).write_faults@ =~= old(self).write_faults@,
            !ok ==> final(self).data@ =~= old(self).data@
                && final(self).write_faults@ =~= old(self).write_faults@.update(
                    i as int, (old(self).write_faults@[i as int] - 1) as u8),
    {
        self.flushed = false;
        let remaining: u8 = self.write_faults[i];
        if remaining > 0 {
            self.write_faults.set(i, remaining - 1);
            false
        } else {
            self.data.set(i, b);
            true
        }
    }

    /// Read one media byte; reads are fault-free in this model.
    pub fn read_byte(&self, i: usize) -> (b: u8)
        requires
            i < self.data.len(),
        ensures
            b == self.data@[i as int],
    {
        self.data[i]
    }

    /// Media effect of a completed hardware erase command: every byte
    /// zeroed and durable, bypassing the transient-fault model of
    /// software writes.
    #[verifier::loop_isolation(false)]
    pub fn zero_media(&mut self)
        requires
            old(self).wf(),
        ensures
            final(self).wf(),
            old(self).same_device_state(*final(self)),
            final(self).data@ =~= Seq::new(old(self).data@.len(), |i: int| 0u8),
            final(self).write_faults@ =~= old(self).write_faults@,
            final(self).flushed,
    {
        let ghost dev0 = *self;
        let len = self.data.len();
        let mut i: usize = 0;
        while i < len
            invariant
                i <= len,
                self.wf(),
                dev0.same_device_state(*self),
                len == self.data.len(),
                self.write_faults@ =~= dev0.write_faults@,
                self.flushed == dev0.flushed,
                forall|k: int| 0 <= k < i ==> self.data@[k] == 0u8,
                forall|k: int| i <= k < len ==> self.data@[k] == dev0.data@[k],
            decreases len - i,
        {
            self.data.set(i, 0u8);
            i = i + 1;
        }
        self.flushed = true;
    }

    /// Flush outstanding writes; afterwards everything written is durable.
    pub fn flush(&mut self)
        ensures
            final(self).wf() == old(self).wf(),
            old(self).same_device_state(*final(self)),
            final(self).data@ =~= old(self).data@,
            final(self).write_faults@ =~= old(self).write_faults@,
            final(self).flushed,
    {
        self.flushed = true;
    }
}

} // verus!
