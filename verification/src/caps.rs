//! Capability probe.
//!
//! Produces the immutable `CapabilityRecord` a job is built on: device
//! class, geometry, identity, and the hardware security features the
//! drivers may rely on.  The record is computed once per job and never
//! re-queried mid-job.

use vstd::prelude::*;
use crate::device::SimDevice;
use crate::platform::DeviceType;

verus! {

/// Why a capability probe failed; probe failures are terminal for the
/// job — no partial record is ever used.
#[derive(Debug, Clone, Copy, PartialEq, Eq, Structural)]
pub enum ProbeError {
    /// The device class cannot be determined.
    Unsupported,
    /// Reading the capability structures failed.
    Io,
    /// Elevated access is required and absent.
    PermissionDenied,
}

/// Immutable capability record of one device, trusted by the drivers
/// for the whole job.
pub struct CapabilityRecord {
    pub class: DeviceType,
    pub sector_size: u32,
    pub sector_count: u64,
    pub model: String,
    pub serial: String,
    pub vendor: String,
    pub ata_security_supported: bool,
    pub ata_security_enabled: bool,
    pub ata_security_locked: bool,
    pub ata_security_frozen: bool,
    pub ata_enhanced_erase: bool,
    /// Device-reported estimate for one ATA erase, in minutes.
    pub ata_erase_minutes_estimate: u16,
    pub nvme_format: bool,
    pub nvme_sanitize: bool,
    pub nvme_crypto_erase: bool,
    /// OPAL-level discovery answered: the device is self-encrypting.
    pub sed_supported: bool,
    pub sed_locking_ranges: u16,
}

impl CapabilityRecord {
    /// The record reports exactly what the device exposes.
    pub open spec fn mirrors(self, dev: SimDevice) -> bool {
        &&& self.class == dev.class
        &&& self.sector_size == dev.sector_size
        &&& self.sector_count == dev.sector_count
        &&& self.model == dev.model
        &&& self.serial == dev.serial
        &&& self.vendor == dev.vendor
        &&& self.ata_security_supported == dev.ata.supported
        &&& self.ata_security_enabled == dev.ata.enabled
        &&& self.ata_security_locked == dev.ata.locked
        &&& self.ata_security_frozen == dev.ata.frozen
        &&& self.ata_enhanced_erase == dev.ata.enhanced_erase_supported
        &&& self.ata_erase_minutes_estimate == dev.ata.erase_minutes_estimate
        &&& self.nvme_format == dev.nvme.format_supported
        &&& self.nvme_sanitize == dev.nvme.sanitize_supported
        &&& self.nvme_crypto_erase == dev.nvme.crypto_erase_supported
        &&& self.sed_supported == dev.sed.opal_supported
        &&& self.sed_locking_ranges == dev.sed.locking_range_count
    }
}

/// Probe one device.
///
/// Fails with `PermissionDenied` when elevated access is absent, with
/// `Io` when the capability structures cannot be read, and with
/// `Unsupported` when the device class cannot be determined; in that
/// order.  Absence of an OPAL discovery response is captured as "not
/// self-encrypting", never as an error.
pub fn probe(dev: &SimDevice) -> (r: Result<CapabilityRecord, ProbeError>)
    ensures
        !dev.access_granted ==> r == Err::<CapabilityRecord, ProbeError>(ProbeError::PermissionDenied),
        dev.access_granted && dev.probe_io_fault
            ==> r == Err::<CapabilityRecord, ProbeError>(ProbeError::Io),
        dev.access_granted && !dev.probe_io_fault && dev.class is Unknown
            ==> r == Err::<CapabilityRecord, ProbeError>(ProbeError::Unsupported),
        dev.access_granted && !dev.probe_io_fault && !(dev.class is Unknown)
            ==> (r matches Ok(rec) && rec.mirrors(*dev)),
{
    if !dev.access_granted {
        return Err(ProbeError::PermissionDenied);
    }
    if dev.probe_io_fault {
        return Err(ProbeError::Io);
    }
    match dev.class {
        DeviceType::Unknown => Err(ProbeError::Unsupported),
        _ => Ok(CapabilityRecord {
            class: dev.class,
            sector_size: dev.sector_size,
            sector_count: dev.sector_count,
            model: dev.model.clone(),
            serial: dev.serial.clone(),
            vendor: dev.vendor.clone(),
            ata_security_supported: dev.ata.supported,
            ata_security_enabled: dev.ata.enabled,
            ata_security_locked: dev.ata.locked,
            ata_security_frozen: dev.ata.frozen,
            ata_enhanced_erase: dev.ata.enhanced_erase_supported,
            ata_erase_minutes_estimate: dev.ata.erase_minutes_estimate,
            nvme_format: dev.nvme.format_supported,
            nvme_sanitize: dev.nvme.sanitize_supported,
            nvme_crypto_erase: dev.nvme.crypto_erase_supported,
            sed_supported: dev.sed.opal_supported,
            sed_locking_ranges: dev.sed.locking_range_count,
        }),
    }
}

} // verus!
