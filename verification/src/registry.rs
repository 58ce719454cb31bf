//! Method registry.
//!
//! Maps a capability record to the ordered list of eligible erasure
//! methods and validates a caller's request against the record.  The
//! preference rule is deterministic: hardware crypto-erase over
//! hardware secure-erase (NVMe sanitize over ATA erase, crypto or
//! enhanced variants over basic), over multi-pass overwrite, which is
//! always eligible as the universal fallback.

use vstd::prelude::*;
use crate::caps::CapabilityRecord;
use crate::erasure::overwrite::{PassKind, PatternSpec};
use crate::platform::{DeviceType, WipeMethod};

verus! {

/// Why a requested method was refused.
#[derive(Debug, Clone, Copy, PartialEq, Eq, Structural)]
pub enum SelectionError {
    /// The device lacks the feature the requested method needs.
    Unsupported,
}

/// Sub-method of an NVMe sanitize-class erase.
#[derive(Debug, Clone, Copy, PartialEq, Eq, Structural)]
pub enum SanitizeAction {
    /// Sanitize with the crypto-erase action.
    CryptoScramble,
    /// Sanitize with the block-erase action.
    BlockErase,
    /// Format NVM with secure-erase settings.
    Format,
}

/// A fully parameterised erasure method: each variant carries what its
/// driver needs to execute without re-probing the device.
#[derive(Debug, Clone)]
pub enum EraseMethod {
    Overwrite(PatternSpec),
    AtaSecureErase { enhanced: bool },
    NvmeSanitize { action: SanitizeAction },
    CryptoErase { locking_ranges: u16 },
}

/// The hardware erase method a record supports, if any: NVMe sanitize
/// (crypto action preferred) or Format NVM for NVMe-class devices, ATA
/// SECURITY ERASE UNIT (enhanced when supported) for ATA-class ones.
pub open spec fn hardware_method_of(record: CapabilityRecord) -> Option<EraseMethod> {
    if record.class is NVMe {
        if record.nvme_sanitize {
            Some(EraseMethod::NvmeSanitize {
                action: if record.nvme_crypto_erase {
                    SanitizeAction::CryptoScramble
                } else {
                    SanitizeAction::BlockErase
                },
            })
        } else if record.nvme_format {
            Some(EraseMethod::NvmeSanitize { action: SanitizeAction::Format })
        } else {
            None
        }
    } else {
        if record.ata_security_supported {
            Some(EraseMethod::AtaSecureErase { enhanced: record.ata_enhanced_erase })
        } else {
            None
        }
    }
}

/// The crypto-erase method of a self-encrypting device.
pub open spec fn crypto_method_of(record: CapabilityRecord) -> EraseMethod {
    EraseMethod::CryptoErase { locking_ranges: record.sed_locking_ranges }
}

/// The universal overwrite fallback: a single zero pass.
pub open spec fn is_fallback_overwrite(m: EraseMethod) -> bool {
    m matches EraseMethod::Overwrite(p) && p.passes@ =~= seq![PassKind::Fixed(0u8)]
}

/// The ordered list of eligible methods, best-first: crypto-erase when
/// the device is self-encrypting, then the hardware erase the record
/// supports, then always the overwrite fallback.
pub fn eligible_methods(record: &CapabilityRecord) -> (r: Vec<EraseMethod>)
    ensures
        r@.len() == (if record.sed_supported { 1int } else { 0int })
            + (if hardware_method_of(*record) is Some { 1int } else { 0int }) + 1,
        record.sed_supported ==> r@[0] == crypto_method_of(*record),
        forall|m: EraseMethod|
            hardware_method_of(*record) == Some(m)
                ==> r@[if record.sed_supported { 1int } else { 0int }] == m,
        is_fallback_overwrite(r@[r@.len() - 1]),
{
    let mut r: Vec<EraseMethod> = Vec::new();
    if record.sed_supported {
        r.push(EraseMethod::CryptoErase { locking_ranges: record.sed_locking_ranges });
    }
    match hardware_of(record) {
        Some(m) => r.push(m),
        None => {}
    }
    r.push(EraseMethod::Overwrite(PatternSpec::single_zero()));
    r
}

/// Resolve the hardware erase method the record supports.
fn hardware_of(record: &CapabilityRecord) -> (r: Option<EraseMethod>)
    ensures
        r == hardware_method_of(*record),
{
    match record.class {
        DeviceType::NVMe => {
            if record.nvme_sanitize {
                Some(EraseMethod::NvmeSanitize {
                    action: if record.nvme_crypto_erase {
                        SanitizeAction::CryptoScramble
                    } else {
                        SanitizeAction::BlockErase
                    },
                })
            } else if record.nvme_format {
                Some(EraseMethod::NvmeSanitize { action: SanitizeAction::Format })
            } else {
                None
            }
        }
        _ => {
            if record.ata_security_supported {
                Some(EraseMethod::AtaSecureErase { enhanced: record.ata_enhanced_erase })
            } else {
                None
            }
        }
    }
}

/// Select the method for a job.
///
/// With no request the best eligible method is chosen.  A requested
/// method family is validated against the record: a family the device
/// lacks the feature for is refused with `Unsupported`; in particular a
/// crypto-erase request on a device that is not self-encrypting is
/// always refused.  An overwrite request always succeeds.
pub fn select(
    record: &CapabilityRecord,
    requested: Option<WipeMethod>,
) -> (r: Result<EraseMethod, SelectionError>)
    ensures
        !record.sed_supported && requested == Some(WipeMethod::CryptoErase)
            ==> r == Err::<EraseMethod, SelectionError>(SelectionError::Unsupported),
        record.sed_supported && requested == Some(WipeMethod::CryptoErase)
            ==> r == Ok::<EraseMethod, SelectionError>(crypto_method_of(*record)),
        requested == Some(WipeMethod::SecureErase) && hardware_method_of(*record) is None
            ==> r == Err::<EraseMethod, SelectionError>(SelectionError::Unsupported),
        forall|m: EraseMethod|
            requested == Some(WipeMethod::SecureErase) && hardware_method_of(*record) == Some(m)
                ==> r == Ok::<EraseMethod, SelectionError>(m),
        requested == Some(WipeMethod::Overwrite)
            ==> (r matches Ok(m) && is_fallback_overwrite(m)),
        requested is None && record.sed_supported
            ==> r == Ok::<EraseMethod, SelectionError>(crypto_method_of(*record)),
        forall|m: EraseMethod|
            requested is None && !record.sed_supported && hardware_method_of(*record) == Some(m)
                ==> r == Ok::<EraseMethod, SelectionError>(m),
        requested is None && !record.sed_supported && hardware_method_of(*record) is None
            ==> (r matches Ok(m) && is_fallback_overwrite(m)),
        r matches Ok(m) ==> (m matches EraseMethod::Overwrite(p)
            ==> (p.passes@ =~= seq![PassKind::Fixed(0u8)] && p.wf())),
{
    match requested {
        Some(WipeMethod::CryptoErase) => {
            if record.sed_supported {
                Ok(EraseMethod::CryptoErase { locking_ranges: record.sed_locking_ranges })
            } else {
                Err(SelectionError::Unsupported)
            }
        }
        Some(WipeMethod::SecureErase) => {
            match hardware_of(record) {
                Some(m) => Ok(m),
                None => Err(SelectionError::Unsupported),
            }
        }
        Some(WipeMethod::Overwrite) => Ok(EraseMethod::Overwrite(PatternSpec::single_zero())),
        None => {
            if record.sed_supported {
                Ok(EraseMethod::CryptoErase { locking_ranges: record.sed_locking_ranges })
            } else {
                match hardware_of(record) {
                    Some(m) => Ok(m),
                    None => Ok(EraseMethod::Overwrite(PatternSpec::single_zero())),
                }
            }
        }
    }
}

} // verus!
