//! Crypto-erase driver for self-encrypting (OPAL) drives.
//!
//! Authenticates with the caller-supplied credential (admin password or
//! PSID) and revokes the data-encryption key.  The erase is logically
//! instantaneous whatever the capacity: the media cells keep their
//! ciphertext, but the key that made them readable is discarded, which
//! the model captures by advancing the key generation counter.  A
//! rejected credential fails at once — credentials are caller-supplied
//! and never retried or guessed.

use vstd::prelude::*;
use crate::caps::CapabilityRecord;
use crate::device::SimDevice;
use crate::erasure::{CancelToken, DriverOutcome, ProgressSink, ProgressSnapshot};

verus! {

/// Everything a crypto-erase leaves alone, whatever happens: only the
/// SED key generation may move.
pub open spec fn crypto_untouched_rest(pre: SimDevice, post: SimDevice) -> bool {
    &&& post.identity == pre.identity
    &&& post.class == pre.class
    &&& post.sector_size == pre.sector_size
    &&& post.sector_count == pre.sector_count
    &&& post.model == pre.model
    &&& post.serial == pre.serial
    &&& post.vendor == pre.vendor
    &&& post.data@ =~= pre.data@
    &&& post.write_faults@ =~= pre.write_faults@
    &&& post.flushed == pre.flushed
    &&& post.ata == pre.ata
    &&& post.nvme == pre.nvme
    &&& post.sed.opal_supported == pre.sed.opal_supported
    &&& post.sed.locking_range_count == pre.sed.locking_range_count
    &&& post.sed.credential == pre.sed.credential
    &&& post.ata_erase_count == pre.ata_erase_count
    &&& post.nvme_sanitize_count == pre.nvme_sanitize_count
    &&& post.probe_io_fault == pre.probe_io_fault
    &&& post.access_granted == pre.access_granted
}

/// Revoke the data-encryption key of a self-encrypting device.
///
/// Progress is a small fixed number of protocol steps, never
/// proportional to capacity.  The cancel token is polled once, before
/// the session opens.
pub fn run_crypto_erase(
    dev: &mut SimDevice,
    record: &CapabilityRecord,
    credential: u64,
    cancel: &CancelToken,
    sink: &mut ProgressSink,
) -> (r: DriverOutcome)
    requires
        old(dev).wf(),
        old(dev).sed.key_generation < u64::MAX,
        record.sed_supported == old(dev).sed.opal_supported,
    ensures
        final(dev).wf(),
        final(sink).capacity == old(sink).capacity,
        final(sink).snaps@.subrange(0, old(sink).snaps@.len() as int) =~= old(sink).snaps@,
        // Progress is a small fixed number of protocol steps, never
        // proportional to capacity.
        final(sink).snaps@.len() <= old(sink).snaps@.len() + 3,
        cancel.fired(0) ==> r == DriverOutcome::Cancelled && *final(dev) == *old(dev),
        !cancel.fired(0) && !record.sed_supported
            ==> r == DriverOutcome::CommandFailed && *final(dev) == *old(dev),
        !cancel.fired(0) && record.sed_supported && credential != old(dev).sed.credential
            ==> r == DriverOutcome::AuthenticationFailed && *final(dev) == *old(dev),
        !cancel.fired(0) && record.sed_supported && credential == old(dev).sed.credential
            ==> r == DriverOutcome::Success
                && crypto_untouched_rest(*old(dev), *final(dev))
                && final(dev).sed.key_generation == old(dev).sed.key_generation + 1,
{
    if cancel.is_fired(0) {
        return DriverOutcome::Cancelled;
    }
    if !record.sed_supported {
        return DriverOutcome::CommandFailed;
    }
    sink.report(ProgressSnapshot { phase_index: 0, phase_total: 3, units_done: 0, units_total: 3 });
    if credential != dev.sed.credential {
        return DriverOutcome::AuthenticationFailed;
    }
    sink.report(ProgressSnapshot { phase_index: 1, phase_total: 3, units_done: 1, units_total: 3 });
    dev.sed.key_generation = dev.sed.key_generation + 1;
    sink.report(ProgressSnapshot { phase_index: 2, phase_total: 3, units_done: 3, units_total: 3 });
    DriverOutcome::Success
}

} // verus!
