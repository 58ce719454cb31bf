//! NVMe sanitize / Format NVM driver.
//!
//! Issues the selected sanitize-class command and polls the sanitize
//! status log until the controller reports completion.  A controller
//! that reports the failed status fails the job with a command error;
//! one whose status log never advances overruns the poll budget and is
//! reported timed out.

use vstd::prelude::*;
use crate::caps::CapabilityRecord;
use crate::device::SimDevice;
use crate::erasure::{CancelToken, DriverOutcome, ProgressSink, ProgressSnapshot};
use crate::registry::SanitizeAction;

verus! {

/// What one sanitize invocation did.
#[derive(Debug, Clone, Copy, PartialEq, Eq, Structural)]
pub struct NvmeSanitizeReport {
    pub outcome: DriverOutcome,
    /// Last progress percentage observed on the status log.
    pub final_progress_percent: u8,
}

/// Whether the record supports the chosen action: Format NVM needs the
/// format capability, the sanitize actions need the sanitize command.
pub open spec fn sanitize_action_supported(record: CapabilityRecord, action: SanitizeAction) -> bool {
    match action {
        SanitizeAction::Format => record.nvme_format,
        SanitizeAction::CryptoScramble => record.nvme_sanitize,
        SanitizeAction::BlockErase => record.nvme_sanitize,
    }
}

/// Everything an NVMe sanitize leaves alone, whatever happens.
pub open spec fn nvme_untouched_rest(pre: SimDevice, post: SimDevice) -> bool {
    &&& post.identity == pre.identity
    &&& post.class == pre.class
    &&& post.sector_size == pre.sector_size
    &&& post.sector_count == pre.sector_count
    &&& post.model == pre.model
    &&& post.serial == pre.serial
    &&& post.vendor == pre.vendor
    &&& post.write_faults@ =~= pre.write_faults@
    &&& post.ata == pre.ata
    &&& post.nvme == pre.nvme
    &&& post.sed == pre.sed
    &&& post.ata_erase_count == pre.ata_erase_count
    &&& post.probe_io_fault == pre.probe_io_fault
    &&& post.access_granted == pre.access_granted
}

/// Issue the sanitize-class command and poll its status to completion.
///
/// The cancel token is polled once, before the command is issued: a
/// sanitize already running on the controller cannot be aborted, so a
/// later cancellation request is honoured only by the caller after
/// completion, never reported from here.
#[verifier::loop_isolation(false)]
pub fn run_nvme_sanitize(
    dev: &mut SimDevice,
    record: &CapabilityRecord,
    action: SanitizeAction,
    cancel: &CancelToken,
    sink: &mut ProgressSink,
) -> (r: NvmeSanitizeReport)
    requires
        old(dev).wf(),
        old(dev).nvme_sanitize_count < u64::MAX,
        record.nvme_sanitize == old(dev).nvme.sanitize_supported,
        record.nvme_format == old(dev).nvme.format_supported,
    ensures
        final(dev).wf(),
        final(sink).capacity == old(sink).capacity,
        final(sink).snaps@.subrange(0, old(sink).snaps@.len() as int) =~= old(sink).snaps@,
        // Delivered progress never runs backwards and never overshoots.
        forall|a: int, b: int|
            old(sink).snaps@.len() <= a <= b < final(sink).snaps@.len()
                ==> (#[trigger] final(sink).snaps@[a]).units_done
                    <= (#[trigger] final(sink).snaps@[b]).units_done,
        forall|a: int|
            old(sink).snaps@.len() <= a < final(sink).snaps@.len()
                ==> (#[trigger] final(sink).snaps@[a]).units_done <= 100,
        cancel.fired(0) ==> r.outcome == DriverOutcome::Cancelled && *final(dev) == *old(dev),
        !cancel.fired(0) && !sanitize_action_supported(*record, action)
            ==> r.outcome == DriverOutcome::CommandFailed && *final(dev) == *old(dev),
        !cancel.fired(0) && sanitize_action_supported(*record, action)
            ==> nvme_untouched_rest(*old(dev), *final(dev))
                && final(dev).nvme_sanitize_count == old(dev).nvme_sanitize_count + 1
                && (if old(dev).nvme.sanitize_will_fail {
                    r.outcome == DriverOutcome::CommandFailed
                        && final(dev).data@ =~= old(dev).data@
                } else if old(dev).nvme.sanitize_step_percent == 0 {
                    r.outcome == DriverOutcome::Timeout
                        && final(dev).data@ =~= old(dev).data@
                } else {
                    r.outcome == DriverOutcome::Success
                        && r.final_progress_percent == 100
                        && final(dev).data@ =~= Seq::new(old(dev).data@.len(), |i: int| 0u8)
                        && final(dev).flushed
                }),
{
    if cancel.is_fired(0) {
        return NvmeSanitizeReport { outcome: DriverOutcome::Cancelled, final_progress_percent: 0 };
    }
    let supported = match action {
        SanitizeAction::Format => record.nvme_format,
        SanitizeAction::CryptoScramble => record.nvme_sanitize,
        SanitizeAction::BlockErase => record.nvme_sanitize,
    };
    if !supported {
        return NvmeSanitizeReport { outcome: DriverOutcome::CommandFailed, final_progress_percent: 0 };
    }
    dev.nvme_sanitize_count = dev.nvme_sanitize_count + 1;
    if dev.nvme.sanitize_will_fail {
        return NvmeSanitizeReport { outcome: DriverOutcome::CommandFailed, final_progress_percent: 0 };
    }
    let step = dev.nvme.sanitize_step_percent;
    if step == 0 {
        return NvmeSanitizeReport { outcome: DriverOutcome::Timeout, final_progress_percent: 0 };
    }
    let inc: u8 = if step > 100 {
        100
    } else {
        step
    };
    let mut progress: u8 = 0;
    while progress < 100
        invariant
            progress <= 100,
            sink.capacity == old(sink).capacity,
            sink.snaps@.len() >= old(sink).snaps@.len(),
            sink.snaps@.subrange(0, old(sink).snaps@.len() as int) =~= old(sink).snaps@,
            forall|a: int, b: int|
                old(sink).snaps@.len() <= a <= b < sink.snaps@.len()
                    ==> (#[trigger] sink.snaps@[a]).units_done
                        <= (#[trigger] sink.snaps@[b]).units_done,
            forall|a: int|
                old(sink).snaps@.len() <= a < sink.snaps@.len()
                    ==> (#[trigger] sink.snaps@[a]).units_done <= progress as u64,
        decreases 100 - progress,
    {
        progress = if progress >= 100 - inc {
            100
        } else {
            progress + inc
        };
        sink.report(ProgressSnapshot {
            phase_index: 0,
            phase_total: 1,
            units_done: progress as u64,
            units_total: 100,
        });
    }
    dev.zero_media();
    NvmeSanitizeReport { outcome: DriverOutcome::Success, final_progress_percent: progress }
}

} // verus!
