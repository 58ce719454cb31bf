//! Erasure engine: the job state machine and the device-lock table.
//!
//! A job runs against one exclusively locked device: acquire the lock,
//! probe capabilities, select the method, dispatch the driver, verify,
//! emit the certificate, release the lock — with every failure branch
//! surfacing a specific reason and the lock released whatever the
//! outcome.  Verification failure is never downgraded to success.

use vstd::prelude::*;
use crate::caps::{probe, CapabilityRecord, ProbeError};
use crate::cert::{cert_sealed, emit_certificate, Certificate};
use crate::device::SimDevice;
use crate::erasure::{CancelToken, DriverOutcome, ProgressSink};
use crate::erasure::ata::run_ata_erase;
use crate::erasure::crypto::run_crypto_erase;
use crate::erasure::nvme::run_nvme_sanitize;
use crate::erasure::overwrite::{all_writable, run_overwrite, PatternSpec};
use crate::platform::{DeviceType, WipeMethod};
use crate::registry::{
    crypto_method_of, hardware_method_of, select, EraseMethod, SanitizeAction, SelectionError,
};
use crate::verify::{
    lemma_verify_after_overwrite, verify_hardware_erase, verify_overwrite, SampleStrategy,
    VerificationResult,
};

verus! {

/// Why a job ended in failure.
#[derive(Debug, Clone, Copy, PartialEq, Eq, Structural)]
pub enum FailReason {
    /// The device is already locked by another job.
    LockContention,
    Probe(ProbeError),
    Selection(SelectionError),
    /// ATA security is frozen; a power cycle is required.
    SecurityFrozen,
    AuthenticationFailed,
    CommandFailed,
    /// A write kept failing beyond the bounded retry count.
    IoError,
    Timeout,
    VerificationFailed,
}

/// Terminal outcome of a job: never ambiguous, never partial.
#[derive(Debug)]
pub enum Outcome {
    Completed(Certificate),
    Failed(FailReason),
    Cancelled,
}

/// One finished unit of work.
#[derive(Debug)]
pub struct Job {
    pub id: u64,
    pub device_identity: u64,
    pub outcome: Outcome,
    pub passes_completed: u64,
    pub bytes_written: u64,
    pub verification: Option<VerificationResult>,
}

/// Per-job configuration the presentation collaborator supplies.
pub struct JobOptions {
    /// Requested method family; `None` picks the best eligible method.
    pub requested: Option<WipeMethod>,
    /// Overwrite pattern to use instead of the fallback single zero
    /// pass, when the overwrite method is chosen.
    pub pattern_override: Option<PatternSpec>,
    /// Whether to verify after the driver completes.
    pub verify: bool,
    /// Authorises one attempt with the factory master password on a
    /// locked ATA device; passwords are never guessed beyond it.
    pub allow_master_password: bool,
    /// OPAL admin password or PSID for a crypto-erase.
    pub credential: u64,
    /// Sample stride of the overwrite verification.
    pub sample_stride: usize,
    pub started_at: u64,
    pub finished_at: u64,
}

/// Process-wide device-lock table: device identity to holding job.
pub struct DeviceLockTable {
    pub entries: Vec<(u64, u64)>,
}

impl DeviceLockTable {
    /// No device is entered twice.
    pub open spec fn wf(self) -> bool {
        forall|i: int, j: int|
            0 <= i < j < self.entries@.len()
                ==> (#[trigger] self.entries@[i]).0 != (#[trigger] self.entries@[j]).0
    }

    /// Whether some job holds the device.
    pub open spec fn holds(self, device: u64) -> bool {
        exists|i: int| 0 <= i < self.entries@.len() && (#[trigger] self.entries@[i]).0 == device
    }

    pub fn new() -> (t: DeviceLockTable)
        ensures
            t.wf(),
            forall|d: u64| !t.holds(d),
    {
        DeviceLockTable { entries: Vec::new() }
    }

    /// Atomic test-and-set: the lock is acquired exactly when no other
    /// job holds the device; a held device is refused, never queued.
    #[verifier::loop_isolation(false)]
    pub fn acquire(&mut self, device: u64, job: u64) -> (ok: bool)
        requires
            old(self).wf(),
        ensures
            final(self).wf(),
            ok <==> !old(self).holds(device),
            ok ==> final(self).holds(device),
            !ok ==> *final(self) == *old(self),
            forall|d: u64| d != device ==> final(self).holds(d) == old(self).holds(d),
    {
        let mut i: usize = 0;
        let n = self.entries.len();
        while i < n
            invariant
                i <= n,
                n == self.entries@.len(),
                forall|k: int| 0 <= k < i ==> (#[trigger] self.entries@[k]).0 != device,
            decreases n - i,
        {
            if self.entries[i].0 == device {
                return false;
            }
            i = i + 1;
        }
        self.entries.push((device, job));
        proof {
            let m = self.entries@.len() - 1;
            assert(self.entries@[m].0 == device);
            assert forall|d: u64| d != device implies
                self.holds(d) == old(self).holds(d) by {
                if old(self).holds(d) {
                    let w = choose|k: int|
                        0 <= k < old(self).entries@.len() && (#[trigger] old(self).entries@[k]).0 == d;
                    assert(self.entries@[w].0 == d);
                }
                if self.holds(d) {
                    let w = choose|k: int|
                        0 <= k < self.entries@.len() && (#[trigger] self.entries@[k]).0 == d;
                    assert(w != m);
                    assert(old(self).entries@[w].0 == d);
                }
            }
        }
        true
    }

    /// Release the device's lock; other devices' locks are untouched.
    #[verifier::loop_isolation(false)]
    pub fn release(&mut self, device: u64)
        requires
            old(self).wf(),
        ensures
            final(self).wf(),
            !final(self).holds(device),
            forall|d: u64| d != device ==> final(self).holds(d) == old(self).holds(d),
    {
        let ghost t0 = *self;
        let mut i: usize = 0;
        let n = self.entries.len();
        while i < n
            invariant
                i <= n,
                n == self.entries@.len(),
                self.entries@ =~= t0.entries@,
                forall|k: int| 0 <= k < i ==> (#[trigger] self.entries@[k]).0 != device,
            decreases n - i,
        {
            if self.entries[i].0 == device {
                self.entries.remove(i);
                proof {
                    assert forall|d: u64| d != device implies
                        self.holds(d) == t0.holds(d) by {
                        if t0.holds(d) {
                            let w = choose|k: int|
                                0 <= k < t0.entries@.len() && (#[trigger] t0.entries@[k]).0 == d;
                            if w < i {
                                assert(self.entries@[w].0 == d);
                            } else {
                                assert(w != i);
                                assert(self.entries@[w - 1].0 == d);
                            }
                        }
                        if self.holds(d) {
                            let w = choose|k: int|
                                0 <= k < self.entries@.len() && (#[trigger] self.entries@[k]).0 == d;
                            if w < i {
                                assert(t0.entries@[w].0 == d);
                            } else {
                                assert(t0.entries@[w + 1].0 == d);
                            }
                        }
                    }
                    assert forall|k: int| 0 <= k < self.entries@.len()
                        implies (#[trigger] self.entries@[k]).0 != device by {
                        if k < i {
                            assert(self.entries@[k] == t0.entries@[k]);
                        } else {
                            assert(self.entries@[k] == t0.entries@[k + 1]);
                        }
                    }
                }
                return;
            }
            i = i + 1;
        }
    }
}

/// Exclusion law of the lock table: two jobs racing for one free
/// device, their acquires serialised by the table in either order.
/// `acquire`'s contract fixes each outcome (`ok == !holds` at its turn,
/// a success adds the holder): exactly the first wins and the second is
/// refused at once.
pub proof fn lemma_lock_mutual_exclusion(
    pre: DeviceLockTable,
    mid: DeviceLockTable,
    device: u64,
    ok_a: bool,
    ok_b: bool,
)
    requires
        pre.wf(),
        !pre.holds(device),
        ok_a == !pre.holds(device),
        ok_a ==> mid.holds(device),
        ok_b == !mid.holds(device),
    ensures
        ok_a,
        !ok_b,
{
}

/// The probe yields a record for this device.
pub open spec fn probe_ok(dev: SimDevice) -> bool {
    dev.access_granted && !dev.probe_io_fault && !(dev.class is Unknown)
}

/// A hardware (non-overwrite, non-crypto) erase is available.
pub open spec fn hardware_available(dev: SimDevice) -> bool {
    if dev.class is NVMe {
        dev.nvme.sanitize_supported || dev.nvme.format_supported
    } else {
        dev.ata.supported
    }
}

/// The requested method family passes selection against this device.
pub open spec fn selection_ok(dev: SimDevice, requested: Option<WipeMethod>) -> bool {
    match requested {
        Some(WipeMethod::CryptoErase) => dev.sed.opal_supported,
        Some(WipeMethod::SecureErase) => hardware_available(dev),
        Some(WipeMethod::Overwrite) => true,
        None => true,
    }
}

/// Selection lands on the ATA secure-erase driver, whose frozen and
/// authentication checks precede its cancellation checkpoint.
pub open spec fn picks_ata(dev: SimDevice, requested: Option<WipeMethod>) -> bool {
    match requested {
        Some(WipeMethod::SecureErase) => !(dev.class is NVMe),
        None => !dev.sed.opal_supported && !(dev.class is NVMe) && dev.ata.supported,
        _ => false,
    }
}

/// Selection lands on the NVMe sanitize driver.
pub open spec fn picks_nvme(dev: SimDevice, requested: Option<WipeMethod>) -> bool {
    match requested {
        Some(WipeMethod::SecureErase) => dev.class is NVMe,
        None => !dev.sed.opal_supported && dev.class is NVMe && (dev.nvme.sanitize_supported
            || dev.nvme.format_supported),
        _ => false,
    }
}

/// Selection lands on the crypto-erase driver.
pub open spec fn picks_crypto(dev: SimDevice, requested: Option<WipeMethod>) -> bool {
    match requested {
        Some(WipeMethod::CryptoErase) => true,
        None => dev.sed.opal_supported,
        _ => false,
    }
}

/// The media and fault state the job left equals the state it found.
pub open spec fn device_untouched(pre: SimDevice, post: SimDevice) -> bool {
    &&& pre.same_device_state(post)
    &&& post.data@ =~= pre.data@
    &&& post.write_faults@ =~= pre.write_faults@
    &&& post.flushed == pre.flushed
}

/// Run one erasure job against one device.
///
/// The job acquires the device lock (refusing, not queuing, a held
/// device), probes, selects, dispatches the chosen driver, verifies
/// when asked to, emits the certificate, and releases the lock on
/// every path.  A cancel token set before any pass begins ends the job
/// `Cancelled` with zero bytes written and the device untouched.  A
/// job run without verification completes with a certificate whose
/// verification fields record that none took place (no pass, stride
/// zero).
#[verifier::rlimit(100)]
pub fn run_job(
    locks: &mut DeviceLockTable,
    dev: &mut SimDevice,
    job_id: u64,
    opts: &JobOptions,
    cancel: &CancelToken,
    sink: &mut ProgressSink,
) -> (job: Job)
    requires
        old(locks).wf(),
        old(dev).wf(),
        opts.sample_stride >= 1,
        old(dev).ata_erase_count < u64::MAX,
        old(dev).nvme_sanitize_count < u64::MAX,
        old(dev).sed.key_generation < u64::MAX,
        old(dev).data@.len() <= u64::MAX,
        opts.pattern_override matches Some(p)
            ==> p.wf() && p.passes@.len() * old(dev).data@.len() <= u64::MAX,
    ensures
        final(locks).wf(),
        final(dev).wf(),
        job.id == job_id,
        job.device_identity == old(dev).identity,
        // The lock is released on every path: the table ends as it began.
        forall|d: u64| final(locks).holds(d) == old(locks).holds(d),
        // A held device refuses the job at once.
        old(locks).holds(old(dev).identity)
            ==> (job.outcome matches Outcome::Failed(f) && f == FailReason::LockContention)
                && *final(dev) == *old(dev),
        // Probe failures are terminal, in their stated order.
        !old(locks).holds(old(dev).identity) && !old(dev).access_granted
            ==> (job.outcome matches Outcome::Failed(f)
                && f == FailReason::Probe(ProbeError::PermissionDenied))
                && *final(dev) == *old(dev),
        !old(locks).holds(old(dev).identity) && old(dev).access_granted && old(dev).probe_io_fault
            ==> (job.outcome matches Outcome::Failed(f) && f == FailReason::Probe(ProbeError::Io))
                && *final(dev) == *old(dev),
        !old(locks).holds(old(dev).identity) && old(dev).access_granted
            && !old(dev).probe_io_fault && old(dev).class is Unknown
            ==> (job.outcome matches Outcome::Failed(f)
                && f == FailReason::Probe(ProbeError::Unsupported))
                && *final(dev) == *old(dev),
        // A method the device cannot carry is refused at selection.
        !old(locks).holds(old(dev).identity) && probe_ok(*old(dev))
            && !selection_ok(*old(dev), opts.requested)
            ==> (job.outcome matches Outcome::Failed(f)
                && f == FailReason::Selection(SelectionError::Unsupported))
                && *final(dev) == *old(dev),
        // A token set before any pass begins: cancelled, nothing written.
        !old(locks).holds(old(dev).identity) && probe_ok(*old(dev))
            && selection_ok(*old(dev), opts.requested)
            && (picks_ata(*old(dev), opts.requested)
                ==> !old(dev).ata.frozen
                    && !crate::erasure::ata::ata_auth_blocked(
                        *old(dev), opts.allow_master_password))
            && cancel.fired(0)
            ==> (job.outcome matches Outcome::Cancelled)
                && job.bytes_written == 0
                && device_untouched(*old(dev), *final(dev))
                && final(dev).ata_erase_count == old(dev).ata_erase_count
                && final(dev).nvme_sanitize_count == old(dev).nvme_sanitize_count
                && final(dev).sed == old(dev).sed,
        // A frozen ATA security state is reported, never worked around,
        // and no erase command reaches the device.
        !old(locks).holds(old(dev).identity) && probe_ok(*old(dev))
            && opts.requested == Some(WipeMethod::SecureErase) && !(old(dev).class is NVMe)
            && old(dev).ata.supported && old(dev).ata.frozen
            ==> (job.outcome matches Outcome::Failed(f) && f == FailReason::SecurityFrozen)
                && *final(dev) == *old(dev)
                && final(dev).ata_erase_count == old(dev).ata_erase_count,
        // The ATA path: an unfrozen, authorised, supported device either
        // completes within its derived timeout or the job reports the
        // timeout, the command issued either way and never pretended
        // aborted.
        !old(locks).holds(old(dev).identity) && probe_ok(*old(dev))
            && selection_ok(*old(dev), opts.requested)
            && picks_ata(*old(dev), opts.requested)
            && old(dev).ata.supported && !old(dev).ata.frozen
            && !crate::erasure::ata::ata_auth_blocked(*old(dev), opts.allow_master_password)
            && !cancel.fired(0)
            ==> final(dev).ata_erase_count == old(dev).ata_erase_count + 1
                && (if old(dev).ata.erase_minutes_actual
                    > 2 * (old(dev).ata.erase_minutes_estimate as u32) {
                    job.outcome matches Outcome::Failed(f) && f == FailReason::Timeout
                } else {
                    (job.outcome matches Outcome::Completed(cert)
                        && cert.method == WipeMethod::SecureErase)
                        && final(dev).data@ =~= Seq::new(old(dev).data@.len(), |i: int| 0u8)
                }),
        // The NVMe sanitize path: one command reaches the controller; a
        // failed status or a stuck status log fails the job, an
        // advancing one completes it with the media erased.
        !old(locks).holds(old(dev).identity) && probe_ok(*old(dev))
            && selection_ok(*old(dev), opts.requested)
            && picks_nvme(*old(dev), opts.requested)
            && (old(dev).nvme.sanitize_supported || old(dev).nvme.format_supported)
            && !cancel.fired(0)
            ==> final(dev).nvme_sanitize_count == old(dev).nvme_sanitize_count + 1
                && (if old(dev).nvme.sanitize_will_fail {
                    job.outcome matches Outcome::Failed(f) && f == FailReason::CommandFailed
                } else if old(dev).nvme.sanitize_step_percent == 0 {
                    job.outcome matches Outcome::Failed(f) && f == FailReason::Timeout
                } else {
                    (job.outcome matches Outcome::Completed(cert)
                        && cert.method == WipeMethod::SecureErase)
                        && final(dev).data@ =~= Seq::new(old(dev).data@.len(), |i: int| 0u8)
                }),
        // The crypto-erase path: the supplied credential decides, once;
        // acceptance revokes the key and completes the job.
        !old(locks).holds(old(dev).identity) && probe_ok(*old(dev))
            && selection_ok(*old(dev), opts.requested)
            && picks_crypto(*old(dev), opts.requested)
            && old(dev).sed.opal_supported && !cancel.fired(0)
            ==> (if opts.credential == old(dev).sed.credential {
                (job.outcome matches Outcome::Completed(cert)
                    && cert.method == WipeMethod::CryptoErase)
                    && final(dev).sed.key_generation == old(dev).sed.key_generation + 1
            } else {
                (job.outcome matches Outcome::Failed(f)
                    && f == FailReason::AuthenticationFailed)
                    && final(dev).sed.key_generation == old(dev).sed.key_generation
            }),
        // A verification that did not pass is never downgraded.
        (job.verification matches Some(v) && !v.pass)
            ==> (job.outcome matches Outcome::Failed(f) && f == FailReason::VerificationFailed),
        // A completed job carries a sealed certificate, a passing
        // verification when one was asked for, and the driver's work
        // done in full: the overwrite pass count, or the hardware or
        // key-revocation command the method family names.
        job.outcome matches Outcome::Completed(cert)
            ==> cert_sealed(cert)
                && (opts.verify ==> (job.verification matches Some(v) && v.pass
                    && cert.verification_pass))
                && (cert.method == WipeMethod::Overwrite ==> job.passes_completed == (
                    match opts.pattern_override {
                        Some(p) => p.passes@.len() as u64,
                        None => 1u64,
                    }))
                && (cert.method == WipeMethod::SecureErase
                    ==> final(dev).ata_erase_count + final(dev).nvme_sanitize_count
                        == old(dev).ata_erase_count + old(dev).nvme_sanitize_count + 1)
                && (cert.method == WipeMethod::CryptoErase
                    ==> final(dev).sed.key_generation == old(dev).sed.key_generation + 1),
        // The happy overwrite path: a requested overwrite with the
        // fallback single zero pass, a writable device and no
        // cancellation completes, writes the zero image, and verifies.
        !old(locks).holds(old(dev).identity) && probe_ok(*old(dev))
            && opts.requested == Some(WipeMethod::Overwrite)
            && opts.pattern_override is None
            && all_writable(old(dev).write_faults@)
            && (match cancel.fire_at {
                Some(t) => t >= 1,
                None => true,
            })
            ==> (job.outcome matches Outcome::Completed(cert)
                && cert.method == WipeMethod::Overwrite)
                && job.passes_completed == 1
                && final(dev).data@ =~= Seq::new(old(dev).data@.len(), |i: int| 0u8),
{
    let id = dev.identity;
    let got = locks.acquire(id, job_id);
    if !got {
        return Job {
            id: job_id,
            device_identity: id,
            outcome: Outcome::Failed(FailReason::LockContention),
            passes_completed: 0,
            bytes_written: 0,
            verification: None,
        };
    }
    let record = match probe(dev) {
        Ok(r) => r,
        Err(e) => {
            locks.release(id);
            return Job {
                id: job_id,
                device_identity: id,
                outcome: Outcome::Failed(FailReason::Probe(e)),
                passes_completed: 0,
                bytes_written: 0,
                verification: None,
            };
        }
    };
    let method = match select(&record, opts.requested) {
        Ok(m) => m,
        Err(e) => {
            locks.release(id);
            return Job {
                id: job_id,
                device_identity: id,
                outcome: Outcome::Failed(FailReason::Selection(e)),
                passes_completed: 0,
                bytes_written: 0,
                verification: None,
            };
        }
    };
    proof {
        assert(probe_ok(*dev));
        assert(record.mirrors(*dev));
        if selection_ok(*dev, opts.requested) {
            if picks_ata(*dev, opts.requested) && dev.ata.supported {
                let m0 = EraseMethod::AtaSecureErase { enhanced: record.ata_enhanced_erase };
                assert(hardware_method_of(record) == Some(m0));
                assert(method == m0);
            }
            if picks_nvme(*dev, opts.requested)
                && (dev.nvme.sanitize_supported || dev.nvme.format_supported) {
                assert(record.class is NVMe);
                if record.nvme_sanitize {
                    let m1 = EraseMethod::NvmeSanitize {
                        action: if record.nvme_crypto_erase {
                            SanitizeAction::CryptoScramble
                        } else {
                            SanitizeAction::BlockErase
                        },
                    };
                    assert(hardware_method_of(record) == Some(m1));
                    assert(method == m1);
                } else {
                    let m1 = EraseMethod::NvmeSanitize { action: SanitizeAction::Format };
                    assert(hardware_method_of(record) == Some(m1));
                    assert(method == m1);
                }
            }
            if picks_crypto(*dev, opts.requested) && dev.sed.opal_supported {
                assert(method == crypto_method_of(record));
            }
        }
    }
    let pre_sanitize_count = dev.nvme_sanitize_count;
    let pre_key_generation = dev.sed.key_generation;
    let mut passes: u64 = 0;
    let mut bytes: u64 = 0;
    let step: DriverOutcome = match &method {
        EraseMethod::Overwrite(p) => {
            let pattern: &PatternSpec = match &opts.pattern_override {
                Some(q) => q,
                None => p,
            };
            proof {
                if opts.pattern_override is None {
                    assert(pattern.passes@.len() == 1);
                    assert(pattern.passes@.len() * dev.data@.len() == dev.data@.len());
                }
            }
            let report = run_overwrite(dev, pattern, cancel, sink);
            passes = report.passes_completed;
            bytes = report.bytes_written;
            report.outcome
        }
        EraseMethod::AtaSecureErase { enhanced } => run_ata_erase(
            dev, &record, *enhanced, opts.allow_master_password, cancel, sink).outcome,
        EraseMethod::NvmeSanitize { action } => run_nvme_sanitize(
            dev, &record, *action, cancel, sink).outcome,
        EraseMethod::CryptoErase { .. } => run_crypto_erase(
            dev, &record, opts.credential, cancel, sink),
    };
    match step {
        DriverOutcome::Success => {}
        DriverOutcome::Cancelled => {
            locks.release(id);
            return Job {
                id: job_id,
                device_identity: id,
                outcome: Outcome::Cancelled,
                passes_completed: passes,
                bytes_written: bytes,
                verification: None,
            };
        }
        DriverOutcome::SecurityFrozen => {
            locks.release(id);
            return Job {
                id: job_id,
                device_identity: id,
                outcome: Outcome::Failed(FailReason::SecurityFrozen),
                passes_completed: passes,
                bytes_written: bytes,
                verification: None,
            };
        }
        DriverOutcome::AuthenticationFailed => {
            locks.release(id);
            return Job {
                id: job_id,
                device_identity: id,
                outcome: Outcome::Failed(FailReason::AuthenticationFailed),
                passes_completed: passes,
                bytes_written: bytes,
                verification: None,
            };
        }
        DriverOutcome::CommandFailed => {
            locks.release(id);
            return Job {
                id: job_id,
                device_identity: id,
                outcome: Outcome::Failed(FailReason::CommandFailed),
                passes_completed: passes,
                bytes_written: bytes,
                verification: None,
            };
        }
        DriverOutcome::IoError => {
            locks.release(id);
            return Job {
                id: job_id,
                device_identity: id,
                outcome: Outcome::Failed(FailReason::IoError),
                passes_completed: passes,
                bytes_written: bytes,
                verification: None,
            };
        }
        DriverOutcome::Timeout => {
            locks.release(id);
            return Job {
                id: job_id,
                device_identity: id,
                outcome: Outcome::Failed(FailReason::Timeout),
                passes_completed: passes,
                bytes_written: bytes,
                verification: None,
            };
        }
    }
    let family: WipeMethod = match &method {
        EraseMethod::Overwrite(_) => WipeMethod::Overwrite,
        EraseMethod::AtaSecureErase { .. } => WipeMethod::SecureErase,
        EraseMethod::NvmeSanitize { .. } => WipeMethod::SecureErase,
        EraseMethod::CryptoErase { .. } => WipeMethod::CryptoErase,
    };
    let verification: Option<VerificationResult> = if opts.verify {
        let v = match &method {
            EraseMethod::Overwrite(p) => {
                let pattern: &PatternSpec = match &opts.pattern_override {
                    Some(q) => q,
                    None => p,
                };
                proof {
                    lemma_verify_after_overwrite(
                        dev.data@, *pattern, opts.sample_stride as int);
                }
                verify_overwrite(dev, pattern, &SampleStrategy { stride: opts.sample_stride })
            }
            _ => verify_hardware_erase(dev, &method, pre_sanitize_count, pre_key_generation),
        };
        if !v.pass {
            locks.release(id);
            return Job {
                id: job_id,
                device_identity: id,
                outcome: Outcome::Failed(FailReason::VerificationFailed),
                passes_completed: passes,
                bytes_written: bytes,
                verification: Some(v),
            };
        }
        Some(v)
    } else {
        None
    };
    let vres: VerificationResult = match &verification {
        Some(v) => *v,
        None => VerificationResult {
            method: family,
            stride: 0,
            pass: false,
            discrepancy_count: 0,
            first_discrepancy: None,
        },
    };
    let cert = emit_certificate(&record, family, passes, &vres, opts.started_at, opts.finished_at);
    locks.release(id);
    Job {
        id: job_id,
        device_identity: id,
        outcome: Outcome::Completed(cert),
        passes_completed: passes,
        bytes_written: bytes,
        verification,
    }
}

} // verus!
