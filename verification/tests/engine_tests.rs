use securewipe::caps::{probe, ProbeError};
use securewipe::cert::fnv1a_hash;
use securewipe::device::SimDevice;
use securewipe::engine::{DeviceLockTable, FailReason, JobOptions, Outcome, run_job};
use securewipe::erasure::{CancelToken, ProgressSink};
use securewipe::platform::{DeviceType, WipeMethod};

fn default_opts() -> JobOptions {
    JobOptions {
        requested: None,
        pattern_override: None,
        verify: true,
        allow_master_password: false,
        credential: 0,
        sample_stride: 4096,
        started_at: 1000,
        finished_at: 2000,
    }
}

fn mock_disk(identity: u64) -> SimDevice {
    SimDevice::new(identity, DeviceType::HDD, 512, 1000)
}

#[test]
fn overwrite_job_completes_with_certificate() {
    // A mock 1,000-sector device, single zero-pass overwrite selected:
    // the job completes, every sampled byte is zero, and the
    // certificate records the method and the passing verification.
    let mut locks = DeviceLockTable::new();
    let mut dev = mock_disk(7);
    for i in 0..dev.data.len() {
        dev.data[i] = 0xA5;
    }
    let cancel = CancelToken::inactive();
    let mut sink = ProgressSink::new(64);
    let mut opts = default_opts();
    opts.requested = Some(WipeMethod::Overwrite);
    let job = run_job(&mut locks, &mut dev, 1, &opts, &cancel, &mut sink);
    match job.outcome {
        Outcome::Completed(cert) => {
            assert_eq!(cert.method, WipeMethod::Overwrite);
            assert!(cert.verification_pass);
            assert_eq!(cert.passes, 1);
            assert_eq!(cert.started_at, 1000);
            assert_eq!(cert.finished_at, 2000);
        }
        _ => panic!("job did not complete"),
    }
    assert_eq!(job.passes_completed, 1);
    assert_eq!(job.bytes_written, 512_000);
    let v = job.verification.expect("verification requested");
    assert!(v.pass);
    assert_eq!(v.discrepancy_count, 0);
    for i in 0..dev.data.len() {
        assert_eq!(dev.data[i], 0);
    }
}

#[test]
fn cancel_before_first_pass_writes_nothing() {
    // A token set before any pass begins: the job ends Cancelled with
    // zero bytes written and the lock released.
    let mut locks = DeviceLockTable::new();
    let mut dev = mock_disk(9);
    for i in 0..dev.data.len() {
        dev.data[i] = 0x77;
    }
    let cancel = CancelToken::set_immediately();
    let mut sink = ProgressSink::new(8);
    let mut opts = default_opts();
    opts.requested = Some(WipeMethod::Overwrite);
    let job = run_job(&mut locks, &mut dev, 2, &opts, &cancel, &mut sink);
    assert!(matches!(job.outcome, Outcome::Cancelled));
    assert_eq!(job.bytes_written, 0);
    for i in 0..dev.data.len() {
        assert_eq!(dev.data[i], 0x77);
    }
    // The lock is free again: a fresh job acquires it.
    assert!(locks.acquire(9, 99));
}

#[test]
fn lock_contention_refuses_second_job() {
    // Two jobs against the same device identity: exactly one acquires
    // the lock, the other fails with LockContention at once.
    let mut locks = DeviceLockTable::new();
    assert!(locks.acquire(5, 1));
    assert!(!locks.acquire(5, 2));
    let mut dev = mock_disk(5);
    let cancel = CancelToken::inactive();
    let mut sink = ProgressSink::new(8);
    let opts = default_opts();
    let job = run_job(&mut locks, &mut dev, 2, &opts, &cancel, &mut sink);
    assert!(matches!(job.outcome, Outcome::Failed(FailReason::LockContention)));
    // The holder releases; the device can be worked on again.
    locks.release(5);
    assert!(locks.acquire(5, 2));
}

#[test]
fn nvme_sanitize_job_completes() {
    // A mock NVMe device advertising sanitize with crypto-erase: the
    // driver issues the command, polls the status log to completion,
    // and the job completes.
    let mut locks = DeviceLockTable::new();
    let mut dev = SimDevice::new(11, DeviceType::NVMe, 512, 64);
    dev.nvme.sanitize_supported = true;
    dev.nvme.crypto_erase_supported = true;
    dev.nvme.sanitize_step_percent = 25;
    for i in 0..dev.data.len() {
        dev.data[i] = 0xFF;
    }
    let cancel = CancelToken::inactive();
    let mut sink = ProgressSink::new(16);
    let mut opts = default_opts();
    opts.requested = Some(WipeMethod::SecureErase);
    let job = run_job(&mut locks, &mut dev, 3, &opts, &cancel, &mut sink);
    match job.outcome {
        Outcome::Completed(cert) => {
            assert_eq!(cert.method, WipeMethod::SecureErase);
            assert!(cert.verification_pass);
        }
        _ => panic!("sanitize job did not complete"),
    }
    assert_eq!(dev.nvme_sanitize_count, 1);
    for i in 0..dev.data.len() {
        assert_eq!(dev.data[i], 0);
    }
    // The polled progress reached 100 percent.
    let last = sink.snaps.last().expect("progress was reported");
    assert_eq!(last.units_done, 100);
    assert_eq!(last.units_total, 100);
}

#[test]
fn crypto_erase_job_revokes_key() {
    let mut locks = DeviceLockTable::new();
    let mut dev = SimDevice::new(13, DeviceType::SSD, 512, 64);
    dev.sed.opal_supported = true;
    dev.sed.locking_range_count = 2;
    dev.sed.credential = 0xC0DE;
    let cancel = CancelToken::inactive();
    let mut sink = ProgressSink::new(16);
    let mut opts = default_opts();
    opts.requested = Some(WipeMethod::CryptoErase);
    opts.credential = 0xC0DE;
    let job = run_job(&mut locks, &mut dev, 4, &opts, &cancel, &mut sink);
    assert!(matches!(job.outcome, Outcome::Completed(_)));
    assert_eq!(dev.sed.key_generation, 1);
}

#[test]
fn crypto_erase_wrong_credential_fails_once() {
    let mut locks = DeviceLockTable::new();
    let mut dev = SimDevice::new(14, DeviceType::SSD, 512, 64);
    dev.sed.opal_supported = true;
    dev.sed.credential = 0xC0DE;
    let cancel = CancelToken::inactive();
    let mut sink = ProgressSink::new(16);
    let mut opts = default_opts();
    opts.requested = Some(WipeMethod::CryptoErase);
    opts.credential = 0xBAD;
    let job = run_job(&mut locks, &mut dev, 5, &opts, &cancel, &mut sink);
    assert!(matches!(job.outcome, Outcome::Failed(FailReason::AuthenticationFailed)));
    assert_eq!(dev.sed.key_generation, 0);
}

#[test]
fn probe_failures_are_terminal() {
    let mut dev = mock_disk(20);
    dev.access_granted = false;
    assert!(matches!(probe(&dev), Err(ProbeError::PermissionDenied)));
    dev.access_granted = true;
    dev.probe_io_fault = true;
    assert!(matches!(probe(&dev), Err(ProbeError::Io)));
    dev.probe_io_fault = false;
    dev.class = DeviceType::Unknown;
    assert!(matches!(probe(&dev), Err(ProbeError::Unsupported)));
    dev.class = DeviceType::HDD;
    let rec = probe(&dev).expect("probe succeeds");
    assert_eq!(rec.sector_count, 1000);
    assert_eq!(rec.sector_size, 512);
    assert!(!rec.sed_supported);
}

#[test]
fn probe_error_job_fails_and_releases_lock() {
    let mut locks = DeviceLockTable::new();
    let mut dev = mock_disk(21);
    dev.probe_io_fault = true;
    let cancel = CancelToken::inactive();
    let mut sink = ProgressSink::new(8);
    let opts = default_opts();
    let job = run_job(&mut locks, &mut dev, 6, &opts, &cancel, &mut sink);
    assert!(matches!(
        job.outcome,
        Outcome::Failed(FailReason::Probe(ProbeError::Io))
    ));
    assert!(locks.acquire(21, 7));
}

#[test]
fn io_error_after_retry_budget_exhausted() {
    // One byte keeps failing beyond the bounded retry count: the whole
    // job fails with IoError instead of reporting a partial erase as
    // success.
    let mut locks = DeviceLockTable::new();
    let mut dev = SimDevice::new(30, DeviceType::HDD, 512, 4);
    dev.write_faults[100] = 4;
    let cancel = CancelToken::inactive();
    let mut sink = ProgressSink::new(8);
    let mut opts = default_opts();
    opts.requested = Some(WipeMethod::Overwrite);
    let job = run_job(&mut locks, &mut dev, 8, &opts, &cancel, &mut sink);
    assert!(matches!(job.outcome, Outcome::Failed(FailReason::IoError)));
    assert_eq!(job.passes_completed, 0);
}

#[test]
fn transient_faults_within_budget_are_retried() {
    let mut locks = DeviceLockTable::new();
    let mut dev = SimDevice::new(31, DeviceType::HDD, 512, 4);
    dev.write_faults[0] = 3;
    dev.write_faults[77] = 2;
    let cancel = CancelToken::inactive();
    let mut sink = ProgressSink::new(8);
    let mut opts = default_opts();
    opts.requested = Some(WipeMethod::Overwrite);
    let job = run_job(&mut locks, &mut dev, 9, &opts, &cancel, &mut sink);
    assert!(matches!(job.outcome, Outcome::Completed(_)));
    assert_eq!(dev.data[0], 0);
    assert_eq!(dev.data[77], 0);
}

#[test]
fn certificate_digest_seals_the_fields() {
    let mut locks = DeviceLockTable::new();
    let mut dev = SimDevice::new(40, DeviceType::HDD, 512, 4);
    dev.model = String::from("M");
    dev.serial = String::from("S");
    dev.vendor = String::from("V");
    let cancel = CancelToken::inactive();
    let mut sink = ProgressSink::new(8);
    let mut opts = default_opts();
    opts.requested = Some(WipeMethod::Overwrite);
    opts.sample_stride = 1;
    opts.started_at = 5;
    opts.finished_at = 6;
    let job = run_job(&mut locks, &mut dev, 10, &opts, &cancel, &mut sink);
    let cert = match job.outcome {
        Outcome::Completed(c) => c,
        _ => panic!("job did not complete"),
    };
    // Rebuild the sealed byte encoding by hand and hash it.
    let mut payload: Vec<u8> = Vec::new();
    payload.extend_from_slice(b"M\0S\0V\0");
    payload.push(1); // overwrite method tag
    payload.push(1); // verification passed
    payload.extend_from_slice(&1u64.to_le_bytes()); // passes
    payload.extend_from_slice(&1u64.to_le_bytes()); // stride
    payload.extend_from_slice(&5u64.to_le_bytes());
    payload.extend_from_slice(&6u64.to_le_bytes());
    assert_eq!(cert.digest, fnv1a_hash(&payload));
}

#[test]
fn frozen_device_job_fails_without_erase_command() {
    let mut locks = DeviceLockTable::new();
    let mut dev = mock_disk(50);
    dev.ata.supported = true;
    dev.ata.frozen = true;
    let cancel = CancelToken::inactive();
    let mut sink = ProgressSink::new(8);
    let mut opts = default_opts();
    opts.requested = Some(WipeMethod::SecureErase);
    let job = run_job(&mut locks, &mut dev, 11, &opts, &cancel, &mut sink);
    assert!(matches!(job.outcome, Outcome::Failed(FailReason::SecurityFrozen)));
    assert_eq!(dev.ata_erase_count, 0);
    assert!(locks.acquire(50, 12));
}

#[test]
fn unsupported_request_fails_at_selection() {
    let mut locks = DeviceLockTable::new();
    let mut dev = mock_disk(51);
    let cancel = CancelToken::inactive();
    let mut sink = ProgressSink::new(8);
    let mut opts = default_opts();
    opts.requested = Some(WipeMethod::CryptoErase);
    let job = run_job(&mut locks, &mut dev, 13, &opts, &cancel, &mut sink);
    assert!(matches!(
        job.outcome,
        Outcome::Failed(FailReason::Selection(
            securewipe::registry::SelectionError::Unsupported
        ))
    ));
    assert!(locks.acquire(51, 14));
}
