use securewipe::caps::probe;
use securewipe::device::SimDevice;
use securewipe::erasure::{CancelToken, DriverOutcome, ProgressSink, ProgressSnapshot};
use securewipe::erasure::ata::run_ata_erase;
use securewipe::erasure::crypto::run_crypto_erase;
use securewipe::erasure::nvme::run_nvme_sanitize;
use securewipe::erasure::overwrite::{run_overwrite, PassKind, PatternSpec};
use securewipe::platform::DeviceType;
use securewipe::registry::SanitizeAction;
use securewipe::verify::{verify_overwrite, SampleStrategy};

fn disk(identity: u64, sectors: u64) -> SimDevice {
    SimDevice::new(identity, DeviceType::HDD, 512, sectors)
}

#[test]
fn dod_pattern_has_exactly_three_passes() {
    let p = PatternSpec::dod_3pass(42);
    assert_eq!(p.passes.len(), 3);
    assert!(matches!(p.passes[0], PassKind::Fixed(0x55)));
    assert!(matches!(p.passes[1], PassKind::Complement));
    assert!(matches!(p.passes[2], PassKind::Random(42)));
}

#[test]
fn gutmann_pattern_has_exactly_thirty_five_passes() {
    let p = PatternSpec::gutmann(7);
    assert_eq!(p.passes.len(), 35);
}

#[test]
fn passes_issued_equal_pattern_length() {
    // DoD: exactly 3 passes issued; Gutmann: exactly 35.
    let mut dev = disk(1, 4);
    let cancel = CancelToken::inactive();
    let mut sink = ProgressSink::new(64);
    let p = PatternSpec::dod_3pass(1);
    let rep = run_overwrite(&mut dev, &p, &cancel, &mut sink);
    assert_eq!(rep.outcome, DriverOutcome::Success);
    assert_eq!(rep.passes_completed, 3);
    assert_eq!(rep.bytes_written, 3 * 2048);

    let mut dev2 = disk(2, 2);
    let g = PatternSpec::gutmann(9);
    let rep2 = run_overwrite(&mut dev2, &g, &cancel, &mut sink);
    assert_eq!(rep2.outcome, DriverOutcome::Success);
    assert_eq!(rep2.passes_completed, 35);
}

#[test]
fn verify_after_overwrite_always_passes() {
    // Round trip: verifying immediately after a successful overwrite
    // with the same strategy reports a pass, for fixed and random
    // final passes alike.
    let cancel = CancelToken::inactive();
    let mut sink = ProgressSink::new(8);
    for pattern in [
        PatternSpec::single_zero(),
        PatternSpec::single_random(0xDEAD),
        PatternSpec::dod_3pass(3),
    ] {
        let mut dev = disk(3, 8);
        let rep = run_overwrite(&mut dev, &pattern, &cancel, &mut sink);
        assert_eq!(rep.outcome, DriverOutcome::Success);
        for stride in [1usize, 7, 512] {
            let v = verify_overwrite(&dev, &pattern, &SampleStrategy { stride });
            assert!(v.pass);
            assert_eq!(v.discrepancy_count, 0);
            assert_eq!(v.first_discrepancy, None);
        }
    }
}

#[test]
fn verify_reports_discrepancies() {
    let mut dev = disk(4, 2);
    for i in 0..dev.data.len() {
        dev.data[i] = 0xAA;
    }
    dev.data[17] = 0;
    let p = {
        let mut passes = Vec::new();
        passes.push(PassKind::Fixed(0xAA));
        PatternSpec { passes }
    };
    let v = verify_overwrite(&dev, &p, &SampleStrategy { stride: 1 });
    assert!(!v.pass);
    assert_eq!(v.discrepancy_count, 1);
    assert_eq!(v.first_discrepancy, Some(17));
}

#[test]
fn frozen_security_state_is_reported_not_retried() {
    // A simulated device reporting frozen == true: the ATA driver
    // returns SecurityFrozen without issuing SECURITY ERASE UNIT.
    let mut dev = disk(5, 4);
    dev.ata.supported = true;
    dev.ata.frozen = true;
    let record = probe(&dev).expect("probe succeeds");
    let cancel = CancelToken::inactive();
    let mut sink = ProgressSink::new(8);
    let r = run_ata_erase(&mut dev, &record, false, false, &cancel, &mut sink);
    assert_eq!(r.outcome, DriverOutcome::SecurityFrozen);
    assert_eq!(dev.ata_erase_count, 0);
}

#[test]
fn locked_device_needs_explicit_authorisation() {
    let mut dev = disk(6, 4);
    dev.ata.supported = true;
    dev.ata.locked = true;
    dev.ata.master_password_usable = true;
    let record = probe(&dev).expect("probe succeeds");
    let cancel = CancelToken::inactive();
    let mut sink = ProgressSink::new(8);
    let r = run_ata_erase(&mut dev, &record, false, false, &cancel, &mut sink);
    assert_eq!(r.outcome, DriverOutcome::AuthenticationFailed);
    assert_eq!(dev.ata_erase_count, 0);
    // With the master password explicitly authorised the erase runs.
    let r2 = run_ata_erase(&mut dev, &record, false, true, &cancel, &mut sink);
    assert_eq!(r2.outcome, DriverOutcome::Success);
    assert!(!r2.enhanced_used);
    assert_eq!(dev.ata_erase_count, 1);
    assert!(dev.ata.enabled && dev.ata.locked);
}

#[test]
fn ata_erase_times_out_on_slow_device() {
    let mut dev = disk(7, 4);
    dev.ata.supported = true;
    dev.ata.erase_minutes_estimate = 10;
    dev.ata.erase_minutes_actual = 21;
    let record = probe(&dev).expect("probe succeeds");
    let cancel = CancelToken::inactive();
    let mut sink = ProgressSink::new(8);
    let r = run_ata_erase(&mut dev, &record, true, false, &cancel, &mut sink);
    assert_eq!(r.outcome, DriverOutcome::Timeout);
    assert!(!r.enhanced_used);
    // The command was issued; a timeout never pretends to abort it.
    assert_eq!(dev.ata_erase_count, 1);
}

#[test]
fn nvme_sanitize_failure_status_is_command_failed() {
    let mut dev = SimDevice::new(8, DeviceType::NVMe, 512, 4);
    dev.nvme.sanitize_supported = true;
    dev.nvme.sanitize_will_fail = true;
    dev.nvme.sanitize_step_percent = 10;
    let record = probe(&dev).expect("probe succeeds");
    let cancel = CancelToken::inactive();
    let mut sink = ProgressSink::new(8);
    let r = run_nvme_sanitize(&mut dev, &record, SanitizeAction::BlockErase, &cancel, &mut sink);
    assert_eq!(r.outcome, DriverOutcome::CommandFailed);
    assert_eq!(dev.nvme_sanitize_count, 1);
}

#[test]
fn nvme_sanitize_polls_to_full_progress() {
    let mut dev = SimDevice::new(9, DeviceType::NVMe, 512, 4);
    dev.nvme.sanitize_supported = true;
    dev.nvme.sanitize_step_percent = 33;
    let record = probe(&dev).expect("probe succeeds");
    let cancel = CancelToken::inactive();
    let mut sink = ProgressSink::new(16);
    let r = run_nvme_sanitize(&mut dev, &record, SanitizeAction::BlockErase, &cancel, &mut sink);
    assert_eq!(r.outcome, DriverOutcome::Success);
    assert_eq!(r.final_progress_percent, 100);
    for s in &sink.snaps {
        assert!(s.units_done <= 100);
    }
}

#[test]
fn crypto_erase_is_instantaneous_protocol_steps() {
    let mut dev = disk(10, 1024);
    dev.sed.opal_supported = true;
    dev.sed.credential = 5;
    let record = probe(&dev).expect("probe succeeds");
    let cancel = CancelToken::inactive();
    let mut sink = ProgressSink::new(16);
    let before = dev.data.clone();
    let r = run_crypto_erase(&mut dev, &record, 5, &cancel, &mut sink);
    assert_eq!(r, DriverOutcome::Success);
    assert_eq!(dev.sed.key_generation, 1);
    // The key is gone; the cells themselves are untouched ciphertext,
    // and progress was a fixed number of steps, not capacity-bound.
    assert_eq!(dev.data, before);
    assert!(sink.snaps.len() <= 3);
}

#[test]
fn cancellation_at_pass_boundary() {
    // The token fires at checkpoint 2: exactly two passes land.
    let mut dev = disk(11, 4);
    let cancel = CancelToken { fire_at: Some(2) };
    let mut sink = ProgressSink::new(8);
    let p = PatternSpec::dod_3pass(1);
    let rep = run_overwrite(&mut dev, &p, &cancel, &mut sink);
    assert_eq!(rep.outcome, DriverOutcome::Cancelled);
    assert_eq!(rep.passes_completed, 2);
    assert_eq!(rep.bytes_written, 2 * 2048);
    // The media carries the second pass's image: the complement of 0x55.
    assert_eq!(dev.data[0], 0xAA);
}

#[test]
fn progress_sink_drops_when_full() {
    let mut sink = ProgressSink::new(1);
    let snap = ProgressSnapshot { phase_index: 0, phase_total: 1, units_done: 1, units_total: 2 };
    sink.report(snap);
    sink.report(ProgressSnapshot { phase_index: 9, phase_total: 9, units_done: 9, units_total: 9 });
    assert_eq!(sink.snaps.len(), 1);
    assert_eq!(sink.snaps[0], snap);
}

#[test]
fn write_faults_consume_retries() {
    let mut dev = disk(12, 1);
    dev.write_faults[3] = 2;
    assert!(!dev.write_byte(3, 0x11));
    assert!(!dev.write_byte(3, 0x11));
    assert!(dev.write_byte(3, 0x11));
    assert_eq!(dev.read_byte(3), 0x11);
    assert!(!dev.flushed);
    dev.flush();
    assert!(dev.flushed);
}

#[test]
fn io_error_logs_the_failing_byte() {
    let mut dev = disk(13, 1);
    dev.write_faults[5] = 4;
    let cancel = CancelToken::inactive();
    let mut sink = ProgressSink::new(8);
    let p = PatternSpec::single_zero();
    let rep = run_overwrite(&mut dev, &p, &cancel, &mut sink);
    assert_eq!(rep.outcome, DriverOutcome::IoError);
    assert_eq!(rep.failed_byte, Some(5));
    assert_eq!(rep.bytes_written, 5);
    assert_eq!(rep.passes_completed, 0);
    // Bytes before the failing one carry the pass; the rest are untouched.
    for i in 0..5 {
        assert_eq!(dev.data[i], 0);
    }
}

#[test]
fn cycle_pass_rotates_its_three_bytes() {
    // The patterned Gutmann passes repeat three bytes across the media.
    let mut dev = disk(14, 1);
    let cancel = CancelToken::inactive();
    let mut sink = ProgressSink::new(8);
    let p = {
        let mut passes = Vec::new();
        passes.push(PassKind::Cycle(0x92, 0x49, 0x24));
        PatternSpec { passes }
    };
    let rep = run_overwrite(&mut dev, &p, &cancel, &mut sink);
    assert_eq!(rep.outcome, DriverOutcome::Success);
    for i in 0..dev.data.len() {
        let expected = [0x92, 0x49, 0x24][i % 3];
        assert_eq!(dev.data[i], expected);
    }
    let v = verify_overwrite(&dev, &p, &SampleStrategy { stride: 5 });
    assert!(v.pass);
}

#[test]
fn progress_reports_never_run_backwards() {
    let mut dev = disk(15, 512);
    let cancel = CancelToken::inactive();
    let mut sink = ProgressSink::new(64);
    let p = PatternSpec::dod_3pass(4);
    let rep = run_overwrite(&mut dev, &p, &cancel, &mut sink);
    assert_eq!(rep.outcome, DriverOutcome::Success);
    for w in sink.snaps.windows(2) {
        assert!(
            w[0].phase_index < w[1].phase_index
                || (w[0].phase_index == w[1].phase_index && w[0].units_done <= w[1].units_done)
        );
    }
}
