//! Shared interface of the erasure method drivers: the terminal outcome
//! a driver reports, the cooperative cancel token, and the bounded,
//! drop-on-overflow progress sink.

use vstd::prelude::*;

pub mod ata;
pub mod crypto;
pub mod nvme;
pub mod overwrite;

verus! {

/// Terminal outcome of one driver invocation.
#[derive(Debug, Clone, Copy, PartialEq, Eq, Structural)]
pub enum DriverOutcome {
    /// All required passes or protocol commands completed.
    Success,
    /// ATA security is frozen; resolution needs a power cycle, not a retry.
    SecurityFrozen,
    /// The supplied credential was rejected; no further attempt is made.
    AuthenticationFailed,
    /// The device reported a failed command status.
    CommandFailed,
    /// A write kept failing beyond the bounded retry count.
    IoError,
    /// The hardware command overran its derived timeout.
    Timeout,
    /// The cancel token fired at a checkpoint.
    Cancelled,
}

/// Cooperative cancellation.  The token models an external observer that
/// requests cancellation at a fixed checkpoint: drivers keep a checkpoint
/// clock and ask the token at each defined checkpoint whether it has
/// fired.  A token with `fire_at == None` never fires.
#[derive(Debug, Clone, Copy, PartialEq, Eq, Structural)]
pub struct CancelToken {
    pub fire_at: Option<u64>,
}

impl CancelToken {
    /// A token that never requests cancellation.
    pub fn inactive() -> (t: CancelToken)
        ensures
            t.fire_at is None,
            forall|now: u64| !t.fired(now),
    {
        CancelToken { fire_at: None }
    }

    /// A token already set before the job starts.
    pub fn set_immediately() -> (t: CancelToken)
        ensures
            forall|now: u64| t.fired(now),
    {
        CancelToken { fire_at: Some(0) }
    }

    /// Whether the token is observed as set at checkpoint `now`.
    pub open spec fn fired(self, now: u64) -> bool {
        match self.fire_at {
            Some(t) => now >= t,
            None => false,
        }
    }

    /// Poll the token at checkpoint `now`.
    pub fn is_fired(&self, now: u64) -> (c: bool)
        ensures
            c == self.fired(now),
    {
        match self.fire_at {
            Some(t) => now >= t,
            None => false,
        }
    }
}

/// One progress report: how far the current phase has come.
#[derive(Debug, Clone, Copy, PartialEq, Eq, Structural)]
pub struct ProgressSnapshot {
    /// Passes done (overwrite) or protocol steps done (hardware erase).
    pub phase_index: u64,
    pub phase_total: u64,
    /// Units done within the phase: bytes for overwrite, percent for a
    /// polled sanitize, protocol steps for crypto-erase.
    pub units_done: u64,
    pub units_total: u64,
}

/// Bounded progress sink.  Reporting never blocks the erase: when the
/// sink is full the snapshot is dropped.
pub struct ProgressSink {
    pub snaps: Vec<ProgressSnapshot>,
    pub capacity: usize,
}

impl ProgressSink {
    pub fn new(capacity: usize) -> (s: ProgressSink)
        ensures
            s.snaps@ =~= Seq::<ProgressSnapshot>::empty(),
            s.capacity == capacity,
    {
        ProgressSink { snaps: Vec::new(), capacity }
    }

    /// Deliver one snapshot: appended while there is room, dropped
    /// otherwise — a slow observer never backpressures the erase.
    pub fn report(&mut self, snap: ProgressSnapshot)
        ensures
            final(self).capacity == old(self).capacity,
            old(self).snaps.len() < old(self).capacity ==>
                final(self).snaps@ =~= old(self).snaps@.push(snap),
            old(self).snaps.len() >= old(self).capacity ==>
                final(self).snaps@ =~= old(self).snaps@,
    {
        if self.snaps.len() < self.capacity {
            self.snaps.push(snap);
        }
    }
}

} // verus!
