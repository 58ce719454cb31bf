//! Pattern-based overwrite driver.
//!
//! A pattern-spec is an ordered sequence of pass definitions: a fixed
//! byte, the complement of the preceding fixed byte, a repeating
//! three-byte pattern, or a seeded pseudo-random fill.  Each pass writes the media from the first byte
//! to the last; a full flush follows each pass, so a reported pass
//! completion implies durability.  The cancel token is polled at pass
//! boundaries; transient write faults are retried up to the bounded
//! count and only then fail the whole job.

use vstd::prelude::*;
use crate::device::{SimDevice, WRITE_RETRY_LIMIT};
use crate::erasure::{CancelToken, DriverOutcome, ProgressSink, ProgressSnapshot};

verus! {

/// Multiplier of the Lehmer pseudo-random generator behind random fills.
pub const LEHMER_MULTIPLIER: u64 = 48271;

/// Modulus of the Lehmer generator (a Mersenne prime).
pub const LEHMER_MODULUS: u64 = 0x7FFF_FFFF;

/// Bytes written between two progress reports within one pass.
pub const PROGRESS_CHUNK_BYTES: usize = 65536;

/// One pass of a pattern-spec.
#[derive(Debug, Clone, Copy, PartialEq, Eq, Structural)]
pub enum PassKind {
    /// Write this byte everywhere.
    Fixed(u8),
    /// Write the bitwise complement of the preceding fixed pass's byte.
    Complement,
    /// Write these three bytes, repeating from the first media byte on.
    Cycle(u8, u8, u8),
    /// Write a pseudo-random stream grown from this seed.
    Random(u64),
}

/// A pass with its complement resolved: what actually lands on the media.
#[derive(Debug, Clone, Copy, PartialEq, Eq, Structural)]
pub enum Fill {
    Byte(u8),
    Cycle(u8, u8, u8),
    Stream(u64),
}

/// An ordered sequence of overwrite passes.
#[derive(Debug, Clone)]
pub struct PatternSpec {
    pub passes: Vec<PassKind>,
}

/// The Lehmer generator state after `n` steps from `seed`.
pub open spec fn lehmer(seed: u64, n: nat) -> int
    decreases n,
{
    if n == 0 {
        seed as int % (LEHMER_MODULUS - 1) + 1
    } else {
        (LEHMER_MULTIPLIER * lehmer(seed, (n - 1) as nat)) % (LEHMER_MODULUS as int)
    }
}

pub proof fn lemma_lehmer_bound(seed: u64, n: nat)
    ensures
        0 <= lehmer(seed, n) < LEHMER_MODULUS,
    decreases n,
{
    if n > 0 {
        lemma_lehmer_bound(seed, (n - 1) as nat);
    }
}

/// Byte `j` of the pseudo-random stream grown from `seed`.
pub open spec fn rand_byte(seed: u64, j: int) -> u8 {
    (lehmer(seed, (j + 1) as nat) % 256) as u8
}

/// The byte a resolved fill puts at media index `j`.
pub open spec fn fill_byte(fill: Fill, j: int) -> u8 {
    match fill {
        Fill::Byte(b) => b,
        Fill::Cycle(a, b, c) => if j % 3 == 0 {
            a
        } else if j % 3 == 1 {
            b
        } else {
            c
        },
        Fill::Stream(seed) => rand_byte(seed, j),
    }
}

/// Resolution of pass `k` of a pattern to the fill it writes.
pub open spec fn fill_of(passes: Seq<PassKind>, k: int) -> Fill {
    match passes[k] {
        PassKind::Fixed(b) => Fill::Byte(b),
        PassKind::Cycle(a, b, c) => Fill::Cycle(a, b, c),
        PassKind::Random(seed) => Fill::Stream(seed),
        PassKind::Complement => match passes[k - 1] {
            PassKind::Fixed(b) => Fill::Byte((255 - b) as u8),
            _ => Fill::Byte(0),
        },
    }
}

impl PatternSpec {
    /// A pattern is well-formed when it has at least one pass and every
    /// complement pass directly follows a fixed pass.
    pub open spec fn wf(self) -> bool {
        &&& self.passes.len() >= 1
        &&& forall|k: int| 0 <= k < self.passes.len() && (#[trigger] self.passes@[k]) is Complement
            ==> k > 0 && self.passes@[k - 1] is Fixed
    }

    /// The byte pass `k` of this pattern puts at media index `j`.
    pub open spec fn pass_byte(self, k: int, j: int) -> u8 {
        fill_byte(fill_of(self.passes@, k), j)
    }

    /// Media content once pass `k` has fully landed.
    pub open spec fn pass_image(self, k: int, len: nat) -> Seq<u8> {
        Seq::new(len, |j: int| self.pass_byte(k, j))
    }

    /// Single zero pass.
    pub fn single_zero() -> (p: PatternSpec)
        ensures
            p.wf(),
            p.passes@ =~= seq![PassKind::Fixed(0u8)],
    {
        let mut passes: Vec<PassKind> = Vec::new();
        passes.push(PassKind::Fixed(0u8));
        PatternSpec { passes }
    }

    /// Single pseudo-random pass.
    pub fn single_random(seed: u64) -> (p: PatternSpec)
        ensures
            p.wf(),
            p.passes@ =~= seq![PassKind::Random(seed)],
    {
        let mut passes: Vec<PassKind> = Vec::new();
        passes.push(PassKind::Random(seed));
        PatternSpec { passes }
    }

    /// DoD 5220.22-M: a fixed character, its complement, then a random
    /// fill — exactly three passes.
    pub fn dod_3pass(seed: u64) -> (p: PatternSpec)
        ensures
            p.wf(),
            p.passes@ =~= seq![
                PassKind::Fixed(0x55u8),
                PassKind::Complement,
                PassKind::Random(seed),
            ],
            p.passes.len() == 3,
    {
        let mut passes: Vec<PassKind> = Vec::new();
        passes.push(PassKind::Fixed(0x55u8));
        passes.push(PassKind::Complement);
        passes.push(PassKind::Random(seed));
        PatternSpec { passes }
    }

    /// The Gutmann sequence as built by `gutmann`: four random passes,
    /// the twenty-seven patterned passes (single bytes and the
    /// three-byte rotations), four more random passes.
    pub open spec fn gutmann_seq(seed: u64) -> Seq<PassKind> {
        seq![
            PassKind::Random(seed ^ 0), PassKind::Random(seed ^ 1),
            PassKind::Random(seed ^ 2), PassKind::Random(seed ^ 3),
            PassKind::Fixed(0x55u8), PassKind::Fixed(0xAAu8),
            PassKind::Cycle(0x92u8, 0x49u8, 0x24u8), PassKind::Cycle(0x49u8, 0x24u8, 0x92u8),
            PassKind::Cycle(0x24u8, 0x92u8, 0x49u8),
            PassKind::Fixed(0x00u8), PassKind::Fixed(0x11u8), PassKind::Fixed(0x22u8),
            PassKind::Fixed(0x33u8), PassKind::Fixed(0x44u8), PassKind::Fixed(0x55u8),
            PassKind::Fixed(0x66u8), PassKind::Fixed(0x77u8), PassKind::Fixed(0x88u8),
            PassKind::Fixed(0x99u8), PassKind::Fixed(0xAAu8), PassKind::Fixed(0xBBu8),
            PassKind::Fixed(0xCCu8), PassKind::Fixed(0xDDu8), PassKind::Fixed(0xEEu8),
            PassKind::Fixed(0xFFu8),
            PassKind::Cycle(0x92u8, 0x49u8, 0x24u8), PassKind::Cycle(0x49u8, 0x24u8, 0x92u8),
            PassKind::Cycle(0x24u8, 0x92u8, 0x49u8), PassKind::Cycle(0x6Du8, 0xB6u8, 0xDBu8),
            PassKind::Cycle(0xB6u8, 0xDBu8, 0x6Du8), PassKind::Cycle(0xDBu8, 0x6Du8, 0xB6u8),
            PassKind::Random(seed ^ 4), PassKind::Random(seed ^ 5),
            PassKind::Random(seed ^ 6), PassKind::Random(seed ^ 7),
        ]
    }

    /// The Gutmann method — exactly thirty-five passes.
    pub fn gutmann(seed: u64) -> (p: PatternSpec)
        ensures
            p.wf(),
            p.passes@ =~= PatternSpec::gutmann_seq(seed),
            p.passes.len() == 35,
    {
        let mut passes: Vec<PassKind> = Vec::new();
        passes.push(PassKind::Random(seed ^ 0));
        passes.push(PassKind::Random(seed ^ 1));
        passes.push(PassKind::Random(seed ^ 2));
        passes.push(PassKind::Random(seed ^ 3));
        passes.push(PassKind::Fixed(0x55u8));
        passes.push(PassKind::Fixed(0xAAu8));
        passes.push(PassKind::Cycle(0x92u8, 0x49u8, 0x24u8));
        passes.push(PassKind::Cycle(0x49u8, 0x24u8, 0x92u8));
        passes.push(PassKind::Cycle(0x24u8, 0x92u8, 0x49u8));
        passes.push(PassKind::Fixed(0x00u8));
        passes.push(PassKind::Fixed(0x11u8));
        passes.push(PassKind::Fixed(0x22u8));
        passes.push(PassKind::Fixed(0x33u8));
        passes.push(PassKind::Fixed(0x44u8));
        passes.push(PassKind::Fixed(0x55u8));
        passes.push(PassKind::Fixed(0x66u8));
        passes.push(PassKind::Fixed(0x77u8));
        passes.push(PassKind::Fixed(0x88u8));
        passes.push(PassKind::Fixed(0x99u8));
        passes.push(PassKind::Fixed(0xAAu8));
        passes.push(PassKind::Fixed(0xBBu8));
        passes.push(PassKind::Fixed(0xCCu8));
        passes.push(PassKind::Fixed(0xDDu8));
        passes.push(PassKind::Fixed(0xEEu8));
        passes.push(PassKind::Fixed(0xFFu8));
        passes.push(PassKind::Cycle(0x92u8, 0x49u8, 0x24u8));
        passes.push(PassKind::Cycle(0x49u8, 0x24u8, 0x92u8));
        passes.push(PassKind::Cycle(0x24u8, 0x92u8, 0x49u8));
        passes.push(PassKind::Cycle(0x6Du8, 0xB6u8, 0xDBu8));
        passes.push(PassKind::Cycle(0xB6u8, 0xDBu8, 0x6Du8));
        passes.push(PassKind::Cycle(0xDBu8, 0x6Du8, 0xB6u8));
        passes.push(PassKind::Random(seed ^ 4));
        passes.push(PassKind::Random(seed ^ 5));
        passes.push(PassKind::Random(seed ^ 6));
        passes.push(PassKind::Random(seed ^ 7));
        PatternSpec { passes }
    }
}

/// Every byte's transient-fault budget is within the retry bound, so a
/// full pass over this fault table succeeds.
pub open spec fn all_writable(faults: Seq<u8>) -> bool {
    forall|i: int| 0 <= i < faults.len() ==> faults[i] <= WRITE_RETRY_LIMIT
}

/// The checkpoint, if any, at which the token fires while `n` pass
/// boundaries are still to be observed.
pub open spec fn first_fired_checkpoint(cancel: CancelToken, n: int) -> Option<int> {
    match cancel.fire_at {
        Some(t) => if t < n { Some(t as int) } else { None },
        None => None,
    }
}

/// What one overwrite invocation did.
#[derive(Debug, Clone, Copy, PartialEq, Eq, Structural)]
pub struct OverwriteReport {
    pub outcome: DriverOutcome,
    /// Write passes fully issued and flushed.
    pub passes_completed: u64,
    pub bytes_written: u64,
    /// The media index whose write exhausted its retries, when one did.
    pub failed_byte: Option<u64>,
}

/// Write `b` at index `i`, retrying a transient fault up to the bounded
/// count; beyond the bound the write is abandoned.
#[verifier::loop_isolation(false)]
fn write_with_retry(dev: &mut SimDevice, i: usize, b: u8) -> (ok: bool)
    requires
        old(dev).wf(),
        i < old(dev).data.len(),
    ensures
        final(dev).wf(),
        old(dev).same_device_state(*final(dev)),
        !final(dev).flushed,
        ok <==> old(dev).write_faults@[i as int] <= WRITE_RETRY_LIMIT,
        ok ==> final(dev).data@ =~= old(dev).data@.update(i as int, b)
            && final(dev).write_faults@ =~= old(dev).write_faults@.update(i as int, 0u8),
        !ok ==> final(dev).data@ =~= old(dev).data@
            && final(dev).write_faults@ =~= old(dev).write_faults@.update(
                i as int,
                (old(dev).write_faults@[i as int] - 1 - WRITE_RETRY_LIMIT) as u8,
            ),
{
    let ghost dev0 = *dev;
    let mut tries: u8 = 0;
    while tries <= WRITE_RETRY_LIMIT
        invariant
            dev.wf(),
            dev0.wf(),
            dev0.same_device_state(*dev),
            i < dev.data.len(),
            i < dev0.write_faults.len(),
            tries <= WRITE_RETRY_LIMIT + 1,
            tries <= dev0.write_faults@[i as int],
            tries > 0 ==> !dev.flushed,
            dev.data@ =~= dev0.data@,
            dev.write_faults@ =~= dev0.write_faults@.update(
                i as int, (dev0.write_faults@[i as int] - tries) as u8),
        decreases WRITE_RETRY_LIMIT + 1 - tries,
    {
        let ok = dev.write_byte(i, b);
        if ok {
            proof {
                assert(dev0.write_faults@[i as int] == tries);
                assert(dev.write_faults@ =~= dev0.write_faults@.update(i as int, 0u8));
            }
            return true;
        }
        tries = tries + 1;
    }
    false
}

/// One full pass over the media with the given fill.
///
/// Returns `None` when every byte landed (and the media was flushed), or
/// `Some(j)` when byte `j` exhausted its retries: bytes before `j` carry
/// the fill, bytes from `j` on are untouched.
#[verifier::loop_isolation(false)]
fn write_pass(
    dev: &mut SimDevice,
    fill: Fill,
    pass_index: u64,
    passes_total: u64,
    sink: &mut ProgressSink,
) -> (r: Option<usize>)
    requires
        old(dev).wf(),
    ensures
        final(dev).wf(),
        old(dev).same_device_state(*final(dev)),
        final(dev).data.len() == old(dev).data.len(),
        final(sink).capacity == old(sink).capacity,
        final(sink).snaps@.len() >= old(sink).snaps@.len(),
        final(sink).snaps@.subrange(0, old(sink).snaps@.len() as int) =~= old(sink).snaps@,
        forall|a: int|
            old(sink).snaps@.len() <= a < final(sink).snaps@.len()
                ==> (#[trigger] final(sink).snaps@[a]).phase_index == pass_index
                    && final(sink).snaps@[a].phase_total == passes_total
                    && final(sink).snaps@[a].units_total == old(dev).data@.len()
                    && final(sink).snaps@[a].units_done <= final(sink).snaps@[a].units_total,
        forall|a: int, b: int|
            old(sink).snaps@.len() <= a <= b < final(sink).snaps@.len()
                ==> (#[trigger] final(sink).snaps@[a]).units_done
                    <= (#[trigger] final(sink).snaps@[b]).units_done,
        (r is None) <==> all_writable(old(dev).write_faults@),
        r is None ==> final(dev).data@ =~= Seq::new(old(dev).data@.len(), |j: int| fill_byte(fill, j))
            && final(dev).write_faults@ =~= Seq::new(old(dev).data@.len(), |j: int| 0u8)
            && final(dev).flushed,
        r matches Some(j) ==> 0 <= j < old(dev).data.len()
            && old(dev).write_faults@[j as int] > WRITE_RETRY_LIMIT
            && (forall|i: int| 0 <= i < j ==> old(dev).write_faults@[i] <= WRITE_RETRY_LIMIT)
            && final(dev).data@ =~= Seq::new(
                old(dev).data@.len(),
                |i: int| if i < j { fill_byte(fill, i) } else { old(dev).data@[i] },
            ),
{
    let ghost dev0 = *dev;
    let ghost sink0 = *sink;
    let len = dev.data.len();
    let mut x: u64 = match fill {
        Fill::Byte(_) => 0,
        Fill::Cycle(..) => 0,
        Fill::Stream(seed) => seed % (LEHMER_MODULUS - 1) + 1,
    };
    let mut j: usize = 0;
    while j < len
        invariant
            dev.wf(),
            dev0.wf(),
            dev0.same_device_state(*dev),
            len == dev.data.len(),
            len == dev0.data.len(),
            len == dev0.write_faults.len(),
            j <= len,
            sink.capacity == sink0.capacity,
            sink.snaps@.len() >= sink0.snaps@.len(),
            sink.snaps@.subrange(0, sink0.snaps@.len() as int) =~= sink0.snaps@,
            forall|a: int|
                sink0.snaps@.len() <= a < sink.snaps@.len()
                    ==> (#[trigger] sink.snaps@[a]).phase_index == pass_index
                        && sink.snaps@[a].phase_total == passes_total
                        && sink.snaps@[a].units_total == len
                        && sink.snaps@[a].units_done <= j,
            forall|a: int, b: int|
                sink0.snaps@.len() <= a <= b < sink.snaps@.len()
                    ==> (#[trigger] sink.snaps@[a]).units_done
                        <= (#[trigger] sink.snaps@[b]).units_done,
            forall|i: int| 0 <= i < j ==> dev.data@[i] == fill_byte(fill, i),
            forall|i: int| 0 <= i < j ==> dev.write_faults@[i] == 0,
            forall|i: int| 0 <= i < j ==> dev0.write_faults@[i] <= WRITE_RETRY_LIMIT,
            forall|i: int| j <= i < len ==> dev.data@[i] == dev0.data@[i],
            forall|i: int| j <= i < len ==> dev.write_faults@[i] == dev0.write_faults@[i],
            fill matches Fill::Stream(seed) ==> x == lehmer(seed, j as nat),
        decreases len - j,
    {
        let b: u8 = match fill {
            Fill::Byte(c) => c,
            Fill::Cycle(c0, c1, c2) => {
                let m = j % 3;
                if m == 0 {
                    c0
                } else if m == 1 {
                    c1
                } else {
                    c2
                }
            }
            Fill::Stream(seed) => {
                proof {
                    lemma_lehmer_bound(seed, j as nat);
                }
                x = (LEHMER_MULTIPLIER * x) % LEHMER_MODULUS;
                (x % 256) as u8
            }
        };
        let ok = write_with_retry(dev, j, b);
        if !ok {
            proof {
                assert(dev0.write_faults@[j as int] > WRITE_RETRY_LIMIT);
                assert(!all_writable(dev0.write_faults@));
            }
            return Some(j);
        }
        if (j + 1) % PROGRESS_CHUNK_BYTES == 0 {
            sink.report(ProgressSnapshot {
                phase_index: pass_index,
                phase_total: passes_total,
                units_done: (j + 1) as u64,
                units_total: len as u64,
            });
        }
        j = j + 1;
    }
    dev.flush();
    sink.report(ProgressSnapshot {
        phase_index: pass_index,
        phase_total: passes_total,
        units_done: len as u64,
        units_total: len as u64,
    });
    None
}

/// Run a whole pattern-spec against the device.
///
/// Checkpoint `k` is the boundary before pass `k`: the token is polled
/// there and nowhere inside a pass, so cancellation takes effect only
/// at pass boundaries and never leaves a pass half-written; within a
/// pass the driver keeps writing and only reports progress.  On
/// success the number of passes issued equals the pattern-spec's
/// length and the media carries the final pass's image.
#[verifier::loop_isolation(false)]
#[verifier::rlimit(50)]
pub fn run_overwrite(
    dev: &mut SimDevice,
    pattern: &PatternSpec,
    cancel: &CancelToken,
    sink: &mut ProgressSink,
) -> (r: OverwriteReport)
    requires
        old(dev).wf(),
        pattern.wf(),
        pattern.passes.len() * old(dev).data.len() <= u64::MAX,
    ensures
        final(dev).wf(),
        old(dev).same_device_state(*final(dev)),
        final(dev).data.len() == old(dev).data.len(),
        final(sink).capacity == old(sink).capacity,
        final(sink).snaps@.subrange(0, old(sink).snaps@.len() as int) =~= old(sink).snaps@,
        // Delivered progress never runs backwards: snapshots are ordered
        // by pass, and within one pass by bytes done.
        forall|a: int, b: int|
            old(sink).snaps@.len() <= a <= b < final(sink).snaps@.len()
                ==> ((#[trigger] final(sink).snaps@[a]).phase_index
                    < (#[trigger] final(sink).snaps@[b]).phase_index
                    || (final(sink).snaps@[a].phase_index == final(sink).snaps@[b].phase_index
                        && final(sink).snaps@[a].units_done
                            <= final(sink).snaps@[b].units_done)),
        r.outcome is Success ==> r.passes_completed == pattern.passes.len(),
        r.outcome is IoError <==> !cancel.fired(0) && !all_writable(old(dev).write_faults@),
        r.failed_byte is Some <==> r.outcome is IoError,
        cancel.fired(0) ==> r.outcome is Cancelled
            && r.passes_completed == 0
            && r.bytes_written == 0
            && final(dev).data@ =~= old(dev).data@
            && final(dev).write_faults@ =~= old(dev).write_faults@
            && final(dev).flushed == old(dev).flushed,
        !cancel.fired(0) && !all_writable(old(dev).write_faults@) ==> r.outcome is IoError
            && r.passes_completed == 0
            && exists|j: int|
                0 <= j < old(dev).data.len()
                    && old(dev).write_faults@[j] > WRITE_RETRY_LIMIT
                    && (forall|i: int| 0 <= i < j ==> old(dev).write_faults@[i] <= WRITE_RETRY_LIMIT)
                    && r.bytes_written == j
                    && r.failed_byte == Some(j as u64)
                    && final(dev).data@ =~= Seq::new(
                        old(dev).data@.len(),
                        |i: int| if i < j { pattern.pass_byte(0, i) } else { old(dev).data@[i] },
                    ),
        forall|t: u64|
            !cancel.fired(0) && all_writable(old(dev).write_faults@)
                && cancel.fire_at == Some(t) && t < pattern.passes.len()
                ==> r.outcome is Cancelled
                    && r.passes_completed == t
                    && r.bytes_written == t * old(dev).data.len()
                    && final(dev).data@ =~= pattern.pass_image(t - 1, old(dev).data@.len())
                    && final(dev).flushed,
        all_writable(old(dev).write_faults@)
            && first_fired_checkpoint(*cancel, pattern.passes.len() as int) is None
            ==> r.outcome is Success
                && r.passes_completed == pattern.passes.len()
                && r.bytes_written == pattern.passes.len() * old(dev).data.len()
                && final(dev).data@ =~= pattern.pass_image(
                    pattern.passes.len() - 1, old(dev).data@.len())
                && final(dev).write_faults@ =~= Seq::new(old(dev).data@.len(), |i: int| 0u8)
                && final(dev).flushed,
{
    let ghost dev0 = *dev;
    let ghost sink0 = *sink;
    let n = pattern.passes.len();
    let len = dev.data.len();
    let mut bytes: u64 = 0;
    let mut k: usize = 0;
    while k < n
        invariant
            dev.wf(),
            dev0.wf(),
            dev0.same_device_state(*dev),
            len == dev.data.len(),
            len == dev0.data.len(),
            len == dev0.write_faults.len(),
            n == pattern.passes.len(),
            pattern.wf(),
            n * len <= u64::MAX,
            k <= n,
            sink.capacity == sink0.capacity,
            sink.snaps@.subrange(0, sink0.snaps@.len() as int) =~= sink0.snaps@,
            sink.snaps@.len() >= sink0.snaps@.len(),
            forall|a: int|
                sink0.snaps@.len() <= a < sink.snaps@.len()
                    ==> (#[trigger] sink.snaps@[a]).phase_index < k,
            forall|a: int, b: int|
                sink0.snaps@.len() <= a <= b < sink.snaps@.len()
                    ==> ((#[trigger] sink.snaps@[a]).phase_index
                        < (#[trigger] sink.snaps@[b]).phase_index
                        || (sink.snaps@[a].phase_index == sink.snaps@[b].phase_index
                            && sink.snaps@[a].units_done <= sink.snaps@[b].units_done)),
            k > 0 ==> all_writable(dev0.write_faults@),
            k > 0 ==> dev.data@ =~= pattern.pass_image(k - 1, len as nat)
                && dev.write_faults@ =~= Seq::new(len as nat, |i: int| 0u8)
                && dev.flushed,
            k == 0 ==> dev.data@ =~= dev0.data@
                && dev.write_faults@ =~= dev0.write_faults@
                && dev.flushed == dev0.flushed,
            k > 0 ==> !cancel.fired((k - 1) as u64),
            bytes == k * len,
        decreases n - k,
    {
        if cancel.is_fired(k as u64) {
            return OverwriteReport {
                outcome: DriverOutcome::Cancelled,
                passes_completed: k as u64,
                bytes_written: bytes,
                failed_byte: None,
            };
        }
        let fill = resolve_fill(&pattern.passes, k);
        let ghost pre = *dev;
        let ghost pre_sink = *sink;
        let res = write_pass(dev, fill, k as u64, n as u64, sink);
        proof {
            let pl = pre_sink.snaps@.len() as int;
            assert forall|a: int, b: int|
                sink0.snaps@.len() <= a <= b < sink.snaps@.len() implies ((
            #[trigger] sink.snaps@[a]).phase_index < (#[trigger] sink.snaps@[b]).phase_index || (
            sink.snaps@[a].phase_index == sink.snaps@[b].phase_index && sink.snaps@[a].units_done
                <= sink.snaps@[b].units_done)) by {
                if b < pl {
                    assert(sink.snaps@.subrange(0, pl)[a] == sink.snaps@[a]);
                    assert(sink.snaps@.subrange(0, pl)[b] == sink.snaps@[b]);
                    assert(sink.snaps@[a] == pre_sink.snaps@[a]);
                    assert(sink.snaps@[b] == pre_sink.snaps@[b]);
                } else if a < pl {
                    assert(sink.snaps@.subrange(0, pl)[a] == sink.snaps@[a]);
                    assert(sink.snaps@[a] == pre_sink.snaps@[a]);
                    assert(sink.snaps@[a].phase_index < k);
                    assert(sink.snaps@[b].phase_index == k);
                } else {
                    assert(sink.snaps@[a].phase_index == k);
                    assert(sink.snaps@[b].phase_index == k);
                }
            }
            assert forall|a: int|
                sink0.snaps@.len() <= a < sink.snaps@.len() implies (
            #[trigger] sink.snaps@[a]).phase_index < k + 1 by {
                if a < pl {
                    assert(sink.snaps@.subrange(0, pl)[a] == sink.snaps@[a]);
                    assert(sink.snaps@[a] == pre_sink.snaps@[a]);
                }
            }
        }
        match res {
            Some(j) => {
                proof {
                    if k > 0 {
                        assert(all_writable(pre.write_faults@));
                        assert(false);
                    }
                }
                return OverwriteReport {
                    outcome: DriverOutcome::IoError,
                    passes_completed: 0,
                    bytes_written: j as u64,
                    failed_byte: Some(j as u64),
                };
            }
            None => {}
        }
        proof {
            assert((k + 1) * len == k * len + len) by (nonlinear_arith);
            assert((k + 1) * len <= n * len) by (nonlinear_arith)
                requires k + 1 <= n, len >= 0;
        }
        bytes = bytes + (len as u64);
        k = k + 1;
    }
    OverwriteReport {
        outcome: DriverOutcome::Success,
        passes_completed: n as u64,
        bytes_written: bytes,
        failed_byte: None,
    }
}

/// Resolve pass `k` of a well-formed pattern to its fill.
pub fn resolve_fill(passes: &Vec<PassKind>, k: usize) -> (f: Fill)
    requires
        k < passes.len(),
        passes@[k as int] is Complement ==> k > 0 && passes@[k as int - 1] is Fixed,
    ensures
        f == fill_of(passes@, k as int),
{
    match passes[k] {
        PassKind::Fixed(b) => Fill::Byte(b),
        PassKind::Cycle(a, b, c) => Fill::Cycle(a, b, c),
        PassKind::Random(seed) => Fill::Stream(seed),
        PassKind::Complement => match passes[k - 1] {
            PassKind::Fixed(b) => Fill::Byte(255 - b),
            _ => Fill::Byte(0),
        },
    }
}

} // verus!
