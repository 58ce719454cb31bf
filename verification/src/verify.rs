//! Verification engine.
//!
//! After an overwrite, a statistically chosen sample of the media is
//! re-read and held against the final pass's expected fill.  After a
//! hardware or crypto erase, data is not re-read (a successful hardware
//! erase may leave sectors readable as zeroed or scrambled ciphertext):
//! verification confirms the expected security-state transition instead.

use vstd::prelude::*;
use crate::device::SimDevice;
use crate::erasure::overwrite::{
    fill_byte, fill_of, lehmer, lemma_lehmer_bound, resolve_fill, Fill, PatternSpec,
    LEHMER_MODULUS, LEHMER_MULTIPLIER,
};
use crate::platform::WipeMethod;
use crate::registry::EraseMethod;

verus! {

/// Which media bytes a verification re-reads: every `stride`-th byte,
/// starting at byte zero.  A stride of one is a full scan.
#[derive(Debug, Clone, Copy, PartialEq, Eq, Structural)]
pub struct SampleStrategy {
    pub stride: usize,
}

impl SampleStrategy {
    /// The default coverage: at least one sampled byte per mebibyte
    /// of media, far denser than the required minimum.
    pub fn default_coverage() -> (s: SampleStrategy)
        ensures
            1 <= s.stride <= 1048576,
    {
        SampleStrategy { stride: 4096 }
    }
}

/// Outcome of one verification.
#[derive(Debug, Clone, Copy, PartialEq, Eq, Structural)]
pub struct VerificationResult {
    /// Method family the verification was run for.
    pub method: WipeMethod,
    /// Sample stride used; zero for a security-state check.
    pub stride: u64,
    pub pass: bool,
    /// Sampled bytes that did not match the expectation.
    pub discrepancy_count: u64,
    /// Lowest mismatching sampled byte index, if any.
    pub first_discrepancy: Option<u64>,
}

/// Every sampled byte below `data.len()` carries the expected fill.
pub open spec fn sample_matches(data: Seq<u8>, fill: Fill, stride: int) -> bool {
    forall|i: int|
        0 <= i < data.len() && i % stride == 0 ==> (#[trigger] data[i]) == fill_byte(fill, i)
}

/// Number of sampled bytes below `upto` that do not match the fill.
pub open spec fn mismatch_count(data: Seq<u8>, fill: Fill, stride: int, upto: int) -> int
    decreases upto,
{
    if upto <= 0 {
        0
    } else {
        mismatch_count(data, fill, stride, upto - 1)
            + if (upto - 1) % stride == 0 && data[upto - 1] != fill_byte(fill, upto - 1) {
                1int
            } else {
                0int
            }
    }
}

/// Sample the media against the final pass of an overwrite pattern.
///
/// The result passes exactly when every sampled byte matches the
/// pattern's final fill, and carries the exact count and first location
/// of the sampled discrepancies.
#[verifier::loop_isolation(false)]
pub fn verify_overwrite(
    dev: &SimDevice,
    pattern: &PatternSpec,
    strategy: &SampleStrategy,
) -> (r: VerificationResult)
    requires
        pattern.wf(),
        strategy.stride >= 1,
    ensures
        r.method == WipeMethod::Overwrite,
        r.stride == strategy.stride,
        r.pass <==> sample_matches(
            dev.data@,
            fill_of(pattern.passes@, pattern.passes.len() - 1),
            strategy.stride as int,
        ),
        r.discrepancy_count == mismatch_count(
            dev.data@,
            fill_of(pattern.passes@, pattern.passes.len() - 1),
            strategy.stride as int,
            dev.data@.len() as int,
        ),
        r.pass <==> r.discrepancy_count == 0,
{
    let ghost fill = fill_of(pattern.passes@, pattern.passes.len() - 1);
    let last = pattern.passes.len() - 1;
    let expected = resolve_fill(&pattern.passes, last);
    let len = dev.data.len();
    let mut count: u64 = 0;
    let mut first: Option<u64> = None;
    let mut x: u64 = match expected {
        Fill::Byte(_) => 0,
        Fill::Cycle(..) => 0,
        Fill::Stream(seed) => seed % (LEHMER_MODULUS - 1) + 1,
    };
    let mut i: usize = 0;
    while i < len
        invariant
            i <= len,
            count <= i,
            expected == fill,
            expected matches Fill::Stream(seed) ==> x == lehmer(seed, i as nat),
            count == mismatch_count(dev.data@, fill, strategy.stride as int, i as int),
            first is None ==> forall|k: int|
                0 <= k < i && k % (strategy.stride as int) == 0
                    ==> (#[trigger] dev.data@[k]) == fill_byte(fill, k),
            first matches Some(j) ==> j < i
                && (j as int) % (strategy.stride as int) == 0
                && dev.data@[j as int] != fill_byte(fill, j as int)
                && (forall|k: int|
                    0 <= k < j && k % (strategy.stride as int) == 0
                        ==> (#[trigger] dev.data@[k]) == fill_byte(fill, k)),
        decreases len - i,
    {
        let e: u8 = match expected {
            Fill::Byte(c) => c,
            Fill::Cycle(c0, c1, c2) => {
                let m = i % 3;
                if m == 0 {
                    c0
                } else if m == 1 {
                    c1
                } else {
                    c2
                }
            }
            Fill::Stream(seed) => {
                proof {
                    lemma_lehmer_bound(seed, i as nat);
                }
                x = (LEHMER_MULTIPLIER * x) % LEHMER_MODULUS;
                (x % 256) as u8
            }
        };
        if i % strategy.stride == 0 {
            let b = dev.read_byte(i);
            if b != e {
                count = count + 1;
                if first.is_none() {
                    first = Some(i as u64);
                }
            }
        }
        i = i + 1;
    }
    proof {
        if first is None {
            assert(sample_matches(dev.data@, fill, strategy.stride as int));
        } else {
            let j = first->0;
            assert(dev.data@[j as int] != fill_byte(fill, j as int));
            assert(!sample_matches(dev.data@, fill, strategy.stride as int));
        }
        lemma_mismatch_zero(dev.data@, fill, strategy.stride as int, len as int);
    }
    VerificationResult {
        method: WipeMethod::Overwrite,
        stride: strategy.stride as u64,
        pass: first.is_none(),
        discrepancy_count: count,
        first_discrepancy: first,
    }
}

/// A zero mismatch count below `upto` means every sampled byte below
/// `upto` matches, and the other way round.
proof fn lemma_mismatch_zero(data: Seq<u8>, fill: Fill, stride: int, upto: int)
    requires
        stride >= 1,
        upto <= data.len(),
    ensures
        mismatch_count(data, fill, stride, upto) == 0 <==> (forall|i: int|
            0 <= i < upto && i % stride == 0 ==> (#[trigger] data[i]) == fill_byte(fill, i)),
        mismatch_count(data, fill, stride, upto) >= 0,
    decreases upto,
{
    if upto > 0 {
        lemma_mismatch_zero(data, fill, stride, upto - 1);
    }
}

/// Confirm the security-state transition a hardware or crypto erase is
/// expected to leave behind, given the counters captured before the
/// driver ran: ATA security re-enabled and locked by the erase, an NVMe
/// sanitize observed by the controller, or the SED key generation
/// counter incremented.
pub fn verify_hardware_erase(
    dev: &SimDevice,
    method: &EraseMethod,
    pre_sanitize_count: u64,
    pre_key_generation: u64,
) -> (r: VerificationResult)
    requires
        !(method is Overwrite),
    ensures
        method is AtaSecureErase ==> r.method == WipeMethod::SecureErase
            && (r.pass <==> dev.ata.enabled && dev.ata.locked),
        method is NvmeSanitize ==> r.method == WipeMethod::SecureErase
            && (r.pass <==> dev.nvme_sanitize_count > pre_sanitize_count),
        method is CryptoErase ==> r.method == WipeMethod::CryptoErase
            && (r.pass <==> dev.sed.key_generation > pre_key_generation),
        r.stride == 0,
        r.discrepancy_count == (if r.pass { 0int } else { 1int }),
        r.first_discrepancy is None,
{
    let (family, ok): (WipeMethod, bool) = match method {
        EraseMethod::AtaSecureErase { .. } => (
            WipeMethod::SecureErase,
            dev.ata.enabled && dev.ata.locked,
        ),
        EraseMethod::NvmeSanitize { .. } => (
            WipeMethod::SecureErase,
            dev.nvme_sanitize_count > pre_sanitize_count,
        ),
        EraseMethod::CryptoErase { .. } => (
            WipeMethod::CryptoErase,
            dev.sed.key_generation > pre_key_generation,
        ),
        EraseMethod::Overwrite(_) => (WipeMethod::Overwrite, false),
    };
    VerificationResult {
        method: family,
        stride: 0,
        pass: ok,
        discrepancy_count: if ok { 0 } else { 1 },
        first_discrepancy: None,
    }
}

/// Verifying immediately after a successful overwrite always passes:
/// media that carries the pattern's final image matches every sample,
/// whatever the strategy.
pub proof fn lemma_verify_after_overwrite(data: Seq<u8>, pattern: PatternSpec, stride: int)
    requires
        pattern.wf(),
        stride >= 1,
        data =~= pattern.pass_image(pattern.passes.len() - 1, data.len()),
    ensures
        sample_matches(data, fill_of(pattern.passes@, pattern.passes.len() - 1), stride),
{
}

} // verus!
