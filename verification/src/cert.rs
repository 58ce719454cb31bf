//! Certificate emitter.
//!
//! Assembles the structured record of an erasure: device identity,
//! method, verification result and timestamps, sealed by an FNV-1a
//! digest over a fixed byte encoding of those fields.  The certificate
//! is immutable once emitted; writing it to durable storage is an
//! external collaborator's concern.
//!
//! The seal is a 64-bit FNV-1a checksum: it makes accidental
//! alteration of any field evident, but it is no cryptographic hash or
//! signature — a deliberate forger can find collisions.  A deployment
//! that needs cryptographic tamper evidence signs the same payload
//! bytes with a real signature scheme at the certificate sink.

use vstd::prelude::*;
use vstd::utf8::encode_utf8;
use crate::caps::CapabilityRecord;
use crate::platform::WipeMethod;
use crate::text::append_bytes;
use crate::verify::VerificationResult;

verus! {

/// The FNV-1a 64-bit offset basis.
pub const FNV_OFFSET: u64 = 0xcbf29ce484222325;

/// The FNV-1a 64-bit prime.
pub const FNV_PRIME: u64 = 0x100000001b3;

/// A signed record of one completed erasure.
#[derive(Debug)]
pub struct Certificate {
    pub device_model: String,
    pub device_serial: String,
    pub device_vendor: String,
    /// Method family that was executed.
    pub method: WipeMethod,
    /// Write passes issued (zero for hardware and crypto erases).
    pub passes: u64,
    pub verification_pass: bool,
    /// Sample stride of the verification; zero for a state check.
    pub verification_stride: u64,
    pub started_at: u64,
    pub finished_at: u64,
    /// FNV-1a digest over the encoding of every field above.
    pub digest: u64,
}

/// One step of FNV-1a: fold a byte into the running hash.
pub open spec fn fnv_step(h: u64, b: u8) -> u64 {
    (((h ^ (b as u64)) * FNV_PRIME) % 0x1_0000_0000_0000_0000) as u64
}

/// FNV-1a over a byte string.
pub open spec fn fnv1a(data: Seq<u8>) -> u64
    decreases data.len(),
{
    if data.len() == 0 {
        FNV_OFFSET
    } else {
        fnv_step(fnv1a(data.drop_last()), data.last())
    }
}

/// Tag byte of a method family in the certificate encoding.
pub open spec fn method_tag(m: WipeMethod) -> u8 {
    match m {
        WipeMethod::Overwrite => 1,
        WipeMethod::SecureErase => 2,
        WipeMethod::CryptoErase => 3,
    }
}

/// A `u64` as eight little-endian bytes.
pub open spec fn u64_le_bytes(x: u64) -> Seq<u8> {
    seq![
        (x % 256) as u8,
        ((x >> 8) % 256) as u8,
        ((x >> 16) % 256) as u8,
        ((x >> 24) % 256) as u8,
        ((x >> 32) % 256) as u8,
        ((x >> 40) % 256) as u8,
        ((x >> 48) % 256) as u8,
        ((x >> 56) % 256) as u8,
    ]
}

/// The byte encoding the digest seals: the identity strings as UTF-8,
/// each closed by a zero byte, then the method tag, the verification
/// verdict, and the numeric fields in little-endian order.
pub open spec fn cert_payload(c: Certificate) -> Seq<u8> {
    encode_utf8(c.device_model@) + seq![0u8] + encode_utf8(c.device_serial@) + seq![0u8]
        + encode_utf8(c.device_vendor@) + seq![0u8]
        + seq![method_tag(c.method), if c.verification_pass { 1u8 } else { 0u8 }]
        + u64_le_bytes(c.passes) + u64_le_bytes(c.verification_stride)
        + u64_le_bytes(c.started_at) + u64_le_bytes(c.finished_at)
}

/// A certificate whose digest seals its fields.
pub open spec fn cert_sealed(c: Certificate) -> bool {
    c.digest == fnv1a(cert_payload(c))
}

/// Append a `u64` in little-endian order.
fn push_u64_le(out: &mut Vec<u8>, x: u64)
    ensures
        final(out)@ =~= old(out)@ + u64_le_bytes(x),
{
    out.push((x % 256) as u8);
    out.push(((x >> 8) % 256) as u8);
    out.push(((x >> 16) % 256) as u8);
    out.push(((x >> 24) % 256) as u8);
    out.push(((x >> 32) % 256) as u8);
    out.push(((x >> 40) % 256) as u8);
    out.push(((x >> 48) % 256) as u8);
    out.push(((x >> 56) % 256) as u8);
    proof {
        assert(final(out)@ =~= old(out)@ + u64_le_bytes(x));
    }
}

/// Compute FNV-1a over a byte slice.
#[verifier::loop_isolation(false)]
pub fn fnv1a_hash(data: &[u8]) -> (h: u64)
    ensures
        h == fnv1a(data@),
{
    let mut h: u64 = FNV_OFFSET;
    let mut i: usize = 0;
    while i < data.len()
        invariant
            i <= data@.len(),
            h == fnv1a(data@.subrange(0, i as int)),
        decreases data@.len() - i,
    {
        let b = data[i];
        proof {
            assert(data@.subrange(0, i + 1).drop_last() =~= data@.subrange(0, i as int));
            assert(data@.subrange(0, i + 1).last() == data@[i as int]);
        }
        h = (h ^ (b as u64)).wrapping_mul(FNV_PRIME);
        i = i + 1;
    }
    proof {
        assert(data@.subrange(0, data@.len() as int) =~= data@);
    }
    h
}

/// Emit the certificate for one completed job: the identity fields
/// from the capability record, the executed method, the verification
/// verdict, and the caller-supplied timestamps, sealed by the digest.
pub fn emit_certificate(
    record: &CapabilityRecord,
    method: WipeMethod,
    passes: u64,
    verification: &VerificationResult,
    started_at: u64,
    finished_at: u64,
) -> (c: Certificate)
    ensures
        c.device_model@ == record.model@,
        c.device_serial@ == record.serial@,
        c.device_vendor@ == record.vendor@,
        c.method == method,
        c.passes == passes,
        c.verification_pass == verification.pass,
        c.verification_stride == verification.stride,
        c.started_at == started_at,
        c.finished_at == finished_at,
        cert_sealed(c),
{
    let mut payload: Vec<u8> = Vec::new();
    append_bytes(&mut payload, record.model.as_str().as_bytes());
    payload.push(0u8);
    append_bytes(&mut payload, record.serial.as_str().as_bytes());
    payload.push(0u8);
    append_bytes(&mut payload, record.vendor.as_str().as_bytes());
    payload.push(0u8);
    let tag: u8 = match method {
        WipeMethod::Overwrite => 1,
        WipeMethod::SecureErase => 2,
        WipeMethod::CryptoErase => 3,
    };
    payload.push(tag);
    payload.push(if verification.pass { 1u8 } else { 0u8 });
    push_u64_le(&mut payload, passes);
    push_u64_le(&mut payload, verification.stride);
    push_u64_le(&mut payload, started_at);
    push_u64_le(&mut payload, finished_at);
    let digest = fnv1a_hash(payload.as_slice());
    let c = Certificate {
        device_model: record.model.clone(),
        device_serial: record.serial.clone(),
        device_vendor: record.vendor.clone(),
        method,
        passes,
        verification_pass: verification.pass,
        verification_stride: verification.stride,
        started_at,
        finished_at,
        digest,
    };
    proof {
        assert(payload@ =~= cert_payload(c));
    }
    c
}

} // verus!
