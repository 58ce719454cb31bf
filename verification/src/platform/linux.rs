//! Linux backend: classification of block devices from the raw file
//! contents an enumeration collaborator read out of the device
//! registry, path-ordered listing, and human-readable sizes.

use vstd::prelude::*;
use vstd::string::StringExecFns;
use vstd::utf8::{decode_utf8, encode_utf8, valid_utf8};
use crate::erasure::ata::{AtaDeviceInfo, AtaError, AtaStorageDriver};
use crate::platform::{DeviceStatus, DeviceType, RawDeviceScan, StorageDevice, StorageInterface};
use crate::text::{
    all_digits, ascii_to_string, contains_bytes, contains_seq, dec_bytes, dec_val, parse_u64_dec,
    starts_with_bytes, trim_ascii, trim_spec, u64_to_dec, utf8_to_string,
};

verus! {

/// "loop", the loopback device prefix.
pub open spec fn loop_prefix() -> Seq<u8> {
    seq![0x6Cu8, 0x6Fu8, 0x6Fu8, 0x70u8]
}

/// "ram", the ram-disk prefix.
pub open spec fn ram_prefix() -> Seq<u8> {
    seq![0x72u8, 0x61u8, 0x6Du8]
}

/// "dm-", the device-mapper prefix.
pub open spec fn dm_prefix() -> Seq<u8> {
    seq![0x64u8, 0x6Du8, 0x2Du8]
}

/// "nvme", the NVMe namespace prefix.
pub open spec fn nvme_prefix() -> Seq<u8> {
    seq![0x6Eu8, 0x76u8, 0x6Du8, 0x65u8]
}

/// "/dev/", the device node directory.
pub open spec fn dev_dir() -> Seq<u8> {
    seq![0x2Fu8, 0x64u8, 0x65u8, 0x76u8, 0x2Fu8]
}

/// "running", an active device state.
pub open spec fn running_word() -> Seq<u8> {
    seq![0x72u8, 0x75u8, 0x6Eu8, 0x6Eu8, 0x69u8, 0x6Eu8, 0x67u8]
}

/// "active", the other active device state.
pub open spec fn active_word() -> Seq<u8> {
    seq![0x61u8, 0x63u8, 0x74u8, 0x69u8, 0x76u8, 0x65u8]
}

/// Virtual devices the listing skips: loopbacks, ram disks, mapper
/// devices.
pub open spec fn is_virtual_name(n: Seq<u8>) -> bool {
    crate::text::is_match_at(n, loop_prefix(), 0) || crate::text::is_match_at(n, ram_prefix(), 0)
        || crate::text::is_match_at(n, dm_prefix(), 0)
}

/// A scan that makes it into the device list.
pub open spec fn kept_scan(e: RawDeviceScan) -> bool {
    e.present && !is_virtual_name(encode_utf8(e.name@))
}

/// A model-ish file usable as a display name: its text survives the
/// UTF-8 check the read performs, and trims to something non-empty
/// other than the bare rotational flag.  (Trimming removes only ASCII
/// whitespace at the ends, so validity of the trimmed bytes coincides
/// with validity of the whole content.)
pub open spec fn usable_text(c: Seq<u8>) -> bool {
    valid_utf8(trim_spec(c)) && trim_spec(c).len() > 0 && !(trim_spec(c).len() == 1 && (trim_spec(
        c,
    )[0] == 0x30 || trim_spec(c)[0] == 0x31))
}

/// The trimmed model text: the model file, the name file, then the
/// rotational file, first usable content wins.
pub open spec fn model_choice(e: RawDeviceScan) -> Option<Seq<u8>> {
    match e.model_file {
        Some(c) => if usable_text(c@) {
            Some(trim_spec(c@))
        } else {
            model_choice_name(e)
        },
        None => model_choice_name(e),
    }
}

pub open spec fn model_choice_name(e: RawDeviceScan) -> Option<Seq<u8>> {
    match e.name_file {
        Some(c) => if usable_text(c@) {
            Some(trim_spec(c@))
        } else {
            model_choice_rot(e)
        },
        None => model_choice_rot(e),
    }
}

pub open spec fn model_choice_rot(e: RawDeviceScan) -> Option<Seq<u8>> {
    match e.rotational_file {
        Some(c) => if usable_text(c@) {
            Some(trim_spec(c@))
        } else {
            None
        },
        None => None,
    }
}

/// First of two files that reads as UTF-8 and trims non-empty.
pub open spec fn nonempty_choice(a: Option<Vec<u8>>, b: Option<Vec<u8>>) -> Option<Seq<u8>> {
    match a {
        Some(c) => if valid_utf8(trim_spec(c@)) && trim_spec(c@).len() > 0 {
            Some(trim_spec(c@))
        } else {
            nonempty_one(b)
        },
        None => nonempty_one(b),
    }
}

pub open spec fn nonempty_one(b: Option<Vec<u8>>) -> Option<Seq<u8>> {
    match b {
        Some(c) => if valid_utf8(trim_spec(c@)) && trim_spec(c@).len() > 0 {
            Some(trim_spec(c@))
        } else {
            None
        },
        None => None,
    }
}

/// Device class from the name prefix, the rotational flag, and the
/// transport link, in that order.
pub open spec fn scan_device_type(e: RawDeviceScan) -> DeviceType {
    if crate::text::is_match_at(encode_utf8(e.name@), nvme_prefix(), 0) {
        DeviceType::NVMe
    } else {
        match e.rotational_file {
            Some(c) => if trim_spec(c@) == seq![0x30u8] {
                DeviceType::SSD
            } else if trim_spec(c@) == seq![0x31u8] {
                DeviceType::HDD
            } else {
                usb_or_unknown(e)
            },
            None => usb_or_unknown(e),
        }
    }
}

pub open spec fn usb_or_unknown(e: RawDeviceScan) -> DeviceType {
    if e.usb_link {
        DeviceType::USB
    } else {
        DeviceType::Unknown
    }
}

/// Size in bytes: the sector count file, times the 512-byte unit the
/// registry reports sizes in; unparsable or unrepresentable is no size.
pub open spec fn scan_size(e: RawDeviceScan) -> Option<u64> {
    match e.size_file {
        Some(c) => if trim_spec(c@).len() > 0 && all_digits(trim_spec(c@)) && dec_val(
            trim_spec(c@),
        ) * 512 <= u64::MAX {
            Some((dec_val(trim_spec(c@)) * 512) as u64)
        } else {
            None
        },
        None => None,
    }
}

/// Mounted when the mount table names the device node; otherwise the
/// state file decides between active and available.
pub open spec fn scan_status(e: RawDeviceScan, mounts: Seq<u8>) -> DeviceStatus {
    if contains_seq(mounts, dev_dir() + encode_utf8(e.name@)) {
        DeviceStatus::Mounted
    } else {
        match e.state_file {
            Some(c) => if trim_spec(c@) == running_word() || trim_spec(c@) == active_word() {
                DeviceStatus::Active
            } else {
                DeviceStatus::Available
            },
            None => DeviceStatus::Available,
        }
    }
}

/// The record a scan becomes.
pub open spec fn device_matches(d: StorageDevice, e: RawDeviceScan, mounts: Seq<u8>) -> bool {
    &&& d.path@ == "/dev/"@ + e.name@
    &&& d.name@ == (match model_choice(e) {
        Some(t) => decode_utf8(t),
        None => e.name@,
    })
    &&& d.size == scan_size(e)
    &&& d.device_type == scan_device_type(e)
    &&& (match model_choice(e) {
        Some(t) => d.model matches Some(s) && s@ == decode_utf8(t),
        None => d.model is None,
    })
    &&& (match nonempty_choice(e.serial_file, e.wwid_file) {
        Some(t) => d.serial_number matches Some(s) && s@ == decode_utf8(t),
        None => d.serial_number is None,
    })
    &&& (match nonempty_choice(e.vendor_file, e.manufacturer_file) {
        Some(t) => d.vendor matches Some(s) && s@ == decode_utf8(t),
        None => d.vendor is None,
    })
    &&& d.status == scan_status(e, mounts)
}

/// Byte-wise lexicographic order on UTF-8 encodings, the order the
/// device list is kept in.
pub open spec fn lex_le(a: Seq<u8>, b: Seq<u8>) -> bool
    decreases a.len(),
{
    if a.len() == 0 {
        true
    } else if b.len() == 0 {
        false
    } else if a[0] < b[0] {
        true
    } else if a[0] > b[0] {
        false
    } else {
        lex_le(a.drop_first(), b.drop_first())
    }
}

/// The device list is ordered by path.
pub open spec fn sorted_by_path(s: Seq<StorageDevice>) -> bool {
    forall|i: int, j: int|
        0 <= i < j < s.len() ==> lex_le(
            encode_utf8((#[trigger] s[i]).path@),
            encode_utf8((#[trigger] s[j]).path@),
        )
}

/// Any two byte strings are ordered one way or the other.
pub proof fn lemma_lex_total(a: Seq<u8>, b: Seq<u8>)
    ensures
        lex_le(a, b) || lex_le(b, a),
    decreases a.len(),
{
    if a.len() > 0 && b.len() > 0 && a[0] == b[0] {
        lemma_lex_total(a.drop_first(), b.drop_first());
    }
}

/// The order chains.
pub proof fn lemma_lex_trans(a: Seq<u8>, b: Seq<u8>, c: Seq<u8>)
    requires
        lex_le(a, b),
        lex_le(b, c),
    ensures
        lex_le(a, c),
    decreases a.len(),
{
    if a.len() > 0 && b.len() > 0 && c.len() > 0 && a[0] == b[0] && b[0] == c[0] {
        lemma_lex_trans(a.drop_first(), b.drop_first(), c.drop_first());
    }
}

/// Compare two byte strings lexicographically.
#[verifier::loop_isolation(false)]
pub fn lex_le_bytes(a: &[u8], b: &[u8]) -> (r: bool)
    ensures
        r == lex_le(a@, b@),
{
    proof {
        assert(a@.skip(0) =~= a@);
        assert(b@.skip(0) =~= b@);
    }
    let mut i: usize = 0;
    while i < a.len() && i < b.len()
        invariant
            i <= a@.len(),
            i <= b@.len(),
            lex_le(a@, b@) == lex_le(a@.skip(i as int), b@.skip(i as int)),
        decreases a@.len() - i,
    {
        if a[i] < b[i] {
            return true;
        }
        if a[i] > b[i] {
            return false;
        }
        proof {
            assert(a@.skip(i as int).drop_first() =~= a@.skip(i + 1));
            assert(b@.skip(i as int).drop_first() =~= b@.skip(i + 1));
        }
        i = i + 1;
    }
    a.len() <= b.len()
}

/// The trimmed content as text, when it is usable as a display name.
fn usable_trimmed(file: &Option<Vec<u8>>) -> (r: Option<String>)
    ensures
        r matches Some(s) ==> (file matches Some(c) && usable_text(c@) && s@ == decode_utf8(
            trim_spec(c@),
        )),
        r is None ==> (match *file {
            Some(c) => !usable_text(c@),
            None => true,
        }),
{
    match file {
        Some(c) => {
            let t = trim_ascii(c.as_slice());
            if t.len() > 0 && !(t.len() == 1 && (t[0] == 0x30 || t[0] == 0x31)) {
                utf8_to_string(t)
            } else {
                None
            }
        }
        None => None,
    }
}

/// The trimmed content as text, when anything is left of it.
fn nonempty_trimmed(file: &Option<Vec<u8>>) -> (r: Option<String>)
    ensures
        r matches Some(s) ==> (file matches Some(c) && valid_utf8(trim_spec(c@)) && trim_spec(
            c@,
        ).len() > 0 && s@ == decode_utf8(trim_spec(c@))),
        r is None ==> nonempty_one(*file) is None,
{
    match file {
        Some(c) => {
            let t = trim_ascii(c.as_slice());
            if t.len() > 0 {
                utf8_to_string(t)
            } else {
                None
            }
        }
        None => None,
    }
}

/// Build the record of one kept scan.
pub fn create_storage_device(e: &RawDeviceScan, mounts: &Vec<u8>) -> (d: StorageDevice)
    ensures
        device_matches(d, *e, mounts@),
{
    let mut path: String = "/dev/".to_owned();
    path.append(e.name.as_str());
    let model: Option<String> = match usable_trimmed(&e.model_file) {
        Some(s) => Some(s),
        None => match usable_trimmed(&e.name_file) {
            Some(s) => Some(s),
            None => match usable_trimmed(&e.rotational_file) {
                Some(s) => Some(s),
                None => None,
            },
        },
    };
    let name: String = match &model {
        Some(m) => m.clone(),
        None => e.name.as_str().to_owned(),
    };
    let size: Option<u64> = match &e.size_file {
        Some(c) => {
            let t = trim_ascii(c.as_slice());
            match parse_u64_dec(t.as_slice()) {
                Some(v) => {
                    if v <= u64::MAX / 512 {
                        proof {
                            assert(dec_val(trim_spec(c@)) * 512 <= u64::MAX) by (nonlinear_arith)
                                requires
                                    dec_val(trim_spec(c@)) == v,
                                    v <= u64::MAX / 512,
                            ;
                        }
                        Some(v * 512)
                    } else {
                        proof {
                            assert(dec_val(trim_spec(c@)) * 512 > u64::MAX) by (nonlinear_arith)
                                requires
                                    dec_val(trim_spec(c@)) == v,
                                    v > u64::MAX / 512,
                            ;
                        }
                        None
                    }
                }
                None => None,
            }
        }
        None => None,
    };
    let name_bytes = e.name.as_str().as_bytes();
    let mut nvme_needle: Vec<u8> = Vec::new();
    nvme_needle.push(0x6E);
    nvme_needle.push(0x76);
    nvme_needle.push(0x6D);
    nvme_needle.push(0x65);
    proof {
        assert(nvme_needle@ =~= nvme_prefix());
    }
    let device_type: DeviceType = if starts_with_bytes(name_bytes, nvme_needle.as_slice()) {
        DeviceType::NVMe
    } else {
        let rot: Option<Vec<u8>> = match &e.rotational_file {
            Some(c) => Some(trim_ascii(c.as_slice())),
            None => None,
        };
        match &rot {
            Some(t) => {
                if t.len() == 1 && t[0] == 0x30 {
                    proof {
                        assert(trim_spec(e.rotational_file->0@) =~= seq![0x30u8]);
                    }
                    DeviceType::SSD
                } else if t.len() == 1 && t[0] == 0x31 {
                    proof {
                        assert(trim_spec(e.rotational_file->0@) =~= seq![0x31u8]);
                    }
                    DeviceType::HDD
                } else if e.usb_link {
                    DeviceType::USB
                } else {
                    DeviceType::Unknown
                }
            }
            None => {
                if e.usb_link {
                    DeviceType::USB
                } else {
                    DeviceType::Unknown
                }
            }
        }
    };
    let serial_number: Option<String> = match nonempty_trimmed(&e.serial_file) {
        Some(s) => Some(s),
        None => match nonempty_trimmed(&e.wwid_file) {
            Some(s) => Some(s),
            None => None,
        },
    };
    let vendor: Option<String> = match nonempty_trimmed(&e.vendor_file) {
        Some(s) => Some(s),
        None => match nonempty_trimmed(&e.manufacturer_file) {
            Some(s) => Some(s),
            None => None,
        },
    };
    let mut node: Vec<u8> = Vec::new();
    node.push(0x2F);
    node.push(0x64);
    node.push(0x65);
    node.push(0x76);
    node.push(0x2F);
    crate::text::append_bytes(&mut node, name_bytes);
    proof {
        assert(node@ =~= dev_dir() + encode_utf8(e.name@));
    }
    let status: DeviceStatus = if contains_bytes(mounts.as_slice(), node.as_slice()) {
        DeviceStatus::Mounted
    } else {
        match &e.state_file {
            Some(c) => {
                let t = trim_ascii(c.as_slice());
                let mut run_w: Vec<u8> = Vec::new();
                run_w.push(0x72);
                run_w.push(0x75);
                run_w.push(0x6E);
                run_w.push(0x6E);
                run_w.push(0x69);
                run_w.push(0x6E);
                run_w.push(0x67);
                let mut act_w: Vec<u8> = Vec::new();
                act_w.push(0x61);
                act_w.push(0x63);
                act_w.push(0x74);
                act_w.push(0x69);
                act_w.push(0x76);
                act_w.push(0x65);
                proof {
                    assert(run_w@ =~= running_word());
                    assert(act_w@ =~= active_word());
                }
                if bytes_eq(t.as_slice(), run_w.as_slice()) || bytes_eq(
                    t.as_slice(),
                    act_w.as_slice(),
                ) {
                    DeviceStatus::Active
                } else {
                    DeviceStatus::Available
                }
            }
            None => DeviceStatus::Available,
        }
    };
    StorageDevice { path, name, size, device_type, serial_number, model, vendor, status }
}

/// Whether two byte strings are equal.
#[verifier::loop_isolation(false)]
pub fn bytes_eq(a: &[u8], b: &[u8]) -> (r: bool)
    ensures
        r == (a@ =~= b@),
{
    if a.len() != b.len() {
        return false;
    }
    let mut i: usize = 0;
    while i < a.len()
        invariant
            i <= a@.len(),
            a@.len() == b@.len(),
            forall|k: int| 0 <= k < i ==> a@[k] == (#[trigger] b@[k]),
        decreases a@.len() - i,
    {
        if a[i] != b[i] {
            return false;
        }
        i = i + 1;
    }
    proof {
        assert(a@ =~= b@);
    }
    true
}

/// Selection sort by device path: the least remaining path moves over,
/// so the result is ordered and carries exactly the input's records.
#[verifier::loop_isolation(false)]
pub fn sort_by_path(input: Vec<StorageDevice>) -> (r: Vec<StorageDevice>)
    ensures
        sorted_by_path(r@),
        r@.to_multiset() == input@.to_multiset(),
        r@.len() == input@.len(),
        forall|i: int| 0 <= i < r@.len() ==> input@.contains(#[trigger] r@[i]),
        exists|p: Seq<int>| reindexed(p, input@, r@),
{
    broadcast use vstd::seq_lib::group_to_multiset_ensures;

    let mut out: Vec<StorageDevice> = Vec::new();
    let mut rest = input;
    let ghost input0 = rest@;
    let ghost mut perm: Seq<int> = Seq::empty();
    let ghost mut rest_idx: Seq<int> = Seq::new(rest@.len() as nat, |i: int| i);
    while rest.len() > 0
        invariant
            out@.to_multiset().add(rest@.to_multiset()) =~= input0.to_multiset(),
            out@.len() + rest@.len() == input0.len(),
            sorted_by_path(out@),
            forall|i: int| 0 <= i < out@.len() ==> input0.contains(#[trigger] out@[i]),
            forall|i: int| 0 <= i < rest@.len() ==> input0.contains(#[trigger] rest@[i]),
            forall|i: int, j: int|
                0 <= i < out@.len() && 0 <= j < rest@.len() ==> lex_le(
                    encode_utf8((#[trigger] out@[i]).path@),
                    encode_utf8((#[trigger] rest@[j]).path@),
                ),
            perm.len() == out@.len(),
            rest_idx.len() == rest@.len(),
            forall|i: int|
                0 <= i < out@.len() ==> 0 <= (#[trigger] perm[i]) < input0.len()
                    && out@[i] == input0[perm[i]],
            forall|j: int|
                0 <= j < rest@.len() ==> 0 <= (#[trigger] rest_idx[j]) < input0.len()
                    && rest@[j] == input0[rest_idx[j]],
            forall|i: int, j: int| 0 <= i < j < out@.len() ==> perm[i] != perm[j],
            forall|i: int, j: int| 0 <= i < j < rest@.len() ==> rest_idx[i] != rest_idx[j],
            forall|i: int, j: int|
                0 <= i < out@.len() && 0 <= j < rest@.len()
                    ==> (#[trigger] perm[i]) != (#[trigger] rest_idx[j]),
        decreases rest@.len(),
    {
        let mut m: usize = 0;
        let mut k: usize = 1;
        proof {
            lemma_lex_total(
                encode_utf8(rest@[0].path@),
                encode_utf8(rest@[0].path@),
            );
        }
        while k < rest.len()
            invariant
                m < k <= rest@.len(),
                rest@.len() > 0,
                forall|j: int|
                    0 <= j < k ==> lex_le(
                        encode_utf8(rest@[m as int].path@),
                        encode_utf8((#[trigger] rest@[j]).path@),
                    ),
            decreases rest@.len() - k,
        {
            if !lex_le_bytes(
                rest[m].path.as_str().as_bytes(),
                rest[k].path.as_str().as_bytes(),
            ) {
                proof {
                    lemma_lex_total(
                        encode_utf8(rest@[m as int].path@),
                        encode_utf8(rest@[k as int].path@),
                    );
                    assert forall|j: int| 0 <= j < k + 1 implies lex_le(
                        encode_utf8(rest@[k as int].path@),
                        encode_utf8((#[trigger] rest@[j]).path@),
                    ) by {
                        if j == k {
                            lemma_lex_total(
                                encode_utf8(rest@[k as int].path@),
                                encode_utf8(rest@[k as int].path@),
                            );
                        }
                        if j < k {
                            lemma_lex_trans(
                                encode_utf8(rest@[k as int].path@),
                                encode_utf8(rest@[m as int].path@),
                                encode_utf8(rest@[j].path@),
                            );
                        }
                    }
                }
                m = k;
            }
            k = k + 1;
        }
        let ghost rest0 = rest@;
        let ghost out0 = out@;
        let ghost rest_idx0 = rest_idx;
        let ghost perm0 = perm;
        let d = rest.remove(m);
        out.push(d);
        proof {
            perm = perm0.push(rest_idx0[m as int]);
            rest_idx = rest_idx0.remove(m as int);
            assert forall|j: int| 0 <= j < rest_idx.len() implies
                rest_idx[j] == (if j < m { rest_idx0[j] } else { rest_idx0[j + 1] }) by {}
            assert(rest0.contains(rest0[m as int]));
            assert(rest0.to_multiset().count(d) > 0);
            assert(rest@.to_multiset() =~= rest0.to_multiset().remove(d));
            assert(out@.to_multiset() =~= out0.to_multiset().insert(d));
            assert(out@.to_multiset().add(rest@.to_multiset()) =~= input0.to_multiset());
            assert forall|j: int| 0 <= j < rest@.len() implies lex_le(
                encode_utf8(d.path@),
                encode_utf8((#[trigger] rest@[j]).path@),
            ) by {
                if j < m {
                    assert(rest@[j] == rest0[j]);
                } else {
                    assert(rest@[j] == rest0[j + 1]);
                }
            }
            assert forall|i: int, j: int| 0 <= i < j < out@.len() implies lex_le(
                encode_utf8((#[trigger] out@[i]).path@),
                encode_utf8((#[trigger] out@[j]).path@),
            ) by {
                if j == out@.len() - 1 {
                    assert(out@[i] == out0[i]);
                    assert(out@[j] == d);
                    assert(d == rest0[m as int]);
                } else {
                    assert(out@[i] == out0[i]);
                    assert(out@[j] == out0[j]);
                }
            }
            assert forall|i: int| 0 <= i < rest@.len() implies input0.contains(
                #[trigger] rest@[i],
            ) by {
                if i < m {
                    assert(rest@[i] == rest0[i]);
                } else {
                    assert(rest@[i] == rest0[i + 1]);
                }
            }
        }
    }
    proof {
        assert(rest@.to_multiset().len() == 0);
        assert(out@.to_multiset().add(rest@.to_multiset()) =~= out@.to_multiset());
        assert(reindexed(perm, input0, out@));
    }
    out
}

/// One kibibyte, the unit step of the size rendering.
pub const KIB: u64 = 1024;

/// One mebibyte.
pub const MIB: u64 = 1048576;

/// One gibibyte.
pub const GIB: u64 = 1073741824;

/// One tebibyte.
pub const TIB: u64 = 1099511627776;

/// Which unit a byte count is rendered in: 0 bytes, 1 KB, 2 MB, 3 GB,
/// 4 TB.
pub open spec fn size_unit(bytes: u64) -> int {
    if bytes < KIB {
        0
    } else if bytes < MIB {
        1
    } else if bytes < GIB {
        2
    } else if bytes < TIB {
        3
    } else {
        4
    }
}

/// The divisor of a unit above bytes.
pub open spec fn unit_divisor(u: int) -> u64 {
    if u == 1 {
        KIB
    } else if u == 2 {
        MIB
    } else if u == 3 {
        GIB
    } else {
        TIB
    }
}

/// The unit's suffix: "B", "KB", "MB", "GB" or "TB".
pub open spec fn unit_suffix(u: int) -> Seq<u8> {
    if u == 0 {
        seq![0x42u8]
    } else if u == 1 {
        seq![0x4Bu8, 0x42u8]
    } else if u == 2 {
        seq![0x4Du8, 0x42u8]
    } else if u == 3 {
        seq![0x47u8, 0x42u8]
    } else {
        seq![0x54u8, 0x42u8]
    }
}

/// Tenths digit of `bytes / d`, rounded to the nearest tenth with
/// ties to even, plus the carry when rounding reaches the next whole:
/// 0 through 9, or 10 meaning the whole part goes up by one.
pub open spec fn rounded_tenths(bytes: u64, d: u64) -> int {
    let q = (bytes % d) * 10 / (d as int);
    let r2 = (bytes % d) * 10 % (d as int);
    if 2 * r2 > d || (2 * r2 == d && q % 2 == 1) {
        q + 1
    } else {
        q
    }
}

/// The rendered size: whole bytes below one KiB, otherwise the whole
/// part, a dot, the tenths digit rounded to nearest (ties to even),
/// and the unit.
pub open spec fn format_size_bytes(bytes: u64) -> Seq<u8> {
    let u = size_unit(bytes);
    if u == 0 {
        dec_bytes(bytes as nat) + seq![0x20u8, 0x42u8]
    } else {
        let d = unit_divisor(u);
        let t = rounded_tenths(bytes, d);
        let whole = bytes / d + if t == 10 { 1int } else { 0int };
        let digit = if t == 10 { 0int } else { t };
        dec_bytes(whole as nat) + seq![0x2Eu8, (0x30 + digit) as u8, 0x20u8] + unit_suffix(u)
    }
}

/// An injective per-index mapping from listed records to the kept
/// scans they were built from: record `i` was built from scan `f[i]`,
/// and no two records share a scan.
pub open spec fn listed_injectively(
    r: Seq<StorageDevice>,
    entries: Seq<RawDeviceScan>,
    mounts: Seq<u8>,
    f: Seq<int>,
) -> bool {
    &&& f.len() == r.len()
    &&& forall|i: int|
        0 <= i < r.len() ==> 0 <= (#[trigger] f[i]) < entries.len() && kept_scan(entries[f[i]])
            && device_matches(r[i], entries[f[i]], mounts)
    &&& forall|i: int, j: int| 0 <= i < j < r.len() ==> f[i] != f[j]
}

/// Everything `detect_storage_devices` promises: the list is ordered
/// by path, exactly the kept scans are listed, and the records map
/// one-to-one onto kept scans.
pub open spec fn detect_post(
    entries: Seq<RawDeviceScan>,
    mounts: Seq<u8>,
    r: Seq<StorageDevice>,
) -> bool {
    &&& sorted_by_path(r)
    &&& r.len() == entries.filter(|e: RawDeviceScan| kept_scan(e)).len()
    &&& exists|f: Seq<int>| listed_injectively(r, entries, mounts, f)
}

/// `dst` is `src` reindexed by `p`: each element comes from a distinct
/// source index.
pub open spec fn reindexed(p: Seq<int>, src: Seq<StorageDevice>, dst: Seq<StorageDevice>) -> bool {
    &&& p.len() == dst.len()
    &&& forall|i: int|
        0 <= i < dst.len() ==> 0 <= (#[trigger] p[i]) < src.len() && dst[i] == src[p[i]]
    &&& forall|i: int, j: int| 0 <= i < j < dst.len() ==> p[i] != p[j]
}

/// The Linux platform backend.
pub struct LinuxStorage;

impl StorageInterface for LinuxStorage {
    #[verifier::loop_isolation(false)]
    fn detect_storage_devices(entries: Vec<RawDeviceScan>, mounts: &Vec<u8>) -> (r: Vec<
        StorageDevice,
    >) {
        let mut kept: Vec<StorageDevice> = Vec::new();
        let ghost mut g: Seq<int> = Seq::empty();
        let n = entries.len();
        let mut k: usize = 0;
        let mut lp: Vec<u8> = Vec::new();
        lp.push(0x6C);
        lp.push(0x6F);
        lp.push(0x6F);
        lp.push(0x70);
        let mut rp: Vec<u8> = Vec::new();
        rp.push(0x72);
        rp.push(0x61);
        rp.push(0x6D);
        let mut dp: Vec<u8> = Vec::new();
        dp.push(0x64);
        dp.push(0x6D);
        dp.push(0x2D);
        proof {
            assert(lp@ =~= loop_prefix());
            assert(rp@ =~= ram_prefix());
            assert(dp@ =~= dm_prefix());
        }
        while k < n
            invariant
                k <= n,
                n == entries@.len(),
                lp@ =~= loop_prefix(),
                rp@ =~= ram_prefix(),
                dp@ =~= dm_prefix(),
                kept@.len() == entries@.subrange(0, k as int).filter(
                    |e: RawDeviceScan| kept_scan(e),
                ).len(),
                g.len() == kept@.len(),
                forall|i: int|
                    0 <= i < kept@.len() ==> 0 <= (#[trigger] g[i]) < k && kept_scan(
                        entries@[g[i]],
                    ) && device_matches(kept@[i], entries@[g[i]], mounts@),
                forall|i: int, j: int| 0 <= i < j < kept@.len() ==> g[i] < g[j],
            decreases n - k,
        {
            let e = &entries[k];
            let name_bytes = e.name.as_str().as_bytes();
            let virt = starts_with_bytes(name_bytes, lp.as_slice()) || starts_with_bytes(
                name_bytes,
                rp.as_slice(),
            ) || starts_with_bytes(name_bytes, dp.as_slice());
            proof {
                reveal(Seq::filter);
                assert(entries@.subrange(0, k + 1).drop_last() =~= entries@.subrange(0, k as int));
                assert(entries@.subrange(0, k + 1).last() == entries@[k as int]);
            }
            if e.present && !virt {
                let d = create_storage_device(e, mounts);
                kept.push(d);
                proof {
                    g = g.push(k as int);
                    assert(kept@[kept@.len() - 1] == d);
                    assert(kept_scan(entries@[k as int]));
                    assert(device_matches(d, entries@[k as int], mounts@));
                }
            }
            k = k + 1;
        }
        proof {
            assert(entries@.subrange(0, n as int) =~= entries@);
        }
        let r = sort_by_path(kept);
        proof {
            let p = choose|p: Seq<int>| reindexed(p, kept@, r@);
            let f = Seq::new(r@.len() as nat, |i: int| g[p[i]]);
            assert forall|i: int| 0 <= i < r@.len() implies 0 <= (#[trigger] f[i])
                < entries@.len() && kept_scan(entries@[f[i]]) && device_matches(
                r@[i],
                entries@[f[i]],
                mounts@,
            ) by {
                assert(r@[i] == kept@[p[i]]);
                assert(device_matches(kept@[p[i]], entries@[g[p[i]]], mounts@));
            }
            assert forall|i: int, j: int| 0 <= i < j < r@.len() implies f[i] != f[j] by {
                assert(p[i] != p[j]);
                if p[i] < p[j] {
                    assert(g[p[i]] < g[p[j]]);
                } else {
                    assert(g[p[j]] < g[p[i]]);
                }
            }
            assert(listed_injectively(r@, entries@, mounts@, f));
        }
        r
    }

    fn format_size(bytes: u64) -> (r: String) {
        let mut v: Vec<u8>;
        if bytes < KIB {
            v = u64_to_dec(bytes);
            v.push(0x20);
            v.push(0x42);
        } else {
            let (d, tag): (u64, u8) = if bytes < MIB {
                (KIB, 0x4B)
            } else if bytes < GIB {
                (MIB, 0x4D)
            } else if bytes < TIB {
                (GIB, 0x47)
            } else {
                (TIB, 0x54)
            };
            let rem = bytes % d;
            proof {
                assert(rem * 10 / (d as int) < 10) by (nonlinear_arith)
                    requires rem < d, d >= 1;
            }
            let q = rem * 10 / d;
            let r2 = rem * 10 % d;
            let t: u64 = if 2 * r2 > d || (2 * r2 == d && q % 2 == 1) {
                q + 1
            } else {
                q
            };
            let whole = bytes / d + if t == 10 { 1 } else { 0 };
            let digit: u64 = if t == 10 { 0 } else { t };
            proof {
                assert(bytes / d + 1 <= u64::MAX) by (nonlinear_arith)
                    requires d >= 1024, bytes <= u64::MAX;
            }
            v = u64_to_dec(whole);
            v.push(0x2E);
            v.push(0x30 + (digit as u8));
            v.push(0x20);
            v.push(tag);
            v.push(0x42);
        }
        proof {
            assert(v@ =~= format_size_bytes(bytes));
            assert forall|i: int| 0 <= i < v@.len() implies v@[i] < 128 by {
                let u = size_unit(bytes);
                let db = if u == 0 {
                    dec_bytes(bytes as nat)
                } else {
                    let d2 = unit_divisor(u);
                    let t2 = rounded_tenths(bytes, d2);
                    dec_bytes((bytes / d2 + if t2 == 10 { 1int } else { 0int }) as nat)
                };
                if i < db.len() {
                    assert(v@[i] == db[i]);
                }
            }
        }
        ascii_to_string(v)
    }

    fn identify_ata_device(ata_storage_driver: &AtaStorageDriver, words: &Vec<u16>) -> (r: Result<
        AtaDeviceInfo,
        AtaError,
    >) {
        ata_storage_driver.identify_ata_device(words)
    }
}

} // verus!
