//! Byte-string helpers behind the device-description logic: printable
//! sanitising, substring search, decimal parsing and formatting, and
//! whitespace trimming, each against an exact sequence-level model.

use vstd::prelude::*;
use vstd::utf8::{decode_utf8, valid_utf8};

verus! {

/// A byte kept as-is when building display text: printable ASCII.
pub open spec fn printable_or_space(b: u8) -> u8 {
    if 0x20 <= b <= 0x7E {
        b
    } else {
        0x20
    }
}

/// The characters of an ASCII byte string.
pub open spec fn ascii_chars(s: Seq<u8>) -> Seq<char> {
    s.map(|i: int, b: u8| b as char)
}

/// Relies on String::from_utf8: bytes below 128 are one-byte UTF-8
/// code points, so the string's characters are the bytes read as chars.
#[verifier::external_body]
pub fn ascii_to_string(bytes: Vec<u8>) -> (r: String)
    requires
        forall|i: int| 0 <= i < bytes@.len() ==> bytes@[i] < 128,
    ensures
        r@ =~= ascii_chars(bytes@),
{
    match String::from_utf8(bytes) {
        Ok(s) => s,
        Err(_) => String::new(),
    }
}

/// Relies on String::from_utf8: it succeeds exactly on valid UTF-8,
/// and then the string's characters are what those bytes decode to.
#[verifier::external_body]
pub fn utf8_to_string(bytes: Vec<u8>) -> (r: Option<String>)
    ensures
        r matches Some(s) ==> valid_utf8(bytes@) && s@ =~= decode_utf8(bytes@),
        r is None ==> !valid_utf8(bytes@),
{
    match String::from_utf8(bytes) {
        Ok(s) => Some(s),
        Err(_) => None,
    }
}

/// Replace everything but printable ASCII by a space.
pub fn sanitize_printable(v: &[u8]) -> (r: Vec<u8>)
    ensures
        r@ =~= v@.map(|i: int, b: u8| printable_or_space(b)),
{
    let mut r: Vec<u8> = Vec::new();
    let mut i: usize = 0;
    while i < v.len()
        invariant
            i <= v@.len(),
            r@.len() == i,
            forall|k: int| 0 <= k < i ==> r@[k] == printable_or_space(#[trigger] v@[k]),
        decreases v@.len() - i,
    {
        let b = v[i];
        if 0x20 <= b && b <= 0x7E {
            r.push(b);
        } else {
            r.push(0x20);
        }
        i = i + 1;
    }
    proof {
        assert(r@ =~= v@.map(|i: int, b: u8| printable_or_space(b)));
    }
    r
}

/// Append a byte slice to a byte vector.
pub fn append_bytes(out: &mut Vec<u8>, s: &[u8])
    ensures
        final(out)@ =~= old(out)@ + s@,
{
    let ghost out0 = old(out)@;
    let mut i: usize = 0;
    while i < s.len()
        invariant
            i <= s@.len(),
            out@ =~= out0 + s@.subrange(0, i as int),
        decreases s@.len() - i,
    {
        out.push(s[i]);
        proof {
            assert(out@ =~= out0 + s@.subrange(0, i + 1 as int));
        }
        i = i + 1;
    }
    proof {
        assert(s@.subrange(0, s@.len() as int) =~= s@);
    }
}

/// The needle occurs in the haystack at offset `k`.
pub open spec fn is_match_at(h: Seq<u8>, n: Seq<u8>, k: int) -> bool {
    &&& 0 <= k
    &&& k + n.len() <= h.len()
    &&& forall|t: int| 0 <= t < n.len() ==> h[k + t] == (#[trigger] n[t])
}

/// The needle occurs somewhere in the haystack.
pub open spec fn contains_seq(h: Seq<u8>, n: Seq<u8>) -> bool {
    exists|k: int| is_match_at(h, n, k)
}

/// Whether the haystack starts with the needle.
pub fn starts_with_bytes(h: &[u8], n: &[u8]) -> (r: bool)
    ensures
        r == is_match_at(h@, n@, 0),
{
    if n.len() > h.len() {
        return false;
    }
    let mut t: usize = 0;
    while t < n.len()
        invariant
            t <= n@.len(),
            n@.len() <= h@.len(),
            forall|u: int| 0 <= u < t ==> h@[u] == (#[trigger] n@[u]),
        decreases n@.len() - t,
    {
        if h[t] != n[t] {
            return false;
        }
        t = t + 1;
    }
    true
}

/// Whether the haystack contains the needle anywhere.
#[verifier::loop_isolation(false)]
pub fn contains_bytes(h: &[u8], n: &[u8]) -> (r: bool)
    ensures
        r == contains_seq(h@, n@),
{
    if n.len() > h.len() {
        proof {
            assert(forall|k: int| !is_match_at(h@, n@, k));
        }
        return false;
    }
    let bound = h.len() - n.len();
    let mut k: usize = 0;
    while k <= bound
        invariant
            k <= bound + 1,
            forall|q: int| 0 <= q < k ==> !is_match_at(h@, n@, q),
        decreases bound + 1 - k,
    {
        let mut t: usize = 0;
        let mut hit: bool = true;
        while hit && t < n.len()
            invariant
                t <= n@.len(),
                k + n@.len() <= h@.len(),
                hit ==> forall|u: int| 0 <= u < t ==> h@[k + u] == (#[trigger] n@[u]),
                !hit ==> !is_match_at(h@, n@, k as int),
            decreases n@.len() - t + (if hit { 1int } else { 0int }),
        {
            if h[k + t] != n[t] {
                hit = false;
            } else {
                t = t + 1;
            }
        }
        if hit {
            proof {
                assert(is_match_at(h@, n@, k as int));
            }
            return true;
        }
        k = k + 1;
    }
    proof {
        assert forall|q: int| !is_match_at(h@, n@, q) by {
            if is_match_at(h@, n@, q) {
                assert(0 <= q <= h@.len() - n@.len());
            }
        }
    }
    false
}

/// The decimal digits of `n`, most significant first.
pub open spec fn dec_bytes(n: nat) -> Seq<u8>
    decreases n,
{
    if n < 10 {
        seq![(0x30 + n) as u8]
    } else {
        dec_bytes(n / 10) + seq![(0x30 + n % 10) as u8]
    }
}

/// Format `n` in decimal.
pub fn u64_to_dec(n: u64) -> (r: Vec<u8>)
    ensures
        r@ =~= dec_bytes(n as nat),
        all_digits(r@),
    decreases n,
{
    proof {
        lemma_dec_bytes_digits(n as nat);
    }
    if n < 10 {
        let mut v: Vec<u8> = Vec::new();
        v.push(0x30 + (n as u8));
        v
    } else {
        let mut v = u64_to_dec(n / 10);
        v.push(0x30 + ((n % 10) as u8));
        v
    }
}

/// Every byte of a decimal rendering is a digit, and there is one.
pub proof fn lemma_dec_bytes_digits(n: nat)
    ensures
        all_digits(dec_bytes(n)),
        dec_bytes(n).len() >= 1,
    decreases n,
{
    if n >= 10 {
        lemma_dec_bytes_digits(n / 10);
    }
}

/// The number a digit string denotes.
pub open spec fn dec_val(s: Seq<u8>) -> int
    decreases s.len(),
{
    if s.len() == 0 {
        0
    } else {
        dec_val(s.drop_last()) * 10 + (s.last() - 0x30)
    }
}

/// Every byte is a decimal digit.
pub open spec fn all_digits(s: Seq<u8>) -> bool {
    forall|i: int| 0 <= i < s.len() ==> 0x30 <= (#[trigger] s[i]) < 0x3A
}

/// A digit string denotes a number, never something negative.
proof fn lemma_dec_val_nonneg(s: Seq<u8>, b: int)
    requires
        all_digits(s),
        0 <= b <= s.len(),
    ensures
        dec_val(s.subrange(0, b)) >= 0,
    decreases b,
{
    if b > 0 {
        lemma_dec_val_nonneg(s, b - 1);
        assert(s.subrange(0, b).drop_last() =~= s.subrange(0, b - 1));
        assert(s.subrange(0, b).last() == s[b - 1]);
    }
}

/// A longer digit prefix never denotes a smaller number.
proof fn lemma_dec_val_prefix_mono(s: Seq<u8>, a: int, b: int)
    requires
        all_digits(s),
        0 <= a <= b <= s.len(),
    ensures
        dec_val(s.subrange(0, a)) <= dec_val(s.subrange(0, b)),
    decreases b - a,
{
    if a < b {
        lemma_dec_val_prefix_mono(s, a, b - 1);
        lemma_dec_val_nonneg(s, b - 1);
        assert(s.subrange(0, b).drop_last() =~= s.subrange(0, b - 1));
        assert(s.subrange(0, b).last() == s[b - 1]);
        assert(dec_val(s.subrange(0, b - 1)) * 10 >= dec_val(s.subrange(0, b - 1)));
    }
}

/// Parse an unsigned decimal number.
///
/// Succeeds exactly on non-empty all-digit strings whose value fits in
/// a `u64`, and then returns that value.  Stricter than a
/// general-purpose integer parser: no sign, not even a leading plus.
#[verifier::loop_isolation(false)]
pub fn parse_u64_dec(s: &[u8]) -> (r: Option<u64>)
    ensures
        r matches Some(v) ==> s@.len() > 0 && all_digits(s@) && v == dec_val(s@),
        r is None ==> s@.len() == 0 || !all_digits(s@) || dec_val(s@) > u64::MAX,
{
    if s.len() == 0 {
        return None;
    }
    let mut acc: u64 = 0;
    let mut i: usize = 0;
    while i < s.len()
        invariant
            i <= s@.len(),
            all_digits(s@.subrange(0, i as int)),
            acc == dec_val(s@.subrange(0, i as int)),
        decreases s@.len() - i,
    {
        let b = s[i];
        if b < 0x30 || b >= 0x3A {
            proof {
                assert(!all_digits(s@));
            }
            return None;
        }
        let d: u64 = (b - 0x30) as u64;
        let ghost prefix = s@.subrange(0, i + 1);
        proof {
            assert(prefix.drop_last() =~= s@.subrange(0, i as int));
            assert(prefix.last() == s@[i as int]);
            assert(all_digits(prefix));
            assert(dec_val(prefix) == acc * 10 + d);
        }
        let wide = match acc.checked_mul(10) {
            Some(x) => x.checked_add(d),
            None => None,
        };
        match wide {
            Some(y) => {
                acc = y;
            }
            None => {
                proof {
                    if all_digits(s@) {
                        lemma_dec_val_prefix_mono(s@, i + 1, s@.len() as int);
                        assert(s@.subrange(0, s@.len() as int) =~= s@);
                    }
                }
                return None;
            }
        }
        i = i + 1;
    }
    proof {
        assert(s@.subrange(0, s@.len() as int) =~= s@);
    }
    Some(acc)
}

/// ASCII whitespace, as trimming understands it: space, tab, line
/// feed and carriage return.  Vertical tab, form feed and Unicode
/// whitespace are kept.
pub open spec fn is_space(b: u8) -> bool {
    b == 0x20 || b == 0x09 || b == 0x0A || b == 0x0D
}

/// Index of the first non-space byte at or after `from`; the length
/// when everything from `from` on is space.
pub open spec fn first_non_space(s: Seq<u8>, from: int) -> int
    decreases s.len() - from,
{
    if from < 0 || from >= s.len() {
        s.len() as int
    } else if !is_space(s[from]) {
        from
    } else {
        first_non_space(s, from + 1)
    }
}

/// Index one past the last non-space byte below `upto`; zero when
/// everything below `upto` is space.
pub open spec fn end_non_space(s: Seq<u8>, upto: int) -> int
    decreases upto,
{
    if upto <= 0 || upto > s.len() {
        0
    } else if !is_space(s[upto - 1]) {
        upto
    } else {
        end_non_space(s, upto - 1)
    }
}

/// `s` with leading and trailing ASCII whitespace removed.
pub open spec fn trim_spec(s: Seq<u8>) -> Seq<u8> {
    let a = first_non_space(s, 0);
    let b = end_non_space(s, s.len() as int);
    if a < b {
        s.subrange(a, b)
    } else {
        Seq::empty()
    }
}

/// Everything below the first non-space index is space.
proof fn lemma_first_non_space_props(s: Seq<u8>, from: int)
    requires
        0 <= from <= s.len(),
    ensures
        from <= first_non_space(s, from) <= s.len(),
        forall|i: int| from <= i < first_non_space(s, from) ==> is_space(#[trigger] s[i]),
    decreases s.len() - from,
{
    if from < s.len() && is_space(s[from]) {
        lemma_first_non_space_props(s, from + 1);
    }
}

/// When everything below `upto` is space, nothing non-space is left.
proof fn lemma_end_all_space(s: Seq<u8>, upto: int)
    requires
        0 <= upto <= s.len(),
        forall|i: int| 0 <= i < upto ==> is_space(#[trigger] s[i]),
    ensures
        end_non_space(s, upto) == 0,
    decreases upto,
{
    if upto > 0 {
        lemma_end_all_space(s, upto - 1);
    }
}

/// Trim leading and trailing ASCII whitespace.
#[verifier::loop_isolation(false)]
pub fn trim_ascii(v: &[u8]) -> (r: Vec<u8>)
    ensures
        r@ =~= trim_spec(v@),
{
    let len = v.len();
    let mut a: usize = 0;
    while a < len && (v[a] == 0x20 || v[a] == 0x09 || v[a] == 0x0A || v[a] == 0x0D)
        invariant
            a <= len,
            first_non_space(v@, 0) == first_non_space(v@, a as int),
        decreases len - a,
    {
        a = a + 1;
    }
    proof {
        assert(first_non_space(v@, 0) == a);
        lemma_first_non_space_props(v@, 0);
    }
    let mut b: usize = len;
    while b > a && (v[b - 1] == 0x20 || v[b - 1] == 0x09 || v[b - 1] == 0x0A || v[b - 1] == 0x0D)
        invariant
            a <= b <= len,
            end_non_space(v@, len as int) == end_non_space(v@, b as int),
        decreases b,
    {
        b = b - 1;
    }
    proof {
        if b > a {
            assert(end_non_space(v@, len as int) == b);
        } else {
            assert(forall|i: int| 0 <= i < a ==> is_space(#[trigger] v@[i]));
            lemma_end_all_space(v@, a as int);
            assert(end_non_space(v@, len as int) == 0);
        }
    }
    let mut r: Vec<u8> = Vec::new();
    let mut i: usize = a;
    while i < b
        invariant
            a <= i <= b <= len,
            r@.len() == i - a,
            forall|k: int| a <= k < i ==> r@[k - a] == (#[trigger] v@[k]),
        decreases b - i,
    {
        r.push(v[i]);
        i = i + 1;
    }
    proof {
        if a < b {
            assert(r@ =~= v@.subrange(a as int, b as int));
        } else {
            assert(r@ =~= Seq::<u8>::empty());
        }
    }
    r
}

} // verus!
