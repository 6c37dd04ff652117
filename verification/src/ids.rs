use vstd::prelude::*;
use vstd::utf8::encode_utf8;
use crate::digest::hex_digit_char;
use crate::text::{owned, push_char, chars_of, string_from_chars, is_whitespace_char, char_is_whitespace};

verus! {

/// One FNV-1a round over a byte, 64-bit.
pub open spec fn fnv1a64_step(hash: u64, byte: u8) -> u64 {
    (((hash ^ (byte as u64)) as nat * 0x100000001b3) % 0x10000000000000000) as u64
}

/// 64-bit FNV-1a hash of `bytes`.
pub open spec fn fnv1a64(bytes: Seq<u8>) -> u64
    decreases bytes.len(),
{
    if bytes.len() == 0 {
        0xcbf29ce484222325u64
    } else {
        fnv1a64_step(fnv1a64(bytes.drop_last()), bytes.last())
    }
}

fn fnv1a64_extend(hash: u64, bytes: &[u8]) -> (res: u64)
    ensures
        forall|prefix: Seq<u8>| fnv1a64(prefix) == hash ==> #[trigger] fnv1a64(prefix + bytes@) == res,
{
    let mut h = hash;
    let mut i: usize = 0;
    while i < bytes.len()
        invariant
            0 <= i <= bytes.len(),
            forall|prefix: Seq<u8>| fnv1a64(prefix) == hash ==> #[trigger] fnv1a64(prefix + bytes@.take(i as int)) == h,
        decreases bytes.len() - i,
    {
        let ghost old_h = h;
        h = (h ^ (bytes[i] as u64)).wrapping_mul(0x0000_0100_0000_01b3);
        assert(h == fnv1a64_step(old_h, bytes@[i as int]));
        assert forall|prefix: Seq<u8>| fnv1a64(prefix) == hash implies #[trigger] fnv1a64(prefix + bytes@.take(i + 1)) == h by {
            assert((prefix + bytes@.take(i + 1)).drop_last() =~= prefix + bytes@.take(i as int));
            assert(fnv1a64(prefix + bytes@.take(i as int)) == old_h);
            assert((prefix + bytes@.take(i + 1)).last() == bytes@[i as int]);
        }
        i = i + 1;
    }
    assert(bytes@.take(bytes.len() as int) =~= bytes@);
    h
}

/// The public id of a row mapped to a positive 63-bit number: FNV-1a 64 of
/// `namespace:public_id` with the sign bit cleared, and 1 in place of 0.
pub open spec fn stable_numeric_id_of(namespace: Seq<char>, public_id: Seq<char>) -> i64 {
    let value = fnv1a64(encode_utf8(namespace) + seq![58u8] + encode_utf8(public_id)) as nat % 0x8000000000000000;
    if value == 0 { 1 } else { value as i64 }
}

/// A stable positive numeric id for `public_id` within `namespace`.
pub fn stable_numeric_id(namespace: &str, public_id: &str) -> (res: i64)
    ensures
        res == stable_numeric_id_of(namespace@, public_id@),
        res > 0,
{
    let ns = namespace.as_bytes();
    let colon: [u8; 1] = [58u8];
    let id = public_id.as_bytes();
    let h1 = fnv1a64_extend(0xcbf2_9ce4_8422_2325, ns);
    assert(fnv1a64(Seq::<u8>::empty()) == 0xcbf29ce484222325u64);
    assert(Seq::<u8>::empty() + ns@ =~= ns@);
    assert(fnv1a64(Seq::<u8>::empty() + ns@) == h1);
    let h2 = fnv1a64_extend(h1, colon.as_slice());
    assert(fnv1a64(ns@ + colon@) == h2);
    let h3 = fnv1a64_extend(h2, id);
    assert(fnv1a64(ns@ + colon@ + id@) == h3);
    assert(colon@ =~= seq![58u8]);
    let masked: u64 = h3 & 0x7fff_ffff_ffff_ffffu64;
    assert(h3 & 0x7fff_ffff_ffff_ffffu64 == h3 % 0x8000_0000_0000_0000u64) by (bit_vector);
    let value = masked as i64;
    if value == 0 { 1 } else { value }
}

/// The last 16 lowercase hexadecimal digits of `n`.
pub open spec fn hex16(n: nat, width: nat) -> Seq<char>
    decreases width,
{
    if width == 0 {
        seq![]
    } else {
        hex16(n / 16, (width - 1) as nat).push(hex_digit_char((n % 16) as int))
    }
}

fn push_hex(out: &mut String, n: u64, width: u64)
    ensures
        final(out)@ == old(out)@ + hex16(n as nat, width as nat),
    decreases width,
{
    if width == 0 {
        assert(old(out)@ + hex16(n as nat, 0) =~= old(out)@);
    } else {
        push_hex(out, n / 16, width - 1);
        let d = (n % 16) as u8;
        let c = if d < 10 {
            crate::numtext::digit(d as u64)
        } else if d == 10 { 'a' } else if d == 11 { 'b' } else if d == 12 { 'c' } else if d == 13 {
            'd'
        } else if d == 14 { 'e' } else { 'f' };
        push_char(out, c);
        assert(old(out)@ + hex16(n as nat, width as nat) =~= old(out)@ + hex16(
            (n / 16) as nat,
            (width - 1) as nat,
        ) + seq![hex_digit_char((n % 16) as int)]);
    }
}

/// The dedupe hash of a raw provider payload: `fnv64:` and the 16 hex digits of FNV-1a 64.
pub open spec fn payload_hash_text(raw: Seq<char>) -> Seq<char> {
    "fnv64:"@ + hex16(fnv1a64(encode_utf8(raw)) as nat, 16)
}

/// The dedupe hash of a raw provider payload.
pub fn rtc_provider_payload_hash(raw_payload: &str) -> (res: String)
    ensures
        res@ == payload_hash_text(raw_payload@),
{
    let h = fnv1a64_extend(0xcbf2_9ce4_8422_2325, raw_payload.as_bytes());
    assert(Seq::<u8>::empty() + encode_utf8(raw_payload@) =~= encode_utf8(raw_payload@));
    assert(fnv1a64(Seq::<u8>::empty()) == 0xcbf29ce484222325u64);
    let mut out = owned("fnv64:");
    push_hex(&mut out, h, 16);
    out
}

/// The dedupe key: the value when present and not empty, else the fallback.
pub open spec fn dedupe_key_text(value: Option<Seq<char>>, fallback: Seq<char>) -> Seq<char> {
    match value {
        Some(v) => if v.len() > 0 { v } else { fallback },
        None => fallback,
    }
}

/// The dedupe key: `value` when present and not empty, else `fallback`.
pub fn optional_dedupe_key(value: Option<&str>, fallback: &str) -> (res: String)
    ensures
        res@ == dedupe_key_text(
            match value {
                Some(v) => Some(v@),
                None => None,
            },
            fallback@,
        ),
{
    match value {
        Some(v) => if v.is_empty() { owned(fallback) } else { owned(v) },
        None => owned(fallback),
    }
}

/// The text without its leading whitespace (`str::trim_start`).
pub open spec fn trim_start(s: Seq<char>) -> Seq<char>
    decreases s.len(),
{
    if s.len() > 0 && is_whitespace_char(s[0]) {
        trim_start(s.drop_first())
    } else {
        s
    }
}

/// The text without its trailing whitespace (`str::trim_end`).
pub open spec fn trim_end(s: Seq<char>) -> Seq<char>
    decreases s.len(),
{
    if s.len() > 0 && is_whitespace_char(s.last()) {
        trim_end(s.drop_last())
    } else {
        s
    }
}

/// The text with leading and trailing whitespace removed (`str::trim`).
pub open spec fn trimmed(s: Seq<char>) -> Seq<char> {
    trim_end(trim_start(s))
}

proof fn lemma_trim_start_skip(s: Seq<char>, i: int)
    requires
        0 <= i < s.len(),
        is_whitespace_char(s[i]),
    ensures
        trim_start(s.skip(i)) == trim_start(s.skip(i + 1)),
{
    assert(s.skip(i).drop_first() =~= s.skip(i + 1));
}

proof fn lemma_trim_end_take(s: Seq<char>, j: int)
    requires
        0 < j <= s.len(),
        is_whitespace_char(s[j - 1]),
    ensures
        trim_end(s.take(j)) == trim_end(s.take(j - 1)),
{
    assert(s.take(j).drop_last() =~= s.take(j - 1));
}

/// `str::trim`, as characters.
pub fn trim_chars(s: &str) -> (res: Vec<char>)
    ensures
        res@ == trimmed(s@),
{
    let chars = chars_of(s);
    let mut i: usize = 0;
    assert(s@.skip(0) =~= s@);
    while i < chars.len() && char_is_whitespace(chars[i])
        invariant
            chars@ == s@,
            0 <= i <= chars.len(),
            trim_start(s@) == trim_start(s@.skip(i as int)),
        decreases chars.len() - i,
    {
        proof {
            lemma_trim_start_skip(s@, i as int);
        }
        i = i + 1;
    }
    let ghost rest = s@.skip(i as int);
    assert(trim_start(rest) == rest);
    let mut j: usize = chars.len();
    assert(rest.take(rest.len() as int) =~= rest);
    while j > i && char_is_whitespace(chars[j - 1])
        invariant
            chars@ == s@,
            rest == s@.skip(i as int),
            0 <= i <= j <= chars.len(),
            trim_end(rest) == trim_end(rest.take(j - i)),
        decreases j,
    {
        proof {
            assert(rest[j - i - 1] == s@[j - 1]);
            lemma_trim_end_take(rest, j - i);
        }
        j = j - 1;
    }
    let mut res: Vec<char> = Vec::new();
    let mut k: usize = i;
    while k < j
        invariant
            chars@ == s@,
            0 <= i <= k <= j <= chars.len(),
            res@ == s@.subrange(i as int, k as int),
        decreases j - k,
    {
        res.push(chars[k]);
        assert(s@.subrange(i as int, k + 1) =~= s@.subrange(i as int, k as int).push(s@[k as int]));
        k = k + 1;
    }
    assert(rest.take(j - i) =~= s@.subrange(i as int, j as int));
    res
}

/// How a route region is stored: the trimmed text, or empty.
pub open spec fn normalized_region(value: Option<Seq<char>>) -> Seq<char> {
    match value {
        Some(v) => trimmed(v),
        None => seq![],
    }
}

/// How a stored region is read back: the trimmed text, or none when it is empty.
pub open spec fn denormalized_region(value: Seq<char>) -> Option<Seq<char>> {
    if trimmed(value).len() == 0 {
        None
    } else {
        Some(trimmed(value))
    }
}

/// The region as a route row stores it.
pub fn normalize_region(value: Option<&str>) -> (res: String)
    ensures
        res@ == normalized_region(
            match value {
                Some(v) => Some(v@),
                None => None,
            },
        ),
{
    match value {
        Some(v) => {
            let t = trim_chars(v);
            string_from_chars(&t)
        },
        None => String::new(),
    }
}

/// The region as a route row is read back.
pub fn denormalize_region(value: String) -> (res: Option<String>)
    ensures
        match res {
            Some(r) => denormalized_region(value@) == Some(r@),
            None => denormalized_region(value@) is None,
        },
{
    let t = trim_chars(value.as_str());
    if t.len() == 0 {
        None
    } else {
        Some(string_from_chars(&t))
    }
}

} // verus!
