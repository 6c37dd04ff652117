use vstd::prelude::*;
use base64::Engine;
use hmac::Mac;
use sha2::Digest;

verus! {

/// The SHA-256 digest of `data`, as `sha2::Sha256` computes it.
pub uninterp spec fn sha256_digest(data: Seq<u8>) -> Seq<u8>;

/// HMAC-SHA256 of `data` under `key`, as `hmac::Hmac<sha2::Sha256>` computes it.
pub uninterp spec fn hmac_sha256_tag(key: Seq<u8>, data: Seq<u8>) -> Seq<u8>;

/// The character of the standard base64 alphabet for the six-bit value `v`:
/// `A`-`Z`, `a`-`z`, `0`-`9`, `+`, `/`.
pub open spec fn base64_char(v: int) -> char {
    if v < 26 {
        (65 + v) as char
    } else if v < 52 {
        (97 + (v - 26)) as char
    } else if v < 62 {
        (48 + (v - 52)) as char
    } else if v == 62 {
        '+'
    } else {
        '/'
    }
}

/// Standard (RFC 4648, padded) base64 text of `data`: each group of three bytes becomes
/// four characters of six bits each; a final group of two bytes becomes three characters
/// and `=`, one of one byte two characters and `==`.
pub open spec fn base64_standard(data: Seq<u8>) -> Seq<char>
    decreases data.len(),
{
    let b0 = if data.len() > 0 { data[0] as int } else { 0 };
    let b1 = if data.len() > 1 { data[1] as int } else { 0 };
    let b2 = if data.len() > 2 { data[2] as int } else { 0 };
    if data.len() == 0 {
        seq![]
    } else if data.len() == 1 {
        seq![base64_char(b0 / 4), base64_char((b0 % 4) * 16), '=', '=']
    } else if data.len() == 2 {
        seq![base64_char(b0 / 4), base64_char((b0 % 4) * 16 + b1 / 16), base64_char((b1 % 16) * 4), '=']
    } else {
        seq![
            base64_char(b0 / 4),
            base64_char((b0 % 4) * 16 + b1 / 16),
            base64_char((b1 % 16) * 4 + b2 / 64),
            base64_char(b2 % 64),
        ] + base64_standard(data.skip(3))
    }
}

/// Calls `sha2::Sha256::digest`. The result is named by `sha256_digest`; the crate's output
/// type is 32 bytes long.
#[verifier::external_body]
pub(crate) fn sha256(data: &[u8]) -> (res: Vec<u8>)
    ensures
        res@ == sha256_digest(data@),
        res@.len() == 32,
{
    sha2::Sha256::digest(data).to_vec()
}

/// Calls `Hmac::<Sha256>::new_from_slice`, `update` and `finalize`. The `hmac` crate accepts
/// keys of any length (long keys are hashed, short ones padded), so the key is never
/// rejected; the tag is named by `hmac_sha256_tag` and is 32 bytes long.
#[verifier::external_body]
pub(crate) fn hmac_sha256_raw(key: &[u8], data: &[u8]) -> (res: Option<Vec<u8>>)
    ensures
        res is Some,
        res->0@ == hmac_sha256_tag(key@, data@),
        res->0@.len() == 32,
{
    match hmac::Hmac::<sha2::Sha256>::new_from_slice(key) {
        Ok(mut mac) => {
            mac.update(data);
            Some(mac.finalize().into_bytes().to_vec())
        },
        Err(_) => None,
    }
}

/// Calls `base64::engine::general_purpose::STANDARD.encode`: the `STANDARD` engine uses the
/// standard alphabet with padding, so the text is `base64_standard` of the bytes.
#[verifier::external_body]
pub(crate) fn base64_encode(data: &[u8]) -> (res: String)
    ensures
        res@ == base64_standard(data@),
{
    base64::engine::general_purpose::STANDARD.encode(data)
}

/// The two lowercase hexadecimal digits of each byte, in order.
pub open spec fn hex_lower_text(bytes: Seq<u8>) -> Seq<char>
    decreases bytes.len(),
{
    if bytes.len() == 0 {
        seq![]
    } else {
        hex_lower_text(bytes.drop_last()) + seq![
            hex_digit_char((bytes.last() / 16) as int),
            hex_digit_char((bytes.last() % 16) as int),
        ]
    }
}

/// Every character of `text` is a lowercase hexadecimal digit.
pub open spec fn is_lower_hex_text(text: Seq<char>) -> bool {
    forall|i: int| 0 <= i < text.len() ==> {
        let c = #[trigger] text[i];
        ('0' <= c && c <= '9') || ('a' <= c && c <= 'f')
    }
}

/// Hex text has two lowercase hex digits per byte.
pub proof fn lemma_hex_lower_shape(bytes: Seq<u8>)
    ensures
        hex_lower_text(bytes).len() == 2 * bytes.len(),
        is_lower_hex_text(hex_lower_text(bytes)),
    decreases bytes.len(),
{
    if bytes.len() > 0 {
        lemma_hex_lower_shape(bytes.drop_last());
        let hi = (bytes.last() / 16) as int;
        let lo = (bytes.last() % 16) as int;
        lemma_hex_digit_is_lower_hex(hi);
        lemma_hex_digit_is_lower_hex(lo);
        let prev = hex_lower_text(bytes.drop_last());
        let whole = hex_lower_text(bytes);
        assert(whole =~= prev + seq![hex_digit_char(hi), hex_digit_char(lo)]);
        assert forall|i: int| 0 <= i < whole.len() implies {
            let c = #[trigger] whole[i];
            ('0' <= c && c <= '9') || ('a' <= c && c <= 'f')
        } by {
            if i < prev.len() {
                assert(whole[i] == prev[i]);
            }
        }
    }
}

proof fn lemma_hex_digit_is_lower_hex(d: int)
    requires
        0 <= d < 16,
    ensures
        ('0' <= hex_digit_char(d) && hex_digit_char(d) <= '9') || ('a' <= hex_digit_char(d) && hex_digit_char(d) <= 'f'),
{
}

/// The lowercase hexadecimal digit for `d` (0 to 15).
pub open spec fn hex_digit_char(d: int) -> char {
    if d < 10 {
        crate::numtext::digit_char(d)
    } else if d == 10 { 'a' }
    else if d == 11 { 'b' }
    else if d == 12 { 'c' }
    else if d == 13 { 'd' }
    else if d == 14 { 'e' }
    else { 'f' }
}

fn hex_digit(d: u8) -> (c: char)
    requires
        d < 16,
    ensures
        c == hex_digit_char(d as int),
{
    if d < 10 {
        crate::numtext::digit(d as u64)
    } else if d == 10 { 'a' }
    else if d == 11 { 'b' }
    else if d == 12 { 'c' }
    else if d == 13 { 'd' }
    else if d == 14 { 'e' }
    else { 'f' }
}

/// Lowercase hexadecimal text of `bytes` (`format!("{byte:02x}")` for each byte).
pub fn hex_lower(bytes: &[u8]) -> (res: String)
    ensures
        res@ == hex_lower_text(bytes@),
{
    let mut out = String::new();
    let mut i: usize = 0;
    while i < bytes.len()
        invariant
            0 <= i <= bytes.len(),
            out@ == hex_lower_text(bytes@.take(i as int)),
        decreases bytes.len() - i,
    {
        let b = bytes[i];
        crate::text::push_char(&mut out, hex_digit(b / 16));
        crate::text::push_char(&mut out, hex_digit(b % 16));
        assert(bytes@.take(i + 1).drop_last() =~= bytes@.take(i as int));
        i = i + 1;
    }
    assert(bytes@.take(bytes.len() as int) =~= bytes@);
    out
}

/// Lowercase hexadecimal SHA-256 digest of `bytes`.
pub fn sha256_hex(bytes: &[u8]) -> (res: String)
    ensures
        res@ == hex_lower_text(sha256_digest(bytes@)),
{
    let digest = sha256(bytes);
    hex_lower(digest.as_slice())
}

} // verus!
