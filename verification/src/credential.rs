use vstd::prelude::*;
use vstd::utf8::encode_utf8;
use crate::config::VolcengineRtcProviderConfig;
use crate::digest::{base64_encode, base64_standard, hmac_sha256_raw, hmac_sha256_tag};
use crate::error::{ContractFault, RtcContractError};
use crate::numtext::{nat_text, push_nat};
use crate::text::{is_blank, owned, push_char, push_str, str_is_blank};

verus! {

/// Little-endian bytes of a 16-bit value.
pub open spec fn le16(v: nat) -> Seq<u8> {
    seq![(v % 256) as u8, ((v / 256) % 256) as u8]
}

/// Little-endian bytes of a 32-bit value.
pub open spec fn le32(v: nat) -> Seq<u8> {
    seq![
        (v % 256) as u8,
        ((v / 256) % 256) as u8,
        ((v / 65536) % 256) as u8,
        ((v / 16777216) % 256) as u8,
    ]
}

/// A byte string preceded by its 16-bit little-endian length.
pub open spec fn framed(bytes: Seq<u8>) -> Seq<u8> {
    le16(bytes.len()) + bytes
}

/// The five stream privileges (publish, publish audio, publish video, publish data,
/// subscribe), each valid until `expire_at`, preceded by their count.
pub open spec fn privilege_bytes(expire_at: u32) -> Seq<u8> {
    le16(5) + le16(0) + le32(expire_at as nat) + le16(1) + le32(expire_at as nat) + le16(2) + le32(
        expire_at as nat,
    ) + le16(3) + le32(expire_at as nat) + le16(4) + le32(expire_at as nat)
}

/// One FNV-1a round over a byte.
pub open spec fn fnv1a32_step(hash: u32, byte: u8) -> u32 {
    (((hash ^ (byte as u32)) as nat * 16777619) % 4294967296) as u32
}

/// 32-bit FNV-1a hash of `bytes`.
pub open spec fn fnv1a32(bytes: Seq<u8>) -> u32
    decreases bytes.len(),
{
    if bytes.len() == 0 {
        0x811c9dc5u32
    } else {
        fnv1a32_step(fnv1a32(bytes.drop_last()), bytes.last())
    }
}

/// The nonce of a token: FNV-1a of `app_id:room_id:user_id:issued_at`.
pub open spec fn nonce_of(app_id: Seq<char>, room_id: Seq<char>, user_id: Seq<char>, issued_at: u32) -> u32 {
    fnv1a32(
        encode_utf8(
            app_id + seq![':'] + room_id + seq![':'] + user_id + seq![':'] + nat_text(issued_at as nat),
        ),
    )
}

/// `issued_at + ttl`, saturated at `u32::MAX`.
pub open spec fn expire_at_of(issued_at: u32, ttl: u32) -> u32 {
    if issued_at + ttl > u32::MAX { u32::MAX } else { (issued_at + ttl) as u32 }
}

/// The signed part of a token.
pub open spec fn token_message(
    app_id: Seq<char>,
    room_id: Seq<char>,
    user_id: Seq<char>,
    issued_at: u32,
    ttl: u32,
) -> Seq<u8> {
    let expire_at = expire_at_of(issued_at, ttl);
    le32(nonce_of(app_id, room_id, user_id, issued_at) as nat) + le32(issued_at as nat) + le32(
        expire_at as nat,
    ) + framed(encode_utf8(room_id)) + framed(encode_utf8(user_id)) + privilege_bytes(expire_at)
}

/// The token text: version `001`, the app id, then base64 of the framed message and its
/// HMAC-SHA256 signature under the app key.
pub open spec fn token_text(
    app_id: Seq<char>,
    app_key: Seq<char>,
    room_id: Seq<char>,
    user_id: Seq<char>,
    issued_at: u32,
    ttl: u32,
) -> Seq<char> {
    let message = token_message(app_id, room_id, user_id, issued_at, ttl);
    seq!['0', '0', '1'] + app_id + base64_standard(
        framed(message) + framed(hmac_sha256_tag(encode_utf8(app_key), message)),
    )
}

/// The message of a missing token signing setting.
pub open spec fn missing_credential_message(env_name: Seq<char>) -> Seq<char> {
    "volcengine participant credential requires "@ + env_name + " or provider profile credentials"@
}

/// The message of a token that does not fit its 16-bit length fields.
pub open spec fn oversized_token_message() -> Seq<char> {
    "volcengine token payload is too large"@
}

/// A configured value that is present and not blank.
pub open spec fn configured(value: Option<String>) -> bool {
    value is Some && !is_blank(value->0@)
}

/// What `generate_volcengine_rtc_token` returns: the token and its expiry, or the first
/// failing check.
pub open spec fn token_outcome(
    config: VolcengineRtcProviderConfig,
    room_id: Seq<char>,
    user_id: Seq<char>,
    issued_at: u32,
) -> Result<(Seq<char>, u32), ContractFault> {
    if !configured(config.app_id) {
        Err(ContractFault::Unavailable(missing_credential_message("SDKWORK_RTC_VOLCENGINE_APP_ID"@)))
    } else if !configured(config.app_key) {
        Err(
            ContractFault::Unavailable(missing_credential_message("SDKWORK_RTC_VOLCENGINE_APP_KEY"@)),
        )
    } else if encode_utf8(room_id).len() > 65535 || encode_utf8(user_id).len() > 65535
        || 48 + encode_utf8(room_id).len() + encode_utf8(user_id).len() > 65535 {
        Err(ContractFault::Conflict(oversized_token_message()))
    } else {
        let app_id = config.app_id->0@;
        let ttl = config.credential_ttl_seconds;
        Ok(
            (
                token_text(app_id, config.app_key->0@, room_id, user_id, issued_at, ttl),
                expire_at_of(issued_at, ttl),
            ),
        )
    }
}

/// A byte buffer that lays out the fields of a Volcengine RTC token in little-endian order.
pub struct VolcengineTokenBuffer {
    buffer: Vec<u8>,
}

impl View for VolcengineTokenBuffer {
    type V = Seq<u8>;

    closed spec fn view(&self) -> Seq<u8> {
        self.buffer@
    }
}

impl VolcengineTokenBuffer {
    /// An empty buffer.
    pub fn new() -> (res: Self)
        ensures
            res@ == Seq::<u8>::empty(),
    {
        VolcengineTokenBuffer { buffer: Vec::new() }
    }

    /// Appends a 16-bit value, little-endian.
    pub fn put_u16(self, value: u16) -> (res: Self)
        ensures
            res@ == self@ + le16(value as nat),
    {
        let mut buffer = self.buffer;
        buffer.push((value % 256) as u8);
        buffer.push((value / 256) as u8);
        let res = VolcengineTokenBuffer { buffer };
        assert(res@ =~= self@ + le16(value as nat));
        res
    }

    /// Appends a 32-bit value, little-endian.
    pub fn put_u32(self, value: u32) -> (res: Self)
        ensures
            res@ == self@ + le32(value as nat),
    {
        let mut buffer = self.buffer;
        buffer.push((value % 256) as u8);
        buffer.push(((value / 256) % 256) as u8);
        buffer.push(((value / 65536) % 256) as u8);
        buffer.push((value / 16777216) as u8);
        let res = VolcengineTokenBuffer { buffer };
        assert(res@ =~= self@ + le32(value as nat));
        res
    }

    /// Appends `bytes` preceded by its 16-bit length; refused when the length does not fit.
    pub fn put_bytes(self, bytes: &[u8]) -> (res: Result<Self, RtcContractError>)
        ensures
            bytes@.len() <= 65535 ==> (res matches Ok(b) && b@ == self@ + framed(bytes@)),
            bytes@.len() > 65535 ==> (res matches Err(e) && e@ == ContractFault::Conflict(
                oversized_token_message(),
            )),
    {
        if bytes.len() > 65535 {
            return Err(RtcContractError::Conflict(owned("volcengine token payload is too large")));
        }
        let mut buffer = self.buffer;
        buffer.push((bytes.len() % 256) as u8);
        buffer.push((bytes.len() / 256) as u8);
        let ghost prefix = buffer@;
        let mut i: usize = 0;
        while i < bytes.len()
            invariant
                0 <= i <= bytes.len(),
                buffer@ == prefix + bytes@.take(i as int),
            decreases bytes.len() - i,
        {
            buffer.push(bytes[i]);
            assert(bytes@.take(i + 1) =~= bytes@.take(i as int).push(bytes@[i as int]));
            i = i + 1;
        }
        assert(bytes@.take(bytes.len() as int) =~= bytes@);
        let res = VolcengineTokenBuffer { buffer };
        assert(res@ =~= self@ + framed(bytes@));
        Ok(res)
    }

    /// Appends the UTF-8 bytes of `value`, framed by their length.
    pub fn put_string(self, value: &str) -> (res: Result<Self, RtcContractError>)
        ensures
            encode_utf8(value@).len() <= 65535 ==> (res matches Ok(b) && b@ == self@ + framed(
                encode_utf8(value@),
            )),
            encode_utf8(value@).len() > 65535 ==> (res matches Err(e) && e@
                == ContractFault::Conflict(oversized_token_message())),
    {
        self.put_bytes(value.as_bytes())
    }

    /// Appends the five stream privileges, each expiring at `expire_at`.
    pub fn put_privileges(self, expire_at: u32) -> (res: Result<Self, RtcContractError>)
        ensures
            res matches Ok(b) && b@ == self@ + privilege_bytes(expire_at),
    {
        let mut buffer = self.put_u16(5);
        let mut privilege: u16 = 0;
        while privilege < 5
            invariant
                0 <= privilege <= 5,
                buffer@ == self@ + le16(5) + privileges_prefix(expire_at, privilege as nat),
            decreases 5 - privilege,
        {
            buffer = buffer.put_u16(privilege).put_u32(expire_at);
            privilege = privilege + 1;
        }
        assert(privileges_prefix(expire_at, 5) =~= privilege_bytes(expire_at).subrange(2, 32)) by {
            reveal_with_fuel(privileges_prefix, 6);
        }
        assert(self@ + le16(5) + privileges_prefix(expire_at, 5) =~= self@ + privilege_bytes(expire_at));
        Ok(buffer)
    }

    /// The bytes laid out so far.
    pub fn pack(self) -> (res: Vec<u8>)
        ensures
            res@ == self@,
    {
        self.buffer
    }
}

/// The first `n` privilege records, each a 16-bit id and a 32-bit expiry.
pub open spec fn privileges_prefix(expire_at: u32, n: nat) -> Seq<u8>
    decreases n,
{
    if n == 0 {
        seq![]
    } else {
        privileges_prefix(expire_at, (n - 1) as nat) + le16((n - 1) as nat) + le32(expire_at as nat)
    }
}

fn required_config(value: &Option<String>, env_name: &str) -> (res: Result<String, RtcContractError>)
    ensures
        configured(*value) ==> (res matches Ok(s) && s@ == value->0@),
        !configured(*value) ==> (res matches Err(e) && e@ == ContractFault::Unavailable(
            missing_credential_message(env_name@),
        )),
{
    match value {
        Some(v) => {
            if !str_is_blank(v.as_str()) {
                return Ok(owned(v.as_str()));
            }
        },
        None => {},
    }
    let mut message = owned("volcengine participant credential requires ");
    push_str(&mut message, env_name);
    push_str(&mut message, " or provider profile credentials");
    Err(RtcContractError::Unavailable(message))
}

/// 32-bit FNV-1a of `app_id:room_id:user_id:issued_at`.
pub fn stable_nonce(app_id: &str, room_id: &str, user_id: &str, issued_at: u32) -> (res: u32)
    ensures
        res == nonce_of(app_id@, room_id@, user_id@, issued_at),
{
    let mut text = owned(app_id);
    push_char(&mut text, ':');
    push_str(&mut text, room_id);
    push_char(&mut text, ':');
    push_str(&mut text, user_id);
    push_char(&mut text, ':');
    push_nat(&mut text, issued_at as u64);
    let bytes = text.as_str().as_bytes();
    assert(text@ =~= app_id@ + seq![':'] + room_id@ + seq![':'] + user_id@ + seq![':'] + nat_text(
        issued_at as nat,
    ));
    let mut hash: u32 = 0x811c_9dc5;
    let mut i: usize = 0;
    while i < bytes.len()
        invariant
            0 <= i <= bytes.len(),
            hash == fnv1a32(bytes@.take(i as int)),
        decreases bytes.len() - i,
    {
        hash = hash ^ (bytes[i] as u32);
        hash = hash.wrapping_mul(16_777_619);
        assert(bytes@.take(i + 1).drop_last() =~= bytes@.take(i as int));
        i = i + 1;
    }
    assert(bytes@.take(bytes.len() as int) =~= bytes@);
    hash
}

/// Issues a Volcengine RTC participant token for `user_id` in `room_id`, valid from
/// `issued_at` for the configured lifetime. Returns the token and its expiry time.
pub fn generate_volcengine_rtc_token(
    config: &VolcengineRtcProviderConfig,
    room_id: &str,
    user_id: &str,
    issued_at: u32,
) -> (res: Result<(String, u32), RtcContractError>)
    ensures
        match (res, token_outcome(*config, room_id@, user_id@, issued_at)) {
            (Ok((token, expire_at)), Ok((text, spec_expire_at))) => token@ == text && expire_at
                == spec_expire_at,
            (Err(e), Err(fault)) => e@ == fault,
            _ => false,
        },
{
    let app_id = match required_config(&config.app_id, "SDKWORK_RTC_VOLCENGINE_APP_ID") {
        Ok(v) => v,
        Err(e) => return Err(e),
    };
    let app_key = match required_config(&config.app_key, "SDKWORK_RTC_VOLCENGINE_APP_KEY") {
        Ok(v) => v,
        Err(e) => return Err(e),
    };
    let expire_at = issued_at.saturating_add(config.credential_ttl_seconds);
    let nonce = stable_nonce(app_id.as_str(), room_id, user_id, issued_at);
    let buffer = VolcengineTokenBuffer::new().put_u32(nonce).put_u32(issued_at).put_u32(expire_at);
    let buffer = match buffer.put_string(room_id) {
        Ok(b) => b,
        Err(e) => return Err(e),
    };
    let buffer = match buffer.put_string(user_id) {
        Ok(b) => b,
        Err(e) => return Err(e),
    };
    let buffer = match buffer.put_privileges(expire_at) {
        Ok(b) => b,
        Err(e) => return Err(e),
    };
    let message = buffer.pack();
    assert(message@ =~= token_message(app_id@, room_id@, user_id@, issued_at, config.credential_ttl_seconds));
    let signature = match hmac_sha256_raw(app_key.as_str().as_bytes(), message.as_slice()) {
        Some(s) => s,
        None => return Err(RtcContractError::Conflict(owned("invalid volcengine rtc app key"))),
    };
    let content = match VolcengineTokenBuffer::new().put_bytes(message.as_slice()) {
        Ok(b) => b,
        Err(e) => return Err(e),
    };
    let content = match content.put_bytes(signature.as_slice()) {
        Ok(b) => b,
        Err(e) => return Err(e),
    };
    let content = content.pack();
    let encoded = base64_encode(content.as_slice());
    let mut token = owned("001");
    push_str(&mut token, app_id.as_str());
    push_str(&mut token, encoded.as_str());
    proof {
        reveal_strlit("001");
    }
    assert(token@ =~= token_text(
        app_id@,
        app_key@,
        room_id@,
        user_id@,
        issued_at,
        config.credential_ttl_seconds,
    ));
    Ok((token, expire_at))
}

} // verus!
