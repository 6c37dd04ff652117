use vstd::prelude::*;
use vstd::utf8::{decode_utf8, encode_utf8, is_char_boundary, encode_utf8_valid_utf8, encode_utf8_decode_utf8, valid_utf8_split, is_char_boundary_iff_not_is_continuation_byte, is_char_boundary_start_end_of_seq, is_ascii_chars, is_ascii_chars_encode_utf8, is_continuation_byte};
use vstd::string::StringSliceAdditionalSpecFns;
use crate::config::VolcengineRtcProviderConfig;
use crate::credential::configured;
use crate::digest::{hex_lower, hex_lower_text, hmac_sha256_raw, hmac_sha256_tag, is_lower_hex_text, lemma_hex_lower_shape, sha256_digest, sha256_hex};
use crate::domain::{RtcProviderQueryKind, RtcProviderQueryRequest};
use crate::error::{ContractFault, RtcContractError};
use crate::json::{array_of, json_text, json_view, object_of, to_json_text, JsonMember, JsonValue, JsonView};
use crate::numtext::{nat_text, push_nat};
use crate::text::{owned, push_char, push_str, str_is_blank};
use crate::webhook::member;

verus! {

/// `s[from..to]` by byte offsets, both on character boundaries.
pub fn byte_slice(s: &str, from: usize, to: usize) -> (res: &str)
    requires
        from <= to <= s.spec_bytes().len(),
        is_char_boundary(s.spec_bytes(), from as int),
        is_char_boundary(s.spec_bytes(), to as int),
    ensures
        res.spec_bytes() == s.spec_bytes().subrange(from as int, to as int),
        res@ == decode_utf8(s.spec_bytes().subrange(from as int, to as int)),
{
    let ghost b = s.spec_bytes();
    proof {
        encode_utf8_valid_utf8(s@);
        valid_utf8_split(b, from as int);
    }
    let (_, tail) = s.split_at(from);
    let ghost t = tail.spec_bytes();
    proof {
        assert(t =~= b.subrange(from as int, b.len() as int));
        if to < b.len() {
            is_char_boundary_iff_not_is_continuation_byte(b, to as int);
            is_char_boundary_iff_not_is_continuation_byte(t, (to - from) as int);
            assert(t[(to - from) as int] == b[to as int]);
        } else {
            is_char_boundary_start_end_of_seq(t);
        }
    }
    let (mid, _) = tail.split_at(to - from);
    proof {
        assert(mid.spec_bytes() =~= b.subrange(from as int, to as int));
        encode_utf8_decode_utf8(mid@);
    }
    mid
}

/// The byte offsets at which `volcengine_signing_time` cuts an RFC 3339 timestamp.
pub open spec fn signing_cuts_on_boundaries(b: Seq<u8>) -> bool {
    b.len() < 19 || {
        &&& is_char_boundary(b, 0)
        &&& is_char_boundary(b, 4)
        &&& is_char_boundary(b, 5)
        &&& is_char_boundary(b, 7)
        &&& is_char_boundary(b, 8)
        &&& is_char_boundary(b, 10)
        &&& is_char_boundary(b, 11)
        &&& is_char_boundary(b, 13)
        &&& is_char_boundary(b, 14)
        &&& is_char_boundary(b, 16)
        &&& is_char_boundary(b, 17)
        &&& is_char_boundary(b, 19)
    }
}

/// An ASCII timestamp can be cut at any byte, so in particular where the signing time is cut.
pub proof fn lemma_ascii_signing_cuts(s: Seq<char>)
    requires
        is_ascii_chars(s),
    ensures
        signing_cuts_on_boundaries(encode_utf8(s)),
{
    let b = encode_utf8(s);
    is_ascii_chars_encode_utf8(s);
    encode_utf8_valid_utf8(s);
    assert forall|i: int| 0 <= i < b.len() implies #[trigger] is_char_boundary(b, i) by {
        assert(s[i] as u8 == b[i]);
        assert((s[i] as u32) < 128);
        assert(!is_continuation_byte(b[i]));
        is_char_boundary_iff_not_is_continuation_byte(b, i);
    }
    is_char_boundary_start_end_of_seq(b);
}

/// The text of bytes `from..to` of `b`.
pub open spec fn piece(b: Seq<u8>, from: int, to: int) -> Seq<char> {
    decode_utf8(b.subrange(from, to))
}

/// The signing date (`YYYYMMDD`) of a timestamp whose UTF-8 bytes are `b`.
pub open spec fn signing_short_date(b: Seq<u8>) -> Seq<char> {
    if b.len() >= 19 {
        piece(b, 0, 4) + piece(b, 5, 7) + piece(b, 8, 10)
    } else {
        "19700101"@
    }
}

/// The signing time (`YYYYMMDDTHHMMSSZ`) of a timestamp whose UTF-8 bytes are `b`.
pub open spec fn signing_stamp(b: Seq<u8>) -> Seq<char> {
    if b.len() >= 19 {
        piece(b, 0, 4) + piece(b, 5, 7) + piece(b, 8, 10) + seq!['T'] + piece(b, 11, 13) + piece(
            b,
            14,
            16,
        ) + piece(b, 17, 19) + seq!['Z']
    } else {
        "19700101T000000Z"@
    }
}

/// Derives the short date and the signing time from an RFC 3339 timestamp such as
/// `2026-06-10T00:00:00.000Z`; shorter inputs sign as the Unix epoch.
pub fn volcengine_signing_time(rfc3339_millis: &str) -> (res: (String, String))
    requires
        signing_cuts_on_boundaries(rfc3339_millis.spec_bytes()),
    ensures
        res.0@ == signing_short_date(rfc3339_millis.spec_bytes()),
        res.1@ == signing_stamp(rfc3339_millis.spec_bytes()),
{
    let ghost b = rfc3339_millis.spec_bytes();
    if rfc3339_millis.as_bytes().len() >= 19 {
        let mut short_date = owned(byte_slice(rfc3339_millis, 0, 4));
        push_str(&mut short_date, byte_slice(rfc3339_millis, 5, 7));
        push_str(&mut short_date, byte_slice(rfc3339_millis, 8, 10));
        let mut signing_time = owned(short_date.as_str());
        push_char(&mut signing_time, 'T');
        push_str(&mut signing_time, byte_slice(rfc3339_millis, 11, 13));
        push_str(&mut signing_time, byte_slice(rfc3339_millis, 14, 16));
        push_str(&mut signing_time, byte_slice(rfc3339_millis, 17, 19));
        push_char(&mut signing_time, 'Z');
        assert(short_date@ =~= signing_short_date(b));
        assert(signing_time@ =~= signing_stamp(b));
        return (short_date, signing_time);
    }
    (owned("19700101"), owned("19700101T000000Z"))
}

/// A signed request for the Volcengine RTC OpenAPI.
#[derive(Clone, Debug, PartialEq, Eq)]
pub struct VolcengineRtcOpenApiRequest {
    pub method: String,
    pub endpoint: String,
    pub host: String,
    pub path: String,
    pub action: String,
    pub headers: Vec<(String, String)>,
    pub query: Vec<(String, String)>,
    pub body: String,
}

/// What the Volcengine RTC OpenAPI answered.
#[derive(Clone, Debug, PartialEq, Eq)]
pub struct VolcengineRtcOpenApiResponse {
    pub status_code: u16,
    pub body: String,
}

/// The mathematical content of a [`VolcengineRtcOpenApiRequest`].
pub struct OpenApiRequestView {
    pub method: Seq<char>,
    pub endpoint: Seq<char>,
    pub host: Seq<char>,
    pub path: Seq<char>,
    pub action: Seq<char>,
    pub headers: Seq<(Seq<char>, Seq<char>)>,
    pub query: Seq<(Seq<char>, Seq<char>)>,
    pub body: Seq<char>,
}

/// A list of string pairs, as text pairs.
pub open spec fn pairs_view(q: Seq<(String, String)>) -> Seq<(Seq<char>, Seq<char>)> {
    q.map_values(|p: (String, String)| (p.0@, p.1@))
}

impl View for VolcengineRtcOpenApiRequest {
    type V = OpenApiRequestView;

    open spec fn view(&self) -> OpenApiRequestView {
        OpenApiRequestView {
            method: self.method@,
            endpoint: self.endpoint@,
            host: self.host@,
            path: self.path@,
            action: self.action@,
            headers: pairs_view(self.headers@),
            query: pairs_view(self.query@),
            body: self.body@,
        }
    }
}

/// The mathematical content of a [`VolcengineRtcOpenApiResponse`].
pub struct OpenApiResponseView {
    pub status_code: u16,
    pub body: Seq<char>,
}

impl View for VolcengineRtcOpenApiResponse {
    type V = OpenApiResponseView;

    open spec fn view(&self) -> OpenApiResponseView {
        OpenApiResponseView { status_code: self.status_code, body: self.body@ }
    }
}

/// Sends signed requests to the Volcengine RTC OpenAPI; the embedding application supplies
/// it, and whatever it answers is taken as the provider's reply.
pub trait VolcengineRtcOpenApiExecutor: Send + Sync {
    fn execute(&self, request: &VolcengineRtcOpenApiRequest) -> Result<VolcengineRtcOpenApiResponse, RtcContractError>;
}

/// A query parameter as a two-element JSON array.
pub open spec fn pair_json(p: (Seq<char>, Seq<char>)) -> JsonView {
    JsonView::Array(seq![JsonView::Str(p.0), JsonView::Str(p.1)])
}

/// The recorded form of a signed request: everything but header values, which carry the
/// signature.
pub open spec fn request_json(r: OpenApiRequestView) -> JsonView {
    JsonView::Object(
        seq![
            ("method"@, JsonView::Str(r.method)),
            ("endpoint"@, JsonView::Str(r.endpoint)),
            ("host"@, JsonView::Str(r.host)),
            ("path"@, JsonView::Str(r.path)),
            ("action"@, JsonView::Str(r.action)),
            ("query"@, JsonView::Array(r.query.map_values(|p: (Seq<char>, Seq<char>)| pair_json(p)))),
            (
                "signedHeaderNames"@,
                JsonView::Array(r.headers.map_values(|p: (Seq<char>, Seq<char>)| JsonView::Str(p.0))),
            ),
        ],
    )
}

/// The recorded form of the provider's reply, `null` when there is none.
pub open spec fn response_json(r: Option<OpenApiResponseView>) -> JsonView {
    match r {
        Some(v) => JsonView::Object(
            seq![
                ("statusCode"@, JsonView::Number(nat_text(v.status_code as nat))),
                ("body"@, JsonView::Str(v.body)),
            ],
        ),
        None => JsonView::Null,
    }
}

/// The snapshot of a Volcengine OpenAPI exchange.
pub open spec fn request_snapshot_json(req: OpenApiRequestView, resp: Option<OpenApiResponseView>) -> JsonView {
    JsonView::Object(
        seq![
            ("provider"@, JsonView::Str("volcengine"@)),
            ("providerRequest"@, request_json(req)),
            ("providerResponse"@, response_json(resp)),
        ],
    )
}

/// The view of an optional reply.
pub open spec fn response_view(r: Option<&VolcengineRtcOpenApiResponse>) -> Option<OpenApiResponseView> {
    match r {
        Some(v) => Some(v@),
        None => None,
    }
}

fn query_json(query: &Vec<(String, String)>) -> (res: JsonValue)
    ensures
        res@ == JsonView::Array(pairs_view(query@).map_values(|p: (Seq<char>, Seq<char>)| pair_json(p))),
{
    let mut items: Vec<JsonValue> = Vec::new();
    let mut i: usize = 0;
    while i < query.len()
        invariant
            0 <= i <= query.len(),
            items@.len() == i,
            forall|k: int| 0 <= k < i ==> json_view(#[trigger] items@[k]) == pair_json(pairs_view(query@)[k]),
        decreases query.len() - i,
    {
        let mut pair: Vec<JsonValue> = Vec::new();
        pair.push(JsonValue::Str(owned(query[i].0.as_str())));
        pair.push(JsonValue::Str(owned(query[i].1.as_str())));
        let item = array_of(pair);
        assert(pair@.map_values(|v: JsonValue| json_view(v)) =~= seq![
            JsonView::Str(query@[i as int].0@),
            JsonView::Str(query@[i as int].1@),
        ]);
        items.push(item);
        i = i + 1;
    }
    let res = JsonValue::Array(items);
    proof {
        let rv = match res@ {
            JsonView::Array(xs) => xs,
            _ => Seq::empty(),
        };
        assert(rv =~= pairs_view(query@).map_values(|p: (Seq<char>, Seq<char>)| pair_json(p)));
    }
    res
}

fn header_names_json(headers: &Vec<(String, String)>) -> (res: JsonValue)
    ensures
        res@ == JsonView::Array(pairs_view(headers@).map_values(|p: (Seq<char>, Seq<char>)| JsonView::Str(p.0))),
{
    let mut items: Vec<JsonValue> = Vec::new();
    let mut i: usize = 0;
    while i < headers.len()
        invariant
            0 <= i <= headers.len(),
            items@.len() == i,
            forall|k: int| 0 <= k < i ==> json_view(#[trigger] items@[k]) == JsonView::Str(pairs_view(headers@)[k].0),
        decreases headers.len() - i,
    {
        items.push(JsonValue::Str(owned(headers[i].0.as_str())));
        i = i + 1;
    }
    let res = JsonValue::Array(items);
    proof {
        let rv = match res@ {
            JsonView::Array(xs) => xs,
            _ => Seq::empty(),
        };
        assert(rv =~= pairs_view(headers@).map_values(|p: (Seq<char>, Seq<char>)| JsonView::Str(p.0)));
    }
    res
}

fn response_value(response: Option<&VolcengineRtcOpenApiResponse>) -> (res: JsonValue)
    ensures
        res@ == response_json(response_view(response)),
{
    match response {
        Some(r) => {
            let mut code = String::new();
            push_nat(&mut code, r.status_code as u64);
            assert(code@ =~= nat_text(r.status_code as nat));
            let mut members: Vec<JsonMember> = Vec::new();
            members.push(member("statusCode", JsonValue::Number(code)));
            members.push(member("body", JsonValue::Str(owned(r.body.as_str()))));
            let v = object_of(members);
            proof {
                assert(members@.map_values(|m: JsonMember| (m.key@, json_view(m.value))) =~= seq![
                    ("statusCode"@, JsonView::Number(nat_text(r.status_code as nat))),
                    ("body"@, JsonView::Str(r.body@)),
                ]);
            }
            v
        },
        None => JsonValue::Null,
    }
}

/// Records a signed request, and the provider's reply when there is one, as a JSON
/// snapshot; header values are left out, so no signature is recorded.
pub fn request_snapshot(
    request: &VolcengineRtcOpenApiRequest,
    response: Option<&VolcengineRtcOpenApiResponse>,
) -> (res: String)
    ensures
        res@ == json_text(request_snapshot_json(request@, response_view(response))),
{
    let mut req: Vec<JsonMember> = Vec::new();
    req.push(member("method", JsonValue::Str(owned(request.method.as_str()))));
    req.push(member("endpoint", JsonValue::Str(owned(request.endpoint.as_str()))));
    req.push(member("host", JsonValue::Str(owned(request.host.as_str()))));
    req.push(member("path", JsonValue::Str(owned(request.path.as_str()))));
    req.push(member("action", JsonValue::Str(owned(request.action.as_str()))));
    req.push(member("query", query_json(&request.query)));
    req.push(member("signedHeaderNames", header_names_json(&request.headers)));
    let req_value = object_of(req);
    proof {
        let ms = match req_value@ {
            JsonView::Object(ms) => ms,
            _ => Seq::empty(),
        };
        let ts = match request_json(request@) {
            JsonView::Object(ts) => ts,
            _ => Seq::empty(),
        };
        assert(ms.len() == 7);
        assert forall|k: int| 0 <= k < 7 implies ms[k] == ts[k] by {
            assert(ms[k] == (req@[k].key@, json_view(req@[k].value)));
        }
        assert(ms =~= ts);
    }
    let mut top: Vec<JsonMember> = Vec::new();
    top.push(member("provider", JsonValue::Str(owned("volcengine"))));
    top.push(member("providerRequest", req_value));
    top.push(member("providerResponse", response_value(response)));
    let value = object_of(top);
    proof {
        let ms = match value@ {
            JsonView::Object(ms) => ms,
            _ => Seq::empty(),
        };
        let ts = match request_snapshot_json(request@, response_view(response)) {
            JsonView::Object(ts) => ts,
            _ => Seq::empty(),
        };
        assert(ms.len() == 3);
        assert forall|k: int| 0 <= k < 3 implies ms[k] == ts[k] by {
            assert(ms[k] == (top@[k].key@, json_view(top@[k].value)));
        }
        assert(ms =~= ts);
    }
    to_json_text(&value)
}

/// The OpenAPI action that serves a query kind.
pub open spec fn action_name(kind: RtcProviderQueryKind) -> Seq<char> {
    match kind {
        RtcProviderQueryKind::RoomOnlineUsers => "GetRoomOnlineUsers"@,
        RtcProviderQueryKind::RoomState => "GetRoomInfo"@,
        RtcProviderQueryKind::MediaSessionState => "GetRoomInfo"@,
        RtcProviderQueryKind::RecordingArtifacts => "GetRecordTask"@,
        RtcProviderQueryKind::QualitySamples => "DescribeRealtimeQualityMetric"@,
    }
}

/// The Volcengine RTC OpenAPI action for a query kind.
pub fn volcengine_action(query_kind: RtcProviderQueryKind) -> (res: &'static str)
    ensures
        res@ == action_name(query_kind),
{
    match query_kind {
        RtcProviderQueryKind::RoomOnlineUsers => "GetRoomOnlineUsers",
        RtcProviderQueryKind::RoomState | RtcProviderQueryKind::MediaSessionState => "GetRoomInfo",
        RtcProviderQueryKind::RecordingArtifacts => "GetRecordTask",
        RtcProviderQueryKind::QualitySamples => "DescribeRealtimeQualityMetric",
    }
}

/// A byte that percent-encoding keeps as is (`A-Z a-z 0-9 - _ . ~`).
pub open spec fn is_unreserved(b: u8) -> bool {
    (65 <= b && b <= 90) || (97 <= b && b <= 122) || (48 <= b && b <= 57) || b == 45 || b == 95
        || b == 46 || b == 126
}

/// The uppercase hexadecimal digit for `d` (0 to 15).
pub open spec fn hex_upper_char(d: int) -> char {
    if d < 10 {
        crate::numtext::digit_char(d)
    } else if d == 10 { 'A' }
    else if d == 11 { 'B' }
    else if d == 12 { 'C' }
    else if d == 13 { 'D' }
    else if d == 14 { 'E' }
    else { 'F' }
}

/// How percent-encoding writes one byte.
pub open spec fn byte_escape(b: u8) -> Seq<char> {
    if is_unreserved(b) {
        seq![b as char]
    } else {
        seq!['%', hex_upper_char((b / 16) as int), hex_upper_char((b % 16) as int)]
    }
}

/// Percent-encoding of a byte string.
pub open spec fn percent_encoded(bytes: Seq<u8>) -> Seq<char>
    decreases bytes.len(),
{
    if bytes.len() == 0 {
        seq![]
    } else {
        percent_encoded(bytes.drop_last()) + byte_escape(bytes.last())
    }
}

fn hex_upper(d: u8) -> (c: char)
    requires
        d < 16,
    ensures
        c == hex_upper_char(d as int),
{
    if d < 10 {
        crate::numtext::digit(d as u64)
    } else if d == 10 { 'A' }
    else if d == 11 { 'B' }
    else if d == 12 { 'C' }
    else if d == 13 { 'D' }
    else if d == 14 { 'E' }
    else { 'F' }
}

/// Percent-encodes the UTF-8 bytes of `value`, keeping unreserved bytes.
pub fn percent_encode(value: &str) -> (res: String)
    ensures
        res@ == percent_encoded(encode_utf8(value@)),
{
    let bytes = value.as_bytes();
    let mut out = String::new();
    let mut i: usize = 0;
    while i < bytes.len()
        invariant
            0 <= i <= bytes.len(),
            bytes@ == encode_utf8(value@),
            out@ == percent_encoded(bytes@.take(i as int)),
        decreases bytes.len() - i,
    {
        let b = bytes[i];
        if (65 <= b && b <= 90) || (97 <= b && b <= 122) || (48 <= b && b <= 57) || b == 45 || b
            == 95 || b == 46 || b == 126 {
            push_char(&mut out, b as char);
        } else {
            push_char(&mut out, '%');
            push_char(&mut out, hex_upper(b / 16));
            push_char(&mut out, hex_upper(b % 16));
        }
        assert(bytes@.take(i + 1).drop_last() =~= bytes@.take(i as int));
        i = i + 1;
    }
    assert(bytes@.take(bytes.len() as int) =~= bytes@);
    out
}

/// `key=value`, both percent-encoded.
pub open spec fn pair_text(key: Seq<char>, value: Seq<char>) -> Seq<char> {
    percent_encoded(encode_utf8(key)) + seq!['='] + percent_encoded(encode_utf8(value))
}

/// The encoded pairs joined by `&`.
pub open spec fn query_text(q: Seq<(Seq<char>, Seq<char>)>) -> Seq<char>
    decreases q.len(),
{
    if q.len() == 0 {
        seq![]
    } else if q.len() == 1 {
        pair_text(q[0].0, q[0].1)
    } else {
        query_text(q.drop_last()) + seq!['&'] + pair_text(q.last().0, q.last().1)
    }
}

/// The canonical query string of the signature: encoded `key=value` pairs joined by `&`.
pub fn canonical_query(query: &[(String, String)]) -> (res: String)
    ensures
        res@ == query_text(pairs_view(query@)),
{
    let mut out = String::new();
    let mut i: usize = 0;
    while i < query.len()
        invariant
            0 <= i <= query.len(),
            out@ == query_text(pairs_view(query@.take(i as int))),
        decreases query.len() - i,
    {
        if i > 0 {
            push_char(&mut out, '&');
        }
        let key = percent_encode(query[i].0.as_str());
        let value = percent_encode(query[i].1.as_str());
        push_str(&mut out, key.as_str());
        push_char(&mut out, '=');
        push_str(&mut out, value.as_str());
        proof {
            let q = pairs_view(query@.take(i + 1));
            assert(q.drop_last() =~= pairs_view(query@.take(i as int)));
            assert(q.last() == (query@[i as int].0@, query@[i as int].1@));
            if i == 0 {
                assert(q.len() == 1);
            }
        }
        i = i + 1;
    }
    assert(query@.take(query.len() as int) =~= query@);
    out
}

/// A setting that is present and not empty.
pub open spec fn nonempty(o: Option<String>) -> bool {
    o is Some && o->0@.len() > 0
}

/// The query pairs of a signed request, in ascending key order.
pub open spec fn signed_query_pairs(
    config: VolcengineRtcProviderConfig,
    request: RtcProviderQueryRequest,
    action: Seq<char>,
) -> Seq<(Seq<char>, Seq<char>)> {
    seq![("Action"@, action)] + (if nonempty(config.app_id) {
        seq![("AppId"@, config.app_id->0@)]
    } else {
        seq![]
    }) + (if nonempty(request.cursor) {
        seq![("PageToken"@, request.cursor->0@)]
    } else {
        seq![]
    }) + (if nonempty(request.room_id) {
        seq![("RoomId"@, request.room_id->0@)]
    } else {
        seq![]
    }) + seq![("Version"@, config.api_version@)]
}

fn push_pair(query: &mut Vec<(String, String)>, key: &str, value: &str)
    ensures
        pairs_view(final(query)@) == pairs_view(old(query)@).push((key@, value@)),
{
    query.push((owned(key), owned(value)));
    assert(pairs_view(query@) =~= pairs_view(old(query)@).push((key@, value@)));
}

fn push_optional_pair(query: &mut Vec<(String, String)>, key: &str, value: &Option<String>)
    ensures
        pairs_view(final(query)@) == pairs_view(old(query)@) + (if nonempty(*value) {
            seq![(key@, value->0@)]
        } else {
            seq![]
        }),
{
    match value {
        Some(v) => {
            if v.as_str().is_empty() {
                assert(pairs_view(query@) =~= pairs_view(old(query)@) + seq![]);
            } else {
                push_pair(query, key, v.as_str());
                assert(pairs_view(query@) =~= pairs_view(old(query)@) + seq![(key@, v@)]);
            }
        },
        None => {
            assert(pairs_view(query@) =~= pairs_view(old(query)@) + seq![]);
        },
    }
}

/// The query pairs of a signed request.
fn signed_query(
    config: &VolcengineRtcProviderConfig,
    request: &RtcProviderQueryRequest,
    action: &str,
) -> (res: Vec<(String, String)>)
    ensures
        pairs_view(res@) == signed_query_pairs(*config, *request, action@),
{
    let mut query: Vec<(String, String)> = Vec::new();
    push_pair(&mut query, "Action", action);
    push_optional_pair(&mut query, "AppId", &config.app_id);
    push_optional_pair(&mut query, "PageToken", &request.cursor);
    push_optional_pair(&mut query, "RoomId", &request.room_id);
    push_pair(&mut query, "Version", config.api_version.as_str());
    assert(pairs_view(query@) =~= signed_query_pairs(*config, *request, action@));
    query
}

/// The headers that the signature covers, in canonical form.
pub open spec fn canonical_headers_text(host: Seq<char>, payload_hash: Seq<char>, stamp: Seq<char>) -> Seq<char> {
    "content-type:application/json\nhost:"@ + host + "\nx-content-sha256:"@ + payload_hash
        + "\nx-date:"@ + stamp + "\n"@
}

/// The names of the signed headers.
pub open spec fn signed_headers_text() -> Seq<char> {
    "content-type;host;x-content-sha256;x-date"@
}

/// The canonical request of the signature.
pub open spec fn canonical_request_text(query: Seq<char>, headers: Seq<char>, payload_hash: Seq<char>) -> Seq<char> {
    "GET\n/\n"@ + query + "\n"@ + headers + "\n"@ + signed_headers_text() + "\n"@ + payload_hash
}

/// The credential scope of the signature.
pub open spec fn scope_text(short_date: Seq<char>, region: Seq<char>) -> Seq<char> {
    short_date + "/"@ + region + "/rtc/request"@
}

/// The string that is signed.
pub open spec fn string_to_sign_text(stamp: Seq<char>, scope: Seq<char>, canonical_request: Seq<char>) -> Seq<char> {
    "HMAC-SHA256\n"@ + stamp + "\n"@ + scope + "\n"@ + hex_lower_text(
        sha256_digest(encode_utf8(canonical_request)),
    )
}

/// The signing key derived from the secret: HMAC chained over the date, the region,
/// `rtc` and `request`.
pub open spec fn signing_key_bytes(secret: Seq<char>, short_date: Seq<char>, region: Seq<char>) -> Seq<u8> {
    hmac_sha256_tag(
        hmac_sha256_tag(
            hmac_sha256_tag(hmac_sha256_tag(encode_utf8(secret), encode_utf8(short_date)), encode_utf8(region)),
            encode_utf8("rtc"@),
        ),
        encode_utf8("request"@),
    )
}

/// The `Authorization` header value.
pub open spec fn authorization_text(access_key_id: Seq<char>, scope: Seq<char>, signature: Seq<char>) -> Seq<char> {
    "HMAC-SHA256 Credential="@ + access_key_id + "/"@ + scope + ", SignedHeaders="@
        + signed_headers_text() + ", Signature="@ + signature
}

/// The message of a missing OpenAPI signing setting.
pub open spec fn missing_signing_message(env_name: Seq<char>) -> Seq<char> {
    "volcengine active query requires "@ + env_name + " or provider profile credentials"@
}

/// The lowercase hex SHA-256 of an empty body.
pub open spec fn empty_payload_hash() -> Seq<char> {
    hex_lower_text(sha256_digest(Seq::<u8>::empty()))
}

/// The credential scope of a request signed at `signed_at`.
pub open spec fn request_scope(config: VolcengineRtcProviderConfig, signed_at: Seq<u8>) -> Seq<char> {
    scope_text(signing_short_date(signed_at), config.region@)
}

/// The `Signature` value of the request that `build_signed_volcengine_request` signs:
/// lowercase hex of the HMAC over the string to sign, keyed by the derived signing key.
pub open spec fn request_signature(
    config: VolcengineRtcProviderConfig,
    request: RtcProviderQueryRequest,
    action: Seq<char>,
    signed_at: Seq<u8>,
) -> Seq<char> {
    let payload_hash = empty_payload_hash();
    let stamp = signing_stamp(signed_at);
    let canonical_request = canonical_request_text(
        query_text(signed_query_pairs(config, request, action)),
        canonical_headers_text(config.api_host@, payload_hash, stamp),
        payload_hash,
    );
    let key = signing_key_bytes(config.secret_access_key->0@, signing_short_date(signed_at), config.region@);
    hex_lower_text(
        hmac_sha256_tag(
            key,
            encode_utf8(string_to_sign_text(stamp, request_scope(config, signed_at), canonical_request)),
        ),
    )
}

/// The request that `build_signed_volcengine_request` signs, once both keys are configured.
pub open spec fn signed_request_view(
    config: VolcengineRtcProviderConfig,
    request: RtcProviderQueryRequest,
    action: Seq<char>,
    signed_at: Seq<u8>,
) -> OpenApiRequestView {
    let payload_hash = empty_payload_hash();
    let query = signed_query_pairs(config, request, action);
    let stamp = signing_stamp(signed_at);
    let scope = request_scope(config, signed_at);
    let signature = request_signature(config, request, action, signed_at);
    OpenApiRequestView {
        method: "GET"@,
        endpoint: config.api_endpoint@,
        host: config.api_host@,
        path: "/"@,
        action: action,
        headers: seq![
            ("Content-Type"@, "application/json"@),
            ("Host"@, config.api_host@),
            ("X-Date"@, stamp),
            ("X-Content-Sha256"@, payload_hash),
            ("Authorization"@, authorization_text(config.access_key_id->0@, scope, signature)),
        ],
        query: query,
        body: Seq::<char>::empty(),
    }
}

/// What `build_signed_volcengine_request` returns.
pub open spec fn signed_request_outcome(
    config: VolcengineRtcProviderConfig,
    request: RtcProviderQueryRequest,
    action: Seq<char>,
    signed_at: Seq<u8>,
) -> Result<OpenApiRequestView, ContractFault> {
    if !configured(config.access_key_id) {
        Err(ContractFault::Unavailable(missing_signing_message("SDKWORK_RTC_VOLCENGINE_ACCESS_KEY_ID"@)))
    } else if !configured(config.secret_access_key) {
        Err(
            ContractFault::Unavailable(
                missing_signing_message("SDKWORK_RTC_VOLCENGINE_SECRET_ACCESS_KEY"@),
            ),
        )
    } else {
        Ok(signed_request_view(config, request, action, signed_at))
    }
}

fn required_config(value: &Option<String>, env_name: &str) -> (res: Result<String, RtcContractError>)
    ensures
        configured(*value) ==> (res matches Ok(s) && s@ == value->0@),
        !configured(*value) ==> (res matches Err(e) && e@ == ContractFault::Unavailable(
            missing_signing_message(env_name@),
        )),
{
    match value {
        Some(v) => {
            if !str_is_blank(v.as_str()) {
                return Ok(owned(v.as_str()));
            }
        },
        None => {},
    }
    let mut message = owned("volcengine active query requires ");
    push_str(&mut message, env_name);
    push_str(&mut message, " or provider profile credentials");
    Err(RtcContractError::Unavailable(message))
}

fn hmac_sha256(key: &[u8], data: &[u8]) -> (res: Result<Vec<u8>, RtcContractError>)
    ensures
        res matches Ok(tag) && tag@ == hmac_sha256_tag(key@, data@) && tag@.len() == 32,
{
    match hmac_sha256_raw(key, data) {
        Some(tag) => Ok(tag),
        None => Err(RtcContractError::Conflict(owned("invalid volcengine signing key"))),
    }
}

fn signing_key(secret: &str, short_date: &str, region: &str) -> (res: Vec<u8>)
    ensures
        res@ == signing_key_bytes(secret@, short_date@, region@),
{
    let k1 = match hmac_sha256(secret.as_bytes(), short_date.as_bytes()) {
        Ok(k) => k,
        Err(_) => Vec::new(),
    };
    let k2 = match hmac_sha256(k1.as_slice(), region.as_bytes()) {
        Ok(k) => k,
        Err(_) => Vec::new(),
    };
    let k3 = match hmac_sha256(k2.as_slice(), "rtc".as_bytes()) {
        Ok(k) => k,
        Err(_) => Vec::new(),
    };
    match hmac_sha256(k3.as_slice(), "request".as_bytes()) {
        Ok(k) => k,
        Err(_) => Vec::new(),
    }
}

/// Builds the signed Volcengine RTC OpenAPI request for an active provider query, signed
/// at the RFC 3339 time `signed_at`.
pub fn build_signed_volcengine_request(
    config: &VolcengineRtcProviderConfig,
    request: &RtcProviderQueryRequest,
    action: &str,
    signed_at: &str,
) -> (res: Result<VolcengineRtcOpenApiRequest, RtcContractError>)
    requires
        configured(config.access_key_id) && configured(config.secret_access_key)
            ==> signing_cuts_on_boundaries(signed_at.spec_bytes()),
    ensures
        match (res, signed_request_outcome(*config, *request, action@, signed_at.spec_bytes())) {
            (Ok(r), Ok(v)) => r@ == v,
            (Err(e), Err(fault)) => e@ == fault,
            _ => false,
        },
        res is Ok ==> is_lower_hex_text(request_signature(*config, *request, action@, signed_at.spec_bytes()))
            && request_signature(*config, *request, action@, signed_at.spec_bytes()).len() == 64,
{
    let access_key_id = match required_config(&config.access_key_id, "SDKWORK_RTC_VOLCENGINE_ACCESS_KEY_ID") {
        Ok(v) => v,
        Err(e) => return Err(e),
    };
    let secret_access_key = match required_config(
        &config.secret_access_key,
        "SDKWORK_RTC_VOLCENGINE_SECRET_ACCESS_KEY",
    ) {
        Ok(v) => v,
        Err(e) => return Err(e),
    };
    let body = String::new();
    let payload_hash = sha256_hex(body.as_str().as_bytes());
    assert(encode_utf8(body@) =~= Seq::<u8>::empty());
    let query = signed_query(config, request, action);
    let canonical = canonical_query(query.as_slice());
    let (short_date, signing_time) = volcengine_signing_time(signed_at);
    let mut canonical_headers = owned("content-type:application/json\nhost:");
    push_str(&mut canonical_headers, config.api_host.as_str());
    push_str(&mut canonical_headers, "\nx-content-sha256:");
    push_str(&mut canonical_headers, payload_hash.as_str());
    push_str(&mut canonical_headers, "\nx-date:");
    push_str(&mut canonical_headers, signing_time.as_str());
    push_str(&mut canonical_headers, "\n");
    let signed_headers = "content-type;host;x-content-sha256;x-date";
    let mut canonical_request = owned("GET\n/\n");
    push_str(&mut canonical_request, canonical.as_str());
    push_str(&mut canonical_request, "\n");
    push_str(&mut canonical_request, canonical_headers.as_str());
    push_str(&mut canonical_request, "\n");
    push_str(&mut canonical_request, signed_headers);
    push_str(&mut canonical_request, "\n");
    push_str(&mut canonical_request, payload_hash.as_str());
    let mut scope = owned(short_date.as_str());
    push_str(&mut scope, "/");
    push_str(&mut scope, config.region.as_str());
    push_str(&mut scope, "/rtc/request");
    let request_hash = sha256_hex(canonical_request.as_str().as_bytes());
    let mut string_to_sign = owned("HMAC-SHA256\n");
    push_str(&mut string_to_sign, signing_time.as_str());
    push_str(&mut string_to_sign, "\n");
    push_str(&mut string_to_sign, scope.as_str());
    push_str(&mut string_to_sign, "\n");
    push_str(&mut string_to_sign, request_hash.as_str());
    let key = signing_key(secret_access_key.as_str(), short_date.as_str(), config.region.as_str());
    let signature_bytes = match hmac_sha256(key.as_slice(), string_to_sign.as_str().as_bytes()) {
        Ok(s) => s,
        Err(e) => return Err(e),
    };
    let signature = hex_lower(signature_bytes.as_slice());
    let mut authorization = owned("HMAC-SHA256 Credential=");
    push_str(&mut authorization, access_key_id.as_str());
    push_str(&mut authorization, "/");
    push_str(&mut authorization, scope.as_str());
    push_str(&mut authorization, ", SignedHeaders=");
    push_str(&mut authorization, signed_headers);
    push_str(&mut authorization, ", Signature=");
    push_str(&mut authorization, signature.as_str());
    let mut headers: Vec<(String, String)> = Vec::new();
    headers.push((owned("Content-Type"), owned("application/json")));
    headers.push((owned("Host"), owned(config.api_host.as_str())));
    headers.push((owned("X-Date"), signing_time));
    headers.push((owned("X-Content-Sha256"), payload_hash));
    headers.push((owned("Authorization"), authorization));
    let res = VolcengineRtcOpenApiRequest {
        method: owned("GET"),
        endpoint: owned(config.api_endpoint.as_str()),
        host: owned(config.api_host.as_str()),
        path: owned("/"),
        action: owned(action),
        headers,
        query,
        body,
    };
    proof {
        let v = signed_request_view(*config, *request, action@, signed_at.spec_bytes());
        assert(canonical_request@ =~= canonical_request_text(
            query_text(signed_query_pairs(*config, *request, action@)),
            canonical_headers_text(config.api_host@, empty_payload_hash(), signing_stamp(signed_at.spec_bytes())),
            empty_payload_hash(),
        ));
        assert(scope@ =~= scope_text(signing_short_date(signed_at.spec_bytes()), config.region@));
        assert(string_to_sign@ =~= string_to_sign_text(
            signing_stamp(signed_at.spec_bytes()),
            scope@,
            canonical_request@,
        ));
        assert(res@.headers =~= v.headers);
        assert(res@.body =~= v.body);
        lemma_hex_lower_shape(signature_bytes@);
    }
    Ok(res)
}

} // verus!
