use vstd::prelude::*;
use crate::domain::{opt_view, RtcProviderQueryKind, RtcProviderQueryResult, RtcProviderWebhookEvent};
use crate::error::{RtcStorageError, StorageFault};
use crate::event_codec::{query_kind_key, query_kind_to_str};
use crate::ids::{dedupe_key_text, optional_dedupe_key};
use crate::json::{json_text, json_view, object_of, parse_json, parse_view, parsed_json, to_json_text, JsonMember, JsonValue, JsonView};
use crate::numtext::{int_text, i64_text};
use crate::text::{owned, push_str};
use crate::webhook::{member, text_or_null, text_or_null_value};

verus! {

/// What a query of `kind` targets.
pub open spec fn target_kind_text(kind: RtcProviderQueryKind) -> Seq<char> {
    match kind {
        RtcProviderQueryKind::RoomOnlineUsers => "room"@,
        RtcProviderQueryKind::RoomState => "room"@,
        RtcProviderQueryKind::MediaSessionState => "media_session"@,
        RtcProviderQueryKind::RecordingArtifacts => "recording"@,
        RtcProviderQueryKind::QualitySamples => "quality"@,
    }
}

/// The kind of target a query result is about.
pub fn provider_query_target_kind(result: &RtcProviderQueryResult) -> (res: String)
    ensures
        res@ == target_kind_text(result.query_kind),
{
    match result.query_kind {
        RtcProviderQueryKind::RoomOnlineUsers | RtcProviderQueryKind::RoomState => owned("room"),
        RtcProviderQueryKind::MediaSessionState => owned("media_session"),
        RtcProviderQueryKind::RecordingArtifacts => owned("recording"),
        RtcProviderQueryKind::QualitySamples => owned("quality"),
    }
}

/// The first of three optional texts that is present.
pub open spec fn first_present(a: Option<Seq<char>>, b: Option<Seq<char>>, c: Option<Seq<char>>) -> Option<Seq<char>> {
    match a {
        Some(x) => Some(x),
        None => match b {
            Some(x) => Some(x),
            None => c,
        },
    }
}

/// The id of what a query result is about: by query kind, the room, the RTC session or
/// the provider session id that is present first in the kind's order of preference, else
/// `{provider}-{query_kind}`.
pub open spec fn target_id_text(
    provider: Seq<char>,
    kind: RtcProviderQueryKind,
    room_id: Option<Seq<char>>,
    rtc_session_id: Option<Seq<char>>,
    provider_session_id: Option<Seq<char>>,
) -> Seq<char> {
    let candidate = match kind {
        RtcProviderQueryKind::RoomOnlineUsers => first_present(room_id, rtc_session_id, provider_session_id),
        RtcProviderQueryKind::RoomState => first_present(room_id, rtc_session_id, provider_session_id),
        RtcProviderQueryKind::MediaSessionState => first_present(rtc_session_id, provider_session_id, room_id),
        RtcProviderQueryKind::RecordingArtifacts => first_present(provider_session_id, rtc_session_id, room_id),
        RtcProviderQueryKind::QualitySamples => first_present(rtc_session_id, provider_session_id, room_id),
    };
    match candidate {
        Some(t) => t,
        None => provider + "-"@ + query_kind_key(kind),
    }
}

/// The target id of a query result.
pub open spec fn result_target_id(result: RtcProviderQueryResult) -> Seq<char> {
    target_id_text(
        result.provider@,
        result.query_kind,
        opt_view(result.room_id),
        opt_view(result.rtc_session_id),
        opt_view(result.provider_session_id),
    )
}

fn first_present_of(a: &Option<String>, b: &Option<String>, c: &Option<String>) -> (res: Option<String>)
    ensures
        opt_view(res) == first_present(opt_view(*a), opt_view(*b), opt_view(*c)),
{
    match a {
        Some(x) => Some(owned(x.as_str())),
        None => match b {
            Some(x) => Some(owned(x.as_str())),
            None => match c {
                Some(x) => Some(owned(x.as_str())),
                None => None,
            },
        },
    }
}

/// The id of what a query result is about.
pub fn provider_query_target_id(result: &RtcProviderQueryResult) -> (res: String)
    ensures
        res@ == result_target_id(*result),
{
    let candidate = match result.query_kind {
        RtcProviderQueryKind::RoomOnlineUsers | RtcProviderQueryKind::RoomState => {
            first_present_of(&result.room_id, &result.rtc_session_id, &result.provider_session_id)
        },
        RtcProviderQueryKind::MediaSessionState => {
            first_present_of(&result.rtc_session_id, &result.provider_session_id, &result.room_id)
        },
        RtcProviderQueryKind::RecordingArtifacts => {
            first_present_of(&result.provider_session_id, &result.rtc_session_id, &result.room_id)
        },
        RtcProviderQueryKind::QualitySamples => {
            first_present_of(&result.rtc_session_id, &result.provider_session_id, &result.room_id)
        },
    };
    match candidate {
        Some(t) => t,
        None => {
            let mut out = owned(result.provider.as_str());
            push_str(&mut out, "-");
            push_str(&mut out, query_kind_to_str(&result.query_kind));
            out
        },
    }
}

/// `provider-query-{provider}-{query_kind}-{target_id}`.
pub open spec fn job_id_text(provider: Seq<char>, kind: RtcProviderQueryKind, target_id: Seq<char>) -> Seq<char> {
    "provider-query-"@ + provider + "-"@ + query_kind_key(kind) + "-"@ + target_id
}

/// The id of the query job a result is recorded under: one job per provider, query kind
/// and target.
pub fn provider_query_job_id(result: &RtcProviderQueryResult) -> (res: String)
    ensures
        res@ == job_id_text(result.provider@, result.query_kind, result_target_id(*result)),
{
    let mut out = owned("provider-query-");
    push_str(&mut out, result.provider.as_str());
    push_str(&mut out, "-");
    push_str(&mut out, query_kind_to_str(&result.query_kind));
    push_str(&mut out, "-");
    let target = provider_query_target_id(result);
    push_str(&mut out, target.as_str());
    out
}

/// `{prefix}{numeric_id}`, the public id of a stored row.
pub open spec fn numbered_id_text(prefix: Seq<char>, numeric_id: i64) -> Seq<char> {
    prefix + int_text(numeric_id as int)
}

/// The public id of the snapshot row `numeric_id`: `provider-query-snapshot-{numeric_id}`.
pub fn provider_query_snapshot_id(numeric_id: i64) -> (res: String)
    ensures
        res@ == numbered_id_text("provider-query-snapshot-"@, numeric_id),
{
    let mut out = owned("provider-query-snapshot-");
    let n = i64_text(numeric_id);
    push_str(&mut out, n.as_str());
    out
}

/// The public id of the webhook event row `numeric_id`: `webhook-event-{numeric_id}`.
pub fn webhook_event_id(numeric_id: i64) -> (res: String)
    ensures
        res@ == numbered_id_text("webhook-event-"@, numeric_id),
{
    let mut out = owned("webhook-event-");
    let n = i64_text(numeric_id);
    push_str(&mut out, n.as_str());
    out
}

/// A webhook event that the store does not give back after recording it is missing,
/// under the id the recording gave it.
pub fn recorded_webhook_event<T>(lookup: Option<T>, webhook_event_id: String) -> (res: Result<T, RtcStorageError>)
    ensures
        match lookup {
            Some(found) => res == Ok::<T, RtcStorageError>(found),
            None => res matches Err(e)
                && e@ == StorageFault::MissingProviderWebhookEvent { webhook_event_id: webhook_event_id@ },
        },
{
    match lookup {
        Some(found) => Ok(found),
        None => Err(RtcStorageError::MissingProviderWebhookEvent { webhook_event_id }),
    }
}

/// A provider query job that the store does not give back after recording a result is
/// missing, under the job id the result derived.
pub fn recorded_query_job<T>(lookup: Option<T>, provider_query_job_id: String) -> (res: Result<T, RtcStorageError>)
    ensures
        match lookup {
            Some(found) => res == Ok::<T, RtcStorageError>(found),
            None => res matches Err(e)
                && e@ == StorageFault::MissingProviderQueryJob { provider_query_job_id: provider_query_job_id@ },
        },
{
    match lookup {
        Some(found) => Ok(found),
        None => Err(RtcStorageError::MissingProviderQueryJob { provider_query_job_id }),
    }
}

/// The keys a webhook event is deduplicated by: its provider profile (a shared key when it
/// has none) and its external event id (its payload hash when it has none).
pub open spec fn webhook_dedupe_keys(event: RtcProviderWebhookEvent) -> (Seq<char>, Seq<char>) {
    (
        dedupe_key_text(opt_view(event.provider_profile_id), "__default_provider_profile__"@),
        dedupe_key_text(opt_view(event.external_event_id), event.payload_hash@),
    )
}

/// The provider-profile and external-event keys a webhook event is deduplicated by.
pub fn webhook_event_dedupe_keys(event: &RtcProviderWebhookEvent) -> (res: (String, String))
    ensures
        (res.0@, res.1@) == webhook_dedupe_keys(*event),
{
    let profile = match &event.provider_profile_id {
        Some(p) => optional_dedupe_key(Some(p.as_str()), "__default_provider_profile__"),
        None => optional_dedupe_key(None, "__default_provider_profile__"),
    };
    let external = match &event.external_event_id {
        Some(e) => optional_dedupe_key(Some(e.as_str()), event.payload_hash.as_str()),
        None => optional_dedupe_key(None, event.payload_hash.as_str()),
    };
    (profile, external)
}

/// The session a webhook event is stored under: its RTC session, else its provider session.
pub open spec fn webhook_session_key(event: RtcProviderWebhookEvent) -> Option<Seq<char>> {
    match opt_view(event.rtc_session_id) {
        Some(s) => Some(s),
        None => opt_view(event.provider_session_id),
    }
}

/// The session a webhook event is stored under.
pub fn webhook_event_session_key(event: &RtcProviderWebhookEvent) -> (res: Option<String>)
    ensures
        opt_view(res) == webhook_session_key(*event),
{
    match &event.rtc_session_id {
        Some(s) => Some(owned(s.as_str())),
        None => match &event.provider_session_id {
            Some(s) => Some(owned(s.as_str())),
            None => None,
        },
    }
}

/// The snapshot a query job records of a result whose provider snapshot is `snapshot`.
pub open spec fn result_snapshot_json(result: RtcProviderQueryResult, snapshot: JsonView) -> JsonView {
    JsonView::Object(
        seq![
            ("provider"@, JsonView::Str(result.provider@)),
            ("providerProfileId"@, text_or_null(opt_view(result.provider_profile_id))),
            ("queryKind"@, JsonView::Str(query_kind_key(result.query_kind))),
            ("targetKind"@, JsonView::Str(target_kind_text(result.query_kind))),
            ("targetId"@, JsonView::Str(result_target_id(result))),
            ("providerSessionId"@, text_or_null(opt_view(result.provider_session_id))),
            ("status"@, JsonView::Str(result.status@)),
            ("providerAction"@, JsonView::Str(result.raw_provider_action@)),
            ("providerSnapshot"@, snapshot),
            ("queriedAt"@, JsonView::Str(result.queried_at@)),
        ],
    )
}

/// The snapshot a query job records of a result, with the provider's snapshot text read
/// as JSON; text that is not JSON is a JSON storage error with the parser's message.
pub fn provider_query_result_snapshot(result: &RtcProviderQueryResult) -> (res: Result<JsonValue, RtcStorageError>)
    ensures
        match parsed_json(result.result_snapshot_json@) {
            Ok(snapshot) => res matches Ok(v) && v@ == result_snapshot_json(*result, snapshot),
            Err(message) => res matches Err(e) && e@ == StorageFault::Json(message),
        },
{
    let parsed = parse_json(result.result_snapshot_json.as_str());
    assert(parse_view(parsed) == parsed_json(result.result_snapshot_json@));
    let snapshot = match parsed {
        Ok(v) => v,
        Err(message) => {
            return Err(RtcStorageError::Json(message));
        },
    };
    let mut members: Vec<JsonMember> = Vec::new();
    members.push(member("provider", JsonValue::Str(owned(result.provider.as_str()))));
    members.push(member("providerProfileId", text_or_null_value(&result.provider_profile_id)));
    members.push(member("queryKind", JsonValue::Str(owned(query_kind_to_str(&result.query_kind)))));
    members.push(member("targetKind", JsonValue::Str(provider_query_target_kind(result))));
    members.push(member("targetId", JsonValue::Str(provider_query_target_id(result))));
    members.push(member("providerSessionId", text_or_null_value(&result.provider_session_id)));
    members.push(member("status", JsonValue::Str(owned(result.status.as_str()))));
    members.push(member("providerAction", JsonValue::Str(owned(result.raw_provider_action.as_str()))));
    members.push(member("providerSnapshot", snapshot));
    members.push(member("queriedAt", JsonValue::Str(owned(result.queried_at.as_str()))));
    let value = object_of(members);
    proof {
        let ms = members@.map_values(|m: JsonMember| (m.key@, json_view(m.value)));
        let target = match result_snapshot_json(*result, snapshot@) {
            JsonView::Object(ts) => ts,
            _ => Seq::empty(),
        };
        assert(ms.len() == 10);
        assert forall|k: int| 0 <= k < 10 implies ms[k] == target[k] by {
            assert(ms[k] == (members@[k].key@, json_view(members@[k].value)));
        }
        assert(ms =~= target);
    }
    Ok(value)
}

/// Writes a JSON value as the text of a storage column; writing never fails.
pub fn serialize_json(value: &JsonValue) -> (res: Result<String, RtcStorageError>)
    ensures
        res matches Ok(text) && text@ == json_text(value@),
{
    Ok(to_json_text(value))
}

/// Reads the text of a JSON storage column: the document, or a JSON failure that carries
/// the parser's message.
pub fn deserialize_json_text(value: String) -> (res: Result<JsonValue, RtcStorageError>)
    ensures
        match parsed_json(value@) {
            Ok(v) => res matches Ok(doc) && doc@ == v,
            Err(message) => res matches Err(e) && e@ == StorageFault::Json(message),
        },
{
    let parsed = parse_json(value.as_str());
    assert(parse_view(parsed) == parsed_json(value@));
    match parsed {
        Ok(doc) => Ok(doc),
        Err(message) => Err(RtcStorageError::Json(message)),
    }
}

/// JSON text as stored: parsed and written back compactly (`serde_json` order); text
/// that is not JSON is a JSON storage error with the parser's message.
pub fn normalize_json_text(value: &str) -> (res: Result<String, RtcStorageError>)
    ensures
        match parsed_json(value@) {
            Ok(v) => res matches Ok(text) && text@ == json_text(v),
            Err(message) => res matches Err(e) && e@ == StorageFault::Json(message),
        },
{
    let parsed = parse_json(value);
    assert(parse_view(parsed) == parsed_json(value@));
    match parsed {
        Ok(v) => Ok(to_json_text(&v)),
        Err(message) => Err(RtcStorageError::Json(message)),
    }
}

} // verus!
