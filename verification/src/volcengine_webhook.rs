use vstd::prelude::*;
use crate::domain::{RtcProviderWebhookEvent, RtcProviderWebhookParseRequest, opt_view};
use crate::error::{ContractFault, RtcContractError};
use crate::fields::{format_provider_session_id, header_lookup, header_value, provider_session_id_text, string_field, string_field_spec};
use crate::ids::{payload_hash_text, rtc_provider_payload_hash};
use crate::json::{json_text, parse_json, parsed_json, JsonValue, JsonView};
use crate::text::{owned, push_str};
use crate::webhook::{normalized_event, normalized_event_json, volcengine_event_kind, volcengine_kind_of, WebhookEventView};

verus! {

/// Members of a Volcengine payload that may wrap the event fields.
pub open spec fn containers() -> Seq<&'static str> {
    seq!["EventData", "EventInfo", "Data", "data", "eventData", "eventInfo"]
}

pub open spec fn event_type_names() -> Seq<&'static str> { seq!["EventType", "event_type", "eventType"] }
pub open spec fn event_id_names() -> Seq<&'static str> { seq!["EventId", "event_id", "eventId", "UniqueId"] }
pub open spec fn room_id_names() -> Seq<&'static str> { seq!["RoomId", "room_id", "roomId"] }
pub open spec fn session_id_names() -> Seq<&'static str> {
    seq!["SessionId", "session_id", "sessionId", "RtcSessionId", "rtcSessionId"]
}
pub open spec fn provider_session_id_names() -> Seq<&'static str> {
    seq!["ProviderSessionId", "provider_session_id", "providerSessionId"]
}
pub open spec fn user_id_names() -> Seq<&'static str> { seq!["UserId", "user_id", "userId"] }
pub open spec fn recording_id_names() -> Seq<&'static str> {
    seq!["TaskId", "task_id", "taskId", "RecordId", "recordId"]
}
pub open spec fn occurred_at_names() -> Seq<&'static str> {
    seq!["Timestamp", "timestamp", "EventTime", "eventTime", "EventTs", "EventMsTs"]
}
pub open spec fn signature_header_names() -> Seq<&'static str> {
    seq!["X-Volc-Signature", "X-VolcEngine-Signature", "X-Volc-Sign"]
}
pub open spec fn signature_field_names() -> Seq<&'static str> { seq!["Signature", "signature", "Sign", "sign"] }

/// A field of the payload, at the top level or inside a container.
pub open spec fn field(payload: JsonView, names: Seq<&'static str>) -> Option<Seq<char>> {
    string_field_spec(payload, containers(), names)
}

/// The event that a parsed Volcengine payload describes.
pub open spec fn event_view(request: RtcProviderWebhookParseRequest, payload: JsonView) -> WebhookEventView {
    let event_type = match field(payload, event_type_names()) {
        Some(t) => t,
        None => "unknown"@,
    };
    let event_kind = volcengine_kind_of(event_type);
    let room_id = field(payload, room_id_names());
    let rtc_session_id = field(payload, session_id_names());
    let provider_session_id = match field(payload, provider_session_id_names()) {
        Some(p) => Some(p),
        None => match rtc_session_id {
            Some(s) => Some(provider_session_id_text("volcengine"@, s)),
            None => None,
        },
    };
    let participant_id = field(payload, user_id_names());
    let recording_id = field(payload, recording_id_names());
    let signature_header = match header_lookup(request.headers@, signature_header_names()) {
        Some(h) => Some(h),
        None => field(payload, signature_field_names()),
    };
    WebhookEventView {
        provider: "volcengine"@,
        provider_profile_id: opt_view(request.provider_profile_id),
        external_event_id: field(payload, event_id_names()),
        event_type,
        event_kind,
        room_id,
        rtc_session_id,
        provider_session_id,
        participant_id,
        recording_id,
        occurred_at: field(payload, occurred_at_names()),
        received_at: request.received_at@,
        payload_hash: payload_hash_text(request.raw_payload@),
        signature_header,
        raw_payload: request.raw_payload@,
        normalized_event_json: json_text(
            normalized_event(
                "volcengine"@,
                event_type,
                event_kind,
                room_id,
                rtc_session_id,
                provider_session_id,
                participant_id,
                recording_id,
                opt_view(request.provider_profile_id),
            ),
        ),
    }
}

/// What `parse_provider_webhook` returns for a request.
pub open spec fn webhook_outcome(request: RtcProviderWebhookParseRequest) -> Result<WebhookEventView, ContractFault> {
    match parsed_json(request.raw_payload@) {
        Ok(payload) => Ok(event_view(request, payload)),
        Err(error) => Err(ContractFault::Conflict("invalid volcengine webhook payload: "@ + error)),
    }
}

/// Normalizes a Volcengine webhook whose payload has been parsed into `payload`.
pub fn webhook_event_from_payload(
    request: RtcProviderWebhookParseRequest,
    payload: &JsonValue,
) -> (res: RtcProviderWebhookEvent)
    ensures
        res@ == event_view(request, payload@),
{
    let container_keys: [&str; 6] = ["EventData", "EventInfo", "Data", "data", "eventData", "eventInfo"];
    let event_type_keys: [&str; 3] = ["EventType", "event_type", "eventType"];
    let event_id_keys: [&str; 4] = ["EventId", "event_id", "eventId", "UniqueId"];
    let room_id_keys: [&str; 3] = ["RoomId", "room_id", "roomId"];
    let session_id_keys: [&str; 5] = ["SessionId", "session_id", "sessionId", "RtcSessionId", "rtcSessionId"];
    let provider_session_id_keys: [&str; 3] = ["ProviderSessionId", "provider_session_id", "providerSessionId"];
    let user_id_keys: [&str; 3] = ["UserId", "user_id", "userId"];
    let recording_id_keys: [&str; 5] = ["TaskId", "task_id", "taskId", "RecordId", "recordId"];
    let occurred_at_keys: [&str; 6] = ["Timestamp", "timestamp", "EventTime", "eventTime", "EventTs", "EventMsTs"];
    let signature_header_keys: [&str; 3] = ["X-Volc-Signature", "X-VolcEngine-Signature", "X-Volc-Sign"];
    let signature_field_keys: [&str; 4] = ["Signature", "signature", "Sign", "sign"];
    assert(container_keys@ == containers());
    assert(event_type_keys@ == event_type_names());
    assert(event_id_keys@ == event_id_names());
    assert(room_id_keys@ == room_id_names());
    assert(session_id_keys@ == session_id_names());
    assert(provider_session_id_keys@ == provider_session_id_names());
    assert(user_id_keys@ == user_id_names());
    assert(recording_id_keys@ == recording_id_names());
    assert(occurred_at_keys@ == occurred_at_names());
    assert(signature_header_keys@ == signature_header_names());
    assert(signature_field_keys@ == signature_field_names());

    let event_type = match string_field(payload, container_keys.as_slice(), event_type_keys.as_slice()) {
        Some(t) => t,
        None => owned("unknown"),
    };
    let event_kind = volcengine_event_kind(event_type.as_str());
    let external_event_id = string_field(payload, container_keys.as_slice(), event_id_keys.as_slice());
    let room_id = string_field(payload, container_keys.as_slice(), room_id_keys.as_slice());
    let rtc_session_id = string_field(payload, container_keys.as_slice(), session_id_keys.as_slice());
    let provider_session_id = match string_field(
        payload,
        container_keys.as_slice(),
        provider_session_id_keys.as_slice(),
    ) {
        Some(p) => Some(p),
        None => match &rtc_session_id {
            Some(s) => Some(format_provider_session_id("volcengine", s.as_str())),
            None => None,
        },
    };
    let participant_id = string_field(payload, container_keys.as_slice(), user_id_keys.as_slice());
    let recording_id = string_field(payload, container_keys.as_slice(), recording_id_keys.as_slice());
    let occurred_at = string_field(payload, container_keys.as_slice(), occurred_at_keys.as_slice());
    let signature_header = match header_value(request.headers.as_slice(), signature_header_keys.as_slice()) {
        Some(h) => Some(h),
        None => string_field(payload, container_keys.as_slice(), signature_field_keys.as_slice()),
    };
    let normalized_event_json = normalized_event_json(
        "volcengine",
        event_type.as_str(),
        event_kind,
        &room_id,
        &rtc_session_id,
        &provider_session_id,
        &participant_id,
        &recording_id,
        &request.provider_profile_id,
    );
    let payload_hash = rtc_provider_payload_hash(request.raw_payload.as_str());
    RtcProviderWebhookEvent {
        provider: owned("volcengine"),
        provider_profile_id: request.provider_profile_id,
        external_event_id,
        event_type,
        event_kind,
        room_id,
        rtc_session_id,
        provider_session_id,
        participant_id,
        recording_id,
        occurred_at,
        received_at: request.received_at,
        payload_hash,
        signature_header,
        raw_payload: request.raw_payload,
        normalized_event_json,
    }
}

/// Parses and normalizes a Volcengine RTC webhook delivery.
pub fn parse_provider_webhook(request: RtcProviderWebhookParseRequest) -> (res: Result<
    RtcProviderWebhookEvent,
    RtcContractError,
>)
    ensures
        match (res, webhook_outcome(request)) {
            (Ok(event), Ok(v)) => event@ == v,
            (Err(e), Err(fault)) => e@ == fault,
            _ => false,
        },
{
    match parse_json(request.raw_payload.as_str()) {
        Ok(payload) => Ok(webhook_event_from_payload(request, &payload)),
        Err(error) => {
            let mut message = owned("invalid volcengine webhook payload: ");
            push_str(&mut message, error.as_str());
            Err(RtcContractError::Conflict(message))
        },
    }
}

} // verus!
