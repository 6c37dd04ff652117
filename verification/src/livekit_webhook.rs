use vstd::prelude::*;
use crate::domain::{RtcProviderWebhookEvent, RtcProviderWebhookParseRequest, opt_view};
use crate::error::{ContractFault, RtcContractError};
use crate::fields::{
    field_in, format_provider_session_id, header_lookup, header_value, nested_object_string_field,
    object_field, provider_session_id_text, string_field, string_field_in, string_field_spec,
};
use crate::ids::{payload_hash_text, rtc_provider_payload_hash};
use crate::json::{json_text, parse_json, parsed_json, JsonValue, JsonView};
use crate::text::{owned, push_str};
use crate::webhook::{livekit_event_kind, livekit_kind_of, normalized_event, normalized_event_json, WebhookEventView};

verus! {

/// Members of a LiveKit payload that may wrap the event fields.
pub open spec fn containers() -> Seq<&'static str> {
    seq!["room", "participant", "track", "egressInfo", "egress", "ingressInfo", "data", "eventData", "payload"]
}

pub open spec fn event_type_names() -> Seq<&'static str> { seq!["event", "Event", "eventType", "type"] }
pub open spec fn event_id_names() -> Seq<&'static str> {
    seq!["id", "eventId", "EventId", "sid", "requestId", "webhookId"]
}
pub open spec fn room_id_names() -> Seq<&'static str> {
    seq!["name", "roomName", "room_name", "roomId", "room_id", "sid", "roomSid"]
}
pub open spec fn session_id_names() -> Seq<&'static str> {
    seq!["SessionId", "session_id", "sessionId", "RtcSessionId", "rtcSessionId"]
}
pub open spec fn provider_session_id_names() -> Seq<&'static str> {
    seq!["ProviderSessionId", "provider_session_id", "providerSessionId"]
}
pub open spec fn participant_names() -> Seq<&'static str> {
    seq!["identity", "participantIdentity", "participant_id", "userId", "uid", "sid"]
}
pub open spec fn top_participant_names() -> Seq<&'static str> {
    seq!["identity", "participantIdentity", "participant_id", "userId", "uid"]
}
pub open spec fn egress_names() -> Seq<&'static str> {
    seq!["egressId", "egress_id", "recordingId", "recording_id", "id"]
}
pub open spec fn top_recording_names() -> Seq<&'static str> {
    seq!["egressId", "egress_id", "recordingId", "recording_id"]
}
pub open spec fn occurred_at_names() -> Seq<&'static str> {
    seq!["createdAt", "created_at", "startedAt", "endedAt", "timestamp", "eventTime"]
}
pub open spec fn signature_header_names() -> Seq<&'static str> {
    seq!["Authorization", "LiveKit-Signature", "X-LiveKit-Signature", "X-LK-Signature"]
}

/// A field of the payload, at the top level or inside a container.
pub open spec fn field(payload: JsonView, names: Seq<&'static str>) -> Option<Seq<char>> {
    string_field_spec(payload, containers(), names)
}

/// The first of two optional texts that is present.
pub open spec fn first_of(a: Option<Seq<char>>, b: Option<Seq<char>>) -> Option<Seq<char>> {
    match a {
        Some(x) => Some(x),
        None => b,
    }
}

/// The event that a parsed LiveKit payload describes.
pub open spec fn event_view(request: RtcProviderWebhookParseRequest, payload: JsonView) -> WebhookEventView {
    let event_type = match field(payload, event_type_names()) {
        Some(t) => t,
        None => "unknown"@,
    };
    let event_kind = livekit_kind_of(event_type);
    let room_id = field(payload, room_id_names());
    let rtc_session_id = field(payload, session_id_names());
    let provider_session_id = first_of(
        field(payload, provider_session_id_names()),
        match rtc_session_id {
            Some(s) => Some(provider_session_id_text("livekit"@, s)),
            None => None,
        },
    );
    let participant_id = first_of(
        object_field(payload, "participant"@, participant_names()),
        field_in(payload, top_participant_names()),
    );
    let recording_id = first_of(
        object_field(payload, "egressInfo"@, egress_names()),
        first_of(
            object_field(payload, "egress"@, egress_names()),
            field_in(payload, top_recording_names()),
        ),
    );
    WebhookEventView {
        provider: "livekit"@,
        provider_profile_id: opt_view(request.provider_profile_id),
        external_event_id: field(payload, event_id_names()),
        event_type,
        event_kind,
        room_id,
        rtc_session_id,
        provider_session_id,
        participant_id,
        recording_id,
        occurred_at: field(payload, occurred_at_names()),
        received_at: request.received_at@,
        payload_hash: payload_hash_text(request.raw_payload@),
        signature_header: header_lookup(request.headers@, signature_header_names()),
        raw_payload: request.raw_payload@,
        normalized_event_json: json_text(
            normalized_event(
                "livekit"@,
                event_type,
                event_kind,
                room_id,
                rtc_session_id,
                provider_session_id,
                participant_id,
                recording_id,
                opt_view(request.provider_profile_id),
            ),
        ),
    }
}

/// What `parse_provider_webhook` returns for a request.
pub open spec fn webhook_outcome(request: RtcProviderWebhookParseRequest) -> Result<WebhookEventView, ContractFault> {
    match parsed_json(request.raw_payload@) {
        Ok(payload) => Ok(event_view(request, payload)),
        Err(error) => Err(ContractFault::Conflict("invalid livekit webhook payload: "@ + error)),
    }
}

/// Normalizes a LiveKit webhook whose payload has been parsed into `payload`.
pub fn webhook_event_from_payload(
    request: RtcProviderWebhookParseRequest,
    payload: &JsonValue,
) -> (res: RtcProviderWebhookEvent)
    ensures
        res@ == event_view(request, payload@),
{
    let container_keys: [&str; 9] = ["room", "participant", "track", "egressInfo", "egress", "ingressInfo", "data", "eventData", "payload"];
    let event_type_keys: [&str; 4] = ["event", "Event", "eventType", "type"];
    let event_id_keys: [&str; 6] = ["id", "eventId", "EventId", "sid", "requestId", "webhookId"];
    let room_id_keys: [&str; 7] = ["name", "roomName", "room_name", "roomId", "room_id", "sid", "roomSid"];
    let session_id_keys: [&str; 5] = ["SessionId", "session_id", "sessionId", "RtcSessionId", "rtcSessionId"];
    let provider_session_id_keys: [&str; 3] = ["ProviderSessionId", "provider_session_id", "providerSessionId"];
    let participant_keys: [&str; 6] = ["identity", "participantIdentity", "participant_id", "userId", "uid", "sid"];
    let top_participant_keys: [&str; 5] = ["identity", "participantIdentity", "participant_id", "userId", "uid"];
    let egress_keys: [&str; 5] = ["egressId", "egress_id", "recordingId", "recording_id", "id"];
    let top_recording_keys: [&str; 4] = ["egressId", "egress_id", "recordingId", "recording_id"];
    let occurred_at_keys: [&str; 6] = ["createdAt", "created_at", "startedAt", "endedAt", "timestamp", "eventTime"];
    let signature_header_keys: [&str; 4] = ["Authorization", "LiveKit-Signature", "X-LiveKit-Signature", "X-LK-Signature"];
    assert(container_keys@ == containers());
    assert(event_type_keys@ == event_type_names());
    assert(event_id_keys@ == event_id_names());
    assert(room_id_keys@ == room_id_names());
    assert(session_id_keys@ == session_id_names());
    assert(provider_session_id_keys@ == provider_session_id_names());
    assert(participant_keys@ == participant_names());
    assert(top_participant_keys@ == top_participant_names());
    assert(egress_keys@ == egress_names());
    assert(top_recording_keys@ == top_recording_names());
    assert(occurred_at_keys@ == occurred_at_names());
    assert(signature_header_keys@ == signature_header_names());

    let event_type = match string_field(payload, container_keys.as_slice(), event_type_keys.as_slice()) {
        Some(t) => t,
        None => owned("unknown"),
    };
    let event_kind = livekit_event_kind(event_type.as_str());
    let external_event_id = string_field(payload, container_keys.as_slice(), event_id_keys.as_slice());
    let room_id = string_field(payload, container_keys.as_slice(), room_id_keys.as_slice());
    let rtc_session_id = string_field(payload, container_keys.as_slice(), session_id_keys.as_slice());
    let provider_session_id = match string_field(
        payload,
        container_keys.as_slice(),
        provider_session_id_keys.as_slice(),
    ) {
        Some(p) => Some(p),
        None => match &rtc_session_id {
            Some(s) => Some(format_provider_session_id("livekit", s.as_str())),
            None => None,
        },
    };
    let participant_id = match nested_object_string_field(payload, "participant", participant_keys.as_slice()) {
        Some(p) => Some(p),
        None => string_field_in(payload, top_participant_keys.as_slice()),
    };
    let recording_id = match nested_object_string_field(payload, "egressInfo", egress_keys.as_slice()) {
        Some(r) => Some(r),
        None => match nested_object_string_field(payload, "egress", egress_keys.as_slice()) {
            Some(r) => Some(r),
            None => string_field_in(payload, top_recording_keys.as_slice()),
        },
    };
    let occurred_at = string_field(payload, container_keys.as_slice(), occurred_at_keys.as_slice());
    let signature_header = header_value(request.headers.as_slice(), signature_header_keys.as_slice());
    let normalized_event_json = normalized_event_json(
        "livekit",
        event_type.as_str(),
        event_kind,
        &room_id,
        &rtc_session_id,
        &provider_session_id,
        &participant_id,
        &recording_id,
        &request.provider_profile_id,
    );
    let payload_hash = rtc_provider_payload_hash(request.raw_payload.as_str());
    RtcProviderWebhookEvent {
        provider: owned("livekit"),
        provider_profile_id: request.provider_profile_id,
        external_event_id,
        event_type,
        event_kind,
        room_id,
        rtc_session_id,
        provider_session_id,
        participant_id,
        recording_id,
        occurred_at,
        received_at: request.received_at,
        payload_hash,
        signature_header,
        raw_payload: request.raw_payload,
        normalized_event_json,
    }
}

/// Parses and normalizes a LiveKit webhook delivery.
pub fn parse_provider_webhook(request: RtcProviderWebhookParseRequest) -> (res: Result<
    RtcProviderWebhookEvent,
    RtcContractError,
>)
    ensures
        match (res, webhook_outcome(request)) {
            (Ok(event), Ok(v)) => event@ == v,
            (Err(e), Err(fault)) => e@ == fault,
            _ => false,
        },
{
    match parse_json(request.raw_payload.as_str()) {
        Ok(payload) => Ok(webhook_event_from_payload(request, &payload)),
        Err(error) => {
            let mut message = owned("invalid livekit webhook payload: ");
            push_str(&mut message, error.as_str());
            Err(RtcContractError::Conflict(message))
        },
    }
}

} // verus!
