use vstd::prelude::*;
use crate::domain::{RtcProviderEventKind, RtcProviderWebhookEvent, opt_view};
use crate::event_codec::{event_kind_key, event_kind_to_str};
use crate::fields::{text_view};
use crate::json::{json_view, json_text, to_json_text, JsonMember, JsonValue, JsonView};
use crate::text::{ascii_lowercase, contains_chars, has_substring, lowercase_chars, owned};

verus! {

/// The mathematical content of an [`RtcProviderWebhookEvent`].
pub struct WebhookEventView {
    pub provider: Seq<char>,
    pub provider_profile_id: Option<Seq<char>>,
    pub external_event_id: Option<Seq<char>>,
    pub event_type: Seq<char>,
    pub event_kind: RtcProviderEventKind,
    pub room_id: Option<Seq<char>>,
    pub rtc_session_id: Option<Seq<char>>,
    pub provider_session_id: Option<Seq<char>>,
    pub participant_id: Option<Seq<char>>,
    pub recording_id: Option<Seq<char>>,
    pub occurred_at: Option<Seq<char>>,
    pub received_at: Seq<char>,
    pub payload_hash: Seq<char>,
    pub signature_header: Option<Seq<char>>,
    pub raw_payload: Seq<char>,
    pub normalized_event_json: Seq<char>,
}

impl View for RtcProviderWebhookEvent {
    type V = WebhookEventView;

    open spec fn view(&self) -> WebhookEventView {
        WebhookEventView {
            provider: self.provider@,
            provider_profile_id: opt_view(self.provider_profile_id),
            external_event_id: opt_view(self.external_event_id),
            event_type: self.event_type@,
            event_kind: self.event_kind,
            room_id: opt_view(self.room_id),
            rtc_session_id: opt_view(self.rtc_session_id),
            provider_session_id: opt_view(self.provider_session_id),
            participant_id: opt_view(self.participant_id),
            recording_id: opt_view(self.recording_id),
            occurred_at: opt_view(self.occurred_at),
            received_at: self.received_at@,
            payload_hash: self.payload_hash@,
            signature_header: opt_view(self.signature_header),
            raw_payload: self.raw_payload@,
            normalized_event_json: self.normalized_event_json@,
        }
    }
}

/// A JSON string, or `null` when absent.
pub open spec fn text_or_null(v: Option<Seq<char>>) -> JsonView {
    match v {
        Some(s) => JsonView::Str(s),
        None => JsonView::Null,
    }
}

/// The provider-neutral JSON summary of a webhook event.
pub open spec fn normalized_event(
    provider: Seq<char>,
    event_type: Seq<char>,
    event_kind: RtcProviderEventKind,
    room_id: Option<Seq<char>>,
    rtc_session_id: Option<Seq<char>>,
    provider_session_id: Option<Seq<char>>,
    participant_id: Option<Seq<char>>,
    recording_id: Option<Seq<char>>,
    provider_profile_id: Option<Seq<char>>,
) -> JsonView {
    JsonView::Object(
        seq![
            ("provider"@, JsonView::Str(provider)),
            ("eventType"@, JsonView::Str(event_type)),
            ("eventKind"@, JsonView::Str(event_kind_key(event_kind))),
            ("roomId"@, text_or_null(room_id)),
            ("rtcSessionId"@, text_or_null(rtc_session_id)),
            ("providerSessionId"@, text_or_null(provider_session_id)),
            ("participantId"@, text_or_null(participant_id)),
            ("recordingId"@, text_or_null(recording_id)),
            ("providerProfileId"@, text_or_null(provider_profile_id)),
        ],
    )
}

pub(crate) fn member(key: &str, value: JsonValue) -> (res: JsonMember)
    ensures
        res.key@ == key@,
        res.value == value,
{
    JsonMember { key: owned(key), value }
}

pub(crate) fn text_or_null_value(v: &Option<String>) -> (res: JsonValue)
    ensures
        res@ == text_or_null(text_view(*v)),
{
    match v {
        Some(s) => JsonValue::Str(owned(s.as_str())),
        None => JsonValue::Null,
    }
}

/// Writes the provider-neutral JSON summary of a webhook event.
pub(crate) fn normalized_event_json(
    provider: &str,
    event_type: &str,
    event_kind: RtcProviderEventKind,
    room_id: &Option<String>,
    rtc_session_id: &Option<String>,
    provider_session_id: &Option<String>,
    participant_id: &Option<String>,
    recording_id: &Option<String>,
    provider_profile_id: &Option<String>,
) -> (res: String)
    ensures
        res@ == json_text(
            normalized_event(
                provider@,
                event_type@,
                event_kind,
                text_view(*room_id),
                text_view(*rtc_session_id),
                text_view(*provider_session_id),
                text_view(*participant_id),
                text_view(*recording_id),
                text_view(*provider_profile_id),
            ),
        ),
{
    let mut members: Vec<JsonMember> = Vec::new();
    members.push(member("provider", JsonValue::Str(owned(provider))));
    members.push(member("eventType", JsonValue::Str(owned(event_type))));
    members.push(member("eventKind", JsonValue::Str(owned(event_kind_to_str(&event_kind)))));
    members.push(member("roomId", text_or_null_value(room_id)));
    members.push(member("rtcSessionId", text_or_null_value(rtc_session_id)));
    members.push(member("providerSessionId", text_or_null_value(provider_session_id)));
    members.push(member("participantId", text_or_null_value(participant_id)));
    members.push(member("recordingId", text_or_null_value(recording_id)));
    members.push(member("providerProfileId", text_or_null_value(provider_profile_id)));
    let value = JsonValue::Object(members);
    proof {
        let target = normalized_event(
            provider@,
            event_type@,
            event_kind,
            text_view(*room_id),
            text_view(*rtc_session_id),
            text_view(*provider_session_id),
            text_view(*participant_id),
            text_view(*recording_id),
            text_view(*provider_profile_id),
        );
        let ms = match value@ {
            JsonView::Object(ms) => ms,
            _ => Seq::empty(),
        };
        let ts = match target {
            JsonView::Object(ts) => ts,
            _ => Seq::empty(),
        };
        assert(ms.len() == 9);
        assert forall|k: int| 0 <= k < 9 implies ms[k] == ts[k] by {
            assert(ms[k] == (members@[k].key@, json_view(members@[k].value)));
        }
        assert(ms =~= ts);
    }
    to_json_text(&value)
}

/// Classifies a Volcengine event type by the words it holds, ignoring ASCII case.
pub open spec fn volcengine_kind_of(event_type: Seq<char>) -> RtcProviderEventKind {
    let n = ascii_lowercase(event_type);
    if has_substring(n, "join"@) || has_substring(n, "enter"@) {
        RtcProviderEventKind::ParticipantJoined
    } else if has_substring(n, "leave"@) || has_substring(n, "exit"@) {
        RtcProviderEventKind::ParticipantLeft
    } else if has_substring(n, "record"@) && has_substring(n, "start"@) {
        RtcProviderEventKind::RecordingStarted
    } else if has_substring(n, "record"@) && (has_substring(n, "complete"@) || has_substring(
        n,
        "finish"@,
    ) || has_substring(n, "stop"@)) {
        RtcProviderEventKind::RecordingCompleted
    } else if has_substring(n, "record"@) && has_substring(n, "fail"@) {
        RtcProviderEventKind::RecordingFailed
    } else if has_substring(n, "room"@) && (has_substring(n, "end"@) || has_substring(n, "destroy"@)
        || has_substring(n, "close"@)) {
        RtcProviderEventKind::RoomEnded
    } else if has_substring(n, "room"@) && (has_substring(n, "start"@) || has_substring(n, "create"@)
        || has_substring(n, "created"@) || has_substring(n, "open"@)) {
        RtcProviderEventKind::RoomStarted
    } else {
        RtcProviderEventKind::Unknown
    }
}

/// Classifies a Volcengine event type.
pub fn volcengine_event_kind(event_type: &str) -> (res: RtcProviderEventKind)
    ensures
        res == volcengine_kind_of(event_type@),
{
    let n = lowercase_chars(event_type);
    if contains_chars(&n, "join") || contains_chars(&n, "enter") {
        RtcProviderEventKind::ParticipantJoined
    } else if contains_chars(&n, "leave") || contains_chars(&n, "exit") {
        RtcProviderEventKind::ParticipantLeft
    } else if contains_chars(&n, "record") && contains_chars(&n, "start") {
        RtcProviderEventKind::RecordingStarted
    } else if contains_chars(&n, "record") && (contains_chars(&n, "complete") || contains_chars(
        &n,
        "finish",
    ) || contains_chars(&n, "stop")) {
        RtcProviderEventKind::RecordingCompleted
    } else if contains_chars(&n, "record") && contains_chars(&n, "fail") {
        RtcProviderEventKind::RecordingFailed
    } else if contains_chars(&n, "room") && (contains_chars(&n, "end") || contains_chars(
        &n,
        "destroy",
    ) || contains_chars(&n, "close")) {
        RtcProviderEventKind::RoomEnded
    } else if contains_chars(&n, "room") && (contains_chars(&n, "start") || contains_chars(
        &n,
        "create",
    ) || contains_chars(&n, "created") || contains_chars(&n, "open")) {
        RtcProviderEventKind::RoomStarted
    } else {
        RtcProviderEventKind::Unknown
    }
}

/// Classifies a LiveKit event type by the words it holds, ignoring ASCII case.
pub open spec fn livekit_kind_of(event_type: Seq<char>) -> RtcProviderEventKind {
    let n = ascii_lowercase(event_type);
    if has_substring(n, "participant_join"@) {
        RtcProviderEventKind::ParticipantJoined
    } else if has_substring(n, "participant_leave"@) {
        RtcProviderEventKind::ParticipantLeft
    } else if has_substring(n, "egress_start"@) || has_substring(n, "recording_start"@) {
        RtcProviderEventKind::RecordingStarted
    } else if has_substring(n, "egress_end"@) || has_substring(n, "recording_complete"@)
        || has_substring(n, "recording_finish"@) {
        RtcProviderEventKind::RecordingCompleted
    } else if has_substring(n, "egress_fail"@) || has_substring(n, "recording_fail"@) {
        RtcProviderEventKind::RecordingFailed
    } else if has_substring(n, "track_publish"@) {
        RtcProviderEventKind::MediaTrackStarted
    } else if has_substring(n, "track_unpublish"@) {
        RtcProviderEventKind::MediaTrackStopped
    } else if has_substring(n, "room_finish"@) || has_substring(n, "room_end"@) {
        RtcProviderEventKind::RoomEnded
    } else if has_substring(n, "room_start"@) || has_substring(n, "room_create"@) {
        RtcProviderEventKind::RoomStarted
    } else {
        RtcProviderEventKind::Unknown
    }
}

/// Classifies a LiveKit event type.
pub fn livekit_event_kind(event_type: &str) -> (res: RtcProviderEventKind)
    ensures
        res == livekit_kind_of(event_type@),
{
    let n = lowercase_chars(event_type);
    if contains_chars(&n, "participant_join") {
        RtcProviderEventKind::ParticipantJoined
    } else if contains_chars(&n, "participant_leave") {
        RtcProviderEventKind::ParticipantLeft
    } else if contains_chars(&n, "egress_start") || contains_chars(&n, "recording_start") {
        RtcProviderEventKind::RecordingStarted
    } else if contains_chars(&n, "egress_end") || contains_chars(&n, "recording_complete")
        || contains_chars(&n, "recording_finish") {
        RtcProviderEventKind::RecordingCompleted
    } else if contains_chars(&n, "egress_fail") || contains_chars(&n, "recording_fail") {
        RtcProviderEventKind::RecordingFailed
    } else if contains_chars(&n, "track_publish") {
        RtcProviderEventKind::MediaTrackStarted
    } else if contains_chars(&n, "track_unpublish") {
        RtcProviderEventKind::MediaTrackStopped
    } else if contains_chars(&n, "room_finish") || contains_chars(&n, "room_end") {
        RtcProviderEventKind::RoomEnded
    } else if contains_chars(&n, "room_start") || contains_chars(&n, "room_create") {
        RtcProviderEventKind::RoomStarted
    } else {
        RtcProviderEventKind::Unknown
    }
}

} // verus!
