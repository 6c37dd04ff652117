use vstd::prelude::*;

verus! {

/// What an active provider query asks about.
#[derive(Clone, Copy, Debug, PartialEq, Eq, Structural)]
pub enum RtcProviderQueryKind {
    RoomOnlineUsers,
    RoomState,
    MediaSessionState,
    RecordingArtifacts,
    QualitySamples,
}

/// The normalized meaning of a provider webhook event.
#[derive(Clone, Copy, Debug, PartialEq, Eq, Structural)]
pub enum RtcProviderEventKind {
    RoomStarted,
    RoomEnded,
    ParticipantJoined,
    ParticipantLeft,
    RecordingStarted,
    RecordingCompleted,
    RecordingFailed,
    MediaTrackStarted,
    MediaTrackStopped,
    QualitySample,
    Unknown,
}

/// The media a session carries.
#[derive(Clone, Copy, Debug, PartialEq, Eq, Structural)]
pub enum RtcMediaSessionMode {
    Audio,
    Video,
    Live,
}

/// An active query sent to a provider.
#[derive(Clone, Debug)]
pub struct RtcProviderQueryRequest {
    pub provider: String,
    pub provider_profile_id: Option<String>,
    pub query_kind: RtcProviderQueryKind,
    pub room_id: Option<String>,
    pub rtc_session_id: Option<String>,
    pub provider_session_id: Option<String>,
    pub cursor: Option<String>,
}

/// The snapshot a provider answered an active query with.
#[derive(Clone, Debug)]
pub struct RtcProviderQueryResult {
    pub provider: String,
    pub provider_profile_id: Option<String>,
    pub query_kind: RtcProviderQueryKind,
    pub room_id: Option<String>,
    pub rtc_session_id: Option<String>,
    pub provider_session_id: Option<String>,
    pub status: String,
    pub raw_provider_action: String,
    pub result_snapshot_json: String,
    pub next_cursor: Option<String>,
    pub queried_at: String,
}

/// A raw provider webhook delivery to normalize.
#[derive(Clone, Debug)]
pub struct RtcProviderWebhookParseRequest {
    pub provider: String,
    pub provider_profile_id: Option<String>,
    pub received_at: String,
    pub headers: Vec<(String, String)>,
    pub raw_payload: String,
}

/// A provider webhook delivery in the provider-neutral form.
#[derive(Clone, Debug)]
pub struct RtcProviderWebhookEvent {
    pub provider: String,
    pub provider_profile_id: Option<String>,
    pub external_event_id: Option<String>,
    pub event_type: String,
    pub event_kind: RtcProviderEventKind,
    pub room_id: Option<String>,
    pub rtc_session_id: Option<String>,
    pub provider_session_id: Option<String>,
    pub participant_id: Option<String>,
    pub recording_id: Option<String>,
    pub occurred_at: Option<String>,
    pub received_at: String,
    pub payload_hash: String,
    pub signature_header: Option<String>,
    pub raw_payload: String,
    pub normalized_event_json: String,
}

/// The view of an optional string.
pub open spec fn opt_view(s: Option<String>) -> Option<Seq<char>> {
    match s {
        Some(v) => Some(v@),
        None => None,
    }
}

/// A copy of an optional string.
pub fn clone_opt(s: &Option<String>) -> (res: Option<String>)
    ensures
        opt_view(res) == opt_view(*s),
{
    match s {
        Some(v) => Some(crate::text::owned(v.as_str())),
        None => None,
    }
}

} // verus!
