use vstd::prelude::*;
use crate::domain::{RtcProviderEventKind, RtcProviderQueryKind};
use crate::error::{RtcStorageError, StorageFault};
use crate::text::{owned, str_eq};

verus! {

/// The stored key of an event kind.
pub open spec fn event_kind_key(kind: RtcProviderEventKind) -> Seq<char> {
    match kind {
        RtcProviderEventKind::RoomStarted => "room_started"@,
        RtcProviderEventKind::RoomEnded => "room_ended"@,
        RtcProviderEventKind::ParticipantJoined => "participant_joined"@,
        RtcProviderEventKind::ParticipantLeft => "participant_left"@,
        RtcProviderEventKind::RecordingStarted => "recording_started"@,
        RtcProviderEventKind::RecordingCompleted => "recording_completed"@,
        RtcProviderEventKind::RecordingFailed => "recording_failed"@,
        RtcProviderEventKind::MediaTrackStarted => "media_track_started"@,
        RtcProviderEventKind::MediaTrackStopped => "media_track_stopped"@,
        RtcProviderEventKind::QualitySample => "quality_sample"@,
        RtcProviderEventKind::Unknown => "unknown"@,
    }
}

/// The stored key of an event kind.
pub fn event_kind_to_str(value: &RtcProviderEventKind) -> (res: &'static str)
    ensures
        res@ == event_kind_key(*value),
{
    match value {
        RtcProviderEventKind::RoomStarted => "room_started",
        RtcProviderEventKind::RoomEnded => "room_ended",
        RtcProviderEventKind::ParticipantJoined => "participant_joined",
        RtcProviderEventKind::ParticipantLeft => "participant_left",
        RtcProviderEventKind::RecordingStarted => "recording_started",
        RtcProviderEventKind::RecordingCompleted => "recording_completed",
        RtcProviderEventKind::RecordingFailed => "recording_failed",
        RtcProviderEventKind::MediaTrackStarted => "media_track_started",
        RtcProviderEventKind::MediaTrackStopped => "media_track_stopped",
        RtcProviderEventKind::QualitySample => "quality_sample",
        RtcProviderEventKind::Unknown => "unknown",
    }
}

/// The fault for a stored value outside a field's domain.
pub open spec fn invalid_value(field: Seq<char>, value: Seq<char>) -> StorageFault {
    StorageFault::InvalidEnumValue { field, value }
}

/// The event kind stored under `key`, if any.
pub open spec fn event_kind_of_key(key: Seq<char>) -> Option<RtcProviderEventKind> {
    if key == "room_started"@ { Some(RtcProviderEventKind::RoomStarted) }
    else if key == "room_ended"@ { Some(RtcProviderEventKind::RoomEnded) }
    else if key == "participant_joined"@ { Some(RtcProviderEventKind::ParticipantJoined) }
    else if key == "participant_left"@ { Some(RtcProviderEventKind::ParticipantLeft) }
    else if key == "recording_started"@ { Some(RtcProviderEventKind::RecordingStarted) }
    else if key == "recording_completed"@ { Some(RtcProviderEventKind::RecordingCompleted) }
    else if key == "recording_failed"@ { Some(RtcProviderEventKind::RecordingFailed) }
    else if key == "media_track_started"@ { Some(RtcProviderEventKind::MediaTrackStarted) }
    else if key == "media_track_stopped"@ { Some(RtcProviderEventKind::MediaTrackStopped) }
    else if key == "quality_sample"@ { Some(RtcProviderEventKind::QualitySample) }
    else if key == "unknown"@ { Some(RtcProviderEventKind::Unknown) }
    else { None }
}

/// Reads a stored event kind.
pub fn str_to_event_kind(value: &str) -> (res: Result<RtcProviderEventKind, RtcStorageError>)
    ensures
        match event_kind_of_key(value@) {
            Some(k) => res == Ok::<RtcProviderEventKind, RtcStorageError>(k),
            None => res matches Err(e) && e@ == invalid_value("event_kind"@, value@),
        },
{
    if str_eq(value, "room_started") { Ok(RtcProviderEventKind::RoomStarted) }
    else if str_eq(value, "room_ended") { Ok(RtcProviderEventKind::RoomEnded) }
    else if str_eq(value, "participant_joined") { Ok(RtcProviderEventKind::ParticipantJoined) }
    else if str_eq(value, "participant_left") { Ok(RtcProviderEventKind::ParticipantLeft) }
    else if str_eq(value, "recording_started") { Ok(RtcProviderEventKind::RecordingStarted) }
    else if str_eq(value, "recording_completed") { Ok(RtcProviderEventKind::RecordingCompleted) }
    else if str_eq(value, "recording_failed") { Ok(RtcProviderEventKind::RecordingFailed) }
    else if str_eq(value, "media_track_started") { Ok(RtcProviderEventKind::MediaTrackStarted) }
    else if str_eq(value, "media_track_stopped") { Ok(RtcProviderEventKind::MediaTrackStopped) }
    else if str_eq(value, "quality_sample") { Ok(RtcProviderEventKind::QualitySample) }
    else if str_eq(value, "unknown") { Ok(RtcProviderEventKind::Unknown) }
    else {
        Err(RtcStorageError::InvalidEnumValue { field: "event_kind", value: owned(value) })
    }
}

/// The stored key of a query kind.
pub open spec fn query_kind_key(kind: RtcProviderQueryKind) -> Seq<char> {
    match kind {
        RtcProviderQueryKind::RoomOnlineUsers => "room_online_users"@,
        RtcProviderQueryKind::RoomState => "room_state"@,
        RtcProviderQueryKind::MediaSessionState => "media_session_state"@,
        RtcProviderQueryKind::RecordingArtifacts => "recording_artifacts"@,
        RtcProviderQueryKind::QualitySamples => "quality_samples"@,
    }
}

/// The stored key of a query kind.
pub fn query_kind_to_str(value: &RtcProviderQueryKind) -> (res: &'static str)
    ensures
        res@ == query_kind_key(*value),
{
    match value {
        RtcProviderQueryKind::RoomOnlineUsers => "room_online_users",
        RtcProviderQueryKind::RoomState => "room_state",
        RtcProviderQueryKind::MediaSessionState => "media_session_state",
        RtcProviderQueryKind::RecordingArtifacts => "recording_artifacts",
        RtcProviderQueryKind::QualitySamples => "quality_samples",
    }
}

/// The query kind stored under `key`, if any.
pub open spec fn query_kind_of_key(key: Seq<char>) -> Option<RtcProviderQueryKind> {
    if key == "room_online_users"@ { Some(RtcProviderQueryKind::RoomOnlineUsers) }
    else if key == "room_state"@ { Some(RtcProviderQueryKind::RoomState) }
    else if key == "media_session_state"@ { Some(RtcProviderQueryKind::MediaSessionState) }
    else if key == "recording_artifacts"@ { Some(RtcProviderQueryKind::RecordingArtifacts) }
    else if key == "quality_samples"@ { Some(RtcProviderQueryKind::QualitySamples) }
    else { None }
}

/// Reads a stored query kind.
pub fn str_to_query_kind(value: &str) -> (res: Result<RtcProviderQueryKind, RtcStorageError>)
    ensures
        match query_kind_of_key(value@) {
            Some(k) => res == Ok::<RtcProviderQueryKind, RtcStorageError>(k),
            None => res matches Err(e) && e@ == invalid_value("query_kind"@, value@),
        },
{
    if str_eq(value, "room_online_users") { Ok(RtcProviderQueryKind::RoomOnlineUsers) }
    else if str_eq(value, "room_state") { Ok(RtcProviderQueryKind::RoomState) }
    else if str_eq(value, "media_session_state") { Ok(RtcProviderQueryKind::MediaSessionState) }
    else if str_eq(value, "recording_artifacts") { Ok(RtcProviderQueryKind::RecordingArtifacts) }
    else if str_eq(value, "quality_samples") { Ok(RtcProviderQueryKind::QualitySamples) }
    else {
        Err(RtcStorageError::InvalidEnumValue { field: "query_kind", value: owned(value) })
    }
}

/// The stored code of a provider query status, if the status is known.
pub open spec fn provider_query_status_code(status: Seq<char>) -> Option<i32> {
    if status == "requested"@ { Some(1) }
    else if status == "running"@ { Some(2) }
    else if status == "completed"@ { Some(3) }
    else if status == "failed"@ { Some(4) }
    else { None }
}

/// The stored code of a provider query status.
pub fn provider_query_status_to_i32(value: &str) -> (res: Result<i32, RtcStorageError>)
    ensures
        match provider_query_status_code(value@) {
            Some(c) => res == Ok::<i32, RtcStorageError>(c),
            None => res matches Err(e) && e@ == invalid_value("provider_query_status"@, value@),
        },
{
    if str_eq(value, "requested") { Ok(1) }
    else if str_eq(value, "running") { Ok(2) }
    else if str_eq(value, "completed") { Ok(3) }
    else if str_eq(value, "failed") { Ok(4) }
    else {
        Err(RtcStorageError::InvalidEnumValue { field: "provider_query_status", value: owned(value) })
    }
}

/// The status text of a stored provider query status code; unknown codes read as failed.
pub open spec fn provider_query_status_name(code: i32) -> Seq<char> {
    if code == 1 { "requested"@ }
    else if code == 2 { "running"@ }
    else if code == 3 { "completed"@ }
    else { "failed"@ }
}

/// The status text of a stored provider query status code.
pub fn provider_query_status_to_str(value: i32) -> (res: &'static str)
    ensures
        res@ == provider_query_status_name(value),
{
    if value == 1 { "requested" }
    else if value == 2 { "running" }
    else if value == 3 { "completed" }
    else { "failed" }
}

/// The stored code of a webhook status, if the status is known.
pub open spec fn webhook_status_code(status: Seq<char>) -> Option<i32> {
    if status == "received"@ { Some(1) }
    else if status == "processed"@ { Some(2) }
    else if status == "failed"@ { Some(3) }
    else if status == "ignored"@ { Some(4) }
    else { None }
}

/// The stored code of a webhook status.
pub fn webhook_status_to_i32(value: &str) -> (res: Result<i32, RtcStorageError>)
    ensures
        match webhook_status_code(value@) {
            Some(c) => res == Ok::<i32, RtcStorageError>(c),
            None => res matches Err(e) && e@ == invalid_value("webhook_status"@, value@),
        },
{
    if str_eq(value, "received") { Ok(1) }
    else if str_eq(value, "processed") { Ok(2) }
    else if str_eq(value, "failed") { Ok(3) }
    else if str_eq(value, "ignored") { Ok(4) }
    else {
        Err(RtcStorageError::InvalidEnumValue { field: "webhook_status", value: owned(value) })
    }
}

/// The status text of a stored webhook status code; unknown codes read as failed.
pub open spec fn webhook_status_name(code: i32) -> Seq<char> {
    if code == 1 { "received"@ }
    else if code == 2 { "processed"@ }
    else if code == 3 { "failed"@ }
    else if code == 4 { "ignored"@ }
    else { "failed"@ }
}

/// The status text of a stored webhook status code.
pub fn webhook_status_to_str(value: i32) -> (res: &'static str)
    ensures
        res@ == webhook_status_name(value),
{
    if value == 1 { "received" }
    else if value == 2 { "processed" }
    else if value == 3 { "failed" }
    else if value == 4 { "ignored" }
    else { "failed" }
}

} // verus!
