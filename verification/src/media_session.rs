use vstd::prelude::*;
use crate::domain::RtcMediaSessionMode;
use crate::error::RtcStorageError;
use crate::event_codec::invalid_value;
use crate::numtext::{i64_text, int_text};
use crate::text::{owned, str_eq};

verus! {

pub(crate) fn invalid_code(field: &'static str, value: i32) -> (res: RtcStorageError)
    ensures
        res@ == invalid_value(field@, int_text(value as int)),
{
    RtcStorageError::InvalidEnumValue { field, value: i64_text(value as i64) }
}

/// The lifecycle state of a room.
#[derive(Clone, Copy, Debug, PartialEq, Eq, Structural)]
pub enum RtcRoomStatus {
    Active,
    Archived,
    Disabled,
}

/// The number a [`RtcRoomStatus`] is stored as.
pub open spec fn room_status_code(value: RtcRoomStatus) -> i32 {
    match value {
        RtcRoomStatus::Active => 1,
        RtcRoomStatus::Archived => 2,
        RtcRoomStatus::Disabled => 3,
    }
}

/// Stores a [`RtcRoomStatus`] as its number.
pub fn room_status_to_i32(value: &RtcRoomStatus) -> (res: i32)
    ensures
        res == room_status_code(*value),
{
    match value {
        RtcRoomStatus::Active => 1,
        RtcRoomStatus::Archived => 2,
        RtcRoomStatus::Disabled => 3,
    }
}

/// The number a [`RtcMediaSessionMode`] is stored as.
pub open spec fn media_mode_code(value: RtcMediaSessionMode) -> i32 {
    match value {
        RtcMediaSessionMode::Audio => 1,
        RtcMediaSessionMode::Video => 2,
        RtcMediaSessionMode::Live => 3,
    }
}

/// Stores a [`RtcMediaSessionMode`] as its number.
pub fn media_mode_to_i32(value: &RtcMediaSessionMode) -> (res: i32)
    ensures
        res == media_mode_code(*value),
{
    match value {
        RtcMediaSessionMode::Audio => 1,
        RtcMediaSessionMode::Video => 2,
        RtcMediaSessionMode::Live => 3,
    }
}

/// The [`RtcMediaSessionMode`] stored as `code`, if any.
pub open spec fn media_mode_of_code(code: i32) -> Option<RtcMediaSessionMode> {
    if code == 1 {
        Some(RtcMediaSessionMode::Audio)
    } else if code == 2 {
        Some(RtcMediaSessionMode::Video)
    } else if code == 3 {
        Some(RtcMediaSessionMode::Live)
    } else {
        None
    }
}

/// Reads a stored [`RtcMediaSessionMode`]; an unknown number is an invalid `media_mode` value.
pub fn i32_to_media_mode(value: i32) -> (res: Result<RtcMediaSessionMode, RtcStorageError>)
    ensures
        match media_mode_of_code(value) {
            Some(v) => res == Ok::<RtcMediaSessionMode, RtcStorageError>(v),
            None => res matches Err(e) && e@ == invalid_value("media_mode"@, int_text(value as int)),
        },
{
    match value {
        1 => Ok(RtcMediaSessionMode::Audio),
        2 => Ok(RtcMediaSessionMode::Video),
        3 => Ok(RtcMediaSessionMode::Live),
        _ => Err(invalid_code("media_mode", value)),
    }
}

/// The lifecycle state of a media session.
#[derive(Clone, Copy, Debug, PartialEq, Eq, Structural)]
pub enum RtcMediaSessionStatus {
    Preparing,
    Active,
    Closing,
    Ended,
    Failed,
}

/// The number a [`RtcMediaSessionStatus`] is stored as.
pub open spec fn media_session_status_code(value: RtcMediaSessionStatus) -> i32 {
    match value {
        RtcMediaSessionStatus::Preparing => 1,
        RtcMediaSessionStatus::Active => 2,
        RtcMediaSessionStatus::Closing => 3,
        RtcMediaSessionStatus::Ended => 4,
        RtcMediaSessionStatus::Failed => 5,
    }
}

/// Stores a [`RtcMediaSessionStatus`] as its number.
pub fn media_session_status_to_i32(value: &RtcMediaSessionStatus) -> (res: i32)
    ensures
        res == media_session_status_code(*value),
{
    match value {
        RtcMediaSessionStatus::Preparing => 1,
        RtcMediaSessionStatus::Active => 2,
        RtcMediaSessionStatus::Closing => 3,
        RtcMediaSessionStatus::Ended => 4,
        RtcMediaSessionStatus::Failed => 5,
    }
}

/// The [`RtcMediaSessionStatus`] stored as `code`, if any.
pub open spec fn media_session_status_of_code(code: i32) -> Option<RtcMediaSessionStatus> {
    if code == 1 {
        Some(RtcMediaSessionStatus::Preparing)
    } else if code == 2 {
        Some(RtcMediaSessionStatus::Active)
    } else if code == 3 {
        Some(RtcMediaSessionStatus::Closing)
    } else if code == 4 {
        Some(RtcMediaSessionStatus::Ended)
    } else if code == 5 {
        Some(RtcMediaSessionStatus::Failed)
    } else {
        None
    }
}

/// Reads a stored [`RtcMediaSessionStatus`]; an unknown number is an invalid `status` value.
pub fn i32_to_media_session_status(value: i32) -> (res: Result<RtcMediaSessionStatus, RtcStorageError>)
    ensures
        match media_session_status_of_code(value) {
            Some(v) => res == Ok::<RtcMediaSessionStatus, RtcStorageError>(v),
            None => res matches Err(e) && e@ == invalid_value("status"@, int_text(value as int)),
        },
{
    match value {
        1 => Ok(RtcMediaSessionStatus::Preparing),
        2 => Ok(RtcMediaSessionStatus::Active),
        3 => Ok(RtcMediaSessionStatus::Closing),
        4 => Ok(RtcMediaSessionStatus::Ended),
        5 => Ok(RtcMediaSessionStatus::Failed),
        _ => Err(invalid_code("status", value)),
    }
}

/// What a participant may do in a session.
#[derive(Clone, Copy, Debug, PartialEq, Eq, Structural)]
pub enum RtcParticipantRole {
    Host,
    Guest,
    Listener,
}

/// The number a [`RtcParticipantRole`] is stored as.
pub open spec fn participant_role_code(value: RtcParticipantRole) -> i32 {
    match value {
        RtcParticipantRole::Host => 1,
        RtcParticipantRole::Guest => 2,
        RtcParticipantRole::Listener => 3,
    }
}

/// Stores a [`RtcParticipantRole`] as its number.
pub fn participant_role_to_i32(value: &RtcParticipantRole) -> (res: i32)
    ensures
        res == participant_role_code(*value),
{
    match value {
        RtcParticipantRole::Host => 1,
        RtcParticipantRole::Guest => 2,
        RtcParticipantRole::Listener => 3,
    }
}

/// The [`RtcParticipantRole`] stored as `code`, if any.
pub open spec fn participant_role_of_code(code: i32) -> Option<RtcParticipantRole> {
    if code == 1 {
        Some(RtcParticipantRole::Host)
    } else if code == 2 {
        Some(RtcParticipantRole::Guest)
    } else if code == 3 {
        Some(RtcParticipantRole::Listener)
    } else {
        None
    }
}

/// Reads a stored [`RtcParticipantRole`]; an unknown number is an invalid `role` value.
pub fn i32_to_participant_role(value: i32) -> (res: Result<RtcParticipantRole, RtcStorageError>)
    ensures
        match participant_role_of_code(value) {
            Some(v) => res == Ok::<RtcParticipantRole, RtcStorageError>(v),
            None => res matches Err(e) && e@ == invalid_value("role"@, int_text(value as int)),
        },
{
    match value {
        1 => Ok(RtcParticipantRole::Host),
        2 => Ok(RtcParticipantRole::Guest),
        3 => Ok(RtcParticipantRole::Listener),
        _ => Err(invalid_code("role", value)),
    }
}

/// Where a participant stands in a session.
#[derive(Clone, Copy, Debug, PartialEq, Eq, Structural)]
pub enum RtcParticipantState {
    Joining,
    Joined,
    Left,
    Kicked,
    Timeout,
}

/// The number a [`RtcParticipantState`] is stored as.
pub open spec fn participant_state_code(value: RtcParticipantState) -> i32 {
    match value {
        RtcParticipantState::Joining => 1,
        RtcParticipantState::Joined => 2,
        RtcParticipantState::Left => 3,
        RtcParticipantState::Kicked => 4,
        RtcParticipantState::Timeout => 5,
    }
}

/// Stores a [`RtcParticipantState`] as its number.
pub fn participant_state_to_i32(value: &RtcParticipantState) -> (res: i32)
    ensures
        res == participant_state_code(*value),
{
    match value {
        RtcParticipantState::Joining => 1,
        RtcParticipantState::Joined => 2,
        RtcParticipantState::Left => 3,
        RtcParticipantState::Kicked => 4,
        RtcParticipantState::Timeout => 5,
    }
}

/// The [`RtcParticipantState`] stored as `code`, if any.
pub open spec fn participant_state_of_code(code: i32) -> Option<RtcParticipantState> {
    if code == 1 {
        Some(RtcParticipantState::Joining)
    } else if code == 2 {
        Some(RtcParticipantState::Joined)
    } else if code == 3 {
        Some(RtcParticipantState::Left)
    } else if code == 4 {
        Some(RtcParticipantState::Kicked)
    } else if code == 5 {
        Some(RtcParticipantState::Timeout)
    } else {
        None
    }
}

/// Reads a stored [`RtcParticipantState`]; an unknown number is an invalid `state` value.
pub fn i32_to_participant_state(value: i32) -> (res: Result<RtcParticipantState, RtcStorageError>)
    ensures
        match participant_state_of_code(value) {
            Some(v) => res == Ok::<RtcParticipantState, RtcStorageError>(v),
            None => res matches Err(e) && e@ == invalid_value("state"@, int_text(value as int)),
        },
{
    match value {
        1 => Ok(RtcParticipantState::Joining),
        2 => Ok(RtcParticipantState::Joined),
        3 => Ok(RtcParticipantState::Left),
        4 => Ok(RtcParticipantState::Kicked),
        5 => Ok(RtcParticipantState::Timeout),
        _ => Err(invalid_code("state", value)),
    }
}

/// What a media track carries.
#[derive(Clone, Copy, Debug, PartialEq, Eq, Structural)]
pub enum RtcMediaTrackKind {
    Audio,
    Video,
    ScreenShare,
    Data,
}

/// The number a [`RtcMediaTrackKind`] is stored as.
pub open spec fn track_kind_code(value: RtcMediaTrackKind) -> i32 {
    match value {
        RtcMediaTrackKind::Audio => 1,
        RtcMediaTrackKind::Video => 2,
        RtcMediaTrackKind::ScreenShare => 3,
        RtcMediaTrackKind::Data => 4,
    }
}

/// Stores a [`RtcMediaTrackKind`] as its number.
pub fn track_kind_to_i32(value: &RtcMediaTrackKind) -> (res: i32)
    ensures
        res == track_kind_code(*value),
{
    match value {
        RtcMediaTrackKind::Audio => 1,
        RtcMediaTrackKind::Video => 2,
        RtcMediaTrackKind::ScreenShare => 3,
        RtcMediaTrackKind::Data => 4,
    }
}

/// The [`RtcMediaTrackKind`] stored as `code`, if any.
pub open spec fn track_kind_of_code(code: i32) -> Option<RtcMediaTrackKind> {
    if code == 1 {
        Some(RtcMediaTrackKind::Audio)
    } else if code == 2 {
        Some(RtcMediaTrackKind::Video)
    } else if code == 3 {
        Some(RtcMediaTrackKind::ScreenShare)
    } else if code == 4 {
        Some(RtcMediaTrackKind::Data)
    } else {
        None
    }
}

/// Reads a stored [`RtcMediaTrackKind`]; an unknown number is an invalid `track_kind` value.
pub fn i32_to_track_kind(value: i32) -> (res: Result<RtcMediaTrackKind, RtcStorageError>)
    ensures
        match track_kind_of_code(value) {
            Some(v) => res == Ok::<RtcMediaTrackKind, RtcStorageError>(v),
            None => res matches Err(e) && e@ == invalid_value("track_kind"@, int_text(value as int)),
        },
{
    match value {
        1 => Ok(RtcMediaTrackKind::Audio),
        2 => Ok(RtcMediaTrackKind::Video),
        3 => Ok(RtcMediaTrackKind::ScreenShare),
        4 => Ok(RtcMediaTrackKind::Data),
        _ => Err(invalid_code("track_kind", value)),
    }
}

/// Where a media track is captured.
#[derive(Clone, Copy, Debug, PartialEq, Eq, Structural)]
pub enum RtcMediaTrackSource {
    Microphone,
    Camera,
    Screen,
    System,
    Custom,
}

/// The number a [`RtcMediaTrackSource`] is stored as.
pub open spec fn track_source_code(value: RtcMediaTrackSource) -> i32 {
    match value {
        RtcMediaTrackSource::Microphone => 1,
        RtcMediaTrackSource::Camera => 2,
        RtcMediaTrackSource::Screen => 3,
        RtcMediaTrackSource::System => 4,
        RtcMediaTrackSource::Custom => 5,
    }
}

/// Stores a [`RtcMediaTrackSource`] as its number.
pub fn track_source_to_i32(value: &RtcMediaTrackSource) -> (res: i32)
    ensures
        res == track_source_code(*value),
{
    match value {
        RtcMediaTrackSource::Microphone => 1,
        RtcMediaTrackSource::Camera => 2,
        RtcMediaTrackSource::Screen => 3,
        RtcMediaTrackSource::System => 4,
        RtcMediaTrackSource::Custom => 5,
    }
}

/// The [`RtcMediaTrackSource`] stored as `code`, if any.
pub open spec fn track_source_of_code(code: i32) -> Option<RtcMediaTrackSource> {
    if code == 1 {
        Some(RtcMediaTrackSource::Microphone)
    } else if code == 2 {
        Some(RtcMediaTrackSource::Camera)
    } else if code == 3 {
        Some(RtcMediaTrackSource::Screen)
    } else if code == 4 {
        Some(RtcMediaTrackSource::System)
    } else if code == 5 {
        Some(RtcMediaTrackSource::Custom)
    } else {
        None
    }
}

/// Reads a stored [`RtcMediaTrackSource`]; an unknown number is an invalid `track_source` value.
pub fn i32_to_track_source(value: i32) -> (res: Result<RtcMediaTrackSource, RtcStorageError>)
    ensures
        match track_source_of_code(value) {
            Some(v) => res == Ok::<RtcMediaTrackSource, RtcStorageError>(v),
            None => res matches Err(e) && e@ == invalid_value("track_source"@, int_text(value as int)),
        },
{
    match value {
        1 => Ok(RtcMediaTrackSource::Microphone),
        2 => Ok(RtcMediaTrackSource::Camera),
        3 => Ok(RtcMediaTrackSource::Screen),
        4 => Ok(RtcMediaTrackSource::System),
        5 => Ok(RtcMediaTrackSource::Custom),
        _ => Err(invalid_code("track_source", value)),
    }
}

/// The state of a media track.
#[derive(Clone, Copy, Debug, PartialEq, Eq, Structural)]
pub enum RtcMediaTrackStatus {
    Publishing,
    Muted,
    Stopped,
    Failed,
}

/// The number a [`RtcMediaTrackStatus`] is stored as.
pub open spec fn track_status_code(value: RtcMediaTrackStatus) -> i32 {
    match value {
        RtcMediaTrackStatus::Publishing => 1,
        RtcMediaTrackStatus::Muted => 2,
        RtcMediaTrackStatus::Stopped => 3,
        RtcMediaTrackStatus::Failed => 4,
    }
}

/// Stores a [`RtcMediaTrackStatus`] as its number.
pub fn track_status_to_i32(value: &RtcMediaTrackStatus) -> (res: i32)
    ensures
        res == track_status_code(*value),
{
    match value {
        RtcMediaTrackStatus::Publishing => 1,
        RtcMediaTrackStatus::Muted => 2,
        RtcMediaTrackStatus::Stopped => 3,
        RtcMediaTrackStatus::Failed => 4,
    }
}

/// The [`RtcMediaTrackStatus`] stored as `code`, if any.
pub open spec fn track_status_of_code(code: i32) -> Option<RtcMediaTrackStatus> {
    if code == 1 {
        Some(RtcMediaTrackStatus::Publishing)
    } else if code == 2 {
        Some(RtcMediaTrackStatus::Muted)
    } else if code == 3 {
        Some(RtcMediaTrackStatus::Stopped)
    } else if code == 4 {
        Some(RtcMediaTrackStatus::Failed)
    } else {
        None
    }
}

/// Reads a stored [`RtcMediaTrackStatus`]; an unknown number is an invalid `track_status` value.
pub fn i32_to_track_status(value: i32) -> (res: Result<RtcMediaTrackStatus, RtcStorageError>)
    ensures
        match track_status_of_code(value) {
            Some(v) => res == Ok::<RtcMediaTrackStatus, RtcStorageError>(v),
            None => res matches Err(e) && e@ == invalid_value("track_status"@, int_text(value as int)),
        },
{
    match value {
        1 => Ok(RtcMediaTrackStatus::Publishing),
        2 => Ok(RtcMediaTrackStatus::Muted),
        3 => Ok(RtcMediaTrackStatus::Stopped),
        4 => Ok(RtcMediaTrackStatus::Failed),
        _ => Err(invalid_code("track_status", value)),
    }
}

/// What a stored artifact holds.
#[derive(Clone, Copy, Debug, PartialEq, Eq, Structural)]
pub enum RtcRecordingArtifactKind {
    Recording,
    Transcript,
    ScreenShare,
    Snapshot,
    Other,
}

/// The number a [`RtcRecordingArtifactKind`] is stored as.
pub open spec fn recording_artifact_kind_code(value: RtcRecordingArtifactKind) -> i32 {
    match value {
        RtcRecordingArtifactKind::Recording => 1,
        RtcRecordingArtifactKind::Transcript => 2,
        RtcRecordingArtifactKind::ScreenShare => 3,
        RtcRecordingArtifactKind::Snapshot => 4,
        RtcRecordingArtifactKind::Other => 5,
    }
}

/// Stores a [`RtcRecordingArtifactKind`] as its number.
pub fn recording_artifact_kind_to_i32(value: &RtcRecordingArtifactKind) -> (res: i32)
    ensures
        res == recording_artifact_kind_code(*value),
{
    match value {
        RtcRecordingArtifactKind::Recording => 1,
        RtcRecordingArtifactKind::Transcript => 2,
        RtcRecordingArtifactKind::ScreenShare => 3,
        RtcRecordingArtifactKind::Snapshot => 4,
        RtcRecordingArtifactKind::Other => 5,
    }
}

/// The [`RtcRecordingArtifactKind`] stored as `code`, if any.
pub open spec fn recording_artifact_kind_of_code(code: i32) -> Option<RtcRecordingArtifactKind> {
    if code == 1 {
        Some(RtcRecordingArtifactKind::Recording)
    } else if code == 2 {
        Some(RtcRecordingArtifactKind::Transcript)
    } else if code == 3 {
        Some(RtcRecordingArtifactKind::ScreenShare)
    } else if code == 4 {
        Some(RtcRecordingArtifactKind::Snapshot)
    } else if code == 5 {
        Some(RtcRecordingArtifactKind::Other)
    } else {
        None
    }
}

/// Reads a stored [`RtcRecordingArtifactKind`]; an unknown number is an invalid `artifact_kind` value.
pub fn i32_to_recording_artifact_kind(value: i32) -> (res: Result<RtcRecordingArtifactKind, RtcStorageError>)
    ensures
        match recording_artifact_kind_of_code(value) {
            Some(v) => res == Ok::<RtcRecordingArtifactKind, RtcStorageError>(v),
            None => res matches Err(e) && e@ == invalid_value("artifact_kind"@, int_text(value as int)),
        },
{
    match value {
        1 => Ok(RtcRecordingArtifactKind::Recording),
        2 => Ok(RtcRecordingArtifactKind::Transcript),
        3 => Ok(RtcRecordingArtifactKind::ScreenShare),
        4 => Ok(RtcRecordingArtifactKind::Snapshot),
        5 => Ok(RtcRecordingArtifactKind::Other),
        _ => Err(invalid_code("artifact_kind", value)),
    }
}

/// The processing state of a stored artifact.
#[derive(Clone, Copy, Debug, PartialEq, Eq, Structural)]
pub enum RtcRecordingArtifactStatus {
    Pending,
    Processing,
    Ready,
    Failed,
    Deleted,
}

/// The number a [`RtcRecordingArtifactStatus`] is stored as.
pub open spec fn recording_artifact_status_code(value: RtcRecordingArtifactStatus) -> i32 {
    match value {
        RtcRecordingArtifactStatus::Pending => 1,
        RtcRecordingArtifactStatus::Processing => 2,
        RtcRecordingArtifactStatus::Ready => 3,
        RtcRecordingArtifactStatus::Failed => 4,
        RtcRecordingArtifactStatus::Deleted => 5,
    }
}

/// Stores a [`RtcRecordingArtifactStatus`] as its number.
pub fn recording_artifact_status_to_i32(value: &RtcRecordingArtifactStatus) -> (res: i32)
    ensures
        res == recording_artifact_status_code(*value),
{
    match value {
        RtcRecordingArtifactStatus::Pending => 1,
        RtcRecordingArtifactStatus::Processing => 2,
        RtcRecordingArtifactStatus::Ready => 3,
        RtcRecordingArtifactStatus::Failed => 4,
        RtcRecordingArtifactStatus::Deleted => 5,
    }
}

/// The [`RtcRecordingArtifactStatus`] stored as `code`, if any.
pub open spec fn recording_artifact_status_of_code(code: i32) -> Option<RtcRecordingArtifactStatus> {
    if code == 1 {
        Some(RtcRecordingArtifactStatus::Pending)
    } else if code == 2 {
        Some(RtcRecordingArtifactStatus::Processing)
    } else if code == 3 {
        Some(RtcRecordingArtifactStatus::Ready)
    } else if code == 4 {
        Some(RtcRecordingArtifactStatus::Failed)
    } else if code == 5 {
        Some(RtcRecordingArtifactStatus::Deleted)
    } else {
        None
    }
}

/// Reads a stored [`RtcRecordingArtifactStatus`]; an unknown number is an invalid `artifact_status` value.
pub fn i32_to_recording_artifact_status(value: i32) -> (res: Result<RtcRecordingArtifactStatus, RtcStorageError>)
    ensures
        match recording_artifact_status_of_code(value) {
            Some(v) => res == Ok::<RtcRecordingArtifactStatus, RtcStorageError>(v),
            None => res matches Err(e) && e@ == invalid_value("artifact_status"@, int_text(value as int)),
        },
{
    match value {
        1 => Ok(RtcRecordingArtifactStatus::Pending),
        2 => Ok(RtcRecordingArtifactStatus::Processing),
        3 => Ok(RtcRecordingArtifactStatus::Ready),
        4 => Ok(RtcRecordingArtifactStatus::Failed),
        5 => Ok(RtcRecordingArtifactStatus::Deleted),
        _ => Err(invalid_code("artifact_status", value)),
    }
}

/// What ended a media session.
#[derive(Clone, Copy, Debug, PartialEq, Eq, Structural)]
pub enum RtcMediaSessionEndSource {
    ManualClose,
    ProviderWebhook,
    ActiveProviderQuery,
    ProviderStateSync,
    Timeout,
    SystemReconcile,
    Unknown,
}

/// The key an end source is stored as.
pub open spec fn end_source_key(value: RtcMediaSessionEndSource) -> Seq<char> {
    match value {
        RtcMediaSessionEndSource::ManualClose => "manual_close"@,
        RtcMediaSessionEndSource::ProviderWebhook => "provider_webhook"@,
        RtcMediaSessionEndSource::ActiveProviderQuery => "active_provider_query"@,
        RtcMediaSessionEndSource::ProviderStateSync => "provider_state_sync"@,
        RtcMediaSessionEndSource::Timeout => "timeout"@,
        RtcMediaSessionEndSource::SystemReconcile => "system_reconcile"@,
        RtcMediaSessionEndSource::Unknown => "unknown"@,
    }
}

/// Stores an end source as its key.
pub fn end_source_to_str(value: &RtcMediaSessionEndSource) -> (res: &'static str)
    ensures
        res@ == end_source_key(*value),
{
    match value {
        RtcMediaSessionEndSource::ManualClose => "manual_close",
        RtcMediaSessionEndSource::ProviderWebhook => "provider_webhook",
        RtcMediaSessionEndSource::ActiveProviderQuery => "active_provider_query",
        RtcMediaSessionEndSource::ProviderStateSync => "provider_state_sync",
        RtcMediaSessionEndSource::Timeout => "timeout",
        RtcMediaSessionEndSource::SystemReconcile => "system_reconcile",
        RtcMediaSessionEndSource::Unknown => "unknown",
    }
}

/// The end source stored under `key`, if any.
pub open spec fn end_source_of_key(key: Seq<char>) -> Option<RtcMediaSessionEndSource> {
    if key == "manual_close"@ {
        Some(RtcMediaSessionEndSource::ManualClose)
    } else if key == "provider_webhook"@ {
        Some(RtcMediaSessionEndSource::ProviderWebhook)
    } else if key == "active_provider_query"@ {
        Some(RtcMediaSessionEndSource::ActiveProviderQuery)
    } else if key == "provider_state_sync"@ {
        Some(RtcMediaSessionEndSource::ProviderStateSync)
    } else if key == "timeout"@ {
        Some(RtcMediaSessionEndSource::Timeout)
    } else if key == "system_reconcile"@ {
        Some(RtcMediaSessionEndSource::SystemReconcile)
    } else if key == "unknown"@ {
        Some(RtcMediaSessionEndSource::Unknown)
    } else {
        None
    }
}

/// Reads a stored end source; an unknown key is an invalid `end_source` value.
pub fn str_to_end_source(value: &str) -> (res: Result<RtcMediaSessionEndSource, RtcStorageError>)
    ensures
        match end_source_of_key(value@) {
            Some(v) => res == Ok::<RtcMediaSessionEndSource, RtcStorageError>(v),
            None => res matches Err(e) && e@ == invalid_value("end_source"@, value@),
        },
{
    if str_eq(value, "manual_close") {
        Ok(RtcMediaSessionEndSource::ManualClose)
    } else if str_eq(value, "provider_webhook") {
        Ok(RtcMediaSessionEndSource::ProviderWebhook)
    } else if str_eq(value, "active_provider_query") {
        Ok(RtcMediaSessionEndSource::ActiveProviderQuery)
    } else if str_eq(value, "provider_state_sync") {
        Ok(RtcMediaSessionEndSource::ProviderStateSync)
    } else if str_eq(value, "timeout") {
        Ok(RtcMediaSessionEndSource::Timeout)
    } else if str_eq(value, "system_reconcile") {
        Ok(RtcMediaSessionEndSource::SystemReconcile)
    } else if str_eq(value, "unknown") {
        Ok(RtcMediaSessionEndSource::Unknown)
    } else {
        Err(RtcStorageError::InvalidEnumValue { field: "end_source", value: owned(value) })
    }
}

} // verus!
