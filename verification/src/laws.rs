use vstd::prelude::*;
use crate::storage_values::{provider_account_sort_key, provider_application_sort_key, provider_credential_sort_key, provider_profile_sort_key, provider_query_snapshot_sort_key, provider_route_sort_key, webhook_event_sort_key};
use vstd::utf8::is_ascii_chars;
use crate::calendar::{civil_date, lemma_ascii_concat, lemma_prefix_ascii, month_length, rfc3339_millis_text, rfc3339_seconds_prefix};
use crate::timestamp_order::{lemma_rfc3339_fields, lemma_rfc3339_fields_increasing, lemma_stamp_before, lemma_stamp_layout, rfc3339_fields, text_before};
use crate::domain::{RtcMediaSessionMode, RtcProviderEventKind, RtcProviderQueryKind};
use crate::media_session::{RtcMediaSessionEndSource, RtcMediaSessionStatus, RtcMediaTrackKind, RtcMediaTrackSource, RtcMediaTrackStatus, RtcParticipantRole, RtcParticipantState, RtcRecordingArtifactKind, RtcRecordingArtifactStatus, end_source_key, end_source_of_key, media_mode_code, media_mode_of_code, media_session_status_code, media_session_status_of_code, participant_role_code, participant_role_of_code, participant_state_code, participant_state_of_code, recording_artifact_kind_code, recording_artifact_kind_of_code, recording_artifact_status_code, recording_artifact_status_of_code, track_kind_code, track_kind_of_code, track_source_code, track_source_of_code, track_status_code, track_status_of_code};
use crate::provider_account::{RtcProviderAccountStatus, RtcProviderApplicationStatus, RtcProviderCredentialRole, RtcProviderCredentialStatus, provider_account_status_code, provider_account_status_of_code, provider_application_status_code, provider_application_status_of_code, provider_credential_role_code, provider_credential_role_of_code, provider_credential_status_code, provider_credential_status_of_code};
use crate::error::StorageFault;
use crate::fields::{json_get, member_value, provider_session_id_text};
use crate::json::JsonView;
use crate::config::VolcengineRtcProviderConfig;
use crate::domain::opt_view;
use crate::domain::RtcProviderQueryRequest;
use crate::open_api::{authorization_text, request_scope, request_signature, request_snapshot_json, signed_request_view, OpenApiResponseView};
use crate::provider_event::job_id_text;
use crate::media::{drive_backed_fields, drive_metadata, drive_snapshot_check, RtcMediaArtifact, RtcRecordingArtifact};
use crate::ids::{denormalized_region, normalized_region, trim_end, trim_start, trimmed};
use crate::provider_core::scoped_session_id;
use crate::storage_values::{account_status_filter, claim_against_store, claim_match, claim_outcome, payload_mismatch, RtcMediaSessionIdempotencyClaim, RtcMediaSessionIdempotencyRecord};
use crate::text::is_whitespace_char;
use crate::event_codec::{event_kind_key, event_kind_of_key, query_kind_key, query_kind_of_key, provider_query_status_code, provider_query_status_name, webhook_status_code, webhook_status_name};

verus! {

/// Storing a media mode as its number and reading the number back gives the same media mode.
pub proof fn law_media_mode_round_trip(value: RtcMediaSessionMode)
    ensures
        media_mode_of_code(media_mode_code(value)) == Some(value),
{
}

/// A number reads back as a media mode only when that media mode is stored as this number.
pub proof fn law_media_mode_codes_are_canonical(code: i32)
    ensures
        media_mode_of_code(code) matches Some(value) ==> media_mode_code(value) == code,
{
}

/// Storing a media session status as its number and reading the number back gives the same media session status.
pub proof fn law_media_session_status_round_trip(value: RtcMediaSessionStatus)
    ensures
        media_session_status_of_code(media_session_status_code(value)) == Some(value),
{
}

/// A number reads back as a media session status only when that media session status is stored as this number.
pub proof fn law_media_session_status_codes_are_canonical(code: i32)
    ensures
        media_session_status_of_code(code) matches Some(value) ==> media_session_status_code(value) == code,
{
}

/// Storing a participant role as its number and reading the number back gives the same participant role.
pub proof fn law_participant_role_round_trip(value: RtcParticipantRole)
    ensures
        participant_role_of_code(participant_role_code(value)) == Some(value),
{
}

/// A number reads back as a participant role only when that participant role is stored as this number.
pub proof fn law_participant_role_codes_are_canonical(code: i32)
    ensures
        participant_role_of_code(code) matches Some(value) ==> participant_role_code(value) == code,
{
}

/// Storing a participant state as its number and reading the number back gives the same participant state.
pub proof fn law_participant_state_round_trip(value: RtcParticipantState)
    ensures
        participant_state_of_code(participant_state_code(value)) == Some(value),
{
}

/// A number reads back as a participant state only when that participant state is stored as this number.
pub proof fn law_participant_state_codes_are_canonical(code: i32)
    ensures
        participant_state_of_code(code) matches Some(value) ==> participant_state_code(value) == code,
{
}

/// Storing a track kind as its number and reading the number back gives the same track kind.
pub proof fn law_track_kind_round_trip(value: RtcMediaTrackKind)
    ensures
        track_kind_of_code(track_kind_code(value)) == Some(value),
{
}

/// A number reads back as a track kind only when that track kind is stored as this number.
pub proof fn law_track_kind_codes_are_canonical(code: i32)
    ensures
        track_kind_of_code(code) matches Some(value) ==> track_kind_code(value) == code,
{
}

/// Storing a track source as its number and reading the number back gives the same track source.
pub proof fn law_track_source_round_trip(value: RtcMediaTrackSource)
    ensures
        track_source_of_code(track_source_code(value)) == Some(value),
{
}

/// A number reads back as a track source only when that track source is stored as this number.
pub proof fn law_track_source_codes_are_canonical(code: i32)
    ensures
        track_source_of_code(code) matches Some(value) ==> track_source_code(value) == code,
{
}

/// Storing a track status as its number and reading the number back gives the same track status.
pub proof fn law_track_status_round_trip(value: RtcMediaTrackStatus)
    ensures
        track_status_of_code(track_status_code(value)) == Some(value),
{
}

/// A number reads back as a track status only when that track status is stored as this number.
pub proof fn law_track_status_codes_are_canonical(code: i32)
    ensures
        track_status_of_code(code) matches Some(value) ==> track_status_code(value) == code,
{
}

/// Storing an artifact kind as its number and reading the number back gives the same artifact kind.
pub proof fn law_recording_artifact_kind_round_trip(value: RtcRecordingArtifactKind)
    ensures
        recording_artifact_kind_of_code(recording_artifact_kind_code(value)) == Some(value),
{
}

/// A number reads back as an artifact kind only when that artifact kind is stored as this number.
pub proof fn law_recording_artifact_kind_codes_are_canonical(code: i32)
    ensures
        recording_artifact_kind_of_code(code) matches Some(value) ==> recording_artifact_kind_code(value) == code,
{
}

/// Storing an artifact status as its number and reading the number back gives the same artifact status.
pub proof fn law_recording_artifact_status_round_trip(value: RtcRecordingArtifactStatus)
    ensures
        recording_artifact_status_of_code(recording_artifact_status_code(value)) == Some(value),
{
}

/// A number reads back as an artifact status only when that artifact status is stored as this number.
pub proof fn law_recording_artifact_status_codes_are_canonical(code: i32)
    ensures
        recording_artifact_status_of_code(code) matches Some(value) ==> recording_artifact_status_code(value) == code,
{
}

/// Storing a provider account status as its number and reading the number back gives the same provider account status.
pub proof fn law_provider_account_status_round_trip(value: RtcProviderAccountStatus)
    ensures
        provider_account_status_of_code(provider_account_status_code(value)) == Some(value),
{
}

/// A number reads back as a provider account status only when that provider account status is stored as this number.
pub proof fn law_provider_account_status_codes_are_canonical(code: i32)
    ensures
        provider_account_status_of_code(code) matches Some(value) ==> provider_account_status_code(value) == code,
{
}

/// Storing a provider application status as its number and reading the number back gives the same provider application status.
pub proof fn law_provider_application_status_round_trip(value: RtcProviderApplicationStatus)
    ensures
        provider_application_status_of_code(provider_application_status_code(value)) == Some(value),
{
}

/// A number reads back as a provider application status only when that provider application status is stored as this number.
pub proof fn law_provider_application_status_codes_are_canonical(code: i32)
    ensures
        provider_application_status_of_code(code) matches Some(value) ==> provider_application_status_code(value) == code,
{
}

/// Storing a provider credential role as its number and reading the number back gives the same provider credential role.
pub proof fn law_provider_credential_role_round_trip(value: RtcProviderCredentialRole)
    ensures
        provider_credential_role_of_code(provider_credential_role_code(value)) == Some(value),
{
}

/// A number reads back as a provider credential role only when that provider credential role is stored as this number.
pub proof fn law_provider_credential_role_codes_are_canonical(code: i32)
    ensures
        provider_credential_role_of_code(code) matches Some(value) ==> provider_credential_role_code(value) == code,
{
}

/// Storing a provider credential status as its number and reading the number back gives the same provider credential status.
pub proof fn law_provider_credential_status_round_trip(value: RtcProviderCredentialStatus)
    ensures
        provider_credential_status_of_code(provider_credential_status_code(value)) == Some(value),
{
}

/// A number reads back as a provider credential status only when that provider credential status is stored as this number.
pub proof fn law_provider_credential_status_codes_are_canonical(code: i32)
    ensures
        provider_credential_status_of_code(code) matches Some(value) ==> provider_credential_status_code(value) == code,
{
}

/// Two texts differ when their lengths differ or they differ at some index.
proof fn lemma_texts_differ(a: Seq<char>, b: Seq<char>, i: int)
    requires
        a.len() != b.len() || (0 <= i < a.len() && i < b.len() && a[i] != b[i]),
    ensures
        a != b,
{
}

/// Storing an event kind as its key and reading the key back gives the same kind.
pub proof fn law_event_kind_round_trip(kind: RtcProviderEventKind)
    ensures
        event_kind_of_key(event_kind_key(kind)) == Some(kind),
{
    match kind {
        RtcProviderEventKind::RoomStarted => {
            reveal_strlit("room_started");
        },
        RtcProviderEventKind::RoomEnded => {
            reveal_strlit("room_ended");
            reveal_strlit("room_started");
            lemma_texts_differ("room_ended"@, "room_started"@, 0);
        },
        RtcProviderEventKind::ParticipantJoined => {
            reveal_strlit("participant_joined");
            reveal_strlit("room_started");
            lemma_texts_differ("participant_joined"@, "room_started"@, 0);
            reveal_strlit("room_ended");
            lemma_texts_differ("participant_joined"@, "room_ended"@, 0);
        },
        RtcProviderEventKind::ParticipantLeft => {
            reveal_strlit("participant_left");
            reveal_strlit("room_started");
            lemma_texts_differ("participant_left"@, "room_started"@, 0);
            reveal_strlit("room_ended");
            lemma_texts_differ("participant_left"@, "room_ended"@, 0);
            reveal_strlit("participant_joined");
            lemma_texts_differ("participant_left"@, "participant_joined"@, 0);
        },
        RtcProviderEventKind::RecordingStarted => {
            reveal_strlit("recording_started");
            reveal_strlit("room_started");
            lemma_texts_differ("recording_started"@, "room_started"@, 0);
            reveal_strlit("room_ended");
            lemma_texts_differ("recording_started"@, "room_ended"@, 0);
            reveal_strlit("participant_joined");
            lemma_texts_differ("recording_started"@, "participant_joined"@, 0);
            reveal_strlit("participant_left");
            lemma_texts_differ("recording_started"@, "participant_left"@, 0);
        },
        RtcProviderEventKind::RecordingCompleted => {
            reveal_strlit("recording_completed");
            reveal_strlit("room_started");
            lemma_texts_differ("recording_completed"@, "room_started"@, 0);
            reveal_strlit("room_ended");
            lemma_texts_differ("recording_completed"@, "room_ended"@, 0);
            reveal_strlit("participant_joined");
            lemma_texts_differ("recording_completed"@, "participant_joined"@, 0);
            reveal_strlit("participant_left");
            lemma_texts_differ("recording_completed"@, "participant_left"@, 0);
            reveal_strlit("recording_started");
            lemma_texts_differ("recording_completed"@, "recording_started"@, 0);
        },
        RtcProviderEventKind::RecordingFailed => {
            reveal_strlit("recording_failed");
            reveal_strlit("room_started");
            lemma_texts_differ("recording_failed"@, "room_started"@, 0);
            reveal_strlit("room_ended");
            lemma_texts_differ("recording_failed"@, "room_ended"@, 0);
            reveal_strlit("participant_joined");
            lemma_texts_differ("recording_failed"@, "participant_joined"@, 0);
            reveal_strlit("participant_left");
            assert("recording_failed"@[0] == 'r' && "participant_left"@[0] == 'p');
        lemma_texts_differ("recording_failed"@, "participant_left"@, 0);
            reveal_strlit("recording_started");
            lemma_texts_differ("recording_failed"@, "recording_started"@, 0);
            reveal_strlit("recording_completed");
            lemma_texts_differ("recording_failed"@, "recording_completed"@, 0);
        },
        RtcProviderEventKind::MediaTrackStarted => {
            reveal_strlit("media_track_started");
            reveal_strlit("room_started");
            lemma_texts_differ("media_track_started"@, "room_started"@, 0);
            reveal_strlit("room_ended");
            lemma_texts_differ("media_track_started"@, "room_ended"@, 0);
            reveal_strlit("participant_joined");
            lemma_texts_differ("media_track_started"@, "participant_joined"@, 0);
            reveal_strlit("participant_left");
            lemma_texts_differ("media_track_started"@, "participant_left"@, 0);
            reveal_strlit("recording_started");
            lemma_texts_differ("media_track_started"@, "recording_started"@, 0);
            reveal_strlit("recording_completed");
            assert("media_track_started"@[0] == 'm' && "recording_completed"@[0] == 'r');
        lemma_texts_differ("media_track_started"@, "recording_completed"@, 0);
            reveal_strlit("recording_failed");
            lemma_texts_differ("media_track_started"@, "recording_failed"@, 0);
        },
        RtcProviderEventKind::MediaTrackStopped => {
            reveal_strlit("media_track_stopped");
            reveal_strlit("room_started");
            lemma_texts_differ("media_track_stopped"@, "room_started"@, 0);
            reveal_strlit("room_ended");
            lemma_texts_differ("media_track_stopped"@, "room_ended"@, 0);
            reveal_strlit("participant_joined");
            lemma_texts_differ("media_track_stopped"@, "participant_joined"@, 0);
            reveal_strlit("participant_left");
            lemma_texts_differ("media_track_stopped"@, "participant_left"@, 0);
            reveal_strlit("recording_started");
            lemma_texts_differ("media_track_stopped"@, "recording_started"@, 0);
            reveal_strlit("recording_completed");
            assert("media_track_stopped"@[0] == 'm' && "recording_completed"@[0] == 'r');
        lemma_texts_differ("media_track_stopped"@, "recording_completed"@, 0);
            reveal_strlit("recording_failed");
            lemma_texts_differ("media_track_stopped"@, "recording_failed"@, 0);
            reveal_strlit("media_track_started");
            assert("media_track_stopped"@[14] == 'o' && "media_track_started"@[14] == 'a');
        lemma_texts_differ("media_track_stopped"@, "media_track_started"@, 14);
        },
        RtcProviderEventKind::QualitySample => {
            reveal_strlit("quality_sample");
            reveal_strlit("room_started");
            lemma_texts_differ("quality_sample"@, "room_started"@, 0);
            reveal_strlit("room_ended");
            lemma_texts_differ("quality_sample"@, "room_ended"@, 0);
            reveal_strlit("participant_joined");
            lemma_texts_differ("quality_sample"@, "participant_joined"@, 0);
            reveal_strlit("participant_left");
            lemma_texts_differ("quality_sample"@, "participant_left"@, 0);
            reveal_strlit("recording_started");
            lemma_texts_differ("quality_sample"@, "recording_started"@, 0);
            reveal_strlit("recording_completed");
            lemma_texts_differ("quality_sample"@, "recording_completed"@, 0);
            reveal_strlit("recording_failed");
            lemma_texts_differ("quality_sample"@, "recording_failed"@, 0);
            reveal_strlit("media_track_started");
            lemma_texts_differ("quality_sample"@, "media_track_started"@, 0);
            reveal_strlit("media_track_stopped");
            lemma_texts_differ("quality_sample"@, "media_track_stopped"@, 0);
        },
        RtcProviderEventKind::Unknown => {
            reveal_strlit("unknown");
            reveal_strlit("room_started");
            lemma_texts_differ("unknown"@, "room_started"@, 0);
            reveal_strlit("room_ended");
            lemma_texts_differ("unknown"@, "room_ended"@, 0);
            reveal_strlit("participant_joined");
            lemma_texts_differ("unknown"@, "participant_joined"@, 0);
            reveal_strlit("participant_left");
            lemma_texts_differ("unknown"@, "participant_left"@, 0);
            reveal_strlit("recording_started");
            lemma_texts_differ("unknown"@, "recording_started"@, 0);
            reveal_strlit("recording_completed");
            lemma_texts_differ("unknown"@, "recording_completed"@, 0);
            reveal_strlit("recording_failed");
            lemma_texts_differ("unknown"@, "recording_failed"@, 0);
            reveal_strlit("media_track_started");
            lemma_texts_differ("unknown"@, "media_track_started"@, 0);
            reveal_strlit("media_track_stopped");
            lemma_texts_differ("unknown"@, "media_track_stopped"@, 0);
            reveal_strlit("quality_sample");
            lemma_texts_differ("unknown"@, "quality_sample"@, 0);
        },
    }
}

/// A key reads back as an event kind only when that kind is stored under this key.
pub proof fn law_event_kind_keys_are_canonical(key: Seq<char>)
    ensures
        event_kind_of_key(key) matches Some(kind) ==> event_kind_key(kind) == key,
{
}

/// Storing a query kind as its key and reading the key back gives the same kind.
pub proof fn law_query_kind_round_trip(kind: RtcProviderQueryKind)
    ensures
        query_kind_of_key(query_kind_key(kind)) == Some(kind),
{
    match kind {
        RtcProviderQueryKind::RoomOnlineUsers => {
            reveal_strlit("room_online_users");
        },
        RtcProviderQueryKind::RoomState => {
            reveal_strlit("room_state");
            reveal_strlit("room_online_users");
            lemma_texts_differ("room_state"@, "room_online_users"@, 0);
        },
        RtcProviderQueryKind::MediaSessionState => {
            reveal_strlit("media_session_state");
            reveal_strlit("room_online_users");
            lemma_texts_differ("media_session_state"@, "room_online_users"@, 0);
            reveal_strlit("room_state");
            lemma_texts_differ("media_session_state"@, "room_state"@, 0);
        },
        RtcProviderQueryKind::RecordingArtifacts => {
            reveal_strlit("recording_artifacts");
            reveal_strlit("room_online_users");
            lemma_texts_differ("recording_artifacts"@, "room_online_users"@, 0);
            reveal_strlit("room_state");
            lemma_texts_differ("recording_artifacts"@, "room_state"@, 0);
            reveal_strlit("media_session_state");
            assert("recording_artifacts"@[0] == 'r' && "media_session_state"@[0] == 'm');
        lemma_texts_differ("recording_artifacts"@, "media_session_state"@, 0);
        },
        RtcProviderQueryKind::QualitySamples => {
            reveal_strlit("quality_samples");
            reveal_strlit("room_online_users");
            lemma_texts_differ("quality_samples"@, "room_online_users"@, 0);
            reveal_strlit("room_state");
            lemma_texts_differ("quality_samples"@, "room_state"@, 0);
            reveal_strlit("media_session_state");
            lemma_texts_differ("quality_samples"@, "media_session_state"@, 0);
            reveal_strlit("recording_artifacts");
            lemma_texts_differ("quality_samples"@, "recording_artifacts"@, 0);
        },
    }
}

/// A key reads back as a query kind only when that kind is stored under this key.
pub proof fn law_query_kind_keys_are_canonical(key: Seq<char>)
    ensures
        query_kind_of_key(key) matches Some(kind) ==> query_kind_key(kind) == key,
{
}

/// Storing an end source as its key and reading the key back gives the same end source.
pub proof fn law_end_source_round_trip(source: RtcMediaSessionEndSource)
    ensures
        end_source_of_key(end_source_key(source)) == Some(source),
{
    match source {
        RtcMediaSessionEndSource::ManualClose => {
            reveal_strlit("manual_close");
        },
        RtcMediaSessionEndSource::ProviderWebhook => {
            reveal_strlit("provider_webhook");
            reveal_strlit("manual_close");
            lemma_texts_differ("provider_webhook"@, "manual_close"@, 0);
        },
        RtcMediaSessionEndSource::ActiveProviderQuery => {
            reveal_strlit("active_provider_query");
            reveal_strlit("manual_close");
            lemma_texts_differ("active_provider_query"@, "manual_close"@, 0);
            reveal_strlit("provider_webhook");
            lemma_texts_differ("active_provider_query"@, "provider_webhook"@, 0);
        },
        RtcMediaSessionEndSource::ProviderStateSync => {
            reveal_strlit("provider_state_sync");
            reveal_strlit("manual_close");
            lemma_texts_differ("provider_state_sync"@, "manual_close"@, 0);
            reveal_strlit("provider_webhook");
            lemma_texts_differ("provider_state_sync"@, "provider_webhook"@, 0);
            reveal_strlit("active_provider_query");
            lemma_texts_differ("provider_state_sync"@, "active_provider_query"@, 0);
        },
        RtcMediaSessionEndSource::Timeout => {
            reveal_strlit("timeout");
            reveal_strlit("manual_close");
            lemma_texts_differ("timeout"@, "manual_close"@, 0);
            reveal_strlit("provider_webhook");
            lemma_texts_differ("timeout"@, "provider_webhook"@, 0);
            reveal_strlit("active_provider_query");
            lemma_texts_differ("timeout"@, "active_provider_query"@, 0);
            reveal_strlit("provider_state_sync");
            lemma_texts_differ("timeout"@, "provider_state_sync"@, 0);
        },
        RtcMediaSessionEndSource::SystemReconcile => {
            reveal_strlit("system_reconcile");
            reveal_strlit("manual_close");
            lemma_texts_differ("system_reconcile"@, "manual_close"@, 0);
            reveal_strlit("provider_webhook");
            assert("system_reconcile"@[0] == 's' && "provider_webhook"@[0] == 'p');
        lemma_texts_differ("system_reconcile"@, "provider_webhook"@, 0);
            reveal_strlit("active_provider_query");
            lemma_texts_differ("system_reconcile"@, "active_provider_query"@, 0);
            reveal_strlit("provider_state_sync");
            lemma_texts_differ("system_reconcile"@, "provider_state_sync"@, 0);
            reveal_strlit("timeout");
            lemma_texts_differ("system_reconcile"@, "timeout"@, 0);
        },
        RtcMediaSessionEndSource::Unknown => {
            reveal_strlit("unknown");
            reveal_strlit("manual_close");
            lemma_texts_differ("unknown"@, "manual_close"@, 0);
            reveal_strlit("provider_webhook");
            lemma_texts_differ("unknown"@, "provider_webhook"@, 0);
            reveal_strlit("active_provider_query");
            lemma_texts_differ("unknown"@, "active_provider_query"@, 0);
            reveal_strlit("provider_state_sync");
            lemma_texts_differ("unknown"@, "provider_state_sync"@, 0);
            reveal_strlit("timeout");
            assert("unknown"@[0] == 'u' && "timeout"@[0] == 't');
        lemma_texts_differ("unknown"@, "timeout"@, 0);
            reveal_strlit("system_reconcile");
            lemma_texts_differ("unknown"@, "system_reconcile"@, 0);
        },
    }
}

/// A key reads back as an end source only when that source is stored under this key.
pub proof fn law_end_source_keys_are_canonical(key: Seq<char>)
    ensures
        end_source_of_key(key) matches Some(source) ==> end_source_key(source) == key,
{
}

/// A known provider query status survives being stored as its code and read back.
pub proof fn law_provider_query_status_round_trip(status: Seq<char>)
    ensures
        provider_query_status_code(status) matches Some(code) ==> provider_query_status_name(code) == status,
{
}

/// A known webhook status survives being stored as its code and read back.
pub proof fn law_webhook_status_round_trip(status: Seq<char>)
    ensures
        webhook_status_code(status) matches Some(code) ==> webhook_status_name(code) == status,
{
}

proof fn lemma_trim_start_front(s: Seq<char>)
    ensures
        trim_start(s).len() == 0 || !is_whitespace_char(trim_start(s)[0]),
    decreases s.len(),
{
    if s.len() > 0 && is_whitespace_char(s[0]) {
        lemma_trim_start_front(s.drop_first());
    }
}

proof fn lemma_trim_end_back(s: Seq<char>)
    ensures
        trim_end(s).len() == 0 || !is_whitespace_char(trim_end(s).last()),
    decreases s.len(),
{
    if s.len() > 0 && is_whitespace_char(s.last()) {
        lemma_trim_end_back(s.drop_last());
    }
}

proof fn lemma_trim_end_prefix(s: Seq<char>)
    ensures
        trim_end(s).len() <= s.len(),
        trim_end(s) == s.take(trim_end(s).len() as int),
    decreases s.len(),
{
    if s.len() > 0 && is_whitespace_char(s.last()) {
        lemma_trim_end_prefix(s.drop_last());
        assert(s.drop_last().take(trim_end(s).len() as int) =~= s.take(trim_end(s).len() as int));
    } else {
        assert(s.take(s.len() as int) =~= s);
    }
}

/// Trimming trimmed text changes nothing.
pub proof fn law_trim_is_idempotent(s: Seq<char>)
    ensures
        trimmed(trimmed(s)) == trimmed(s),
{
    let u = trim_start(s);
    let t = trim_end(u);
    lemma_trim_start_front(s);
    lemma_trim_end_back(u);
    lemma_trim_end_prefix(u);
    if t.len() > 0 {
        assert(t[0] == u[0]);
        assert(trim_start(t) == t);
    } else {
        assert(trim_start(t) == t);
    }
    assert(trim_end(t) == t);
}

/// A region stored for a route reads back as its trimmed text, or as none when that is
/// empty.
pub proof fn law_region_read_back(region: Seq<char>)
    ensures
        denormalized_region(normalized_region(Some(region))) == if trimmed(region).len() == 0 {
            None
        } else {
            Some(trimmed(region))
        },
{
    law_trim_is_idempotent(region);
}

/// A region read back from storage is stored again unchanged.
pub proof fn law_region_store_after_read(stored: Seq<char>)
    ensures
        denormalized_region(stored) matches Some(r) ==> normalized_region(Some(r)) == r,
{
    law_trim_is_idempotent(stored);
}

/// Each provider account status name is accepted as a list filter, also with surrounding
/// whitespace, and selects that status.
pub proof fn law_account_status_filter_names(pad_front: Seq<char>, pad_back: Seq<char>)
    requires
        forall|i: int| 0 <= i < pad_front.len() ==> is_whitespace_char(#[trigger] pad_front[i]),
        forall|i: int| 0 <= i < pad_back.len() ==> is_whitespace_char(#[trigger] pad_back[i]),
    ensures
        account_status_filter(Some(pad_front + "active"@ + pad_back)) == Ok::<Option<RtcProviderAccountStatus>, Seq<char>>(Some(RtcProviderAccountStatus::Active)),
        account_status_filter(Some(pad_front + "disabled"@ + pad_back)) == Ok::<Option<RtcProviderAccountStatus>, Seq<char>>(Some(RtcProviderAccountStatus::Disabled)),
        account_status_filter(Some(pad_front + "archived"@ + pad_back)) == Ok::<Option<RtcProviderAccountStatus>, Seq<char>>(Some(RtcProviderAccountStatus::Archived)),
{
    reveal_strlit("active");
    reveal_strlit("disabled");
    reveal_strlit("archived");
    lemma_trim_padded(pad_front, "active"@, pad_back);
    lemma_trim_padded(pad_front, "disabled"@, pad_back);
    lemma_trim_padded(pad_front, "archived"@, pad_back);
    lemma_texts_differ("disabled"@, "active"@, 0);
    lemma_texts_differ("archived"@, "active"@, 0);
    assert("archived"@[0] == 'a' && "disabled"@[0] == 'd');
        lemma_texts_differ("archived"@, "disabled"@, 0);
}

proof fn lemma_trim_start_pad(pad: Seq<char>, rest: Seq<char>)
    requires
        forall|i: int| 0 <= i < pad.len() ==> is_whitespace_char(#[trigger] pad[i]),
        rest.len() == 0 || !is_whitespace_char(rest[0]),
    ensures
        trim_start(pad + rest) == rest,
    decreases pad.len(),
{
    if pad.len() == 0 {
        assert(pad + rest =~= rest);
        if rest.len() > 0 {
        }
    } else {
        assert((pad + rest)[0] == pad[0]);
        assert((pad + rest).drop_first() =~= pad.drop_first() + rest);
        lemma_trim_start_pad(pad.drop_first(), rest);
    }
}

proof fn lemma_trim_end_pad(rest: Seq<char>, pad: Seq<char>)
    requires
        forall|i: int| 0 <= i < pad.len() ==> is_whitespace_char(#[trigger] pad[i]),
        rest.len() == 0 || !is_whitespace_char(rest.last()),
    ensures
        trim_end(rest + pad) == rest,
    decreases pad.len(),
{
    if pad.len() == 0 {
        assert(rest + pad =~= rest);
    } else {
        assert((rest + pad).last() == pad.last());
        assert((rest + pad).drop_last() =~= rest + pad.drop_last());
        lemma_trim_end_pad(rest, pad.drop_last());
    }
}

proof fn lemma_trim_padded(front: Seq<char>, word: Seq<char>, back: Seq<char>)
    requires
        forall|i: int| 0 <= i < front.len() ==> is_whitespace_char(#[trigger] front[i]),
        forall|i: int| 0 <= i < back.len() ==> is_whitespace_char(#[trigger] back[i]),
        word.len() > 0,
        !is_whitespace_char(word[0]),
        !is_whitespace_char(word.last()),
    ensures
        trimmed(front + word + back) == word,
{
    assert(front + word + back =~= front + (word + back));
    assert((word + back)[0] == word[0]);
    lemma_trim_start_pad(front, word + back);
    lemma_trim_end_pad(word, back);
}

/// Claiming an idempotency key again with the very same claim always matches.
pub proof fn law_idempotency_reclaim_matches(record: RtcMediaSessionIdempotencyRecord)
    ensures
        claim_match(record, record) == Ok::<(), crate::error::StorageFault>(()),
{
}

/// A retried create whose key is already held by a record for the same session and an
/// agreeing payload is answered with that stored record, never with a fresh claim or a conflict.
pub proof fn law_idempotency_retry_returns_stored_record(
    record: RtcMediaSessionIdempotencyRecord,
    stored: RtcMediaSessionIdempotencyRecord,
)
    requires
        stored.media_session_id@ == record.media_session_id@,
        !payload_mismatch(stored.payload_hash@, record.payload_hash@),
    ensures
        claim_outcome(record, 0, Some(stored)) == Ok::<RtcMediaSessionIdempotencyClaim, StorageFault>(
            RtcMediaSessionIdempotencyClaim::Existing(stored),
        ),
{
}

/// A claim whose payload disagrees with the stored one for its key is refused as a conflict
/// that names the key, whatever session either names.
pub proof fn law_idempotency_payload_conflict_is_refused(
    record: RtcMediaSessionIdempotencyRecord,
    stored: RtcMediaSessionIdempotencyRecord,
)
    requires
        payload_mismatch(stored.payload_hash@, record.payload_hash@),
    ensures
        claim_outcome(record, 0, Some(stored)) == Err::<RtcMediaSessionIdempotencyClaim, StorageFault>(
            StorageFault::Conflict(
                "RTC media session idempotency key reused with different payload: "@ + record.idempotency_key@,
            ),
        ),
{
}

/// Whether two payload hashes disagree does not depend on which one is stored.
pub proof fn law_payload_mismatch_is_symmetric(a: Seq<char>, b: Seq<char>)
    ensures
        payload_mismatch(a, b) == payload_mismatch(b, a),
{
}

/// The provider session id a webhook derives from an RTC session id without a colon is the
/// one the provider's session handle reports for that session.
pub proof fn law_webhook_session_id_matches_session_handle(provider: Seq<char>, rtc_session_id: Seq<char>)
    requires
        !rtc_session_id.contains(':'),
    ensures
        provider_session_id_text(provider, rtc_session_id) == scoped_session_id(provider, rtc_session_id),
{
    reveal_strlit(":");
    assert(provider + seq![':'] + rtc_session_id =~= provider + ":"@ + rtc_session_id);
}

/// A recording exported as a Drive node passes the Drive snapshot check that stored
/// artifacts must pass.
pub proof fn law_drive_backed_recording_passes_snapshot_check(
    recording: RtcRecordingArtifact,
    id: String,
    tenant_id: Seq<char>,
    rtc_session_id: Seq<char>,
    space_id: Seq<char>,
    node_id: Seq<char>,
    node_version: Option<Seq<char>>,
)
    requires
        drive_backed_fields(recording, tenant_id, rtc_session_id, space_id, node_id, node_version),
    ensures
        drive_snapshot_check(
            RtcMediaArtifact {
                id,
                drive: recording.drive,
                resource: recording.resource,
                media_role: recording.media_role,
            },
        ) == Ok::<(), StorageFault>(()),
{
    reveal_strlit("drive");
    reveal_strlit("spaceId");
    reveal_strlit("spaceType");
    reveal_strlit("nodeId");
    reveal_strlit("nodeVersion");
    reveal_strlit("rtc");
    lemma_texts_differ("spaceType"@, "spaceId"@, 0);
    lemma_texts_differ("nodeId"@, "spaceId"@, 0);
    lemma_texts_differ("nodeId"@, "spaceType"@, 0);
    lemma_texts_differ("nodeVersion"@, "spaceId"@, 0);
    lemma_texts_differ("nodeVersion"@, "spaceType"@, 0);
    lemma_texts_differ("nodeVersion"@, "nodeId"@, 0);
    let base = seq![
        ("spaceId"@, JsonView::Str(space_id)),
        ("spaceType"@, JsonView::Str("rtc"@)),
        ("nodeId"@, JsonView::Str(node_id)),
    ];
    let members = match node_version {
        Some(v) => base.push(("nodeVersion"@, JsonView::Str(v))),
        None => base,
    };
    let m = recording.resource.metadata->0;
    assert(m@ == drive_metadata(space_id, node_id, node_version));
    assert(json_get(m@, "drive"@) == Some(JsonView::Object(members)));
    let dm = JsonView::Object(members);
    assert(members.drop_first()[0] == ("spaceType"@, JsonView::Str("rtc"@)));
    assert(members.drop_first().drop_first()[0] == ("nodeId"@, JsonView::Str(node_id)));
    assert(json_get(dm, "spaceId"@) == Some(JsonView::Str(space_id)));
    assert(members[0].0 == "spaceId"@);
    assert(member_value(members, "spaceType"@) == member_value(members.drop_first(), "spaceType"@));
    assert(member_value(members.drop_first(), "spaceType"@) == Some(JsonView::Str("rtc"@)));
    assert(json_get(dm, "spaceType"@) == Some(JsonView::Str("rtc"@)));
    assert(member_value(members, "nodeId"@) == member_value(members.drop_first(), "nodeId"@));
    assert(members.drop_first()[0].0 == "spaceType"@);
    assert(member_value(members.drop_first(), "nodeId"@) == member_value(members.drop_first().drop_first(), "nodeId"@));
    assert(member_value(members.drop_first().drop_first(), "nodeId"@) == Some(JsonView::Str(node_id)));
    assert(json_get(dm, "nodeId"@) == Some(JsonView::Str(node_id)));
    if node_version is Some {
        let rest = members.drop_first().drop_first().drop_first();
        assert(rest[0] == ("nodeVersion"@, JsonView::Str(node_version->0)));
        assert(member_value(rest, "nodeVersion"@) == Some(JsonView::Str(node_version->0)));
        assert(member_value(members, "nodeVersion"@) == member_value(members.drop_first(), "nodeVersion"@));
        assert(member_value(members.drop_first(), "nodeVersion"@) == member_value(members.drop_first().drop_first(), "nodeVersion"@));
        assert(members.drop_first().drop_first()[0].0 == "nodeId"@);
        assert(member_value(members.drop_first().drop_first(), "nodeVersion"@) == member_value(rest, "nodeVersion"@));
        assert(json_get(dm, "nodeVersion"@) == Some(JsonView::Str(node_version->0)));
    }
}

/// Query jobs of different kinds for the same provider and target are kept apart: their
/// job ids differ.
pub proof fn law_query_job_ids_separate_query_kinds(
    provider: Seq<char>,
    first: RtcProviderQueryKind,
    second: RtcProviderQueryKind,
    target_id: Seq<char>,
)
    requires
        first != second,
    ensures
        job_id_text(provider, first, target_id) != job_id_text(provider, second, target_id),
{
    let k1 = query_kind_key(first);
    let k2 = query_kind_key(second);
    law_query_kind_round_trip(first);
    law_query_kind_round_trip(second);
    assert(k1 != k2);
    let head = "provider-query-"@ + provider + "-"@;
    let a = job_id_text(provider, first, target_id);
    let b = job_id_text(provider, second, target_id);
    assert(a =~= head + k1 + ("-"@ + target_id));
    assert(b =~= head + k2 + ("-"@ + target_id));
    if k1.len() == k2.len() && a == b {
        assert(a.subrange(head.len() as int, (head.len() + k1.len()) as int) =~= k1);
        assert(b.subrange(head.len() as int, (head.len() + k2.len()) as int) =~= k2);
    }
}

/// The snapshot that a synced query records of its signed OpenAPI exchange does not depend
/// on the signing secrets: two settings that differ only in their access key id and secret
/// record the same snapshot, so no secret reaches a stored snapshot.
pub proof fn law_exchange_snapshot_hides_signing_secrets(
    first: VolcengineRtcProviderConfig,
    second: VolcengineRtcProviderConfig,
    request: RtcProviderQueryRequest,
    action: Seq<char>,
    signed_at: Seq<u8>,
    reply: Option<OpenApiResponseView>,
)
    requires
        first.api_endpoint@ == second.api_endpoint@,
        first.api_host@ == second.api_host@,
        first.api_version@ == second.api_version@,
        first.region@ == second.region@,
        opt_view(first.app_id) == opt_view(second.app_id),
    ensures
        request_snapshot_json(signed_request_view(first, request, action, signed_at), reply)
            == request_snapshot_json(signed_request_view(second, request, action, signed_at), reply),
{
    let r1 = signed_request_view(first, request, action, signed_at);
    let r2 = signed_request_view(second, request, action, signed_at);
    assert(r1.query =~= r2.query);
    assert(r1.headers.map_values(|p: (Seq<char>, Seq<char>)| JsonView::Str(p.0))
        =~= r2.headers.map_values(|p: (Seq<char>, Seq<char>)| JsonView::Str(p.0)));
}


/// Requests signed with settings that differ only in the secret access key agree in every
/// part but the `Signature` value at the end of the `Authorization` header: method, endpoint,
/// host, path, action, query, body and the other headers are equal, and both `Authorization`
/// values are the same credential, scope and signed headers followed by that request's own
/// signature.
pub proof fn law_secret_changes_only_the_signature(
    first: VolcengineRtcProviderConfig,
    second: VolcengineRtcProviderConfig,
    request: RtcProviderQueryRequest,
    action: Seq<char>,
    signed_at: Seq<u8>,
)
    requires
        first.api_endpoint@ == second.api_endpoint@,
        first.api_host@ == second.api_host@,
        first.api_version@ == second.api_version@,
        first.region@ == second.region@,
        opt_view(first.app_id) == opt_view(second.app_id),
        opt_view(first.access_key_id) == opt_view(second.access_key_id),
    ensures
        ({
            let a = signed_request_view(first, request, action, signed_at);
            let b = signed_request_view(second, request, action, signed_at);
            &&& a.method == b.method
            &&& a.endpoint == b.endpoint
            &&& a.host == b.host
            &&& a.path == b.path
            &&& a.action == b.action
            &&& a.query == b.query
            &&& a.body == b.body
            &&& a.headers.len() == 5
            &&& b.headers.len() == 5
            &&& a.headers.subrange(0, 4) == b.headers.subrange(0, 4)
            &&& a.headers[4] == ("Authorization"@, authorization_text(
                first.access_key_id->0@,
                request_scope(first, signed_at),
                request_signature(first, request, action, signed_at),
            ))
            &&& b.headers[4] == ("Authorization"@, authorization_text(
                first.access_key_id->0@,
                request_scope(first, signed_at),
                request_signature(second, request, action, signed_at),
            ))
        }),
{
    let a = signed_request_view(first, request, action, signed_at);
    let b = signed_request_view(second, request, action, signed_at);
    assert(a.query =~= b.query);
    assert(a.headers.subrange(0, 4) =~= b.headers.subrange(0, 4));
    if first.access_key_id is Some {
        assert(first.access_key_id->0@ == second.access_key_id->0@);
    }
}


/// Claiming the same idempotency key twice with the same record: on a free key the first
/// claim takes it and stores the record, and the second is answered with that stored
/// record; on a taken key neither claim changes what is stored, and the second claim is
/// answered as the first was.
pub proof fn law_idempotency_repeated_claims(
    stored: Option<RtcMediaSessionIdempotencyRecord>,
    record: RtcMediaSessionIdempotencyRecord,
)
    ensures
        ({
            let (first, after_first) = claim_against_store(stored, record);
            let (second, after_second) = claim_against_store(after_first, record);
            &&& stored is None ==> {
                &&& first == Ok::<RtcMediaSessionIdempotencyClaim, StorageFault>(RtcMediaSessionIdempotencyClaim::Claimed)
                &&& after_first == Some(record)
                &&& second == Ok::<RtcMediaSessionIdempotencyClaim, StorageFault>(
                    RtcMediaSessionIdempotencyClaim::Existing(record),
                )
                &&& after_second == after_first
            }
            &&& stored is Some ==> {
                &&& after_first == stored
                &&& after_second == stored
                &&& second == first
            }
        }),
{
    law_idempotency_reclaim_matches(record);
}


/// The timestamp that `format_unix_seconds_rfc3339` writes for any `u32` count of seconds
/// is 24 ASCII characters `YYYY-MM-DDTHH:MM:SS.000Z` naming a real date (month 1 to 12, a
/// day that month has) and time of day, and later instants give timestamps that come later
/// in character order.
pub proof fn law_rfc3339_timestamps_are_fixed_width_and_increasing(s1: u32, s2: u32)
    ensures
        rfc3339_millis_text(s1 as nat).len() == 24,
        is_ascii_chars(rfc3339_millis_text(s1 as nat)),
        1 <= civil_date(s1 as nat / 86400).1 <= 12,
        1 <= civil_date(s1 as nat / 86400).2 <= month_length(
            civil_date(s1 as nat / 86400).0,
            civil_date(s1 as nat / 86400).1,
        ),
        (s1 as nat % 86400) / 3600 < 24,
        s1 < s2 ==> text_before(rfc3339_millis_text(s1 as nat), rfc3339_millis_text(s2 as nat)),
{
    lemma_rfc3339_fields(s1);
    lemma_rfc3339_fields(s2);
    lemma_stamp_layout(rfc3339_fields(s1 as nat));
    lemma_prefix_ascii(s1 as nat);
    let tail = seq!['0', '0', '0', 'Z'];
    assert(is_ascii_chars(tail));
    lemma_ascii_concat(rfc3339_seconds_prefix(s1 as nat), tail);
    if s1 < s2 {
        lemma_rfc3339_fields_increasing(s1, s2);
        lemma_stamp_before(rfc3339_fields(s1 as nat), rfc3339_fields(s2 as nat));
    }
}


/// A provider account listing sorted by one of its fields (`name`, `code`, `provider`, `status`) orders by that
/// field's column; any other sort field orders by `uuid`.
pub proof fn law_provider_account_sort_columns(field: Seq<char>)
    ensures
        field == "name"@ ==> provider_account_sort_key(field) == "name"@,
        field == "code"@ ==> provider_account_sort_key(field) == "code"@,
        field == "provider"@ ==> provider_account_sort_key(field) == "provider"@,
        field == "status"@ ==> provider_account_sort_key(field) == "status"@,
        field != "name"@ && field != "code"@ && field != "provider"@ && field != "status"@ ==> provider_account_sort_key(field) == "uuid"@,
{
    reveal_strlit("code");
    reveal_strlit("name");
    reveal_strlit("provider");
    reveal_strlit("status");
    reveal_strlit("uuid");
    if field == "code"@ {
        assert("code"@[0] == 'c' && "name"@[0] == 'n');
        lemma_texts_differ("code"@, "name"@, 0);
    }
    if field == "provider"@ {
        lemma_texts_differ("provider"@, "name"@, 0);
        lemma_texts_differ("provider"@, "code"@, 0);
    }
    if field == "status"@ {
        lemma_texts_differ("status"@, "name"@, 0);
        lemma_texts_differ("status"@, "code"@, 0);
        lemma_texts_differ("status"@, "provider"@, 0);
    }
}

/// A provider application listing sorted by one of its fields (`name`, `code`, `providerApplicationId`, `provider_application_id`) orders by that
/// field's column; any other sort field orders by `uuid`.
pub proof fn law_provider_application_sort_columns(field: Seq<char>)
    ensures
        field == "name"@ ==> provider_application_sort_key(field) == "name"@,
        field == "code"@ ==> provider_application_sort_key(field) == "code"@,
        field == "providerApplicationId"@ ==> provider_application_sort_key(field) == "provider_application_id"@,
        field == "provider_application_id"@ ==> provider_application_sort_key(field) == "provider_application_id"@,
        field != "name"@ && field != "code"@ && field != "providerApplicationId"@ && field != "provider_application_id"@ ==> provider_application_sort_key(field) == "uuid"@,
{
    reveal_strlit("code");
    reveal_strlit("name");
    reveal_strlit("providerApplicationId");
    reveal_strlit("provider_application_id");
    reveal_strlit("uuid");
    if field == "code"@ {
        assert("code"@[0] == 'c' && "name"@[0] == 'n');
        lemma_texts_differ("code"@, "name"@, 0);
    }
    if field == "providerApplicationId"@ {
        lemma_texts_differ("providerApplicationId"@, "name"@, 0);
        lemma_texts_differ("providerApplicationId"@, "code"@, 0);
    }
    if field == "provider_application_id"@ {
        lemma_texts_differ("provider_application_id"@, "name"@, 0);
        lemma_texts_differ("provider_application_id"@, "code"@, 0);
    }
}

/// A provider credential listing sorted by one of its fields (`label`, `credentialLabel`, `credential_label`, `role`, `credentialRole`, `credential_role`, `status`) orders by that
/// field's column; any other sort field orders by `uuid`.
pub proof fn law_provider_credential_sort_columns(field: Seq<char>)
    ensures
        field == "label"@ ==> provider_credential_sort_key(field) == "credential_label"@,
        field == "credentialLabel"@ ==> provider_credential_sort_key(field) == "credential_label"@,
        field == "credential_label"@ ==> provider_credential_sort_key(field) == "credential_label"@,
        field == "role"@ ==> provider_credential_sort_key(field) == "credential_role"@,
        field == "credentialRole"@ ==> provider_credential_sort_key(field) == "credential_role"@,
        field == "credential_role"@ ==> provider_credential_sort_key(field) == "credential_role"@,
        field == "status"@ ==> provider_credential_sort_key(field) == "status"@,
        field != "label"@ && field != "credentialLabel"@ && field != "credential_label"@ && field != "role"@ && field != "credentialRole"@ && field != "credential_role"@ && field != "status"@ ==> provider_credential_sort_key(field) == "uuid"@,
{
    reveal_strlit("credentialLabel");
    reveal_strlit("credentialRole");
    reveal_strlit("credential_label");
    reveal_strlit("credential_role");
    reveal_strlit("label");
    reveal_strlit("role");
    reveal_strlit("status");
    reveal_strlit("uuid");
    if field == "role"@ {
        lemma_texts_differ("role"@, "label"@, 0);
        lemma_texts_differ("role"@, "credentialLabel"@, 0);
        lemma_texts_differ("role"@, "credential_label"@, 0);
    }
    if field == "credentialRole"@ {
        lemma_texts_differ("credentialRole"@, "label"@, 0);
        lemma_texts_differ("credentialRole"@, "credentialLabel"@, 0);
        lemma_texts_differ("credentialRole"@, "credential_label"@, 0);
    }
    if field == "credential_role"@ {
        lemma_texts_differ("credential_role"@, "label"@, 0);
        assert("credential_role"@[10] == '_' && "credentialLabel"@[10] == 'L');
        lemma_texts_differ("credential_role"@, "credentialLabel"@, 10);
        lemma_texts_differ("credential_role"@, "credential_label"@, 0);
    }
    if field == "status"@ {
        lemma_texts_differ("status"@, "label"@, 0);
        lemma_texts_differ("status"@, "credentialLabel"@, 0);
        lemma_texts_differ("status"@, "credential_label"@, 0);
        lemma_texts_differ("status"@, "role"@, 0);
        lemma_texts_differ("status"@, "credentialRole"@, 0);
        lemma_texts_differ("status"@, "credential_role"@, 0);
    }
}

/// A webhook event listing sorted by one of its fields (`provider`, `eventType`, `event_type`, `externalEventId`, `external_event_id`, `receivedAt`, `received_at`, `status`) orders by that
/// field's column; any other sort field orders by `uuid`.
pub proof fn law_webhook_event_sort_columns(field: Seq<char>)
    ensures
        field == "provider"@ ==> webhook_event_sort_key(field) == "provider"@,
        field == "eventType"@ ==> webhook_event_sort_key(field) == "event_type"@,
        field == "event_type"@ ==> webhook_event_sort_key(field) == "event_type"@,
        field == "externalEventId"@ ==> webhook_event_sort_key(field) == "external_event_id"@,
        field == "external_event_id"@ ==> webhook_event_sort_key(field) == "external_event_id"@,
        field == "receivedAt"@ ==> webhook_event_sort_key(field) == "received_at"@,
        field == "received_at"@ ==> webhook_event_sort_key(field) == "received_at"@,
        field == "status"@ ==> webhook_event_sort_key(field) == "status"@,
        field != "provider"@ && field != "eventType"@ && field != "event_type"@ && field != "externalEventId"@ && field != "external_event_id"@ && field != "receivedAt"@ && field != "received_at"@ && field != "status"@ ==> webhook_event_sort_key(field) == "uuid"@,
{
    reveal_strlit("eventType");
    reveal_strlit("event_type");
    reveal_strlit("externalEventId");
    reveal_strlit("external_event_id");
    reveal_strlit("provider");
    reveal_strlit("receivedAt");
    reveal_strlit("received_at");
    reveal_strlit("status");
    reveal_strlit("uuid");
    if field == "eventType"@ {
        lemma_texts_differ("eventType"@, "provider"@, 0);
    }
    if field == "event_type"@ {
        lemma_texts_differ("event_type"@, "provider"@, 0);
    }
    if field == "externalEventId"@ {
        lemma_texts_differ("externalEventId"@, "provider"@, 0);
        lemma_texts_differ("externalEventId"@, "eventType"@, 0);
        lemma_texts_differ("externalEventId"@, "event_type"@, 0);
    }
    if field == "external_event_id"@ {
        lemma_texts_differ("external_event_id"@, "provider"@, 0);
        lemma_texts_differ("external_event_id"@, "eventType"@, 0);
        lemma_texts_differ("external_event_id"@, "event_type"@, 0);
    }
    if field == "receivedAt"@ {
        lemma_texts_differ("receivedAt"@, "provider"@, 0);
        lemma_texts_differ("receivedAt"@, "eventType"@, 0);
        assert("receivedAt"@[0] == 'r' && "event_type"@[0] == 'e');
        lemma_texts_differ("receivedAt"@, "event_type"@, 0);
        lemma_texts_differ("receivedAt"@, "externalEventId"@, 0);
        lemma_texts_differ("receivedAt"@, "external_event_id"@, 0);
    }
    if field == "received_at"@ {
        lemma_texts_differ("received_at"@, "provider"@, 0);
        lemma_texts_differ("received_at"@, "eventType"@, 0);
        lemma_texts_differ("received_at"@, "event_type"@, 0);
        lemma_texts_differ("received_at"@, "externalEventId"@, 0);
        lemma_texts_differ("received_at"@, "external_event_id"@, 0);
    }
    if field == "status"@ {
        lemma_texts_differ("status"@, "provider"@, 0);
        lemma_texts_differ("status"@, "eventType"@, 0);
        lemma_texts_differ("status"@, "event_type"@, 0);
        lemma_texts_differ("status"@, "externalEventId"@, 0);
        lemma_texts_differ("status"@, "external_event_id"@, 0);
        lemma_texts_differ("status"@, "receivedAt"@, 0);
        lemma_texts_differ("status"@, "received_at"@, 0);
    }
}

/// A provider query snapshot listing sorted by one of its fields (`queryKind`, `query_kind`, `jobId`, `job_id`, `providerQueryJobId`, `provider_query_job_id`, `capturedAt`, `captured_at`) orders by that
/// field's column; any other sort field orders by `uuid`.
pub proof fn law_provider_query_snapshot_sort_columns(field: Seq<char>)
    ensures
        field == "queryKind"@ ==> provider_query_snapshot_sort_key(field) == "query_kind"@,
        field == "query_kind"@ ==> provider_query_snapshot_sort_key(field) == "query_kind"@,
        field == "jobId"@ ==> provider_query_snapshot_sort_key(field) == "provider_query_job_id"@,
        field == "job_id"@ ==> provider_query_snapshot_sort_key(field) == "provider_query_job_id"@,
        field == "providerQueryJobId"@ ==> provider_query_snapshot_sort_key(field) == "provider_query_job_id"@,
        field == "provider_query_job_id"@ ==> provider_query_snapshot_sort_key(field) == "provider_query_job_id"@,
        field == "capturedAt"@ ==> provider_query_snapshot_sort_key(field) == "captured_at"@,
        field == "captured_at"@ ==> provider_query_snapshot_sort_key(field) == "captured_at"@,
        field != "queryKind"@ && field != "query_kind"@ && field != "jobId"@ && field != "job_id"@ && field != "providerQueryJobId"@ && field != "provider_query_job_id"@ && field != "capturedAt"@ && field != "captured_at"@ ==> provider_query_snapshot_sort_key(field) == "uuid"@,
{
    reveal_strlit("capturedAt");
    reveal_strlit("captured_at");
    reveal_strlit("jobId");
    reveal_strlit("job_id");
    reveal_strlit("providerQueryJobId");
    reveal_strlit("provider_query_job_id");
    reveal_strlit("queryKind");
    reveal_strlit("query_kind");
    reveal_strlit("uuid");
    if field == "jobId"@ {
        lemma_texts_differ("jobId"@, "queryKind"@, 0);
        lemma_texts_differ("jobId"@, "query_kind"@, 0);
    }
    if field == "job_id"@ {
        lemma_texts_differ("job_id"@, "queryKind"@, 0);
        lemma_texts_differ("job_id"@, "query_kind"@, 0);
    }
    if field == "providerQueryJobId"@ {
        lemma_texts_differ("providerQueryJobId"@, "queryKind"@, 0);
        lemma_texts_differ("providerQueryJobId"@, "query_kind"@, 0);
    }
    if field == "provider_query_job_id"@ {
        lemma_texts_differ("provider_query_job_id"@, "queryKind"@, 0);
        lemma_texts_differ("provider_query_job_id"@, "query_kind"@, 0);
    }
    if field == "capturedAt"@ {
        lemma_texts_differ("capturedAt"@, "queryKind"@, 0);
        assert("capturedAt"@[0] == 'c' && "query_kind"@[0] == 'q');
        lemma_texts_differ("capturedAt"@, "query_kind"@, 0);
        lemma_texts_differ("capturedAt"@, "jobId"@, 0);
        lemma_texts_differ("capturedAt"@, "job_id"@, 0);
        lemma_texts_differ("capturedAt"@, "providerQueryJobId"@, 0);
        lemma_texts_differ("capturedAt"@, "provider_query_job_id"@, 0);
    }
    if field == "captured_at"@ {
        lemma_texts_differ("captured_at"@, "queryKind"@, 0);
        lemma_texts_differ("captured_at"@, "query_kind"@, 0);
        lemma_texts_differ("captured_at"@, "jobId"@, 0);
        lemma_texts_differ("captured_at"@, "job_id"@, 0);
        lemma_texts_differ("captured_at"@, "providerQueryJobId"@, 0);
        lemma_texts_differ("captured_at"@, "provider_query_job_id"@, 0);
    }
}

/// A provider profile listing sorted by one of its fields (`name`, `code`, `provider`, `priority`, `isDefault`, `is_default`) orders by that
/// field's column; any other sort field orders by `uuid`.
pub proof fn law_provider_profile_sort_columns(field: Seq<char>)
    ensures
        field == "name"@ ==> provider_profile_sort_key(field) == "name"@,
        field == "code"@ ==> provider_profile_sort_key(field) == "code"@,
        field == "provider"@ ==> provider_profile_sort_key(field) == "provider"@,
        field == "priority"@ ==> provider_profile_sort_key(field) == "priority"@,
        field == "isDefault"@ ==> provider_profile_sort_key(field) == "is_default"@,
        field == "is_default"@ ==> provider_profile_sort_key(field) == "is_default"@,
        field != "name"@ && field != "code"@ && field != "provider"@ && field != "priority"@ && field != "isDefault"@ && field != "is_default"@ ==> provider_profile_sort_key(field) == "uuid"@,
{
    reveal_strlit("code");
    reveal_strlit("isDefault");
    reveal_strlit("is_default");
    reveal_strlit("name");
    reveal_strlit("priority");
    reveal_strlit("provider");
    reveal_strlit("uuid");
    if field == "code"@ {
        assert("code"@[0] == 'c' && "name"@[0] == 'n');
        lemma_texts_differ("code"@, "name"@, 0);
    }
    if field == "provider"@ {
        lemma_texts_differ("provider"@, "name"@, 0);
        lemma_texts_differ("provider"@, "code"@, 0);
    }
    if field == "priority"@ {
        lemma_texts_differ("priority"@, "name"@, 0);
        lemma_texts_differ("priority"@, "code"@, 0);
        assert("priority"@[2] == 'i' && "provider"@[2] == 'o');
        lemma_texts_differ("priority"@, "provider"@, 2);
    }
    if field == "isDefault"@ {
        lemma_texts_differ("isDefault"@, "name"@, 0);
        lemma_texts_differ("isDefault"@, "code"@, 0);
        lemma_texts_differ("isDefault"@, "provider"@, 0);
        lemma_texts_differ("isDefault"@, "priority"@, 0);
    }
    if field == "is_default"@ {
        lemma_texts_differ("is_default"@, "name"@, 0);
        lemma_texts_differ("is_default"@, "code"@, 0);
        lemma_texts_differ("is_default"@, "provider"@, 0);
        lemma_texts_differ("is_default"@, "priority"@, 0);
    }
}

/// A provider route listing sorted by one of its fields (`providerProfileId`, `provider_profile_id`, `routeType`, `route_type`, `region`, `priority`, `status`) orders by that
/// field's column; any other sort field orders by `uuid`.
pub proof fn law_provider_route_sort_columns(field: Seq<char>)
    ensures
        field == "providerProfileId"@ ==> provider_route_sort_key(field) == "provider_profile_id"@,
        field == "provider_profile_id"@ ==> provider_route_sort_key(field) == "provider_profile_id"@,
        field == "routeType"@ ==> provider_route_sort_key(field) == "route_type"@,
        field == "route_type"@ ==> provider_route_sort_key(field) == "route_type"@,
        field == "region"@ ==> provider_route_sort_key(field) == "region"@,
        field == "priority"@ ==> provider_route_sort_key(field) == "priority"@,
        field == "status"@ ==> provider_route_sort_key(field) == "status"@,
        field != "providerProfileId"@ && field != "provider_profile_id"@ && field != "routeType"@ && field != "route_type"@ && field != "region"@ && field != "priority"@ && field != "status"@ ==> provider_route_sort_key(field) == "uuid"@,
{
    reveal_strlit("priority");
    reveal_strlit("providerProfileId");
    reveal_strlit("provider_profile_id");
    reveal_strlit("region");
    reveal_strlit("routeType");
    reveal_strlit("route_type");
    reveal_strlit("status");
    reveal_strlit("uuid");
    if field == "routeType"@ {
        lemma_texts_differ("routeType"@, "providerProfileId"@, 0);
        lemma_texts_differ("routeType"@, "provider_profile_id"@, 0);
    }
    if field == "route_type"@ {
        lemma_texts_differ("route_type"@, "providerProfileId"@, 0);
        lemma_texts_differ("route_type"@, "provider_profile_id"@, 0);
    }
    if field == "region"@ {
        lemma_texts_differ("region"@, "providerProfileId"@, 0);
        lemma_texts_differ("region"@, "provider_profile_id"@, 0);
        lemma_texts_differ("region"@, "routeType"@, 0);
        lemma_texts_differ("region"@, "route_type"@, 0);
    }
    if field == "priority"@ {
        lemma_texts_differ("priority"@, "providerProfileId"@, 0);
        lemma_texts_differ("priority"@, "provider_profile_id"@, 0);
        lemma_texts_differ("priority"@, "routeType"@, 0);
        lemma_texts_differ("priority"@, "route_type"@, 0);
        lemma_texts_differ("priority"@, "region"@, 0);
    }
    if field == "status"@ {
        lemma_texts_differ("status"@, "providerProfileId"@, 0);
        lemma_texts_differ("status"@, "provider_profile_id"@, 0);
        lemma_texts_differ("status"@, "routeType"@, 0);
        lemma_texts_differ("status"@, "route_type"@, 0);
        assert("status"@[0] == 's' && "region"@[0] == 'r');
        lemma_texts_differ("status"@, "region"@, 0);
        lemma_texts_differ("status"@, "priority"@, 0);
    }
}

} // verus!
