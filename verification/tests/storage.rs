use sdkwork_rtc::domain::RtcMediaSessionMode;
use sdkwork_rtc::error::{storage_to_persistence_error, RtcPersistenceError, RtcStorageError};
use sdkwork_rtc::event_codec::{
    event_kind_to_str, provider_query_status_to_i32, provider_query_status_to_str,
    query_kind_to_str, str_to_event_kind, str_to_query_kind, webhook_status_to_i32,
    webhook_status_to_str,
};
use sdkwork_rtc::domain::{RtcProviderEventKind, RtcProviderQueryKind};
use sdkwork_rtc::media_session::{
    end_source_to_str, i32_to_media_mode, i32_to_media_session_status, i32_to_participant_role,
    i32_to_participant_state, i32_to_recording_artifact_kind, i32_to_recording_artifact_status,
    i32_to_track_kind, i32_to_track_source, i32_to_track_status, media_mode_to_i32,
    media_session_status_to_i32, participant_role_to_i32, participant_state_to_i32,
    recording_artifact_kind_to_i32, recording_artifact_status_to_i32, room_status_to_i32,
    str_to_end_source, track_kind_to_i32, track_source_to_i32, track_status_to_i32,
    RtcMediaSessionEndSource, RtcMediaSessionStatus, RtcMediaTrackKind, RtcMediaTrackSource,
    RtcMediaTrackStatus, RtcParticipantRole, RtcParticipantState, RtcRecordingArtifactKind,
    RtcRecordingArtifactStatus, RtcRoomStatus,
};
use sdkwork_rtc::provider_account::{
    i32_to_provider_account_status, i32_to_provider_application_status,
    i32_to_provider_credential_role, i32_to_provider_credential_status,
    provider_account_status_to_i32, provider_application_status_to_i32,
    provider_credential_role_to_i32, provider_credential_status_to_i32, RtcProviderAccountStatus,
    RtcProviderApplicationStatus, RtcProviderCredentialRole, RtcProviderCredentialStatus,
};
use sdkwork_rtc::storage_values::{
    bool_to_i64, ensure_provider_account_updated, ensure_provider_application_updated,
    ensure_provider_credential_updated, ensure_provider_profile_updated,
    ensure_provider_route_updated, ensure_session_summary_updated, idempotency_payload_mismatch,
    option_i64_to_u64, option_u64_to_i64, parse_i64, parse_i64_field,
    provider_account_sort_column, provider_account_status_from_key,
    provider_application_sort_column, provider_credential_sort_column,
    provider_profile_sort_column, provider_query_snapshot_sort_column, provider_route_sort_column,
    u32_to_i32, u32_to_i64, validate_idempotency_claim_match, webhook_event_sort_column,
    RtcListWindowError, RtcMediaSessionIdempotencyRecord,
};
use sdkwork_rtc::storage_values::{
    i32_column_to_u32, i64_column_to_u32, option_string_to_i64, optional_i32_column_to_u32,
    optional_i64_column_to_u32,
    check_idempotency_overwrite, resolve_idempotency_claim, storage_error, RtcMediaSessionIdempotencyClaim,
};

fn assert_invalid<T: std::fmt::Debug>(result: Result<T, RtcStorageError>, expected_field: &str, expected_value: &str) {
    match result {
        Err(RtcStorageError::InvalidEnumValue { field, value }) => {
            assert_eq!(field, expected_field);
            assert_eq!(value, expected_value);
        }
        other => panic!("expected an invalid {expected_field} value, got {other:?}"),
    }
}

#[test]
fn media_enums_round_trip_through_their_numbers() {
    for mode in [RtcMediaSessionMode::Audio, RtcMediaSessionMode::Video, RtcMediaSessionMode::Live] {
        assert_eq!(i32_to_media_mode(media_mode_to_i32(&mode)).unwrap(), mode);
    }
    for status in [RtcMediaSessionStatus::Preparing, RtcMediaSessionStatus::Active, RtcMediaSessionStatus::Closing, RtcMediaSessionStatus::Ended, RtcMediaSessionStatus::Failed] {
        assert_eq!(i32_to_media_session_status(media_session_status_to_i32(&status)).unwrap(), status);
    }
    for role in [RtcParticipantRole::Host, RtcParticipantRole::Guest, RtcParticipantRole::Listener] {
        assert_eq!(i32_to_participant_role(participant_role_to_i32(&role)).unwrap(), role);
    }
    for state in [RtcParticipantState::Joining, RtcParticipantState::Joined, RtcParticipantState::Left, RtcParticipantState::Kicked, RtcParticipantState::Timeout] {
        assert_eq!(i32_to_participant_state(participant_state_to_i32(&state)).unwrap(), state);
    }
    for kind in [RtcMediaTrackKind::Audio, RtcMediaTrackKind::Video, RtcMediaTrackKind::ScreenShare, RtcMediaTrackKind::Data] {
        assert_eq!(i32_to_track_kind(track_kind_to_i32(&kind)).unwrap(), kind);
    }
    for source in [RtcMediaTrackSource::Microphone, RtcMediaTrackSource::Camera, RtcMediaTrackSource::Screen, RtcMediaTrackSource::System, RtcMediaTrackSource::Custom] {
        assert_eq!(i32_to_track_source(track_source_to_i32(&source)).unwrap(), source);
    }
    for status in [RtcMediaTrackStatus::Publishing, RtcMediaTrackStatus::Muted, RtcMediaTrackStatus::Stopped, RtcMediaTrackStatus::Failed] {
        assert_eq!(i32_to_track_status(track_status_to_i32(&status)).unwrap(), status);
    }
    for kind in [RtcRecordingArtifactKind::Recording, RtcRecordingArtifactKind::Transcript, RtcRecordingArtifactKind::ScreenShare, RtcRecordingArtifactKind::Snapshot, RtcRecordingArtifactKind::Other] {
        assert_eq!(i32_to_recording_artifact_kind(recording_artifact_kind_to_i32(&kind)).unwrap(), kind);
    }
    for status in [RtcRecordingArtifactStatus::Pending, RtcRecordingArtifactStatus::Processing, RtcRecordingArtifactStatus::Ready, RtcRecordingArtifactStatus::Failed, RtcRecordingArtifactStatus::Deleted] {
        assert_eq!(i32_to_recording_artifact_status(recording_artifact_status_to_i32(&status)).unwrap(), status);
    }
}

#[test]
fn media_enum_numbers_are_fixed() {
    assert_eq!(room_status_to_i32(&RtcRoomStatus::Active), 1);
    assert_eq!(room_status_to_i32(&RtcRoomStatus::Disabled), 3);
    assert_eq!(media_session_status_to_i32(&RtcMediaSessionStatus::Ended), 4);
    assert_eq!(participant_state_to_i32(&RtcParticipantState::Timeout), 5);
    assert_eq!(track_source_to_i32(&RtcMediaTrackSource::Camera), 2);
    assert_eq!(recording_artifact_status_to_i32(&RtcRecordingArtifactStatus::Ready), 3);
}

#[test]
fn unknown_numbers_are_invalid_values() {
    assert_invalid(i32_to_media_mode(0), "media_mode", "0");
    assert_invalid(i32_to_media_session_status(6), "status", "6");
    assert_invalid(i32_to_participant_role(-3), "role", "-3");
    assert_invalid(i32_to_participant_state(9), "state", "9");
    assert_invalid(i32_to_track_kind(5), "track_kind", "5");
    assert_invalid(i32_to_track_source(i32::MIN), "track_source", "-2147483648");
    assert_invalid(i32_to_track_status(0), "track_status", "0");
    assert_invalid(i32_to_recording_artifact_kind(6), "artifact_kind", "6");
    assert_invalid(i32_to_recording_artifact_status(i32::MAX), "artifact_status", "2147483647");
    assert_invalid(i32_to_provider_account_status(4), "provider_account_status", "4");
    assert_invalid(i32_to_provider_application_status(0), "provider_application_status", "0");
    assert_invalid(i32_to_provider_credential_role(6), "provider_credential_role", "6");
    assert_invalid(i32_to_provider_credential_status(0), "provider_credential_status", "0");
}

#[test]
fn provider_account_enums_round_trip() {
    for s in [RtcProviderAccountStatus::Active, RtcProviderAccountStatus::Disabled, RtcProviderAccountStatus::Archived] {
        assert_eq!(i32_to_provider_account_status(provider_account_status_to_i32(&s)).unwrap(), s);
    }
    for s in [RtcProviderApplicationStatus::Active, RtcProviderApplicationStatus::Disabled, RtcProviderApplicationStatus::Archived] {
        assert_eq!(i32_to_provider_application_status(provider_application_status_to_i32(&s)).unwrap(), s);
    }
    for r in [RtcProviderCredentialRole::RtcTokenSigning, RtcProviderCredentialRole::OpenApiSigning, RtcProviderCredentialRole::UserSigSigning, RtcProviderCredentialRole::CloudApiSigning, RtcProviderCredentialRole::WebhookSigning] {
        assert_eq!(i32_to_provider_credential_role(provider_credential_role_to_i32(&r)).unwrap(), r);
    }
    for s in [RtcProviderCredentialStatus::Active, RtcProviderCredentialStatus::Pending, RtcProviderCredentialStatus::Disabled, RtcProviderCredentialStatus::Revoked, RtcProviderCredentialStatus::Expired] {
        assert_eq!(i32_to_provider_credential_status(provider_credential_status_to_i32(&s)).unwrap(), s);
    }
    assert_eq!(provider_credential_role_to_i32(&RtcProviderCredentialRole::WebhookSigning), 5);
}

#[test]
fn keyed_codecs_round_trip_and_reject_unknown_keys() {
    for source in [RtcMediaSessionEndSource::ManualClose, RtcMediaSessionEndSource::ProviderWebhook, RtcMediaSessionEndSource::ActiveProviderQuery, RtcMediaSessionEndSource::ProviderStateSync, RtcMediaSessionEndSource::Timeout, RtcMediaSessionEndSource::SystemReconcile, RtcMediaSessionEndSource::Unknown] {
        assert_eq!(str_to_end_source(end_source_to_str(&source)).unwrap(), source);
    }
    assert_eq!(end_source_to_str(&RtcMediaSessionEndSource::ActiveProviderQuery), "active_provider_query");
    assert_invalid(str_to_end_source("host_left"), "end_source", "host_left");
    for kind in [RtcProviderEventKind::RoomStarted, RtcProviderEventKind::RoomEnded, RtcProviderEventKind::ParticipantJoined, RtcProviderEventKind::ParticipantLeft, RtcProviderEventKind::RecordingStarted, RtcProviderEventKind::RecordingCompleted, RtcProviderEventKind::RecordingFailed, RtcProviderEventKind::MediaTrackStarted, RtcProviderEventKind::MediaTrackStopped, RtcProviderEventKind::QualitySample, RtcProviderEventKind::Unknown] {
        assert_eq!(str_to_event_kind(event_kind_to_str(&kind)).unwrap(), kind);
    }
    assert_invalid(str_to_event_kind("Room_Ended"), "event_kind", "Room_Ended");
    for kind in [RtcProviderQueryKind::RoomOnlineUsers, RtcProviderQueryKind::RoomState, RtcProviderQueryKind::MediaSessionState, RtcProviderQueryKind::RecordingArtifacts, RtcProviderQueryKind::QualitySamples] {
        assert_eq!(str_to_query_kind(query_kind_to_str(&kind)).unwrap(), kind);
    }
    assert_invalid(str_to_query_kind(""), "query_kind", "");
    for status in ["requested", "running", "completed", "failed"] {
        assert_eq!(provider_query_status_to_str(provider_query_status_to_i32(status).unwrap()), status);
    }
    assert_eq!(provider_query_status_to_str(99), "failed");
    assert_invalid(provider_query_status_to_i32("done"), "provider_query_status", "done");
    for status in ["received", "processed", "failed", "ignored"] {
        assert_eq!(webhook_status_to_str(webhook_status_to_i32(status).unwrap()), status);
    }
    assert_eq!(webhook_status_to_i32("ignored").unwrap(), 4);
    assert_invalid(webhook_status_to_i32("new"), "webhook_status", "new");
}

#[test]
fn storage_errors_display_their_messages() {
    let invalid = RtcStorageError::InvalidEnumValue { field: "status", value: "9".into() };
    assert_eq!(invalid.message(), "invalid rtc storage enum value for status: 9");
    assert_eq!(
        RtcStorageError::MissingMediaSessionSummary { media_session_id: "session-1".into() }.message(),
        "rtc media session summary row is missing for completion record: session-1"
    );
    assert_eq!(
        RtcStorageError::MissingProviderRoute { provider_route_id: "route-1".into() }.message(),
        "rtc provider route row is missing: route-1"
    );
    assert_eq!(RtcStorageError::Conflict("duplicate".into()).message(), "rtc storage conflict: duplicate");
    assert_eq!(RtcStorageError::Json("eof".into()).message(), "rtc storage json error: eof");
    assert_eq!(RtcStorageError::Sqlx("closed".into()).message(), "rtc storage sqlx error: closed");
}

#[test]
fn storage_failures_reach_the_service_as_conflicts_or_unavailability() {
    match storage_to_persistence_error(RtcStorageError::Conflict("taken".into()), None) {
        RtcPersistenceError::Conflict(message) => assert_eq!(message, "taken"),
        other => panic!("unexpected {other:?}"),
    }
    match storage_to_persistence_error(
        RtcStorageError::Sqlx("unique".into()),
        Some("UNIQUE constraint failed: rtc_room.uuid".into()),
    ) {
        RtcPersistenceError::Conflict(message) => assert_eq!(message, "UNIQUE constraint failed: rtc_room.uuid"),
        other => panic!("unexpected {other:?}"),
    }
    match storage_to_persistence_error(RtcStorageError::Sqlx("closed".into()), None) {
        RtcPersistenceError::Unavailable(message) => assert_eq!(message, "rtc storage sqlx error: closed"),
        other => panic!("unexpected {other:?}"),
    }
    match storage_to_persistence_error(RtcStorageError::Json("eof".into()), Some("ignored".into())) {
        RtcPersistenceError::Unavailable(message) => assert_eq!(message, "rtc storage json error: eof"),
        other => panic!("unexpected {other:?}"),
    }
    match storage_error(RtcStorageError::MissingProviderAccount { provider_account_id: "acct-1".into() }) {
        RtcListWindowError::BadRequest(message) => assert_eq!(message, "rtc provider account row is missing: acct-1"),
    }
}

#[test]
fn integer_conversions_saturate_or_drop() {
    assert_eq!(u32_to_i32(7), 7);
    assert_eq!(u32_to_i32(u32::MAX), i32::MAX);
    assert_eq!(u32_to_i64(u32::MAX), 4_294_967_295);
    assert_eq!(option_u64_to_i64(Some(u64::MAX)), Some(i64::MAX));
    assert_eq!(option_u64_to_i64(Some(600_000)), Some(600_000));
    assert_eq!(option_u64_to_i64(None), None);
    assert_eq!(option_i64_to_u64(Some(-1)), None);
    assert_eq!(option_i64_to_u64(Some(598_000)), Some(598_000));
    assert_eq!(bool_to_i64(true), 1);
    assert_eq!(bool_to_i64(false), 0);
}

#[test]
fn stored_columns_read_back_as_u32_and_optional_ids() {
    assert_eq!(i64_column_to_u32(42), 42);
    assert_eq!(i64_column_to_u32(-1), u32::MAX);
    assert_eq!(i64_column_to_u32(5_000_000_000), u32::MAX);
    assert_eq!(i32_column_to_u32(7), 7);
    assert_eq!(i32_column_to_u32(-7), u32::MAX);
    assert_eq!(optional_i64_column_to_u32(Some(640)), Some(640));
    assert_eq!(optional_i64_column_to_u32(Some(-640)), None);
    assert_eq!(optional_i64_column_to_u32(Some(4_294_967_296)), None);
    assert_eq!(optional_i64_column_to_u32(None), None);
    assert_eq!(optional_i32_column_to_u32(Some(480)), Some(480));
    assert_eq!(optional_i32_column_to_u32(Some(-1)), None);
    assert_eq!(option_string_to_i64("tenant_id", None).unwrap(), None);
    assert_eq!(option_string_to_i64("tenant_id", Some("100")).unwrap(), Some(100));
    match option_string_to_i64("tenant_id", Some("tenant-a")) {
        Err(RtcStorageError::InvalidEnumValue { field, value }) => {
            assert_eq!(field, "tenant_id");
            assert_eq!(value, "tenant-a");
        }
        other => panic!("unexpected {other:?}"),
    }
}

#[test]
fn parse_i64_reads_decimal_text_like_std() {
    for text in ["0", "-0", "+5", "-9223372036854775808", "9223372036854775807", "9223372036854775808", "-9223372036854775809", "", "-", "+", "1_0", "12 ", "0042"] {
        assert_eq!(parse_i64(text), text.parse::<i64>().ok(), "parsing {text:?}");
    }
    assert_eq!(parse_i64_field("tenant_id", "100").unwrap(), 100);
    assert_invalid(parse_i64_field("tenant_id", "t_demo"), "tenant_id", "t_demo");
}

fn claim(session: &str, hash: &str) -> RtcMediaSessionIdempotencyRecord {
    RtcMediaSessionIdempotencyRecord {
        id: "idem-1".into(),
        tenant_id: "100".into(),
        organization_id: "200".into(),
        idempotency_key: "key-1".into(),
        media_session_id: session.into(),
        payload_hash: hash.into(),
        response_json: "{}".into(),
        created_at: "2026-06-10T00:00:00.000Z".into(),
    }
}

#[test]
fn idempotency_claims_conflict_only_on_different_payloads_or_targets() {
    assert!(idempotency_payload_mismatch("fnv64:1", "fnv64:2"));
    assert!(!idempotency_payload_mismatch("", "fnv64:2"));
    assert!(!idempotency_payload_mismatch("fnv64:1", ""));
    assert!(!idempotency_payload_mismatch("fnv64:1", "fnv64:1"));
    assert!(validate_idempotency_claim_match(&claim("session-1", "h1"), &claim("session-1", "h1")).is_ok());
    assert!(validate_idempotency_claim_match(&claim("session-1", ""), &claim("session-1", "h1")).is_ok());
    match validate_idempotency_claim_match(&claim("session-1", "h2"), &claim("session-1", "h1")) {
        Err(RtcStorageError::Conflict(message)) => assert_eq!(message, "RTC media session idempotency key reused with different payload: key-1"),
        other => panic!("unexpected {other:?}"),
    }
    match validate_idempotency_claim_match(&claim("session-2", "h1"), &claim("session-1", "h1")) {
        Err(RtcStorageError::Conflict(message)) => assert_eq!(message, "RTC media session idempotency key reused with different session target: key-1"),
        other => panic!("unexpected {other:?}"),
    }
}

#[test]
fn idempotency_claims_resolve_from_the_insert_and_the_stored_record() {
    let incoming = claim("session-1", "h1");
    assert_eq!(
        resolve_idempotency_claim(&incoming, 1, None).unwrap(),
        RtcMediaSessionIdempotencyClaim::Claimed
    );
    let mut stored = claim("session-1", "h1");
    stored.id = "idem-0".into();
    assert_eq!(
        resolve_idempotency_claim(&incoming, 0, Some(stored.clone())).unwrap(),
        RtcMediaSessionIdempotencyClaim::Existing(stored.clone())
    );
    match resolve_idempotency_claim(&incoming, 0, None) {
        Err(RtcStorageError::Conflict(message)) => assert_eq!(message, "RTC media session idempotency claim failed without a stored record"),
        other => panic!("unexpected {other:?}"),
    }
    match resolve_idempotency_claim(&claim("session-1", "h2"), 0, Some(stored.clone())) {
        Err(RtcStorageError::Conflict(message)) => assert_eq!(message, "RTC media session idempotency key reused with different payload: key-1"),
        other => panic!("unexpected {other:?}"),
    }
    assert!(check_idempotency_overwrite(&incoming, None).is_ok());
    assert!(check_idempotency_overwrite(&incoming, Some(&stored)).is_ok());
    match check_idempotency_overwrite(&claim("session-9", "h1"), Some(&stored)) {
        Err(RtcStorageError::Conflict(message)) => assert_eq!(message, "RTC media session idempotency key reused with different session target: key-1"),
        other => panic!("unexpected {other:?}"),
    }
}

#[test]
fn sort_columns_map_requested_fields() {
    assert_eq!(provider_account_sort_column("status"), "status");
    assert_eq!(provider_account_sort_column("createdAt"), "uuid");
    assert_eq!(provider_application_sort_column("providerApplicationId"), "provider_application_id");
    assert_eq!(provider_credential_sort_column("credentialLabel"), "credential_label");
    assert_eq!(provider_credential_sort_column("role"), "credential_role");
    assert_eq!(webhook_event_sort_column("receivedAt"), "received_at");
    assert_eq!(webhook_event_sort_column("RECEIVED_AT"), "uuid");
    assert_eq!(provider_query_snapshot_sort_column("jobId"), "provider_query_job_id");
    assert_eq!(provider_query_snapshot_sort_column("captured_at"), "captured_at");
    assert_eq!(provider_profile_sort_column("isDefault"), "is_default");
    assert_eq!(provider_route_sort_column("routeType"), "route_type");
    assert_eq!(provider_route_sort_column(""), "uuid");
}

#[test]
fn row_updates_must_touch_a_row() {
    assert!(ensure_provider_route_updated(1, "route-1").is_ok());
    assert!(matches!(ensure_provider_route_updated(0, "route-1"), Err(RtcStorageError::MissingProviderRoute { provider_route_id }) if provider_route_id == "route-1"));
    assert!(matches!(ensure_provider_profile_updated(0, "p"), Err(RtcStorageError::MissingProviderProfile { .. })));
    assert!(matches!(ensure_provider_account_updated(0, "a"), Err(RtcStorageError::MissingProviderAccount { .. })));
    assert!(matches!(ensure_provider_application_updated(0, "a"), Err(RtcStorageError::MissingProviderApplication { .. })));
    assert!(matches!(ensure_provider_credential_updated(0, "c"), Err(RtcStorageError::MissingProviderCredential { .. })));
    assert!(matches!(ensure_session_summary_updated(0, "s"), Err(RtcStorageError::MissingMediaSessionSummary { .. })));
    assert!(ensure_session_summary_updated(3, "s").is_ok());
}

#[test]
fn account_status_filter_reads_trimmed_names() {
    assert_eq!(provider_account_status_from_key(None).unwrap(), None);
    assert_eq!(provider_account_status_from_key(Some("   ")).unwrap(), None);
    assert_eq!(provider_account_status_from_key(Some(" active ")).unwrap(), Some(RtcProviderAccountStatus::Active));
    assert_eq!(provider_account_status_from_key(Some("disabled")).unwrap(), Some(RtcProviderAccountStatus::Disabled));
    assert_eq!(provider_account_status_from_key(Some("archived\n")).unwrap(), Some(RtcProviderAccountStatus::Archived));
    match provider_account_status_from_key(Some(" Active ")) {
        Err(RtcListWindowError::BadRequest(message)) => assert_eq!(message, "invalid provider account status filter: Active"),
        other => panic!("unexpected {other:?}"),
    }
}
