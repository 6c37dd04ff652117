use sdkwork_rtc::domain::{RtcProviderEventKind, RtcProviderQueryKind, RtcProviderQueryResult, RtcProviderWebhookEvent};
use sdkwork_rtc::error::RtcStorageError;
use sdkwork_rtc::provider_event::{
    normalize_json_text, serialize_json, deserialize_json_text,
    provider_query_job_id, provider_query_result_snapshot, provider_query_snapshot_id,
    provider_query_target_id, provider_query_target_kind, webhook_event_dedupe_keys,
    webhook_event_id, webhook_event_session_key, recorded_query_job, recorded_webhook_event,
};

fn result(kind: RtcProviderQueryKind, room: Option<&str>, session: Option<&str>, provider_session: Option<&str>) -> RtcProviderQueryResult {
    RtcProviderQueryResult {
        provider: "volcengine".into(),
        provider_profile_id: Some("profile-volcengine".into()),
        query_kind: kind,
        room_id: room.map(str::to_string),
        rtc_session_id: session.map(str::to_string),
        provider_session_id: provider_session.map(str::to_string),
        status: "synced".into(),
        raw_provider_action: "GetRoomInfo".into(),
        result_snapshot_json: r#"{"providerResponse":{"roomState":"ended"}}"#.into(),
        next_cursor: None,
        queried_at: "2026-06-10T00:00:00.000Z".into(),
    }
}

fn event(profile: Option<&str>, external: Option<&str>) -> RtcProviderWebhookEvent {
    RtcProviderWebhookEvent {
        provider: "volcengine".into(),
        provider_profile_id: profile.map(str::to_string),
        external_event_id: external.map(str::to_string),
        event_type: "RoomEnd".into(),
        event_kind: RtcProviderEventKind::RoomEnded,
        room_id: Some("room-1".into()),
        rtc_session_id: None,
        provider_session_id: Some("volcengine:s1".into()),
        participant_id: None,
        recording_id: None,
        occurred_at: None,
        received_at: "2026-06-10T00:00:00.000Z".into(),
        payload_hash: "fnv64:0021e03933a601c3".into(),
        signature_header: None,
        raw_payload: "{}".into(),
        normalized_event_json: "{}".into(),
    }
}

#[test]
fn query_jobs_are_keyed_by_provider_kind_and_target() {
    let room_state = result(RtcProviderQueryKind::RoomState, Some("room-1"), Some("session-1"), None);
    assert_eq!(provider_query_job_id(&room_state), "provider-query-volcengine-room_state-room-1");
    let online = result(RtcProviderQueryKind::RoomOnlineUsers, Some("room-1"), None, None);
    assert_eq!(provider_query_job_id(&online), "provider-query-volcengine-room_online_users-room-1");
    assert_ne!(provider_query_job_id(&room_state), provider_query_job_id(&online));
    assert_eq!(provider_query_target_kind(&room_state), "room");
    let recording = result(RtcProviderQueryKind::RecordingArtifacts, Some("room-1"), Some("session-1"), Some("volcengine:session-1"));
    assert_eq!(provider_query_target_id(&recording), "volcengine:session-1");
    assert_eq!(provider_query_target_kind(&recording), "recording");
    let quality = result(RtcProviderQueryKind::QualitySamples, Some("room-1"), None, None);
    assert_eq!(provider_query_target_id(&quality), "room-1");
    assert_eq!(provider_query_target_kind(&quality), "quality");
    let bare = result(RtcProviderQueryKind::MediaSessionState, None, None, None);
    assert_eq!(provider_query_target_id(&bare), "volcengine-media_session_state");
    assert_eq!(provider_query_target_kind(&bare), "media_session");
}

#[test]
fn stored_rows_get_numbered_ids() {
    assert_eq!(provider_query_snapshot_id(11), "provider-query-snapshot-11");
    assert_eq!(webhook_event_id(-3), "webhook-event--3");
}

#[test]
fn sqlite_repository_deduplicates_webhooks_without_external_event_id() {
    let (profile, external) = webhook_event_dedupe_keys(&event(None, None));
    assert_eq!(profile, "__default_provider_profile__");
    assert_eq!(external, "fnv64:0021e03933a601c3");
    let (profile, external) = webhook_event_dedupe_keys(&event(Some("profile-volcengine"), Some("evt-1")));
    assert_eq!(profile, "profile-volcengine");
    assert_eq!(external, "evt-1");
    assert_eq!(webhook_event_session_key(&event(None, None)), Some("volcengine:s1".to_string()));
}

#[test]
fn query_result_snapshot_embeds_the_provider_snapshot() {
    let snapshot = provider_query_result_snapshot(&result(RtcProviderQueryKind::RoomState, Some("room-1"), None, None))
        .expect("provider snapshot is json");
    assert_eq!(
        serialize_json(&snapshot).unwrap(),
        r#"{"provider":"volcengine","providerAction":"GetRoomInfo","providerProfileId":"profile-volcengine","providerSessionId":null,"providerSnapshot":{"providerResponse":{"roomState":"ended"}},"queriedAt":"2026-06-10T00:00:00.000Z","queryKind":"room_state","status":"synced","targetId":"room-1","targetKind":"room"}"#
    );
    let mut broken = result(RtcProviderQueryKind::RoomState, Some("room-1"), None, None);
    broken.result_snapshot_json = "{not json".into();
    assert!(matches!(provider_query_result_snapshot(&broken), Err(RtcStorageError::Json(_))));
}

#[test]
fn stored_json_is_written_compactly() {
    assert_eq!(normalize_json_text(" { \"b\" : 1 , \"a\" : [true, null] } ").unwrap(), r#"{"a":[true,null],"b":1}"#);
    assert!(matches!(normalize_json_text("{"), Err(RtcStorageError::Json(_))));
}

#[test]
fn recorded_rows_that_do_not_come_back_are_missing() {
    assert_eq!(recorded_webhook_event(Some(7u8), webhook_event_id(7)).unwrap(), 7);
    match recorded_webhook_event::<u8>(None, webhook_event_id(7)) {
        Err(RtcStorageError::MissingProviderWebhookEvent { webhook_event_id }) => assert_eq!(webhook_event_id, "webhook-event-7"),
        other => panic!("unexpected {other:?}"),
    }
    assert_eq!(recorded_query_job(Some("job"), "job-1".to_string()).unwrap(), "job");
    match recorded_query_job::<u8>(None, "job-1".to_string()) {
        Err(RtcStorageError::MissingProviderQueryJob { provider_query_job_id }) => assert_eq!(provider_query_job_id, "job-1"),
        other => panic!("unexpected {other:?}"),
    }
}

#[test]
fn json_columns_round_trip_through_storage_text() {
    let doc = deserialize_json_text(r#"{"roomState":"ended","count":2}"#.to_string()).unwrap();
    assert_eq!(serialize_json(&doc).unwrap(), r#"{"count":2,"roomState":"ended"}"#);
    match deserialize_json_text("[1,".to_string()) {
        Err(RtcStorageError::Json(message)) => assert!(!message.is_empty()),
        other => panic!("unexpected {other:?}"),
    }
}
