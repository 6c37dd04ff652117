use sdkwork_rtc::config::LivekitRtcProviderConfig;
use sdkwork_rtc::domain::{RtcProviderEventKind, RtcProviderWebhookParseRequest};
use sdkwork_rtc::error::RtcContractError;
use sdkwork_rtc::fields::{format_provider_session_id, header_value};
use sdkwork_rtc::ids::rtc_provider_payload_hash;
use sdkwork_rtc::livekit::LivekitRtcProvider;
use sdkwork_rtc::volcengine_webhook;
use sdkwork_rtc::webhook::{livekit_event_kind, volcengine_event_kind};

fn livekit_request(received_at: &str, headers: Vec<(String, String)>, raw_payload: &str) -> RtcProviderWebhookParseRequest {
    RtcProviderWebhookParseRequest {
        provider: "livekit".into(),
        provider_profile_id: Some("profile_livekit".into()),
        received_at: received_at.into(),
        headers,
        raw_payload: raw_payload.into(),
    }
}

fn livekit() -> LivekitRtcProvider {
    LivekitRtcProvider::new(LivekitRtcProviderConfig {
        access_endpoint: "wss://rtc.livekit.local/session".into(),
        region: "self-hosted".into(),
    })
}

#[test]
fn test_livekit_rtc_provider_implements_webhook_and_active_query_surface() {
    let provider = livekit();
    let raw = r#"{"event":"participant_joined","id":"livekit-event-1","room":{"name":"room_demo","sid":"RM_demo"},"participant":{"identity":"u_guest","sid":"PA_guest"},"createdAt":1781000000}"#;
    let parsed = provider
        .parse_provider_webhook(livekit_request(
            "2026-06-10T00:00:00.000Z",
            vec![("Authorization".into(), "Bearer livekit-webhook-token".into())],
            raw,
        ))
        .expect("livekit webhook should parse");
    assert_eq!(parsed.provider, "livekit");
    assert_eq!(parsed.external_event_id.as_deref(), Some("livekit-event-1"));
    assert_eq!(parsed.event_kind, RtcProviderEventKind::ParticipantJoined);
    assert_eq!(parsed.room_id.as_deref(), Some("room_demo"));
    assert_eq!(parsed.participant_id.as_deref(), Some("u_guest"));
    assert_eq!(parsed.occurred_at.as_deref(), Some("1781000000"));
    assert_eq!(parsed.signature_header.as_deref(), Some("Bearer livekit-webhook-token"));
    assert_eq!(parsed.payload_hash, rtc_provider_payload_hash(raw));
    assert_eq!(parsed.received_at, "2026-06-10T00:00:00.000Z");

    let session_scoped = provider
        .parse_provider_webhook(livekit_request(
            "2026-06-10T00:00:00.500Z",
            vec![],
            r#"{"event":"room_finished","id":"livekit-session-event-1","room":{"name":"room_session"},"rtcSessionId":"rtc_session_webhook"}"#,
        ))
        .expect("livekit session-scoped webhook should parse");
    assert_eq!(session_scoped.event_kind, RtcProviderEventKind::RoomEnded);
    assert_eq!(session_scoped.rtc_session_id.as_deref(), Some("rtc_session_webhook"));
    assert_eq!(session_scoped.provider_session_id.as_deref(), Some("livekit:rtc_session_webhook"));
    assert_eq!(
        session_scoped.normalized_event_json,
        r#"{"eventKind":"room_ended","eventType":"room_finished","participantId":null,"provider":"livekit","providerProfileId":"profile_livekit","providerSessionId":"livekit:rtc_session_webhook","recordingId":null,"roomId":"room_session","rtcSessionId":"rtc_session_webhook"}"#
    );

    let egress = provider
        .parse_provider_webhook(livekit_request(
            "2026-06-10T00:00:01.000Z",
            vec![],
            r#"{"event":"egress_ended","id":"livekit-egress-event-1","room":{"name":"room_recording"},"egressInfo":{"egressId":"egress_1","roomName":"room_recording"}}"#,
        ))
        .expect("livekit egress webhook should parse");
    assert_eq!(egress.event_kind, RtcProviderEventKind::RecordingCompleted);
    assert_eq!(egress.room_id.as_deref(), Some("room_recording"));
    assert_eq!(egress.recording_id.as_deref(), Some("egress_1"));
}

#[test]
fn livekit_rejects_payloads_that_are_not_json() {
    match livekit().parse_provider_webhook(livekit_request("t", vec![], "not json")) {
        Err(RtcContractError::Conflict(message)) => assert!(message.starts_with("invalid livekit webhook payload: ")),
        other => panic!("unexpected {other:?}"),
    }
}

#[test]
fn volcengine_webhook_reads_nested_event_data() {
    let raw = r#"{"EventType":"UserJoinRoom","EventId":"volc-1","EventData":"{\"RoomId\":\"room-1\",\"UserId\":\"user-1\",\"SessionId\":\"volcengine:s1\"}","Timestamp":1781000000123}"#;
    let parsed = volcengine_webhook::parse_provider_webhook(RtcProviderWebhookParseRequest {
        provider: "volcengine".into(),
        provider_profile_id: None,
        received_at: "2026-06-10T00:00:00.000Z".into(),
        headers: vec![("x-volc-signature".into(), "sig".into())],
        raw_payload: raw.into(),
    })
    .expect("volcengine webhook should parse");
    assert_eq!(parsed.provider, "volcengine");
    assert_eq!(parsed.event_type, "UserJoinRoom");
    assert_eq!(parsed.event_kind, RtcProviderEventKind::ParticipantJoined);
    assert_eq!(parsed.external_event_id.as_deref(), Some("volc-1"));
    assert_eq!(parsed.room_id.as_deref(), Some("room-1"));
    assert_eq!(parsed.participant_id.as_deref(), Some("user-1"));
    assert_eq!(parsed.rtc_session_id.as_deref(), Some("volcengine:s1"));
    assert_eq!(parsed.provider_session_id.as_deref(), Some("volcengine:s1"));
    assert_eq!(parsed.occurred_at.as_deref(), Some("1781000000123"));
    assert_eq!(parsed.signature_header.as_deref(), Some("sig"));
}

#[test]
fn volcengine_webhook_without_event_type_is_unknown() {
    let parsed = volcengine_webhook::parse_provider_webhook(RtcProviderWebhookParseRequest {
        provider: "volcengine".into(),
        provider_profile_id: Some("profile-volcengine".into()),
        received_at: "t".into(),
        headers: vec![],
        raw_payload: r#"{"Sign":"payload-signature"}"#.into(),
    })
    .unwrap();
    assert_eq!(parsed.event_type, "unknown");
    assert_eq!(parsed.event_kind, RtcProviderEventKind::Unknown);
    assert_eq!(parsed.signature_header.as_deref(), Some("payload-signature"));
    assert_eq!(parsed.provider_session_id, None);
}

#[test]
fn event_kinds_are_classified_by_words() {
    assert_eq!(volcengine_event_kind("RecordStarted"), RtcProviderEventKind::RecordingStarted);
    assert_eq!(volcengine_event_kind("record_finish"), RtcProviderEventKind::RecordingCompleted);
    assert_eq!(volcengine_event_kind("RecordFailed"), RtcProviderEventKind::RecordingFailed);
    assert_eq!(volcengine_event_kind("RoomDestroy"), RtcProviderEventKind::RoomEnded);
    assert_eq!(volcengine_event_kind("RoomCreate"), RtcProviderEventKind::RoomStarted);
    assert_eq!(volcengine_event_kind("UserLeaveRoom"), RtcProviderEventKind::ParticipantLeft);
    assert_eq!(volcengine_event_kind("Heartbeat"), RtcProviderEventKind::Unknown);
    assert_eq!(livekit_event_kind("track_published"), RtcProviderEventKind::MediaTrackStarted);
    assert_eq!(livekit_event_kind("track_unpublished"), RtcProviderEventKind::MediaTrackStopped);
    assert_eq!(livekit_event_kind("EGRESS_STARTED"), RtcProviderEventKind::RecordingStarted);
    assert_eq!(livekit_event_kind("room_started"), RtcProviderEventKind::RoomStarted);
    assert_eq!(livekit_event_kind("participant_leave"), RtcProviderEventKind::ParticipantLeft);
    assert_eq!(livekit_event_kind("participant_left"), RtcProviderEventKind::Unknown);
}

#[test]
fn session_ids_and_headers() {
    assert_eq!(format_provider_session_id("livekit", "rtc_1"), "livekit:rtc_1");
    assert_eq!(format_provider_session_id("livekit", "agora:rtc_1"), "agora:rtc_1");
    let headers = vec![("Content-Type".to_string(), "json".to_string()), ("X-LK-SIGNATURE".to_string(), "s".to_string())];
    assert_eq!(header_value(&headers, &["LiveKit-Signature", "X-LK-Signature"]), Some("s".to_string()));
    assert_eq!(header_value(&headers, &["Authorization"]), None);
}
