use sdkwork_rtc::calendar::format_unix_seconds_rfc3339;
use sdkwork_rtc::config::VolcengineRtcProviderConfig;
use sdkwork_rtc::domain::{RtcProviderQueryKind, RtcProviderQueryRequest};
use sdkwork_rtc::fields::format_provider_session_id;
use sdkwork_rtc::ids::{denormalize_region, normalize_region};
use sdkwork_rtc::media::{validate_rtc_media_artifact_drive_snapshot, RtcMediaArtifact, RtcRecordingArtifact};
use sdkwork_rtc::open_api::{build_signed_volcengine_request, request_snapshot};
use sdkwork_rtc::provider_core::{open_session_handle, RtcCreateMediaSessionRequest};
use sdkwork_rtc::domain::RtcMediaSessionMode;
use sdkwork_rtc::storage_values::{provider_account_status_from_key, validate_idempotency_claim_match, RtcMediaSessionIdempotencyRecord};
use sdkwork_rtc::provider_account::RtcProviderAccountStatus;

#[test]
fn region_read_back_is_trimmed_and_stable() {
    for region in ["cn-beijing", "  ap-guangzhou\t", "   ", ""] {
        let stored = normalize_region(Some(region));
        let read = denormalize_region(stored.clone());
        assert_eq!(read.clone(), if region.trim().is_empty() { None } else { Some(region.trim().to_string()) });
        if let Some(r) = read {
            assert_eq!(normalize_region(Some(r.as_str())), r);
        }
    }
}

#[test]
fn drive_backed_recordings_always_pass_the_snapshot_check() {
    for version in [None, Some("7".to_string())] {
        let recording = RtcRecordingArtifact::drive_backed_recording("t", "s", "space", "node".to_string(), version);
        let artifact = RtcMediaArtifact { id: "a".into(), drive: recording.drive, resource: recording.resource, media_role: recording.media_role };
        assert!(validate_rtc_media_artifact_drive_snapshot(&artifact).is_ok());
    }
}

#[test]
fn webhook_session_ids_match_session_handles() {
    let handle = open_session_handle(
        "livekit",
        "wss://rtc.livekit.local/session",
        "self-hosted",
        RtcCreateMediaSessionRequest {
            tenant_id: "t".into(),
            rtc_session_id: "rtc_1".into(),
            media_mode: RtcMediaSessionMode::Audio,
            room_id: None,
            region: None,
        },
    );
    assert_eq!(handle.provider_session_id, format_provider_session_id("livekit", "rtc_1"));
    assert_eq!(handle.region.as_deref(), Some("self-hosted"));
}

#[test]
fn snapshots_do_not_depend_on_signing_secrets() {
    let request = RtcProviderQueryRequest {
        provider: "volcengine".into(),
        provider_profile_id: None,
        query_kind: RtcProviderQueryKind::RoomState,
        room_id: Some("room-1".into()),
        rtc_session_id: None,
        provider_session_id: None,
        cursor: Some("next".into()),
    };
    let config = |key: &str, secret: &str| VolcengineRtcProviderConfig {
        access_endpoint: "wss://a".into(),
        region: "cn-north-1".into(),
        app_id: Some("app-1".into()),
        app_key: None,
        credential_ttl_seconds: 60,
        access_key_id: Some(key.into()),
        secret_access_key: Some(secret.into()),
        api_endpoint: "https://rtc.volcengineapi.com".into(),
        api_host: "rtc.volcengineapi.com".into(),
        api_version: "2023-11-01".into(),
    };
    let first = build_signed_volcengine_request(&config("AK1", "secret-one"), &request, "GetRoomInfo", "2026-06-10T00:00:00.000Z").unwrap();
    let second = build_signed_volcengine_request(&config("AK2", "secret-two"), &request, "GetRoomInfo", "2026-06-10T00:00:00.000Z").unwrap();
    assert_ne!(first.headers, second.headers);
    assert_eq!(request_snapshot(&first, None), request_snapshot(&second, None));
    assert!(!request_snapshot(&first, None).contains("secret-one"));
}

#[test]
fn reclaiming_with_the_same_claim_matches() {
    let record = RtcMediaSessionIdempotencyRecord {
        id: "i".into(),
        tenant_id: "1".into(),
        organization_id: "2".into(),
        idempotency_key: "k".into(),
        media_session_id: "s".into(),
        payload_hash: "h".into(),
        response_json: "{}".into(),
        created_at: "t".into(),
    };
    assert!(validate_idempotency_claim_match(&record, &record.clone()).is_ok());
}

#[test]
fn status_names_select_their_status_with_padding() {
    assert_eq!(provider_account_status_from_key(Some("\u{3000}archived ")).unwrap(), Some(RtcProviderAccountStatus::Archived));
}

#[test]
fn timestamps_are_fixed_width_and_ordered_like_their_instants() {
    let instants = [0u32, 59, 60, 3_599, 86_399, 86_400, 951_782_400, 1_781_049_600, u32::MAX - 1, u32::MAX];
    for window in instants.windows(2) {
        let earlier = format_unix_seconds_rfc3339(window[0]);
        let later = format_unix_seconds_rfc3339(window[1]);
        assert_eq!(earlier.len(), 24);
        assert!(earlier.is_ascii());
        assert!(earlier < later, "{earlier} < {later}");
    }
    assert_eq!(format_unix_seconds_rfc3339(951_782_400), "2000-02-29T00:00:00.000Z");
    assert_eq!(format_unix_seconds_rfc3339(u32::MAX), "2106-02-07T06:28:15.000Z");
}

#[test]
fn only_the_signature_depends_on_the_secret() {
    let request = RtcProviderQueryRequest {
        provider: "volcengine".into(),
        provider_profile_id: None,
        query_kind: RtcProviderQueryKind::RoomState,
        room_id: Some("room-1".into()),
        rtc_session_id: None,
        provider_session_id: None,
        cursor: None,
    };
    let config = |secret: &str| VolcengineRtcProviderConfig {
        access_endpoint: "wss://rtc.volcengine.local".into(),
        region: "cn-north-1".into(),
        app_id: Some("app-1".into()),
        app_key: None,
        credential_ttl_seconds: 3600,
        access_key_id: Some("AK".into()),
        secret_access_key: Some(secret.into()),
        api_endpoint: "https://rtc.volcengineapi.com".into(),
        api_host: "rtc.volcengineapi.com".into(),
        api_version: "2023-11-01".into(),
    };
    let a = build_signed_volcengine_request(&config("one"), &request, "GetRoomInfo", "2026-06-10T00:00:00.000Z").unwrap();
    let b = build_signed_volcengine_request(&config("two"), &request, "GetRoomInfo", "2026-06-10T00:00:00.000Z").unwrap();
    assert_eq!(a.query, b.query);
    assert_eq!(a.headers[..4], b.headers[..4]);
    let prefix = "HMAC-SHA256 Credential=AK/20260610/cn-north-1/rtc/request, SignedHeaders=content-type;host;x-content-sha256;x-date, Signature=";
    for signed in [&a, &b] {
        let authorization = &signed.headers[4].1;
        assert!(authorization.starts_with(prefix));
        let signature = &authorization[prefix.len()..];
        assert_eq!(signature.len(), 64);
        assert!(signature.chars().all(|c| c.is_ascii_digit() || ('a'..='f').contains(&c)));
    }
    assert_ne!(a.headers[4], b.headers[4]);
}
