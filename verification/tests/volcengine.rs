use sdkwork_rtc::config::VolcengineRtcProviderConfig;
use sdkwork_rtc::credential::generate_volcengine_rtc_token;
use sdkwork_rtc::domain::{RtcProviderQueryKind, RtcProviderQueryRequest};
use sdkwork_rtc::error::RtcContractError;
use sdkwork_rtc::open_api::{
    build_signed_volcengine_request, canonical_query, percent_encode, request_snapshot,
    volcengine_action, volcengine_signing_time, VolcengineRtcOpenApiExecutor,
    VolcengineRtcOpenApiRequest, VolcengineRtcOpenApiResponse,
};
use sdkwork_rtc::volcengine::{
    create_volcengine_rtc_provider_plugin_factory, query_provider_state_at, synced_query_result,
    VolcengineRtcProvider,
};
use std::sync::{Arc, Mutex};

fn config(with_keys: bool) -> VolcengineRtcProviderConfig {
    VolcengineRtcProviderConfig {
        access_endpoint: "wss://rtc.volcengine.local/session".into(),
        region: "cn-north-1".into(),
        app_id: Some("app-1".into()),
        app_key: Some("key-1".into()),
        credential_ttl_seconds: 3600,
        access_key_id: if with_keys { Some("AKLT-1".into()) } else { None },
        secret_access_key: if with_keys { Some("secret-1".into()) } else { None },
        api_endpoint: "https://rtc.volcengineapi.com".into(),
        api_host: "rtc.volcengineapi.com".into(),
        api_version: "2023-11-01".into(),
    }
}

fn room_query() -> RtcProviderQueryRequest {
    RtcProviderQueryRequest {
        provider: "volcengine".into(),
        provider_profile_id: Some("profile-volcengine".into()),
        query_kind: RtcProviderQueryKind::RoomState,
        room_id: Some("room 1".into()),
        rtc_session_id: Some("rtc_demo".into()),
        provider_session_id: Some("volcengine:rtc_demo".into()),
        cursor: None,
    }
}

#[derive(Default)]
struct CapturingExecutor {
    last_request: Mutex<Option<VolcengineRtcOpenApiRequest>>,
}

impl VolcengineRtcOpenApiExecutor for CapturingExecutor {
    fn execute(
        &self,
        request: &VolcengineRtcOpenApiRequest,
    ) -> Result<VolcengineRtcOpenApiResponse, RtcContractError> {
        *self.last_request.lock().expect("lock request") = Some(request.clone());
        Ok(VolcengineRtcOpenApiResponse { status_code: 200, body: r#"{"Result":{"RoomId":"room 1"}}"#.into() })
    }
}

struct FailingExecutor;

impl VolcengineRtcOpenApiExecutor for FailingExecutor {
    fn execute(
        &self,
        _request: &VolcengineRtcOpenApiRequest,
    ) -> Result<VolcengineRtcOpenApiResponse, RtcContractError> {
        Err(RtcContractError::Unavailable("volcengine api unreachable".into()))
    }
}

#[test]
fn volcengine_actions_follow_query_kind() {
    assert_eq!(volcengine_action(RtcProviderQueryKind::RoomOnlineUsers), "GetRoomOnlineUsers");
    assert_eq!(volcengine_action(RtcProviderQueryKind::RoomState), "GetRoomInfo");
    assert_eq!(volcengine_action(RtcProviderQueryKind::MediaSessionState), "GetRoomInfo");
    assert_eq!(volcengine_action(RtcProviderQueryKind::RecordingArtifacts), "GetRecordTask");
    assert_eq!(volcengine_action(RtcProviderQueryKind::QualitySamples), "DescribeRealtimeQualityMetric");
}

#[test]
fn percent_encoding_keeps_unreserved_bytes_only() {
    assert_eq!(percent_encode("room 1/é"), "room%201%2F%C3%A9");
    assert_eq!(percent_encode("A-z_0.9~"), "A-z_0.9~");
    assert_eq!(
        canonical_query(&[("Action".to_string(), "GetRoomInfo".to_string()), ("RoomId".to_string(), "room 1".to_string())]),
        "Action=GetRoomInfo&RoomId=room%201"
    );
    assert_eq!(canonical_query(&[]), "");
}

#[test]
fn signing_time_is_cut_from_the_timestamp() {
    assert_eq!(
        volcengine_signing_time("2026-06-10T08:09:10.123Z"),
        ("20260610".to_string(), "20260610T080910Z".to_string())
    );
    assert_eq!(volcengine_signing_time("short"), ("19700101".to_string(), "19700101T000000Z".to_string()));
}

#[test]
fn signed_request_matches_the_reference_signature() {
    let request = build_signed_volcengine_request(&config(true), &room_query(), "GetRoomInfo", "2026-06-10T00:00:00.000Z")
        .expect("configured credentials should sign");
    assert_eq!(request.method, "GET");
    assert_eq!(request.endpoint, "https://rtc.volcengineapi.com");
    assert_eq!(request.host, "rtc.volcengineapi.com");
    assert_eq!(request.path, "/");
    assert_eq!(request.action, "GetRoomInfo");
    assert_eq!(request.body, "");
    assert_eq!(
        request.query,
        vec![
            ("Action".to_string(), "GetRoomInfo".to_string()),
            ("AppId".to_string(), "app-1".to_string()),
            ("RoomId".to_string(), "room 1".to_string()),
            ("Version".to_string(), "2023-11-01".to_string()),
        ]
    );
    let payload_hash = "e3b0c44298fc1c149afbf4c8996fb92427ae41e4649b934ca495991b7852b855";
    assert_eq!(
        request.headers,
        vec![
            ("Content-Type".to_string(), "application/json".to_string()),
            ("Host".to_string(), "rtc.volcengineapi.com".to_string()),
            ("X-Date".to_string(), "20260610T000000Z".to_string()),
            ("X-Content-Sha256".to_string(), payload_hash.to_string()),
            (
                "Authorization".to_string(),
                "HMAC-SHA256 Credential=AKLT-1/20260610/cn-north-1/rtc/request, SignedHeaders=content-type;host;x-content-sha256;x-date, Signature=e23b442ee3bc1ceb416cc66eb671b36ee75df40ed665e952bd076f36b3a8ac20".to_string()
            ),
        ]
    );
}

#[test]
fn signing_requires_access_keys() {
    match build_signed_volcengine_request(&config(false), &room_query(), "GetRoomInfo", "2026-06-10T00:00:00.000Z") {
        Err(RtcContractError::Unavailable(message)) => assert_eq!(
            message,
            "volcengine active query requires SDKWORK_RTC_VOLCENGINE_ACCESS_KEY_ID or provider profile credentials"
        ),
        other => panic!("unexpected outcome {other:?}"),
    }
}

#[test]
fn request_snapshot_records_request_without_header_values() {
    let request = VolcengineRtcOpenApiRequest {
        method: "GET".into(),
        endpoint: "https://rtc.volcengineapi.com".into(),
        host: "rtc.volcengineapi.com".into(),
        path: "/".into(),
        action: "GetRoomInfo".into(),
        headers: vec![("Authorization".into(), "secret-signature".into())],
        query: vec![("Action".into(), "GetRoomInfo".into())],
        body: String::new(),
    };
    let response = VolcengineRtcOpenApiResponse { status_code: 200, body: "{}".into() };
    assert_eq!(
        request_snapshot(&request, Some(&response)),
        r#"{"provider":"volcengine","providerRequest":{"action":"GetRoomInfo","endpoint":"https://rtc.volcengineapi.com","host":"rtc.volcengineapi.com","method":"GET","path":"/","query":[["Action","GetRoomInfo"]],"signedHeaderNames":["Authorization"]},"providerResponse":{"body":"{}","statusCode":200}}"#
    );
    assert!(request_snapshot(&request, None).ends_with(r#""providerResponse":null}"#));
}

#[test]
fn query_without_executor_is_ready() {
    let result = query_provider_state_at(&config(true), None, room_query(), "2026-06-10T00:00:00.000Z".into()).unwrap();
    assert_eq!(result.status, "ready");
    assert_eq!(result.raw_provider_action, "GetRoomInfo");
    assert_eq!(
        result.result_snapshot_json,
        r#"{"action":"GetRoomInfo","execution":"provider_executor_not_configured","provider":"volcengine","providerSessionId":"volcengine:rtc_demo","region":"cn-north-1","roomId":"room 1","rtcSessionId":"rtc_demo"}"#
    );
}

#[test]
fn query_with_executor_is_synced_and_keeps_secrets_out() {
    let executor = CapturingExecutor::default();
    let result = query_provider_state_at(
        &config(true),
        Some(&executor as &dyn VolcengineRtcOpenApiExecutor),
        room_query(),
        "2026-06-10T00:00:00.000Z".into(),
    )
    .expect("signed query should succeed");
    let sent = executor.last_request.lock().unwrap().clone().expect("executor should receive a request");
    assert_eq!(sent.action, "GetRoomInfo");
    assert_eq!(result.status, "synced");
    assert!(result.result_snapshot_json.contains("\"providerRequest\""));
    assert!(result.result_snapshot_json.contains("\"statusCode\":200"));
    assert!(!result.result_snapshot_json.contains("secret-1"));
    assert!(!result.result_snapshot_json.contains("Signature="));
    let again = synced_query_result(
        room_query(),
        &sent,
        &VolcengineRtcOpenApiResponse { status_code: 200, body: r#"{"Result":{"RoomId":"room 1"}}"#.into() },
        "2026-06-10T00:00:00.000Z".into(),
    );
    assert_eq!(again.result_snapshot_json, result.result_snapshot_json);
}

#[test]
fn query_with_executor_passes_on_executor_and_signing_errors() {
    let failing = FailingExecutor;
    match query_provider_state_at(&config(true), Some(&failing as &dyn VolcengineRtcOpenApiExecutor), room_query(), "2026-06-10T00:00:00.000Z".into()) {
        Err(RtcContractError::Unavailable(message)) => assert_eq!(message, "volcengine api unreachable"),
        other => panic!("unexpected outcome {other:?}"),
    }
    let executor = CapturingExecutor::default();
    assert!(matches!(
        query_provider_state_at(&config(false), Some(&executor as &dyn VolcengineRtcOpenApiExecutor), room_query(), "2026-06-10T00:00:00.000Z".into()),
        Err(RtcContractError::Unavailable(_))
    ));
    assert!(executor.last_request.lock().unwrap().is_none());
}

#[test]
fn provider_from_factory_uses_its_executor() {
    let executor = Arc::new(CapturingExecutor::default());
    let factory = create_volcengine_rtc_provider_plugin_factory(config(true)).with_open_api_executor(executor.clone());
    let provider: VolcengineRtcProvider = factory.create_provider();
    let result = provider.query_provider_state(room_query()).unwrap();
    assert_eq!(result.status, "synced");
    assert!(executor.last_request.lock().unwrap().is_some());
    let plain = VolcengineRtcProvider::new(config(true));
    assert_eq!(plain.query_provider_state(room_query()).unwrap().status, "ready");
}

#[test]
fn participant_token_matches_the_reference_encoding() {
    let (token, expire_at) = generate_volcengine_rtc_token(&config(true), "room-1", "user-1", 1_781_000_000)
        .expect("configured app credentials should sign");
    assert_eq!(expire_at, 1_781_003_600);
    assert_eq!(
        token,
        "001app-1PAA9CaO8QOcnalD1J2oGAHJvb20tMQYAdXNlci0xBQAAAFD1J2oBAFD1J2oCAFD1J2oDAFD1J2oEAFD1J2ogAFwF1ZveR+zWDYdiEkwawCzdTRxocN5H5GTZ2HjEYwyr"
    );
}

#[test]
fn participant_token_requires_app_credentials() {
    let mut missing = config(true);
    missing.app_key = Some("   ".into());
    match generate_volcengine_rtc_token(&missing, "room-1", "user-1", 1_781_000_000) {
        Err(RtcContractError::Unavailable(message)) => assert_eq!(
            message,
            "volcengine participant credential requires SDKWORK_RTC_VOLCENGINE_APP_KEY or provider profile credentials"
        ),
        other => panic!("unexpected outcome {other:?}"),
    }
}

#[test]
fn missing_keys_are_reported_whatever_the_signing_time() {
    match build_signed_volcengine_request(&config(false), &room_query(), "GetRoomInfo", "２０２６-06-10T00:00:00.000Z") {
        Err(RtcContractError::Unavailable(message)) => assert!(message.contains("SDKWORK_RTC_VOLCENGINE_ACCESS_KEY_ID")),
        other => panic!("unexpected {other:?}"),
    }
}

#[test]
fn factory_providers_share_the_factorys_executor() {
    let executor: Arc<dyn VolcengineRtcOpenApiExecutor> = Arc::new(CapturingExecutor::default());
    let factory = create_volcengine_rtc_provider_plugin_factory(config(true)).with_open_api_executor(executor.clone());
    let held = factory.create_provider().open_api_executor.expect("the provider holds the factory's executor");
    assert!(Arc::ptr_eq(&held, &executor));
}
