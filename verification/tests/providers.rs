use sdkwork_rtc::agora::{
    create_agora_rtc_provider_plugin_factory, AgoraRtcProvider, AgoraRtcProviderPluginFactory,
    AGORA_RTC_PLUGIN_ID,
};
use sdkwork_rtc::aliyun::{
    aliyun_query_action, create_aliyun_rtc_provider_plugin_factory, query_provider_state_at,
    AliyunRtcProvider, AliyunRtcProviderPluginFactory,
};
use sdkwork_rtc::config::{AgoraRtcProviderConfig, AliyunRtcProviderConfig, LivekitRtcProviderConfig};
use sdkwork_rtc::domain::{RtcMediaSessionMode, RtcProviderQueryKind, RtcProviderQueryRequest};
use sdkwork_rtc::livekit::{
    create_livekit_rtc_provider_plugin_factory, LivekitRtcProvider, LIVEKIT_RTC_PLUGIN_ID,
};
use sdkwork_rtc::media::RtcMediaSource;
use sdkwork_rtc::provider_core::{ProviderDomain, RtcCreateMediaSessionRequest};

fn agora_config() -> AgoraRtcProviderConfig {
    AgoraRtcProviderConfig {
        access_endpoint: "wss://rtc.agora.local/session".into(),
        region: "global".into(),
    }
}

fn livekit_config() -> LivekitRtcProviderConfig {
    LivekitRtcProviderConfig {
        access_endpoint: "wss://rtc.livekit.local/session".into(),
        region: "self-hosted".into(),
    }
}

fn session_request(rtc_session_id: &str, region: Option<&str>) -> RtcCreateMediaSessionRequest {
    RtcCreateMediaSessionRequest {
        tenant_id: "t_demo".into(),
        rtc_session_id: rtc_session_id.into(),
        media_mode: RtcMediaSessionMode::Live,
        room_id: Some(format!("room_{rtc_session_id}")),
        region: region.map(str::to_string),
    }
}

fn required_capabilities() -> Vec<String> {
    [
        "session",
        "credential",
        "provider.webhook",
        "health",
        "media.audio",
        "media.video",
        "live.broadcast",
        "live.audience",
        "provider.event-normalization",
    ]
    .iter()
    .map(|s| s.to_string())
    .collect()
}

#[test]
fn test_agora_rtc_provider_implements_contract_surface() {
    let provider = AgoraRtcProvider::new(AgoraRtcProviderConfig {
        access_endpoint: "wss://rtc.agora.local/session".into(),
        region: "global".into(),
    });

    let descriptor = provider.descriptor();
    assert_eq!(descriptor.plugin_id, AGORA_RTC_PLUGIN_ID);
    assert_eq!(descriptor.provider_kind, "agora");
    assert_eq!(
        descriptor.optional_capabilities,
        vec![
            "recording",
            "artifact",
            "screen-share",
            "cloud-mix",
            "data-channel",
            "spatial-audio",
            "e2ee"
        ]
    );

    let session = provider
        .create_session(RtcCreateMediaSessionRequest {
            tenant_id: "t_demo".into(),
            rtc_session_id: "rtc_demo".into(),
            media_mode: RtcMediaSessionMode::Live,
            room_id: None,
            region: None,
        })
        .expect("agora rtc create_session should succeed");
    assert_eq!(session.provider_session_id, "agora:rtc_demo");
    assert_eq!(
        session.access_endpoint.as_deref(),
        Some("wss://rtc.agora.local/session")
    );
    assert_eq!(session.region.as_deref(), Some("global"));

    let credential = provider
        .issue_participant_credential("t_demo", "rtc_demo", "u_peer")
        .expect("agora rtc credential should succeed");
    assert_eq!(credential.credential, "agora-token:t_demo:rtc_demo:u_peer");

    let health = provider.provider_health_snapshot();
    assert_eq!(health.plugin_id, AGORA_RTC_PLUGIN_ID);
    assert_eq!(health.status, "healthy");
    let provider_kind = health
        .details
        .iter()
        .find(|(key, _)| key == "providerKind")
        .map(|(_, value)| value.as_str());
    assert_eq!(provider_kind, Some("agora"));
}

#[test]
fn agora_descriptor_declares_plugin_identity_and_capabilities() {
    let provider = AgoraRtcProvider::new(agora_config());
    let descriptor = provider.descriptor();
    assert_eq!(descriptor.plugin_id, AGORA_RTC_PLUGIN_ID);
    assert_eq!(descriptor.plugin_id, "rtc-agora");
    assert_eq!(descriptor.domain, ProviderDomain::Rtc);
    assert_eq!(descriptor.provider_kind, "agora");
    assert_eq!(descriptor.display_name, "Agora RTC");
    assert_eq!(descriptor.required_capabilities, required_capabilities());
    assert_eq!(
        descriptor.optional_capabilities,
        vec!["recording", "artifact", "screen-share", "cloud-mix", "data-channel", "spatial-audio", "e2ee"]
    );
}

#[test]
fn agora_session_uses_configured_endpoint_and_region() {
    let provider = AgoraRtcProvider::new(agora_config());
    let session = provider
        .create_session(session_request("rtc_demo", None))
        .expect("agora rtc create_session should succeed");
    assert_eq!(session.tenant_id, "t_demo");
    assert_eq!(session.rtc_session_id, "rtc_demo");
    assert_eq!(session.provider_session_id, "agora:rtc_demo");
    assert_eq!(session.access_endpoint.as_deref(), Some("wss://rtc.agora.local/session"));
    assert_eq!(session.region.as_deref(), Some("global"));
}

#[test]
fn agora_session_honors_requested_region_unless_blank() {
    let provider = AgoraRtcProvider::new(agora_config());
    let requested = provider.create_session(session_request("rtc_a", Some("eu-west"))).unwrap();
    assert_eq!(requested.region.as_deref(), Some("eu-west"));
    let blank = provider.create_session(session_request("rtc_b", Some("  \t"))).unwrap();
    assert_eq!(blank.region.as_deref(), Some("global"));
}

#[test]
fn agora_credentials_and_close() {
    let provider = AgoraRtcProvider::new(agora_config());
    let credential = provider
        .issue_participant_credential("t_demo", "rtc_demo", "u_peer")
        .expect("agora rtc credential should succeed");
    assert_eq!(credential.credential, "agora-token:t_demo:rtc_demo:u_peer");
    assert_eq!(credential.participant_id, "u_peer");
    assert_eq!(credential.expires_at.len(), 24);
    assert!(credential.expires_at.ends_with('Z'));
    let refreshed = provider.refresh_participant_credential("t_demo", "rtc_demo", "u_peer").unwrap();
    assert_eq!(refreshed.credential, credential.credential);
    assert!(provider.close_session("t_demo", "rtc_demo").unwrap());
}

#[test]
fn agora_health_snapshot_reports_configuration() {
    let provider = AgoraRtcProvider::new(agora_config());
    let health = provider.provider_health_snapshot();
    assert_eq!(health.plugin_id, AGORA_RTC_PLUGIN_ID);
    assert_eq!(health.status, "healthy");
    assert_eq!(
        health.details,
        vec![
            ("accessEndpoint".to_string(), "wss://rtc.agora.local/session".to_string()),
            ("providerKind".to_string(), "agora".to_string()),
            ("region".to_string(), "global".to_string()),
        ]
    );
    assert_eq!(health.checked_at.len(), 24);
}

#[test]
fn agora_factory_builds_providers_with_its_settings() {
    let factory: AgoraRtcProviderPluginFactory = create_agora_rtc_provider_plugin_factory(agora_config());
    let provider = factory.create_provider();
    assert_eq!(provider.descriptor(), factory.descriptor());
    assert_eq!(provider.config.region, "global");
    let direct = AgoraRtcProviderPluginFactory::new(agora_config());
    assert_eq!(direct.config.access_endpoint, "wss://rtc.agora.local/session");
}

#[test]
fn test_livekit_rtc_provider_factory_creates_standard_provider_plugin() {
    let factory = create_livekit_rtc_provider_plugin_factory(livekit_config());
    let descriptor = factory.descriptor();
    assert_eq!(descriptor.plugin_id, LIVEKIT_RTC_PLUGIN_ID);
    assert_eq!(descriptor.provider_kind, "livekit");
    let provider = factory.create_provider();
    assert_eq!(provider.descriptor(), descriptor);
    let session = provider.create_session(RtcCreateMediaSessionRequest {
        tenant_id: "t_demo".into(),
        rtc_session_id: "rtc_factory_demo".into(),
        media_mode: RtcMediaSessionMode::Video,
        room_id: Some("room_rtc_factory_demo".into()),
        region: Some("self-hosted".into()),
    })
    .expect("livekit rtc create_session should succeed for declared media mode");
    assert_eq!(session.provider_session_id, "livekit:rtc_factory_demo");
    assert_eq!(session.access_endpoint.as_deref(), Some("wss://rtc.livekit.local/session"));
    assert_eq!(session.region.as_deref(), Some("self-hosted"));
}

#[test]
fn test_livekit_rtc_provider_implements_contract_surface() {
    let provider = LivekitRtcProvider::new(livekit_config());
    let descriptor = provider.descriptor();
    assert_eq!(descriptor.plugin_id, LIVEKIT_RTC_PLUGIN_ID);
    assert_eq!(descriptor.provider_kind, "livekit");
    assert_eq!(descriptor.required_capabilities, required_capabilities());
    assert_eq!(
        descriptor.optional_capabilities,
        vec!["recording", "artifact", "screen-share", "data-channel", "transcription", "e2ee", "provider.active-query"]
    );
    for (mode, id) in [
        (RtcMediaSessionMode::Audio, "rtc_audio_demo"),
        (RtcMediaSessionMode::Video, "rtc_video_demo"),
        (RtcMediaSessionMode::Live, "rtc_live_demo"),
    ] {
        let session = provider
            .create_session(RtcCreateMediaSessionRequest {
                tenant_id: "t_demo".into(),
                rtc_session_id: id.into(),
                media_mode: mode,
                room_id: Some(format!("room_{id}")),
                region: Some("self-hosted".into()),
            })
            .unwrap();
        assert_eq!(session.provider_session_id, format!("livekit:{id}"));
        assert_eq!(session.access_endpoint.as_deref(), Some("wss://rtc.livekit.local/session"));
    }
    let overridden = provider
        .create_session(RtcCreateMediaSessionRequest {
            tenant_id: "t_demo".into(),
            rtc_session_id: "rtc_region_override_demo".into(),
            media_mode: RtcMediaSessionMode::Video,
            room_id: Some("room_rtc_region_override_demo".into()),
            region: Some("edge-shanghai".into()),
        })
        .expect("livekit rtc create_session should honor requested region");
    assert_eq!(overridden.region.as_deref(), Some("edge-shanghai"));

    let credential = provider
        .issue_participant_credential("t_demo", "rtc_demo", "u_peer")
        .expect("livekit rtc credential should succeed");
    assert_eq!(credential.credential, "livekit-token:t_demo:rtc_demo:u_peer");

    let artifact = provider
        .export_recording_artifact("t_demo", "rtc_demo")
        .expect("livekit rtc artifact export should succeed")
        .expect("livekit rtc artifact should exist");
    assert_eq!(artifact.drive.drive_uri, "drive://spaces/space_rtc_recordings/nodes/node_rtc_demo");
    assert_eq!(
        artifact.resource.uri.as_deref(),
        Some("drive://spaces/space_rtc_recordings/nodes/node_rtc_demo")
    );
    assert_eq!(artifact.media_role, "rtc_recording");

    let health = provider.provider_health_snapshot();
    assert_eq!(health.plugin_id, LIVEKIT_RTC_PLUGIN_ID);
    assert_eq!(health.status, "healthy");
    assert!(health
        .details
        .iter()
        .any(|(key, value)| key == "providerKind" && value == "livekit"));
}

fn aliyun_config() -> AliyunRtcProviderConfig {
    AliyunRtcProviderConfig {
        access_endpoint: "wss://rtc.aliyun.local/session".into(),
        region: "cn-hangzhou".into(),
    }
}

fn query(kind: RtcProviderQueryKind) -> RtcProviderQueryRequest {
    RtcProviderQueryRequest {
        provider: "aliyun".into(),
        provider_profile_id: Some("profile_aliyun".into()),
        query_kind: kind,
        room_id: Some("room_demo".into()),
        rtc_session_id: Some("rtc_demo".into()),
        provider_session_id: None,
        cursor: Some("page-2".into()),
    }
}

#[test]
fn aliyun_query_actions_follow_query_kind() {
    assert_eq!(aliyun_query_action(&query(RtcProviderQueryKind::RoomOnlineUsers)), "aliyun.channel.online-users.snapshot");
    assert_eq!(aliyun_query_action(&query(RtcProviderQueryKind::RoomState)), "aliyun.channel.state.snapshot");
    assert_eq!(aliyun_query_action(&query(RtcProviderQueryKind::MediaSessionState)), "aliyun.channel.state.snapshot");
    assert_eq!(aliyun_query_action(&query(RtcProviderQueryKind::RecordingArtifacts)), "aliyun.cloud-recording.artifacts.snapshot");
    assert_eq!(aliyun_query_action(&query(RtcProviderQueryKind::QualitySamples)), "aliyun.Quality.samples.snapshot");
}

#[test]
fn aliyun_query_returns_ready_snapshot() {
    let result = query_provider_state_at(
        &aliyun_config(),
        query(RtcProviderQueryKind::RoomState),
        "2026-06-10T00:00:00.000Z".into(),
    )
    .expect("aliyun query should answer");
    assert_eq!(result.provider, "aliyun");
    assert_eq!(result.provider_profile_id.as_deref(), Some("profile_aliyun"));
    assert_eq!(result.query_kind, RtcProviderQueryKind::RoomState);
    assert_eq!(result.room_id.as_deref(), Some("room_demo"));
    assert_eq!(result.status, "ready");
    assert_eq!(result.raw_provider_action, "aliyun.channel.state.snapshot");
    assert_eq!(result.next_cursor.as_deref(), Some("page-2"));
    assert_eq!(result.queried_at, "2026-06-10T00:00:00.000Z");
    assert_eq!(
        result.result_snapshot_json,
        r#"{"action":"aliyun.channel.state.snapshot","execution":"provider_executor_not_configured","provider":"aliyun","providerSessionId":null,"region":"cn-hangzhou","roomId":"room_demo","rtcSessionId":"rtc_demo"}"#
    );
}

#[test]
fn aliyun_provider_exports_drive_backed_recording() {
    let factory: AliyunRtcProviderPluginFactory = create_aliyun_rtc_provider_plugin_factory(aliyun_config());
    let provider: AliyunRtcProvider = factory.create_provider();
    let artifact = provider.export_recording_artifact("t_demo", "rtc_demo").unwrap().unwrap();
    assert_eq!(artifact.tenant_id, "t_demo");
    assert_eq!(artifact.drive.space_id, "space_rtc_recordings");
    assert_eq!(artifact.drive.node_id, "node_rtc_demo");
    assert_eq!(artifact.drive.node_version, None);
    assert_eq!(artifact.resource.source, RtcMediaSource::Drive);
    assert_eq!(artifact.resource.id.as_deref(), Some("node_rtc_demo"));
    let answered = provider.query_provider_state(query(RtcProviderQueryKind::QualitySamples)).unwrap();
    assert_eq!(answered.raw_provider_action, "aliyun.Quality.samples.snapshot");
    assert_eq!(answered.queried_at.len(), 24);
}
