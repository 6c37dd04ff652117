use sdkwork_rtc::config::TencentRtcProviderConfig;
use sdkwork_rtc::domain::RtcMediaSessionMode;
use sdkwork_rtc::error::RtcContractError;
use sdkwork_rtc::provider_core::RtcCreateMediaSessionRequest;
use sdkwork_rtc::tencent::{
    create_tencent_rtc_provider_plugin_factory, parse_u32, TencentRtcOpenApiExecutor,
    TencentRtcOpenApiRequest, TencentRtcOpenApiResponse, TencentRtcProvider, TENCENT_RTC_PLUGIN_ID,
};
use std::collections::HashMap;
use std::sync::Arc;

fn config() -> TencentRtcProviderConfig {
    TencentRtcProviderConfig {
        access_endpoint: "wss://rtc.tencent.local/session".into(),
        region: "ap-guangzhou".into(),
        api_endpoint: "https://trtc.tencentcloudapi.com".into(),
        api_host: "trtc.tencentcloudapi.com".into(),
        api_version: "2019-07-22".into(),
        sdk_app_id: None,
        sdk_secret_key: None,
        secret_id: None,
        secret_key: None,
        credential_ttl_seconds: 3_600,
    }
}

struct NullExecutor;

impl TencentRtcOpenApiExecutor for NullExecutor {
    fn execute(&self, _request: &TencentRtcOpenApiRequest) -> Result<TencentRtcOpenApiResponse, RtcContractError> {
        Ok(TencentRtcOpenApiResponse { status_code: 200, body: "{}".into() })
    }
}

#[test]
fn test_tencent_rtc_provider_factory_creates_standard_provider_plugin() {
    let factory = create_tencent_rtc_provider_plugin_factory(config());
    let descriptor = factory.descriptor();
    assert_eq!(descriptor.plugin_id, TENCENT_RTC_PLUGIN_ID);
    assert_eq!(descriptor.provider_kind, "tencent");
    let provider = factory.create_provider();
    assert_eq!(provider.descriptor(), descriptor);
    let session = provider
        .create_session(RtcCreateMediaSessionRequest {
            tenant_id: "t_demo".into(),
            rtc_session_id: "rtc_factory_demo".into(),
            media_mode: RtcMediaSessionMode::Video,
            room_id: Some("room_rtc_factory_demo".into()),
            region: Some("ap-guangzhou".into()),
        })
        .expect("tencent rtc create_session should succeed for declared media mode");
    assert_eq!(session.provider_session_id, "tencent:rtc_factory_demo");
    assert_eq!(session.access_endpoint.as_deref(), Some("wss://rtc.tencent.local/session"));
    assert_eq!(session.region.as_deref(), Some("ap-guangzhou"));
}

#[test]
fn tencent_descriptor_declares_capabilities() {
    let descriptor = TencentRtcProvider::new(config()).descriptor();
    assert_eq!(descriptor.display_name, "Tencent RTC");
    assert_eq!(
        descriptor.optional_capabilities,
        vec!["recording", "artifact", "screen-share", "cdn-relay", "provider.active-query"]
    );
    assert_eq!(descriptor.required_capabilities.len(), 9);
}

#[test]
fn tencent_factory_passes_its_executor_on() {
    let executor: Arc<dyn TencentRtcOpenApiExecutor> = Arc::new(NullExecutor);
    let factory = create_tencent_rtc_provider_plugin_factory(config()).with_open_api_executor(executor.clone());
    let held = factory.create_provider().open_api_executor.expect("the provider holds the factory's executor");
    assert!(Arc::ptr_eq(&held, &executor));
    let replaced: Arc<dyn TencentRtcOpenApiExecutor> = Arc::new(NullExecutor);
    let refactored = factory.with_open_api_executor(replaced.clone());
    assert!(Arc::ptr_eq(&refactored.create_provider().open_api_executor.unwrap(), &replaced));
    assert!(create_tencent_rtc_provider_plugin_factory(config()).create_provider().open_api_executor.is_none());
    let provider = TencentRtcProvider::new(config()).with_open_api_executor(Arc::new(NullExecutor));
    assert_eq!(provider.config, config());
}

#[test]
fn parse_u32_reads_decimal_text_like_std() {
    for text in ["0", "7", "+42", "3600", "0004294967295", "4294967295", "", "+", "-1", "4294967296", "12a", " 1", "99999999999999999999"] {
        assert_eq!(parse_u32(text), text.parse::<u32>().ok(), "parsing {text:?}");
    }
}

#[test]
fn tencent_config_defaults_when_nothing_is_set() {
    let settings = TencentRtcProviderConfig::from_lookup(|_| None);
    assert_eq!(settings, config());
}

#[test]
fn tencent_config_reads_set_values() {
    let values = HashMap::from([
        ("SDKWORK_RTC_TENCENT_ACCESS_ENDPOINT".to_string(), "wss://edge/session".to_string()),
        ("SDKWORK_RTC_TENCENT_REGION".to_string(), "   ".to_string()),
        ("SDKWORK_RTC_TENCENT_SDK_APP_ID".to_string(), "  1400000000 ".to_string()),
        ("SDKWORK_RTC_TENCENT_SECRET_KEY".to_string(), "   ".to_string()),
        ("SDKWORK_RTC_TENCENT_CREDENTIAL_TTL_SECONDS".to_string(), "0".to_string()),
    ]);
    let settings = TencentRtcProviderConfig::from_lookup(|key| values.get(key).cloned());
    assert_eq!(settings.access_endpoint, "wss://edge/session");
    assert_eq!(settings.region, "ap-guangzhou");
    assert_eq!(settings.sdk_app_id.as_deref(), Some("1400000000"));
    assert_eq!(settings.secret_key, None);
    assert_eq!(settings.credential_ttl_seconds, 3_600);
    let ttl = HashMap::from([("SDKWORK_RTC_TENCENT_CREDENTIAL_TTL_SECONDS".to_string(), "+120".to_string())]);
    assert_eq!(TencentRtcProviderConfig::from_lookup(|key| ttl.get(key).cloned()).credential_ttl_seconds, 120);
}
