use vstd::prelude::*;
use crate::calendar::{rfc3339_instant_text, utc_now_rfc3339_millis};
use crate::config::AgoraRtcProviderConfig;
use crate::error::RtcContractError;
use crate::provider_core::{
    DescriptorView, ProviderDomain, ProviderHealthSnapshot, ProviderPluginDescriptor,
    RtcCreateMediaSessionRequest, RtcParticipantCredential, RtcSessionHandle, health_details,
    healthy_snapshot_at, open_session_handle, pair_texts, placeholder_credential_at,
    placeholder_credential_fields, required_capability_names, rtc_provider_required_capabilities,
    session_handle_fields, strs,
};

verus! {

/// The plugin id of the Agora adapter.
pub const AGORA_RTC_PLUGIN_ID: &'static str = "rtc-agora";

/// The optional capabilities the Agora adapter declares.
pub open spec fn agora_optional_capability_names() -> Seq<Seq<char>> {
    seq![
        "recording"@,
        "artifact"@,
        "screen-share"@,
        "cloud-mix"@,
        "data-channel"@,
        "spatial-audio"@,
        "e2ee"@,
    ]
}

/// What the Agora adapter declares of itself.
pub open spec fn agora_descriptor() -> DescriptorView {
    DescriptorView {
        plugin_id: AGORA_RTC_PLUGIN_ID@,
        domain: ProviderDomain::Rtc,
        provider_kind: "agora"@,
        display_name: "Agora RTC"@,
        required_capabilities: required_capability_names(),
        optional_capabilities: agora_optional_capability_names(),
    }
}

/// The Agora RTC provider.
#[derive(Clone, Debug)]
pub struct AgoraRtcProvider {
    pub config: AgoraRtcProviderConfig,
}

impl AgoraRtcProvider {
    /// A provider with the given settings.
    pub fn new(config: AgoraRtcProviderConfig) -> (res: Self)
        ensures
            res.config@ == config@,
    {
        AgoraRtcProvider { config }
    }

    fn descriptor_with_defaults(&self) -> (res: ProviderPluginDescriptor)
        ensures
            res@ == agora_descriptor(),
    {
        let optional = [
            "recording",
            "artifact",
            "screen-share",
            "cloud-mix",
            "data-channel",
            "spatial-audio",
            "e2ee",
        ];
        assert(strs(optional@) =~= agora_optional_capability_names());
        let required = rtc_provider_required_capabilities();
        ProviderPluginDescriptor::new(AGORA_RTC_PLUGIN_ID, ProviderDomain::Rtc, "agora", "Agora RTC")
            .with_required_capabilities(&required)
            .with_optional_capabilities(&optional)
    }

    /// What the provider declares of itself.
    pub fn descriptor(&self) -> (res: ProviderPluginDescriptor)
        ensures
            res@ == agora_descriptor(),
    {
        self.descriptor_with_defaults()
    }

    /// Opens a session: the provider session id is `agora:{rtc_session_id}`, the endpoint
    /// is the configured one, and the region is the requested one unless absent or blank.
    pub fn create_session(&self, request: RtcCreateMediaSessionRequest) -> (res: Result<RtcSessionHandle, RtcContractError>)
        ensures
            res matches Ok(h) && session_handle_fields(
                h,
                "agora"@,
                self.config.access_endpoint@,
                self.config.region@,
                request,
            ),
    {
        Ok(open_session_handle("agora", self.config.access_endpoint.as_str(), self.config.region.as_str(), request))
    }

    /// Closes a session; Agora rooms close by themselves, so this always succeeds.
    pub fn close_session(&self, tenant_id: &str, rtc_session_id: &str) -> (res: Result<bool, RtcContractError>)
        ensures
            res matches Ok(closed) && closed,
    {
        Ok(true)
    }

    /// Issues `agora-token:{tenant_id}:{rtc_session_id}:{participant_id}`, stamped with
    /// the current time.
    pub fn issue_participant_credential(
        &self,
        tenant_id: &str,
        rtc_session_id: &str,
        participant_id: &str,
    ) -> (res: Result<RtcParticipantCredential, RtcContractError>)
        ensures
            res matches Ok(c) && placeholder_credential_fields(c, "agora"@, tenant_id@, rtc_session_id@, participant_id@)
                && exists|m: nat| c.expires_at@ == rfc3339_instant_text(m),
    {
        let now = utc_now_rfc3339_millis();
        Ok(placeholder_credential_at("agora", tenant_id, rtc_session_id, participant_id, now))
    }

    /// Refreshing issues a new credential in the same way.
    pub fn refresh_participant_credential(
        &self,
        tenant_id: &str,
        rtc_session_id: &str,
        participant_id: &str,
    ) -> (res: Result<RtcParticipantCredential, RtcContractError>)
        ensures
            res matches Ok(c) && placeholder_credential_fields(c, "agora"@, tenant_id@, rtc_session_id@, participant_id@)
                && exists|m: nat| c.expires_at@ == rfc3339_instant_text(m),
    {
        self.issue_participant_credential(tenant_id, rtc_session_id, participant_id)
    }

    /// The provider reports itself healthy with its kind, endpoint and region, stamped with
    /// the current time.
    pub fn provider_health_snapshot(&self) -> (res: ProviderHealthSnapshot)
        ensures
            res.plugin_id@ == AGORA_RTC_PLUGIN_ID@,
            res.status@ == "healthy"@,
            exists|m: nat| res.checked_at@ == rfc3339_instant_text(m),
            pair_texts(res.details@) == health_details("agora"@, self.config.access_endpoint@, self.config.region@),
    {
        let now = utc_now_rfc3339_millis();
        healthy_snapshot_at(
            AGORA_RTC_PLUGIN_ID,
            "agora",
            self.config.access_endpoint.as_str(),
            self.config.region.as_str(),
            now,
        )
    }
}

/// Builds Agora providers from one set of settings.
#[derive(Clone, Debug)]
pub struct AgoraRtcProviderPluginFactory {
    pub config: AgoraRtcProviderConfig,
}

impl AgoraRtcProviderPluginFactory {
    /// A factory for providers with the given settings.
    pub fn new(config: AgoraRtcProviderConfig) -> (res: Self)
        ensures
            res.config@ == config@,
    {
        AgoraRtcProviderPluginFactory { config }
    }

    /// What the providers this factory builds declare of themselves.
    pub fn descriptor(&self) -> (res: ProviderPluginDescriptor)
        ensures
            res@ == agora_descriptor(),
    {
        AgoraRtcProvider::new(self.config.duplicate()).descriptor()
    }

    /// A provider with the factory's settings.
    pub fn create_provider(&self) -> (res: AgoraRtcProvider)
        ensures
            res.config@ == self.config@,
    {
        AgoraRtcProvider::new(self.config.duplicate())
    }
}

/// A factory for Agora providers with the given settings.
pub fn create_agora_rtc_provider_plugin_factory(config: AgoraRtcProviderConfig) -> (res: AgoraRtcProviderPluginFactory)
    ensures
        res.config@ == config@,
{
    AgoraRtcProviderPluginFactory::new(config)
}

} // verus!
