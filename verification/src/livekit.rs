use vstd::prelude::*;
use crate::calendar::{rfc3339_instant_text, utc_now_rfc3339_millis};
use crate::config::LivekitRtcProviderConfig;
use crate::domain::{RtcProviderWebhookEvent, RtcProviderWebhookParseRequest};
use crate::error::RtcContractError;
use crate::livekit_webhook::webhook_outcome;
use crate::media::{drive_backed_fields, recording_node_id, RtcRecordingArtifact};
use crate::provider_core::{
    DescriptorView, ProviderDomain, ProviderHealthSnapshot, ProviderPluginDescriptor,
    RtcCreateMediaSessionRequest, RtcParticipantCredential, RtcSessionHandle, health_details,
    healthy_snapshot_at, open_session_handle, pair_texts, placeholder_credential_at,
    placeholder_credential_fields, required_capability_names, rtc_provider_required_capabilities,
    session_handle_fields, strs,
};

verus! {

/// The plugin id of the LiveKit adapter.
pub const LIVEKIT_RTC_PLUGIN_ID: &'static str = "rtc-livekit";

/// The optional capabilities the LiveKit adapter declares.
pub open spec fn livekit_optional_capability_names() -> Seq<Seq<char>> {
    seq![
        "recording"@,
        "artifact"@,
        "screen-share"@,
        "data-channel"@,
        "transcription"@,
        "e2ee"@,
        "provider.active-query"@,
    ]
}

/// What the LiveKit adapter declares of itself.
pub open spec fn livekit_descriptor() -> DescriptorView {
    DescriptorView {
        plugin_id: LIVEKIT_RTC_PLUGIN_ID@,
        domain: ProviderDomain::Rtc,
        provider_kind: "livekit"@,
        display_name: "LiveKit RTC"@,
        required_capabilities: required_capability_names(),
        optional_capabilities: livekit_optional_capability_names(),
    }
}

/// The LiveKit RTC provider.
#[derive(Clone, Debug)]
pub struct LivekitRtcProvider {
    pub config: LivekitRtcProviderConfig,
}

impl LivekitRtcProvider {
    /// A provider with the given settings.
    pub fn new(config: LivekitRtcProviderConfig) -> (res: Self)
        ensures
            res.config@ == config@,
    {
        LivekitRtcProvider { config }
    }

    /// What the provider declares of itself.
    pub fn descriptor(&self) -> (res: ProviderPluginDescriptor)
        ensures
            res@ == livekit_descriptor(),
    {
        let optional = [
            "recording",
            "artifact",
            "screen-share",
            "data-channel",
            "transcription",
            "e2ee",
            "provider.active-query",
        ];
        assert(strs(optional@) =~= livekit_optional_capability_names());
        let required = rtc_provider_required_capabilities();
        ProviderPluginDescriptor::new(LIVEKIT_RTC_PLUGIN_ID, ProviderDomain::Rtc, "livekit", "LiveKit RTC")
            .with_required_capabilities(&required)
            .with_optional_capabilities(&optional)
    }

    /// Opens a session: the provider session id is `livekit:{rtc_session_id}`, the
    /// endpoint is the configured one, and the region is the requested one unless absent
    /// or blank.
    pub fn create_session(&self, request: RtcCreateMediaSessionRequest) -> (res: Result<RtcSessionHandle, RtcContractError>)
        ensures
            res matches Ok(h) && session_handle_fields(
                h,
                "livekit"@,
                self.config.access_endpoint@,
                self.config.region@,
                request,
            ),
    {
        Ok(open_session_handle("livekit", self.config.access_endpoint.as_str(), self.config.region.as_str(), request))
    }

    /// Issues `livekit-token:{tenant_id}:{rtc_session_id}:{participant_id}`, stamped with
    /// the current time.
    pub fn issue_participant_credential(
        &self,
        tenant_id: &str,
        rtc_session_id: &str,
        participant_id: &str,
    ) -> (res: Result<RtcParticipantCredential, RtcContractError>)
        ensures
            res matches Ok(c) && placeholder_credential_fields(c, "livekit"@, tenant_id@, rtc_session_id@, participant_id@)
                && exists|m: nat| c.expires_at@ == rfc3339_instant_text(m),
    {
        let now = utc_now_rfc3339_millis();
        Ok(placeholder_credential_at("livekit", tenant_id, rtc_session_id, participant_id, now))
    }

    /// Parses and normalizes a LiveKit webhook delivery.
    pub fn parse_provider_webhook(&self, request: RtcProviderWebhookParseRequest) -> (res: Result<RtcProviderWebhookEvent, RtcContractError>)
        ensures
            match (res, webhook_outcome(request)) {
                (Ok(event), Ok(v)) => event@ == v,
                (Err(e), Err(fault)) => e@ == fault,
                _ => false,
            },
    {
        crate::livekit_webhook::parse_provider_webhook(request)
    }

    /// Exports the recording of a session as the Drive node `node_{rtc_session_id}` in the
    /// space `space_rtc_recordings`.
    pub fn export_recording_artifact(&self, tenant_id: &str, rtc_session_id: &str) -> (res: Result<Option<RtcRecordingArtifact>, RtcContractError>)
        ensures
            res matches Ok(Some(a)) && drive_backed_fields(
                a,
                tenant_id@,
                rtc_session_id@,
                "space_rtc_recordings"@,
                recording_node_id(rtc_session_id@),
                None,
            ),
    {
        crate::media::export_recording_artifact(tenant_id, rtc_session_id)
    }

    /// The provider reports itself healthy with its kind, endpoint and region, stamped with
    /// the current time.
    pub fn provider_health_snapshot(&self) -> (res: ProviderHealthSnapshot)
        ensures
            res.plugin_id@ == LIVEKIT_RTC_PLUGIN_ID@,
            res.status@ == "healthy"@,
            exists|m: nat| res.checked_at@ == rfc3339_instant_text(m),
            pair_texts(res.details@) == health_details("livekit"@, self.config.access_endpoint@, self.config.region@),
    {
        let now = utc_now_rfc3339_millis();
        healthy_snapshot_at(
            LIVEKIT_RTC_PLUGIN_ID,
            "livekit",
            self.config.access_endpoint.as_str(),
            self.config.region.as_str(),
            now,
        )
    }
}

/// Builds LiveKit providers from one set of settings.
#[derive(Clone, Debug)]
pub struct LivekitRtcProviderPluginFactory {
    pub config: LivekitRtcProviderConfig,
}

impl LivekitRtcProviderPluginFactory {
    /// A factory for providers with the given settings.
    pub fn new(config: LivekitRtcProviderConfig) -> (res: Self)
        ensures
            res.config@ == config@,
    {
        LivekitRtcProviderPluginFactory { config }
    }

    /// What the providers this factory builds declare of themselves.
    pub fn descriptor(&self) -> (res: ProviderPluginDescriptor)
        ensures
            res@ == livekit_descriptor(),
    {
        LivekitRtcProvider::new(self.config.duplicate()).descriptor()
    }

    /// A provider with the factory's settings.
    pub fn create_provider(&self) -> (res: LivekitRtcProvider)
        ensures
            res.config@ == self.config@,
    {
        LivekitRtcProvider::new(self.config.duplicate())
    }
}

/// A factory for LiveKit providers with the given settings.
pub fn create_livekit_rtc_provider_plugin_factory(config: LivekitRtcProviderConfig) -> (res: LivekitRtcProviderPluginFactory)
    ensures
        res.config@ == config@,
{
    LivekitRtcProviderPluginFactory::new(config)
}

} // verus!
