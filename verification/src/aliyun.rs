use vstd::prelude::*;
use crate::calendar::{rfc3339_instant_text, utc_now_rfc3339_millis};
use crate::config::AliyunRtcProviderConfig;
use crate::domain::{RtcProviderQueryKind, RtcProviderQueryRequest, RtcProviderQueryResult};
use crate::error::RtcContractError;
use crate::json::json_text;
use crate::media::{drive_backed_fields, recording_node_id, RtcRecordingArtifact};
use crate::query::{query_result, query_result_fields, unconfigured_snapshot, unconfigured_snapshot_json};
use crate::text::owned;

verus! {

/// The snapshot action an Aliyun query kind is recorded under.
pub open spec fn aliyun_action_text(kind: RtcProviderQueryKind) -> Seq<char> {
    match kind {
        RtcProviderQueryKind::RoomOnlineUsers => "aliyun.channel.online-users.snapshot"@,
        RtcProviderQueryKind::RoomState => "aliyun.channel.state.snapshot"@,
        RtcProviderQueryKind::MediaSessionState => "aliyun.channel.state.snapshot"@,
        RtcProviderQueryKind::RecordingArtifacts => "aliyun.cloud-recording.artifacts.snapshot"@,
        RtcProviderQueryKind::QualitySamples => "aliyun.Quality.samples.snapshot"@,
    }
}

/// The snapshot action for a query request.
pub fn aliyun_query_action(request: &RtcProviderQueryRequest) -> (res: &'static str)
    ensures
        res@ == aliyun_action_text(request.query_kind),
{
    match request.query_kind {
        RtcProviderQueryKind::RoomOnlineUsers => "aliyun.channel.online-users.snapshot",
        RtcProviderQueryKind::RoomState | RtcProviderQueryKind::MediaSessionState => {
            "aliyun.channel.state.snapshot"
        },
        RtcProviderQueryKind::RecordingArtifacts => "aliyun.cloud-recording.artifacts.snapshot",
        RtcProviderQueryKind::QualitySamples => "aliyun.Quality.samples.snapshot",
    }
}

/// The answer to an Aliyun active query, which no OpenAPI executor serves: status `ready`
/// and a snapshot that records the action, the request's ids and the region.
pub open spec fn aliyun_query_fields(
    r: RtcProviderQueryResult,
    config: AliyunRtcProviderConfig,
    request: RtcProviderQueryRequest,
) -> bool {
    let action = aliyun_action_text(request.query_kind);
    query_result_fields(
        r,
        "aliyun"@,
        request,
        "ready"@,
        action,
        json_text(unconfigured_snapshot("aliyun"@, action, request, config.region@)),
    )
}

/// Answers an active query at the instant `queried_at`.
pub fn query_provider_state_at(
    config: &AliyunRtcProviderConfig,
    request: RtcProviderQueryRequest,
    queried_at: String,
) -> (res: Result<RtcProviderQueryResult, RtcContractError>)
    ensures
        res matches Ok(r) && aliyun_query_fields(r, *config, request) && r.queried_at@ == queried_at@,
{
    let action = aliyun_query_action(&request);
    let snapshot = unconfigured_snapshot_json("aliyun", action, &request, config.region.as_str());
    Ok(query_result("aliyun", request, owned("ready"), action, snapshot, queried_at))
}

/// Answers an active query, stamped with the current time.
pub fn query_provider_state(
    config: &AliyunRtcProviderConfig,
    request: RtcProviderQueryRequest,
) -> (res: Result<RtcProviderQueryResult, RtcContractError>)
    ensures
        res matches Ok(r) && aliyun_query_fields(r, *config, request)
            && exists|m: nat| r.queried_at@ == rfc3339_instant_text(m),
{
    let queried_at = utc_now_rfc3339_millis();
    query_provider_state_at(config, request, queried_at)
}

/// The Aliyun RTC provider.
#[derive(Clone, Debug)]
pub struct AliyunRtcProvider {
    pub config: AliyunRtcProviderConfig,
}

impl AliyunRtcProvider {
    /// A provider with the given settings.
    pub fn new(config: AliyunRtcProviderConfig) -> (res: Self)
        ensures
            res.config@ == config@,
    {
        AliyunRtcProvider { config }
    }

    /// Answers an active query, stamped with the current time.
    pub fn query_provider_state(&self, request: RtcProviderQueryRequest) -> (res: Result<RtcProviderQueryResult, RtcContractError>)
        ensures
            res matches Ok(r) && aliyun_query_fields(r, self.config, request)
                && exists|m: nat| r.queried_at@ == rfc3339_instant_text(m),
    {
        query_provider_state(&self.config, request)
    }

    /// Exports the recording of a session into Drive.
    pub fn export_recording_artifact(&self, tenant_id: &str, rtc_session_id: &str) -> (res: Result<Option<RtcRecordingArtifact>, RtcContractError>)
        ensures
            res matches Ok(Some(a)) && drive_backed_fields(
                a,
                tenant_id@,
                rtc_session_id@,
                "space_rtc_recordings"@,
                recording_node_id(rtc_session_id@),
                None,
            ),
    {
        crate::media::export_recording_artifact(tenant_id, rtc_session_id)
    }
}

/// Builds Aliyun providers from one set of settings.
#[derive(Clone, Debug)]
pub struct AliyunRtcProviderPluginFactory {
    pub config: AliyunRtcProviderConfig,
}

impl AliyunRtcProviderPluginFactory {
    /// A factory for providers with the given settings.
    pub fn new(config: AliyunRtcProviderConfig) -> (res: Self)
        ensures
            res.config@ == config@,
    {
        AliyunRtcProviderPluginFactory { config }
    }

    /// A provider with the factory's settings.
    pub fn create_provider(&self) -> (res: AliyunRtcProvider)
        ensures
            res.config@ == self.config@,
    {
        AliyunRtcProvider::new(self.config.duplicate())
    }
}

/// A factory for Aliyun providers with the given settings.
pub fn create_aliyun_rtc_provider_plugin_factory(config: AliyunRtcProviderConfig) -> (res: AliyunRtcProviderPluginFactory)
    ensures
        res.config@ == config@,
{
    AliyunRtcProviderPluginFactory::new(config)
}

} // verus!
