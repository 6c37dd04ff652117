use vstd::prelude::*;
use crate::calendar::{lemma_instant_text_ascii, rfc3339_instant_text, utc_now_rfc3339_millis};
use std::sync::Arc;
use crate::config::VolcengineRtcProviderConfig;
use crate::domain::RtcProviderWebhookParseRequest;
use crate::domain::RtcProviderWebhookEvent;
use crate::domain::{RtcProviderQueryRequest, RtcProviderQueryResult};
use crate::error::RtcContractError;
use crate::json::json_text;
use crate::open_api::{
    action_name, build_signed_volcengine_request, lemma_ascii_signing_cuts, request_snapshot,
    request_snapshot_json, signed_request_outcome, signing_cuts_on_boundaries, volcengine_action,
    OpenApiResponseView, VolcengineRtcOpenApiExecutor, VolcengineRtcOpenApiRequest,
    VolcengineRtcOpenApiResponse,
};
use crate::query::{query_result, query_result_fields, unconfigured_snapshot, unconfigured_snapshot_json};
use crate::provider_core::{share_optional, wrap_some};
use crate::credential::configured;
use crate::text::owned;
use crate::volcengine_webhook::webhook_outcome;

verus! {

/// The answer to a Volcengine active query that no OpenAPI executor served: status
/// `ready` and a snapshot that records the action, the request's ids and the region.
pub open spec fn unserved_query_fields(
    r: RtcProviderQueryResult,
    config: VolcengineRtcProviderConfig,
    request: RtcProviderQueryRequest,
) -> bool {
    let action = action_name(request.query_kind);
    query_result_fields(
        r,
        "volcengine"@,
        request,
        "ready"@,
        action,
        json_text(unconfigured_snapshot("volcengine"@, action, request, config.region@)),
    )
}

/// The answer to a Volcengine active query that the OpenAPI served: status `synced` and a
/// snapshot of the signed request and the reply.
pub open spec fn synced_query_fields(
    r: RtcProviderQueryResult,
    request: RtcProviderQueryRequest,
    provider_request: crate::open_api::OpenApiRequestView,
    provider_response: OpenApiResponseView,
) -> bool {
    query_result_fields(
        r,
        "volcengine"@,
        request,
        "synced"@,
        action_name(request.query_kind),
        json_text(request_snapshot_json(provider_request, Some(provider_response))),
    )
}

/// The answer to `request` once the OpenAPI answered `provider_request` with
/// `provider_response`.
pub fn synced_query_result(
    request: RtcProviderQueryRequest,
    provider_request: &VolcengineRtcOpenApiRequest,
    provider_response: &VolcengineRtcOpenApiResponse,
    queried_at: String,
) -> (res: RtcProviderQueryResult)
    ensures
        synced_query_fields(res, request, provider_request@, provider_response@),
        res.queried_at@ == queried_at@,
{
    let action = volcengine_action(request.query_kind);
    let snapshot = request_snapshot(provider_request, Some(provider_response));
    query_result("volcengine", request, owned("synced"), action, snapshot, queried_at)
}

/// What an active query at `queried_at` returns, whatever the executor answers: without
/// an executor, the unserved answer; with one, the signing error when the request cannot
/// be signed, else either the executor's error or the synced answer to the signed request.
pub open spec fn volcengine_query_outcome(
    res: Result<RtcProviderQueryResult, RtcContractError>,
    config: VolcengineRtcProviderConfig,
    has_executor: bool,
    request: RtcProviderQueryRequest,
    queried_at: Seq<char>,
    queried_at_bytes: Seq<u8>,
) -> bool {
    if !has_executor {
        res matches Ok(r) && unserved_query_fields(r, config, request) && r.queried_at@ == queried_at
    } else {
        match signed_request_outcome(config, request, action_name(request.query_kind), queried_at_bytes) {
            Err(fault) => res matches Err(e) && e@ == fault,
            Ok(signed) => match res {
                Ok(r) => r.queried_at@ == queried_at && exists|reply: OpenApiResponseView|
                    synced_query_fields(r, request, signed, reply),
                Err(_) => true,
            },
        }
    }
}

/// Answers an active query at the instant `queried_at`. With an executor, the request is
/// signed at `queried_at` and handed to the executor, whose error is passed on.
pub fn query_provider_state_at(
    config: &VolcengineRtcProviderConfig,
    open_api_executor: Option<&dyn VolcengineRtcOpenApiExecutor>,
    request: RtcProviderQueryRequest,
    queried_at: String,
) -> (res: Result<RtcProviderQueryResult, RtcContractError>)
    requires
        open_api_executor is Some && configured(config.access_key_id) && configured(
            config.secret_access_key,
        ) ==> signing_cuts_on_boundaries(vstd::utf8::encode_utf8(queried_at@)),
    ensures
        volcengine_query_outcome(
            res,
            *config,
            open_api_executor is Some,
            request,
            queried_at@,
            vstd::utf8::encode_utf8(queried_at@),
        ),
{
    let action = volcengine_action(request.query_kind);
    match open_api_executor {
        Some(executor) => {
            let signed = build_signed_volcengine_request(config, &request, action, queried_at.as_str());
            let provider_request = match signed {
                Ok(r) => r,
                Err(e) => {
                    return Err(e);
                },
            };
            let provider_response = match executor.execute(&provider_request) {
                Ok(r) => r,
                Err(e) => {
                    return Err(e);
                },
            };
            let r = synced_query_result(request, &provider_request, &provider_response, queried_at);
            assert(synced_query_fields(r, request, provider_request@, provider_response@));
            Ok(r)
        },
        None => {
            let snapshot = unconfigured_snapshot_json("volcengine", action, &request, config.region.as_str());
            Ok(query_result("volcengine", request, owned("ready"), action, snapshot, queried_at))
        },
    }
}

/// Answers an active query, stamped and signed with the current time.
pub fn query_provider_state(
    config: &VolcengineRtcProviderConfig,
    open_api_executor: Option<&dyn VolcengineRtcOpenApiExecutor>,
    request: RtcProviderQueryRequest,
) -> (res: Result<RtcProviderQueryResult, RtcContractError>)
    ensures
        exists|m: nat|
            volcengine_query_outcome(
                res,
                *config,
                open_api_executor is Some,
                request,
                #[trigger] rfc3339_instant_text(m),
                vstd::utf8::encode_utf8(rfc3339_instant_text(m)),
            ),
{
    let queried_at = utc_now_rfc3339_millis();
    proof {
        let m = choose|m: nat| queried_at@ == rfc3339_instant_text(m);
        lemma_instant_text_ascii(m);
        lemma_ascii_signing_cuts(queried_at@);
    }
    let ghost stamp = queried_at@;
    let res = query_provider_state_at(config, open_api_executor, request, queried_at);
    proof {
        let m = choose|m: nat| stamp == rfc3339_instant_text(m);
        assert(volcengine_query_outcome(
            res,
            *config,
            open_api_executor is Some,
            request,
            rfc3339_instant_text(m),
            vstd::utf8::encode_utf8(rfc3339_instant_text(m)),
        ));
    }
    res
}

/// The Volcengine RTC provider.
pub struct VolcengineRtcProvider {
    pub config: VolcengineRtcProviderConfig,
    pub open_api_executor: Option<Arc<dyn VolcengineRtcOpenApiExecutor>>,
}

impl VolcengineRtcProvider {
    /// A provider with the given settings and no OpenAPI executor.
    pub fn new(config: VolcengineRtcProviderConfig) -> (res: Self)
        ensures
            res.config@ == config@,
            res.open_api_executor is None,
    {
        VolcengineRtcProvider { config, open_api_executor: None }
    }

    /// The provider with its active queries served by `executor`.
    pub fn with_open_api_executor(self, executor: Arc<dyn VolcengineRtcOpenApiExecutor>) -> (res: Self)
        ensures
            res.config@ == self.config@,
            res.open_api_executor == Some(executor),
    {
        let held = wrap_some(executor);
        VolcengineRtcProvider { config: self.config, open_api_executor: held }
    }

    /// Answers an active query through the provider's executor, if it has one.
    pub fn query_provider_state(&self, request: RtcProviderQueryRequest) -> (res: Result<RtcProviderQueryResult, RtcContractError>)
        ensures
            exists|m: nat|
                volcengine_query_outcome(
                    res,
                    self.config,
                    self.open_api_executor is Some,
                    request,
                    #[trigger] rfc3339_instant_text(m),
                    vstd::utf8::encode_utf8(rfc3339_instant_text(m)),
                ),
    {
        match &self.open_api_executor {
            Some(executor) => {
                let served: &dyn VolcengineRtcOpenApiExecutor = &**executor;
                query_provider_state(&self.config, Some(served), request)
            },
            None => query_provider_state(&self.config, None, request),
        }
    }

    /// Parses and normalizes a webhook delivery.
    pub fn parse_provider_webhook(&self, request: RtcProviderWebhookParseRequest) -> (res: Result<RtcProviderWebhookEvent, RtcContractError>)
        ensures
            match (res, webhook_outcome(request)) {
                (Ok(event), Ok(v)) => event@ == v,
                (Err(e), Err(fault)) => e@ == fault,
                _ => false,
            },
    {
        crate::volcengine_webhook::parse_provider_webhook(request)
    }
}

/// Builds Volcengine providers from one set of settings, optionally with an executor.
pub struct VolcengineRtcProviderPluginFactory {
    pub config: VolcengineRtcProviderConfig,
    pub open_api_executor: Option<Arc<dyn VolcengineRtcOpenApiExecutor>>,
}

impl VolcengineRtcProviderPluginFactory {
    /// A factory for providers with the given settings and no executor.
    pub fn new(config: VolcengineRtcProviderConfig) -> (res: Self)
        ensures
            res.config@ == config@,
            res.open_api_executor is None,
    {
        VolcengineRtcProviderPluginFactory { config, open_api_executor: None }
    }

    /// The factory with every provider it builds served by `executor`.
    pub fn with_open_api_executor(self, executor: Arc<dyn VolcengineRtcOpenApiExecutor>) -> (res: Self)
        ensures
            res.config@ == self.config@,
            res.open_api_executor == Some(executor),
    {
        let held = wrap_some(executor);
        VolcengineRtcProviderPluginFactory { config: self.config, open_api_executor: held }
    }

    /// A provider with the factory's settings and executor.
    pub fn create_provider(&self) -> (res: VolcengineRtcProvider)
        ensures
            res.config@ == self.config@,
            res.open_api_executor == self.open_api_executor,
    {
        VolcengineRtcProvider { config: self.config.duplicate(), open_api_executor: share_optional(&self.open_api_executor) }
    }
}

/// A factory for Volcengine providers with the given settings.
pub fn create_volcengine_rtc_provider_plugin_factory(config: VolcengineRtcProviderConfig) -> (res: VolcengineRtcProviderPluginFactory)
    ensures
        res.config@ == config@,
        res.open_api_executor is None,
{
    VolcengineRtcProviderPluginFactory::new(config)
}

} // verus!
