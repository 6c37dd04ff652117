use vstd::prelude::*;
use std::sync::Arc;
use crate::config::TencentRtcProviderConfig;
use crate::error::RtcContractError;
use crate::ids::{trim_chars, trimmed};
use crate::provider_core::{share_optional,
    DescriptorView, ProviderDomain, ProviderPluginDescriptor, RtcCreateMediaSessionRequest,
    RtcSessionHandle, open_session_handle, required_capability_names,
    rtc_provider_required_capabilities, session_handle_fields, strs, wrap_some,
};
use crate::text::{chars_of, is_blank, owned, str_is_blank, string_from_chars};

verus! {

/// The plugin id of the Tencent adapter.
pub const TENCENT_RTC_PLUGIN_ID: &'static str = "rtc-tencent";

/// The value of an all-digit decimal text.
pub open spec fn digits_value(s: Seq<char>) -> nat
    decreases s.len(),
{
    if s.len() == 0 {
        0
    } else {
        digits_value(s.drop_last()) * 10 + ((s.last() as nat) - ('0' as nat)) as nat
    }
}

/// Every character is an ASCII decimal digit.
pub open spec fn all_digits(s: Seq<char>) -> bool {
    forall|i: int| 0 <= i < s.len() ==> '0' <= #[trigger] s[i] <= '9'
}

/// What `str::parse::<u32>` reads: an optional `+` and at least one digit, of a value that
/// fits in `u32`.
pub open spec fn parsed_u32(s: Seq<char>) -> Option<u32> {
    let d = if s.len() > 0 && s[0] == '+' { s.drop_first() } else { s };
    if d.len() > 0 && all_digits(d) && digits_value(d) <= u32::MAX {
        Some(digits_value(d) as u32)
    } else {
        None
    }
}

/// Reads a decimal `u32` as `str::parse::<u32>` does.
pub fn parse_u32(s: &str) -> (res: Option<u32>)
    ensures
        res == parsed_u32(s@),
{
    let chars = chars_of(s);
    let start: usize = if chars.len() > 0 && chars[0] == '+' { 1 } else { 0 };
    let ghost d = if s@.len() > 0 && s@[0] == '+' { s@.drop_first() } else { s@ };
    assert(d =~= s@.skip(start as int));
    if start == chars.len() {
        return None;
    }
    let limit: u64 = 0x1_0000_0000;
    let mut value: u64 = 0;
    let mut i: usize = start;
    while i < chars.len()
        invariant
            chars@ == s@,
            d == s@.skip(start as int),
            d == (if s@.len() > 0 && s@[0] == '+' { s@.drop_first() } else { s@ }),
            start <= i <= chars.len(),
            all_digits(s@.subrange(start as int, i as int)),
            value == if digits_value(s@.subrange(start as int, i as int)) < limit {
                digits_value(s@.subrange(start as int, i as int))
            } else {
                limit as nat
            },
            limit == 0x1_0000_0000,
        decreases chars.len() - i,
    {
        let c = chars[i];
        if !('0' <= c && c <= '9') {
            assert(d[i - start] == c);
            return None;
        }
        let digit = (c as u32 - '0' as u32) as u64;
        let ghost prefix = s@.subrange(start as int, i as int);
        assert(s@.subrange(start as int, i + 1).drop_last() =~= prefix);
        assert(s@.subrange(start as int, i + 1).last() == c);
        let next = value * 10 + digit;
        value = if next < limit { next } else { limit };
        assert(all_digits(s@.subrange(start as int, i + 1)));
        i = i + 1;
    }
    assert(s@.subrange(start as int, chars.len() as int) =~= d);
    if value < limit { Some(value as u32) } else { None }
}

/// A setting read from the environment: the value unless absent or blank, else the default.
pub open spec fn setting_or(value: Option<Seq<char>>, default_value: Seq<char>) -> Seq<char> {
    match value {
        Some(v) => if is_blank(v) { default_value } else { v },
        None => default_value,
    }
}

/// An optional secret read from the environment: the trimmed value unless it is empty.
pub open spec fn trimmed_setting(value: Option<Seq<char>>) -> Option<Seq<char>> {
    match value {
        Some(v) => if trimmed(v).len() > 0 { Some(trimmed(v)) } else { None },
        None => None,
    }
}

/// The credential lifetime read from the environment: a positive `u32`, else an hour.
pub open spec fn ttl_setting(value: Option<Seq<char>>) -> u32 {
    match value {
        Some(v) => match parsed_u32(v) {
            Some(n) => if n > 0 { n } else { 3600 },
            None => 3600,
        },
        None => 3600,
    }
}

/// The view of a looked-up value.
pub open spec fn looked_up(v: Option<String>) -> Option<Seq<char>> {
    match v {
        Some(s) => Some(s@),
        None => None,
    }
}

/// `lookup(key)` may answer `v`.
pub open spec fn answers(lookup: impl Fn(&str) -> Option<String>, key: &str, v: Option<String>) -> bool {
    call_ensures(lookup, (key,), v)
}

fn setting_value(value: Option<String>, default_value: &str) -> (res: String)
    ensures
        res@ == setting_or(looked_up(value), default_value@),
{
    match value {
        Some(v) => if str_is_blank(v.as_str()) { owned(default_value) } else { v },
        None => owned(default_value),
    }
}

fn trimmed_value(value: Option<String>) -> (res: Option<String>)
    ensures
        looked_up(res) == trimmed_setting(looked_up(value)),
{
    match value {
        Some(v) => {
            let t = trim_chars(v.as_str());
            if t.len() > 0 { Some(string_from_chars(&t)) } else { None }
        },
        None => None,
    }
}

fn ttl_value(value: Option<String>) -> (res: u32)
    ensures
        res == ttl_setting(looked_up(value)),
{
    match value {
        Some(v) => match parse_u32(v.as_str()) {
            Some(n) => if n > 0 { n } else { 3600 },
            None => 3600,
        },
        None => 3600,
    }
}

impl TencentRtcProviderConfig {
    /// The settings that `lookup` (the environment, in a deployment) names: endpoints,
    /// region and API version fall back to their defaults when unset or blank, the four
    /// secrets are trimmed and absent when empty, and the credential lifetime is a positive
    /// number of seconds, an hour by default.
    pub fn from_lookup(lookup: impl Fn(&str) -> Option<String>) -> (res: Self)
        requires
            forall|k: &str| call_requires(lookup, (k,)),
        ensures
            exists|v: Option<String>| answers(lookup, "SDKWORK_RTC_TENCENT_ACCESS_ENDPOINT", v)
                && res.access_endpoint@ == setting_or(looked_up(v), "wss://rtc.tencent.local/session"@),
            exists|v: Option<String>| answers(lookup, "SDKWORK_RTC_TENCENT_REGION", v)
                && res.region@ == setting_or(looked_up(v), "ap-guangzhou"@),
            exists|v: Option<String>| answers(lookup, "SDKWORK_RTC_TENCENT_API_ENDPOINT", v)
                && res.api_endpoint@ == setting_or(looked_up(v), "https://trtc.tencentcloudapi.com"@),
            exists|v: Option<String>| answers(lookup, "SDKWORK_RTC_TENCENT_API_HOST", v)
                && res.api_host@ == setting_or(looked_up(v), "trtc.tencentcloudapi.com"@),
            exists|v: Option<String>| answers(lookup, "SDKWORK_RTC_TENCENT_API_VERSION", v)
                && res.api_version@ == setting_or(looked_up(v), "2019-07-22"@),
            exists|v: Option<String>| answers(lookup, "SDKWORK_RTC_TENCENT_SDK_APP_ID", v)
                && looked_up(res.sdk_app_id) == trimmed_setting(looked_up(v)),
            exists|v: Option<String>| answers(lookup, "SDKWORK_RTC_TENCENT_SDK_SECRET_KEY", v)
                && looked_up(res.sdk_secret_key) == trimmed_setting(looked_up(v)),
            exists|v: Option<String>| answers(lookup, "SDKWORK_RTC_TENCENT_SECRET_ID", v)
                && looked_up(res.secret_id) == trimmed_setting(looked_up(v)),
            exists|v: Option<String>| answers(lookup, "SDKWORK_RTC_TENCENT_SECRET_KEY", v)
                && looked_up(res.secret_key) == trimmed_setting(looked_up(v)),
            exists|v: Option<String>| answers(lookup, "SDKWORK_RTC_TENCENT_CREDENTIAL_TTL_SECONDS", v)
                && res.credential_ttl_seconds == ttl_setting(looked_up(v)),
    {
        let access_endpoint = lookup("SDKWORK_RTC_TENCENT_ACCESS_ENDPOINT");
        let region = lookup("SDKWORK_RTC_TENCENT_REGION");
        let api_endpoint = lookup("SDKWORK_RTC_TENCENT_API_ENDPOINT");
        let api_host = lookup("SDKWORK_RTC_TENCENT_API_HOST");
        let api_version = lookup("SDKWORK_RTC_TENCENT_API_VERSION");
        let sdk_app_id = lookup("SDKWORK_RTC_TENCENT_SDK_APP_ID");
        let sdk_secret_key = lookup("SDKWORK_RTC_TENCENT_SDK_SECRET_KEY");
        let secret_id = lookup("SDKWORK_RTC_TENCENT_SECRET_ID");
        let secret_key = lookup("SDKWORK_RTC_TENCENT_SECRET_KEY");
        let ttl = lookup("SDKWORK_RTC_TENCENT_CREDENTIAL_TTL_SECONDS");
        let ghost answers_seen = (
            access_endpoint, region, api_endpoint, api_host, api_version,
            sdk_app_id, sdk_secret_key, secret_id, secret_key, ttl,
        );
        let res = TencentRtcProviderConfig {
            access_endpoint: setting_value(access_endpoint, "wss://rtc.tencent.local/session"),
            region: setting_value(region, "ap-guangzhou"),
            api_endpoint: setting_value(api_endpoint, "https://trtc.tencentcloudapi.com"),
            api_host: setting_value(api_host, "trtc.tencentcloudapi.com"),
            api_version: setting_value(api_version, "2019-07-22"),
            sdk_app_id: trimmed_value(sdk_app_id),
            sdk_secret_key: trimmed_value(sdk_secret_key),
            secret_id: trimmed_value(secret_id),
            secret_key: trimmed_value(secret_key),
            credential_ttl_seconds: ttl_value(ttl),
        };
        proof {
            assert(answers(lookup, "SDKWORK_RTC_TENCENT_ACCESS_ENDPOINT", answers_seen.0));
            assert(answers(lookup, "SDKWORK_RTC_TENCENT_REGION", answers_seen.1));
            assert(answers(lookup, "SDKWORK_RTC_TENCENT_API_ENDPOINT", answers_seen.2));
            assert(answers(lookup, "SDKWORK_RTC_TENCENT_API_HOST", answers_seen.3));
            assert(answers(lookup, "SDKWORK_RTC_TENCENT_API_VERSION", answers_seen.4));
            assert(answers(lookup, "SDKWORK_RTC_TENCENT_SDK_APP_ID", answers_seen.5));
            assert(answers(lookup, "SDKWORK_RTC_TENCENT_SDK_SECRET_KEY", answers_seen.6));
            assert(answers(lookup, "SDKWORK_RTC_TENCENT_SECRET_ID", answers_seen.7));
            assert(answers(lookup, "SDKWORK_RTC_TENCENT_SECRET_KEY", answers_seen.8));
            assert(answers(lookup, "SDKWORK_RTC_TENCENT_CREDENTIAL_TTL_SECONDS", answers_seen.9));
        }
        res
    }
}

/// A request for the Tencent Cloud TRTC API.
#[derive(Clone, Debug, PartialEq, Eq)]
pub struct TencentRtcOpenApiRequest {
    pub method: String,
    pub endpoint: String,
    pub host: String,
    pub path: String,
    pub action: String,
    pub headers: Vec<(String, String)>,
    pub body: String,
}

/// What the Tencent Cloud TRTC API answered.
#[derive(Clone, Debug, PartialEq, Eq)]
pub struct TencentRtcOpenApiResponse {
    pub status_code: u16,
    pub body: String,
}

/// Sends requests to the Tencent Cloud TRTC API; the embedding application supplies it.
pub trait TencentRtcOpenApiExecutor: Send + Sync {
    fn execute(&self, request: &TencentRtcOpenApiRequest) -> Result<TencentRtcOpenApiResponse, RtcContractError>;
}

/// The optional capabilities the Tencent adapter declares.
pub open spec fn tencent_optional_capability_names() -> Seq<Seq<char>> {
    seq!["recording"@, "artifact"@, "screen-share"@, "cdn-relay"@, "provider.active-query"@]
}

/// What the Tencent adapter declares of itself.
pub open spec fn tencent_descriptor() -> DescriptorView {
    DescriptorView {
        plugin_id: TENCENT_RTC_PLUGIN_ID@,
        domain: ProviderDomain::Rtc,
        provider_kind: "tencent"@,
        display_name: "Tencent RTC"@,
        required_capabilities: required_capability_names(),
        optional_capabilities: tencent_optional_capability_names(),
    }
}

/// The Tencent RTC provider.
pub struct TencentRtcProvider {
    pub config: TencentRtcProviderConfig,
    pub open_api_executor: Option<Arc<dyn TencentRtcOpenApiExecutor>>,
}

impl TencentRtcProvider {
    /// A provider with the given settings and no API executor.
    pub fn new(config: TencentRtcProviderConfig) -> (res: Self)
        ensures
            res.config@ == config@,
            res.open_api_executor is None,
    {
        TencentRtcProvider { config, open_api_executor: None }
    }

    /// The provider with its API calls served by `executor`.
    pub fn with_open_api_executor(self, executor: Arc<dyn TencentRtcOpenApiExecutor>) -> (res: Self)
        ensures
            res.config@ == self.config@,
            res.open_api_executor == Some(executor),
    {
        let held = wrap_some(executor);
        TencentRtcProvider { config: self.config, open_api_executor: held }
    }

    /// What the provider declares of itself.
    pub fn descriptor(&self) -> (res: ProviderPluginDescriptor)
        ensures
            res@ == tencent_descriptor(),
    {
        let optional = ["recording", "artifact", "screen-share", "cdn-relay", "provider.active-query"];
        assert(strs(optional@) =~= tencent_optional_capability_names());
        let required = rtc_provider_required_capabilities();
        ProviderPluginDescriptor::new(TENCENT_RTC_PLUGIN_ID, ProviderDomain::Rtc, "tencent", "Tencent RTC")
            .with_required_capabilities(&required)
            .with_optional_capabilities(&optional)
    }

    /// Opens a session: the provider session id is `tencent:{rtc_session_id}`, the
    /// endpoint is the configured one, and the region is the requested one unless absent
    /// or blank.
    pub fn create_session(&self, request: RtcCreateMediaSessionRequest) -> (res: Result<RtcSessionHandle, RtcContractError>)
        ensures
            res matches Ok(h) && session_handle_fields(
                h,
                "tencent"@,
                self.config.access_endpoint@,
                self.config.region@,
                request,
            ),
    {
        Ok(open_session_handle("tencent", self.config.access_endpoint.as_str(), self.config.region.as_str(), request))
    }
}

/// Builds Tencent providers from one set of settings, optionally with an executor.
pub struct TencentRtcProviderPluginFactory {
    pub config: TencentRtcProviderConfig,
    pub open_api_executor: Option<Arc<dyn TencentRtcOpenApiExecutor>>,
}

impl TencentRtcProviderPluginFactory {
    /// A factory for providers with the given settings and no executor.
    pub fn new(config: TencentRtcProviderConfig) -> (res: Self)
        ensures
            res.config@ == config@,
            res.open_api_executor is None,
    {
        TencentRtcProviderPluginFactory { config, open_api_executor: None }
    }

    /// The factory with every provider it builds served by `executor`.
    pub fn with_open_api_executor(self, executor: Arc<dyn TencentRtcOpenApiExecutor>) -> (res: Self)
        ensures
            res.config@ == self.config@,
            res.open_api_executor == Some(executor),
    {
        let held = wrap_some(executor);
        TencentRtcProviderPluginFactory { config: self.config, open_api_executor: held }
    }

    /// What the providers this factory builds declare of themselves.
    pub fn descriptor(&self) -> (res: ProviderPluginDescriptor)
        ensures
            res@ == tencent_descriptor(),
    {
        TencentRtcProvider::new(self.config.duplicate()).descriptor()
    }

    /// A provider with the factory's settings and executor.
    pub fn create_provider(&self) -> (res: TencentRtcProvider)
        ensures
            res.config@ == self.config@,
            res.open_api_executor == self.open_api_executor,
    {
        TencentRtcProvider { config: self.config.duplicate(), open_api_executor: share_optional(&self.open_api_executor) }
    }
}

/// A factory for Tencent providers with the given settings.
pub fn create_tencent_rtc_provider_plugin_factory(config: TencentRtcProviderConfig) -> (res: TencentRtcProviderPluginFactory)
    ensures
        res.config@ == config@,
        res.open_api_executor is None,
{
    TencentRtcProviderPluginFactory::new(config)
}

} // verus!
