use vstd::prelude::*;
use crate::domain::{clone_opt, opt_view};
use crate::text::owned;

verus! {

/// Settings of the Agora adapter.
#[derive(Clone, Debug)]
pub struct AgoraRtcProviderConfig {
    pub access_endpoint: String,
    pub region: String,
}

/// Settings of the Aliyun adapter.
#[derive(Clone, Debug)]
pub struct AliyunRtcProviderConfig {
    pub access_endpoint: String,
    pub region: String,
}

/// Settings of the LiveKit adapter.
#[derive(Clone, Debug)]
pub struct LivekitRtcProviderConfig {
    pub access_endpoint: String,
    pub region: String,
}

/// Settings of the Volcengine adapter: client endpoint, token signing keys and the
/// OpenAPI signing credentials.
#[derive(Clone, Debug)]
pub struct VolcengineRtcProviderConfig {
    pub access_endpoint: String,
    pub region: String,
    pub app_id: Option<String>,
    pub app_key: Option<String>,
    pub credential_ttl_seconds: u32,
    pub access_key_id: Option<String>,
    pub secret_access_key: Option<String>,
    pub api_endpoint: String,
    pub api_host: String,
    pub api_version: String,
}

/// Settings of the Tencent adapter.
#[derive(Clone, Debug, PartialEq, Eq)]
pub struct TencentRtcProviderConfig {
    pub access_endpoint: String,
    pub region: String,
    pub api_endpoint: String,
    pub api_host: String,
    pub api_version: String,
    pub sdk_app_id: Option<String>,
    pub sdk_secret_key: Option<String>,
    pub secret_id: Option<String>,
    pub secret_key: Option<String>,
    pub credential_ttl_seconds: u32,
}

/// The mathematical content of a configuration that names an access endpoint and a
/// default region.
pub struct EndpointConfigView {
    pub access_endpoint: Seq<char>,
    pub region: Seq<char>,
}

impl View for AgoraRtcProviderConfig {
    type V = EndpointConfigView;

    open spec fn view(&self) -> EndpointConfigView {
        EndpointConfigView { access_endpoint: self.access_endpoint@, region: self.region@ }
    }
}

impl View for AliyunRtcProviderConfig {
    type V = EndpointConfigView;

    open spec fn view(&self) -> EndpointConfigView {
        EndpointConfigView { access_endpoint: self.access_endpoint@, region: self.region@ }
    }
}

impl View for LivekitRtcProviderConfig {
    type V = EndpointConfigView;

    open spec fn view(&self) -> EndpointConfigView {
        EndpointConfigView { access_endpoint: self.access_endpoint@, region: self.region@ }
    }
}

impl AgoraRtcProviderConfig {
    /// A copy of the settings.
    pub fn duplicate(&self) -> (res: Self)
        ensures
            res@ == self@,
    {
        AgoraRtcProviderConfig {
            access_endpoint: owned(self.access_endpoint.as_str()),
            region: owned(self.region.as_str()),
        }
    }
}

impl AliyunRtcProviderConfig {
    /// A copy of the settings.
    pub fn duplicate(&self) -> (res: Self)
        ensures
            res@ == self@,
    {
        AliyunRtcProviderConfig {
            access_endpoint: owned(self.access_endpoint.as_str()),
            region: owned(self.region.as_str()),
        }
    }
}

impl LivekitRtcProviderConfig {
    /// A copy of the settings.
    pub fn duplicate(&self) -> (res: Self)
        ensures
            res@ == self@,
    {
        LivekitRtcProviderConfig {
            access_endpoint: owned(self.access_endpoint.as_str()),
            region: owned(self.region.as_str()),
        }
    }
}

/// The mathematical content of a [`VolcengineRtcProviderConfig`].
pub struct VolcengineConfigView {
    pub access_endpoint: Seq<char>,
    pub region: Seq<char>,
    pub app_id: Option<Seq<char>>,
    pub app_key: Option<Seq<char>>,
    pub credential_ttl_seconds: u32,
    pub access_key_id: Option<Seq<char>>,
    pub secret_access_key: Option<Seq<char>>,
    pub api_endpoint: Seq<char>,
    pub api_host: Seq<char>,
    pub api_version: Seq<char>,
}

impl View for VolcengineRtcProviderConfig {
    type V = VolcengineConfigView;

    open spec fn view(&self) -> VolcengineConfigView {
        VolcengineConfigView {
            access_endpoint: self.access_endpoint@,
            region: self.region@,
            app_id: opt_view(self.app_id),
            app_key: opt_view(self.app_key),
            credential_ttl_seconds: self.credential_ttl_seconds,
            access_key_id: opt_view(self.access_key_id),
            secret_access_key: opt_view(self.secret_access_key),
            api_endpoint: self.api_endpoint@,
            api_host: self.api_host@,
            api_version: self.api_version@,
        }
    }
}

impl VolcengineRtcProviderConfig {
    /// A copy of the settings.
    pub fn duplicate(&self) -> (res: Self)
        ensures
            res@ == self@,
    {
        VolcengineRtcProviderConfig {
            access_endpoint: owned(self.access_endpoint.as_str()),
            region: owned(self.region.as_str()),
            app_id: clone_opt(&self.app_id),
            app_key: clone_opt(&self.app_key),
            credential_ttl_seconds: self.credential_ttl_seconds,
            access_key_id: clone_opt(&self.access_key_id),
            secret_access_key: clone_opt(&self.secret_access_key),
            api_endpoint: owned(self.api_endpoint.as_str()),
            api_host: owned(self.api_host.as_str()),
            api_version: owned(self.api_version.as_str()),
        }
    }
}

/// The mathematical content of a [`TencentRtcProviderConfig`].
pub struct TencentConfigView {
    pub access_endpoint: Seq<char>,
    pub region: Seq<char>,
    pub api_endpoint: Seq<char>,
    pub api_host: Seq<char>,
    pub api_version: Seq<char>,
    pub sdk_app_id: Option<Seq<char>>,
    pub sdk_secret_key: Option<Seq<char>>,
    pub secret_id: Option<Seq<char>>,
    pub secret_key: Option<Seq<char>>,
    pub credential_ttl_seconds: u32,
}

impl View for TencentRtcProviderConfig {
    type V = TencentConfigView;

    open spec fn view(&self) -> TencentConfigView {
        TencentConfigView {
            access_endpoint: self.access_endpoint@,
            region: self.region@,
            api_endpoint: self.api_endpoint@,
            api_host: self.api_host@,
            api_version: self.api_version@,
            sdk_app_id: opt_view(self.sdk_app_id),
            sdk_secret_key: opt_view(self.sdk_secret_key),
            secret_id: opt_view(self.secret_id),
            secret_key: opt_view(self.secret_key),
            credential_ttl_seconds: self.credential_ttl_seconds,
        }
    }
}

impl TencentRtcProviderConfig {
    /// A copy of the settings.
    pub fn duplicate(&self) -> (res: Self)
        ensures
            res@ == self@,
    {
        TencentRtcProviderConfig {
            access_endpoint: owned(self.access_endpoint.as_str()),
            region: owned(self.region.as_str()),
            api_endpoint: owned(self.api_endpoint.as_str()),
            api_host: owned(self.api_host.as_str()),
            api_version: owned(self.api_version.as_str()),
            sdk_app_id: clone_opt(&self.sdk_app_id),
            sdk_secret_key: clone_opt(&self.sdk_secret_key),
            secret_id: clone_opt(&self.secret_id),
            secret_key: clone_opt(&self.secret_key),
            credential_ttl_seconds: self.credential_ttl_seconds,
        }
    }
}

} // verus!
