use vstd::prelude::*;
use std::sync::Arc;
use crate::domain::{opt_view, RtcMediaSessionMode};
use crate::text::{is_blank, owned, push_str, str_is_blank};

verus! {

/// The service domain a provider plugin belongs to.
#[derive(Clone, Copy, Debug, PartialEq, Eq, Structural)]
pub enum ProviderDomain {
    Rtc,
}

/// What a provider plugin declares of itself.
#[derive(Clone, Debug, PartialEq, Eq)]
pub struct ProviderPluginDescriptor {
    pub plugin_id: String,
    pub domain: ProviderDomain,
    pub provider_kind: String,
    pub display_name: String,
    pub required_capabilities: Vec<String>,
    pub optional_capabilities: Vec<String>,
}

/// The texts of a sequence of strings.
pub open spec fn texts(v: Seq<String>) -> Seq<Seq<char>> {
    v.map_values(|s: String| s@)
}

/// The texts of a sequence of string slices.
pub open spec fn strs(v: Seq<&str>) -> Seq<Seq<char>> {
    v.map_values(|s: &str| s@)
}

/// The mathematical content of a [`ProviderPluginDescriptor`].
pub struct DescriptorView {
    pub plugin_id: Seq<char>,
    pub domain: ProviderDomain,
    pub provider_kind: Seq<char>,
    pub display_name: Seq<char>,
    pub required_capabilities: Seq<Seq<char>>,
    pub optional_capabilities: Seq<Seq<char>>,
}

impl View for ProviderPluginDescriptor {
    type V = DescriptorView;

    open spec fn view(&self) -> DescriptorView {
        DescriptorView {
            plugin_id: self.plugin_id@,
            domain: self.domain,
            provider_kind: self.provider_kind@,
            display_name: self.display_name@,
            required_capabilities: texts(self.required_capabilities@),
            optional_capabilities: texts(self.optional_capabilities@),
        }
    }
}

/// Owned copies of a list of string slices, in order.
pub fn owned_all(items: &[&str]) -> (res: Vec<String>)
    ensures
        texts(res@) == strs(items@),
{
    let mut out: Vec<String> = Vec::new();
    let mut i: usize = 0;
    while i < items.len()
        invariant
            0 <= i <= items.len(),
            out@.len() == i,
            forall|k: int| 0 <= k < i ==> #[trigger] out@[k]@ == items@[k]@,
        decreases items.len() - i,
    {
        out.push(owned(items[i]));
        i = i + 1;
    }
    assert(texts(out@) =~= strs(items@));
    out
}

impl ProviderPluginDescriptor {
    /// A descriptor with the given identity and no capabilities yet.
    pub fn new(plugin_id: &str, domain: ProviderDomain, provider_kind: &str, display_name: &str) -> (res: Self)
        ensures
            res@ == (DescriptorView {
                plugin_id: plugin_id@,
                domain,
                provider_kind: provider_kind@,
                display_name: display_name@,
                required_capabilities: Seq::empty(),
                optional_capabilities: Seq::empty(),
            }),
    {
        let res = ProviderPluginDescriptor {
            plugin_id: owned(plugin_id),
            domain,
            provider_kind: owned(provider_kind),
            display_name: owned(display_name),
            required_capabilities: Vec::new(),
            optional_capabilities: Vec::new(),
        };
        assert(texts(res.required_capabilities@) =~= Seq::empty());
        assert(texts(res.optional_capabilities@) =~= Seq::empty());
        res
    }

    /// The descriptor with its required capabilities replaced by `capabilities`.
    pub fn with_required_capabilities(self, capabilities: &[&str]) -> (res: Self)
        ensures
            res@ == (DescriptorView { required_capabilities: strs(capabilities@), ..self@ }),
    {
        let mut res = self;
        res.required_capabilities = owned_all(capabilities);
        res
    }

    /// The descriptor with its optional capabilities replaced by `capabilities`.
    pub fn with_optional_capabilities(self, capabilities: &[&str]) -> (res: Self)
        ensures
            res@ == (DescriptorView { optional_capabilities: strs(capabilities@), ..self@ }),
    {
        let mut res = self;
        res.optional_capabilities = owned_all(capabilities);
        res
    }
}

/// The capabilities every RTC provider plugin must offer.
pub open spec fn required_capability_names() -> Seq<Seq<char>> {
    seq![
        "session"@,
        "credential"@,
        "provider.webhook"@,
        "health"@,
        "media.audio"@,
        "media.video"@,
        "live.broadcast"@,
        "live.audience"@,
        "provider.event-normalization"@,
    ]
}

/// The capabilities every RTC provider plugin must offer, in declaration order.
pub fn rtc_provider_required_capabilities() -> (res: [&'static str; 9])
    ensures
        strs(res@) == required_capability_names(),
{
    let res = [
        "session",
        "credential",
        "provider.webhook",
        "health",
        "media.audio",
        "media.video",
        "live.broadcast",
        "live.audience",
        "provider.event-normalization",
    ];
    assert(strs(res@) =~= required_capability_names());
    res
}

/// A request to open a provider media session.
#[derive(Clone, Debug)]
pub struct RtcCreateMediaSessionRequest {
    pub tenant_id: String,
    pub rtc_session_id: String,
    pub media_mode: RtcMediaSessionMode,
    pub room_id: Option<String>,
    pub region: Option<String>,
}

/// The provider's handle on an opened media session.
#[derive(Clone, Debug, PartialEq, Eq)]
pub struct RtcSessionHandle {
    pub tenant_id: String,
    pub rtc_session_id: String,
    pub provider_session_id: String,
    pub access_endpoint: Option<String>,
    pub region: Option<String>,
}

/// The region a session is opened in: the requested one unless it is absent or blank,
/// else the provider's default.
pub open spec fn chosen_region(requested: Option<Seq<char>>, default_region: Seq<char>) -> Seq<char> {
    match requested {
        Some(r) => if is_blank(r) { default_region } else { r },
        None => default_region,
    }
}

/// `{provider}:{rtc_session_id}`.
pub open spec fn scoped_session_id(provider: Seq<char>, rtc_session_id: Seq<char>) -> Seq<char> {
    provider + ":"@ + rtc_session_id
}

/// The handle a provider of kind `provider` gives for `request`.
pub open spec fn session_handle_fields(
    h: RtcSessionHandle,
    provider: Seq<char>,
    access_endpoint: Seq<char>,
    default_region: Seq<char>,
    request: RtcCreateMediaSessionRequest,
) -> bool {
    &&& h.tenant_id@ == request.tenant_id@
    &&& h.rtc_session_id@ == request.rtc_session_id@
    &&& h.provider_session_id@ == scoped_session_id(provider, request.rtc_session_id@)
    &&& opt_view(h.access_endpoint) == Some(access_endpoint)
    &&& opt_view(h.region) == Some(chosen_region(opt_view(request.region), default_region))
}

/// Opens the session handle of a provider of kind `provider`: the provider session id is
/// `{provider}:{rtc_session_id}`, the endpoint is the provider's, and the region is the
/// requested one unless absent or blank.
pub fn open_session_handle(
    provider: &str,
    access_endpoint: &str,
    default_region: &str,
    request: RtcCreateMediaSessionRequest,
) -> (res: RtcSessionHandle)
    ensures
        session_handle_fields(res, provider@, access_endpoint@, default_region@, request),
{
    let region = match &request.region {
        Some(r) => if str_is_blank(r.as_str()) { owned(default_region) } else { owned(r.as_str()) },
        None => owned(default_region),
    };
    let mut provider_session_id = owned(provider);
    push_str(&mut provider_session_id, ":");
    push_str(&mut provider_session_id, request.rtc_session_id.as_str());
    let rtc_session_id = owned(request.rtc_session_id.as_str());
    RtcSessionHandle {
        tenant_id: request.tenant_id,
        rtc_session_id,
        provider_session_id,
        access_endpoint: Some(owned(access_endpoint)),
        region: Some(region),
    }
}

/// A credential a participant joins a provider session with.
#[derive(Clone, Debug, PartialEq, Eq)]
pub struct RtcParticipantCredential {
    pub tenant_id: String,
    pub rtc_session_id: String,
    pub participant_id: String,
    pub credential: String,
    pub expires_at: String,
}

/// `{provider}-token:{tenant_id}:{rtc_session_id}:{participant_id}`.
pub open spec fn placeholder_token(
    provider: Seq<char>,
    tenant_id: Seq<char>,
    rtc_session_id: Seq<char>,
    participant_id: Seq<char>,
) -> Seq<char> {
    provider + "-token:"@ + tenant_id + ":"@ + rtc_session_id + ":"@ + participant_id
}

/// The credential a provider of kind `provider` issues without signing keys.
pub open spec fn placeholder_credential_fields(
    c: RtcParticipantCredential,
    provider: Seq<char>,
    tenant_id: Seq<char>,
    rtc_session_id: Seq<char>,
    participant_id: Seq<char>,
) -> bool {
    &&& c.tenant_id@ == tenant_id
    &&& c.rtc_session_id@ == rtc_session_id
    &&& c.participant_id@ == participant_id
    &&& c.credential@ == placeholder_token(provider, tenant_id, rtc_session_id, participant_id)
}

/// Issues the unsigned credential of a provider of kind `provider`, stamped `expires_at`.
pub fn placeholder_credential_at(
    provider: &str,
    tenant_id: &str,
    rtc_session_id: &str,
    participant_id: &str,
    expires_at: String,
) -> (res: RtcParticipantCredential)
    ensures
        placeholder_credential_fields(res, provider@, tenant_id@, rtc_session_id@, participant_id@),
        res.expires_at@ == expires_at@,
{
    let mut credential = owned(provider);
    push_str(&mut credential, "-token:");
    push_str(&mut credential, tenant_id);
    push_str(&mut credential, ":");
    push_str(&mut credential, rtc_session_id);
    push_str(&mut credential, ":");
    push_str(&mut credential, participant_id);
    RtcParticipantCredential {
        tenant_id: owned(tenant_id),
        rtc_session_id: owned(rtc_session_id),
        participant_id: owned(participant_id),
        credential,
        expires_at,
    }
}

/// A provider's answer to a health probe.
#[derive(Clone, Debug, PartialEq, Eq)]
pub struct ProviderHealthSnapshot {
    pub plugin_id: String,
    pub status: String,
    pub checked_at: String,
    /// Detail entries, sorted by key, each key once.
    pub details: Vec<(String, String)>,
}

/// The texts of a list of key/value pairs.
pub open spec fn pair_texts(v: Seq<(String, String)>) -> Seq<(Seq<char>, Seq<char>)> {
    v.map_values(|p: (String, String)| (p.0@, p.1@))
}

/// The health details of a configured provider: its kind, endpoint and region, in key order.
pub open spec fn health_details(provider: Seq<char>, access_endpoint: Seq<char>, region: Seq<char>) -> Seq<(Seq<char>, Seq<char>)> {
    seq![("accessEndpoint"@, access_endpoint), ("providerKind"@, provider), ("region"@, region)]
}

/// The healthy snapshot of a configured provider, stamped `checked_at`.
pub fn healthy_snapshot_at(
    plugin_id: &str,
    provider: &str,
    access_endpoint: &str,
    region: &str,
    checked_at: String,
) -> (res: ProviderHealthSnapshot)
    ensures
        res.plugin_id@ == plugin_id@,
        res.status@ == "healthy"@,
        res.checked_at@ == checked_at@,
        pair_texts(res.details@) == health_details(provider@, access_endpoint@, region@),
{
    let mut details: Vec<(String, String)> = Vec::new();
    details.push((owned("accessEndpoint"), owned(access_endpoint)));
    details.push((owned("providerKind"), owned(provider)));
    details.push((owned("region"), owned(region)));
    assert(pair_texts(details@) =~= health_details(provider@, access_endpoint@, region@));
    ProviderHealthSnapshot {
        plugin_id: owned(plugin_id),
        status: owned("healthy"),
        checked_at,
        details,
    }
}

/// `Some(x)`, built generically so that no coercion is inserted at the call site.
pub fn wrap_some<T>(x: T) -> (res: Option<T>)
    ensures
        res == Some(x),
{
    Some(x)
}

/// Another handle on the value behind `shared` (`Arc::clone`): it points at the same
/// allocation, so it is the same value.
#[verifier::external_body]
pub(crate) fn share_arc<T: ?Sized>(shared: &Arc<T>) -> (res: Arc<T>)
    ensures
        res == *shared,
{
    Arc::clone(shared)
}

/// Another handle on an optional shared value: none stays none, and a held value is
/// shared, not copied.
pub(crate) fn share_optional<T: ?Sized>(shared: &Option<Arc<T>>) -> (res: Option<Arc<T>>)
    ensures
        res == *shared,
{
    match shared {
        Some(a) => {
            let b = share_arc(a);
            wrap_some(b)
        },
        None => None,
    }
}

} // verus!
