use vstd::prelude::*;
use crate::domain::opt_view;
use crate::text::{owned, push_str};

verus! {

/// Failure of a provider operation.
#[derive(Debug)]
pub enum RtcContractError {
    /// The provider cannot serve the request as configured.
    Unavailable(String),
    /// The request conflicts with what the provider accepts.
    Conflict(String),
}

/// The mathematical content of an [`RtcContractError`].
pub enum ContractFault {
    Unavailable(Seq<char>),
    Conflict(Seq<char>),
}

impl View for RtcContractError {
    type V = ContractFault;

    open spec fn view(&self) -> ContractFault {
        match self {
            RtcContractError::Unavailable(message) => ContractFault::Unavailable(message@),
            RtcContractError::Conflict(message) => ContractFault::Conflict(message@),
        }
    }
}

/// Failure of a storage codec or row check.
#[derive(Debug)]
pub enum RtcStorageError {
    /// The database driver failed; the driver's message.
    Sqlx(String),
    /// JSON encoding or decoding failed; the encoder's message.
    Json(String),
    /// A stored value does not decode into the field's domain.
    InvalidEnumValue { field: &'static str, value: String },
    /// The media session summary row that a completion record needs is missing.
    MissingMediaSessionSummary { media_session_id: String },
    /// No provider account row was touched.
    MissingProviderAccount { provider_account_id: String },
    /// No provider application row was touched.
    MissingProviderApplication { provider_application_id: String },
    /// No provider credential row was touched.
    MissingProviderCredential { provider_credential_id: String },
    /// No provider profile row was touched.
    MissingProviderProfile { provider_profile_id: String },
    /// No provider route row was touched.
    MissingProviderRoute { provider_route_id: String },
    /// No provider webhook event row was touched.
    MissingProviderWebhookEvent { webhook_event_id: String },
    /// No provider query job row was touched.
    MissingProviderQueryJob { provider_query_job_id: String },
    /// No provider query snapshot row was touched.
    MissingProviderQuerySnapshot { provider_query_snapshot_id: String },
    /// The write conflicts with what is stored.
    Conflict(String),
}

/// The mathematical content of an [`RtcStorageError`].
pub enum StorageFault {
    Sqlx(Seq<char>),
    Json(Seq<char>),
    InvalidEnumValue { field: Seq<char>, value: Seq<char> },
    MissingMediaSessionSummary { media_session_id: Seq<char> },
    MissingProviderAccount { provider_account_id: Seq<char> },
    MissingProviderApplication { provider_application_id: Seq<char> },
    MissingProviderCredential { provider_credential_id: Seq<char> },
    MissingProviderProfile { provider_profile_id: Seq<char> },
    MissingProviderRoute { provider_route_id: Seq<char> },
    MissingProviderWebhookEvent { webhook_event_id: Seq<char> },
    MissingProviderQueryJob { provider_query_job_id: Seq<char> },
    MissingProviderQuerySnapshot { provider_query_snapshot_id: Seq<char> },
    Conflict(Seq<char>),
}

impl View for RtcStorageError {
    type V = StorageFault;

    open spec fn view(&self) -> StorageFault {
        match self {
            RtcStorageError::Sqlx(message) => StorageFault::Sqlx(message@),
            RtcStorageError::Json(message) => StorageFault::Json(message@),
            RtcStorageError::InvalidEnumValue { field, value } => StorageFault::InvalidEnumValue {
                field: field@,
                value: value@,
            },
            RtcStorageError::MissingMediaSessionSummary { media_session_id } => StorageFault::MissingMediaSessionSummary { media_session_id: media_session_id@ },
            RtcStorageError::MissingProviderAccount { provider_account_id } => StorageFault::MissingProviderAccount { provider_account_id: provider_account_id@ },
            RtcStorageError::MissingProviderApplication { provider_application_id } => StorageFault::MissingProviderApplication { provider_application_id: provider_application_id@ },
            RtcStorageError::MissingProviderCredential { provider_credential_id } => StorageFault::MissingProviderCredential { provider_credential_id: provider_credential_id@ },
            RtcStorageError::MissingProviderProfile { provider_profile_id } => StorageFault::MissingProviderProfile { provider_profile_id: provider_profile_id@ },
            RtcStorageError::MissingProviderRoute { provider_route_id } => StorageFault::MissingProviderRoute { provider_route_id: provider_route_id@ },
            RtcStorageError::MissingProviderWebhookEvent { webhook_event_id } => StorageFault::MissingProviderWebhookEvent { webhook_event_id: webhook_event_id@ },
            RtcStorageError::MissingProviderQueryJob { provider_query_job_id } => StorageFault::MissingProviderQueryJob { provider_query_job_id: provider_query_job_id@ },
            RtcStorageError::MissingProviderQuerySnapshot { provider_query_snapshot_id } => StorageFault::MissingProviderQuerySnapshot { provider_query_snapshot_id: provider_query_snapshot_id@ },
            RtcStorageError::Conflict(message) => StorageFault::Conflict(message@),
        }
    }
}

/// The text a storage fault is displayed with.
pub open spec fn storage_fault_text(fault: StorageFault) -> Seq<char> {
    match fault {
        StorageFault::Sqlx(m) => "rtc storage sqlx error: "@ + m,
        StorageFault::Json(m) => "rtc storage json error: "@ + m,
        StorageFault::InvalidEnumValue { field, value } =>
            "invalid rtc storage enum value for "@ + field + ": "@ + value,
        StorageFault::MissingMediaSessionSummary { media_session_id } => "rtc media session summary row is missing for completion record: "@ + media_session_id,
        StorageFault::MissingProviderAccount { provider_account_id } => "rtc provider account row is missing: "@ + provider_account_id,
        StorageFault::MissingProviderApplication { provider_application_id } => "rtc provider application row is missing: "@ + provider_application_id,
        StorageFault::MissingProviderCredential { provider_credential_id } => "rtc provider credential row is missing: "@ + provider_credential_id,
        StorageFault::MissingProviderProfile { provider_profile_id } => "rtc provider profile row is missing: "@ + provider_profile_id,
        StorageFault::MissingProviderRoute { provider_route_id } => "rtc provider route row is missing: "@ + provider_route_id,
        StorageFault::MissingProviderWebhookEvent { webhook_event_id } => "rtc provider webhook event row is missing: "@ + webhook_event_id,
        StorageFault::MissingProviderQueryJob { provider_query_job_id } => "rtc provider query job row is missing: "@ + provider_query_job_id,
        StorageFault::MissingProviderQuerySnapshot { provider_query_snapshot_id } => "rtc provider query snapshot row is missing: "@ + provider_query_snapshot_id,
        StorageFault::Conflict(m) => "rtc storage conflict: "@ + m,
    }
}

fn prefixed(prefix: &str, detail: &str) -> (res: String)
    ensures
        res@ == prefix@ + detail@,
{
    let mut out = owned(prefix);
    push_str(&mut out, detail);
    out
}

impl RtcStorageError {
    /// The text the error is displayed with.
    pub fn message(&self) -> (res: String)
        ensures
            res@ == storage_fault_text(self@),
    {
        match self {
            RtcStorageError::Sqlx(m) => prefixed("rtc storage sqlx error: ", m.as_str()),
            RtcStorageError::Json(m) => prefixed("rtc storage json error: ", m.as_str()),
            RtcStorageError::InvalidEnumValue { field, value } => {
                let mut out = prefixed("invalid rtc storage enum value for ", field);
                push_str(&mut out, ": ");
                push_str(&mut out, value.as_str());
                out
            },
            RtcStorageError::MissingMediaSessionSummary { media_session_id } => prefixed("rtc media session summary row is missing for completion record: ", media_session_id.as_str()),
            RtcStorageError::MissingProviderAccount { provider_account_id } => prefixed("rtc provider account row is missing: ", provider_account_id.as_str()),
            RtcStorageError::MissingProviderApplication { provider_application_id } => prefixed("rtc provider application row is missing: ", provider_application_id.as_str()),
            RtcStorageError::MissingProviderCredential { provider_credential_id } => prefixed("rtc provider credential row is missing: ", provider_credential_id.as_str()),
            RtcStorageError::MissingProviderProfile { provider_profile_id } => prefixed("rtc provider profile row is missing: ", provider_profile_id.as_str()),
            RtcStorageError::MissingProviderRoute { provider_route_id } => prefixed("rtc provider route row is missing: ", provider_route_id.as_str()),
            RtcStorageError::MissingProviderWebhookEvent { webhook_event_id } => prefixed("rtc provider webhook event row is missing: ", webhook_event_id.as_str()),
            RtcStorageError::MissingProviderQueryJob { provider_query_job_id } => prefixed("rtc provider query job row is missing: ", provider_query_job_id.as_str()),
            RtcStorageError::MissingProviderQuerySnapshot { provider_query_snapshot_id } => prefixed("rtc provider query snapshot row is missing: ", provider_query_snapshot_id.as_str()),
            RtcStorageError::Conflict(m) => prefixed("rtc storage conflict: ", m.as_str()),
        }
    }
}

/// Failure of the persistence port, as the RTC service sees it.
#[derive(Debug)]
pub enum RtcPersistenceError {
    /// The request itself is refused.
    BadRequest(String),
    /// The write conflicts with what is stored.
    Conflict(String),
    /// The store cannot serve the request.
    Unavailable(String),
}

/// The mathematical content of an [`RtcPersistenceError`].
pub enum PersistenceFault {
    BadRequest(Seq<char>),
    Conflict(Seq<char>),
    Unavailable(Seq<char>),
}

impl View for RtcPersistenceError {
    type V = PersistenceFault;

    open spec fn view(&self) -> PersistenceFault {
        match self {
            RtcPersistenceError::BadRequest(message) => PersistenceFault::BadRequest(message@),
            RtcPersistenceError::Conflict(message) => PersistenceFault::Conflict(message@),
            RtcPersistenceError::Unavailable(message) => PersistenceFault::Unavailable(message@),
        }
    }
}

/// How a storage failure reaches the service: a conflict stays a conflict with its own
/// message; a driver failure that the database reported as a unique violation becomes
/// a conflict with the database's message; anything else makes the store unavailable,
/// with the failure's text.
pub open spec fn persistence_fault(error: StorageFault, unique_violation: Option<Seq<char>>) -> PersistenceFault {
    match error {
        StorageFault::Conflict(message) => PersistenceFault::Conflict(message),
        StorageFault::Sqlx(_) if unique_violation is Some => PersistenceFault::Conflict(unique_violation->0),
        other => PersistenceFault::Unavailable(storage_fault_text(other)),
    }
}

/// Maps a storage failure to the service's persistence error. `unique_violation` holds the
/// database's message when the driver failure was a unique-key violation.
pub fn storage_to_persistence_error(error: RtcStorageError, unique_violation: Option<String>) -> (res: RtcPersistenceError)
    ensures
        res@ == persistence_fault(error@, opt_view(unique_violation)),
{
    match error {
        RtcStorageError::Conflict(message) => RtcPersistenceError::Conflict(message),
        RtcStorageError::Sqlx(detail) => match unique_violation {
            Some(message) => RtcPersistenceError::Conflict(message),
            None => RtcPersistenceError::Unavailable(RtcStorageError::Sqlx(detail).message()),
        },
        other => RtcPersistenceError::Unavailable(other.message()),
    }
}

} // verus!
