use vstd::prelude::*;
use crate::error::RtcStorageError;
use crate::event_codec::invalid_value;
use crate::media_session::invalid_code;
use crate::numtext::int_text;

verus! {

/// The state of a provider account.
#[derive(Clone, Copy, Debug, PartialEq, Eq, Structural)]
pub enum RtcProviderAccountStatus {
    Active,
    Disabled,
    Archived,
}

/// The number a [`RtcProviderAccountStatus`] is stored as.
pub open spec fn provider_account_status_code(value: RtcProviderAccountStatus) -> i32 {
    match value {
        RtcProviderAccountStatus::Active => 1,
        RtcProviderAccountStatus::Disabled => 2,
        RtcProviderAccountStatus::Archived => 3,
    }
}

/// Stores a [`RtcProviderAccountStatus`] as its number.
pub fn provider_account_status_to_i32(value: &RtcProviderAccountStatus) -> (res: i32)
    ensures
        res == provider_account_status_code(*value),
{
    match value {
        RtcProviderAccountStatus::Active => 1,
        RtcProviderAccountStatus::Disabled => 2,
        RtcProviderAccountStatus::Archived => 3,
    }
}

/// The [`RtcProviderAccountStatus`] stored as `code`, if any.
pub open spec fn provider_account_status_of_code(code: i32) -> Option<RtcProviderAccountStatus> {
    if code == 1 {
        Some(RtcProviderAccountStatus::Active)
    } else if code == 2 {
        Some(RtcProviderAccountStatus::Disabled)
    } else if code == 3 {
        Some(RtcProviderAccountStatus::Archived)
    } else {
        None
    }
}

/// Reads a stored [`RtcProviderAccountStatus`]; an unknown number is an invalid `provider_account_status` value.
pub fn i32_to_provider_account_status(value: i32) -> (res: Result<RtcProviderAccountStatus, RtcStorageError>)
    ensures
        match provider_account_status_of_code(value) {
            Some(v) => res == Ok::<RtcProviderAccountStatus, RtcStorageError>(v),
            None => res matches Err(e) && e@ == invalid_value("provider_account_status"@, int_text(value as int)),
        },
{
    match value {
        1 => Ok(RtcProviderAccountStatus::Active),
        2 => Ok(RtcProviderAccountStatus::Disabled),
        3 => Ok(RtcProviderAccountStatus::Archived),
        _ => Err(invalid_code("provider_account_status", value)),
    }
}

/// The state of a provider application.
#[derive(Clone, Copy, Debug, PartialEq, Eq, Structural)]
pub enum RtcProviderApplicationStatus {
    Active,
    Disabled,
    Archived,
}

/// The number a [`RtcProviderApplicationStatus`] is stored as.
pub open spec fn provider_application_status_code(value: RtcProviderApplicationStatus) -> i32 {
    match value {
        RtcProviderApplicationStatus::Active => 1,
        RtcProviderApplicationStatus::Disabled => 2,
        RtcProviderApplicationStatus::Archived => 3,
    }
}

/// Stores a [`RtcProviderApplicationStatus`] as its number.
pub fn provider_application_status_to_i32(value: &RtcProviderApplicationStatus) -> (res: i32)
    ensures
        res == provider_application_status_code(*value),
{
    match value {
        RtcProviderApplicationStatus::Active => 1,
        RtcProviderApplicationStatus::Disabled => 2,
        RtcProviderApplicationStatus::Archived => 3,
    }
}

/// The [`RtcProviderApplicationStatus`] stored as `code`, if any.
pub open spec fn provider_application_status_of_code(code: i32) -> Option<RtcProviderApplicationStatus> {
    if code == 1 {
        Some(RtcProviderApplicationStatus::Active)
    } else if code == 2 {
        Some(RtcProviderApplicationStatus::Disabled)
    } else if code == 3 {
        Some(RtcProviderApplicationStatus::Archived)
    } else {
        None
    }
}

/// Reads a stored [`RtcProviderApplicationStatus`]; an unknown number is an invalid `provider_application_status` value.
pub fn i32_to_provider_application_status(value: i32) -> (res: Result<RtcProviderApplicationStatus, RtcStorageError>)
    ensures
        match provider_application_status_of_code(value) {
            Some(v) => res == Ok::<RtcProviderApplicationStatus, RtcStorageError>(v),
            None => res matches Err(e) && e@ == invalid_value("provider_application_status"@, int_text(value as int)),
        },
{
    match value {
        1 => Ok(RtcProviderApplicationStatus::Active),
        2 => Ok(RtcProviderApplicationStatus::Disabled),
        3 => Ok(RtcProviderApplicationStatus::Archived),
        _ => Err(invalid_code("provider_application_status", value)),
    }
}

/// What a provider credential signs.
#[derive(Clone, Copy, Debug, PartialEq, Eq, Structural)]
pub enum RtcProviderCredentialRole {
    RtcTokenSigning,
    OpenApiSigning,
    UserSigSigning,
    CloudApiSigning,
    WebhookSigning,
}

/// The number a [`RtcProviderCredentialRole`] is stored as.
pub open spec fn provider_credential_role_code(value: RtcProviderCredentialRole) -> i32 {
    match value {
        RtcProviderCredentialRole::RtcTokenSigning => 1,
        RtcProviderCredentialRole::OpenApiSigning => 2,
        RtcProviderCredentialRole::UserSigSigning => 3,
        RtcProviderCredentialRole::CloudApiSigning => 4,
        RtcProviderCredentialRole::WebhookSigning => 5,
    }
}

/// Stores a [`RtcProviderCredentialRole`] as its number.
pub fn provider_credential_role_to_i32(value: &RtcProviderCredentialRole) -> (res: i32)
    ensures
        res == provider_credential_role_code(*value),
{
    match value {
        RtcProviderCredentialRole::RtcTokenSigning => 1,
        RtcProviderCredentialRole::OpenApiSigning => 2,
        RtcProviderCredentialRole::UserSigSigning => 3,
        RtcProviderCredentialRole::CloudApiSigning => 4,
        RtcProviderCredentialRole::WebhookSigning => 5,
    }
}

/// The [`RtcProviderCredentialRole`] stored as `code`, if any.
pub open spec fn provider_credential_role_of_code(code: i32) -> Option<RtcProviderCredentialRole> {
    if code == 1 {
        Some(RtcProviderCredentialRole::RtcTokenSigning)
    } else if code == 2 {
        Some(RtcProviderCredentialRole::OpenApiSigning)
    } else if code == 3 {
        Some(RtcProviderCredentialRole::UserSigSigning)
    } else if code == 4 {
        Some(RtcProviderCredentialRole::CloudApiSigning)
    } else if code == 5 {
        Some(RtcProviderCredentialRole::WebhookSigning)
    } else {
        None
    }
}

/// Reads a stored [`RtcProviderCredentialRole`]; an unknown number is an invalid `provider_credential_role` value.
pub fn i32_to_provider_credential_role(value: i32) -> (res: Result<RtcProviderCredentialRole, RtcStorageError>)
    ensures
        match provider_credential_role_of_code(value) {
            Some(v) => res == Ok::<RtcProviderCredentialRole, RtcStorageError>(v),
            None => res matches Err(e) && e@ == invalid_value("provider_credential_role"@, int_text(value as int)),
        },
{
    match value {
        1 => Ok(RtcProviderCredentialRole::RtcTokenSigning),
        2 => Ok(RtcProviderCredentialRole::OpenApiSigning),
        3 => Ok(RtcProviderCredentialRole::UserSigSigning),
        4 => Ok(RtcProviderCredentialRole::CloudApiSigning),
        5 => Ok(RtcProviderCredentialRole::WebhookSigning),
        _ => Err(invalid_code("provider_credential_role", value)),
    }
}

/// The state of a provider credential.
#[derive(Clone, Copy, Debug, PartialEq, Eq, Structural)]
pub enum RtcProviderCredentialStatus {
    Active,
    Pending,
    Disabled,
    Revoked,
    Expired,
}

/// The number a [`RtcProviderCredentialStatus`] is stored as.
pub open spec fn provider_credential_status_code(value: RtcProviderCredentialStatus) -> i32 {
    match value {
        RtcProviderCredentialStatus::Active => 1,
        RtcProviderCredentialStatus::Pending => 2,
        RtcProviderCredentialStatus::Disabled => 3,
        RtcProviderCredentialStatus::Revoked => 4,
        RtcProviderCredentialStatus::Expired => 5,
    }
}

/// Stores a [`RtcProviderCredentialStatus`] as its number.
pub fn provider_credential_status_to_i32(value: &RtcProviderCredentialStatus) -> (res: i32)
    ensures
        res == provider_credential_status_code(*value),
{
    match value {
        RtcProviderCredentialStatus::Active => 1,
        RtcProviderCredentialStatus::Pending => 2,
        RtcProviderCredentialStatus::Disabled => 3,
        RtcProviderCredentialStatus::Revoked => 4,
        RtcProviderCredentialStatus::Expired => 5,
    }
}

/// The [`RtcProviderCredentialStatus`] stored as `code`, if any.
pub open spec fn provider_credential_status_of_code(code: i32) -> Option<RtcProviderCredentialStatus> {
    if code == 1 {
        Some(RtcProviderCredentialStatus::Active)
    } else if code == 2 {
        Some(RtcProviderCredentialStatus::Pending)
    } else if code == 3 {
        Some(RtcProviderCredentialStatus::Disabled)
    } else if code == 4 {
        Some(RtcProviderCredentialStatus::Revoked)
    } else if code == 5 {
        Some(RtcProviderCredentialStatus::Expired)
    } else {
        None
    }
}

/// Reads a stored [`RtcProviderCredentialStatus`]; an unknown number is an invalid `provider_credential_status` value.
pub fn i32_to_provider_credential_status(value: i32) -> (res: Result<RtcProviderCredentialStatus, RtcStorageError>)
    ensures
        match provider_credential_status_of_code(value) {
            Some(v) => res == Ok::<RtcProviderCredentialStatus, RtcStorageError>(v),
            None => res matches Err(e) && e@ == invalid_value("provider_credential_status"@, int_text(value as int)),
        },
{
    match value {
        1 => Ok(RtcProviderCredentialStatus::Active),
        2 => Ok(RtcProviderCredentialStatus::Pending),
        3 => Ok(RtcProviderCredentialStatus::Disabled),
        4 => Ok(RtcProviderCredentialStatus::Revoked),
        5 => Ok(RtcProviderCredentialStatus::Expired),
        _ => Err(invalid_code("provider_credential_status", value)),
    }
}

} // verus!
