use vstd::prelude::*;
use crate::error::{RtcStorageError, StorageFault};
use crate::event_codec::invalid_value;
use crate::ids::trimmed;
use crate::ids::trim_chars;
use crate::provider_account::RtcProviderAccountStatus;
use crate::tencent::{all_digits, digits_value};
use crate::text::{chars_of, owned, push_str, str_eq, string_from_chars};

verus! {

/// A `u32` stored in an `i32` column, saturated at `i32::MAX`.
pub fn u32_to_i32(value: u32) -> (res: i32)
    ensures
        res == if value <= i32::MAX as u32 { value as i32 } else { i32::MAX },
{
    if value <= i32::MAX as u32 { value as i32 } else { i32::MAX }
}

/// A `u32` stored in an `i64` column.
pub fn u32_to_i64(value: u32) -> (res: i64)
    ensures
        res == value as i64,
{
    value as i64
}

/// An optional `u64` stored in an `i64` column, saturated at `i64::MAX`.
pub fn option_u64_to_i64(value: Option<u64>) -> (res: Option<i64>)
    ensures
        res == match value {
            Some(v) => Some(if v <= i64::MAX as u64 { v as i64 } else { i64::MAX }),
            None => None,
        },
{
    match value {
        Some(v) => Some(if v <= i64::MAX as u64 { v as i64 } else { i64::MAX }),
        None => None,
    }
}

/// An optional `i64` column read back as `u64`; negative values read as absent.
pub fn option_i64_to_u64(value: Option<i64>) -> (res: Option<u64>)
    ensures
        res == match value {
            Some(v) => if v >= 0 { Some(v as u64) } else { None },
            None => None,
        },
{
    match value {
        Some(v) => if v >= 0 { Some(v as u64) } else { None },
        None => None,
    }
}

/// An `i64` column read back as `u32`; a value out of range reads as `u32::MAX`.
pub fn i64_column_to_u32(value: i64) -> (res: u32)
    ensures
        res == (if 0 <= value <= u32::MAX { value as u32 } else { u32::MAX }),
{
    if 0 <= value && value <= 0xffff_ffff { value as u32 } else { u32::MAX }
}

/// An `i32` column read back as `u32`; a negative value reads as `u32::MAX`.
pub fn i32_column_to_u32(value: i32) -> (res: u32)
    ensures
        res == (if value >= 0 { value as u32 } else { u32::MAX }),
{
    if value >= 0 { value as u32 } else { u32::MAX }
}

/// An optional `i64` column read back as `u32`; a value out of range reads as absent.
pub fn optional_i64_column_to_u32(value: Option<i64>) -> (res: Option<u32>)
    ensures
        res == match value {
            Some(v) => if 0 <= v <= u32::MAX { Some(v as u32) } else { None },
            None => None,
        },
{
    match value {
        Some(v) => if 0 <= v && v <= 0xffff_ffff { Some(v as u32) } else { None },
        None => None,
    }
}

/// An optional `i32` column read back as `u32`; a negative value reads as absent.
pub fn optional_i32_column_to_u32(value: Option<i32>) -> (res: Option<u32>)
    ensures
        res == match value {
            Some(v) => if v >= 0 { Some(v as u32) } else { None },
            None => None,
        },
{
    match value {
        Some(v) => if v >= 0 { Some(v as u32) } else { None },
        None => None,
    }
}

/// A flag stored as `1` or `0`.
pub fn bool_to_i64(value: bool) -> (res: i64)
    ensures
        res == if value { 1i64 } else { 0i64 },
{
    if value { 1 } else { 0 }
}

/// What `str::parse::<i64>` reads: an optional sign and at least one digit, of a value
/// that fits in `i64`.
pub open spec fn parsed_i64(s: Seq<char>) -> Option<i64> {
    let negative = s.len() > 0 && s[0] == '-';
    let d = if s.len() > 0 && (s[0] == '+' || s[0] == '-') { s.drop_first() } else { s };
    if d.len() > 0 && all_digits(d) {
        if negative {
            if digits_value(d) <= 0x8000_0000_0000_0000 {
                Some((0 - digits_value(d)) as i64)
            } else {
                None
            }
        } else if digits_value(d) <= i64::MAX {
            Some(digits_value(d) as i64)
        } else {
            None
        }
    } else {
        None
    }
}

/// Reads a decimal `i64` as `str::parse::<i64>` does.
pub fn parse_i64(s: &str) -> (res: Option<i64>)
    ensures
        res == parsed_i64(s@),
{
    let chars = chars_of(s);
    let signed = chars.len() > 0 && (chars[0] == '+' || chars[0] == '-');
    let negative = chars.len() > 0 && chars[0] == '-';
    let start: usize = if signed { 1 } else { 0 };
    let ghost d = if s@.len() > 0 && (s@[0] == '+' || s@[0] == '-') { s@.drop_first() } else { s@ };
    assert(d =~= s@.skip(start as int));
    if start == chars.len() {
        return None;
    }
    let limit: u64 = 0x8000_0000_0000_0001;
    let mut value: u64 = 0;
    let mut i: usize = start;
    while i < chars.len()
        invariant
            chars@ == s@,
            d == s@.skip(start as int),
            d == (if s@.len() > 0 && (s@[0] == '+' || s@[0] == '-') { s@.drop_first() } else { s@ }),
            start <= i <= chars.len(),
            all_digits(s@.subrange(start as int, i as int)),
            value == if digits_value(s@.subrange(start as int, i as int)) < limit {
                digits_value(s@.subrange(start as int, i as int))
            } else {
                limit as nat
            },
            limit == 0x8000_0000_0000_0001,
        decreases chars.len() - i,
    {
        let c = chars[i];
        if !('0' <= c && c <= '9') {
            assert(d[i - start] == c);
            return None;
        }
        let digit = (c as u32 - '0' as u32) as u64;
        let ghost prefix = s@.subrange(start as int, i as int);
        assert(s@.subrange(start as int, i + 1).drop_last() =~= prefix);
        assert(s@.subrange(start as int, i + 1).last() == c);
        let next: u128 = value as u128 * 10 + digit as u128;
        value = if next < limit as u128 { next as u64 } else { limit };
        assert(all_digits(s@.subrange(start as int, i + 1)));
        i = i + 1;
    }
    assert(s@.subrange(start as int, chars.len() as int) =~= d);
    if negative {
        if value <= 0x8000_0000_0000_0000 {
            if value == 0x8000_0000_0000_0000 {
                Some(i64::MIN)
            } else {
                Some(0 - (value as i64))
            }
        } else {
            None
        }
    } else if value <= i64::MAX as u64 {
        Some(value as i64)
    } else {
        None
    }
}

/// Reads a stored numeric id; text that is not an `i64` is an invalid value of `field`.
pub fn parse_i64_field(field: &'static str, value: &str) -> (res: Result<i64, RtcStorageError>)
    ensures
        match parsed_i64(value@) {
            Some(n) => res == Ok::<i64, RtcStorageError>(n),
            None => res matches Err(e) && e@ == invalid_value(field@, value@),
        },
{
    match parse_i64(value) {
        Some(n) => Ok(n),
        None => Err(RtcStorageError::InvalidEnumValue { field, value: owned(value) }),
    }
}

/// Reads an optional stored numeric id; absent stays absent.
pub fn option_string_to_i64(field: &'static str, value: Option<&str>) -> (res: Result<Option<i64>, RtcStorageError>)
    ensures
        match value {
            None => res == Ok::<Option<i64>, RtcStorageError>(None),
            Some(text) => match parsed_i64(text@) {
                Some(n) => res == Ok::<Option<i64>, RtcStorageError>(Some(n)),
                None => res matches Err(e) && e@ == invalid_value(field@, text@),
            },
        },
{
    match value {
        None => Ok(None),
        Some(text) => match parse_i64_field(field, text) {
            Ok(n) => Ok(Some(n)),
            Err(e) => Err(e),
        },
    }
}

/// A stored payload hash and an incoming one disagree: both are known and they differ.
pub open spec fn payload_mismatch(stored: Seq<char>, incoming: Seq<char>) -> bool {
    stored.len() > 0 && incoming.len() > 0 && stored != incoming
}

/// Whether an idempotency key is being reused with a different payload.
pub fn idempotency_payload_mismatch(stored_hash: &str, incoming_hash: &str) -> (res: bool)
    ensures
        res == payload_mismatch(stored_hash@, incoming_hash@),
{
    proof {
        assert(stored_hash@.len() == 0 <==> stored_hash@ =~= Seq::<char>::empty());
    }
    let stored_empty = stored_hash.is_empty();
    let incoming_empty = incoming_hash.is_empty();
    !stored_empty && !incoming_empty && !str_eq(stored_hash, incoming_hash)
}

/// A claim of an idempotency key for a media session create.
#[derive(Clone, Debug, PartialEq, Eq)]
pub struct RtcMediaSessionIdempotencyRecord {
    pub id: String,
    pub tenant_id: String,
    pub organization_id: String,
    pub idempotency_key: String,
    pub media_session_id: String,
    pub payload_hash: String,
    pub response_json: String,
    pub created_at: String,
}

/// What checking a new claim against the stored one for the same key gives: a conflict
/// when the payloads differ, else a conflict when the sessions differ, else success.
pub open spec fn claim_match(record: RtcMediaSessionIdempotencyRecord, existing: RtcMediaSessionIdempotencyRecord) -> Result<(), StorageFault> {
    if payload_mismatch(existing.payload_hash@, record.payload_hash@) {
        Err(StorageFault::Conflict(
            "RTC media session idempotency key reused with different payload: "@ + record.idempotency_key@,
        ))
    } else if existing.media_session_id@ != record.media_session_id@ {
        Err(StorageFault::Conflict(
            "RTC media session idempotency key reused with different session target: "@
                + record.idempotency_key@,
        ))
    } else {
        Ok(())
    }
}

/// The storage view of a check result.
pub open spec fn unit_view(r: Result<(), RtcStorageError>) -> Result<(), StorageFault> {
    match r {
        Ok(_) => Ok(()),
        Err(e) => Err(e@),
    }
}

fn conflict(prefix: &str, key: &str) -> (res: RtcStorageError)
    ensures
        res@ == StorageFault::Conflict(prefix@ + key@),
{
    let mut message = owned(prefix);
    push_str(&mut message, key);
    RtcStorageError::Conflict(message)
}

/// Checks a new idempotency claim against the stored one for the same key.
pub fn validate_idempotency_claim_match(
    record: &RtcMediaSessionIdempotencyRecord,
    existing: &RtcMediaSessionIdempotencyRecord,
) -> (res: Result<(), RtcStorageError>)
    ensures
        unit_view(res) == claim_match(*record, *existing),
{
    if idempotency_payload_mismatch(existing.payload_hash.as_str(), record.payload_hash.as_str()) {
        return Err(conflict(
            "RTC media session idempotency key reused with different payload: ",
            record.idempotency_key.as_str(),
        ));
    }
    if !str_eq(existing.media_session_id.as_str(), record.media_session_id.as_str()) {
        return Err(conflict(
            "RTC media session idempotency key reused with different session target: ",
            record.idempotency_key.as_str(),
        ));
    }
    Ok(())
}

/// What claiming an idempotency key gave: the key was free and is now held, or an
/// earlier claim of the same request already holds it.
#[derive(Clone, Debug, PartialEq, Eq)]
pub enum RtcMediaSessionIdempotencyClaim {
    Claimed,
    Existing(RtcMediaSessionIdempotencyRecord),
}

/// The outcome of a claim: held when the conditional insert wrote a row; otherwise the
/// stored record for the key must be there and must match the new claim.
pub open spec fn claim_outcome(
    record: RtcMediaSessionIdempotencyRecord,
    inserted_rows: u64,
    stored: Option<RtcMediaSessionIdempotencyRecord>,
) -> Result<RtcMediaSessionIdempotencyClaim, StorageFault> {
    if inserted_rows > 0 {
        Ok(RtcMediaSessionIdempotencyClaim::Claimed)
    } else {
        match stored {
            None => Err(StorageFault::Conflict(
                "RTC media session idempotency claim failed without a stored record"@,
            )),
            Some(existing) => match claim_match(record, existing) {
                Ok(_) => Ok(RtcMediaSessionIdempotencyClaim::Existing(existing)),
                Err(fault) => Err(fault),
            },
        }
    }
}

/// One claim of `record` against the store, where `stored` is the record the store holds
/// for the record's key: the conditional insert writes the record only when the key is
/// free, and the claim is then decided from the rows written and the record the key
/// holds afterwards. Gives the claim's result and the record the key holds after it.
pub open spec fn claim_against_store(
    stored: Option<RtcMediaSessionIdempotencyRecord>,
    record: RtcMediaSessionIdempotencyRecord,
) -> (Result<RtcMediaSessionIdempotencyClaim, StorageFault>, Option<RtcMediaSessionIdempotencyRecord>) {
    let inserted_rows: u64 = if stored is None { 1 } else { 0 };
    let after = if stored is None { Some(record) } else { stored };
    (claim_outcome(record, inserted_rows, after), after)
}

/// The storage view of a claim result.
pub open spec fn claim_view(
    r: Result<RtcMediaSessionIdempotencyClaim, RtcStorageError>,
) -> Result<RtcMediaSessionIdempotencyClaim, StorageFault> {
    match r {
        Ok(claim) => Ok(claim),
        Err(e) => Err(e@),
    }
}

/// Decides a claim of an idempotency key from the number of rows that the conditional
/// insert wrote and the record that a lookup of the key then found.
pub fn resolve_idempotency_claim(
    record: &RtcMediaSessionIdempotencyRecord,
    inserted_rows: u64,
    stored: Option<RtcMediaSessionIdempotencyRecord>,
) -> (res: Result<RtcMediaSessionIdempotencyClaim, RtcStorageError>)
    ensures
        claim_view(res) == claim_outcome(*record, inserted_rows, stored),
{
    if inserted_rows > 0 {
        return Ok(RtcMediaSessionIdempotencyClaim::Claimed);
    }
    match stored {
        None => Err(RtcStorageError::Conflict(
            owned("RTC media session idempotency claim failed without a stored record"),
        )),
        Some(existing) => match validate_idempotency_claim_match(record, &existing) {
            Ok(()) => Ok(RtcMediaSessionIdempotencyClaim::Existing(existing)),
            Err(e) => Err(e),
        },
    }
}

/// Before a record is written over the stored one for its key, the two must match;
/// a key with no stored record may be written.
pub fn check_idempotency_overwrite(
    record: &RtcMediaSessionIdempotencyRecord,
    stored: Option<&RtcMediaSessionIdempotencyRecord>,
) -> (res: Result<(), RtcStorageError>)
    ensures
        unit_view(res) == (match stored {
            None => Ok(()),
            Some(existing) => claim_match(*record, *existing),
        }),
{
    match stored {
        None => Ok(()),
        Some(existing) => validate_idempotency_claim_match(record, existing),
    }
}

/// An update of a completion record's media session summary that touched no row means the row is missing.
pub fn ensure_session_summary_updated(rows_affected: u64, media_session_id: &str) -> (res: Result<(), RtcStorageError>)
    ensures
        rows_affected == 0 ==> (res matches Err(e) && e@ == StorageFault::MissingMediaSessionSummary { media_session_id: media_session_id@ }),
        rows_affected != 0 ==> res is Ok,
{
    if rows_affected == 0 {
        return Err(RtcStorageError::MissingMediaSessionSummary { media_session_id: owned(media_session_id) });
    }
    Ok(())
}

/// An update of a provider account that touched no row means the row is missing.
pub fn ensure_provider_account_updated(rows_affected: u64, provider_account_id: &str) -> (res: Result<(), RtcStorageError>)
    ensures
        rows_affected == 0 ==> (res matches Err(e) && e@ == StorageFault::MissingProviderAccount { provider_account_id: provider_account_id@ }),
        rows_affected != 0 ==> res is Ok,
{
    if rows_affected == 0 {
        return Err(RtcStorageError::MissingProviderAccount { provider_account_id: owned(provider_account_id) });
    }
    Ok(())
}

/// An update of a provider application that touched no row means the row is missing.
pub fn ensure_provider_application_updated(rows_affected: u64, provider_application_id: &str) -> (res: Result<(), RtcStorageError>)
    ensures
        rows_affected == 0 ==> (res matches Err(e) && e@ == StorageFault::MissingProviderApplication { provider_application_id: provider_application_id@ }),
        rows_affected != 0 ==> res is Ok,
{
    if rows_affected == 0 {
        return Err(RtcStorageError::MissingProviderApplication { provider_application_id: owned(provider_application_id) });
    }
    Ok(())
}

/// An update of a provider credential that touched no row means the row is missing.
pub fn ensure_provider_credential_updated(rows_affected: u64, provider_credential_id: &str) -> (res: Result<(), RtcStorageError>)
    ensures
        rows_affected == 0 ==> (res matches Err(e) && e@ == StorageFault::MissingProviderCredential { provider_credential_id: provider_credential_id@ }),
        rows_affected != 0 ==> res is Ok,
{
    if rows_affected == 0 {
        return Err(RtcStorageError::MissingProviderCredential { provider_credential_id: owned(provider_credential_id) });
    }
    Ok(())
}

/// An update of a provider profile that touched no row means the row is missing.
pub fn ensure_provider_profile_updated(rows_affected: u64, provider_profile_id: &str) -> (res: Result<(), RtcStorageError>)
    ensures
        rows_affected == 0 ==> (res matches Err(e) && e@ == StorageFault::MissingProviderProfile { provider_profile_id: provider_profile_id@ }),
        rows_affected != 0 ==> res is Ok,
{
    if rows_affected == 0 {
        return Err(RtcStorageError::MissingProviderProfile { provider_profile_id: owned(provider_profile_id) });
    }
    Ok(())
}

/// An update of a provider route that touched no row means the row is missing.
pub fn ensure_provider_route_updated(rows_affected: u64, provider_route_id: &str) -> (res: Result<(), RtcStorageError>)
    ensures
        rows_affected == 0 ==> (res matches Err(e) && e@ == StorageFault::MissingProviderRoute { provider_route_id: provider_route_id@ }),
        rows_affected != 0 ==> res is Ok,
{
    if rows_affected == 0 {
        return Err(RtcStorageError::MissingProviderRoute { provider_route_id: owned(provider_route_id) });
    }
    Ok(())
}

/// The column that lists of provider accounts sort by for a requested field; `uuid` otherwise.
pub open spec fn provider_account_sort_key(field: Seq<char>) -> Seq<char> {
    if field == "name"@ {
        "name"@
    } else if field == "code"@ {
        "code"@
    } else if field == "provider"@ {
        "provider"@
    } else if field == "status"@ {
        "status"@
    } else {
        "uuid"@
    }
}

/// The column that lists of provider accounts sort by.
pub fn provider_account_sort_column(field: &str) -> (res: &'static str)
    ensures
        res@ == provider_account_sort_key(field@),
{
    if str_eq(field, "name") {
        "name"
    } else if str_eq(field, "code") {
        "code"
    } else if str_eq(field, "provider") {
        "provider"
    } else if str_eq(field, "status") {
        "status"
    } else {
        "uuid"
    }
}

/// The column that lists of provider applications sort by for a requested field; `uuid` otherwise.
pub open spec fn provider_application_sort_key(field: Seq<char>) -> Seq<char> {
    if field == "name"@ {
        "name"@
    } else if field == "code"@ {
        "code"@
    } else if field == "providerApplicationId"@ || field == "provider_application_id"@ {
        "provider_application_id"@
    } else {
        "uuid"@
    }
}

/// The column that lists of provider applications sort by.
pub fn provider_application_sort_column(field: &str) -> (res: &'static str)
    ensures
        res@ == provider_application_sort_key(field@),
{
    if str_eq(field, "name") {
        "name"
    } else if str_eq(field, "code") {
        "code"
    } else if str_eq(field, "providerApplicationId") || str_eq(field, "provider_application_id") {
        "provider_application_id"
    } else {
        "uuid"
    }
}

/// The column that lists of provider credentials sort by for a requested field; `uuid` otherwise.
pub open spec fn provider_credential_sort_key(field: Seq<char>) -> Seq<char> {
    if field == "label"@ || field == "credentialLabel"@ || field == "credential_label"@ {
        "credential_label"@
    } else if field == "role"@ || field == "credentialRole"@ || field == "credential_role"@ {
        "credential_role"@
    } else if field == "status"@ {
        "status"@
    } else {
        "uuid"@
    }
}

/// The column that lists of provider credentials sort by.
pub fn provider_credential_sort_column(field: &str) -> (res: &'static str)
    ensures
        res@ == provider_credential_sort_key(field@),
{
    if str_eq(field, "label") || str_eq(field, "credentialLabel") || str_eq(field, "credential_label") {
        "credential_label"
    } else if str_eq(field, "role") || str_eq(field, "credentialRole") || str_eq(field, "credential_role") {
        "credential_role"
    } else if str_eq(field, "status") {
        "status"
    } else {
        "uuid"
    }
}

/// The column that lists of webhook events sort by for a requested field; `uuid` otherwise.
pub open spec fn webhook_event_sort_key(field: Seq<char>) -> Seq<char> {
    if field == "provider"@ {
        "provider"@
    } else if field == "eventType"@ || field == "event_type"@ {
        "event_type"@
    } else if field == "externalEventId"@ || field == "external_event_id"@ {
        "external_event_id"@
    } else if field == "receivedAt"@ || field == "received_at"@ {
        "received_at"@
    } else if field == "status"@ {
        "status"@
    } else {
        "uuid"@
    }
}

/// The column that lists of webhook events sort by.
pub fn webhook_event_sort_column(field: &str) -> (res: &'static str)
    ensures
        res@ == webhook_event_sort_key(field@),
{
    if str_eq(field, "provider") {
        "provider"
    } else if str_eq(field, "eventType") || str_eq(field, "event_type") {
        "event_type"
    } else if str_eq(field, "externalEventId") || str_eq(field, "external_event_id") {
        "external_event_id"
    } else if str_eq(field, "receivedAt") || str_eq(field, "received_at") {
        "received_at"
    } else if str_eq(field, "status") {
        "status"
    } else {
        "uuid"
    }
}

/// The column that lists of provider query snapshots sort by for a requested field; `uuid` otherwise.
pub open spec fn provider_query_snapshot_sort_key(field: Seq<char>) -> Seq<char> {
    if field == "queryKind"@ || field == "query_kind"@ {
        "query_kind"@
    } else if field == "jobId"@ || field == "job_id"@ || field == "providerQueryJobId"@ || field == "provider_query_job_id"@ {
        "provider_query_job_id"@
    } else if field == "capturedAt"@ || field == "captured_at"@ {
        "captured_at"@
    } else {
        "uuid"@
    }
}

/// The column that lists of provider query snapshots sort by.
pub fn provider_query_snapshot_sort_column(field: &str) -> (res: &'static str)
    ensures
        res@ == provider_query_snapshot_sort_key(field@),
{
    if str_eq(field, "queryKind") || str_eq(field, "query_kind") {
        "query_kind"
    } else if str_eq(field, "jobId") || str_eq(field, "job_id") || str_eq(field, "providerQueryJobId") || str_eq(field, "provider_query_job_id") {
        "provider_query_job_id"
    } else if str_eq(field, "capturedAt") || str_eq(field, "captured_at") {
        "captured_at"
    } else {
        "uuid"
    }
}

/// The column that lists of provider profiles sort by for a requested field; `uuid` otherwise.
pub open spec fn provider_profile_sort_key(field: Seq<char>) -> Seq<char> {
    if field == "name"@ {
        "name"@
    } else if field == "code"@ {
        "code"@
    } else if field == "provider"@ {
        "provider"@
    } else if field == "priority"@ {
        "priority"@
    } else if field == "isDefault"@ || field == "is_default"@ {
        "is_default"@
    } else {
        "uuid"@
    }
}

/// The column that lists of provider profiles sort by.
pub fn provider_profile_sort_column(field: &str) -> (res: &'static str)
    ensures
        res@ == provider_profile_sort_key(field@),
{
    if str_eq(field, "name") {
        "name"
    } else if str_eq(field, "code") {
        "code"
    } else if str_eq(field, "provider") {
        "provider"
    } else if str_eq(field, "priority") {
        "priority"
    } else if str_eq(field, "isDefault") || str_eq(field, "is_default") {
        "is_default"
    } else {
        "uuid"
    }
}

/// The column that lists of provider routes sort by for a requested field; `uuid` otherwise.
pub open spec fn provider_route_sort_key(field: Seq<char>) -> Seq<char> {
    if field == "providerProfileId"@ || field == "provider_profile_id"@ {
        "provider_profile_id"@
    } else if field == "routeType"@ || field == "route_type"@ {
        "route_type"@
    } else if field == "region"@ {
        "region"@
    } else if field == "priority"@ {
        "priority"@
    } else if field == "status"@ {
        "status"@
    } else {
        "uuid"@
    }
}

/// The column that lists of provider routes sort by.
pub fn provider_route_sort_column(field: &str) -> (res: &'static str)
    ensures
        res@ == provider_route_sort_key(field@),
{
    if str_eq(field, "providerProfileId") || str_eq(field, "provider_profile_id") {
        "provider_profile_id"
    } else if str_eq(field, "routeType") || str_eq(field, "route_type") {
        "route_type"
    } else if str_eq(field, "region") {
        "region"
    } else if str_eq(field, "priority") {
        "priority"
    } else if str_eq(field, "status") {
        "status"
    } else {
        "uuid"
    }
}

/// A list request that the list window refuses.
#[derive(Debug)]
pub enum RtcListWindowError {
    BadRequest(String),
}

impl RtcListWindowError {
    /// A refusal with the given message.
    pub fn bad_request(message: String) -> (res: Self)
        ensures
            res matches RtcListWindowError::BadRequest(m) && m@ == message@,
    {
        RtcListWindowError::BadRequest(message)
    }
}

/// A storage failure met while serving a list is a refusal of the list that carries
/// the failure's text.
pub fn storage_error(error: RtcStorageError) -> (res: RtcListWindowError)
    ensures
        res matches RtcListWindowError::BadRequest(m) && m@ == crate::error::storage_fault_text(error@),
{
    RtcListWindowError::bad_request(error.message())
}

/// The provider account status a list filter names: none for an absent or blank filter,
/// the status for `active`, `disabled` or `archived` (after trimming), else a refusal.
pub open spec fn account_status_filter(status: Option<Seq<char>>) -> Result<Option<RtcProviderAccountStatus>, Seq<char>> {
    match status {
        None => Ok(None),
        Some(s) => {
            let raw = trimmed(s);
            if raw.len() == 0 {
                Ok(None)
            } else if raw == "active"@ {
                Ok(Some(RtcProviderAccountStatus::Active))
            } else if raw == "disabled"@ {
                Ok(Some(RtcProviderAccountStatus::Disabled))
            } else if raw == "archived"@ {
                Ok(Some(RtcProviderAccountStatus::Archived))
            } else {
                Err("invalid provider account status filter: "@ + raw)
            }
        },
    }
}

/// Reads the provider account status filter of a list request.
pub fn provider_account_status_from_key(status: Option<&str>) -> (res: Result<Option<RtcProviderAccountStatus>, RtcListWindowError>)
    ensures
        match (res, account_status_filter(match status {
            Some(s) => Some(s@),
            None => None,
        })) {
            (Ok(a), Ok(b)) => a == b,
            (Err(RtcListWindowError::BadRequest(m)), Err(message)) => m@ == message,
            _ => false,
        },
{
    let raw_chars = match status {
        Some(s) => trim_chars(s),
        None => {
            return Ok(None);
        },
    };
    if raw_chars.len() == 0 {
        return Ok(None);
    }
    let raw = string_from_chars(&raw_chars);
    if str_eq(raw.as_str(), "active") {
        Ok(Some(RtcProviderAccountStatus::Active))
    } else if str_eq(raw.as_str(), "disabled") {
        Ok(Some(RtcProviderAccountStatus::Disabled))
    } else if str_eq(raw.as_str(), "archived") {
        Ok(Some(RtcProviderAccountStatus::Archived))
    } else {
        let mut message = owned("invalid provider account status filter: ");
        push_str(&mut message, raw.as_str());
        Err(RtcListWindowError::bad_request(message))
    }
}

} // verus!
