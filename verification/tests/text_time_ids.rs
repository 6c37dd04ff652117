use sdkwork_rtc::assembly::{assembly_route_count, ROUTE_CRATE_COUNT};
use sdkwork_rtc::calendar::{
    civil_from_days, format_unix_millis_rfc3339, format_unix_seconds_rfc3339,
    issued_at_unix_seconds, utc_now_rfc3339_millis,
};
use sdkwork_rtc::credential::stable_nonce;
use sdkwork_rtc::digest::{hex_lower, sha256_hex};
use sdkwork_rtc::ids::{
    denormalize_region, normalize_region, optional_dedupe_key, rtc_provider_payload_hash,
    stable_numeric_id,
};
use sdkwork_rtc::numtext::i64_text;

#[test]
fn timestamps_render_in_utc_with_milliseconds() {
    assert_eq!(format_unix_seconds_rfc3339(0), "1970-01-01T00:00:00.000Z");
    assert_eq!(format_unix_seconds_rfc3339(1_781_000_000), "2026-06-09T10:13:20.000Z");
    assert_eq!(format_unix_seconds_rfc3339(u32::MAX), "2106-02-07T06:28:15.000Z");
    assert_eq!(format_unix_millis_rfc3339(1_781_000_000_123), "2026-06-09T10:13:20.123Z");
    assert_eq!(format_unix_millis_rfc3339(5), "1970-01-01T00:00:00.005Z");
    assert_eq!(format_unix_millis_rfc3339(u64::MAX), "2106-02-07T06:28:15.615Z");
}

#[test]
fn civil_dates_follow_the_gregorian_calendar() {
    assert_eq!(civil_from_days(0), (1970, 1, 1));
    assert_eq!(civil_from_days(59), (1970, 3, 1));
    assert_eq!(civil_from_days(19_782), (2024, 2, 29));
    assert_eq!(civil_from_days(19_783), (2024, 3, 1));
    assert_eq!(civil_from_days(11_016), (2000, 2, 29));
}

#[test]
fn the_clock_reads_the_present() {
    assert!(issued_at_unix_seconds() > 1_700_000_000);
    let now = utc_now_rfc3339_millis();
    assert_eq!(now.len(), 24);
    assert!(now.starts_with("20"));
    assert_eq!(&now[10..11], "T");
}

#[test]
fn stable_ids_hash_namespace_and_public_id() {
    assert_eq!(stable_numeric_id("room", "room-1"), 7395119113813111073);
    assert_eq!(stable_numeric_id("media_session", "session-1"), 2083143806493905140);
    assert!(stable_numeric_id("", "") > 0);
    assert_ne!(stable_numeric_id("room", "room-1"), stable_numeric_id("media_session", "room-1"));
}

#[test]
fn payload_hashes_and_dedupe_keys() {
    assert_eq!(rtc_provider_payload_hash(""), "fnv64:cbf29ce484222325");
    assert_eq!(rtc_provider_payload_hash(r#"{"event":"room_ended"}"#), "fnv64:0021e03933a601c3");
    assert_eq!(optional_dedupe_key(Some("evt-1"), "fallback"), "evt-1");
    assert_eq!(optional_dedupe_key(Some(""), "fallback"), "fallback");
    assert_eq!(optional_dedupe_key(None, "fallback"), "fallback");
    assert_eq!(stable_nonce("app-1", "room-1", "user-1", 1_781_000_000), 3_164_801_341);
}

#[test]
fn regions_are_stored_trimmed() {
    assert_eq!(normalize_region(Some("  cn-beijing ")), "cn-beijing");
    assert_eq!(normalize_region(None), "");
    assert_eq!(denormalize_region("cn-beijing".into()), Some("cn-beijing".to_string()));
    assert_eq!(denormalize_region(" \t ".into()), None);
    assert_eq!(denormalize_region(normalize_region(Some("  default  "))), Some("default".to_string()));
}

#[test]
fn digests_and_numbers_render_as_text() {
    assert_eq!(sha256_hex(b""), "e3b0c44298fc1c149afbf4c8996fb92427ae41e4649b934ca495991b7852b855");
    assert_eq!(hex_lower(&[0x00, 0x0f, 0xab]), "000fab");
    assert_eq!(i64_text(-42), "-42");
    assert_eq!(i64_text(i64::MIN), "-9223372036854775808");
}

#[test]
fn the_assembly_merges_the_app_and_backend_routes() {
    assert_eq!(assembly_route_count(), 2);
    assert_eq!(ROUTE_CRATE_COUNT, 2);
}
