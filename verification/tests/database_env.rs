use sdkwork_rtc::database::rtc_database_env_values_explicitly_configured;
use std::collections::HashMap;

#[test]
fn rtc_database_env_is_not_configured_without_rtc_prefixed_keys() {
    assert!(!rtc_database_env_values_explicitly_configured(|_| None));
}

#[test]
fn rtc_database_env_is_configured_when_rtc_database_url_is_set() {
    let values = HashMap::from([(
        "SDKWORK_RTC_DATABASE_URL".to_string(),
        "sqlite://./.runtime/rtc.sqlite".to_string(),
    )]);
    assert!(rtc_database_env_values_explicitly_configured(|key| {
        values.get(key).cloned()
    }));
}

#[test]
fn rtc_database_env_ignores_blank_rtc_prefixed_values() {
    let values = HashMap::from([("SDKWORK_RTC_DATABASE_URL".to_string(), "   ".to_string())]);
    assert!(!rtc_database_env_values_explicitly_configured(|key| {
        values.get(key).cloned()
    }));
}
