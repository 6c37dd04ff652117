use vstd::prelude::*;
use crate::text::{is_blank, str_is_blank};

verus! {

/// The environment keys that configure the RTC database.
pub open spec fn database_env_key_names() -> Seq<Seq<char>> {
    seq![
        "SDKWORK_RTC_DATABASE_URL"@,
        "SDKWORK_RTC_DATABASE_FILE"@,
        "SDKWORK_RTC_DATABASE_ENGINE"@,
        "SDKWORK_RTC_DATABASE_HOST"@,
        "SDKWORK_RTC_DATABASE_PORT"@,
        "SDKWORK_RTC_DATABASE_NAME"@,
        "SDKWORK_RTC_DATABASE_SCHEMA"@,
        "SDKWORK_RTC_DATABASE_USERNAME"@,
        "SDKWORK_RTC_DATABASE_PASSWORD"@,
        "SDKWORK_RTC_DATABASE_PASSWORD_FILE"@,
        "SDKWORK_RTC_DATABASE_SSL_MODE"@,
        "SDKWORK_RTC_DATABASE_MODE"@,
        "SDKWORK_RTC_DATABASE_TABLE_PREFIX"@,
        "SDKWORK_RTC_DATABASE_MAX_CONNECTIONS"@,
        "SDKWORK_RTC_DATABASE_MIN_CONNECTIONS"@,
        "SDKWORK_RTC_DATABASE_ACQUIRE_TIMEOUT"@,
        "SDKWORK_RTC_DATABASE_IDLE_TIMEOUT"@,
        "SDKWORK_RTC_DATABASE_MAX_LIFETIME"@,
    ]
}

/// The environment keys that configure the RTC database, in the order they are consulted.
pub fn rtc_database_env_keys() -> (res: [&'static str; 18])
    ensures
        res@.map_values(|k: &str| k@) == database_env_key_names(),
{
    let res = [
        "SDKWORK_RTC_DATABASE_URL",
        "SDKWORK_RTC_DATABASE_FILE",
        "SDKWORK_RTC_DATABASE_ENGINE",
        "SDKWORK_RTC_DATABASE_HOST",
        "SDKWORK_RTC_DATABASE_PORT",
        "SDKWORK_RTC_DATABASE_NAME",
        "SDKWORK_RTC_DATABASE_SCHEMA",
        "SDKWORK_RTC_DATABASE_USERNAME",
        "SDKWORK_RTC_DATABASE_PASSWORD",
        "SDKWORK_RTC_DATABASE_PASSWORD_FILE",
        "SDKWORK_RTC_DATABASE_SSL_MODE",
        "SDKWORK_RTC_DATABASE_MODE",
        "SDKWORK_RTC_DATABASE_TABLE_PREFIX",
        "SDKWORK_RTC_DATABASE_MAX_CONNECTIONS",
        "SDKWORK_RTC_DATABASE_MIN_CONNECTIONS",
        "SDKWORK_RTC_DATABASE_ACQUIRE_TIMEOUT",
        "SDKWORK_RTC_DATABASE_IDLE_TIMEOUT",
        "SDKWORK_RTC_DATABASE_MAX_LIFETIME",
    ];
    assert(res@.map_values(|k: &str| k@) =~= database_env_key_names());
    res
}

/// A looked-up value configures the database when it is present and not blank.
pub open spec fn configures(value: Option<String>) -> bool {
    value matches Some(v) && !is_blank(v@)
}

/// Whether some RTC database key is set to a non-blank value, as `lookup` (the environment,
/// in a deployment) reports the keys. Keys are consulted in order until one configures the
/// database.
pub fn rtc_database_env_values_explicitly_configured(lookup: impl Fn(&str) -> Option<String>) -> (res: bool)
    requires
        forall|k: &str| call_requires(lookup, (k,)),
    ensures
        res ==> exists|k: &str, v: Option<String>|
            database_env_key_names().contains(k@) && call_ensures(lookup, (k,), v) && configures(v),
        !res ==> forall|i: int| 0 <= i < database_env_key_names().len() ==> exists|k: &str, v: Option<String>|
            k@ == #[trigger] database_env_key_names()[i] && call_ensures(lookup, (k,), v) && !configures(v),
{
    let keys = rtc_database_env_keys();
    let ghost names = database_env_key_names();
    let mut i: usize = 0;
    while i < 18
        invariant
            0 <= i <= 18,
            keys@.map_values(|k: &str| k@) == names,
            names == database_env_key_names(),
            forall|k: &str| call_requires(lookup, (k,)),
            forall|j: int| 0 <= j < i ==> exists|k: &str, v: Option<String>|
                k@ == #[trigger] names[j] && call_ensures(lookup, (k,), v) && !configures(v),
        decreases 18 - i,
    {
        let key = keys[i];
        let value = lookup(key);
        assert(key@ == names[i as int]);
        let configured = match &value {
            Some(v) => !str_is_blank(v.as_str()),
            None => false,
        };
        if configured {
            assert(names.contains(key@));
            return true;
        }
        assert(key@ == names[i as int] && call_ensures(lookup, (key,), value) && !configures(value));
        i = i + 1;
    }
    false
}

} // verus!
