use sdkwork_rtc::account_listing::provider_accounts_page_sql;
use sdkwork_rtc::provider_account::RtcProviderAccountStatus;
use sdkwork_rtc::sql::postgres_provider_account_select_columns_sql;
use sdkwork_rtc::sql::{
    postgres_provider_route_select_columns_sql, provider_route_select_columns_sql,
    sqlite_media_session_select_sql, sqlite_upsert_room_sql, postgres_upsert_room_sql,
};

#[test]
fn route_select_puts_filter_and_order_in_place() {
    let sql = provider_route_select_columns_sql("WHERE uuid = ?", "ORDER BY priority");
    let compact: Vec<&str> = sql.split_whitespace().collect();
    assert_eq!(
        compact.join(" "),
        "SELECT uuid, tenant_id, organization_id, provider_profile_id, route_type, region, priority, status FROM rtc_provider_route WHERE uuid = ? ORDER BY priority"
    );
    assert_eq!(postgres_provider_route_select_columns_sql("W", "O"), provider_route_select_columns_sql("W", "O"));
}

#[test]
fn media_session_select_reads_the_session_table() {
    let sql = sqlite_media_session_select_sql("WHERE uuid = ?", "LIMIT 1");
    assert!(sql.contains("FROM rtc_media_session\n        WHERE uuid = ?\n        LIMIT 1"));
    assert!(sql.trim_start().starts_with("SELECT"));
}

#[test]
fn room_upserts_bump_the_version() {
    assert!(sqlite_upsert_room_sql().contains("ON CONFLICT(uuid) DO UPDATE SET"));
    assert!(sqlite_upsert_room_sql().contains("version = rtc_room.version + 1"));
    assert!(sqlite_upsert_room_sql().contains("VALUES (?, ?, ?, ?, ?, ?, ?, ?, ?, 0)"));
    assert!(postgres_upsert_room_sql().contains("$8::text::timestamp"));
}

#[test]
fn provider_account_pages_number_their_filters_in_order() {

    let (sql, pattern) = provider_accounts_page_sql(
        Some("volcengine"),
        Some(RtcProviderAccountStatus::Active),
        Some("  Prod "),
        "name",
        true,
    );
    assert_eq!(pattern.as_deref(), Some("%prod%"));
    assert_eq!(
        sql,
        postgres_provider_account_select_columns_sql(
            "WHERE tenant_id = $1 AND organization_id = $2 AND deleted_at IS NULL AND provider = $3 AND status = $4 AND (LOWER(uuid) LIKE $5 OR LOWER(code) LIKE $6 OR LOWER(name) LIKE $7 OR LOWER(provider) LIKE $8)",
            "ORDER BY name DESC, id ASC LIMIT $9 OFFSET $10",
        )
    );

    let (sql, pattern) = provider_accounts_page_sql(None, Some(RtcProviderAccountStatus::Disabled), Some("   "), "unknown", false);
    assert_eq!(pattern, None);
    assert_eq!(
        sql,
        postgres_provider_account_select_columns_sql(
            "WHERE tenant_id = $1 AND organization_id = $2 AND deleted_at IS NULL AND status = $3",
            "ORDER BY uuid ASC, id ASC LIMIT $4 OFFSET $5",
        )
    );
}
