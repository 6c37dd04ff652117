use sdkwork_rtc::error::RtcStorageError;
use sdkwork_rtc::ids::stable_numeric_id;
use sdkwork_rtc::list_page::{bounded_page, list_search_needle};
use sdkwork_rtc::persistence::{
    change_timestamp, plan_change_writes, scoped_session, session_scope_index, CompletionRowKey,
    PersistenceTable, RowKey, RtcPersistenceChangeSet, SessionChildKey, SessionRowKey,
};

fn session(id: &str, tenant: &str, org: &str, completed: Option<&str>, ended: Option<&str>) -> SessionRowKey {
    SessionRowKey {
        id: id.into(),
        tenant_id: tenant.into(),
        organization_id: org.into(),
        completion_recorded_at: completed.map(str::to_string),
        ended_at: ended.map(str::to_string),
    }
}

fn child(id: &str, session_id: &str) -> SessionChildKey {
    SessionChildKey { id: id.into(), session_id: session_id.into() }
}

fn empty() -> RtcPersistenceChangeSet {
    RtcPersistenceChangeSet {
        provider_accounts: vec![],
        provider_applications: vec![],
        provider_credentials: vec![],
        provider_profiles: vec![],
        provider_routes: vec![],
        rooms: vec![],
        media_sessions: vec![],
        media_participants: vec![],
        media_tracks: vec![],
        media_artifacts: vec![],
        quality_samples: vec![],
        webhook_events: 0,
        provider_query_jobs: 0,
        provider_query_snapshots: 0,
        completion_records: vec![],
        media_session_idempotencies: vec![],
    }
}

fn completion(id: &str, session_id: &str, tenant: &str, org: &str, at: &str) -> CompletionRowKey {
    CompletionRowKey {
        id: id.into(),
        media_session_id: session_id.into(),
        tenant_id: tenant.into(),
        organization_id: org.into(),
        recorded_at: at.into(),
    }
}

#[test]
fn session_scope_prefers_session_rows_then_first_completion() {
    let mut changes = empty();
    changes.media_sessions = vec![session("s1", "100", "200", None, None), session("s1", "101", "201", None, None)];
    changes.completion_records = vec![
        completion("c1", "s1", "900", "900", "t"),
        completion("c2", "s2", "102", "202", "t"),
        completion("c3", "s2", "103", "203", "t"),
    ];
    let index = session_scope_index(&changes);
    assert_eq!(scoped_session(&index, "s1").unwrap(), ("101", "201"));
    assert_eq!(scoped_session(&index, "s2").unwrap(), ("102", "202"));
    match scoped_session(&index, "s3") {
        Err(RtcStorageError::MissingMediaSessionSummary { media_session_id }) => assert_eq!(media_session_id, "s3"),
        other => panic!("unexpected {other:?}"),
    }
}

#[test]
fn change_timestamp_prefers_times_named_in_the_change_set() {
    let mut changes = empty();
    changes.media_sessions = vec![
        session("s1", "1", "2", None, Some("2026-06-10T00:10:00.000Z")),
        session("s2", "1", "2", Some("2026-06-10T00:11:00.000Z"), None),
    ];
    assert_eq!(change_timestamp(&changes), "2026-06-10T00:11:00.000Z");
    changes.media_sessions[1].completion_recorded_at = None;
    assert_eq!(change_timestamp(&changes), "2026-06-10T00:10:00.000Z");
    changes.completion_records = vec![completion("c1", "s1", "1", "2", "2026-06-10T00:12:00.000Z")];
    assert_eq!(change_timestamp(&changes), "2026-06-10T00:12:00.000Z");
    let now = change_timestamp(&empty());
    assert_eq!(now.len(), 24);
    assert!(now.ends_with('Z'));
}

#[test]
fn plan_writes_rows_in_table_order_with_scopes() {
    let mut changes = empty();
    changes.provider_accounts = vec![RowKey { id: "acct-1".into() }];
    changes.rooms = vec![RowKey { id: "room-1".into() }];
    changes.media_sessions = vec![session("session-1", "100", "200", None, None)];
    changes.media_participants = vec![child("participant-1", "session-1")];
    changes.media_artifacts = vec![child("artifact-1", "session-1")];
    changes.quality_samples = vec![child("quality-1", "session-1")];
    changes.webhook_events = 2;
    let writes = plan_change_writes(&changes, "2026-06-10T00:10:05.000Z").expect("every child has a session");
    let tables: Vec<PersistenceTable> = writes.iter().map(|w| w.table).collect();
    assert_eq!(
        tables,
        vec![
            PersistenceTable::ProviderAccount,
            PersistenceTable::Room,
            PersistenceTable::MediaSession,
            PersistenceTable::MediaParticipant,
            PersistenceTable::MediaArtifact,
            PersistenceTable::QualitySample,
            PersistenceTable::WebhookEvent,
            PersistenceTable::WebhookEvent,
        ]
    );
    assert_eq!(writes[0].row_id, Some(4286962812541216555));
    assert_eq!(writes[0].updated_at, None);
    assert_eq!(writes[1].row_id, Some(7395119113813111073));
    assert_eq!(writes[1].updated_at.as_deref(), Some("2026-06-10T00:10:05.000Z"));
    assert_eq!(writes[2].row_id, Some(2083143806493905140));
    assert_eq!(writes[3].row_id, Some(5885518986115429532));
    assert_eq!(writes[3].tenant_id.as_deref(), Some("100"));
    assert_eq!(writes[3].organization_id.as_deref(), Some("200"));
    assert_eq!(writes[4].tenant_id, None);
    assert_eq!(writes[4].organization_id.as_deref(), Some("200"));
    assert_eq!(writes[4].row_id, Some(stable_numeric_id("media_artifact", "artifact-1")));
    assert_eq!(writes[5].updated_at, None);
    assert_eq!(writes[5].tenant_id.as_deref(), Some("100"));
    assert_eq!(writes[7].index, 1);
    assert_eq!(writes[7].row_id, None);
}

#[test]
fn plan_fails_on_the_first_row_without_a_session() {
    let mut changes = empty();
    changes.media_sessions = vec![session("session-1", "100", "200", None, None)];
    changes.media_tracks = vec![child("track-1", "session-1"), child("track-2", "session-9")];
    changes.quality_samples = vec![child("quality-1", "session-8")];
    match plan_change_writes(&changes, "t") {
        Err(RtcStorageError::MissingMediaSessionSummary { media_session_id }) => assert_eq!(media_session_id, "session-9"),
        other => panic!("unexpected {:?}", other.map(|w| w.len())),
    }
}

#[test]
fn pages_keep_at_most_limit_items_and_point_at_the_next() {
    let page = bounded_page(vec![1, 2, 3, 4], 10, 3);
    assert_eq!(page.items, vec![1, 2, 3]);
    assert_eq!(page.next_cursor.as_deref(), Some("13"));
    let last = bounded_page(vec![1, 2], 10, 3);
    assert_eq!(last.items, vec![1, 2]);
    assert_eq!(last.next_cursor, None);
    assert_eq!(list_search_needle(Some("  room ")), Some("room".to_string()));
    assert_eq!(list_search_needle(Some("   ")), None);
    assert_eq!(list_search_needle(None), None);
}
