use vstd::prelude::*;
use crate::domain::{RtcProviderEventKind, RtcProviderQueryKind, RtcProviderQueryResult};
use crate::text::{ascii_lowercase, has_substring};
use crate::webhook::{livekit_kind_of, volcengine_kind_of};
use crate::provider_event::{job_id_text, result_target_id, target_kind_text, webhook_dedupe_keys, webhook_session_key};
use crate::domain::RtcProviderWebhookEvent;
use crate::account_listing::like_pattern;
use crate::ids::trimmed;
use crate::config::VolcengineRtcProviderConfig;
use crate::domain::RtcProviderQueryRequest;
use crate::open_api::signed_request_view;
use crate::ids::{dedupe_key_text, stable_numeric_id_of};
use crate::open_api::{byte_escape, hex_upper_char, percent_encoded};
use crate::fields::{json_get, provider_session_id_text};
use crate::json::JsonView;
use crate::media::{drive_snapshot_check, RtcMediaArtifact, RtcMediaSource};
use crate::persistence::{
    child_write, child_writes, completion_writes, counted_writes, keyed_writes, persistence_plan,
    session_scope, session_writes, PersistenceTable, RowKey, RtcPersistenceChangeSet, SessionChildKey, WriteView,
};
use crate::event_codec::query_kind_key;

verus! {

/// How a Volcengine event type is classified, by the words it holds in ASCII lowercase,
/// the earlier rule winning: `join`/`enter` is a participant joining; `leave`/`exit` one
/// leaving; `record` with `start` a recording starting; `record` with `complete`, `finish`
/// or `stop` a recording completing; `record` with `fail` a recording failing; `room` with
/// `end`, `destroy` or `close` a room ending; `room` with `start`, `create`, `created` or
/// `open` a room starting; anything else is unknown.
pub proof fn law_volcengine_event_kinds(event_type: Seq<char>)
    ensures
        ({
            let n = ascii_lowercase(event_type);
            let joins = has_substring(n, "join"@) || has_substring(n, "enter"@);
            let leaves = has_substring(n, "leave"@) || has_substring(n, "exit"@);
            let record = has_substring(n, "record"@);
            let start = has_substring(n, "start"@);
            let done = has_substring(n, "complete"@) || has_substring(n, "finish"@) || has_substring(n, "stop"@);
            let fail = has_substring(n, "fail"@);
            let room = has_substring(n, "room"@);
            let ended = has_substring(n, "end"@) || has_substring(n, "destroy"@) || has_substring(n, "close"@);
            let opened = start || has_substring(n, "create"@) || has_substring(n, "created"@) || has_substring(n, "open"@);
            let recording = record && (start || done || fail);
            let kind = volcengine_kind_of(event_type);
            &&& (kind == RtcProviderEventKind::ParticipantJoined <==> joins)
            &&& (kind == RtcProviderEventKind::ParticipantLeft <==> !joins && leaves)
            &&& (kind == RtcProviderEventKind::RecordingStarted <==> !joins && !leaves && record && start)
            &&& (kind == RtcProviderEventKind::RecordingCompleted <==> !joins && !leaves && record && !start && done)
            &&& (kind == RtcProviderEventKind::RecordingFailed <==> !joins && !leaves && record && !start && !done
                && fail)
            &&& (kind == RtcProviderEventKind::RoomEnded <==> !joins && !leaves && !recording && room && ended)
            &&& (kind == RtcProviderEventKind::RoomStarted <==> !joins && !leaves && !recording && room && !ended
                && opened)
            &&& (kind == RtcProviderEventKind::Unknown <==> !joins && !leaves && !recording && !(room && (ended
                || opened)))
        }),
{
}

/// How a LiveKit event type is classified, by the phrases it holds in ASCII lowercase, the
/// earlier rule winning: `participant_join`, `participant_leave`; `egress_start` or
/// `recording_start`; `egress_end`, `recording_complete` or `recording_finish`;
/// `egress_fail` or `recording_fail`; `track_publish`, `track_unpublish`; `room_finish` or
/// `room_end`; `room_start` or `room_create`; anything else is unknown.
pub proof fn law_livekit_event_kinds(event_type: Seq<char>)
    ensures
        ({
            let n = ascii_lowercase(event_type);
            let joins = has_substring(n, "participant_join"@);
            let leaves = has_substring(n, "participant_leave"@);
            let started = has_substring(n, "egress_start"@) || has_substring(n, "recording_start"@);
            let completed = has_substring(n, "egress_end"@) || has_substring(n, "recording_complete"@)
                || has_substring(n, "recording_finish"@);
            let failed = has_substring(n, "egress_fail"@) || has_substring(n, "recording_fail"@);
            let published = has_substring(n, "track_publish"@);
            let unpublished = has_substring(n, "track_unpublish"@);
            let ended = has_substring(n, "room_finish"@) || has_substring(n, "room_end"@);
            let opened = has_substring(n, "room_start"@) || has_substring(n, "room_create"@);
            let before_tracks = joins || leaves || started || completed || failed;
            let kind = livekit_kind_of(event_type);
            &&& (kind == RtcProviderEventKind::ParticipantJoined <==> joins)
            &&& (kind == RtcProviderEventKind::ParticipantLeft <==> !joins && leaves)
            &&& (kind == RtcProviderEventKind::RecordingStarted <==> !joins && !leaves && started)
            &&& (kind == RtcProviderEventKind::RecordingCompleted <==> !joins && !leaves && !started && completed)
            &&& (kind == RtcProviderEventKind::RecordingFailed <==> !joins && !leaves && !started && !completed
                && failed)
            &&& (kind == RtcProviderEventKind::MediaTrackStarted <==> !before_tracks && published)
            &&& (kind == RtcProviderEventKind::MediaTrackStopped <==> !before_tracks && !published && unpublished)
            &&& (kind == RtcProviderEventKind::RoomEnded <==> !before_tracks && !published && !unpublished && ended)
            &&& (kind == RtcProviderEventKind::RoomStarted <==> !before_tracks && !published && !unpublished
                && !ended && opened)
            &&& (kind == RtcProviderEventKind::Unknown <==> !before_tracks && !published && !unpublished && !ended
                && !opened)
        }),
{
}


/// What a query result is about, by query kind: room queries target the room, else the RTC
/// session, else the provider session; media-session-state and quality-sample queries
/// target the RTC session, else the provider session, else the room; recording-artifact
/// queries target the provider session, else the RTC session, else the room. A result that
/// names none of them targets `{provider}-{query_kind}`.
pub proof fn law_query_targets_follow_query_kind(result: RtcProviderQueryResult)
    ensures
        ({
            let target = result_target_id(result);
            let room = result.room_id;
            let rtc = result.rtc_session_id;
            let prov = result.provider_session_id;
            let kind = result.query_kind;
            let room_query = kind == RtcProviderQueryKind::RoomOnlineUsers || kind == RtcProviderQueryKind::RoomState;
            let session_query = kind == RtcProviderQueryKind::MediaSessionState || kind == RtcProviderQueryKind::QualitySamples;
            let recording_query = kind == RtcProviderQueryKind::RecordingArtifacts;
            &&& (room_query && room is Some ==> target == room->0@)
            &&& (room_query && room is None && rtc is Some ==> target == rtc->0@)
            &&& (room_query && room is None && rtc is None && prov is Some ==> target == prov->0@)
            &&& (session_query && rtc is Some ==> target == rtc->0@)
            &&& (session_query && rtc is None && prov is Some ==> target == prov->0@)
            &&& (session_query && rtc is None && prov is None && room is Some ==> target == room->0@)
            &&& (recording_query && prov is Some ==> target == prov->0@)
            &&& (recording_query && prov is None && rtc is Some ==> target == rtc->0@)
            &&& (recording_query && prov is None && rtc is None && room is Some ==> target == room->0@)
            &&& (room is None && rtc is None && prov is None ==> target == result.provider@ + "-"@
                + query_kind_key(kind))
            &&& (room_query ==> target_kind_text(kind) == "room"@)
            &&& (kind == RtcProviderQueryKind::MediaSessionState ==> target_kind_text(kind) == "media_session"@)
            &&& (kind == RtcProviderQueryKind::QualitySamples ==> target_kind_text(kind) == "quality"@)
            &&& (recording_query ==> target_kind_text(kind) == "recording"@)
        }),
{
}

/// Media-session-state results of one provider about different RTC sessions are recorded
/// under different query jobs, whatever rooms they name.
pub proof fn law_session_queries_get_their_own_jobs(first: RtcProviderQueryResult, second: RtcProviderQueryResult)
    requires
        first.provider@ == second.provider@,
        first.query_kind == RtcProviderQueryKind::MediaSessionState,
        second.query_kind == RtcProviderQueryKind::MediaSessionState,
        first.rtc_session_id is Some,
        second.rtc_session_id is Some,
        first.rtc_session_id->0@ != second.rtc_session_id->0@,
    ensures
        job_id_text(first.provider@, first.query_kind, result_target_id(first))
            != job_id_text(second.provider@, second.query_kind, result_target_id(second)),
{
    law_query_targets_follow_query_kind(first);
    law_query_targets_follow_query_kind(second);
    let a = job_id_text(first.provider@, first.query_kind, result_target_id(first));
    let b = job_id_text(second.provider@, second.query_kind, result_target_id(second));
    let prefix = "provider-query-"@ + first.provider@ + "-"@ + query_kind_key(first.query_kind) + "-"@;
    assert(a =~= prefix + first.rtc_session_id->0@);
    assert(b =~= prefix + second.rtc_session_id->0@);
    if a == b {
        assert(a.subrange(prefix.len() as int, a.len() as int) =~= first.rtc_session_id->0@);
        assert(b.subrange(prefix.len() as int, b.len() as int) =~= second.rtc_session_id->0@);
    }
}


/// The query that a signed request sends: always the action and the API version; the
/// configured app id as `AppId`, the page cursor as `PageToken` and the room as `RoomId`
/// exactly when each is given and not empty; and nothing else.
pub proof fn law_signed_query_carries_every_setting(
    config: VolcengineRtcProviderConfig,
    request: RtcProviderQueryRequest,
    action: Seq<char>,
    signed_at: Seq<u8>,
)
    ensures
        ({
            let query = signed_request_view(config, request, action, signed_at).query;
            let app = config.app_id is Some && config.app_id->0@.len() > 0;
            let cursor = request.cursor is Some && request.cursor->0@.len() > 0;
            let room = request.room_id is Some && request.room_id->0@.len() > 0;
            &&& query.contains(("Action"@, action))
            &&& query.contains(("Version"@, config.api_version@))
            &&& (app ==> query.contains(("AppId"@, config.app_id->0@)))
            &&& (cursor ==> query.contains(("PageToken"@, request.cursor->0@)))
            &&& (room ==> query.contains(("RoomId"@, request.room_id->0@)))
            &&& (!app ==> forall|i: int| 0 <= i < query.len() ==> #[trigger] query[i].0 != "AppId"@)
            &&& (!cursor ==> forall|i: int| 0 <= i < query.len() ==> #[trigger] query[i].0 != "PageToken"@)
            &&& (!room ==> forall|i: int| 0 <= i < query.len() ==> #[trigger] query[i].0 != "RoomId"@)
            &&& query.len() == 2 + (if app { 1int } else { 0 }) + (if cursor { 1int } else { 0 }) + (if room {
                1int
            } else {
                0
            })
        }),
{
    reveal_strlit("Action");
    reveal_strlit("AppId");
    reveal_strlit("PageToken");
    reveal_strlit("RoomId");
    reveal_strlit("Version");
    let query = signed_request_view(config, request, action, signed_at).query;
    let app = config.app_id is Some && config.app_id->0@.len() > 0;
    let cursor = request.cursor is Some && request.cursor->0@.len() > 0;
    let room = request.room_id is Some && request.room_id->0@.len() > 0;
    let a = seq![("Action"@, action)];
    let b: Seq<(Seq<char>, Seq<char>)> = if app { seq![("AppId"@, config.app_id->0@)] } else { seq![] };
    let c: Seq<(Seq<char>, Seq<char>)> = if cursor { seq![("PageToken"@, request.cursor->0@)] } else { seq![] };
    let d: Seq<(Seq<char>, Seq<char>)> = if room { seq![("RoomId"@, request.room_id->0@)] } else { seq![] };
    let e = seq![("Version"@, config.api_version@)];
    assert(query =~= a + b + c + d + e);
    assert(query[0] == ("Action"@, action));
    assert(query[query.len() - 1] == ("Version"@, config.api_version@));
    assert("Action"@[0] == 'A' && "RoomId"@[0] == 'R' && "AppId"@[0] == 'A' && "AppId"@[1] == 'p');
    assert("Action"@[1] == 'c' && "Version"@.len() == 7 && "PageToken"@.len() == 9);
    assert("Action"@ != "RoomId"@ && "Action"@ != "AppId"@ && "Action"@ != "PageToken"@);
    assert("Version"@ != "RoomId"@ && "Version"@ != "AppId"@ && "Version"@ != "PageToken"@);
    assert("AppId"@ != "RoomId"@ && "AppId"@ != "PageToken"@ && "PageToken"@ != "RoomId"@);
    assert forall|i: int| 0 <= i < query.len() implies {
        ||| #[trigger] query[i].0 == "Action"@
        ||| query[i].0 == "Version"@
        ||| (app && query[i].0 == "AppId"@)
        ||| (cursor && query[i].0 == "PageToken"@)
        ||| (room && query[i].0 == "RoomId"@)
    } by {
        if i == 0 {
        } else if i < 1 + b.len() {
            assert(query[i] == b[i - 1]);
        } else if i < 1 + b.len() + c.len() {
            assert(query[i] == c[i - 1 - b.len()]);
        } else if i < 1 + b.len() + c.len() + d.len() {
            assert(query[i] == d[i - 1 - b.len() - c.len()]);
        } else {
            assert(query[i] == e[i - 1 - b.len() - c.len() - d.len()]);
        }
    }
    if app {
        assert(query[1] == ("AppId"@, config.app_id->0@));
    }
    if cursor {
        assert(query[(1 + b.len()) as int] == ("PageToken"@, request.cursor->0@));
    }
    if room {
        assert(query[(1 + b.len() + c.len()) as int] == ("RoomId"@, request.room_id->0@));
    }
}


/// The rows of a change set that belong to a session, for the tables that hold such rows.
pub open spec fn session_child_rows(changes: RtcPersistenceChangeSet, table: PersistenceTable) -> Seq<SessionChildKey> {
    match table {
        PersistenceTable::MediaParticipant => changes.media_participants@,
        PersistenceTable::MediaTrack => changes.media_tracks@,
        PersistenceTable::MediaArtifact => changes.media_artifacts@,
        _ => changes.quality_samples@,
    }
}

/// Every row of a change set that belongs to a session names a session that the change
/// set gives a scope.
pub open spec fn every_child_scoped(changes: RtcPersistenceChangeSet) -> bool {
    &&& forall|k: int| 0 <= k < changes.media_participants@.len()
        ==> (#[trigger] session_scope(changes, changes.media_participants@[k].session_id@)) is Some
    &&& forall|k: int| 0 <= k < changes.media_tracks@.len()
        ==> (#[trigger] session_scope(changes, changes.media_tracks@[k].session_id@)) is Some
    &&& forall|k: int| 0 <= k < changes.media_artifacts@.len()
        ==> (#[trigger] session_scope(changes, changes.media_artifacts@[k].session_id@)) is Some
    &&& forall|k: int| 0 <= k < changes.quality_samples@.len()
        ==> (#[trigger] session_scope(changes, changes.quality_samples@[k].session_id@)) is Some
}

/// A planned write of row `w.index` of a list of keyed rows: stored under the id derived
/// from the row's public id in namespace `ns`, with no scope, and with the change set's
/// time when `stamped`.
pub open spec fn keyed_row_write(rows: Seq<RowKey>, ns: Seq<char>, stamped: bool, updated_at: Seq<char>, w: WriteView) -> bool {
    &&& 0 <= w.index < rows.len()
    &&& w.row_id == Some(stable_numeric_id_of(ns, rows[w.index].id@))
    &&& w.tenant_id is None
    &&& w.organization_id is None
    &&& w.updated_at == (if stamped { Some(updated_at) } else { None })
}

/// A planned write of row `w.index` of a list of rows that belong to sessions: stored under
/// the id derived in namespace `ns`, in the organization of its session's scope, with the
/// session's tenant when `with_tenant`, and with the change set's time when `stamped`.
pub open spec fn child_row_write(
    changes: RtcPersistenceChangeSet,
    rows: Seq<SessionChildKey>,
    ns: Seq<char>,
    with_tenant: bool,
    stamped: bool,
    updated_at: Seq<char>,
    w: WriteView,
) -> bool {
    &&& 0 <= w.index < rows.len()
    &&& session_scope(changes, rows[w.index].session_id@) matches Some(scope) && {
        &&& w.tenant_id == (if with_tenant { Some(scope.0) } else { None })
        &&& w.organization_id == Some(scope.1)
    }
    &&& w.row_id == Some(stable_numeric_id_of(ns, rows[w.index].id@))
    &&& w.updated_at == (if stamped { Some(updated_at) } else { None })
}

/// What a planned write of each table must be. Provider rows and idempotency claims are
/// keyed in their own namespaces; routes, rooms and sessions carry the change set's time;
/// participants, tracks and quality samples carry their session's tenant and organization,
/// artifacts its organization only; participants, tracks and artifacts carry the time;
/// webhook events, query jobs and snapshots are written as they come; completion records
/// are keyed and carry no time.
pub open spec fn planned_write_fits(changes: RtcPersistenceChangeSet, updated_at: Seq<char>, w: WriteView) -> bool {
    match w.table {
        PersistenceTable::ProviderAccount => keyed_row_write(changes.provider_accounts@, "provider_account"@, false, updated_at, w),
        PersistenceTable::ProviderApplication => keyed_row_write(changes.provider_applications@, "provider_application"@, false, updated_at, w),
        PersistenceTable::ProviderCredential => keyed_row_write(changes.provider_credentials@, "provider_credential"@, false, updated_at, w),
        PersistenceTable::ProviderProfile => keyed_row_write(changes.provider_profiles@, "provider_profile"@, false, updated_at, w),
        PersistenceTable::ProviderRoute => keyed_row_write(changes.provider_routes@, "provider_route"@, true, updated_at, w),
        PersistenceTable::Room => keyed_row_write(changes.rooms@, "room"@, true, updated_at, w),
        PersistenceTable::MediaSession => {
            &&& 0 <= w.index < changes.media_sessions@.len()
            &&& w.row_id == Some(stable_numeric_id_of("media_session"@, changes.media_sessions@[w.index].id@))
            &&& w.tenant_id is None
            &&& w.organization_id is None
            &&& w.updated_at == Some(updated_at)
        },
        PersistenceTable::MediaParticipant => child_row_write(changes, changes.media_participants@, "media_participant"@, true, true, updated_at, w),
        PersistenceTable::MediaTrack => child_row_write(changes, changes.media_tracks@, "media_track"@, true, true, updated_at, w),
        PersistenceTable::MediaArtifact => child_row_write(changes, changes.media_artifacts@, "media_artifact"@, false, true, updated_at, w),
        PersistenceTable::QualitySample => child_row_write(changes, changes.quality_samples@, "quality_sample"@, true, false, updated_at, w),
        PersistenceTable::WebhookEvent => 0 <= w.index < changes.webhook_events && w.row_id is None && w.tenant_id is None
            && w.organization_id is None && w.updated_at is None,
        PersistenceTable::ProviderQueryJob => 0 <= w.index < changes.provider_query_jobs && w.row_id is None
            && w.tenant_id is None && w.organization_id is None && w.updated_at is None,
        PersistenceTable::ProviderQuerySnapshot => 0 <= w.index < changes.provider_query_snapshots && w.row_id is None
            && w.tenant_id is None && w.organization_id is None && w.updated_at is None,
        PersistenceTable::CompletionRecord => {
            &&& 0 <= w.index < changes.completion_records@.len()
            &&& w.row_id == Some(stable_numeric_id_of("completion_record"@, changes.completion_records@[w.index].id@))
            &&& w.tenant_id is None
            &&& w.organization_id is None
            &&& w.updated_at is None
        },
        PersistenceTable::MediaSessionIdempotency => keyed_row_write(changes.media_session_idempotencies@, "media_session_idempotency"@, false, updated_at, w),
    }
}

/// Every write of `ws` fits.
pub open spec fn all_fit(changes: RtcPersistenceChangeSet, updated_at: Seq<char>, ws: Seq<WriteView>) -> bool {
    forall|i: int| 0 <= i < ws.len() ==> #[trigger] planned_write_fits(changes, updated_at, ws[i])
}

proof fn lemma_all_fit_concat(changes: RtcPersistenceChangeSet, updated_at: Seq<char>, a: Seq<WriteView>, b: Seq<WriteView>)
    requires
        all_fit(changes, updated_at, a),
        all_fit(changes, updated_at, b),
    ensures
        all_fit(changes, updated_at, a + b),
{
    assert forall|i: int| 0 <= i < (a + b).len() implies #[trigger] planned_write_fits(changes, updated_at, (a + b)[i]) by {
        if i < a.len() {
            assert((a + b)[i] == a[i]);
        } else {
            assert((a + b)[i] == b[i - a.len()]);
        }
    }
}

/// The writes of a list of rows that belong to sessions: one per row, in order, each under
/// its session's scope; they exist exactly when every row's session has a scope.
proof fn lemma_child_writes(table: PersistenceTable, rows: Seq<SessionChildKey>, changes: RtcPersistenceChangeSet, updated_at: Seq<char>)
    ensures
        child_writes(table, rows, changes, updated_at) is Ok
            <==> forall|k: int| 0 <= k < rows.len() ==> (#[trigger] session_scope(changes, rows[k].session_id@)) is Some,
        child_writes(table, rows, changes, updated_at) matches Ok(ws) ==> {
            &&& ws.len() == rows.len()
            &&& forall|k: int| 0 <= k < rows.len() ==> #[trigger] ws[k] == child_write(
                table,
                k,
                rows[k].id@,
                session_scope(changes, rows[k].session_id@)->0,
                updated_at,
            )
        },
    decreases rows.len(),
{
    if rows.len() > 0 {
        let init = rows.drop_last();
        lemma_child_writes(table, init, changes, updated_at);
        assert forall|k: int| 0 <= k < init.len() implies #[trigger] init[k] == rows[k] by {}
        if child_writes(table, rows, changes, updated_at) is Ok {
            let ws = child_writes(table, rows, changes, updated_at)->Ok_0;
            let prefix = child_writes(table, init, changes, updated_at)->Ok_0;
            assert forall|k: int| 0 <= k < rows.len() implies #[trigger] ws[k] == child_write(
                table,
                k,
                rows[k].id@,
                session_scope(changes, rows[k].session_id@)->0,
                updated_at,
            ) by {
                if k < init.len() {
                    assert(ws[k] == prefix[k]);
                    assert(init[k] == rows[k]);
                }
            }
            assert forall|k: int| 0 <= k < rows.len() implies (#[trigger] session_scope(changes, rows[k].session_id@)) is Some by {
                if k < init.len() {
                    assert(init[k] == rows[k]);
                    assert(session_scope(changes, init[k].session_id@) is Some);
                }
            }
        } else {
            if child_writes(table, init, changes, updated_at) is Ok {
                let k = rows.len() - 1;
                assert(session_scope(changes, rows[k].session_id@) is None);
            } else {
                let k = choose|k: int| 0 <= k < init.len() && !((#[trigger] session_scope(changes, init[k].session_id@)) is Some);
                assert(init[k] == rows[k]);
            }
        }
    }
}


/// The list of keyed rows of a change set that a keyed table is written from.
pub open spec fn keyed_rows(changes: RtcPersistenceChangeSet, table: PersistenceTable) -> Seq<RowKey> {
    match table {
        PersistenceTable::ProviderAccount => changes.provider_accounts@,
        PersistenceTable::ProviderApplication => changes.provider_applications@,
        PersistenceTable::ProviderCredential => changes.provider_credentials@,
        PersistenceTable::ProviderProfile => changes.provider_profiles@,
        PersistenceTable::ProviderRoute => changes.provider_routes@,
        PersistenceTable::Room => changes.rooms@,
        _ => changes.media_session_idempotencies@,
    }
}

proof fn lemma_keyed_segment(changes: RtcPersistenceChangeSet, updated_at: Seq<char>, table: PersistenceTable)
    requires
        table == PersistenceTable::ProviderAccount || table == PersistenceTable::ProviderApplication
            || table == PersistenceTable::ProviderCredential || table == PersistenceTable::ProviderProfile
            || table == PersistenceTable::ProviderRoute || table == PersistenceTable::Room
            || table == PersistenceTable::MediaSessionIdempotency,
    ensures
        all_fit(changes, updated_at, keyed_writes(table, keyed_rows(changes, table), updated_at)),
{
    let ws = keyed_writes(table, keyed_rows(changes, table), updated_at);
    assert forall|i: int| 0 <= i < ws.len() implies #[trigger] planned_write_fits(changes, updated_at, ws[i]) by {
        assert(ws[i].table == table && ws[i].index == i);
    }
}

proof fn lemma_child_segment(changes: RtcPersistenceChangeSet, updated_at: Seq<char>, table: PersistenceTable)
    requires
        table == PersistenceTable::MediaParticipant || table == PersistenceTable::MediaTrack
            || table == PersistenceTable::MediaArtifact || table == PersistenceTable::QualitySample,
        child_writes(table, session_child_rows(changes, table), changes, updated_at) is Ok,
    ensures
        all_fit(changes, updated_at, child_writes(table, session_child_rows(changes, table), changes, updated_at)->Ok_0),
{
    let rows = session_child_rows(changes, table);
    lemma_child_writes(table, rows, changes, updated_at);
    let ws = child_writes(table, rows, changes, updated_at)->Ok_0;
    assert forall|i: int| 0 <= i < ws.len() implies #[trigger] planned_write_fits(changes, updated_at, ws[i]) by {
        assert(ws[i] == child_write(table, i, rows[i].id@, session_scope(changes, rows[i].session_id@)->0, updated_at));
        assert(session_scope(changes, rows[i].session_id@) is Some);
    }
}

/// How many writes a change set takes: one per row of each list and per counted entry.
pub open spec fn write_count(changes: RtcPersistenceChangeSet) -> nat {
    changes.provider_accounts@.len() + changes.provider_applications@.len() + changes.provider_credentials@.len()
        + changes.provider_profiles@.len() + changes.provider_routes@.len() + changes.rooms@.len()
        + changes.media_sessions@.len() + changes.media_participants@.len() + changes.media_tracks@.len()
        + changes.media_artifacts@.len() + changes.quality_samples@.len() + changes.webhook_events as nat
        + changes.provider_query_jobs as nat + changes.provider_query_snapshots as nat
        + changes.completion_records@.len() + changes.media_session_idempotencies@.len()
}

/// Storing a change set succeeds exactly when every participant, track, artifact and
/// quality sample names a session that the change set gives a scope; the plan then has one
/// write per row and entry, and every write is what its table asks: keyed in its own
/// namespace, stamped when its table carries the change set's time, and, for rows that
/// belong to a session, written under that session's organization and, for participants,
/// tracks and quality samples, its tenant.
pub proof fn law_persistence_plan_writes(changes: RtcPersistenceChangeSet, updated_at: Seq<char>)
    ensures
        persistence_plan(changes, updated_at) is Ok <==> every_child_scoped(changes),
        persistence_plan(changes, updated_at) matches Ok(ws) ==> {
            &&& ws.len() == write_count(changes)
            &&& all_fit(changes, updated_at, ws)
        },
{
    let u = updated_at;
    lemma_child_writes(PersistenceTable::MediaParticipant, changes.media_participants@, changes, u);
    lemma_child_writes(PersistenceTable::MediaTrack, changes.media_tracks@, changes, u);
    lemma_child_writes(PersistenceTable::MediaArtifact, changes.media_artifacts@, changes, u);
    lemma_child_writes(PersistenceTable::QualitySample, changes.quality_samples@, changes, u);
    assert(session_child_rows(changes, PersistenceTable::MediaParticipant) == changes.media_participants@);
    assert(session_child_rows(changes, PersistenceTable::MediaTrack) == changes.media_tracks@);
    assert(session_child_rows(changes, PersistenceTable::MediaArtifact) == changes.media_artifacts@);
    assert(session_child_rows(changes, PersistenceTable::QualitySample) == changes.quality_samples@);
    if persistence_plan(changes, u) is Ok {
        let ws = persistence_plan(changes, u)->Ok_0;
        lemma_keyed_segment(changes, u, PersistenceTable::ProviderAccount);
        lemma_keyed_segment(changes, u, PersistenceTable::ProviderApplication);
        lemma_keyed_segment(changes, u, PersistenceTable::ProviderCredential);
        lemma_keyed_segment(changes, u, PersistenceTable::ProviderProfile);
        lemma_keyed_segment(changes, u, PersistenceTable::ProviderRoute);
        lemma_keyed_segment(changes, u, PersistenceTable::Room);
        lemma_keyed_segment(changes, u, PersistenceTable::MediaSessionIdempotency);
        lemma_child_segment(changes, u, PersistenceTable::MediaParticipant);
        lemma_child_segment(changes, u, PersistenceTable::MediaTrack);
        lemma_child_segment(changes, u, PersistenceTable::MediaArtifact);
        lemma_child_segment(changes, u, PersistenceTable::QualitySample);
        let a1 = keyed_writes(PersistenceTable::ProviderAccount, changes.provider_accounts@, u);
        let a2 = keyed_writes(PersistenceTable::ProviderApplication, changes.provider_applications@, u);
        let a3 = keyed_writes(PersistenceTable::ProviderCredential, changes.provider_credentials@, u);
        let a4 = keyed_writes(PersistenceTable::ProviderProfile, changes.provider_profiles@, u);
        let a5 = keyed_writes(PersistenceTable::ProviderRoute, changes.provider_routes@, u);
        let a6 = keyed_writes(PersistenceTable::Room, changes.rooms@, u);
        let a7 = session_writes(changes.media_sessions@, u);
        let p = child_writes(PersistenceTable::MediaParticipant, changes.media_participants@, changes, u)->Ok_0;
        let t = child_writes(PersistenceTable::MediaTrack, changes.media_tracks@, changes, u)->Ok_0;
        let ar = child_writes(PersistenceTable::MediaArtifact, changes.media_artifacts@, changes, u)->Ok_0;
        let q = child_writes(PersistenceTable::QualitySample, changes.quality_samples@, changes, u)->Ok_0;
        let c1 = counted_writes(PersistenceTable::WebhookEvent, changes.webhook_events as nat);
        let c2 = counted_writes(PersistenceTable::ProviderQueryJob, changes.provider_query_jobs as nat);
        let c3 = counted_writes(PersistenceTable::ProviderQuerySnapshot, changes.provider_query_snapshots as nat);
        let c4 = completion_writes(changes.completion_records@);
        let c5 = keyed_writes(PersistenceTable::MediaSessionIdempotency, changes.media_session_idempotencies@, u);
        assert forall|i: int| 0 <= i < a7.len() implies #[trigger] planned_write_fits(changes, u, a7[i]) by {}
        assert forall|i: int| 0 <= i < c1.len() implies #[trigger] planned_write_fits(changes, u, c1[i]) by {}
        assert forall|i: int| 0 <= i < c2.len() implies #[trigger] planned_write_fits(changes, u, c2[i]) by {}
        assert forall|i: int| 0 <= i < c3.len() implies #[trigger] planned_write_fits(changes, u, c3[i]) by {}
        assert forall|i: int| 0 <= i < c4.len() implies #[trigger] planned_write_fits(changes, u, c4[i]) by {}
        lemma_all_fit_concat(changes, u, a1, a2);
        lemma_all_fit_concat(changes, u, a1 + a2, a3);
        lemma_all_fit_concat(changes, u, a1 + a2 + a3, a4);
        lemma_all_fit_concat(changes, u, a1 + a2 + a3 + a4, a5);
        lemma_all_fit_concat(changes, u, a1 + a2 + a3 + a4 + a5, a6);
        lemma_all_fit_concat(changes, u, a1 + a2 + a3 + a4 + a5 + a6, a7);
        let head = a1 + a2 + a3 + a4 + a5 + a6 + a7;
        lemma_all_fit_concat(changes, u, head, p);
        lemma_all_fit_concat(changes, u, head + p, t);
        lemma_all_fit_concat(changes, u, head + p + t, ar);
        lemma_all_fit_concat(changes, u, head + p + t + ar, q);
        lemma_all_fit_concat(changes, u, head + p + t + ar + q, c1);
        lemma_all_fit_concat(changes, u, head + p + t + ar + q + c1, c2);
        lemma_all_fit_concat(changes, u, head + p + t + ar + q + c1 + c2, c3);
        lemma_all_fit_concat(changes, u, head + p + t + ar + q + c1 + c2 + c3, c4);
        lemma_all_fit_concat(changes, u, head + p + t + ar + q + c1 + c2 + c3 + c4, c5);
        assert(ws == head + p + t + ar + q + c1 + c2 + c3 + c4 + c5);
    }
}


/// The character that percent-encoding writes for the four-bit value `d`: `0`-`9`, then
/// uppercase `A`-`F`.
pub open spec fn upper_hex_digit(d: int) -> char {
    (if d < 10 { 48 + d } else { 55 + d }) as char
}

/// Percent-encoding works byte by byte: the encoding of two byte strings one after the
/// other is the two encodings one after the other. A letter, digit, `-`, `_`, `.` or `~`
/// is written as that character; any other byte as `%` and its two uppercase hex digits.
pub proof fn law_percent_encoding_is_bytewise(a: Seq<u8>, b: Seq<u8>, byte: u8)
    ensures
        percent_encoded(a + b) == percent_encoded(a) + percent_encoded(b),
        ({
            let kept = (65 <= byte <= 90) || (97 <= byte <= 122) || (48 <= byte <= 57) || byte == 45
                || byte == 95 || byte == 46 || byte == 126;
            &&& kept ==> percent_encoded(seq![byte]) == seq![byte as char]
            &&& !kept ==> percent_encoded(seq![byte]) == seq![
                '%',
                upper_hex_digit(byte as int / 16),
                upper_hex_digit(byte as int % 16),
            ]
        }),
    decreases b.len(),
{
    if b.len() == 0 {
        assert(a + b =~= a);
    } else {
        law_percent_encoding_is_bytewise(a, b.drop_last(), byte);
        assert((a + b).drop_last() =~= a + b.drop_last());
        assert((a + b).last() == b.last());
    }
    let one = seq![byte];
    assert(one.drop_last() =~= Seq::<u8>::empty());
    assert(one.last() == byte);
    assert(percent_encoded(one.drop_last()) =~= Seq::<char>::empty());
    assert(percent_encoded(one) == percent_encoded(one.drop_last()) + byte_escape(one.last()));
    assert(percent_encoded(one) =~= byte_escape(byte));
    let hi = byte as int / 16;
    let lo = byte as int % 16;
    lemma_upper_hex_digit(hi);
    lemma_upper_hex_digit(lo);
}

proof fn lemma_upper_hex_digit(d: int)
    requires
        0 <= d < 16,
    ensures
        hex_upper_char(d) == upper_hex_digit(d),
{
    if d == 0 { assert(upper_hex_digit(0) == '0'); }
    else if d == 1 { assert(upper_hex_digit(1) == '1'); }
    else if d == 2 { assert(upper_hex_digit(2) == '2'); }
    else if d == 3 { assert(upper_hex_digit(3) == '3'); }
    else if d == 4 { assert(upper_hex_digit(4) == '4'); }
    else if d == 5 { assert(upper_hex_digit(5) == '5'); }
    else if d == 6 { assert(upper_hex_digit(6) == '6'); }
    else if d == 7 { assert(upper_hex_digit(7) == '7'); }
    else if d == 8 { assert(upper_hex_digit(8) == '8'); }
    else if d == 9 { assert(upper_hex_digit(9) == '9'); }
    else if d == 10 { assert(upper_hex_digit(10) == 'A'); }
    else if d == 11 { assert(upper_hex_digit(11) == 'B'); }
    else if d == 12 { assert(upper_hex_digit(12) == 'C'); }
    else if d == 13 { assert(upper_hex_digit(13) == 'D'); }
    else if d == 14 { assert(upper_hex_digit(14) == 'E'); }
    else { assert(upper_hex_digit(15) == 'F'); }
}

/// A webhook event is deduplicated by its own value when it names a non-empty one, and by
/// the fallback otherwise.
pub proof fn law_dedupe_key_prefers_a_given_value(value: Option<Seq<char>>, fallback: Seq<char>)
    ensures
        value is Some && value->0.len() > 0 ==> dedupe_key_text(value, fallback) == value->0,
        !(value is Some && value->0.len() > 0) ==> dedupe_key_text(value, fallback) == fallback,
{
}

/// A provider session id names its provider: an id that already holds a colon is kept,
/// any other is prefixed with the provider and a colon; so the result always holds a
/// colon, and without one in the id, the text after the first colon is the id.
pub proof fn law_provider_session_ids_are_qualified(provider: Seq<char>, session_id: Seq<char>)
    ensures
        provider_session_id_text(provider, session_id).contains(':'),
        session_id.contains(':') ==> provider_session_id_text(provider, session_id) == session_id,
        !session_id.contains(':') ==> {
            let text = provider_session_id_text(provider, session_id);
            &&& text.len() == provider.len() + 1 + session_id.len()
            &&& text.subrange(0, provider.len() as int) == provider
            &&& text[provider.len() as int] == ':'
            &&& text.subrange(provider.len() + 1int, text.len() as int) == session_id
        },
{
    let text = provider_session_id_text(provider, session_id);
    if !session_id.contains(':') {
        assert(text[provider.len() as int] == ':');
        assert(text.subrange(0, provider.len() as int) =~= provider);
        assert(text.subrange(provider.len() + 1int, text.len() as int) =~= session_id);
    }
}

/// A stored artifact passes the Drive snapshot check exactly when its Drive URI is
/// `drive://spaces/{space}/nodes/{node}`, its resource is served from Drive under the node's
/// id and that URI, and the resource's `drive` metadata is an object naming the same space,
/// the space type `rtc`, the same node and, when the reference knows it, the same node
/// version.
pub proof fn law_drive_snapshot_check_accepts_exactly_consistent_artifacts(a: RtcMediaArtifact)
    ensures
        drive_snapshot_check(a) is Ok <==> {
            let d = a.drive;
            let r = a.resource;
            &&& d.drive_uri@ == "drive://spaces/"@ + d.space_id@ + "/nodes/"@ + d.node_id@
            &&& r.source == RtcMediaSource::Drive
            &&& r.id is Some && r.id->0@ == d.node_id@
            &&& r.uri is Some && r.uri->0@ == d.drive_uri@
            &&& r.metadata is Some
            &&& json_get(r.metadata->0@, "drive"@) matches Some(JsonView::Object(members)) && {
                let dm = JsonView::Object(members);
                &&& json_get(dm, "spaceId"@) == Some(JsonView::Str(d.space_id@))
                &&& json_get(dm, "spaceType"@) == Some(JsonView::Str("rtc"@))
                &&& json_get(dm, "nodeId"@) == Some(JsonView::Str(d.node_id@))
                &&& (d.node_version is Some ==> json_get(dm, "nodeVersion"@) == Some(
                    JsonView::Str(d.node_version->0@),
                ))
            }
        },
{
}


/// Webhook deliveries are deduplicated per provider profile (a shared key when the event
/// names none) and per external event id, falling back to the payload hash when the
/// provider sent no event id; a stored event's session is its RTC session, else its
/// provider session.
pub proof fn law_webhook_dedupe_and_session_keys(event: RtcProviderWebhookEvent)
    ensures
        ({
            let (profile_key, event_key) = webhook_dedupe_keys(event);
            let profile = event.provider_profile_id;
            let external = event.external_event_id;
            &&& (profile is Some && profile->0@.len() > 0 ==> profile_key == profile->0@)
            &&& (!(profile is Some && profile->0@.len() > 0) ==> profile_key == "__default_provider_profile__"@)
            &&& (external is Some && external->0@.len() > 0 ==> event_key == external->0@)
            &&& (!(external is Some && external->0@.len() > 0) ==> event_key == event.payload_hash@)
        }),
        event.rtc_session_id is Some ==> webhook_session_key(event) == Some(event.rtc_session_id->0@),
        event.rtc_session_id is None && event.provider_session_id is Some ==> webhook_session_key(event) == Some(
            event.provider_session_id->0@,
        ),
        event.rtc_session_id is None && event.provider_session_id is None ==> webhook_session_key(event) is None,
{
}

/// The search pattern of a listing is the query without its surrounding whitespace,
/// lowercased letter by letter (`A`-`Z` to `a`-`z`, everything else kept), between `%`
/// signs; a missing or blank query searches nothing.
pub proof fn law_search_pattern_is_the_lowercased_query(q: Option<Seq<char>>)
    ensures
        q is None ==> like_pattern(q) is None,
        q is Some ==> (like_pattern(q) is Some <==> trimmed(q->0).len() > 0),
        like_pattern(q) matches Some(pattern) ==> {
            let t = trimmed(q->0);
            &&& pattern.len() == t.len() + 2
            &&& pattern[0] == '%'
            &&& pattern[pattern.len() - 1] == '%'
            &&& forall|i: int| 0 <= i < t.len() ==> #[trigger] pattern[i + 1] == (if 'A' <= t[i] <= 'Z' {
                ((t[i] as u32) + 32) as char
            } else {
                t[i]
            })
        },
{
    reveal_strlit("%");
    if like_pattern(q) is Some {
        let t = trimmed(q->0);
        let pattern = like_pattern(q)->0;
        let lower = crate::text::ascii_lowercase(t);
        assert(pattern =~= "%"@ + lower + "%"@);
        assert forall|i: int| 0 <= i < t.len() implies #[trigger] pattern[i + 1] == (if 'A' <= t[i] <= 'Z' {
            ((t[i] as u32) + 32) as char
        } else {
            t[i]
        }) by {
            assert(pattern[i + 1] == lower[i]);
        }
        assert(pattern[0] == '%');
        assert(pattern[pattern.len() - 1] == '%');
    }
}

} // verus!
