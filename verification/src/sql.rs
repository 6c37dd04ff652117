use vstd::prelude::*;
use crate::text::{owned, push_str};

verus! {

/// A select statement with its filter and ordering clauses put in place.
pub open spec fn select_text(
    head: Seq<char>,
    where_clause: Seq<char>,
    middle: Seq<char>,
    order_clause: Seq<char>,
    tail: Seq<char>,
) -> Seq<char> {
    head + where_clause + middle + order_clause + tail
}

fn compose_select(head: &str, where_clause: &str, middle: &str, order_clause: &str, tail: &str) -> (res: String)
    ensures
        res@ == select_text(head@, where_clause@, middle@, order_clause@, tail@),
{
    let mut out = owned(head);
    push_str(&mut out, where_clause);
    push_str(&mut out, middle);
    push_str(&mut out, order_clause);
    push_str(&mut out, tail);
    out
}

/// The text of the `sqlite upsert room` statement.
pub const SQLITE_UPSERT_ROOM_SQL: &'static str = r##"
    INSERT INTO rtc_room (
        id, uuid, tenant_id, organization_id, owner_user_id, title, status,
        created_at, updated_at, version
    )
    VALUES (?, ?, ?, ?, ?, ?, ?, ?, ?, 0)
    ON CONFLICT(uuid) DO UPDATE SET
        tenant_id = excluded.tenant_id,
        organization_id = excluded.organization_id,
        owner_user_id = excluded.owner_user_id,
        title = excluded.title,
        status = excluded.status,
        updated_at = excluded.updated_at,
        version = rtc_room.version + 1
    "##;

/// The `sqlite upsert room` statement.
pub fn sqlite_upsert_room_sql() -> (res: &'static str)
    ensures
        res@ == SQLITE_UPSERT_ROOM_SQL@,
{
    SQLITE_UPSERT_ROOM_SQL
}

/// The text of the `postgres upsert room` statement.
pub const POSTGRES_UPSERT_ROOM_SQL: &'static str = r##"
    INSERT INTO rtc_room (
        id, uuid, tenant_id, organization_id, owner_user_id, title, status,
        created_at, updated_at, version
    )
    VALUES ($1, $2, $3, $4, $5, $6, $7, $8::text::timestamp, $9::text::timestamp, 0)
    ON CONFLICT(uuid) DO UPDATE SET
        tenant_id = excluded.tenant_id,
        organization_id = excluded.organization_id,
        owner_user_id = excluded.owner_user_id,
        title = excluded.title,
        status = excluded.status,
        updated_at = excluded.updated_at,
        version = rtc_room.version + 1
    "##;

/// The `postgres upsert room` statement.
pub fn postgres_upsert_room_sql() -> (res: &'static str)
    ensures
        res@ == POSTGRES_UPSERT_ROOM_SQL@,
{
    POSTGRES_UPSERT_ROOM_SQL
}

/// The text of the `sqlite upsert media session` statement.
pub const SQLITE_UPSERT_MEDIA_SESSION_SQL: &'static str = r##"
    INSERT INTO rtc_media_session (
        id, uuid, tenant_id, organization_id, room_id, owner_user_id,
        media_mode, status, provider_profile_id, provider_session_id,
        started_at, connected_at, ended_at, duration_ms, end_reason, end_source,
        participant_count, max_concurrent_participants, quality_summary_snapshot,
        recording_summary_snapshot, completion_recorded_at, last_provider_webhook_event_id,
        last_provider_query_job_id, created_at, updated_at, version
    )
    VALUES (?, ?, ?, ?, ?, ?, ?, ?, ?, ?, ?, ?, ?, ?, ?, ?, ?, ?, ?, ?, ?, ?, ?, ?, ?, 0)
    ON CONFLICT(uuid) DO UPDATE SET
        tenant_id = excluded.tenant_id,
        organization_id = excluded.organization_id,
        room_id = excluded.room_id,
        owner_user_id = excluded.owner_user_id,
        media_mode = excluded.media_mode,
        status = excluded.status,
        provider_profile_id = excluded.provider_profile_id,
        provider_session_id = excluded.provider_session_id,
        started_at = excluded.started_at,
        connected_at = excluded.connected_at,
        ended_at = excluded.ended_at,
        duration_ms = excluded.duration_ms,
        end_reason = excluded.end_reason,
        end_source = excluded.end_source,
        participant_count = excluded.participant_count,
        max_concurrent_participants = excluded.max_concurrent_participants,
        quality_summary_snapshot = excluded.quality_summary_snapshot,
        recording_summary_snapshot = excluded.recording_summary_snapshot,
        completion_recorded_at = excluded.completion_recorded_at,
        last_provider_webhook_event_id = excluded.last_provider_webhook_event_id,
        last_provider_query_job_id = excluded.last_provider_query_job_id,
        updated_at = excluded.updated_at,
        version = rtc_media_session.version + 1
    "##;

/// The `sqlite upsert media session` statement.
pub fn sqlite_upsert_media_session_sql() -> (res: &'static str)
    ensures
        res@ == SQLITE_UPSERT_MEDIA_SESSION_SQL@,
{
    SQLITE_UPSERT_MEDIA_SESSION_SQL
}

/// The text of the `postgres upsert media session` statement.
pub const POSTGRES_UPSERT_MEDIA_SESSION_SQL: &'static str = r##"
    INSERT INTO rtc_media_session (
        id, uuid, tenant_id, organization_id, room_id, owner_user_id,
        media_mode, status, provider_profile_id, provider_session_id,
        started_at, connected_at, ended_at, duration_ms, end_reason, end_source,
        participant_count, max_concurrent_participants, quality_summary_snapshot,
        recording_summary_snapshot, completion_recorded_at, last_provider_webhook_event_id,
        last_provider_query_job_id, created_at, updated_at, version
    )
    VALUES (
        $1, $2, $3, $4, $5, $6, $7, $8, $9, $10,
        NULLIF($11::text, '')::timestamp,
        NULLIF($12::text, '')::timestamp,
        NULLIF($13::text, '')::timestamp,
        $14, $15, $16, $17, $18,
        CASE WHEN $19::text IS NULL THEN NULL ELSE $19::text::jsonb END,
        CASE WHEN $20::text IS NULL THEN NULL ELSE $20::text::jsonb END,
        NULLIF($21::text, '')::timestamp,
        $22, $23,
        $24::text::timestamp,
        $25::text::timestamp,
        0
    )
    ON CONFLICT(uuid) DO UPDATE SET
        tenant_id = excluded.tenant_id,
        organization_id = excluded.organization_id,
        room_id = excluded.room_id,
        owner_user_id = excluded.owner_user_id,
        media_mode = excluded.media_mode,
        status = excluded.status,
        provider_profile_id = excluded.provider_profile_id,
        provider_session_id = excluded.provider_session_id,
        started_at = excluded.started_at,
        connected_at = excluded.connected_at,
        ended_at = excluded.ended_at,
        duration_ms = excluded.duration_ms,
        end_reason = excluded.end_reason,
        end_source = excluded.end_source,
        participant_count = excluded.participant_count,
        max_concurrent_participants = excluded.max_concurrent_participants,
        quality_summary_snapshot = excluded.quality_summary_snapshot,
        recording_summary_snapshot = excluded.recording_summary_snapshot,
        completion_recorded_at = excluded.completion_recorded_at,
        last_provider_webhook_event_id = excluded.last_provider_webhook_event_id,
        last_provider_query_job_id = excluded.last_provider_query_job_id,
        updated_at = excluded.updated_at,
        version = rtc_media_session.version + 1
    "##;

/// The `postgres upsert media session` statement.
pub fn postgres_upsert_media_session_sql() -> (res: &'static str)
    ensures
        res@ == POSTGRES_UPSERT_MEDIA_SESSION_SQL@,
{
    POSTGRES_UPSERT_MEDIA_SESSION_SQL
}

/// The text of the `sqlite upsert media participant` statement.
pub const SQLITE_UPSERT_MEDIA_PARTICIPANT_SQL: &'static str = r##"
    INSERT INTO rtc_media_participant (
        id, uuid, tenant_id, organization_id, session_id, user_id,
        display_name_snapshot, role, state, audio_muted, video_muted,
        screen_share_active, provider_participant_id, joined_at, left_at,
        duration_ms, leave_reason, last_seen_at, created_at, updated_at, version
    )
    VALUES (?, ?, ?, ?, ?, ?, ?, ?, ?, ?, ?, ?, ?, ?, ?, ?, ?, ?, ?, ?, 0)
    ON CONFLICT(session_id, user_id) DO UPDATE SET
        uuid = excluded.uuid,
        display_name_snapshot = excluded.display_name_snapshot,
        role = excluded.role,
        state = excluded.state,
        audio_muted = excluded.audio_muted,
        video_muted = excluded.video_muted,
        screen_share_active = excluded.screen_share_active,
        provider_participant_id = excluded.provider_participant_id,
        joined_at = excluded.joined_at,
        left_at = excluded.left_at,
        duration_ms = excluded.duration_ms,
        leave_reason = excluded.leave_reason,
        last_seen_at = excluded.last_seen_at,
        updated_at = excluded.updated_at,
        version = rtc_media_participant.version + 1
    "##;

/// The `sqlite upsert media participant` statement.
pub fn sqlite_upsert_media_participant_sql() -> (res: &'static str)
    ensures
        res@ == SQLITE_UPSERT_MEDIA_PARTICIPANT_SQL@,
{
    SQLITE_UPSERT_MEDIA_PARTICIPANT_SQL
}

/// The text of the `postgres upsert media participant` statement.
pub const POSTGRES_UPSERT_MEDIA_PARTICIPANT_SQL: &'static str = r##"
    INSERT INTO rtc_media_participant (
        id, uuid, tenant_id, organization_id, session_id, user_id,
        display_name_snapshot, role, state, audio_muted, video_muted,
        screen_share_active, provider_participant_id, joined_at, left_at,
        duration_ms, leave_reason, last_seen_at, created_at, updated_at, version
    )
    VALUES (
        $1, $2, $3, $4, $5, $6, $7, $8, $9, $10, $11, $12, $13,
        NULLIF($14::text, '')::timestamp,
        NULLIF($15::text, '')::timestamp,
        $16, $17,
        NULLIF($18::text, '')::timestamp,
        $19::text::timestamp,
        $20::text::timestamp,
        0
    )
    ON CONFLICT(session_id, user_id) DO UPDATE SET
        uuid = excluded.uuid,
        display_name_snapshot = excluded.display_name_snapshot,
        role = excluded.role,
        state = excluded.state,
        audio_muted = excluded.audio_muted,
        video_muted = excluded.video_muted,
        screen_share_active = excluded.screen_share_active,
        provider_participant_id = excluded.provider_participant_id,
        joined_at = excluded.joined_at,
        left_at = excluded.left_at,
        duration_ms = excluded.duration_ms,
        leave_reason = excluded.leave_reason,
        last_seen_at = excluded.last_seen_at,
        updated_at = excluded.updated_at,
        version = rtc_media_participant.version + 1
    "##;

/// The `postgres upsert media participant` statement.
pub fn postgres_upsert_media_participant_sql() -> (res: &'static str)
    ensures
        res@ == POSTGRES_UPSERT_MEDIA_PARTICIPANT_SQL@,
{
    POSTGRES_UPSERT_MEDIA_PARTICIPANT_SQL
}

/// The text of the `sqlite upsert media track` statement.
pub const SQLITE_UPSERT_MEDIA_TRACK_SQL: &'static str = r##"
    INSERT INTO rtc_media_track (
        id, uuid, tenant_id, organization_id, session_id, participant_id,
        track_kind, track_source, provider_track_id, status, started_at,
        ended_at, duration_ms, muted_duration_ms, end_reason, created_at,
        updated_at, version
    )
    VALUES (?, ?, ?, ?, ?, ?, ?, ?, ?, ?, ?, ?, ?, ?, ?, ?, ?, 0)
    ON CONFLICT(uuid) DO UPDATE SET
        tenant_id = excluded.tenant_id,
        organization_id = excluded.organization_id,
        session_id = excluded.session_id,
        participant_id = excluded.participant_id,
        track_kind = excluded.track_kind,
        track_source = excluded.track_source,
        provider_track_id = excluded.provider_track_id,
        status = excluded.status,
        started_at = excluded.started_at,
        ended_at = excluded.ended_at,
        duration_ms = excluded.duration_ms,
        muted_duration_ms = excluded.muted_duration_ms,
        end_reason = excluded.end_reason,
        updated_at = excluded.updated_at,
        version = rtc_media_track.version + 1
    "##;

/// The `sqlite upsert media track` statement.
pub fn sqlite_upsert_media_track_sql() -> (res: &'static str)
    ensures
        res@ == SQLITE_UPSERT_MEDIA_TRACK_SQL@,
{
    SQLITE_UPSERT_MEDIA_TRACK_SQL
}

/// The text of the `postgres upsert media track` statement.
pub const POSTGRES_UPSERT_MEDIA_TRACK_SQL: &'static str = r##"
    INSERT INTO rtc_media_track (
        id, uuid, tenant_id, organization_id, session_id, participant_id,
        track_kind, track_source, provider_track_id, status, started_at,
        ended_at, duration_ms, muted_duration_ms, end_reason, created_at,
        updated_at, version
    )
    VALUES (
        $1, $2, $3, $4, $5, $6, $7, $8, $9, $10,
        NULLIF($11::text, '')::timestamp,
        NULLIF($12::text, '')::timestamp,
        $13, $14, $15,
        $16::text::timestamp,
        $17::text::timestamp,
        0
    )
    ON CONFLICT(uuid) DO UPDATE SET
        tenant_id = excluded.tenant_id,
        organization_id = excluded.organization_id,
        session_id = excluded.session_id,
        participant_id = excluded.participant_id,
        track_kind = excluded.track_kind,
        track_source = excluded.track_source,
        provider_track_id = excluded.provider_track_id,
        status = excluded.status,
        started_at = excluded.started_at,
        ended_at = excluded.ended_at,
        duration_ms = excluded.duration_ms,
        muted_duration_ms = excluded.muted_duration_ms,
        end_reason = excluded.end_reason,
        updated_at = excluded.updated_at,
        version = rtc_media_track.version + 1
    "##;

/// The `postgres upsert media track` statement.
pub fn postgres_upsert_media_track_sql() -> (res: &'static str)
    ensures
        res@ == POSTGRES_UPSERT_MEDIA_TRACK_SQL@,
{
    POSTGRES_UPSERT_MEDIA_TRACK_SQL
}

/// The text of the `sqlite upsert media artifact` statement.
pub const SQLITE_UPSERT_MEDIA_ARTIFACT_SQL: &'static str = r##"
    INSERT INTO rtc_media_artifact (
        id, uuid, tenant_id, organization_id, session_id, owner_user_id,
        artifact_kind, artifact_status, media_role, provider_profile_id,
        provider_artifact_id, drive_space_id, drive_space_type, drive_node_id, drive_uri,
        media_resource_snapshot, resource_hash, started_at, ended_at,
        duration_ms, failure_reason, source_provider_webhook_event_id,
        source_provider_query_job_id, created_at, updated_at, version
    )
    VALUES (?, ?, ?, ?, ?, ?, ?, ?, ?, ?, ?, ?, ?, ?, ?, ?, ?, ?, ?, ?, ?, ?, ?, ?, ?, 0)
    ON CONFLICT(uuid) DO UPDATE SET
        tenant_id = excluded.tenant_id,
        organization_id = excluded.organization_id,
        session_id = excluded.session_id,
        owner_user_id = excluded.owner_user_id,
        artifact_kind = excluded.artifact_kind,
        artifact_status = excluded.artifact_status,
        media_role = excluded.media_role,
        provider_profile_id = excluded.provider_profile_id,
        provider_artifact_id = excluded.provider_artifact_id,
        drive_space_id = excluded.drive_space_id,
        drive_space_type = excluded.drive_space_type,
        drive_node_id = excluded.drive_node_id,
        drive_uri = excluded.drive_uri,
        media_resource_snapshot = excluded.media_resource_snapshot,
        resource_hash = excluded.resource_hash,
        started_at = excluded.started_at,
        ended_at = excluded.ended_at,
        duration_ms = excluded.duration_ms,
        failure_reason = excluded.failure_reason,
        source_provider_webhook_event_id = excluded.source_provider_webhook_event_id,
        source_provider_query_job_id = excluded.source_provider_query_job_id,
        updated_at = excluded.updated_at,
        version = rtc_media_artifact.version + 1
    "##;

/// The `sqlite upsert media artifact` statement.
pub fn sqlite_upsert_media_artifact_sql() -> (res: &'static str)
    ensures
        res@ == SQLITE_UPSERT_MEDIA_ARTIFACT_SQL@,
{
    SQLITE_UPSERT_MEDIA_ARTIFACT_SQL
}

/// The text of the `postgres upsert media artifact` statement.
pub const POSTGRES_UPSERT_MEDIA_ARTIFACT_SQL: &'static str = r##"
    INSERT INTO rtc_media_artifact (
        id, uuid, tenant_id, organization_id, session_id, owner_user_id,
        artifact_kind, artifact_status, media_role, provider_profile_id,
        provider_artifact_id, drive_space_id, drive_space_type, drive_node_id, drive_uri,
        media_resource_snapshot, resource_hash, started_at, ended_at,
        duration_ms, failure_reason, source_provider_webhook_event_id,
        source_provider_query_job_id, created_at, updated_at, version
    )
    VALUES (
        $1, $2, $3, $4, $5, $6, $7, $8, $9, $10, $11, $12,
        $13, $14, $15, $16::text::jsonb, $17,
        NULLIF($18::text, '')::timestamp,
        NULLIF($19::text, '')::timestamp,
        $20, $21, $22, $23,
        $24::text::timestamp,
        $25::text::timestamp,
        0
    )
    ON CONFLICT(uuid) DO UPDATE SET
        tenant_id = excluded.tenant_id,
        organization_id = excluded.organization_id,
        session_id = excluded.session_id,
        owner_user_id = excluded.owner_user_id,
        artifact_kind = excluded.artifact_kind,
        artifact_status = excluded.artifact_status,
        media_role = excluded.media_role,
        provider_profile_id = excluded.provider_profile_id,
        provider_artifact_id = excluded.provider_artifact_id,
        drive_space_id = excluded.drive_space_id,
        drive_space_type = excluded.drive_space_type,
        drive_node_id = excluded.drive_node_id,
        drive_uri = excluded.drive_uri,
        media_resource_snapshot = excluded.media_resource_snapshot,
        resource_hash = excluded.resource_hash,
        started_at = excluded.started_at,
        ended_at = excluded.ended_at,
        duration_ms = excluded.duration_ms,
        failure_reason = excluded.failure_reason,
        source_provider_webhook_event_id = excluded.source_provider_webhook_event_id,
        source_provider_query_job_id = excluded.source_provider_query_job_id,
        updated_at = excluded.updated_at,
        version = rtc_media_artifact.version + 1
    "##;

/// The `postgres upsert media artifact` statement.
pub fn postgres_upsert_media_artifact_sql() -> (res: &'static str)
    ensures
        res@ == POSTGRES_UPSERT_MEDIA_ARTIFACT_SQL@,
{
    POSTGRES_UPSERT_MEDIA_ARTIFACT_SQL
}

/// The text of the `sqlite upsert quality sample` statement.
pub const SQLITE_UPSERT_QUALITY_SAMPLE_SQL: &'static str = r##"
    INSERT INTO rtc_quality_sample (
        id, uuid, tenant_id, organization_id, session_id, participant_id,
        latency_ms, packet_loss_rate, jitter_ms, bitrate_kbps, sampled_at, created_at
    )
    VALUES (?, ?, ?, ?, ?, ?, ?, ?, ?, ?, ?, ?)
    ON CONFLICT(uuid) DO UPDATE SET
        participant_id = excluded.participant_id,
        latency_ms = excluded.latency_ms,
        packet_loss_rate = excluded.packet_loss_rate,
        jitter_ms = excluded.jitter_ms,
        bitrate_kbps = excluded.bitrate_kbps,
        sampled_at = excluded.sampled_at
    "##;

/// The `sqlite upsert quality sample` statement.
pub fn sqlite_upsert_quality_sample_sql() -> (res: &'static str)
    ensures
        res@ == SQLITE_UPSERT_QUALITY_SAMPLE_SQL@,
{
    SQLITE_UPSERT_QUALITY_SAMPLE_SQL
}

/// The text of the `postgres upsert quality sample` statement.
pub const POSTGRES_UPSERT_QUALITY_SAMPLE_SQL: &'static str = r##"
    INSERT INTO rtc_quality_sample (
        id, uuid, tenant_id, organization_id, session_id, participant_id,
        latency_ms, packet_loss_rate, jitter_ms, bitrate_kbps, sampled_at, created_at
    )
    VALUES (
        $1, $2, $3, $4, $5, $6, $7,
        CASE WHEN $8::text IS NULL THEN NULL ELSE $8::text::numeric END,
        $9, $10, $11::text::timestamp, $12::text::timestamp
    )
    ON CONFLICT(uuid) DO UPDATE SET
        participant_id = excluded.participant_id,
        latency_ms = excluded.latency_ms,
        packet_loss_rate = excluded.packet_loss_rate,
        jitter_ms = excluded.jitter_ms,
        bitrate_kbps = excluded.bitrate_kbps,
        sampled_at = excluded.sampled_at
    "##;

/// The `postgres upsert quality sample` statement.
pub fn postgres_upsert_quality_sample_sql() -> (res: &'static str)
    ensures
        res@ == POSTGRES_UPSERT_QUALITY_SAMPLE_SQL@,
{
    POSTGRES_UPSERT_QUALITY_SAMPLE_SQL
}

/// Part of the `sqlite media session select` statement.
pub const SQLITE_MEDIA_SESSION_SELECT_SQL_HEAD: &'static str = r##"
        SELECT
            uuid, tenant_id, organization_id, room_id, owner_user_id, media_mode,
            status, provider_profile_id, provider_session_id, started_at, connected_at,
            ended_at, duration_ms, end_reason, end_source, participant_count,
            max_concurrent_participants, quality_summary_snapshot,
            recording_summary_snapshot, completion_recorded_at,
            last_provider_webhook_event_id, last_provider_query_job_id
        FROM rtc_media_session
        "##;

/// Part of the `sqlite media session select` statement.
pub const SQLITE_MEDIA_SESSION_SELECT_SQL_MIDDLE: &'static str = r##"
        "##;

/// Part of the `sqlite media session select` statement.
pub const SQLITE_MEDIA_SESSION_SELECT_SQL_TAIL: &'static str = r##"
        "##;

/// The `sqlite media session select` statement with the given filter and ordering.
pub fn sqlite_media_session_select_sql(where_clause: &str, order_clause: &str) -> (res: String)
    ensures
        res@ == select_text(SQLITE_MEDIA_SESSION_SELECT_SQL_HEAD@, where_clause@, SQLITE_MEDIA_SESSION_SELECT_SQL_MIDDLE@, order_clause@, SQLITE_MEDIA_SESSION_SELECT_SQL_TAIL@),
{
    compose_select(SQLITE_MEDIA_SESSION_SELECT_SQL_HEAD, where_clause, SQLITE_MEDIA_SESSION_SELECT_SQL_MIDDLE, order_clause, SQLITE_MEDIA_SESSION_SELECT_SQL_TAIL)
}

/// Part of the `postgres media session select` statement.
pub const POSTGRES_MEDIA_SESSION_SELECT_SQL_HEAD: &'static str = r##"
        SELECT
            uuid,
            tenant_id,
            organization_id,
            room_id,
            owner_user_id,
            media_mode,
            status,
            provider_profile_id,
            provider_session_id,
            to_char(started_at AT TIME ZONE 'UTC', 'YYYY-MM-DD"T"HH24:MI:SS.MS"Z"') AS started_at,
            to_char(connected_at AT TIME ZONE 'UTC', 'YYYY-MM-DD"T"HH24:MI:SS.MS"Z"') AS connected_at,
            to_char(ended_at AT TIME ZONE 'UTC', 'YYYY-MM-DD"T"HH24:MI:SS.MS"Z"') AS ended_at,
            duration_ms,
            end_reason,
            end_source,
            participant_count,
            max_concurrent_participants,
            quality_summary_snapshot,
            recording_summary_snapshot,
            to_char(completion_recorded_at AT TIME ZONE 'UTC', 'YYYY-MM-DD"T"HH24:MI:SS.MS"Z"') AS completion_recorded_at,
            last_provider_webhook_event_id,
            last_provider_query_job_id
        FROM rtc_media_session
        "##;

/// Part of the `postgres media session select` statement.
pub const POSTGRES_MEDIA_SESSION_SELECT_SQL_MIDDLE: &'static str = r##"
        "##;

/// Part of the `postgres media session select` statement.
pub const POSTGRES_MEDIA_SESSION_SELECT_SQL_TAIL: &'static str = r##"
        "##;

/// The `postgres media session select` statement with the given filter and ordering.
pub fn postgres_media_session_select_sql(where_clause: &str, order_clause: &str) -> (res: String)
    ensures
        res@ == select_text(POSTGRES_MEDIA_SESSION_SELECT_SQL_HEAD@, where_clause@, POSTGRES_MEDIA_SESSION_SELECT_SQL_MIDDLE@, order_clause@, POSTGRES_MEDIA_SESSION_SELECT_SQL_TAIL@),
{
    compose_select(POSTGRES_MEDIA_SESSION_SELECT_SQL_HEAD, where_clause, POSTGRES_MEDIA_SESSION_SELECT_SQL_MIDDLE, order_clause, POSTGRES_MEDIA_SESSION_SELECT_SQL_TAIL)
}

/// Part of the `sqlite media participant select` statement.
pub const SQLITE_MEDIA_PARTICIPANT_SELECT_SQL_HEAD: &'static str = r##"
        SELECT
            uuid, session_id, user_id, display_name_snapshot, role, state,
            audio_muted, video_muted, screen_share_active, provider_participant_id,
            joined_at, left_at, duration_ms, leave_reason, last_seen_at
        FROM rtc_media_participant
        "##;

/// Part of the `sqlite media participant select` statement.
pub const SQLITE_MEDIA_PARTICIPANT_SELECT_SQL_MIDDLE: &'static str = r##"
        "##;

/// Part of the `sqlite media participant select` statement.
pub const SQLITE_MEDIA_PARTICIPANT_SELECT_SQL_TAIL: &'static str = r##"
        "##;

/// The `sqlite media participant select` statement with the given filter and ordering.
pub fn sqlite_media_participant_select_sql(where_clause: &str, order_clause: &str) -> (res: String)
    ensures
        res@ == select_text(SQLITE_MEDIA_PARTICIPANT_SELECT_SQL_HEAD@, where_clause@, SQLITE_MEDIA_PARTICIPANT_SELECT_SQL_MIDDLE@, order_clause@, SQLITE_MEDIA_PARTICIPANT_SELECT_SQL_TAIL@),
{
    compose_select(SQLITE_MEDIA_PARTICIPANT_SELECT_SQL_HEAD, where_clause, SQLITE_MEDIA_PARTICIPANT_SELECT_SQL_MIDDLE, order_clause, SQLITE_MEDIA_PARTICIPANT_SELECT_SQL_TAIL)
}

/// Part of the `postgres media participant select` statement.
pub const POSTGRES_MEDIA_PARTICIPANT_SELECT_SQL_HEAD: &'static str = r##"
        SELECT
            uuid,
            session_id,
            user_id,
            display_name_snapshot,
            role,
            state,
            audio_muted,
            video_muted,
            screen_share_active,
            provider_participant_id,
            to_char(joined_at AT TIME ZONE 'UTC', 'YYYY-MM-DD"T"HH24:MI:SS.MS"Z"') AS joined_at,
            to_char(left_at AT TIME ZONE 'UTC', 'YYYY-MM-DD"T"HH24:MI:SS.MS"Z"') AS left_at,
            duration_ms,
            leave_reason,
            to_char(last_seen_at AT TIME ZONE 'UTC', 'YYYY-MM-DD"T"HH24:MI:SS.MS"Z"') AS last_seen_at
        FROM rtc_media_participant
        "##;

/// Part of the `postgres media participant select` statement.
pub const POSTGRES_MEDIA_PARTICIPANT_SELECT_SQL_MIDDLE: &'static str = r##"
        "##;

/// Part of the `postgres media participant select` statement.
pub const POSTGRES_MEDIA_PARTICIPANT_SELECT_SQL_TAIL: &'static str = r##"
        "##;

/// The `postgres media participant select` statement with the given filter and ordering.
pub fn postgres_media_participant_select_sql(where_clause: &str, order_clause: &str) -> (res: String)
    ensures
        res@ == select_text(POSTGRES_MEDIA_PARTICIPANT_SELECT_SQL_HEAD@, where_clause@, POSTGRES_MEDIA_PARTICIPANT_SELECT_SQL_MIDDLE@, order_clause@, POSTGRES_MEDIA_PARTICIPANT_SELECT_SQL_TAIL@),
{
    compose_select(POSTGRES_MEDIA_PARTICIPANT_SELECT_SQL_HEAD, where_clause, POSTGRES_MEDIA_PARTICIPANT_SELECT_SQL_MIDDLE, order_clause, POSTGRES_MEDIA_PARTICIPANT_SELECT_SQL_TAIL)
}

/// Part of the `sqlite media track select` statement.
pub const SQLITE_MEDIA_TRACK_SELECT_SQL_HEAD: &'static str = r##"
        SELECT
            uuid, session_id, participant_id, track_kind, track_source,
            provider_track_id, status, started_at, ended_at, duration_ms,
            muted_duration_ms, end_reason
        FROM rtc_media_track
        "##;

/// Part of the `sqlite media track select` statement.
pub const SQLITE_MEDIA_TRACK_SELECT_SQL_MIDDLE: &'static str = r##"
        "##;

/// Part of the `sqlite media track select` statement.
pub const SQLITE_MEDIA_TRACK_SELECT_SQL_TAIL: &'static str = r##"
        "##;

/// The `sqlite media track select` statement with the given filter and ordering.
pub fn sqlite_media_track_select_sql(where_clause: &str, order_clause: &str) -> (res: String)
    ensures
        res@ == select_text(SQLITE_MEDIA_TRACK_SELECT_SQL_HEAD@, where_clause@, SQLITE_MEDIA_TRACK_SELECT_SQL_MIDDLE@, order_clause@, SQLITE_MEDIA_TRACK_SELECT_SQL_TAIL@),
{
    compose_select(SQLITE_MEDIA_TRACK_SELECT_SQL_HEAD, where_clause, SQLITE_MEDIA_TRACK_SELECT_SQL_MIDDLE, order_clause, SQLITE_MEDIA_TRACK_SELECT_SQL_TAIL)
}

/// Part of the `postgres media track select` statement.
pub const POSTGRES_MEDIA_TRACK_SELECT_SQL_HEAD: &'static str = r##"
        SELECT
            uuid,
            session_id,
            participant_id,
            track_kind,
            track_source,
            provider_track_id,
            status,
            to_char(started_at AT TIME ZONE 'UTC', 'YYYY-MM-DD"T"HH24:MI:SS.MS"Z"') AS started_at,
            to_char(ended_at AT TIME ZONE 'UTC', 'YYYY-MM-DD"T"HH24:MI:SS.MS"Z"') AS ended_at,
            duration_ms,
            muted_duration_ms,
            end_reason
        FROM rtc_media_track
        "##;

/// Part of the `postgres media track select` statement.
pub const POSTGRES_MEDIA_TRACK_SELECT_SQL_MIDDLE: &'static str = r##"
        "##;

/// Part of the `postgres media track select` statement.
pub const POSTGRES_MEDIA_TRACK_SELECT_SQL_TAIL: &'static str = r##"
        "##;

/// The `postgres media track select` statement with the given filter and ordering.
pub fn postgres_media_track_select_sql(where_clause: &str, order_clause: &str) -> (res: String)
    ensures
        res@ == select_text(POSTGRES_MEDIA_TRACK_SELECT_SQL_HEAD@, where_clause@, POSTGRES_MEDIA_TRACK_SELECT_SQL_MIDDLE@, order_clause@, POSTGRES_MEDIA_TRACK_SELECT_SQL_TAIL@),
{
    compose_select(POSTGRES_MEDIA_TRACK_SELECT_SQL_HEAD, where_clause, POSTGRES_MEDIA_TRACK_SELECT_SQL_MIDDLE, order_clause, POSTGRES_MEDIA_TRACK_SELECT_SQL_TAIL)
}

/// Part of the `sqlite media artifact select` statement.
pub const SQLITE_MEDIA_ARTIFACT_SELECT_SQL_HEAD: &'static str = r##"
        SELECT
            uuid, tenant_id, session_id, owner_user_id, artifact_kind,
            artifact_status, media_role, provider_profile_id, provider_artifact_id,
            drive_space_id, drive_space_type, drive_node_id, drive_uri, media_resource_snapshot,
            resource_hash, started_at, ended_at, duration_ms, failure_reason,
            source_provider_webhook_event_id, source_provider_query_job_id
        FROM rtc_media_artifact
        "##;

/// Part of the `sqlite media artifact select` statement.
pub const SQLITE_MEDIA_ARTIFACT_SELECT_SQL_MIDDLE: &'static str = r##"
        "##;

/// Part of the `sqlite media artifact select` statement.
pub const SQLITE_MEDIA_ARTIFACT_SELECT_SQL_TAIL: &'static str = r##"
        "##;

/// The `sqlite media artifact select` statement with the given filter and ordering.
pub fn sqlite_media_artifact_select_sql(where_clause: &str, order_clause: &str) -> (res: String)
    ensures
        res@ == select_text(SQLITE_MEDIA_ARTIFACT_SELECT_SQL_HEAD@, where_clause@, SQLITE_MEDIA_ARTIFACT_SELECT_SQL_MIDDLE@, order_clause@, SQLITE_MEDIA_ARTIFACT_SELECT_SQL_TAIL@),
{
    compose_select(SQLITE_MEDIA_ARTIFACT_SELECT_SQL_HEAD, where_clause, SQLITE_MEDIA_ARTIFACT_SELECT_SQL_MIDDLE, order_clause, SQLITE_MEDIA_ARTIFACT_SELECT_SQL_TAIL)
}

/// Part of the `postgres media artifact select` statement.
pub const POSTGRES_MEDIA_ARTIFACT_SELECT_SQL_HEAD: &'static str = r##"
        SELECT
            uuid,
            tenant_id,
            session_id,
            owner_user_id,
            artifact_kind,
            artifact_status,
            media_role,
            provider_profile_id,
            provider_artifact_id,
            drive_space_id,
            drive_space_type,
            drive_node_id,
            drive_uri,
            media_resource_snapshot,
            resource_hash,
            to_char(started_at AT TIME ZONE 'UTC', 'YYYY-MM-DD"T"HH24:MI:SS.MS"Z"') AS started_at,
            to_char(ended_at AT TIME ZONE 'UTC', 'YYYY-MM-DD"T"HH24:MI:SS.MS"Z"') AS ended_at,
            duration_ms,
            failure_reason,
            source_provider_webhook_event_id,
            source_provider_query_job_id
        FROM rtc_media_artifact
        "##;

/// Part of the `postgres media artifact select` statement.
pub const POSTGRES_MEDIA_ARTIFACT_SELECT_SQL_MIDDLE: &'static str = r##"
        "##;

/// Part of the `postgres media artifact select` statement.
pub const POSTGRES_MEDIA_ARTIFACT_SELECT_SQL_TAIL: &'static str = r##"
        "##;

/// The `postgres media artifact select` statement with the given filter and ordering.
pub fn postgres_media_artifact_select_sql(where_clause: &str, order_clause: &str) -> (res: String)
    ensures
        res@ == select_text(POSTGRES_MEDIA_ARTIFACT_SELECT_SQL_HEAD@, where_clause@, POSTGRES_MEDIA_ARTIFACT_SELECT_SQL_MIDDLE@, order_clause@, POSTGRES_MEDIA_ARTIFACT_SELECT_SQL_TAIL@),
{
    compose_select(POSTGRES_MEDIA_ARTIFACT_SELECT_SQL_HEAD, where_clause, POSTGRES_MEDIA_ARTIFACT_SELECT_SQL_MIDDLE, order_clause, POSTGRES_MEDIA_ARTIFACT_SELECT_SQL_TAIL)
}

/// Part of the `sqlite quality sample select` statement.
pub const SQLITE_QUALITY_SAMPLE_SELECT_SQL_HEAD: &'static str = r##"
        SELECT
            uuid, session_id, participant_id, latency_ms,
            CASE
                WHEN packet_loss_rate IS NULL THEN NULL
                ELSE printf('%.6f', packet_loss_rate)
            END AS packet_loss_rate,
            jitter_ms, bitrate_kbps, sampled_at
        FROM rtc_quality_sample
        "##;

/// Part of the `sqlite quality sample select` statement.
pub const SQLITE_QUALITY_SAMPLE_SELECT_SQL_MIDDLE: &'static str = r##"
        "##;

/// Part of the `sqlite quality sample select` statement.
pub const SQLITE_QUALITY_SAMPLE_SELECT_SQL_TAIL: &'static str = r##"
        "##;

/// The `sqlite quality sample select` statement with the given filter and ordering.
pub fn sqlite_quality_sample_select_sql(where_clause: &str, order_clause: &str) -> (res: String)
    ensures
        res@ == select_text(SQLITE_QUALITY_SAMPLE_SELECT_SQL_HEAD@, where_clause@, SQLITE_QUALITY_SAMPLE_SELECT_SQL_MIDDLE@, order_clause@, SQLITE_QUALITY_SAMPLE_SELECT_SQL_TAIL@),
{
    compose_select(SQLITE_QUALITY_SAMPLE_SELECT_SQL_HEAD, where_clause, SQLITE_QUALITY_SAMPLE_SELECT_SQL_MIDDLE, order_clause, SQLITE_QUALITY_SAMPLE_SELECT_SQL_TAIL)
}

/// Part of the `postgres quality sample select` statement.
pub const POSTGRES_QUALITY_SAMPLE_SELECT_SQL_HEAD: &'static str = r##"
        SELECT
            uuid,
            session_id,
            participant_id,
            latency_ms,
            packet_loss_rate::text AS packet_loss_rate,
            jitter_ms,
            bitrate_kbps,
            to_char(sampled_at AT TIME ZONE 'UTC', 'YYYY-MM-DD"T"HH24:MI:SS.MS"Z"') AS sampled_at
        FROM rtc_quality_sample
        "##;

/// Part of the `postgres quality sample select` statement.
pub const POSTGRES_QUALITY_SAMPLE_SELECT_SQL_MIDDLE: &'static str = r##"
        "##;

/// Part of the `postgres quality sample select` statement.
pub const POSTGRES_QUALITY_SAMPLE_SELECT_SQL_TAIL: &'static str = r##"
        "##;

/// The `postgres quality sample select` statement with the given filter and ordering.
pub fn postgres_quality_sample_select_sql(where_clause: &str, order_clause: &str) -> (res: String)
    ensures
        res@ == select_text(POSTGRES_QUALITY_SAMPLE_SELECT_SQL_HEAD@, where_clause@, POSTGRES_QUALITY_SAMPLE_SELECT_SQL_MIDDLE@, order_clause@, POSTGRES_QUALITY_SAMPLE_SELECT_SQL_TAIL@),
{
    compose_select(POSTGRES_QUALITY_SAMPLE_SELECT_SQL_HEAD, where_clause, POSTGRES_QUALITY_SAMPLE_SELECT_SQL_MIDDLE, order_clause, POSTGRES_QUALITY_SAMPLE_SELECT_SQL_TAIL)
}

/// The text of the `postgres upsert provider account` statement.
pub const POSTGRES_UPSERT_PROVIDER_ACCOUNT_SQL: &'static str = r##"
    INSERT INTO rtc_provider_account (
        id, uuid, tenant_id, organization_id, provider, code, name, status, environment,
        external_tenant_id, cloud_account_id, project_id, resource_group_id,
        last_verified_at, last_verification_error, created_by, updated_by, created_at,
        updated_at, version, deleted_at, deleted_by
    )
    VALUES (
        $1, $2, $3, $4, $5, $6, $7, $8, $9, $10, $11, $12, $13,
        NULLIF($14::text, '')::timestamp, $15, $16, $17, $18::text::timestamp,
        $19::text::timestamp, $20, NULLIF($21::text, '')::timestamp, $22
    )
    ON CONFLICT(tenant_id, organization_id, provider, code) DO UPDATE SET
        uuid = excluded.uuid,
        name = excluded.name,
        status = excluded.status,
        environment = excluded.environment,
        external_tenant_id = excluded.external_tenant_id,
        cloud_account_id = excluded.cloud_account_id,
        project_id = excluded.project_id,
        resource_group_id = excluded.resource_group_id,
        last_verified_at = excluded.last_verified_at,
        last_verification_error = excluded.last_verification_error,
        updated_by = excluded.updated_by,
        updated_at = excluded.updated_at,
        version = rtc_provider_account.version + 1,
        deleted_at = excluded.deleted_at,
        deleted_by = excluded.deleted_by
    "##;

/// The `postgres upsert provider account` statement.
pub fn postgres_upsert_provider_account_sql() -> (res: &'static str)
    ensures
        res@ == POSTGRES_UPSERT_PROVIDER_ACCOUNT_SQL@,
{
    POSTGRES_UPSERT_PROVIDER_ACCOUNT_SQL
}

/// The text of the `postgres upsert provider application` statement.
pub const POSTGRES_UPSERT_PROVIDER_APPLICATION_SQL: &'static str = r##"
    INSERT INTO rtc_provider_application (
        id, uuid, tenant_id, organization_id, provider_account_id, provider, code, name,
        status, environment, region, provider_application_id, provider_application_id_kind,
        access_endpoint, api_endpoint, api_host, api_version, webhook_callback_url,
        config_snapshot, last_verified_at, last_verification_error, created_by, updated_by,
        created_at, updated_at, version, deleted_at, deleted_by
    )
    VALUES (
        $1, $2, $3, $4, $5, $6, $7, $8, $9, $10, $11, $12, $13, $14, $15,
        $16, $17, $18, $19, NULLIF($20::text, '')::timestamp, $21, $22, $23,
        $24::text::timestamp, $25::text::timestamp, $26, NULLIF($27::text, '')::timestamp, $28
    )
    ON CONFLICT(provider_account_id, code) DO UPDATE SET
        uuid = excluded.uuid,
        provider = excluded.provider,
        name = excluded.name,
        status = excluded.status,
        environment = excluded.environment,
        region = excluded.region,
        provider_application_id = excluded.provider_application_id,
        provider_application_id_kind = excluded.provider_application_id_kind,
        access_endpoint = excluded.access_endpoint,
        api_endpoint = excluded.api_endpoint,
        api_host = excluded.api_host,
        api_version = excluded.api_version,
        webhook_callback_url = excluded.webhook_callback_url,
        config_snapshot = excluded.config_snapshot,
        last_verified_at = excluded.last_verified_at,
        last_verification_error = excluded.last_verification_error,
        updated_by = excluded.updated_by,
        updated_at = excluded.updated_at,
        version = rtc_provider_application.version + 1,
        deleted_at = excluded.deleted_at,
        deleted_by = excluded.deleted_by
    "##;

/// The `postgres upsert provider application` statement.
pub fn postgres_upsert_provider_application_sql() -> (res: &'static str)
    ensures
        res@ == POSTGRES_UPSERT_PROVIDER_APPLICATION_SQL@,
{
    POSTGRES_UPSERT_PROVIDER_APPLICATION_SQL
}

/// The text of the `postgres upsert provider credential` statement.
pub const POSTGRES_UPSERT_PROVIDER_CREDENTIAL_SQL: &'static str = r##"
    INSERT INTO rtc_provider_credential (
        id, uuid, tenant_id, organization_id, provider_account_id, provider_application_id,
        provider, credential_role, credential_label, credential_ref, credential_fingerprint,
        secret_version, status, valid_from, expires_at, rotation_due_at, rotated_at,
        revoked_at, last_verified_at, last_used_at, created_by, updated_by, created_at,
        updated_at, version
    )
    VALUES (
        $1, $2, $3, $4, $5, $6, $7, $8, $9, $10, $11, $12, $13,
        NULLIF($14::text, '')::timestamp,
        NULLIF($15::text, '')::timestamp,
        NULLIF($16::text, '')::timestamp,
        NULLIF($17::text, '')::timestamp,
        NULLIF($18::text, '')::timestamp,
        NULLIF($19::text, '')::timestamp,
        NULLIF($20::text, '')::timestamp,
        $21, $22, $23::text::timestamp, $24::text::timestamp, $25
    )
    ON CONFLICT(provider_application_id, credential_role, credential_label) DO UPDATE SET
        uuid = excluded.uuid,
        credential_ref = excluded.credential_ref,
        credential_fingerprint = excluded.credential_fingerprint,
        secret_version = excluded.secret_version,
        status = excluded.status,
        valid_from = excluded.valid_from,
        expires_at = excluded.expires_at,
        rotation_due_at = excluded.rotation_due_at,
        rotated_at = excluded.rotated_at,
        revoked_at = excluded.revoked_at,
        last_verified_at = excluded.last_verified_at,
        last_used_at = excluded.last_used_at,
        updated_by = excluded.updated_by,
        updated_at = excluded.updated_at,
        version = rtc_provider_credential.version + 1
    "##;

/// The `postgres upsert provider credential` statement.
pub fn postgres_upsert_provider_credential_sql() -> (res: &'static str)
    ensures
        res@ == POSTGRES_UPSERT_PROVIDER_CREDENTIAL_SQL@,
{
    POSTGRES_UPSERT_PROVIDER_CREDENTIAL_SQL
}

/// Part of the `provider account select columns` statement.
pub const PROVIDER_ACCOUNT_SELECT_COLUMNS_SQL_HEAD: &'static str = r##"
        SELECT
            uuid,
            tenant_id,
            organization_id,
            provider,
            code,
            name,
            status,
            environment,
            external_tenant_id,
            cloud_account_id,
            project_id,
            resource_group_id,
            last_verified_at,
            last_verification_error,
            created_by,
            updated_by,
            created_at,
            updated_at,
            version,
            deleted_at,
            deleted_by
        FROM rtc_provider_account
        "##;

/// Part of the `provider account select columns` statement.
pub const PROVIDER_ACCOUNT_SELECT_COLUMNS_SQL_MIDDLE: &'static str = r##"
        "##;

/// Part of the `provider account select columns` statement.
pub const PROVIDER_ACCOUNT_SELECT_COLUMNS_SQL_TAIL: &'static str = r##"
        "##;

/// The `provider account select columns` statement with the given filter and ordering.
pub fn provider_account_select_columns_sql(where_clause: &str, order_clause: &str) -> (res: String)
    ensures
        res@ == select_text(PROVIDER_ACCOUNT_SELECT_COLUMNS_SQL_HEAD@, where_clause@, PROVIDER_ACCOUNT_SELECT_COLUMNS_SQL_MIDDLE@, order_clause@, PROVIDER_ACCOUNT_SELECT_COLUMNS_SQL_TAIL@),
{
    compose_select(PROVIDER_ACCOUNT_SELECT_COLUMNS_SQL_HEAD, where_clause, PROVIDER_ACCOUNT_SELECT_COLUMNS_SQL_MIDDLE, order_clause, PROVIDER_ACCOUNT_SELECT_COLUMNS_SQL_TAIL)
}

/// Part of the `postgres provider account select columns` statement.
pub const POSTGRES_PROVIDER_ACCOUNT_SELECT_COLUMNS_SQL_HEAD: &'static str = r##"
        SELECT
            uuid,
            tenant_id,
            organization_id,
            provider,
            code,
            name,
            status,
            environment,
            external_tenant_id,
            cloud_account_id,
            project_id,
            resource_group_id,
            to_char(last_verified_at AT TIME ZONE 'UTC', 'YYYY-MM-DD"T"HH24:MI:SS.MS"Z"') AS last_verified_at,
            last_verification_error,
            created_by,
            updated_by,
            to_char(created_at AT TIME ZONE 'UTC', 'YYYY-MM-DD"T"HH24:MI:SS.MS"Z"') AS created_at,
            to_char(updated_at AT TIME ZONE 'UTC', 'YYYY-MM-DD"T"HH24:MI:SS.MS"Z"') AS updated_at,
            version,
            to_char(deleted_at AT TIME ZONE 'UTC', 'YYYY-MM-DD"T"HH24:MI:SS.MS"Z"') AS deleted_at,
            deleted_by
        FROM rtc_provider_account
        "##;

/// Part of the `postgres provider account select columns` statement.
pub const POSTGRES_PROVIDER_ACCOUNT_SELECT_COLUMNS_SQL_MIDDLE: &'static str = r##"
        "##;

/// Part of the `postgres provider account select columns` statement.
pub const POSTGRES_PROVIDER_ACCOUNT_SELECT_COLUMNS_SQL_TAIL: &'static str = r##"
        "##;

/// The `postgres provider account select columns` statement with the given filter and ordering.
pub fn postgres_provider_account_select_columns_sql(where_clause: &str, order_clause: &str) -> (res: String)
    ensures
        res@ == select_text(POSTGRES_PROVIDER_ACCOUNT_SELECT_COLUMNS_SQL_HEAD@, where_clause@, POSTGRES_PROVIDER_ACCOUNT_SELECT_COLUMNS_SQL_MIDDLE@, order_clause@, POSTGRES_PROVIDER_ACCOUNT_SELECT_COLUMNS_SQL_TAIL@),
{
    compose_select(POSTGRES_PROVIDER_ACCOUNT_SELECT_COLUMNS_SQL_HEAD, where_clause, POSTGRES_PROVIDER_ACCOUNT_SELECT_COLUMNS_SQL_MIDDLE, order_clause, POSTGRES_PROVIDER_ACCOUNT_SELECT_COLUMNS_SQL_TAIL)
}

/// Part of the `provider application select columns` statement.
pub const PROVIDER_APPLICATION_SELECT_COLUMNS_SQL_HEAD: &'static str = r##"
        SELECT
            uuid,
            tenant_id,
            organization_id,
            provider_account_id,
            provider,
            code,
            name,
            status,
            environment,
            region,
            provider_application_id,
            provider_application_id_kind,
            access_endpoint,
            api_endpoint,
            api_host,
            api_version,
            webhook_callback_url,
            config_snapshot,
            last_verified_at,
            last_verification_error,
            created_by,
            updated_by,
            created_at,
            updated_at,
            version,
            deleted_at,
            deleted_by
        FROM rtc_provider_application
        "##;

/// Part of the `provider application select columns` statement.
pub const PROVIDER_APPLICATION_SELECT_COLUMNS_SQL_MIDDLE: &'static str = r##"
        "##;

/// Part of the `provider application select columns` statement.
pub const PROVIDER_APPLICATION_SELECT_COLUMNS_SQL_TAIL: &'static str = r##"
        "##;

/// The `provider application select columns` statement with the given filter and ordering.
pub fn provider_application_select_columns_sql(where_clause: &str, order_clause: &str) -> (res: String)
    ensures
        res@ == select_text(PROVIDER_APPLICATION_SELECT_COLUMNS_SQL_HEAD@, where_clause@, PROVIDER_APPLICATION_SELECT_COLUMNS_SQL_MIDDLE@, order_clause@, PROVIDER_APPLICATION_SELECT_COLUMNS_SQL_TAIL@),
{
    compose_select(PROVIDER_APPLICATION_SELECT_COLUMNS_SQL_HEAD, where_clause, PROVIDER_APPLICATION_SELECT_COLUMNS_SQL_MIDDLE, order_clause, PROVIDER_APPLICATION_SELECT_COLUMNS_SQL_TAIL)
}

/// Part of the `postgres provider application select columns` statement.
pub const POSTGRES_PROVIDER_APPLICATION_SELECT_COLUMNS_SQL_HEAD: &'static str = r##"
        SELECT
            uuid,
            tenant_id,
            organization_id,
            provider_account_id,
            provider,
            code,
            name,
            status,
            environment,
            region,
            provider_application_id,
            provider_application_id_kind,
            access_endpoint,
            api_endpoint,
            api_host,
            api_version,
            webhook_callback_url,
            config_snapshot,
            to_char(last_verified_at AT TIME ZONE 'UTC', 'YYYY-MM-DD"T"HH24:MI:SS.MS"Z"') AS last_verified_at,
            last_verification_error,
            created_by,
            updated_by,
            to_char(created_at AT TIME ZONE 'UTC', 'YYYY-MM-DD"T"HH24:MI:SS.MS"Z"') AS created_at,
            to_char(updated_at AT TIME ZONE 'UTC', 'YYYY-MM-DD"T"HH24:MI:SS.MS"Z"') AS updated_at,
            version,
            to_char(deleted_at AT TIME ZONE 'UTC', 'YYYY-MM-DD"T"HH24:MI:SS.MS"Z"') AS deleted_at,
            deleted_by
        FROM rtc_provider_application
        "##;

/// Part of the `postgres provider application select columns` statement.
pub const POSTGRES_PROVIDER_APPLICATION_SELECT_COLUMNS_SQL_MIDDLE: &'static str = r##"
        "##;

/// Part of the `postgres provider application select columns` statement.
pub const POSTGRES_PROVIDER_APPLICATION_SELECT_COLUMNS_SQL_TAIL: &'static str = r##"
        "##;

/// The `postgres provider application select columns` statement with the given filter and ordering.
pub fn postgres_provider_application_select_columns_sql(where_clause: &str, order_clause: &str) -> (res: String)
    ensures
        res@ == select_text(POSTGRES_PROVIDER_APPLICATION_SELECT_COLUMNS_SQL_HEAD@, where_clause@, POSTGRES_PROVIDER_APPLICATION_SELECT_COLUMNS_SQL_MIDDLE@, order_clause@, POSTGRES_PROVIDER_APPLICATION_SELECT_COLUMNS_SQL_TAIL@),
{
    compose_select(POSTGRES_PROVIDER_APPLICATION_SELECT_COLUMNS_SQL_HEAD, where_clause, POSTGRES_PROVIDER_APPLICATION_SELECT_COLUMNS_SQL_MIDDLE, order_clause, POSTGRES_PROVIDER_APPLICATION_SELECT_COLUMNS_SQL_TAIL)
}

/// Part of the `provider credential select columns` statement.
pub const PROVIDER_CREDENTIAL_SELECT_COLUMNS_SQL_HEAD: &'static str = r##"
        SELECT
            uuid,
            tenant_id,
            organization_id,
            provider_account_id,
            provider_application_id,
            provider,
            credential_role,
            credential_label,
            credential_ref,
            credential_fingerprint,
            secret_version,
            status,
            valid_from,
            expires_at,
            rotation_due_at,
            rotated_at,
            revoked_at,
            last_verified_at,
            last_used_at,
            created_by,
            updated_by,
            created_at,
            updated_at,
            version
        FROM rtc_provider_credential
        "##;

/// Part of the `provider credential select columns` statement.
pub const PROVIDER_CREDENTIAL_SELECT_COLUMNS_SQL_MIDDLE: &'static str = r##"
        "##;

/// Part of the `provider credential select columns` statement.
pub const PROVIDER_CREDENTIAL_SELECT_COLUMNS_SQL_TAIL: &'static str = r##"
        "##;

/// The `provider credential select columns` statement with the given filter and ordering.
pub fn provider_credential_select_columns_sql(where_clause: &str, order_clause: &str) -> (res: String)
    ensures
        res@ == select_text(PROVIDER_CREDENTIAL_SELECT_COLUMNS_SQL_HEAD@, where_clause@, PROVIDER_CREDENTIAL_SELECT_COLUMNS_SQL_MIDDLE@, order_clause@, PROVIDER_CREDENTIAL_SELECT_COLUMNS_SQL_TAIL@),
{
    compose_select(PROVIDER_CREDENTIAL_SELECT_COLUMNS_SQL_HEAD, where_clause, PROVIDER_CREDENTIAL_SELECT_COLUMNS_SQL_MIDDLE, order_clause, PROVIDER_CREDENTIAL_SELECT_COLUMNS_SQL_TAIL)
}

/// Part of the `postgres provider credential select columns` statement.
pub const POSTGRES_PROVIDER_CREDENTIAL_SELECT_COLUMNS_SQL_HEAD: &'static str = r##"
        SELECT
            uuid,
            tenant_id,
            organization_id,
            provider_account_id,
            provider_application_id,
            provider,
            credential_role,
            credential_label,
            credential_ref,
            credential_fingerprint,
            secret_version,
            status,
            to_char(valid_from AT TIME ZONE 'UTC', 'YYYY-MM-DD"T"HH24:MI:SS.MS"Z"') AS valid_from,
            to_char(expires_at AT TIME ZONE 'UTC', 'YYYY-MM-DD"T"HH24:MI:SS.MS"Z"') AS expires_at,
            to_char(rotation_due_at AT TIME ZONE 'UTC', 'YYYY-MM-DD"T"HH24:MI:SS.MS"Z"') AS rotation_due_at,
            to_char(rotated_at AT TIME ZONE 'UTC', 'YYYY-MM-DD"T"HH24:MI:SS.MS"Z"') AS rotated_at,
            to_char(revoked_at AT TIME ZONE 'UTC', 'YYYY-MM-DD"T"HH24:MI:SS.MS"Z"') AS revoked_at,
            to_char(last_verified_at AT TIME ZONE 'UTC', 'YYYY-MM-DD"T"HH24:MI:SS.MS"Z"') AS last_verified_at,
            to_char(last_used_at AT TIME ZONE 'UTC', 'YYYY-MM-DD"T"HH24:MI:SS.MS"Z"') AS last_used_at,
            created_by,
            updated_by,
            to_char(created_at AT TIME ZONE 'UTC', 'YYYY-MM-DD"T"HH24:MI:SS.MS"Z"') AS created_at,
            to_char(updated_at AT TIME ZONE 'UTC', 'YYYY-MM-DD"T"HH24:MI:SS.MS"Z"') AS updated_at,
            version
        FROM rtc_provider_credential
        "##;

/// Part of the `postgres provider credential select columns` statement.
pub const POSTGRES_PROVIDER_CREDENTIAL_SELECT_COLUMNS_SQL_MIDDLE: &'static str = r##"
        "##;

/// Part of the `postgres provider credential select columns` statement.
pub const POSTGRES_PROVIDER_CREDENTIAL_SELECT_COLUMNS_SQL_TAIL: &'static str = r##"
        "##;

/// The `postgres provider credential select columns` statement with the given filter and ordering.
pub fn postgres_provider_credential_select_columns_sql(where_clause: &str, order_clause: &str) -> (res: String)
    ensures
        res@ == select_text(POSTGRES_PROVIDER_CREDENTIAL_SELECT_COLUMNS_SQL_HEAD@, where_clause@, POSTGRES_PROVIDER_CREDENTIAL_SELECT_COLUMNS_SQL_MIDDLE@, order_clause@, POSTGRES_PROVIDER_CREDENTIAL_SELECT_COLUMNS_SQL_TAIL@),
{
    compose_select(POSTGRES_PROVIDER_CREDENTIAL_SELECT_COLUMNS_SQL_HEAD, where_clause, POSTGRES_PROVIDER_CREDENTIAL_SELECT_COLUMNS_SQL_MIDDLE, order_clause, POSTGRES_PROVIDER_CREDENTIAL_SELECT_COLUMNS_SQL_TAIL)
}

/// The text of the `sqlite insert webhook event` statement.
pub const SQLITE_INSERT_WEBHOOK_EVENT_SQL: &'static str = r##"
    INSERT INTO rtc_provider_webhook_event (
        id,
        uuid,
        tenant_id,
        organization_id,
        provider,
        provider_profile_id,
        provider_profile_dedupe_key,
        external_event_id,
        external_event_dedupe_key,
        event_type,
        event_kind,
        room_id,
        session_id,
        participant_id,
        recording_id,
        payload_hash,
        raw_payload,
        normalized_event,
        signature_header,
        received_at,
        processed_at,
        status,
        created_at,
        updated_at,
        version
    )
    VALUES (?, ?, ?, ?, ?, ?, ?, ?, ?, ?, ?, ?, ?, ?, ?, ?, ?, ?, ?, ?, ?, ?, ?, ?, 0)
    ON CONFLICT(
        tenant_id,
        organization_id,
        provider,
        provider_profile_dedupe_key,
        external_event_dedupe_key,
        payload_hash
    ) DO UPDATE SET
        updated_at = excluded.updated_at,
        status = rtc_provider_webhook_event.status,
        processed_at = rtc_provider_webhook_event.processed_at
    "##;

/// The `sqlite insert webhook event` statement.
pub fn sqlite_insert_webhook_event_sql() -> (res: &'static str)
    ensures
        res@ == SQLITE_INSERT_WEBHOOK_EVENT_SQL@,
{
    SQLITE_INSERT_WEBHOOK_EVENT_SQL
}

/// The text of the `postgres insert webhook event` statement.
pub const POSTGRES_INSERT_WEBHOOK_EVENT_SQL: &'static str = r##"
    INSERT INTO rtc_provider_webhook_event (
        id,
        uuid,
        tenant_id,
        organization_id,
        provider,
        provider_profile_id,
        provider_profile_dedupe_key,
        external_event_id,
        external_event_dedupe_key,
        event_type,
        event_kind,
        room_id,
        session_id,
        participant_id,
        recording_id,
        payload_hash,
        raw_payload,
        normalized_event,
        signature_header,
        received_at,
        processed_at,
        status,
        created_at,
        updated_at,
        version
    )
    VALUES (
        $1,
        $2,
        $3,
        $4,
        $5,
        $6,
        $7,
        $8,
        $9,
        $10,
        $11,
        $12,
        $13,
        $14,
        $15,
        $16,
        $17,
        $18,
        $19,
        $20::text::timestamp,
        NULLIF($21::text, '')::timestamp,
        $22,
        $23::text::timestamp,
        $24::text::timestamp,
        0
    )
    ON CONFLICT(
        tenant_id,
        organization_id,
        provider,
        provider_profile_dedupe_key,
        external_event_dedupe_key,
        payload_hash
    ) DO UPDATE SET
        updated_at = excluded.updated_at,
        status = rtc_provider_webhook_event.status,
        processed_at = rtc_provider_webhook_event.processed_at
    "##;

/// The `postgres insert webhook event` statement.
pub fn postgres_insert_webhook_event_sql() -> (res: &'static str)
    ensures
        res@ == POSTGRES_INSERT_WEBHOOK_EVENT_SQL@,
{
    POSTGRES_INSERT_WEBHOOK_EVENT_SQL
}

/// The text of the `sqlite upsert provider query job` statement.
pub const SQLITE_UPSERT_PROVIDER_QUERY_JOB_SQL: &'static str = r##"
    INSERT INTO rtc_provider_query_job (
        id,
        uuid,
        tenant_id,
        organization_id,
        provider,
        provider_profile_id,
        query_kind,
        target_kind,
        target_id,
        room_id,
        session_id,
        provider_session_id,
        provider_request_id,
        status,
        requested_at,
        completed_at,
        result_snapshot,
        created_at,
        updated_at,
        version
    )
    VALUES (?, ?, ?, ?, ?, ?, ?, ?, ?, ?, ?, ?, ?, ?, ?, ?, ?, ?, ?, 0)
    ON CONFLICT(uuid) DO UPDATE SET
        provider_profile_id = excluded.provider_profile_id,
        query_kind = excluded.query_kind,
        target_kind = excluded.target_kind,
        target_id = excluded.target_id,
        room_id = excluded.room_id,
        session_id = excluded.session_id,
        provider_session_id = excluded.provider_session_id,
        provider_request_id = excluded.provider_request_id,
        status = excluded.status,
        completed_at = excluded.completed_at,
        result_snapshot = excluded.result_snapshot,
        updated_at = excluded.updated_at,
        version = rtc_provider_query_job.version + 1
    "##;

/// The `sqlite upsert provider query job` statement.
pub fn sqlite_upsert_provider_query_job_sql() -> (res: &'static str)
    ensures
        res@ == SQLITE_UPSERT_PROVIDER_QUERY_JOB_SQL@,
{
    SQLITE_UPSERT_PROVIDER_QUERY_JOB_SQL
}

/// The text of the `postgres upsert provider query job` statement.
pub const POSTGRES_UPSERT_PROVIDER_QUERY_JOB_SQL: &'static str = r##"
    INSERT INTO rtc_provider_query_job (
        id,
        uuid,
        tenant_id,
        organization_id,
        provider,
        provider_profile_id,
        query_kind,
        target_kind,
        target_id,
        room_id,
        session_id,
        provider_session_id,
        provider_request_id,
        status,
        requested_at,
        completed_at,
        result_snapshot,
        created_at,
        updated_at,
        version
    )
    VALUES (
        $1,
        $2,
        $3,
        $4,
        $5,
        $6,
        $7,
        $8,
        $9,
        $10,
        $11,
        $12,
        $13,
        $14,
        $15::text::timestamp,
        $16::text::timestamp,
        $17,
        $18::text::timestamp,
        $19::text::timestamp,
        0
    )
    ON CONFLICT(uuid) DO UPDATE SET
        provider_profile_id = excluded.provider_profile_id,
        query_kind = excluded.query_kind,
        target_kind = excluded.target_kind,
        target_id = excluded.target_id,
        room_id = excluded.room_id,
        session_id = excluded.session_id,
        provider_session_id = excluded.provider_session_id,
        provider_request_id = excluded.provider_request_id,
        status = excluded.status,
        completed_at = excluded.completed_at,
        result_snapshot = excluded.result_snapshot,
        updated_at = excluded.updated_at,
        version = rtc_provider_query_job.version + 1
    "##;

/// The `postgres upsert provider query job` statement.
pub fn postgres_upsert_provider_query_job_sql() -> (res: &'static str)
    ensures
        res@ == POSTGRES_UPSERT_PROVIDER_QUERY_JOB_SQL@,
{
    POSTGRES_UPSERT_PROVIDER_QUERY_JOB_SQL
}

/// The text of the `sqlite insert provider query snapshot` statement.
pub const SQLITE_INSERT_PROVIDER_QUERY_SNAPSHOT_SQL: &'static str = r##"
    INSERT INTO rtc_provider_query_snapshot (
        id,
        uuid,
        tenant_id,
        organization_id,
        provider_query_job_id,
        provider,
        query_kind,
        target_kind,
        target_id,
        provider_session_id,
        snapshot_kind,
        snapshot_payload,
        captured_at,
        created_at
    )
    VALUES (?, ?, ?, ?, ?, ?, ?, ?, ?, ?, ?, ?, ?, ?)
    "##;

/// The `sqlite insert provider query snapshot` statement.
pub fn sqlite_insert_provider_query_snapshot_sql() -> (res: &'static str)
    ensures
        res@ == SQLITE_INSERT_PROVIDER_QUERY_SNAPSHOT_SQL@,
{
    SQLITE_INSERT_PROVIDER_QUERY_SNAPSHOT_SQL
}

/// The text of the `postgres insert provider query snapshot` statement.
pub const POSTGRES_INSERT_PROVIDER_QUERY_SNAPSHOT_SQL: &'static str = r##"
    INSERT INTO rtc_provider_query_snapshot (
        id,
        uuid,
        tenant_id,
        organization_id,
        provider_query_job_id,
        provider,
        query_kind,
        target_kind,
        target_id,
        provider_session_id,
        snapshot_kind,
        snapshot_payload,
        captured_at,
        created_at
    )
    VALUES (
        $1,
        $2,
        $3,
        $4,
        $5,
        $6,
        $7,
        $8,
        $9,
        $10,
        $11,
        $12,
        $13::text::timestamp,
        $14::text::timestamp
    )
    "##;

/// The `postgres insert provider query snapshot` statement.
pub fn postgres_insert_provider_query_snapshot_sql() -> (res: &'static str)
    ensures
        res@ == POSTGRES_INSERT_PROVIDER_QUERY_SNAPSHOT_SQL@,
{
    POSTGRES_INSERT_PROVIDER_QUERY_SNAPSHOT_SQL
}

/// Part of the `webhook event select columns` statement.
pub const WEBHOOK_EVENT_SELECT_COLUMNS_SQL_HEAD: &'static str = r##"
        SELECT
            uuid,
            tenant_id,
            organization_id,
            provider,
            provider_profile_id,
            external_event_id,
            event_type,
            event_kind,
            room_id,
            session_id,
            participant_id,
            recording_id,
            payload_hash,
            raw_payload,
            normalized_event,
            signature_header,
            received_at,
            processed_at,
            status
        FROM rtc_provider_webhook_event
        "##;

/// Part of the `webhook event select columns` statement.
pub const WEBHOOK_EVENT_SELECT_COLUMNS_SQL_MIDDLE: &'static str = r##"
        "##;

/// Part of the `webhook event select columns` statement.
pub const WEBHOOK_EVENT_SELECT_COLUMNS_SQL_TAIL: &'static str = r##"
        "##;

/// The `webhook event select columns` statement with the given filter and ordering.
pub fn webhook_event_select_columns_sql(where_clause: &str, order_clause: &str) -> (res: String)
    ensures
        res@ == select_text(WEBHOOK_EVENT_SELECT_COLUMNS_SQL_HEAD@, where_clause@, WEBHOOK_EVENT_SELECT_COLUMNS_SQL_MIDDLE@, order_clause@, WEBHOOK_EVENT_SELECT_COLUMNS_SQL_TAIL@),
{
    compose_select(WEBHOOK_EVENT_SELECT_COLUMNS_SQL_HEAD, where_clause, WEBHOOK_EVENT_SELECT_COLUMNS_SQL_MIDDLE, order_clause, WEBHOOK_EVENT_SELECT_COLUMNS_SQL_TAIL)
}

/// Part of the `postgres webhook event select columns` statement.
pub const POSTGRES_WEBHOOK_EVENT_SELECT_COLUMNS_SQL_HEAD: &'static str = r##"
        SELECT
            uuid,
            tenant_id,
            organization_id,
            provider,
            provider_profile_id,
            external_event_id,
            event_type,
            event_kind,
            room_id,
            session_id,
            participant_id,
            recording_id,
            payload_hash,
            raw_payload,
            normalized_event,
            signature_header,
            to_char(received_at AT TIME ZONE 'UTC', 'YYYY-MM-DD"T"HH24:MI:SS.MS"Z"') AS received_at,
            to_char(processed_at AT TIME ZONE 'UTC', 'YYYY-MM-DD"T"HH24:MI:SS.MS"Z"') AS processed_at,
            status
        FROM rtc_provider_webhook_event
        "##;

/// Part of the `postgres webhook event select columns` statement.
pub const POSTGRES_WEBHOOK_EVENT_SELECT_COLUMNS_SQL_MIDDLE: &'static str = r##"
        "##;

/// Part of the `postgres webhook event select columns` statement.
pub const POSTGRES_WEBHOOK_EVENT_SELECT_COLUMNS_SQL_TAIL: &'static str = r##"
        "##;

/// The `postgres webhook event select columns` statement with the given filter and ordering.
pub fn postgres_webhook_event_select_columns_sql(where_clause: &str, order_clause: &str) -> (res: String)
    ensures
        res@ == select_text(POSTGRES_WEBHOOK_EVENT_SELECT_COLUMNS_SQL_HEAD@, where_clause@, POSTGRES_WEBHOOK_EVENT_SELECT_COLUMNS_SQL_MIDDLE@, order_clause@, POSTGRES_WEBHOOK_EVENT_SELECT_COLUMNS_SQL_TAIL@),
{
    compose_select(POSTGRES_WEBHOOK_EVENT_SELECT_COLUMNS_SQL_HEAD, where_clause, POSTGRES_WEBHOOK_EVENT_SELECT_COLUMNS_SQL_MIDDLE, order_clause, POSTGRES_WEBHOOK_EVENT_SELECT_COLUMNS_SQL_TAIL)
}

/// Part of the `provider query job select columns` statement.
pub const PROVIDER_QUERY_JOB_SELECT_COLUMNS_SQL_HEAD: &'static str = r##"
        SELECT
            uuid,
            tenant_id,
            organization_id,
            provider,
            provider_profile_id,
            query_kind,
            target_kind,
            target_id,
            room_id,
            session_id,
            provider_session_id,
            provider_request_id,
            status,
            requested_at,
            completed_at,
            result_snapshot
        FROM rtc_provider_query_job
        "##;

/// Part of the `provider query job select columns` statement.
pub const PROVIDER_QUERY_JOB_SELECT_COLUMNS_SQL_MIDDLE: &'static str = r##"
        "##;

/// Part of the `provider query job select columns` statement.
pub const PROVIDER_QUERY_JOB_SELECT_COLUMNS_SQL_TAIL: &'static str = r##"
        "##;

/// The `provider query job select columns` statement with the given filter and ordering.
pub fn provider_query_job_select_columns_sql(where_clause: &str, order_clause: &str) -> (res: String)
    ensures
        res@ == select_text(PROVIDER_QUERY_JOB_SELECT_COLUMNS_SQL_HEAD@, where_clause@, PROVIDER_QUERY_JOB_SELECT_COLUMNS_SQL_MIDDLE@, order_clause@, PROVIDER_QUERY_JOB_SELECT_COLUMNS_SQL_TAIL@),
{
    compose_select(PROVIDER_QUERY_JOB_SELECT_COLUMNS_SQL_HEAD, where_clause, PROVIDER_QUERY_JOB_SELECT_COLUMNS_SQL_MIDDLE, order_clause, PROVIDER_QUERY_JOB_SELECT_COLUMNS_SQL_TAIL)
}

/// Part of the `postgres provider query job select columns` statement.
pub const POSTGRES_PROVIDER_QUERY_JOB_SELECT_COLUMNS_SQL_HEAD: &'static str = r##"
        SELECT
            uuid,
            tenant_id,
            organization_id,
            provider,
            provider_profile_id,
            query_kind,
            target_kind,
            target_id,
            room_id,
            session_id,
            provider_session_id,
            provider_request_id,
            status,
            to_char(requested_at AT TIME ZONE 'UTC', 'YYYY-MM-DD"T"HH24:MI:SS.MS"Z"') AS requested_at,
            to_char(completed_at AT TIME ZONE 'UTC', 'YYYY-MM-DD"T"HH24:MI:SS.MS"Z"') AS completed_at,
            result_snapshot
        FROM rtc_provider_query_job
        "##;

/// Part of the `postgres provider query job select columns` statement.
pub const POSTGRES_PROVIDER_QUERY_JOB_SELECT_COLUMNS_SQL_MIDDLE: &'static str = r##"
        "##;

/// Part of the `postgres provider query job select columns` statement.
pub const POSTGRES_PROVIDER_QUERY_JOB_SELECT_COLUMNS_SQL_TAIL: &'static str = r##"
        "##;

/// The `postgres provider query job select columns` statement with the given filter and ordering.
pub fn postgres_provider_query_job_select_columns_sql(where_clause: &str, order_clause: &str) -> (res: String)
    ensures
        res@ == select_text(POSTGRES_PROVIDER_QUERY_JOB_SELECT_COLUMNS_SQL_HEAD@, where_clause@, POSTGRES_PROVIDER_QUERY_JOB_SELECT_COLUMNS_SQL_MIDDLE@, order_clause@, POSTGRES_PROVIDER_QUERY_JOB_SELECT_COLUMNS_SQL_TAIL@),
{
    compose_select(POSTGRES_PROVIDER_QUERY_JOB_SELECT_COLUMNS_SQL_HEAD, where_clause, POSTGRES_PROVIDER_QUERY_JOB_SELECT_COLUMNS_SQL_MIDDLE, order_clause, POSTGRES_PROVIDER_QUERY_JOB_SELECT_COLUMNS_SQL_TAIL)
}

/// Part of the `provider query snapshot select columns` statement.
pub const PROVIDER_QUERY_SNAPSHOT_SELECT_COLUMNS_SQL_HEAD: &'static str = r##"
        SELECT
            uuid,
            tenant_id,
            organization_id,
            provider_query_job_id,
            provider,
            query_kind,
            target_kind,
            target_id,
            provider_session_id,
            snapshot_kind,
            snapshot_payload,
            captured_at
        FROM rtc_provider_query_snapshot
        "##;

/// Part of the `provider query snapshot select columns` statement.
pub const PROVIDER_QUERY_SNAPSHOT_SELECT_COLUMNS_SQL_MIDDLE: &'static str = r##"
        "##;

/// Part of the `provider query snapshot select columns` statement.
pub const PROVIDER_QUERY_SNAPSHOT_SELECT_COLUMNS_SQL_TAIL: &'static str = r##"
        "##;

/// The `provider query snapshot select columns` statement with the given filter and ordering.
pub fn provider_query_snapshot_select_columns_sql(where_clause: &str, order_clause: &str) -> (res: String)
    ensures
        res@ == select_text(PROVIDER_QUERY_SNAPSHOT_SELECT_COLUMNS_SQL_HEAD@, where_clause@, PROVIDER_QUERY_SNAPSHOT_SELECT_COLUMNS_SQL_MIDDLE@, order_clause@, PROVIDER_QUERY_SNAPSHOT_SELECT_COLUMNS_SQL_TAIL@),
{
    compose_select(PROVIDER_QUERY_SNAPSHOT_SELECT_COLUMNS_SQL_HEAD, where_clause, PROVIDER_QUERY_SNAPSHOT_SELECT_COLUMNS_SQL_MIDDLE, order_clause, PROVIDER_QUERY_SNAPSHOT_SELECT_COLUMNS_SQL_TAIL)
}

/// Part of the `postgres provider query snapshot select columns` statement.
pub const POSTGRES_PROVIDER_QUERY_SNAPSHOT_SELECT_COLUMNS_SQL_HEAD: &'static str = r##"
        SELECT
            uuid,
            tenant_id,
            organization_id,
            provider_query_job_id,
            provider,
            query_kind,
            target_kind,
            target_id,
            provider_session_id,
            snapshot_kind,
            snapshot_payload,
            to_char(captured_at AT TIME ZONE 'UTC', 'YYYY-MM-DD"T"HH24:MI:SS.MS"Z"') AS captured_at
        FROM rtc_provider_query_snapshot
        "##;

/// Part of the `postgres provider query snapshot select columns` statement.
pub const POSTGRES_PROVIDER_QUERY_SNAPSHOT_SELECT_COLUMNS_SQL_MIDDLE: &'static str = r##"
        "##;

/// Part of the `postgres provider query snapshot select columns` statement.
pub const POSTGRES_PROVIDER_QUERY_SNAPSHOT_SELECT_COLUMNS_SQL_TAIL: &'static str = r##"
        "##;

/// The `postgres provider query snapshot select columns` statement with the given filter and ordering.
pub fn postgres_provider_query_snapshot_select_columns_sql(where_clause: &str, order_clause: &str) -> (res: String)
    ensures
        res@ == select_text(POSTGRES_PROVIDER_QUERY_SNAPSHOT_SELECT_COLUMNS_SQL_HEAD@, where_clause@, POSTGRES_PROVIDER_QUERY_SNAPSHOT_SELECT_COLUMNS_SQL_MIDDLE@, order_clause@, POSTGRES_PROVIDER_QUERY_SNAPSHOT_SELECT_COLUMNS_SQL_TAIL@),
{
    compose_select(POSTGRES_PROVIDER_QUERY_SNAPSHOT_SELECT_COLUMNS_SQL_HEAD, where_clause, POSTGRES_PROVIDER_QUERY_SNAPSHOT_SELECT_COLUMNS_SQL_MIDDLE, order_clause, POSTGRES_PROVIDER_QUERY_SNAPSHOT_SELECT_COLUMNS_SQL_TAIL)
}

/// The text of the `sqlite upsert provider profile` statement.
pub const SQLITE_UPSERT_PROVIDER_PROFILE_SQL: &'static str = r##"
    INSERT INTO rtc_provider_profile (
        id,
        uuid,
        tenant_id,
        organization_id,
        provider,
        code,
        name,
        status,
        is_default,
        priority,
        environment,
        region,
        provider_app_id,
        endpoint,
        credential_ref,
        credential_fingerprint,
        webhook_secret_ref,
        webhook_secret_fingerprint,
        capability_snapshot,
        config_snapshot,
        health_status,
        last_verified_at,
        last_verification_latency_ms,
        last_verification_error,
        created_by,
        updated_by,
        created_at,
        updated_at,
        version,
        deleted_at,
        deleted_by
    )
    VALUES (?, ?, ?, ?, ?, ?, ?, ?, ?, ?, ?, ?, ?, ?, ?, ?, ?, ?, ?, ?, ?, ?, ?, ?, ?, ?, ?, ?, ?, ?, ?)
    ON CONFLICT(tenant_id, organization_id, provider, code) DO UPDATE SET
        uuid = excluded.uuid,
        name = excluded.name,
        status = excluded.status,
        is_default = excluded.is_default,
        priority = excluded.priority,
        environment = excluded.environment,
        region = excluded.region,
        provider_app_id = excluded.provider_app_id,
        endpoint = excluded.endpoint,
        credential_ref = excluded.credential_ref,
        credential_fingerprint = excluded.credential_fingerprint,
        webhook_secret_ref = excluded.webhook_secret_ref,
        webhook_secret_fingerprint = excluded.webhook_secret_fingerprint,
        capability_snapshot = excluded.capability_snapshot,
        config_snapshot = excluded.config_snapshot,
        health_status = excluded.health_status,
        last_verified_at = excluded.last_verified_at,
        last_verification_latency_ms = excluded.last_verification_latency_ms,
        last_verification_error = excluded.last_verification_error,
        updated_by = excluded.updated_by,
        updated_at = excluded.updated_at,
        version = rtc_provider_profile.version + 1,
        deleted_at = excluded.deleted_at,
        deleted_by = excluded.deleted_by
    "##;

/// The `sqlite upsert provider profile` statement.
pub fn sqlite_upsert_provider_profile_sql() -> (res: &'static str)
    ensures
        res@ == SQLITE_UPSERT_PROVIDER_PROFILE_SQL@,
{
    SQLITE_UPSERT_PROVIDER_PROFILE_SQL
}

/// The text of the `postgres upsert provider profile` statement.
pub const POSTGRES_UPSERT_PROVIDER_PROFILE_SQL: &'static str = r##"
    INSERT INTO rtc_provider_profile (
        id,
        uuid,
        tenant_id,
        organization_id,
        provider,
        code,
        name,
        status,
        is_default,
        priority,
        environment,
        region,
        provider_app_id,
        endpoint,
        credential_ref,
        credential_fingerprint,
        webhook_secret_ref,
        webhook_secret_fingerprint,
        capability_snapshot,
        config_snapshot,
        health_status,
        last_verified_at,
        last_verification_latency_ms,
        last_verification_error,
        created_by,
        updated_by,
        created_at,
        updated_at,
        version,
        deleted_at,
        deleted_by
    )
    VALUES (
        $1,
        $2,
        $3,
        $4,
        $5,
        $6,
        $7,
        $8,
        $9,
        $10,
        $11,
        $12,
        $13,
        $14,
        $15,
        $16,
        $17,
        $18,
        $19,
        $20,
        $21,
        NULLIF($22::text, '')::timestamp,
        $23,
        $24,
        $25,
        $26,
        $27::text::timestamp,
        $28::text::timestamp,
        $29,
        NULLIF($30::text, '')::timestamp,
        $31
    )
    ON CONFLICT(tenant_id, organization_id, provider, code) DO UPDATE SET
        uuid = excluded.uuid,
        name = excluded.name,
        status = excluded.status,
        is_default = excluded.is_default,
        priority = excluded.priority,
        environment = excluded.environment,
        region = excluded.region,
        provider_app_id = excluded.provider_app_id,
        endpoint = excluded.endpoint,
        credential_ref = excluded.credential_ref,
        credential_fingerprint = excluded.credential_fingerprint,
        webhook_secret_ref = excluded.webhook_secret_ref,
        webhook_secret_fingerprint = excluded.webhook_secret_fingerprint,
        capability_snapshot = excluded.capability_snapshot,
        config_snapshot = excluded.config_snapshot,
        health_status = excluded.health_status,
        last_verified_at = excluded.last_verified_at,
        last_verification_latency_ms = excluded.last_verification_latency_ms,
        last_verification_error = excluded.last_verification_error,
        updated_by = excluded.updated_by,
        updated_at = excluded.updated_at,
        version = rtc_provider_profile.version + 1,
        deleted_at = excluded.deleted_at,
        deleted_by = excluded.deleted_by
    "##;

/// The `postgres upsert provider profile` statement.
pub fn postgres_upsert_provider_profile_sql() -> (res: &'static str)
    ensures
        res@ == POSTGRES_UPSERT_PROVIDER_PROFILE_SQL@,
{
    POSTGRES_UPSERT_PROVIDER_PROFILE_SQL
}

/// Part of the `provider profile select columns` statement.
pub const PROVIDER_PROFILE_SELECT_COLUMNS_SQL_HEAD: &'static str = r##"
        SELECT
            uuid,
            tenant_id,
            organization_id,
            provider,
            code,
            name,
            status,
            is_default,
            priority,
            environment,
            region,
            provider_app_id,
            endpoint,
            credential_ref,
            credential_fingerprint,
            webhook_secret_ref,
            webhook_secret_fingerprint,
            capability_snapshot,
            config_snapshot,
            health_status,
            last_verified_at,
            last_verification_latency_ms,
            last_verification_error,
            created_by,
            updated_by,
            created_at,
            updated_at,
            version,
            deleted_at,
            deleted_by
        FROM rtc_provider_profile
        "##;

/// Part of the `provider profile select columns` statement.
pub const PROVIDER_PROFILE_SELECT_COLUMNS_SQL_MIDDLE: &'static str = r##"
        "##;

/// Part of the `provider profile select columns` statement.
pub const PROVIDER_PROFILE_SELECT_COLUMNS_SQL_TAIL: &'static str = r##"
        "##;

/// The `provider profile select columns` statement with the given filter and ordering.
pub fn provider_profile_select_columns_sql(where_clause: &str, order_clause: &str) -> (res: String)
    ensures
        res@ == select_text(PROVIDER_PROFILE_SELECT_COLUMNS_SQL_HEAD@, where_clause@, PROVIDER_PROFILE_SELECT_COLUMNS_SQL_MIDDLE@, order_clause@, PROVIDER_PROFILE_SELECT_COLUMNS_SQL_TAIL@),
{
    compose_select(PROVIDER_PROFILE_SELECT_COLUMNS_SQL_HEAD, where_clause, PROVIDER_PROFILE_SELECT_COLUMNS_SQL_MIDDLE, order_clause, PROVIDER_PROFILE_SELECT_COLUMNS_SQL_TAIL)
}

/// Part of the `postgres provider profile select columns` statement.
pub const POSTGRES_PROVIDER_PROFILE_SELECT_COLUMNS_SQL_HEAD: &'static str = r##"
        SELECT
            uuid,
            tenant_id,
            organization_id,
            provider,
            code,
            name,
            status,
            is_default,
            priority,
            environment,
            region,
            provider_app_id,
            endpoint,
            credential_ref,
            credential_fingerprint,
            webhook_secret_ref,
            webhook_secret_fingerprint,
            capability_snapshot,
            config_snapshot,
            health_status,
            to_char(last_verified_at AT TIME ZONE 'UTC', 'YYYY-MM-DD"T"HH24:MI:SS.MS"Z"') AS last_verified_at,
            last_verification_latency_ms,
            last_verification_error,
            created_by,
            updated_by,
            to_char(created_at AT TIME ZONE 'UTC', 'YYYY-MM-DD"T"HH24:MI:SS.MS"Z"') AS created_at,
            to_char(updated_at AT TIME ZONE 'UTC', 'YYYY-MM-DD"T"HH24:MI:SS.MS"Z"') AS updated_at,
            version,
            to_char(deleted_at AT TIME ZONE 'UTC', 'YYYY-MM-DD"T"HH24:MI:SS.MS"Z"') AS deleted_at,
            deleted_by
        FROM rtc_provider_profile
        "##;

/// Part of the `postgres provider profile select columns` statement.
pub const POSTGRES_PROVIDER_PROFILE_SELECT_COLUMNS_SQL_MIDDLE: &'static str = r##"
        "##;

/// Part of the `postgres provider profile select columns` statement.
pub const POSTGRES_PROVIDER_PROFILE_SELECT_COLUMNS_SQL_TAIL: &'static str = r##"
        "##;

/// The `postgres provider profile select columns` statement with the given filter and ordering.
pub fn postgres_provider_profile_select_columns_sql(where_clause: &str, order_clause: &str) -> (res: String)
    ensures
        res@ == select_text(POSTGRES_PROVIDER_PROFILE_SELECT_COLUMNS_SQL_HEAD@, where_clause@, POSTGRES_PROVIDER_PROFILE_SELECT_COLUMNS_SQL_MIDDLE@, order_clause@, POSTGRES_PROVIDER_PROFILE_SELECT_COLUMNS_SQL_TAIL@),
{
    compose_select(POSTGRES_PROVIDER_PROFILE_SELECT_COLUMNS_SQL_HEAD, where_clause, POSTGRES_PROVIDER_PROFILE_SELECT_COLUMNS_SQL_MIDDLE, order_clause, POSTGRES_PROVIDER_PROFILE_SELECT_COLUMNS_SQL_TAIL)
}

/// The text of the `sqlite upsert provider route` statement.
pub const SQLITE_UPSERT_PROVIDER_ROUTE_SQL: &'static str = r##"
    INSERT INTO rtc_provider_route (
        id,
        uuid,
        tenant_id,
        organization_id,
        provider_profile_id,
        route_type,
        region,
        priority,
        status,
        created_at,
        updated_at,
        version
    )
    VALUES (?, ?, ?, ?, ?, ?, ?, ?, ?, ?, ?, 0)
    ON CONFLICT(uuid) DO UPDATE SET
        tenant_id = excluded.tenant_id,
        organization_id = excluded.organization_id,
        provider_profile_id = excluded.provider_profile_id,
        route_type = excluded.route_type,
        region = excluded.region,
        priority = excluded.priority,
        status = excluded.status,
        updated_at = excluded.updated_at,
        version = rtc_provider_route.version + 1
    "##;

/// The `sqlite upsert provider route` statement.
pub fn sqlite_upsert_provider_route_sql() -> (res: &'static str)
    ensures
        res@ == SQLITE_UPSERT_PROVIDER_ROUTE_SQL@,
{
    SQLITE_UPSERT_PROVIDER_ROUTE_SQL
}

/// The text of the `postgres upsert provider route` statement.
pub const POSTGRES_UPSERT_PROVIDER_ROUTE_SQL: &'static str = r##"
    INSERT INTO rtc_provider_route (
        id,
        uuid,
        tenant_id,
        organization_id,
        provider_profile_id,
        route_type,
        region,
        priority,
        status,
        created_at,
        updated_at,
        version
    )
    VALUES (
        $1,
        $2,
        $3,
        $4,
        $5,
        $6,
        $7,
        $8,
        $9,
        $10::text::timestamp,
        $11::text::timestamp,
        0
    )
    ON CONFLICT(uuid) DO UPDATE SET
        tenant_id = excluded.tenant_id,
        organization_id = excluded.organization_id,
        provider_profile_id = excluded.provider_profile_id,
        route_type = excluded.route_type,
        region = excluded.region,
        priority = excluded.priority,
        status = excluded.status,
        updated_at = excluded.updated_at,
        version = rtc_provider_route.version + 1
    "##;

/// The `postgres upsert provider route` statement.
pub fn postgres_upsert_provider_route_sql() -> (res: &'static str)
    ensures
        res@ == POSTGRES_UPSERT_PROVIDER_ROUTE_SQL@,
{
    POSTGRES_UPSERT_PROVIDER_ROUTE_SQL
}

/// Part of the `provider route select columns` statement.
pub const PROVIDER_ROUTE_SELECT_COLUMNS_SQL_HEAD: &'static str = r##"
        SELECT
            uuid,
            tenant_id,
            organization_id,
            provider_profile_id,
            route_type,
            region,
            priority,
            status
        FROM rtc_provider_route
        "##;

/// Part of the `provider route select columns` statement.
pub const PROVIDER_ROUTE_SELECT_COLUMNS_SQL_MIDDLE: &'static str = r##"
        "##;

/// Part of the `provider route select columns` statement.
pub const PROVIDER_ROUTE_SELECT_COLUMNS_SQL_TAIL: &'static str = r##"
        "##;

/// The `provider route select columns` statement with the given filter and ordering.
pub fn provider_route_select_columns_sql(where_clause: &str, order_clause: &str) -> (res: String)
    ensures
        res@ == select_text(PROVIDER_ROUTE_SELECT_COLUMNS_SQL_HEAD@, where_clause@, PROVIDER_ROUTE_SELECT_COLUMNS_SQL_MIDDLE@, order_clause@, PROVIDER_ROUTE_SELECT_COLUMNS_SQL_TAIL@),
{
    compose_select(PROVIDER_ROUTE_SELECT_COLUMNS_SQL_HEAD, where_clause, PROVIDER_ROUTE_SELECT_COLUMNS_SQL_MIDDLE, order_clause, PROVIDER_ROUTE_SELECT_COLUMNS_SQL_TAIL)
}

/// The `postgres provider route select columns` statement with the given filter and ordering.
pub fn postgres_provider_route_select_columns_sql(where_clause: &str, order_clause: &str) -> (res: String)
    ensures
        res@ == select_text(PROVIDER_ROUTE_SELECT_COLUMNS_SQL_HEAD@, where_clause@, PROVIDER_ROUTE_SELECT_COLUMNS_SQL_MIDDLE@, order_clause@, PROVIDER_ROUTE_SELECT_COLUMNS_SQL_TAIL@),
{
    provider_route_select_columns_sql(where_clause, order_clause)
}

/// The text of the `postgres upsert session token grant` statement.
pub const POSTGRES_UPSERT_SESSION_TOKEN_GRANT_SQL: &'static str = r##"
    INSERT INTO rtc_session_token_grant (
        id,
        uuid,
        tenant_id,
        organization_id,
        session_id,
        participant_id,
        provider_profile_id,
        token_hash,
        scope,
        expire_at,
        revoked_at,
        created_at,
        status
    )
    VALUES ($1, $2, $3, $4, $5, $6, $7, $8, $9, $10, $11, $12, $13)
    ON CONFLICT (uuid) DO UPDATE SET
        provider_profile_id = excluded.provider_profile_id,
        token_hash = excluded.token_hash,
        scope = excluded.scope,
        expire_at = excluded.expire_at,
        revoked_at = excluded.revoked_at,
        status = excluded.status
    WHERE rtc_session_token_grant.status = 1
    "##;

/// The `postgres upsert session token grant` statement.
pub fn postgres_upsert_session_token_grant_sql() -> (res: &'static str)
    ensures
        res@ == POSTGRES_UPSERT_SESSION_TOKEN_GRANT_SQL@,
{
    POSTGRES_UPSERT_SESSION_TOKEN_GRANT_SQL
}

} // verus!
