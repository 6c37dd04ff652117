use vstd::prelude::*;
use crate::calendar::{rfc3339_instant_text, utc_now_rfc3339_millis};
use crate::domain::opt_view;
use crate::error::{RtcStorageError, StorageFault};
use crate::ids::{stable_numeric_id, stable_numeric_id_of};
use crate::text::{owned, str_eq};

verus! {

/// The key of a row in a change set.
#[derive(Clone, Debug)]
pub struct RowKey {
    pub id: String,
}

/// What the writer reads of a media session in a change set.
#[derive(Clone, Debug)]
pub struct SessionRowKey {
    pub id: String,
    pub tenant_id: String,
    pub organization_id: String,
    pub completion_recorded_at: Option<String>,
    pub ended_at: Option<String>,
}

/// What the writer reads of a row that belongs to a media session.
#[derive(Clone, Debug)]
pub struct SessionChildKey {
    pub id: String,
    pub session_id: String,
}

/// What the writer reads of a completion record in a change set.
#[derive(Clone, Debug)]
pub struct CompletionRowKey {
    pub id: String,
    pub media_session_id: String,
    pub tenant_id: String,
    pub organization_id: String,
    pub recorded_at: String,
}

/// What the persistence writer reads of a change set: the keys of its rows, list by
/// list, and how many webhook events, query jobs and query snapshots it carries.
#[derive(Clone, Debug)]
pub struct RtcPersistenceChangeSet {
    pub provider_accounts: Vec<RowKey>,
    pub provider_applications: Vec<RowKey>,
    pub provider_credentials: Vec<RowKey>,
    pub provider_profiles: Vec<RowKey>,
    pub provider_routes: Vec<RowKey>,
    pub rooms: Vec<RowKey>,
    pub media_sessions: Vec<SessionRowKey>,
    pub media_participants: Vec<SessionChildKey>,
    pub media_tracks: Vec<SessionChildKey>,
    pub media_artifacts: Vec<SessionChildKey>,
    pub quality_samples: Vec<SessionChildKey>,
    pub webhook_events: usize,
    pub provider_query_jobs: usize,
    pub provider_query_snapshots: usize,
    pub completion_records: Vec<CompletionRowKey>,
    pub media_session_idempotencies: Vec<RowKey>,
}

/// The tenant and organization of the last media session named `session_id`.
pub open spec fn last_session_scope(sessions: Seq<SessionRowKey>, session_id: Seq<char>) -> Option<(Seq<char>, Seq<char>)>
    decreases sessions.len(),
{
    if sessions.len() == 0 {
        None
    } else if sessions.last().id@ == session_id {
        Some((sessions.last().tenant_id@, sessions.last().organization_id@))
    } else {
        last_session_scope(sessions.drop_last(), session_id)
    }
}

/// The tenant and organization of the first completion record of `session_id`.
pub open spec fn first_completion_scope(records: Seq<CompletionRowKey>, session_id: Seq<char>) -> Option<(Seq<char>, Seq<char>)>
    decreases records.len(),
{
    if records.len() == 0 {
        None
    } else {
        match first_completion_scope(records.drop_last(), session_id) {
            Some(scope) => Some(scope),
            None => if records.last().media_session_id@ == session_id {
                Some((records.last().tenant_id@, records.last().organization_id@))
            } else {
                None
            },
        }
    }
}

/// The scope a change set gives a media session: that of its media session row (the last
/// one, when the set names it twice), else that of its first completion record.
pub open spec fn session_scope(changes: RtcPersistenceChangeSet, session_id: Seq<char>) -> Option<(Seq<char>, Seq<char>)> {
    match last_session_scope(changes.media_sessions@, session_id) {
        Some(scope) => Some(scope),
        None => first_completion_scope(changes.completion_records@, session_id),
    }
}

/// One entry of a session scope index.
#[derive(Clone, Debug)]
pub struct SessionScopeEntry {
    pub session_id: String,
    pub tenant_id: String,
    pub organization_id: String,
}

/// The scope that an index holds for `session_id`: that of its first entry for the id.
pub open spec fn entry_scope(entries: Seq<SessionScopeEntry>, session_id: Seq<char>) -> Option<(Seq<char>, Seq<char>)>
    decreases entries.len(),
{
    if entries.len() == 0 {
        None
    } else if entries[0].session_id@ == session_id {
        Some((entries[0].tenant_id@, entries[0].organization_id@))
    } else {
        entry_scope(entries.drop_first(), session_id)
    }
}

fn find_entry(entries: &Vec<SessionScopeEntry>, session_id: &str) -> (res: Option<usize>)
    ensures
        match res {
            Some(k) => k < entries@.len() && entries@[k as int].session_id@ == session_id@
                && forall|j: int| 0 <= j < k ==> entries@[j].session_id@ != session_id@,
            None => forall|j: int| 0 <= j < entries@.len() ==> entries@[j].session_id@ != session_id@,
        },
{
    let mut k: usize = 0;
    while k < entries.len()
        invariant
            0 <= k <= entries@.len(),
            forall|j: int| 0 <= j < k ==> entries@[j].session_id@ != session_id@,
        decreases entries@.len() - k,
    {
        if str_eq(entries[k].session_id.as_str(), session_id) {
            return Some(k);
        }
        k = k + 1;
    }
    None
}

proof fn lemma_entry_scope_first(entries: Seq<SessionScopeEntry>, session_id: Seq<char>, k: int)
    requires
        0 <= k < entries.len(),
        entries[k].session_id@ == session_id,
        forall|j: int| 0 <= j < k ==> entries[j].session_id@ != session_id,
    ensures
        entry_scope(entries, session_id) == Some((entries[k].tenant_id@, entries[k].organization_id@)),
    decreases k,
{
    if k > 0 {
        lemma_entry_scope_first(entries.drop_first(), session_id, k - 1);
    }
}

proof fn lemma_entry_scope_absent(entries: Seq<SessionScopeEntry>, session_id: Seq<char>)
    requires
        forall|j: int| 0 <= j < entries.len() ==> entries[j].session_id@ != session_id,
    ensures
        entry_scope(entries, session_id) is None,
    decreases entries.len(),
{
    if entries.len() > 0 {
        lemma_entry_scope_absent(entries.drop_first(), session_id);
    }
}

proof fn lemma_entry_scope_update(entries: Seq<SessionScopeEntry>, k: int, e: SessionScopeEntry, other: Seq<char>)
    requires
        0 <= k < entries.len(),
        entries[k].session_id@ == e.session_id@,
        forall|j: int| 0 <= j < k ==> entries[j].session_id@ != e.session_id@,
    ensures
        entry_scope(entries.update(k, e), other) == if other == e.session_id@ {
            Some((e.tenant_id@, e.organization_id@))
        } else {
            entry_scope(entries, other)
        },
    decreases k,
{
    if k == 0 {
        assert(entries.update(0, e).drop_first() =~= entries.drop_first());
    } else {
        assert(entries.update(k, e).drop_first() =~= entries.drop_first().update(k - 1, e));
        lemma_entry_scope_update(entries.drop_first(), k - 1, e, other);
    }
}

proof fn lemma_entry_scope_push(entries: Seq<SessionScopeEntry>, e: SessionScopeEntry, other: Seq<char>)
    requires
        entry_scope(entries, e.session_id@) is None,
    ensures
        entry_scope(entries.push(e), other) == if other == e.session_id@ {
            Some((e.tenant_id@, e.organization_id@))
        } else {
            entry_scope(entries, other)
        },
    decreases entries.len(),
{
    if entries.len() == 0 {
        assert(entries.push(e).drop_first() =~= Seq::<SessionScopeEntry>::empty());
    } else {
        assert(entries.push(e).drop_first() =~= entries.drop_first().push(e));
        lemma_entry_scope_push(entries.drop_first(), e, other);
    }
}

/// The scope index of a change set, each media session once.
pub struct SessionScopeIndex {
    pub entries: Vec<SessionScopeEntry>,
}

/// Indexes the tenant and organization of every media session a change set mentions:
/// media session rows first (a later row for the same id replaces an earlier one), then
/// completion records for sessions no row names (the first record wins).
pub fn session_scope_index(changes: &RtcPersistenceChangeSet) -> (res: SessionScopeIndex)
    ensures
        forall|sid: Seq<char>| #[trigger] entry_scope(res.entries@, sid) == session_scope(*changes, sid),
{
    let mut entries: Vec<SessionScopeEntry> = Vec::new();
    let sessions = &changes.media_sessions;
    let mut i: usize = 0;
    while i < sessions.len()
        invariant
            0 <= i <= sessions@.len(),
            forall|sid: Seq<char>| #[trigger] entry_scope(entries@, sid) == last_session_scope(sessions@.take(i as int), sid),
        decreases sessions@.len() - i,
    {
        let s = &sessions[i];
        let e = SessionScopeEntry {
            session_id: owned(s.id.as_str()),
            tenant_id: owned(s.tenant_id.as_str()),
            organization_id: owned(s.organization_id.as_str()),
        };
        let ghost before = entries@;
        let found = find_entry(&entries, s.id.as_str());
        match found {
            Some(k) => {
                entries.set(k, e);
                proof {
                    assert forall|sid: Seq<char>| #[trigger] entry_scope(entries@, sid) == last_session_scope(sessions@.take(i + 1), sid) by {
                        lemma_entry_scope_update(before, k as int, e, sid);
                        assert(sessions@.take(i + 1).drop_last() =~= sessions@.take(i as int));
                    }
                }
            },
            None => {
                proof {
                    lemma_entry_scope_absent(before, e.session_id@);
                }
                entries.push(e);
                proof {
                    assert forall|sid: Seq<char>| #[trigger] entry_scope(entries@, sid) == last_session_scope(sessions@.take(i + 1), sid) by {
                        lemma_entry_scope_push(before, e, sid);
                        assert(sessions@.take(i + 1).drop_last() =~= sessions@.take(i as int));
                    }
                }
            },
        }
        i = i + 1;
    }
    assert(sessions@.take(sessions@.len() as int) =~= sessions@);
    let records = &changes.completion_records;
    let mut j: usize = 0;
    while j < records.len()
        invariant
            0 <= j <= records@.len(),
            sessions@ == changes.media_sessions@,
            forall|sid: Seq<char>| #[trigger] entry_scope(entries@, sid) == match last_session_scope(sessions@, sid) {
                Some(scope) => Some(scope),
                None => first_completion_scope(records@.take(j as int), sid),
            },
        decreases records@.len() - j,
    {
        let r = &records[j];
        let ghost before = entries@;
        let found = find_entry(&entries, r.media_session_id.as_str());
        proof {
            assert(records@.take(j + 1).drop_last() =~= records@.take(j as int));
        }
        if found.is_none() {
            let e = SessionScopeEntry {
                session_id: owned(r.media_session_id.as_str()),
                tenant_id: owned(r.tenant_id.as_str()),
                organization_id: owned(r.organization_id.as_str()),
            };
            proof {
                lemma_entry_scope_absent(before, e.session_id@);
            }
            entries.push(e);
            proof {
                assert forall|sid: Seq<char>| #[trigger] entry_scope(entries@, sid) == match last_session_scope(sessions@, sid) {
                    Some(scope) => Some(scope),
                    None => first_completion_scope(records@.take(j + 1), sid),
                } by {
                    lemma_entry_scope_push(before, e, sid);
                }
            }
        } else {
            proof {
                let k = found->0 as int;
                assert forall|sid: Seq<char>| #[trigger] entry_scope(entries@, sid) == match last_session_scope(sessions@, sid) {
                    Some(scope) => Some(scope),
                    None => first_completion_scope(records@.take(j + 1), sid),
                } by {
                    if sid == r.media_session_id@ {
                        lemma_entry_scope_first(before, sid, k);
                    }
                }
            }
        }
        j = j + 1;
    }
    assert(records@.take(records@.len() as int) =~= records@);
    SessionScopeIndex { entries }
}

/// The tenant and organization of a media session, or the missing-summary error when the
/// change set gives the session no scope.
pub fn scoped_session<'a>(scope: &'a SessionScopeIndex, media_session_id: &str) -> (res: Result<(&'a str, &'a str), RtcStorageError>)
    ensures
        match entry_scope(scope.entries@, media_session_id@) {
            Some(s) => res matches Ok(pair) && pair.0@ == s.0 && pair.1@ == s.1,
            None => res matches Err(e)
                && e@ == StorageFault::MissingMediaSessionSummary { media_session_id: media_session_id@ },
        },
{
    match find_entry(&scope.entries, media_session_id) {
        Some(k) => {
            proof {
                lemma_entry_scope_first(scope.entries@, media_session_id@, k as int);
            }
            let e = &scope.entries[k];
            Ok((e.tenant_id.as_str(), e.organization_id.as_str()))
        },
        None => {
            proof {
                lemma_entry_scope_absent(scope.entries@, media_session_id@);
            }
            Err(RtcStorageError::MissingMediaSessionSummary { media_session_id: owned(media_session_id) })
        },
    }
}

/// The first media session with a completion time.
pub open spec fn first_completion_time(sessions: Seq<SessionRowKey>) -> Option<Seq<char>>
    decreases sessions.len(),
{
    if sessions.len() == 0 {
        None
    } else {
        match first_completion_time(sessions.drop_last()) {
            Some(t) => Some(t),
            None => opt_view(sessions.last().completion_recorded_at),
        }
    }
}

/// The first media session with an end time.
pub open spec fn first_end_time(sessions: Seq<SessionRowKey>) -> Option<Seq<char>>
    decreases sessions.len(),
{
    if sessions.len() == 0 {
        None
    } else {
        match first_end_time(sessions.drop_last()) {
            Some(t) => Some(t),
            None => opt_view(sessions.last().ended_at),
        }
    }
}

/// The time a change set is written at, when the set names one: the first completion
/// record's time, else the first session completion time, else the first session end time.
pub open spec fn change_stamp(changes: RtcPersistenceChangeSet) -> Option<Seq<char>> {
    if changes.completion_records@.len() > 0 {
        Some(changes.completion_records@[0].recorded_at@)
    } else {
        match first_completion_time(changes.media_sessions@) {
            Some(t) => Some(t),
            None => first_end_time(changes.media_sessions@),
        }
    }
}

fn first_session_time(sessions: &Vec<SessionRowKey>, completion: bool) -> (res: Option<String>)
    ensures
        opt_view(res) == if completion { first_completion_time(sessions@) } else { first_end_time(sessions@) },
{
    let mut i: usize = 0;
    while i < sessions.len()
        invariant
            0 <= i <= sessions@.len(),
            (if completion { first_completion_time(sessions@.take(i as int)) } else { first_end_time(sessions@.take(i as int)) }) is None,
        decreases sessions@.len() - i,
    {
        proof {
            assert(sessions@.take(i + 1).drop_last() =~= sessions@.take(i as int));
        }
        let candidate = if completion { &sessions[i].completion_recorded_at } else { &sessions[i].ended_at };
        match candidate {
            Some(t) => {
                proof {
                    lemma_first_time_prefix(sessions@, i + 1, completion);
                }
                return Some(owned(t.as_str()));
            },
            None => {},
        }
        i = i + 1;
    }
    assert(sessions@.take(sessions@.len() as int) =~= sessions@);
    None
}

proof fn lemma_first_time_prefix(sessions: Seq<SessionRowKey>, n: int, completion: bool)
    requires
        0 < n <= sessions.len(),
        (if completion { first_completion_time(sessions.take(n)) } else { first_end_time(sessions.take(n)) }) is Some,
    ensures
        (if completion { first_completion_time(sessions) } else { first_end_time(sessions) })
            == (if completion { first_completion_time(sessions.take(n)) } else { first_end_time(sessions.take(n)) }),
    decreases sessions.len() - n,
{
    if n < sessions.len() {
        assert(sessions.take(n + 1).drop_last() =~= sessions.take(n));
        lemma_first_time_prefix(sessions, n + 1, completion);
    } else {
        assert(sessions.take(n) =~= sessions);
    }
}

/// The time a change set is written at: the time it names (see [`change_stamp`]), else
/// the current time.
pub fn change_timestamp(changes: &RtcPersistenceChangeSet) -> (res: String)
    ensures
        match change_stamp(*changes) {
            Some(t) => res@ == t,
            None => exists|m: nat| res@ == rfc3339_instant_text(m),
        },
{
    if changes.completion_records.len() > 0 {
        return owned(changes.completion_records[0].recorded_at.as_str());
    }
    match first_session_time(&changes.media_sessions, true) {
        Some(t) => t,
        None => match first_session_time(&changes.media_sessions, false) {
            Some(t) => t,
            None => utc_now_rfc3339_millis(),
        },
    }
}

/// The tables the persistence writer fills, in the order it writes them.
#[derive(Clone, Copy, Debug, PartialEq, Eq, Structural)]
pub enum PersistenceTable {
    ProviderAccount,
    ProviderApplication,
    ProviderCredential,
    ProviderProfile,
    ProviderRoute,
    Room,
    MediaSession,
    MediaParticipant,
    MediaTrack,
    MediaArtifact,
    QualitySample,
    WebhookEvent,
    ProviderQueryJob,
    ProviderQuerySnapshot,
    CompletionRecord,
    MediaSessionIdempotency,
}

/// The namespace a table's numeric row ids are derived in.
pub open spec fn table_namespace(table: PersistenceTable) -> Seq<char> {
    match table {
        PersistenceTable::ProviderAccount => "provider_account"@,
        PersistenceTable::ProviderApplication => "provider_application"@,
        PersistenceTable::ProviderCredential => "provider_credential"@,
        PersistenceTable::ProviderProfile => "provider_profile"@,
        PersistenceTable::ProviderRoute => "provider_route"@,
        PersistenceTable::Room => "room"@,
        PersistenceTable::MediaSession => "media_session"@,
        PersistenceTable::MediaParticipant => "media_participant"@,
        PersistenceTable::MediaTrack => "media_track"@,
        PersistenceTable::MediaArtifact => "media_artifact"@,
        PersistenceTable::QualitySample => "quality_sample"@,
        PersistenceTable::CompletionRecord => "completion_record"@,
        PersistenceTable::MediaSessionIdempotency => "media_session_idempotency"@,
        _ => ""@,
    }
}

fn namespace_of(table: PersistenceTable) -> (res: &'static str)
    ensures
        res@ == table_namespace(table),
{
    match table {
        PersistenceTable::ProviderAccount => "provider_account",
        PersistenceTable::ProviderApplication => "provider_application",
        PersistenceTable::ProviderCredential => "provider_credential",
        PersistenceTable::ProviderProfile => "provider_profile",
        PersistenceTable::ProviderRoute => "provider_route",
        PersistenceTable::Room => "room",
        PersistenceTable::MediaSession => "media_session",
        PersistenceTable::MediaParticipant => "media_participant",
        PersistenceTable::MediaTrack => "media_track",
        PersistenceTable::MediaArtifact => "media_artifact",
        PersistenceTable::QualitySample => "quality_sample",
        PersistenceTable::CompletionRecord => "completion_record",
        PersistenceTable::MediaSessionIdempotency => "media_session_idempotency",
        _ => "",
    }
}

/// Rows of the table are written with the change set's time.
pub open spec fn stamped(table: PersistenceTable) -> bool {
    match table {
        PersistenceTable::ProviderRoute | PersistenceTable::Room | PersistenceTable::MediaSession
        | PersistenceTable::MediaParticipant | PersistenceTable::MediaTrack
        | PersistenceTable::MediaArtifact => true,
        _ => false,
    }
}

fn is_stamped(table: PersistenceTable) -> (res: bool)
    ensures
        res == stamped(table),
{
    match table {
        PersistenceTable::ProviderRoute | PersistenceTable::Room | PersistenceTable::MediaSession
        | PersistenceTable::MediaParticipant | PersistenceTable::MediaTrack
        | PersistenceTable::MediaArtifact => true,
        _ => false,
    }
}

/// Rows of the table are written with their session's tenant.
pub open spec fn tenant_scoped(table: PersistenceTable) -> bool {
    match table {
        PersistenceTable::MediaParticipant | PersistenceTable::MediaTrack
        | PersistenceTable::QualitySample => true,
        _ => false,
    }
}

fn is_tenant_scoped(table: PersistenceTable) -> (res: bool)
    ensures
        res == tenant_scoped(table),
{
    match table {
        PersistenceTable::MediaParticipant | PersistenceTable::MediaTrack
        | PersistenceTable::QualitySample => true,
        _ => false,
    }
}

/// One row write the persistence writer performs.
#[derive(Clone, Debug)]
pub struct PersistenceWrite {
    pub table: PersistenceTable,
    /// The row's position in its list of the change set.
    pub index: usize,
    /// The numeric id the row is stored under, for tables keyed that way.
    pub row_id: Option<i64>,
    pub tenant_id: Option<String>,
    pub organization_id: Option<String>,
    pub updated_at: Option<String>,
}

/// The mathematical content of a [`PersistenceWrite`].
pub struct WriteView {
    pub table: PersistenceTable,
    pub index: int,
    pub row_id: Option<i64>,
    pub tenant_id: Option<Seq<char>>,
    pub organization_id: Option<Seq<char>>,
    pub updated_at: Option<Seq<char>>,
}

impl View for PersistenceWrite {
    type V = WriteView;

    open spec fn view(&self) -> WriteView {
        WriteView {
            table: self.table,
            index: self.index as int,
            row_id: self.row_id,
            tenant_id: opt_view(self.tenant_id),
            organization_id: opt_view(self.organization_id),
            updated_at: opt_view(self.updated_at),
        }
    }
}

/// The views of a list of writes.
pub open spec fn write_views(writes: Seq<PersistenceWrite>) -> Seq<WriteView> {
    writes.map_values(|w: PersistenceWrite| w@)
}

/// The write of row `index` with public id `id` of a table keyed by numeric id.
pub open spec fn keyed_write(table: PersistenceTable, index: int, id: Seq<char>, updated_at: Seq<char>) -> WriteView {
    WriteView {
        table,
        index,
        row_id: Some(stable_numeric_id_of(table_namespace(table), id)),
        tenant_id: None,
        organization_id: None,
        updated_at: if stamped(table) { Some(updated_at) } else { None },
    }
}

/// The writes of a list of keyed rows.
pub open spec fn keyed_writes(table: PersistenceTable, rows: Seq<RowKey>, updated_at: Seq<char>) -> Seq<WriteView> {
    Seq::new(rows.len(), |i: int| keyed_write(table, i, rows[i].id@, updated_at))
}

/// The writes of the media sessions of a change set.
pub open spec fn session_writes(sessions: Seq<SessionRowKey>, updated_at: Seq<char>) -> Seq<WriteView> {
    Seq::new(sessions.len(), |i: int| keyed_write(PersistenceTable::MediaSession, i, sessions[i].id@, updated_at))
}

/// The writes of the completion records of a change set.
pub open spec fn completion_writes(records: Seq<CompletionRowKey>) -> Seq<WriteView> {
    Seq::new(records.len(), |i: int| keyed_write(PersistenceTable::CompletionRecord, i, records[i].id@, Seq::empty()))
}

/// The writes of `count` rows written as they are.
pub open spec fn counted_writes(table: PersistenceTable, count: nat) -> Seq<WriteView> {
    Seq::new(count, |i: int| WriteView {
        table,
        index: i,
        row_id: None,
        tenant_id: None,
        organization_id: None,
        updated_at: None,
    })
}

/// The write of row `index` of a table whose rows belong to a session with `scope`.
pub open spec fn child_write(
    table: PersistenceTable,
    index: int,
    id: Seq<char>,
    scope: (Seq<char>, Seq<char>),
    updated_at: Seq<char>,
) -> WriteView {
    WriteView {
        table,
        index,
        row_id: Some(stable_numeric_id_of(table_namespace(table), id)),
        tenant_id: if tenant_scoped(table) { Some(scope.0) } else { None },
        organization_id: Some(scope.1),
        updated_at: if stamped(table) { Some(updated_at) } else { None },
    }
}

/// The writes of rows that belong to sessions, or the first session without a scope.
pub open spec fn child_writes(
    table: PersistenceTable,
    rows: Seq<SessionChildKey>,
    changes: RtcPersistenceChangeSet,
    updated_at: Seq<char>,
) -> Result<Seq<WriteView>, Seq<char>>
    decreases rows.len(),
{
    if rows.len() == 0 {
        Ok(Seq::empty())
    } else {
        match child_writes(table, rows.drop_last(), changes, updated_at) {
            Err(missing) => Err(missing),
            Ok(prefix) => match session_scope(changes, rows.last().session_id@) {
                None => Err(rows.last().session_id@),
                Some(scope) => Ok(
                    prefix.push(child_write(table, rows.len() - 1, rows.last().id@, scope, updated_at)),
                ),
            },
        }
    }
}

/// The writes that store a change set at `updated_at`, in order: provider accounts,
/// applications, credentials, profiles and routes, rooms, media sessions, participants,
/// tracks, artifacts, quality samples, webhook events, query jobs and snapshots,
/// completion records and idempotency claims. Rows that belong to a session are written
/// under that session's scope; the first such row whose session has none (in that order)
/// fails the whole change set.
pub open spec fn persistence_plan(changes: RtcPersistenceChangeSet, updated_at: Seq<char>) -> Result<Seq<WriteView>, Seq<char>> {
    let head = keyed_writes(PersistenceTable::ProviderAccount, changes.provider_accounts@, updated_at)
        + keyed_writes(PersistenceTable::ProviderApplication, changes.provider_applications@, updated_at)
        + keyed_writes(PersistenceTable::ProviderCredential, changes.provider_credentials@, updated_at)
        + keyed_writes(PersistenceTable::ProviderProfile, changes.provider_profiles@, updated_at)
        + keyed_writes(PersistenceTable::ProviderRoute, changes.provider_routes@, updated_at)
        + keyed_writes(PersistenceTable::Room, changes.rooms@, updated_at)
        + session_writes(changes.media_sessions@, updated_at);
    match child_writes(PersistenceTable::MediaParticipant, changes.media_participants@, changes, updated_at) {
        Err(m) => Err(m),
        Ok(participants) => match child_writes(PersistenceTable::MediaTrack, changes.media_tracks@, changes, updated_at) {
            Err(m) => Err(m),
            Ok(tracks) => match child_writes(PersistenceTable::MediaArtifact, changes.media_artifacts@, changes, updated_at) {
                Err(m) => Err(m),
                Ok(artifacts) => match child_writes(PersistenceTable::QualitySample, changes.quality_samples@, changes, updated_at) {
                    Err(m) => Err(m),
                    Ok(samples) => Ok(
                        head + participants + tracks + artifacts + samples
                            + counted_writes(PersistenceTable::WebhookEvent, changes.webhook_events as nat)
                            + counted_writes(PersistenceTable::ProviderQueryJob, changes.provider_query_jobs as nat)
                            + counted_writes(PersistenceTable::ProviderQuerySnapshot, changes.provider_query_snapshots as nat)
                            + completion_writes(changes.completion_records@)
                            + keyed_writes(PersistenceTable::MediaSessionIdempotency, changes.media_session_idempotencies@, updated_at),
                    ),
                },
            },
        },
    }
}

fn stamp_for(table: PersistenceTable, updated_at: &str) -> (res: Option<String>)
    ensures
        opt_view(res) == if stamped(table) { Some(updated_at@) } else { None },
{
    if is_stamped(table) { Some(owned(updated_at)) } else { None }
}

fn push_keyed(out: &mut Vec<PersistenceWrite>, table: PersistenceTable, ids: &Vec<RowKey>, updated_at: &str)
    ensures
        write_views(final(out)@) == write_views(old(out)@) + keyed_writes(table, ids@, updated_at@),
{
    let ghost start = write_views(out@);
    let mut i: usize = 0;
    while i < ids.len()
        invariant
            0 <= i <= ids@.len(),
            write_views(out@) == start + keyed_writes(table, ids@.take(i as int), updated_at@),
        decreases ids@.len() - i,
    {
        let row_id = stable_numeric_id(namespace_of(table), ids[i].id.as_str());
        let w = PersistenceWrite {
            table,
            index: i,
            row_id: Some(row_id),
            tenant_id: None,
            organization_id: None,
            updated_at: stamp_for(table, updated_at),
        };
        let ghost before = out@;
        out.push(w);
        proof {
            assert(write_views(out@) =~= write_views(before).push(w@));
            assert(keyed_writes(table, ids@.take(i + 1), updated_at@) =~= keyed_writes(table, ids@.take(i as int), updated_at@).push(
                keyed_write(table, i as int, ids@[i as int].id@, updated_at@),
            ));
        }
        i = i + 1;
    }
    assert(ids@.take(ids@.len() as int) =~= ids@);
}

fn push_sessions(out: &mut Vec<PersistenceWrite>, sessions: &Vec<SessionRowKey>, updated_at: &str)
    ensures
        write_views(final(out)@) == write_views(old(out)@) + session_writes(sessions@, updated_at@),
{
    let ghost start = write_views(out@);
    let mut i: usize = 0;
    while i < sessions.len()
        invariant
            0 <= i <= sessions@.len(),
            write_views(out@) == start + session_writes(sessions@.take(i as int), updated_at@),
        decreases sessions@.len() - i,
    {
        let row_id = stable_numeric_id("media_session", sessions[i].id.as_str());
        let w = PersistenceWrite {
            table: PersistenceTable::MediaSession,
            index: i,
            row_id: Some(row_id),
            tenant_id: None,
            organization_id: None,
            updated_at: Some(owned(updated_at)),
        };
        let ghost before = out@;
        out.push(w);
        proof {
            assert(write_views(out@) =~= write_views(before).push(w@));
            assert(session_writes(sessions@.take(i + 1), updated_at@) =~= session_writes(sessions@.take(i as int), updated_at@).push(
                keyed_write(PersistenceTable::MediaSession, i as int, sessions@[i as int].id@, updated_at@),
            ));
        }
        i = i + 1;
    }
    assert(sessions@.take(sessions@.len() as int) =~= sessions@);
}

fn push_completions(out: &mut Vec<PersistenceWrite>, records: &Vec<CompletionRowKey>)
    ensures
        write_views(final(out)@) == write_views(old(out)@) + completion_writes(records@),
{
    let ghost start = write_views(out@);
    let mut i: usize = 0;
    while i < records.len()
        invariant
            0 <= i <= records@.len(),
            write_views(out@) == start + completion_writes(records@.take(i as int)),
        decreases records@.len() - i,
    {
        let row_id = stable_numeric_id("completion_record", records[i].id.as_str());
        let w = PersistenceWrite {
            table: PersistenceTable::CompletionRecord,
            index: i,
            row_id: Some(row_id),
            tenant_id: None,
            organization_id: None,
            updated_at: None,
        };
        let ghost before = out@;
        out.push(w);
        proof {
            assert(write_views(out@) =~= write_views(before).push(w@));
            assert(completion_writes(records@.take(i + 1)) =~= completion_writes(records@.take(i as int)).push(
                keyed_write(PersistenceTable::CompletionRecord, i as int, records@[i as int].id@, Seq::empty()),
            ));
        }
        i = i + 1;
    }
    assert(records@.take(records@.len() as int) =~= records@);
}

fn push_counted(out: &mut Vec<PersistenceWrite>, table: PersistenceTable, count: usize)
    ensures
        write_views(final(out)@) == write_views(old(out)@) + counted_writes(table, count as nat),
{
    let ghost start = write_views(out@);
    let mut i: usize = 0;
    while i < count
        invariant
            0 <= i <= count,
            write_views(out@) == start + counted_writes(table, i as nat),
        decreases count - i,
    {
        let w = PersistenceWrite {
            table,
            index: i,
            row_id: None,
            tenant_id: None,
            organization_id: None,
            updated_at: None,
        };
        let ghost before = out@;
        out.push(w);
        proof {
            assert(write_views(out@) =~= write_views(before).push(w@));
            assert(counted_writes(table, (i + 1) as nat) =~= counted_writes(table, i as nat).push(w@));
        }
        i = i + 1;
    }
}

fn push_children(
    out: &mut Vec<PersistenceWrite>,
    table: PersistenceTable,
    rows: &Vec<SessionChildKey>,
    changes: &RtcPersistenceChangeSet,
    scope: &SessionScopeIndex,
    updated_at: &str,
) -> (res: Result<(), RtcStorageError>)
    requires
        forall|sid: Seq<char>| #[trigger] entry_scope(scope.entries@, sid) == session_scope(*changes, sid),
    ensures
        match child_writes(table, rows@, *changes, updated_at@) {
            Ok(ws) => res is Ok && write_views(final(out)@) == write_views(old(out)@) + ws,
            Err(missing) => res matches Err(e)
                && e@ == StorageFault::MissingMediaSessionSummary { media_session_id: missing },
        },
{
    let ghost start = write_views(out@);
    let mut i: usize = 0;
    while i < rows.len()
        invariant
            0 <= i <= rows@.len(),
            forall|sid: Seq<char>| #[trigger] entry_scope(scope.entries@, sid) == session_scope(*changes, sid),
            child_writes(table, rows@.take(i as int), *changes, updated_at@) matches Ok(ws)
                && write_views(out@) == start + ws,
        decreases rows@.len() - i,
    {
        proof {
            assert(rows@.take(i + 1).drop_last() =~= rows@.take(i as int));
        }
        let row = &rows[i];
        let (tenant_id, organization_id) = match scoped_session(scope, row.session_id.as_str()) {
            Ok(pair) => pair,
            Err(e) => {
                proof {
                    lemma_child_writes_error_persists(table, rows@, i + 1, *changes, updated_at@);
                }
                return Err(e);
            },
        };
        let row_id = stable_numeric_id(namespace_of(table), row.id.as_str());
        let w = PersistenceWrite {
            table,
            index: i,
            row_id: Some(row_id),
            tenant_id: if is_tenant_scoped(table) { Some(owned(tenant_id)) } else { None },
            organization_id: Some(owned(organization_id)),
            updated_at: stamp_for(table, updated_at),
        };
        let ghost before = out@;
        out.push(w);
        proof {
            assert(write_views(out@) =~= write_views(before).push(w@));
        }
        i = i + 1;
    }
    assert(rows@.take(rows@.len() as int) =~= rows@);
    Ok(())
}

proof fn lemma_child_writes_error_persists(
    table: PersistenceTable,
    rows: Seq<SessionChildKey>,
    n: int,
    changes: RtcPersistenceChangeSet,
    updated_at: Seq<char>,
)
    requires
        0 < n <= rows.len(),
        child_writes(table, rows.take(n), changes, updated_at) is Err,
    ensures
        child_writes(table, rows, changes, updated_at) == child_writes(table, rows.take(n), changes, updated_at),
    decreases rows.len() - n,
{
    if n < rows.len() {
        assert(rows.take(n + 1).drop_last() =~= rows.take(n));
        lemma_child_writes_error_persists(table, rows, n + 1, changes, updated_at);
    } else {
        assert(rows.take(n) =~= rows);
    }
}

/// The writes that store a change set at `updated_at` (see [`persistence_plan`]), or the
/// missing-summary error of the first row whose session the change set gives no scope.
pub fn plan_change_writes(changes: &RtcPersistenceChangeSet, updated_at: &str) -> (res: Result<Vec<PersistenceWrite>, RtcStorageError>)
    ensures
        match persistence_plan(*changes, updated_at@) {
            Ok(ws) => res matches Ok(writes) && write_views(writes@) == ws,
            Err(missing) => res matches Err(e)
                && e@ == StorageFault::MissingMediaSessionSummary { media_session_id: missing },
        },
{
    let scope = session_scope_index(changes);
    let mut out: Vec<PersistenceWrite> = Vec::new();
    assert(write_views(out@) =~= Seq::<WriteView>::empty());
    push_keyed(&mut out, PersistenceTable::ProviderAccount, &changes.provider_accounts, updated_at);
    push_keyed(&mut out, PersistenceTable::ProviderApplication, &changes.provider_applications, updated_at);
    push_keyed(&mut out, PersistenceTable::ProviderCredential, &changes.provider_credentials, updated_at);
    push_keyed(&mut out, PersistenceTable::ProviderProfile, &changes.provider_profiles, updated_at);
    push_keyed(&mut out, PersistenceTable::ProviderRoute, &changes.provider_routes, updated_at);
    push_keyed(&mut out, PersistenceTable::Room, &changes.rooms, updated_at);
    push_sessions(&mut out, &changes.media_sessions, updated_at);
    let r = push_children(&mut out, PersistenceTable::MediaParticipant, &changes.media_participants, changes, &scope, updated_at);
    if r.is_err() {
        return Err(r.unwrap_err());
    }
    let r = push_children(&mut out, PersistenceTable::MediaTrack, &changes.media_tracks, changes, &scope, updated_at);
    if r.is_err() {
        return Err(r.unwrap_err());
    }
    let r = push_children(&mut out, PersistenceTable::MediaArtifact, &changes.media_artifacts, changes, &scope, updated_at);
    if r.is_err() {
        return Err(r.unwrap_err());
    }
    let r = push_children(&mut out, PersistenceTable::QualitySample, &changes.quality_samples, changes, &scope, updated_at);
    if r.is_err() {
        return Err(r.unwrap_err());
    }
    push_counted(&mut out, PersistenceTable::WebhookEvent, changes.webhook_events);
    push_counted(&mut out, PersistenceTable::ProviderQueryJob, changes.provider_query_jobs);
    push_counted(&mut out, PersistenceTable::ProviderQuerySnapshot, changes.provider_query_snapshots);
    push_completions(&mut out, &changes.completion_records);
    push_keyed(&mut out, PersistenceTable::MediaSessionIdempotency, &changes.media_session_idempotencies, updated_at);
    Ok(out)
}

} // verus!
