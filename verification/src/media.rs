use vstd::prelude::*;
use crate::domain::opt_view;
use crate::error::{RtcContractError, RtcStorageError, StorageFault};
use crate::event_codec::invalid_value;
use crate::fields::{json_get, json_lookup};
use crate::json::{json_view, JsonMember, JsonValue, JsonView};
use crate::text::{owned, push_str, str_eq};
use crate::webhook::member;

verus! {

/// The kind of Drive space a media file lives in.
#[derive(Clone, Copy, Debug, PartialEq, Eq, Structural)]
pub enum RtcDriveSpaceType {
    Rtc,
}

impl RtcDriveSpaceType {
    /// The stored name of the space type.
    pub fn as_str(&self) -> (res: &'static str)
        ensures
            res@ == "rtc"@,
    {
        "rtc"
    }
}

/// Reads a stored Drive space type.
pub fn str_to_drive_space_type(value: String) -> (res: Result<RtcDriveSpaceType, RtcStorageError>)
    ensures
        value@ == "rtc"@ ==> res matches Ok(RtcDriveSpaceType::Rtc),
        value@ != "rtc"@ ==> (res matches Err(e) && e@ == invalid_value("drive_space_type"@, value@)),
{
    if str_eq(value.as_str(), "rtc") {
        Ok(RtcDriveSpaceType::Rtc)
    } else {
        Err(RtcStorageError::InvalidEnumValue { field: "drive_space_type", value })
    }
}

/// `drive://spaces/{space_id}/nodes/{node_id}`.
pub open spec fn canonical_drive_uri(space_id: Seq<char>, node_id: Seq<char>) -> Seq<char> {
    "drive://spaces/"@ + space_id + "/nodes/"@ + node_id
}

/// Where a media file lives in Drive.
#[derive(Debug)]
pub struct RtcDriveReference {
    pub space_id: String,
    pub space_type: RtcDriveSpaceType,
    pub node_id: String,
    pub node_version: Option<String>,
    pub drive_uri: String,
}

impl RtcDriveReference {
    /// A reference is canonical when its URI is the one its space and node name.
    pub fn is_canonical(&self) -> (res: bool)
        ensures
            res == (self.drive_uri@ == canonical_drive_uri(self.space_id@, self.node_id@)),
    {
        let expected = canonical_uri(self.space_id.as_str(), self.node_id.as_str());
        str_eq(self.drive_uri.as_str(), expected.as_str())
    }
}

/// Writes `drive://spaces/{space_id}/nodes/{node_id}`.
pub fn canonical_uri(space_id: &str, node_id: &str) -> (res: String)
    ensures
        res@ == canonical_drive_uri(space_id@, node_id@),
{
    let mut out = owned("drive://spaces/");
    push_str(&mut out, space_id);
    push_str(&mut out, "/nodes/");
    push_str(&mut out, node_id);
    out
}

/// Where a media resource is served from.
#[derive(Clone, Copy, Debug, PartialEq, Eq, Structural)]
pub enum RtcMediaSource {
    Drive,
    External,
}

/// The `Debug` name of a media source.
pub open spec fn media_source_name(source: RtcMediaSource) -> Seq<char> {
    match source {
        RtcMediaSource::Drive => "Drive"@,
        RtcMediaSource::External => "External"@,
    }
}

fn media_source_text(source: RtcMediaSource) -> (res: String)
    ensures
        res@ == media_source_name(source),
{
    match source {
        RtcMediaSource::Drive => owned("Drive"),
        RtcMediaSource::External => owned("External"),
    }
}

/// The media resource snapshot stored with an artifact.
#[derive(Debug)]
pub struct RtcMediaResource {
    pub id: Option<String>,
    pub source: RtcMediaSource,
    pub uri: Option<String>,
    pub metadata: Option<JsonValue>,
}

/// A stored media artifact: the Drive file and the resource snapshot that serves it.
#[derive(Debug)]
pub struct RtcMediaArtifact {
    pub id: String,
    pub drive: RtcDriveReference,
    pub resource: RtcMediaResource,
    pub media_role: String,
}

/// A recording a provider exported into Drive.
#[derive(Debug)]
pub struct RtcRecordingArtifact {
    pub tenant_id: String,
    pub rtc_session_id: String,
    pub drive: RtcDriveReference,
    pub resource: RtcMediaResource,
    pub media_role: String,
}

/// The Drive metadata a drive-backed resource carries.
pub open spec fn drive_metadata(
    space_id: Seq<char>,
    node_id: Seq<char>,
    node_version: Option<Seq<char>>,
) -> JsonView {
    let base = seq![
        ("spaceId"@, JsonView::Str(space_id)),
        ("spaceType"@, JsonView::Str("rtc"@)),
        ("nodeId"@, JsonView::Str(node_id)),
    ];
    JsonView::Object(
        seq![
            (
                "drive"@,
                JsonView::Object(
                    match node_version {
                        Some(v) => base.push(("nodeVersion"@, JsonView::Str(v))),
                        None => base,
                    },
                ),
            ),
        ],
    )
}

/// The recording `drive_backed_recording` builds.
pub open spec fn drive_backed_fields(
    a: RtcRecordingArtifact,
    tenant_id: Seq<char>,
    rtc_session_id: Seq<char>,
    space_id: Seq<char>,
    node_id: Seq<char>,
    node_version: Option<Seq<char>>,
) -> bool {
    &&& a.tenant_id@ == tenant_id
    &&& a.rtc_session_id@ == rtc_session_id
    &&& a.drive.space_id@ == space_id
    &&& a.drive.space_type == RtcDriveSpaceType::Rtc
    &&& a.drive.node_id@ == node_id
    &&& opt_view(a.drive.node_version) == node_version
    &&& a.drive.drive_uri@ == canonical_drive_uri(space_id, node_id)
    &&& opt_view(a.resource.id) == Some(node_id)
    &&& a.resource.source == RtcMediaSource::Drive
    &&& opt_view(a.resource.uri) == Some(canonical_drive_uri(space_id, node_id))
    &&& a.resource.metadata matches Some(m) && m@ == drive_metadata(space_id, node_id, node_version)
    &&& a.media_role@ == "rtc_recording"@
}

fn drive_metadata_value(space_id: &str, node_id: &str, node_version: &Option<String>) -> (res: JsonValue)
    ensures
        res@ == drive_metadata(space_id@, node_id@, opt_view(*node_version)),
{
    let mut inner: Vec<JsonMember> = Vec::new();
    inner.push(member("spaceId", JsonValue::Str(owned(space_id))));
    inner.push(member("spaceType", JsonValue::Str(owned("rtc"))));
    inner.push(member("nodeId", JsonValue::Str(owned(node_id))));
    match node_version {
        Some(v) => inner.push(member("nodeVersion", JsonValue::Str(owned(v.as_str())))),
        None => {},
    }
    let drive = JsonValue::Object(inner);
    proof {
        let target = drive_metadata(space_id@, node_id@, opt_view(*node_version));
        let inner_target = match target {
            JsonView::Object(ts) => ts[0].1,
            _ => JsonView::Null,
        };
        let ms = match drive@ {
            JsonView::Object(ms) => ms,
            _ => Seq::empty(),
        };
        let ts = match inner_target {
            JsonView::Object(ts) => ts,
            _ => Seq::empty(),
        };
        assert(ms.len() == ts.len());
        assert forall|k: int| 0 <= k < ms.len() implies ms[k] == ts[k] by {
            assert(ms[k] == (inner@[k].key@, json_view(inner@[k].value)));
        }
        assert(ms =~= ts);
    }
    let mut outer: Vec<JsonMember> = Vec::new();
    outer.push(member("drive", drive));
    let res = JsonValue::Object(outer);
    proof {
        let ms = match res@ {
            JsonView::Object(ms) => ms,
            _ => Seq::empty(),
        };
        assert(ms[0] == (outer@[0].key@, json_view(outer@[0].value)));
        assert(ms =~= seq![("drive"@, drive@)]);
    }
    res
}

impl RtcRecordingArtifact {
    /// A recording stored as the Drive node `node_id` of the RTC space `space_id`: the
    /// resource snapshot points at the node's canonical URI and carries its Drive metadata.
    pub fn drive_backed_recording(
        tenant_id: &str,
        rtc_session_id: &str,
        space_id: &str,
        node_id: String,
        node_version: Option<String>,
    ) -> (res: Self)
        ensures
            drive_backed_fields(res, tenant_id@, rtc_session_id@, space_id@, node_id@, opt_view(node_version)),
    {
        let drive_uri = canonical_uri(space_id, node_id.as_str());
        let metadata = drive_metadata_value(space_id, node_id.as_str(), &node_version);
        let resource = RtcMediaResource {
            id: Some(owned(node_id.as_str())),
            source: RtcMediaSource::Drive,
            uri: Some(owned(drive_uri.as_str())),
            metadata: Some(metadata),
        };
        RtcRecordingArtifact {
            tenant_id: owned(tenant_id),
            rtc_session_id: owned(rtc_session_id),
            drive: RtcDriveReference {
                space_id: owned(space_id),
                space_type: RtcDriveSpaceType::Rtc,
                node_id,
                node_version,
                drive_uri,
            },
            resource,
            media_role: owned("rtc_recording"),
        }
    }
}

/// `node_{rtc_session_id}`.
pub open spec fn recording_node_id(rtc_session_id: Seq<char>) -> Seq<char> {
    "node_"@ + rtc_session_id
}

/// Exports the recording of a session as the Drive node `node_{rtc_session_id}` in the
/// space `space_rtc_recordings`.
pub fn export_recording_artifact(tenant_id: &str, rtc_session_id: &str) -> (res: Result<Option<RtcRecordingArtifact>, RtcContractError>)
    ensures
        res matches Ok(Some(a)) && drive_backed_fields(
            a,
            tenant_id@,
            rtc_session_id@,
            "space_rtc_recordings"@,
            recording_node_id(rtc_session_id@),
            None,
        ),
{
    let mut node_id = owned("node_");
    push_str(&mut node_id, rtc_session_id);
    Ok(Some(RtcRecordingArtifact::drive_backed_recording(tenant_id, rtc_session_id, "space_rtc_recordings", node_id, None)))
}

/// The check of one Drive metadata member: a string equal to `expected`.
pub open spec fn metadata_string_check(value: Option<JsonView>, field: Seq<char>, expected: Seq<char>) -> Result<(), StorageFault> {
    match value {
        Some(JsonView::Str(actual)) => if actual == expected {
            Ok(())
        } else {
            Err(invalid_value(field, actual))
        },
        _ => Err(invalid_value(field, "<missing>"@)),
    }
}

/// The check of the Drive reference of an artifact.
pub open spec fn drive_reference_check(d: RtcDriveReference) -> Result<(), StorageFault> {
    if d.drive_uri@ != canonical_drive_uri(d.space_id@, d.node_id@) {
        Err(invalid_value("drive_uri"@, d.drive_uri@))
    } else {
        Ok(())
    }
}

/// The check of the Drive metadata object of an artifact.
pub open spec fn drive_metadata_check(dm: JsonView, d: RtcDriveReference) -> Result<(), StorageFault> {
    match metadata_string_check(json_get(dm, "spaceId"@), "media_resource_metadata.drive.space_id"@, d.space_id@) {
        Err(e) => Err(e),
        Ok(_) => match metadata_string_check(json_get(dm, "spaceType"@), "media_resource_metadata.drive.space_type"@, "rtc"@) {
            Err(e) => Err(e),
            Ok(_) => match metadata_string_check(json_get(dm, "nodeId"@), "media_resource_metadata.drive.node_id"@, d.node_id@) {
                Err(e) => Err(e),
                Ok(_) => match opt_view(d.node_version) {
                    Some(v) => metadata_string_check(json_get(dm, "nodeVersion"@), "media_resource_metadata.drive.node_version"@, v),
                    None => Ok(()),
                },
            },
        },
    }
}

/// What a stored artifact must satisfy to be Drive-backed: a canonical Drive reference, a
/// resource served from Drive under the node's id and URI, and Drive metadata naming the
/// same space, space type, node and (when known) node version. The first failing check
/// decides the error.
pub open spec fn drive_snapshot_check(a: RtcMediaArtifact) -> Result<(), StorageFault> {
    let d = a.drive;
    let r = a.resource;
    match drive_reference_check(d) {
        Err(e) => Err(e),
        Ok(_) => if r.source != RtcMediaSource::Drive {
            Err(invalid_value("media_resource_source"@, media_source_name(r.source)))
        } else {
            match opt_view(r.id) {
                None => Err(invalid_value("media_resource_id"@, "<missing>"@)),
                Some(id) => if id != d.node_id@ {
                    Err(invalid_value("media_resource_id"@, id))
                } else {
                    match opt_view(r.uri) {
                        None => Err(invalid_value("media_resource_uri"@, "<missing>"@)),
                        Some(uri) => if uri != d.drive_uri@ {
                            Err(invalid_value("media_resource_uri"@, uri))
                        } else {
                            match r.metadata {
                                None => Err(invalid_value("media_resource_metadata.drive"@, "<missing>"@)),
                                Some(m) => match json_get(m@, "drive"@) {
                                    Some(JsonView::Object(members)) => drive_metadata_check(JsonView::Object(members), d),
                                    _ => Err(invalid_value("media_resource_metadata.drive"@, "<missing>"@)),
                                },
                            }
                        },
                    }
                },
            }
        },
    }
}

/// The storage view of a check result.
pub open spec fn check_view(r: Result<(), RtcStorageError>) -> Result<(), StorageFault> {
    match r {
        Ok(_) => Ok(()),
        Err(e) => Err(e@),
    }
}

fn invalid(field: &'static str, value: &str) -> (res: RtcStorageError)
    ensures
        res@ == invalid_value(field@, value@),
{
    RtcStorageError::InvalidEnumValue { field, value: owned(value) }
}

/// Checks that a Drive reference is canonical.
pub fn validate_rtc_drive_reference(drive: &RtcDriveReference) -> (res: Result<(), RtcStorageError>)
    ensures
        check_view(res) == drive_reference_check(*drive),
{
    if !drive.is_canonical() {
        return Err(invalid("drive_uri", drive.drive_uri.as_str()));
    }
    Ok(())
}

/// Checks one Drive metadata member against the value the reference holds.
pub fn validate_drive_metadata_string(
    value: Option<&JsonValue>,
    field: &'static str,
    expected: &str,
) -> (res: Result<(), RtcStorageError>)
    ensures
        check_view(res) == metadata_string_check(
            match value {
                Some(v) => Some(v@),
                None => None,
            },
            field@,
            expected@,
        ),
{
    match value {
        Some(JsonValue::Str(actual)) => if str_eq(actual.as_str(), expected) {
            Ok(())
        } else {
            Err(invalid(field, actual.as_str()))
        },
        _ => Err(invalid(field, "<missing>")),
    }
}

/// Checks that a stored artifact is Drive-backed (see [`drive_snapshot_check`]).
pub fn validate_rtc_media_artifact_drive_snapshot(artifact: &RtcMediaArtifact) -> (res: Result<(), RtcStorageError>)
    ensures
        check_view(res) == drive_snapshot_check(*artifact),
{
    let drive = &artifact.drive;
    let resource = &artifact.resource;
    if !drive.is_canonical() {
        return Err(invalid("drive_uri", drive.drive_uri.as_str()));
    }
    match resource.source {
        RtcMediaSource::Drive => {},
        _ => {
            let name = media_source_text(resource.source);
            return Err(invalid("media_resource_source", name.as_str()));
        },
    }
    match &resource.id {
        Some(resource_id) => if !str_eq(resource_id.as_str(), drive.node_id.as_str()) {
            return Err(invalid("media_resource_id", resource_id.as_str()));
        },
        None => {
            return Err(invalid("media_resource_id", "<missing>"));
        },
    }
    match &resource.uri {
        Some(resource_uri) => if !str_eq(resource_uri.as_str(), drive.drive_uri.as_str()) {
            return Err(invalid("media_resource_uri", resource_uri.as_str()));
        },
        None => {
            return Err(invalid("media_resource_uri", "<missing>"));
        },
    }
    let metadata = match &resource.metadata {
        Some(m) => m,
        None => {
            return Err(invalid("media_resource_metadata.drive", "<missing>"));
        },
    };
    let drive_metadata = match json_lookup(metadata, "drive") {
        Some(v) => match v {
            JsonValue::Object(_) => v,
            _ => {
                return Err(invalid("media_resource_metadata.drive", "<missing>"));
            },
        },
        None => {
            return Err(invalid("media_resource_metadata.drive", "<missing>"));
        },
    };
    let space = json_lookup(drive_metadata, "spaceId");
    let checked = validate_drive_metadata_string(space, "media_resource_metadata.drive.space_id", drive.space_id.as_str());
    if checked.is_err() {
        return checked;
    }
    let space_type = json_lookup(drive_metadata, "spaceType");
    let checked = validate_drive_metadata_string(
        space_type,
        "media_resource_metadata.drive.space_type",
        drive.space_type.as_str(),
    );
    if checked.is_err() {
        return checked;
    }
    let node = json_lookup(drive_metadata, "nodeId");
    let checked = validate_drive_metadata_string(node, "media_resource_metadata.drive.node_id", drive.node_id.as_str());
    if checked.is_err() {
        return checked;
    }
    match &drive.node_version {
        Some(node_version) => {
            let version = json_lookup(drive_metadata, "nodeVersion");
            validate_drive_metadata_string(
                version,
                "media_resource_metadata.drive.node_version",
                node_version.as_str(),
            )
        },
        None => Ok(()),
    }
}

} // verus!
