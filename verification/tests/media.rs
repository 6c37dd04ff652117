use sdkwork_rtc::error::RtcStorageError;
use sdkwork_rtc::json::{JsonMember, JsonValue};
use sdkwork_rtc::media::{
    canonical_uri, export_recording_artifact, str_to_drive_space_type,
    validate_drive_metadata_string, validate_rtc_drive_reference,
    validate_rtc_media_artifact_drive_snapshot, RtcDriveReference, RtcDriveSpaceType,
    RtcMediaArtifact, RtcMediaSource, RtcRecordingArtifact,
};

fn recording_artifact() -> RtcMediaArtifact {
    let recording = RtcRecordingArtifact::drive_backed_recording(
        "100",
        "session-1",
        "space-rtc-user-1",
        "node-recording-1".to_string(),
        Some("1".to_string()),
    );
    RtcMediaArtifact {
        id: "artifact-1".into(),
        drive: recording.drive,
        resource: recording.resource,
        media_role: recording.media_role,
    }
}

fn field_of(result: Result<(), RtcStorageError>) -> (&'static str, String) {
    match result {
        Err(RtcStorageError::InvalidEnumValue { field, value }) => (field, value),
        other => panic!("expected an invalid value, got {other:?}"),
    }
}

#[test]
fn drive_backed_recording_points_at_its_drive_node() {
    let artifact = recording_artifact();
    assert_eq!(artifact.drive.drive_uri, "drive://spaces/space-rtc-user-1/nodes/node-recording-1");
    assert_eq!(artifact.drive.space_type, RtcDriveSpaceType::Rtc);
    assert_eq!(artifact.drive.space_type.as_str(), "rtc");
    assert_eq!(artifact.resource.uri.as_deref(), Some("drive://spaces/space-rtc-user-1/nodes/node-recording-1"));
    assert_eq!(artifact.media_role, "rtc_recording");
    assert!(artifact.drive.is_canonical());
    assert!(validate_rtc_media_artifact_drive_snapshot(&artifact).is_ok());
}

#[test]
fn exported_recordings_pass_the_drive_snapshot_check() {
    let recording = export_recording_artifact("t_demo", "rtc_demo").unwrap().unwrap();
    assert_eq!(recording.drive.drive_uri, "drive://spaces/space_rtc_recordings/nodes/node_rtc_demo");
    let artifact = RtcMediaArtifact {
        id: "artifact-2".into(),
        drive: recording.drive,
        resource: recording.resource,
        media_role: recording.media_role,
    };
    assert!(validate_rtc_media_artifact_drive_snapshot(&artifact).is_ok());
}

#[test]
fn sqlite_repository_rejects_recording_artifact_with_mismatched_drive_resource_snapshot() {
    let mut artifact = recording_artifact();
    artifact.resource.uri = Some("drive://spaces/app-upload-space/nodes/node-recording-1".to_string());
    let (field, value) = field_of(validate_rtc_media_artifact_drive_snapshot(&artifact));
    assert_eq!(field, "media_resource_uri");
    assert_eq!(value, "drive://spaces/app-upload-space/nodes/node-recording-1");
}

#[test]
fn each_drive_snapshot_check_names_its_field() {
    let mut artifact = recording_artifact();
    artifact.drive.drive_uri = "drive://spaces/other/nodes/node-recording-1".into();
    assert_eq!(field_of(validate_rtc_media_artifact_drive_snapshot(&artifact)).0, "drive_uri");

    let mut artifact = recording_artifact();
    artifact.resource.source = RtcMediaSource::External;
    assert_eq!(
        field_of(validate_rtc_media_artifact_drive_snapshot(&artifact)),
        ("media_resource_source", "External".to_string())
    );

    let mut artifact = recording_artifact();
    artifact.resource.id = None;
    assert_eq!(
        field_of(validate_rtc_media_artifact_drive_snapshot(&artifact)),
        ("media_resource_id", "<missing>".to_string())
    );

    let mut artifact = recording_artifact();
    artifact.resource.id = Some("node-other".into());
    assert_eq!(
        field_of(validate_rtc_media_artifact_drive_snapshot(&artifact)),
        ("media_resource_id", "node-other".to_string())
    );

    let mut artifact = recording_artifact();
    artifact.resource.uri = None;
    assert_eq!(
        field_of(validate_rtc_media_artifact_drive_snapshot(&artifact)),
        ("media_resource_uri", "<missing>".to_string())
    );

    let mut artifact = recording_artifact();
    artifact.resource.metadata = None;
    assert_eq!(
        field_of(validate_rtc_media_artifact_drive_snapshot(&artifact)),
        ("media_resource_metadata.drive", "<missing>".to_string())
    );

    let mut artifact = recording_artifact();
    artifact.resource.metadata = Some(JsonValue::Object(vec![JsonMember { key: "drive".into(), value: JsonValue::Str("x".into()) }]));
    assert_eq!(field_of(validate_rtc_media_artifact_drive_snapshot(&artifact)).0, "media_resource_metadata.drive");

    let mut artifact = recording_artifact();
    artifact.drive.node_version = Some("2".into());
    assert_eq!(
        field_of(validate_rtc_media_artifact_drive_snapshot(&artifact)),
        ("media_resource_metadata.drive.node_version", "1".to_string())
    );

    let mut artifact = recording_artifact();
    artifact.resource.metadata = Some(JsonValue::Object(vec![JsonMember {
        key: "drive".into(),
        value: JsonValue::Object(vec![
            JsonMember { key: "spaceId".into(), value: JsonValue::Str("space-rtc-user-1".into()) },
            JsonMember { key: "spaceType".into(), value: JsonValue::Number("1".into()) },
        ]),
    }]));
    assert_eq!(
        field_of(validate_rtc_media_artifact_drive_snapshot(&artifact)),
        ("media_resource_metadata.drive.space_type", "<missing>".to_string())
    );
}

#[test]
fn drive_pieces_check_on_their_own() {
    let reference = RtcDriveReference {
        space_id: "s".into(),
        space_type: RtcDriveSpaceType::Rtc,
        node_id: "n".into(),
        node_version: None,
        drive_uri: canonical_uri("s", "n"),
    };
    assert_eq!(reference.drive_uri, "drive://spaces/s/nodes/n");
    assert!(validate_rtc_drive_reference(&reference).is_ok());
    let value = JsonValue::Str("rtc".into());
    assert!(validate_drive_metadata_string(Some(&value), "f", "rtc").is_ok());
    assert_eq!(field_of(validate_drive_metadata_string(Some(&value), "f", "drive")), ("f", "rtc".to_string()));
    assert_eq!(field_of(validate_drive_metadata_string(None, "f", "rtc")), ("f", "<missing>".to_string()));
    assert_eq!(str_to_drive_space_type("rtc".into()).unwrap(), RtcDriveSpaceType::Rtc);
    match str_to_drive_space_type("app".into()) {
        Err(RtcStorageError::InvalidEnumValue { field, value }) => {
            assert_eq!(field, "drive_space_type");
            assert_eq!(value, "app");
        }
        other => panic!("unexpected {other:?}"),
    }
}
