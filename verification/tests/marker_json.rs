use beans_rs::version::{
    get_current_version, install_state, update_version_file, AdastralVersionFile, InstallProbe,
    InstallType, MigrationStep,
};
use serde_json::Value;

/// The text of the marker file, as the JSON writer puts it.
fn to_json(marker: &AdastralVersionFile) -> String {
    let mut object = serde_json::Map::new();
    object.insert("version".to_string(), Value::String(marker.version.clone()));
    serde_json::to_string(&Value::Object(object)).unwrap()
}

/// The marker that the text of a marker file holds.
fn from_json(text: &str) -> AdastralVersionFile {
    let value: Value = serde_json::from_str(text).unwrap();
    AdastralVersionFile { version: value.get("version").unwrap().as_str().unwrap().to_string() }
}

#[test]
fn marker_file_holds_the_version_as_a_string() {
    assert_eq!(to_json(&AdastralVersionFile::new(5)), "{\"version\":\"5\"}");
    assert_eq!(to_json(&AdastralVersionFile::new(120)), "{\"version\":\"120\"}");
}

#[test]
fn marker_file_round_trip() {
    for version in [0usize, 5, 17, 4096] {
        let text = to_json(&AdastralVersionFile::new(version));
        let read = from_json(&text);
        assert_eq!(get_current_version(InstallType::Adastral, Some(&read)), Ok(Some(version)));
    }
}

#[test]
fn marker_file_written_by_hand_is_read() {
    let read = from_json("{ \"version\" : \"12\", \"note\": \"kept\" }");
    assert_eq!(get_current_version(InstallType::Adastral, Some(&read)), Ok(Some(12)));
}

#[test]
fn migration_leaves_a_json_marker_with_the_legacy_version() {
    let before = install_state(InstallProbe { marker: false, legacy_marker: true, gameinfo: true });
    assert_eq!(before, InstallType::OtherSource);
    let steps = update_version_file(before, Some("/sourcemods"), "/open_fortress/", "5").unwrap();
    assert_eq!(steps.len(), 2);
    let written = match &steps[0] {
        MigrationStep::WriteMarker { location, marker } => {
            assert_eq!(location, "/sourcemods/open_fortress/.adastral");
            to_json(marker)
        }
        other => panic!("the marker is written first, not {other:?}"),
    };
    assert_eq!(written, "{\"version\":\"5\"}");
    assert_eq!(
        steps[1],
        MigrationStep::DeleteLegacy { location: "/sourcemods/open_fortress/.revision".to_string() }
    );
    let after = install_state(InstallProbe { marker: true, legacy_marker: false, gameinfo: true });
    assert_eq!(get_current_version(after, Some(&from_json(&written))), Ok(Some(5)));
}
