use beans_rs::ctx::{Configuration, RunnerContext};
use beans_rs::error::BeansError;
use beans_rs::version::{
    get_current_version, get_legacy_version_location, get_mod_location, get_version_list_location,
    get_version_location, install_state, update_version_file, AdastralVersionFile, InstallProbe, InstallType,
    InstallationFiles, MarkerWrite, MigrationStep, RemoteVersionResponse,
};
use std::collections::HashMap;

fn marker(text: &str) -> AdastralVersionFile {
    AdastralVersionFile { version: text.to_string() }
}

fn probe(marker: bool, legacy_marker: bool, gameinfo: bool) -> InstallProbe {
    InstallProbe { marker, legacy_marker, gameinfo }
}

#[test]
fn install_state_goes_by_the_markers() {
    assert_eq!(install_state(probe(false, false, false)), InstallType::NotInstalled);
    assert_eq!(install_state(probe(false, false, true)), InstallType::OtherSourceManual);
    assert_eq!(install_state(probe(false, true, false)), InstallType::OtherSource);
    assert_eq!(install_state(probe(false, true, true)), InstallType::OtherSource);
    assert_eq!(install_state(probe(true, false, false)), InstallType::Adastral);
    assert_eq!(install_state(probe(true, true, true)), InstallType::Adastral);
}

#[test]
fn marker_locations() {
    assert_eq!(get_mod_location("/sourcemods/", "/open_fortress/"), "/sourcemods/open_fortress/");
    assert_eq!(
        get_version_location(Some("/sourcemods/"), "/open_fortress/"),
        Some("/sourcemods/open_fortress/.adastral".to_string())
    );
    assert_eq!(get_version_location(None, "/open_fortress/"), None);
    assert_eq!(
        get_legacy_version_location("/sourcemods", "/open_fortress/"),
        "/sourcemods/open_fortress/.revision"
    );
}

#[test]
fn catalog_location() {
    assert_eq!(get_version_list_location("https://updates.example/"), "https://updates.example/versions.json");
}

#[test]
fn marker_for_a_version_holds_its_decimal_text() {
    assert_eq!(AdastralVersionFile::new(5), marker("5"));
    assert_eq!(AdastralVersionFile::new(0), marker("0"));
    assert_eq!(AdastralVersionFile::new(120), marker("120"));
}

#[test]
fn current_version_is_read_off_the_marker() {
    assert_eq!(get_current_version(InstallType::Adastral, Some(&marker("12"))), Ok(Some(12)));
    assert_eq!(get_current_version(InstallType::Adastral, Some(&marker("0"))), Ok(Some(0)));
}

#[test]
fn current_version_is_unknown_without_a_marker() {
    assert_eq!(get_current_version(InstallType::Adastral, None), Ok(None));
    assert_eq!(get_current_version(InstallType::NotInstalled, None), Ok(None));
    assert_eq!(get_current_version(InstallType::OtherSource, Some(&marker("12"))), Ok(None));
    assert_eq!(get_current_version(InstallType::OtherSourceManual, Some(&marker("12"))), Ok(None));
    assert_eq!(get_current_version(InstallType::NotInstalled, Some(&marker("junk"))), Ok(None));
}

#[test]
fn corrupt_marker_is_an_error() {
    assert_eq!(
        get_current_version(InstallType::Adastral, Some(&marker("twelve"))),
        Err(BeansError::VersionMarkerCorrupt { content: "twelve".to_string() })
    );
    assert_eq!(
        get_current_version(InstallType::Adastral, Some(&marker(""))),
        Err(BeansError::VersionMarkerCorrupt { content: String::new() })
    );
}

#[test]
fn marker_round_trip() {
    for version in [0usize, 1, 5, 42, 1000, usize::MAX] {
        let written = AdastralVersionFile::new(version);
        assert_eq!(get_current_version(InstallType::Adastral, Some(&written)), Ok(Some(version)));
    }
}

#[test]
fn migration_of_a_legacy_marker() {
    let steps = update_version_file(InstallType::OtherSource, Some("/sourcemods/"), "/open_fortress/", "5").unwrap();
    assert_eq!(
        steps,
        vec![
            MigrationStep::WriteMarker {
                location: "/sourcemods/open_fortress/.adastral".to_string(),
                marker: marker("5"),
            },
            MigrationStep::DeleteLegacy { location: "/sourcemods/open_fortress/.revision".to_string() },
        ]
    );
    let written = match &steps[0] {
        MigrationStep::WriteMarker { marker, .. } => marker,
        other => panic!("the marker is written first, not {other:?}"),
    };
    let after = install_state(probe(true, false, true));
    assert_eq!(get_current_version(after, Some(written)), Ok(Some(5)));
}

#[test]
fn migration_writes_the_version_in_plain_decimal() {
    let steps = update_version_file(InstallType::OtherSource, Some("/s"), "/d/", "+007").unwrap();
    assert_eq!(
        steps[0],
        MigrationStep::WriteMarker { location: "/s/d/.adastral".to_string(), marker: marker("7") }
    );
}

#[test]
fn migration_is_due_for_legacy_installations_only() {
    for state in [InstallType::Adastral, InstallType::OtherSourceManual, InstallType::NotInstalled] {
        assert_eq!(update_version_file(state, Some("/s"), "/d/", "5"), Ok(vec![]));
        assert_eq!(update_version_file(state, Some("/s"), "/d/", "junk"), Ok(vec![]));
    }
    assert_eq!(update_version_file(InstallType::OtherSource, None, "/d/", "5"), Ok(vec![]));
}

#[test]
fn migration_of_a_corrupt_legacy_marker_is_an_error() {
    for content in ["", "five", "5\n", "-5", "5.0"] {
        assert_eq!(
            update_version_file(InstallType::OtherSource, Some("/s"), "/d/", content),
            Err(BeansError::VersionMarkerCorrupt { content: content.to_string() })
        );
    }
}

#[test]
fn marker_write_creates_or_overwrites() {
    let file = marker("9");
    assert_eq!(
        file.write(Some("/s/d/.adastral".to_string()), false),
        Ok(MarkerWrite { location: "/s/d/.adastral".to_string(), create_new: true, marker: marker("9") })
    );
    assert_eq!(
        file.write(Some("/s/d/.adastral".to_string()), true),
        Ok(MarkerWrite { location: "/s/d/.adastral".to_string(), create_new: false, marker: marker("9") })
    );
}

#[test]
fn marker_write_needs_a_location() {
    assert_eq!(marker("9").write(None, false), Err(BeansError::SourceModLocationNotFound));
    assert_eq!(marker("9").write(None, true), Err(BeansError::SourceModLocationNotFound));
}

fn config() -> Configuration {
    Configuration {
        base_url: "https://updates.example/".to_string(),
        data_dir: "/open_fortress/".to_string(),
        staging_dir: "/butler-staging".to_string(),
        config_file: "gameinfo.txt".to_string(),
    }
}

fn empty_catalog() -> RemoteVersionResponse {
    RemoteVersionResponse { versions: HashMap::new(), patches: HashMap::new() }
}

fn files(marker: Option<&str>, legacy_marker: Option<&str>, gameinfo: bool) -> InstallationFiles {
    InstallationFiles {
        marker: marker.map(self::marker),
        legacy_marker: legacy_marker.map(str::to_string),
        gameinfo,
    }
}

fn migration_to(version: &str) -> Vec<MigrationStep> {
    vec![
        MigrationStep::WriteMarker {
            location: "/sourcemods/open_fortress/.adastral".to_string(),
            marker: marker(version),
        },
        MigrationStep::DeleteLegacy { location: "/sourcemods/open_fortress/.revision".to_string() },
    ]
}

#[test]
fn probe_tells_which_files_exist() {
    assert_eq!(files(Some("1"), None, true).probe(), probe(true, false, true));
    assert_eq!(files(None, Some("1"), false).probe(), probe(false, true, false));
    assert_eq!(files(None, None, false).probe(), probe(false, false, false));
}

#[test]
fn load_reads_the_version_marker() {
    assert_eq!(files(Some("7"), None, true).load("/sourcemods/", "/open_fortress/"), Ok((Some(7), vec![])));
}

#[test]
fn load_prefers_the_version_marker_to_the_legacy_marker() {
    assert_eq!(
        files(Some("7"), Some("3"), true).load("/sourcemods/", "/open_fortress/"),
        Ok((Some(7), vec![]))
    );
    assert_eq!(
        files(Some("7"), Some("junk"), true).load("/sourcemods/", "/open_fortress/"),
        Ok((Some(7), vec![]))
    );
}

#[test]
fn load_migrates_a_legacy_marker() {
    assert_eq!(
        files(None, Some("5"), true).load("/sourcemods/", "/open_fortress/"),
        Ok((Some(5), migration_to("5")))
    );
}

#[test]
fn load_after_migration_yields_the_same_version() {
    let before = files(None, Some("5"), true);
    let (version, steps) = before.load("/sourcemods/", "/open_fortress/").unwrap();
    let written = match &steps[0] {
        MigrationStep::WriteMarker { marker, .. } => marker.clone(),
        other => panic!("the marker is written first, not {other:?}"),
    };
    let after = InstallationFiles { marker: Some(written), legacy_marker: None, gameinfo: true };
    assert_eq!(after.load("/sourcemods/", "/open_fortress/"), Ok((version, vec![])));
    assert_eq!(version, Some(5));
}

#[test]
fn load_without_markers_finds_nothing_installed() {
    assert_eq!(files(None, None, false).load("/sourcemods/", "/open_fortress/"), Ok((None, vec![])));
    assert_eq!(files(None, None, true).load("/sourcemods/", "/open_fortress/"), Ok((None, vec![])));
}

#[test]
fn load_refuses_corrupt_markers() {
    assert_eq!(
        files(Some("1.5"), None, true).load("/sourcemods/", "/open_fortress/"),
        Err(BeansError::VersionMarkerCorrupt { content: "1.5".to_string() })
    );
    assert_eq!(
        files(None, Some("five"), true).load("/sourcemods/", "/open_fortress/"),
        Err(BeansError::VersionMarkerCorrupt { content: "five".to_string() })
    );
}

#[test]
fn session_starts_with_the_recorded_version() {
    let (ctx, steps) = RunnerContext::create_auto(
        Some("/sourcemods/".to_string()),
        empty_catalog(),
        config(),
        &files(Some("3"), None, true),
    )
    .unwrap();
    assert_eq!(ctx.current_version, Some(3));
    assert_eq!(ctx.sourcemod_path, "/sourcemods/");
    assert_eq!(ctx.config, config());
    assert_eq!(ctx.remote_version_list, empty_catalog());
    assert_eq!(steps, vec![]);
}

#[test]
fn session_starts_with_the_legacy_version_and_its_migration() {
    let (ctx, steps) = RunnerContext::create_auto(
        Some("/sourcemods/".to_string()),
        empty_catalog(),
        config(),
        &files(None, Some("5"), true),
    )
    .unwrap();
    assert_eq!(ctx.current_version, Some(5));
    assert_eq!(steps, migration_to("5"));
}

#[test]
fn session_without_a_marker_has_no_version() {
    let (ctx, steps) = RunnerContext::create_auto(
        Some("/sourcemods/".to_string()),
        empty_catalog(),
        config(),
        &files(None, None, true),
    )
    .unwrap();
    assert_eq!(ctx.current_version, None);
    assert_eq!(steps, vec![]);
}

#[test]
fn session_needs_an_installation_root() {
    let session = RunnerContext::create_auto(None, empty_catalog(), config(), &files(Some("3"), None, true));
    assert_eq!(session, Err(BeansError::SourceModLocationNotFound));
}

#[test]
fn session_refuses_a_corrupt_marker() {
    let session = RunnerContext::create_auto(
        Some("/sourcemods/".to_string()),
        empty_catalog(),
        config(),
        &files(Some("3x"), None, true),
    );
    assert_eq!(session, Err(BeansError::VersionMarkerCorrupt { content: "3x".to_string() }));
}
