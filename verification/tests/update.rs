use beans_rs::butler::{PatchRequest, VerifyRequest};
use beans_rs::ctx::{Configuration, RunnerContext};
use beans_rs::error::{BeansError, DownloadFailureReason};
use beans_rs::version::{RemotePatch, RemoteVersion, RemoteVersionResponse};
use beans_rs::workflows::update::{UpdatePlan, UpdateStage, UpdateWorkflow};
use beans_rs::workflows::{Notice, WorkflowAction, WorkflowEvent, WorkflowOutcome, WorkflowStep};
use std::collections::HashMap;

const ROOT: &str = "/home/player/sourcemods/";
const MOD_DIR: &str = "/home/player/sourcemods/open_fortress/";
const STAGING: &str = "/home/player/sourcemods/butler-staging";
const GAMEINFO: &str = "/home/player/sourcemods/open_fortress/gameinfo.txt";

fn bare_record() -> RemoteVersion {
    RemoteVersion { url: None, file: None, pre_sz: None, post_sz: None, signature_url: None, heal_url: None }
}

fn signed_record(signature: &str, heal: &str) -> RemoteVersion {
    RemoteVersion {
        signature_url: Some(signature.to_string()),
        heal_url: Some(heal.to_string()),
        ..bare_record()
    }
}

fn example_catalog() -> RemoteVersionResponse {
    let mut versions = HashMap::new();
    versions.insert(1, signed_record("sig1", "heal1"));
    versions.insert(2, signed_record("sig2", "heal2"));
    let mut patches = HashMap::new();
    patches.insert(
        1,
        RemotePatch { url: "patches/one".to_string(), file: "of-1to2.pwr".to_string(), tempreq: 1000 },
    );
    RemoteVersionResponse { versions, patches }
}

fn session(catalog: RemoteVersionResponse, current_version: Option<usize>) -> RunnerContext {
    RunnerContext {
        sourcemod_path: ROOT.to_string(),
        remote_version_list: catalog,
        current_version,
        config: Configuration {
            base_url: "https://updates.example/".to_string(),
            data_dir: "/open_fortress/".to_string(),
            staging_dir: "/butler-staging".to_string(),
            config_file: "gameinfo.txt".to_string(),
        },
    }
}

fn example_verify() -> VerifyRequest {
    VerifyRequest {
        signature_url: "https://updates.example/sig1".to_string(),
        target_dir: MOD_DIR.to_string(),
        heal_url: "https://updates.example/heal1".to_string(),
    }
}

fn example_patch() -> PatchRequest {
    PatchRequest {
        patch_url: "https://updates.example/of-1to2.pwr".to_string(),
        staging_dir: STAGING.to_string(),
        patch_file: "of-1to2.pwr".to_string(),
        target_dir: MOD_DIR.to_string(),
    }
}

fn silent(action: WorkflowAction) -> WorkflowStep {
    WorkflowStep { notice: None, action }
}

fn finish(outcome: WorkflowOutcome) -> WorkflowStep {
    silent(WorkflowAction::Finish { outcome })
}

fn engine_failure() -> BeansError {
    BeansError::PatchEngineFailure { detail: "exit status 1".to_string() }
}

fn failed(error: BeansError) -> WorkflowEvent {
    WorkflowEvent::Failed { error }
}

/// Feeds `events` to an update of `ctx` and collects every step.
fn run(ctx: RunnerContext, events: Vec<WorkflowEvent>) -> (UpdateWorkflow, Vec<WorkflowStep>) {
    let (mut workflow, first) = UpdateWorkflow::wizard(ctx);
    let mut steps = vec![first];
    for event in events {
        let (next, step) = workflow.resume(event);
        workflow = next;
        steps.push(step);
    }
    (workflow, steps)
}

fn calls_engine(step: &WorkflowStep) -> bool {
    matches!(step.action, WorkflowAction::Verify { .. } | WorkflowAction::ApplyPatch { .. })
}

fn uses_network(step: &WorkflowStep) -> bool {
    calls_engine(step)
        || matches!(step.action, WorkflowAction::FetchPackage { .. } | WorkflowAction::ReportError { .. })
}

#[test]
fn update_plan_of_the_example() {
    let plan = UpdateWorkflow::plan(&session(example_catalog(), Some(1)));
    assert_eq!(
        plan,
        Ok(UpdatePlan {
            space_location: ROOT.to_string(),
            required: 1000,
            config_location: GAMEINFO.to_string(),
            verify: example_verify(),
            patch: example_patch(),
        })
    );
}

#[test]
fn update_of_the_example_verifies_then_patches() {
    let config = b"\"GameInfo\" { game \"Example\" }".to_vec();
    let (workflow, steps) = run(
        session(example_catalog(), Some(1)),
        vec![
            WorkflowEvent::FreeSpace { available: 1000 },
            WorkflowEvent::Done,
            WorkflowEvent::ConfigBackup { content: Some(config.clone()) },
            WorkflowEvent::Done,
            WorkflowEvent::Done,
            WorkflowEvent::Done,
            WorkflowEvent::Done,
        ],
    );
    assert_eq!(
        steps,
        vec![
            silent(WorkflowAction::CheckFreeSpace { location: ROOT.to_string(), required: 1000 }),
            silent(WorkflowAction::NormalizePermissions { location: GAMEINFO.to_string() }),
            silent(WorkflowAction::BackupConfig { location: GAMEINFO.to_string() }),
            silent(WorkflowAction::Verify { request: example_verify() }),
            silent(WorkflowAction::ApplyPatch { request: example_patch() }),
            silent(WorkflowAction::RestoreConfig { location: GAMEINFO.to_string(), content: config }),
            silent(WorkflowAction::NormalizePermissions { location: GAMEINFO.to_string() }),
            finish(WorkflowOutcome::Completed),
        ]
    );
    assert_eq!(workflow.ctx, session(example_catalog(), Some(1)));
    assert_eq!(workflow.stage, UpdateStage::Finished { outcome: WorkflowOutcome::Completed });
}

#[test]
fn update_without_a_configuration_file_restores_nothing() {
    let (_, steps) = run(
        session(example_catalog(), Some(1)),
        vec![
            WorkflowEvent::FreeSpace { available: 1 << 30 },
            WorkflowEvent::Done,
            WorkflowEvent::ConfigBackup { content: None },
            WorkflowEvent::Done,
            WorkflowEvent::Done,
            WorkflowEvent::Done,
        ],
    );
    assert_eq!(steps.len(), 7);
    assert!(steps.iter().all(|step| !matches!(step.action, WorkflowAction::RestoreConfig { .. })));
    assert_eq!(steps[4], silent(WorkflowAction::ApplyPatch { request: example_patch() }));
    assert_eq!(steps[5], silent(WorkflowAction::NormalizePermissions { location: GAMEINFO.to_string() }));
    assert_eq!(steps[6], finish(WorkflowOutcome::Completed));
}

#[test]
fn update_with_little_space_warns_and_goes_on() {
    let (_, steps) = run(
        session(example_catalog(), Some(1)),
        vec![WorkflowEvent::FreeSpace { available: 999 }, WorkflowEvent::Done],
    );
    assert_eq!(
        steps[1],
        WorkflowStep {
            notice: Some(Notice::LowDiskSpace { required: 1000, available: 999 }),
            action: WorkflowAction::NormalizePermissions { location: GAMEINFO.to_string() },
        }
    );
    assert_eq!(steps[2], silent(WorkflowAction::BackupConfig { location: GAMEINFO.to_string() }));
}

#[test]
fn update_when_not_installed_does_nothing() {
    let (workflow, steps) = run(
        session(example_catalog(), None),
        vec![WorkflowEvent::Done, WorkflowEvent::FreeSpace { available: 5 }, failed(engine_failure())],
    );
    assert!(steps.iter().all(|step| *step == finish(WorkflowOutcome::NotInstalled)));
    assert!(steps.iter().all(|step| !uses_network(step) && !calls_engine(step)));
    assert!(WorkflowOutcome::NotInstalled.is_success());
    assert_eq!(WorkflowOutcome::NotInstalled.into_result(), Ok(()));
    assert_eq!(workflow.ctx, session(example_catalog(), None));
}

#[test]
fn update_when_not_installed_ignores_the_catalog() {
    let empty = RemoteVersionResponse { versions: HashMap::new(), patches: HashMap::new() };
    let (_, first) = UpdateWorkflow::wizard(session(empty, None));
    assert_eq!(first, finish(WorkflowOutcome::NotInstalled));
}

#[test]
fn update_when_current_is_latest_does_nothing() {
    let (_, steps) = run(session(example_catalog(), Some(2)), vec![WorkflowEvent::Done, WorkflowEvent::Done]);
    assert!(steps.iter().all(|step| *step == finish(WorkflowOutcome::NoPatchAvailable)));
    assert!(steps.iter().all(|step| !calls_engine(step)));
    assert!(WorkflowOutcome::NoPatchAvailable.is_success());
}

#[test]
fn update_without_a_published_patch_does_nothing() {
    let mut catalog = example_catalog();
    catalog.versions.insert(3, signed_record("sig3", "heal3"));
    let (_, first) = UpdateWorkflow::wizard(session(catalog, Some(1)));
    assert_eq!(first, finish(WorkflowOutcome::NoPatchAvailable));
}

#[test]
fn update_without_remote_files_does_nothing() {
    for (signature, heal) in [(None, Some("heal1")), (Some("sig1"), None), (None, None)] {
        let mut catalog = example_catalog();
        let record = catalog.versions.get_mut(&1).unwrap();
        record.signature_url = signature.map(str::to_string);
        record.heal_url = heal.map(str::to_string);
        let (_, steps) = run(session(catalog, Some(1)), vec![WorkflowEvent::Done]);
        assert!(steps.iter().all(|step| *step == finish(WorkflowOutcome::MissingRemoteFiles)));
    }
    assert!(WorkflowOutcome::MissingRemoteFiles.is_success());
}

#[test]
fn update_of_a_version_unknown_to_the_catalog_fails() {
    let mut catalog = example_catalog();
    catalog.versions.remove(&1);
    let (_, steps) = run(session(catalog, Some(1)), vec![WorkflowEvent::Done]);
    let outcome = WorkflowOutcome::Failed { error: BeansError::RemoteVersionNotFound { version: 1 } };
    assert_eq!(steps, vec![finish(outcome.clone()), finish(outcome)]);
}

#[test]
fn update_of_an_unknown_version_without_a_patch_does_nothing() {
    let mut catalog = example_catalog();
    catalog.versions.remove(&1);
    catalog.patches.clear();
    let (_, first) = UpdateWorkflow::wizard(session(catalog, Some(1)));
    assert_eq!(first, finish(WorkflowOutcome::NoPatchAvailable));
}

#[test]
fn update_looks_at_the_current_record_not_the_latest() {
    let mut catalog = example_catalog();
    catalog.versions.insert(2, bare_record());
    let (_, first) = UpdateWorkflow::wizard(session(catalog, Some(1)));
    assert_eq!(first, silent(WorkflowAction::CheckFreeSpace { location: ROOT.to_string(), required: 1000 }));
}

#[test]
fn update_on_an_empty_catalog_fails() {
    let empty = RemoteVersionResponse { versions: HashMap::new(), patches: HashMap::new() };
    let (_, first) = UpdateWorkflow::wizard(session(empty, Some(1)));
    assert_eq!(first, finish(WorkflowOutcome::Failed { error: BeansError::EmptyManifest }));
    assert_eq!(
        WorkflowOutcome::Failed { error: BeansError::EmptyManifest }.into_result(),
        Err(BeansError::EmptyManifest)
    );
}

#[test]
fn update_gives_up_when_verification_fails() {
    let (workflow, steps) = run(
        session(example_catalog(), Some(1)),
        vec![
            WorkflowEvent::FreeSpace { available: 5000 },
            WorkflowEvent::Done,
            WorkflowEvent::ConfigBackup { content: Some(vec![1, 2, 3]) },
            failed(engine_failure()),
            WorkflowEvent::Done,
        ],
    );
    assert_eq!(steps[3], silent(WorkflowAction::Verify { request: example_verify() }));
    assert_eq!(steps[4], silent(WorkflowAction::ReportError { error: engine_failure() }));
    assert_eq!(steps[5], finish(WorkflowOutcome::Failed { error: engine_failure() }));
    assert!(steps.iter().all(|step| !matches!(step.action, WorkflowAction::ApplyPatch { .. })));
    assert_eq!(workflow.ctx.current_version, Some(1));
}

#[test]
fn update_gives_up_when_the_patch_fails() {
    let download = BeansError::DownloadFailure {
        reason: DownloadFailureReason::Network {
            url: "https://updates.example/of-1to2.pwr".to_string(),
            detail: "connection reset".to_string(),
        },
    };
    let (workflow, steps) = run(
        session(example_catalog(), Some(1)),
        vec![
            WorkflowEvent::FreeSpace { available: 5000 },
            WorkflowEvent::Done,
            WorkflowEvent::ConfigBackup { content: Some(vec![1, 2, 3]) },
            WorkflowEvent::Done,
            failed(download.clone()),
            failed(BeansError::ManifestParseFailure { detail: "the report itself failed".to_string() }),
        ],
    );
    assert_eq!(steps[4], silent(WorkflowAction::ApplyPatch { request: example_patch() }));
    assert_eq!(steps[5], silent(WorkflowAction::ReportError { error: download.clone() }));
    assert_eq!(steps[6], finish(WorkflowOutcome::Failed { error: download }));
    assert!(steps.iter().all(|step| !matches!(step.action, WorkflowAction::RestoreConfig { .. })));
    assert_eq!(workflow.ctx.current_version, Some(1));
}

#[test]
fn update_treats_permission_and_restore_failures_as_fatal() {
    let permission = BeansError::PermissionFailure { location: GAMEINFO.to_string(), detail: "read-only".to_string() };
    let (_, steps) = run(
        session(example_catalog(), Some(1)),
        vec![WorkflowEvent::FreeSpace { available: 5000 }, failed(permission.clone()), WorkflowEvent::Done],
    );
    assert_eq!(steps[2], silent(WorkflowAction::ReportError { error: permission.clone() }));
    assert_eq!(steps[3], finish(WorkflowOutcome::Failed { error: permission }));

    let write = BeansError::FileWriteFailure { location: GAMEINFO.to_string(), detail: "disk full".to_string() };
    let (_, steps) = run(
        session(example_catalog(), Some(1)),
        vec![
            WorkflowEvent::FreeSpace { available: 5000 },
            WorkflowEvent::Done,
            WorkflowEvent::ConfigBackup { content: Some(vec![7]) },
            WorkflowEvent::Done,
            WorkflowEvent::Done,
            failed(write.clone()),
            WorkflowEvent::Done,
        ],
    );
    assert_eq!(steps[5], silent(WorkflowAction::RestoreConfig { location: GAMEINFO.to_string(), content: vec![7] }));
    assert_eq!(steps[6], silent(WorkflowAction::ReportError { error: write.clone() }));
    assert_eq!(steps[7], finish(WorkflowOutcome::Failed { error: write }));
}

#[test]
fn update_asks_again_after_an_event_that_is_no_answer() {
    let (workflow, steps) = run(
        session(example_catalog(), Some(1)),
        vec![
            WorkflowEvent::Done,
            WorkflowEvent::PackageProbed { exists: true },
            WorkflowEvent::FreeSpace { available: 5000 },
            WorkflowEvent::FreeSpace { available: 5000 },
        ],
    );
    let check = silent(WorkflowAction::CheckFreeSpace { location: ROOT.to_string(), required: 1000 });
    let permissions = silent(WorkflowAction::NormalizePermissions { location: GAMEINFO.to_string() });
    assert_eq!(steps, vec![check.clone(), check.clone(), check, permissions.clone(), permissions]);
    assert!(matches!(workflow.stage, UpdateStage::OpeningPermissions { .. }));
}

#[test]
fn update_finished_stays_finished() {
    let (_, steps) = run(
        session(example_catalog(), Some(1)),
        vec![
            WorkflowEvent::FreeSpace { available: 5000 },
            WorkflowEvent::Done,
            WorkflowEvent::ConfigBackup { content: None },
            WorkflowEvent::Done,
            WorkflowEvent::Done,
            WorkflowEvent::Done,
            WorkflowEvent::Done,
            failed(engine_failure()),
            WorkflowEvent::FreeSpace { available: 0 },
        ],
    );
    assert_eq!(steps[6], finish(WorkflowOutcome::Completed));
    assert_eq!(steps[7], finish(WorkflowOutcome::Completed));
    assert_eq!(steps[8], finish(WorkflowOutcome::Completed));
    assert_eq!(steps[9], finish(WorkflowOutcome::Completed));
}

#[test]
fn update_stage_names_what_it_waits_for() {
    let plan = UpdateWorkflow::plan(&session(example_catalog(), Some(1))).unwrap();
    let stage = UpdateStage::Patching { plan, backup: None };
    assert_eq!(stage.pending(), WorkflowAction::ApplyPatch { request: example_patch() });
    let stage = UpdateStage::Reporting { error: engine_failure() };
    assert_eq!(stage.pending(), WorkflowAction::ReportError { error: engine_failure() });
}
