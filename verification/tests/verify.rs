use beans_rs::butler::VerifyRequest;
use beans_rs::ctx::{Configuration, RunnerContext};
use beans_rs::error::BeansError;
use beans_rs::version::{RemoteVersion, RemoteVersionResponse};
use beans_rs::workflows::verify::{VerifyPlan, VerifyStage, VerifyWorkflow};
use beans_rs::workflows::{WorkflowAction, WorkflowEvent, WorkflowOutcome, WorkflowStep};
use std::collections::HashMap;

const GAMEINFO: &str = "C:\\Steam\\sourcemods\\open_fortress\\gameinfo.txt";

fn record(signature: Option<&str>, heal: Option<&str>) -> RemoteVersion {
    RemoteVersion {
        url: Some("packages/full.tar.zstd".to_string()),
        file: Some("full.tar.zstd".to_string()),
        pre_sz: None,
        post_sz: None,
        signature_url: signature.map(str::to_string),
        heal_url: heal.map(str::to_string),
    }
}

fn session(current: RemoteVersion, current_version: Option<usize>) -> RunnerContext {
    let mut versions = HashMap::new();
    versions.insert(4, current);
    versions.insert(5, record(Some("sig5"), Some("heal5")));
    RunnerContext {
        sourcemod_path: "C:\\Steam\\sourcemods\\".to_string(),
        remote_version_list: RemoteVersionResponse { versions, patches: HashMap::new() },
        current_version,
        config: Configuration {
            base_url: "https://updates.example/".to_string(),
            data_dir: "\\open_fortress\\".to_string(),
            staging_dir: "\\butler-staging".to_string(),
            config_file: "gameinfo.txt".to_string(),
        },
    }
}

fn request() -> VerifyRequest {
    VerifyRequest {
        signature_url: "https://updates.example/sig4".to_string(),
        target_dir: "C:\\Steam\\sourcemods\\open_fortress\\".to_string(),
        heal_url: "https://updates.example/heal4".to_string(),
    }
}

fn silent(action: WorkflowAction) -> WorkflowStep {
    WorkflowStep { notice: None, action }
}

fn finish(outcome: WorkflowOutcome) -> WorkflowStep {
    silent(WorkflowAction::Finish { outcome })
}

fn run(ctx: RunnerContext, events: Vec<WorkflowEvent>) -> (VerifyWorkflow, Vec<WorkflowStep>) {
    let (mut workflow, first) = VerifyWorkflow::wizard(ctx);
    let mut steps = vec![first];
    for event in events {
        let (next, step) = workflow.resume(event);
        workflow = next;
        steps.push(step);
    }
    (workflow, steps)
}

#[test]
fn verify_plan_uses_the_installed_version() {
    let plan = VerifyWorkflow::plan(&session(record(Some("sig4"), Some("heal4")), Some(4)));
    assert_eq!(plan, Ok(VerifyPlan { config_location: GAMEINFO.to_string(), verify: request() }));
}

#[test]
fn verify_runs_the_guarded_sequence() {
    let (workflow, steps) = run(
        session(record(Some("sig4"), Some("heal4")), Some(4)),
        vec![
            WorkflowEvent::Done,
            WorkflowEvent::ConfigBackup { content: Some(vec![10, 20, 30]) },
            WorkflowEvent::Done,
            WorkflowEvent::Done,
            WorkflowEvent::Done,
        ],
    );
    assert_eq!(
        steps,
        vec![
            silent(WorkflowAction::NormalizePermissions { location: GAMEINFO.to_string() }),
            silent(WorkflowAction::BackupConfig { location: GAMEINFO.to_string() }),
            silent(WorkflowAction::Verify { request: request() }),
            silent(WorkflowAction::RestoreConfig { location: GAMEINFO.to_string(), content: vec![10, 20, 30] }),
            silent(WorkflowAction::NormalizePermissions { location: GAMEINFO.to_string() }),
            finish(WorkflowOutcome::Completed),
        ]
    );
    assert_eq!(workflow.ctx.current_version, Some(4));
}

#[test]
fn verify_without_a_configuration_file_restores_nothing() {
    let (_, steps) = run(
        session(record(Some("sig4"), Some("heal4")), Some(4)),
        vec![
            WorkflowEvent::Done,
            WorkflowEvent::ConfigBackup { content: None },
            WorkflowEvent::Done,
            WorkflowEvent::Done,
        ],
    );
    assert_eq!(steps[3], silent(WorkflowAction::NormalizePermissions { location: GAMEINFO.to_string() }));
    assert_eq!(steps[4], finish(WorkflowOutcome::Completed));
}

#[test]
fn verify_without_heal_address_does_nothing() {
    let (_, steps) = run(
        session(record(Some("sig4"), None), Some(4)),
        vec![WorkflowEvent::Done, WorkflowEvent::ConfigBackup { content: None }, WorkflowEvent::Done],
    );
    assert!(steps.iter().all(|step| *step == finish(WorkflowOutcome::MissingRemoteFiles)));
    assert!(WorkflowOutcome::MissingRemoteFiles.is_success());
}

#[test]
fn verify_without_signature_address_does_nothing() {
    let (_, first) = VerifyWorkflow::wizard(session(record(None, Some("heal4")), Some(4)));
    assert_eq!(first, finish(WorkflowOutcome::MissingRemoteFiles));
}

#[test]
fn verify_of_a_version_unknown_to_the_catalog_fails() {
    let (_, steps) = run(session(record(Some("sig4"), Some("heal4")), Some(9)), vec![WorkflowEvent::Done]);
    let outcome = WorkflowOutcome::Failed { error: BeansError::RemoteVersionNotFound { version: 9 } };
    assert_eq!(steps, vec![finish(outcome.clone()), finish(outcome)]);
}

#[test]
fn verify_when_not_installed_does_nothing() {
    let (_, steps) = run(session(record(Some("sig4"), Some("heal4")), None), vec![WorkflowEvent::Done]);
    assert!(steps.iter().all(|step| *step == finish(WorkflowOutcome::NotInstalled)));
}

#[test]
fn verify_reports_and_hands_on_a_failure() {
    let error = BeansError::PatchEngineFailure { detail: "signature mismatch".to_string() };
    let (workflow, steps) = run(
        session(record(Some("sig4"), Some("heal4")), Some(4)),
        vec![
            WorkflowEvent::Done,
            WorkflowEvent::ConfigBackup { content: Some(vec![1]) },
            WorkflowEvent::Failed { error: error.clone() },
            WorkflowEvent::Done,
        ],
    );
    assert_eq!(steps[3], silent(WorkflowAction::ReportError { error: error.clone() }));
    assert_eq!(steps[4], finish(WorkflowOutcome::Failed { error: error.clone() }));
    assert_eq!(workflow.stage, VerifyStage::Finished { outcome: WorkflowOutcome::Failed { error } });
    assert_eq!(workflow.ctx.current_version, Some(4));
}

#[test]
fn verify_asks_again_after_an_event_that_is_no_answer() {
    let (_, steps) = run(
        session(record(Some("sig4"), Some("heal4")), Some(4)),
        vec![WorkflowEvent::Done, WorkflowEvent::Done, WorkflowEvent::FreeSpace { available: 1 }],
    );
    let backup = silent(WorkflowAction::BackupConfig { location: GAMEINFO.to_string() });
    assert_eq!(steps[1], backup);
    assert_eq!(steps[2], backup);
    assert_eq!(steps[3], backup);
}
