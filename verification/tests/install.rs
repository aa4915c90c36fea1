use beans_rs::ctx::{Configuration, RunnerContext};
use beans_rs::error::{BeansError, DownloadFailureReason};
use beans_rs::version::{AdastralVersionFile, RemoteVersion, RemoteVersionResponse};
use beans_rs::workflows::install::{InstallStage, InstallWorkflow};
use beans_rs::workflows::{Notice, WorkflowAction, WorkflowEvent, WorkflowOutcome, WorkflowStep};
use std::collections::HashMap;

const ROOT: &str = "/home/player/sourcemods";
const MARKER: &str = "/home/player/sourcemods/open_fortress/.adastral";
const PACKAGE: &str = "/tmp/presz_ab12cd34ef56";

fn record(id: usize) -> RemoteVersion {
    RemoteVersion {
        url: Some(format!("packages/{id}")),
        file: Some(format!("of-{id}.tar.zstd")),
        pre_sz: Some(1 << 20),
        post_sz: Some(1 << 22),
        signature_url: None,
        heal_url: None,
    }
}

fn catalog(ids: &[usize]) -> RemoteVersionResponse {
    let mut versions = HashMap::new();
    for id in ids {
        versions.insert(*id, record(*id));
    }
    RemoteVersionResponse { versions, patches: HashMap::new() }
}

fn session(ids: &[usize], current_version: Option<usize>) -> RunnerContext {
    RunnerContext {
        sourcemod_path: ROOT.to_string(),
        remote_version_list: catalog(ids),
        current_version,
        config: Configuration {
            base_url: "https://updates.example/".to_string(),
            data_dir: "/open_fortress/".to_string(),
            staging_dir: "/butler-staging".to_string(),
            config_file: "gameinfo.txt".to_string(),
        },
    }
}

fn silent(action: WorkflowAction) -> WorkflowStep {
    WorkflowStep { notice: None, action }
}

fn finish(outcome: WorkflowOutcome) -> WorkflowStep {
    silent(WorkflowAction::Finish { outcome })
}

fn fetched() -> WorkflowEvent {
    WorkflowEvent::PackageFetched { location: PACKAGE.to_string() }
}

fn failed(detail: &str) -> (BeansError, WorkflowEvent) {
    let error = BeansError::FileWriteFailure { location: ROOT.to_string(), detail: detail.to_string() };
    (error.clone(), WorkflowEvent::Failed { error })
}

fn feed(start: (InstallWorkflow, WorkflowStep), events: Vec<WorkflowEvent>) -> (InstallWorkflow, Vec<WorkflowStep>) {
    let (mut workflow, first) = start;
    let mut steps = vec![first];
    for event in events {
        let (next, step) = workflow.resume(event);
        workflow = next;
        steps.push(step);
    }
    (workflow, steps)
}

#[test]
fn install_fetches_extracts_records_and_cleans_up() {
    let (workflow, steps) = feed(
        InstallWorkflow::wizard(session(&[3, 8, 5], None)),
        vec![
            fetched(),
            WorkflowEvent::PackageProbed { exists: true },
            WorkflowEvent::Done,
            WorkflowEvent::Done,
            WorkflowEvent::Done,
        ],
    );
    assert_eq!(
        steps,
        vec![
            silent(WorkflowAction::FetchPackage { version: record(8) }),
            silent(WorkflowAction::ProbePackage { location: PACKAGE.to_string() }),
            silent(WorkflowAction::ExtractPackage { package: PACKAGE.to_string(), out_dir: ROOT.to_string() }),
            silent(WorkflowAction::WriteMarker {
                location: MARKER.to_string(),
                marker: AdastralVersionFile { version: "8".to_string() },
            }),
            silent(WorkflowAction::DeletePackage { location: PACKAGE.to_string() }),
            finish(WorkflowOutcome::Completed),
        ]
    );
    assert_eq!(workflow.context, session(&[3, 8, 5], Some(8)));
}

#[test]
fn reinstall_takes_the_same_path_and_says_so() {
    let (workflow, steps) = feed(
        InstallWorkflow::wizard(session(&[3, 8], Some(3))),
        vec![fetched(), WorkflowEvent::PackageProbed { exists: true }, WorkflowEvent::Done],
    );
    assert_eq!(
        steps[0],
        WorkflowStep {
            notice: Some(Notice::Reinstalling { current: 3 }),
            action: WorkflowAction::FetchPackage { version: record(8) },
        }
    );
    assert_eq!(
        steps[2],
        silent(WorkflowAction::ExtractPackage { package: PACKAGE.to_string(), out_dir: ROOT.to_string() })
    );
    assert_eq!(workflow.context.current_version, Some(8));
}

#[test]
fn install_from_an_empty_catalog_fails() {
    let (workflow, steps) = feed(InstallWorkflow::wizard(session(&[], None)), vec![WorkflowEvent::Done]);
    let outcome = WorkflowOutcome::Failed { error: BeansError::EmptyManifest };
    assert_eq!(steps, vec![finish(outcome.clone()), finish(outcome)]);
    assert_eq!(workflow.context.current_version, None);
}

#[test]
fn install_hands_on_a_failed_download() {
    let error = BeansError::DownloadFailure {
        reason: DownloadFailureReason::Network { url: "packages/8".to_string(), detail: "timed out".to_string() },
    };
    let (workflow, steps) = feed(
        InstallWorkflow::wizard(session(&[8], None)),
        vec![WorkflowEvent::Failed { error: error.clone() }],
    );
    assert_eq!(steps[1], finish(WorkflowOutcome::Failed { error }));
    assert_eq!(workflow.context.current_version, None);
}

#[test]
fn install_of_a_missing_package_fails_and_cleans_up() {
    let (workflow, steps) = feed(
        InstallWorkflow::wizard(session(&[8], Some(2))),
        vec![fetched(), WorkflowEvent::PackageProbed { exists: false }, WorkflowEvent::Done],
    );
    let error = BeansError::DownloadFailure {
        reason: DownloadFailureReason::FileNotFound { location: PACKAGE.to_string() },
    };
    assert_eq!(steps[2], silent(WorkflowAction::DeletePackage { location: PACKAGE.to_string() }));
    assert_eq!(steps[3], finish(WorkflowOutcome::Failed { error }));
    assert_eq!(workflow.context.current_version, Some(2));
}

#[test]
fn install_cleans_up_after_a_failed_extraction() {
    let (error, event) = failed("archive is truncated");
    let (workflow, steps) = feed(
        InstallWorkflow::wizard(session(&[8], Some(2))),
        vec![fetched(), WorkflowEvent::PackageProbed { exists: true }, event, WorkflowEvent::Done],
    );
    assert_eq!(steps[3], silent(WorkflowAction::DeletePackage { location: PACKAGE.to_string() }));
    assert_eq!(steps[4], finish(WorkflowOutcome::Failed { error }));
    assert!(steps.iter().all(|step| !matches!(step.action, WorkflowAction::WriteMarker { .. })));
    assert!(steps.iter().all(|step| !matches!(step.action, WorkflowAction::ReportError { .. })));
    assert_eq!(workflow.context, session(&[8], Some(2)));
}

#[test]
fn install_stands_when_the_marker_cannot_be_written() {
    let (error, event) = failed("read-only file system");
    let (workflow, steps) = feed(
        InstallWorkflow::wizard(session(&[8], None)),
        vec![fetched(), WorkflowEvent::PackageProbed { exists: true }, WorkflowEvent::Done, event, WorkflowEvent::Done],
    );
    assert_eq!(
        steps[4],
        WorkflowStep {
            notice: Some(Notice::MarkerNotWritten { error }),
            action: WorkflowAction::DeletePackage { location: PACKAGE.to_string() },
        }
    );
    assert_eq!(steps[5], finish(WorkflowOutcome::Completed));
    assert_eq!(workflow.context.current_version, Some(8));
}

#[test]
fn install_stands_when_the_package_cannot_be_deleted() {
    let (error, event) = failed("permission denied");
    let (_, steps) = feed(
        InstallWorkflow::wizard(session(&[8], None)),
        vec![fetched(), WorkflowEvent::PackageProbed { exists: true }, WorkflowEvent::Done, WorkflowEvent::Done, event],
    );
    assert_eq!(
        steps[5],
        WorkflowStep {
            notice: Some(Notice::PackageNotDeleted { error }),
            action: WorkflowAction::Finish { outcome: WorkflowOutcome::Completed },
        }
    );
}

#[test]
fn install_from_a_package_at_hand_keeps_the_package() {
    let (workflow, steps) = feed(
        InstallWorkflow::install_from(session(&[8], None), "/downloads/of.tar.zstd".to_string(), Some(6)),
        vec![WorkflowEvent::PackageProbed { exists: true }, WorkflowEvent::Done, WorkflowEvent::Done],
    );
    assert_eq!(
        steps,
        vec![
            silent(WorkflowAction::ProbePackage { location: "/downloads/of.tar.zstd".to_string() }),
            silent(WorkflowAction::ExtractPackage {
                package: "/downloads/of.tar.zstd".to_string(),
                out_dir: ROOT.to_string(),
            }),
            silent(WorkflowAction::WriteMarker {
                location: MARKER.to_string(),
                marker: AdastralVersionFile { version: "6".to_string() },
            }),
            finish(WorkflowOutcome::Completed),
        ]
    );
    assert_eq!(workflow.context.current_version, Some(6));
}

#[test]
fn install_from_without_a_version_writes_no_marker() {
    let (workflow, steps) = feed(
        InstallWorkflow::install_from(session(&[8], Some(2)), "/downloads/of.tar.zstd".to_string(), None),
        vec![WorkflowEvent::PackageProbed { exists: true }, WorkflowEvent::Done],
    );
    assert_eq!(
        steps[2],
        WorkflowStep {
            notice: Some(Notice::MarkerSkipped),
            action: WorkflowAction::Finish { outcome: WorkflowOutcome::Completed },
        }
    );
    assert_eq!(workflow.context.current_version, Some(2));
}

#[test]
fn install_from_a_missing_package_fails() {
    let (workflow, steps) = feed(
        InstallWorkflow::install_from(session(&[8], None), "/downloads/of.tar.zstd".to_string(), Some(6)),
        vec![WorkflowEvent::PackageProbed { exists: false }],
    );
    let error = BeansError::DownloadFailure {
        reason: DownloadFailureReason::FileNotFound { location: "/downloads/of.tar.zstd".to_string() },
    };
    assert_eq!(steps[1], finish(WorkflowOutcome::Failed { error }));
    assert_eq!(workflow.context.current_version, None);
}

#[test]
fn install_asks_again_after_an_event_that_is_no_answer() {
    let (workflow, steps) = feed(
        InstallWorkflow::wizard(session(&[8], None)),
        vec![WorkflowEvent::Done, fetched(), WorkflowEvent::Done, WorkflowEvent::FreeSpace { available: 3 }],
    );
    let fetch = silent(WorkflowAction::FetchPackage { version: record(8) });
    let probe = silent(WorkflowAction::ProbePackage { location: PACKAGE.to_string() });
    assert_eq!(steps, vec![fetch.clone(), fetch, probe.clone(), probe.clone(), probe]);
    assert_eq!(
        workflow.stage,
        InstallStage::Probing { package: PACKAGE.to_string(), version_id: Some(8), cleanup: true }
    );
}
