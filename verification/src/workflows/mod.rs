//! The three workflows (install, update, verify) as state machines.
//!
//! A workflow decides; it performs nothing. Each step names the next piece
//! of outside work as a [`WorkflowAction`]. The caller performs it and hands
//! back a [`WorkflowEvent`] that tells how it ended, until the workflow
//! answers with [`WorkflowAction::Finish`].

pub mod install;
pub mod update;
pub mod verify;

use crate::butler::{PatchRequest, PatchRequestView, VerifyRequest, VerifyRequestView};
use crate::error::{BeansError, BeansErrorView};
use crate::model::view_of;
use crate::version::{
    AdastralVersionFile, AdastralVersionFileView, RemoteVersion, RemoteVersionView,
};
use vstd::prelude::*;

verus! {

/// How a workflow ended. Everything but `Failed` is a success: that there
/// was nothing to do is no failure.
#[derive(Debug, PartialEq, Eq)]
pub enum WorkflowOutcome {
    /// The workflow did what it is for.
    Completed,
    /// Nothing is installed, so there is nothing to update or verify.
    NotInstalled,
    /// The catalog has no patch from the installed version to the latest:
    /// the installation is current, or no path is published.
    NoPatchAvailable,
    /// The catalog's record of the installed version lacks the signature
    /// address or the heal address, so nothing was attempted.
    MissingRemoteFiles,
    /// The workflow was given up because of `error`.
    Failed { error: BeansError },
}

/// Mathematical model of a [`WorkflowOutcome`].
pub enum WorkflowOutcomeView {
    Completed,
    NotInstalled,
    NoPatchAvailable,
    MissingRemoteFiles,
    Failed { error: BeansErrorView },
}

impl View for WorkflowOutcome {
    type V = WorkflowOutcomeView;

    open spec fn view(&self) -> WorkflowOutcomeView {
        match *self {
            WorkflowOutcome::Completed => WorkflowOutcomeView::Completed,
            WorkflowOutcome::NotInstalled => WorkflowOutcomeView::NotInstalled,
            WorkflowOutcome::NoPatchAvailable => WorkflowOutcomeView::NoPatchAvailable,
            WorkflowOutcome::MissingRemoteFiles => WorkflowOutcomeView::MissingRemoteFiles,
            WorkflowOutcome::Failed { error } => WorkflowOutcomeView::Failed { error: error@ },
        }
    }
}

impl Clone for WorkflowOutcome {
    fn clone(&self) -> (copy: Self)
        ensures
            copy == *self,
    {
        match self {
            WorkflowOutcome::Completed => WorkflowOutcome::Completed,
            WorkflowOutcome::NotInstalled => WorkflowOutcome::NotInstalled,
            WorkflowOutcome::NoPatchAvailable => WorkflowOutcome::NoPatchAvailable,
            WorkflowOutcome::MissingRemoteFiles => WorkflowOutcome::MissingRemoteFiles,
            WorkflowOutcome::Failed { error } => WorkflowOutcome::Failed { error: error.clone() },
        }
    }
}

impl WorkflowOutcomeView {
    /// Whether the outcome is a success.
    pub open spec fn is_success(self) -> bool {
        !(self is Failed)
    }
}

impl WorkflowOutcome {
    /// Tells whether the workflow succeeded.
    pub fn is_success(&self) -> (success: bool)
        ensures
            success == self@.is_success(),
    {
        match self {
            WorkflowOutcome::Failed { .. } => false,
            _ => true,
        }
    }

    /// The outcome as callers that only tell success from failure see it.
    pub fn into_result(self) -> (result: Result<(), BeansError>)
        ensures
            result is Ok <==> self@.is_success(),
            result matches Err(error) ==> self@ == (WorkflowOutcomeView::Failed { error: error@ }),
    {
        match self {
            WorkflowOutcome::Failed { error } => Err(error),
            _ => Ok(()),
        }
    }
}

/// Something that the caller should tell the user and that does not stop
/// the workflow.
#[derive(Debug, PartialEq, Eq)]
pub enum Notice {
    /// A version is installed already: this is a reinstallation.
    Reinstalling { current: usize },
    /// The patch needs `required` bytes of temporary space and only
    /// `available` are free.
    LowDiskSpace { required: u64, available: u64 },
    /// No version was given, so no version marker is written.
    MarkerSkipped,
    /// The version marker could not be written: the installation stands,
    /// and its version is not recorded.
    MarkerNotWritten { error: BeansError },
    /// The downloaded package could not be deleted.
    PackageNotDeleted { error: BeansError },
}

/// Mathematical model of a [`Notice`].
pub enum NoticeView {
    Reinstalling { current: usize },
    LowDiskSpace { required: u64, available: u64 },
    MarkerSkipped,
    MarkerNotWritten { error: BeansErrorView },
    PackageNotDeleted { error: BeansErrorView },
}

impl View for Notice {
    type V = NoticeView;

    open spec fn view(&self) -> NoticeView {
        match *self {
            Notice::Reinstalling { current } => NoticeView::Reinstalling { current },
            Notice::LowDiskSpace { required, available } => NoticeView::LowDiskSpace {
                required,
                available,
            },
            Notice::MarkerSkipped => NoticeView::MarkerSkipped,
            Notice::MarkerNotWritten { error } => NoticeView::MarkerNotWritten { error: error@ },
            Notice::PackageNotDeleted { error } => NoticeView::PackageNotDeleted { error: error@ },
        }
    }
}

impl Clone for Notice {
    fn clone(&self) -> (copy: Self)
        ensures
            copy == *self,
    {
        match self {
            Notice::Reinstalling { current } => Notice::Reinstalling { current: *current },
            Notice::LowDiskSpace { required, available } => Notice::LowDiskSpace {
                required: *required,
                available: *available,
            },
            Notice::MarkerSkipped => Notice::MarkerSkipped,
            Notice::MarkerNotWritten { error } => Notice::MarkerNotWritten { error: error.clone() },
            Notice::PackageNotDeleted { error } => Notice::PackageNotDeleted {
                error: error.clone(),
            },
        }
    }
}

/// A piece of outside work that a workflow asks for.
#[derive(Debug, PartialEq, Eq)]
#[allow(inconsistent_fields)]
pub enum WorkflowAction {
    /// Find out how many bytes are free at `location`. `required` is what
    /// the answer will be held against.
    CheckFreeSpace { location: String, required: u64 },
    /// Make the file at `location` writable, if it exists.
    NormalizePermissions { location: String },
    /// Read the whole file at `location` into memory; that it does not exist
    /// is an answer, not a failure.
    BackupConfig { location: String },
    /// Run the patch engine's verification.
    Verify { request: VerifyRequest },
    /// Have the patch engine download and apply a patch.
    ApplyPatch { request: PatchRequest },
    /// Overwrite the file at `location` with `content`.
    RestoreConfig { location: String, content: Vec<u8> },
    /// Report `error` to whoever collects failures.
    ReportError { error: BeansError },
    /// Download the full package of `version`.
    FetchPackage { version: RemoteVersion },
    /// Find out whether the package file at `location` exists.
    ProbePackage { location: String },
    /// Extract the package file at `package` into `out_dir`.
    ExtractPackage { package: String, out_dir: String },
    /// Write `marker` to the version marker file at `location`.
    WriteMarker { location: String, marker: AdastralVersionFile },
    /// Delete the package file at `location`, if it is still there.
    DeletePackage { location: String },
    /// Nothing is left to do: the workflow ended with `outcome`.
    Finish { outcome: WorkflowOutcome },
}

/// Mathematical model of a [`WorkflowAction`].
#[allow(inconsistent_fields)]
pub enum WorkflowActionView {
    CheckFreeSpace { location: Seq<char>, required: u64 },
    NormalizePermissions { location: Seq<char> },
    BackupConfig { location: Seq<char> },
    Verify { request: VerifyRequestView },
    ApplyPatch { request: PatchRequestView },
    RestoreConfig { location: Seq<char>, content: Seq<u8> },
    ReportError { error: BeansErrorView },
    FetchPackage { version: RemoteVersionView },
    ProbePackage { location: Seq<char> },
    ExtractPackage { package: Seq<char>, out_dir: Seq<char> },
    WriteMarker { location: Seq<char>, marker: AdastralVersionFileView },
    DeletePackage { location: Seq<char> },
    Finish { outcome: WorkflowOutcomeView },
}

impl View for WorkflowAction {
    type V = WorkflowActionView;

    open spec fn view(&self) -> WorkflowActionView {
        match *self {
            WorkflowAction::CheckFreeSpace { location, required } => WorkflowActionView::CheckFreeSpace {
                location: location@,
                required,
            },
            WorkflowAction::NormalizePermissions { location } => WorkflowActionView::NormalizePermissions {
                location: location@,
            },
            WorkflowAction::BackupConfig { location } => WorkflowActionView::BackupConfig {
                location: location@,
            },
            WorkflowAction::Verify { request } => WorkflowActionView::Verify { request: request@ },
            WorkflowAction::ApplyPatch { request } => WorkflowActionView::ApplyPatch {
                request: request@,
            },
            WorkflowAction::RestoreConfig { location, content } => WorkflowActionView::RestoreConfig {
                location: location@,
                content: content@,
            },
            WorkflowAction::ReportError { error } => WorkflowActionView::ReportError {
                error: error@,
            },
            WorkflowAction::FetchPackage { version } => WorkflowActionView::FetchPackage {
                version: version@,
            },
            WorkflowAction::ProbePackage { location } => WorkflowActionView::ProbePackage {
                location: location@,
            },
            WorkflowAction::ExtractPackage { package, out_dir } => WorkflowActionView::ExtractPackage {
                package: package@,
                out_dir: out_dir@,
            },
            WorkflowAction::WriteMarker { location, marker } => WorkflowActionView::WriteMarker {
                location: location@,
                marker: marker@,
            },
            WorkflowAction::DeletePackage { location } => WorkflowActionView::DeletePackage {
                location: location@,
            },
            WorkflowAction::Finish { outcome } => WorkflowActionView::Finish { outcome: outcome@ },
        }
    }
}

impl Clone for WorkflowAction {
    fn clone(&self) -> (copy: Self)
        ensures
            copy@ == self@,
    {
        match self {
            WorkflowAction::CheckFreeSpace { location, required } => WorkflowAction::CheckFreeSpace {
                location: location.clone(),
                required: *required,
            },
            WorkflowAction::NormalizePermissions { location } => WorkflowAction::NormalizePermissions {
                location: location.clone(),
            },
            WorkflowAction::BackupConfig { location } => WorkflowAction::BackupConfig {
                location: location.clone(),
            },
            WorkflowAction::Verify { request } => WorkflowAction::Verify { request: request.clone() },
            WorkflowAction::ApplyPatch { request } => WorkflowAction::ApplyPatch {
                request: request.clone(),
            },
            WorkflowAction::RestoreConfig { location, content } => WorkflowAction::RestoreConfig {
                location: location.clone(),
                content: content.clone(),
            },
            WorkflowAction::ReportError { error } => WorkflowAction::ReportError {
                error: error.clone(),
            },
            WorkflowAction::FetchPackage { version } => WorkflowAction::FetchPackage {
                version: version.clone(),
            },
            WorkflowAction::ProbePackage { location } => WorkflowAction::ProbePackage {
                location: location.clone(),
            },
            WorkflowAction::ExtractPackage { package, out_dir } => WorkflowAction::ExtractPackage {
                package: package.clone(),
                out_dir: out_dir.clone(),
            },
            WorkflowAction::WriteMarker { location, marker } => WorkflowAction::WriteMarker {
                location: location.clone(),
                marker: marker.clone(),
            },
            WorkflowAction::DeletePackage { location } => WorkflowAction::DeletePackage {
                location: location.clone(),
            },
            WorkflowAction::Finish { outcome } => WorkflowAction::Finish { outcome: outcome.clone() },
        }
    }
}

impl WorkflowActionView {
    /// Whether the action calls the patch engine.
    pub open spec fn calls_patch_engine(self) -> bool {
        self is Verify || self is ApplyPatch
    }

    /// Whether the action reaches out over the network.
    pub open spec fn uses_network(self) -> bool {
        self is Verify || self is ApplyPatch || self is FetchPackage || self is ReportError
    }
}

/// How a piece of outside work ended.
#[derive(Debug, PartialEq, Eq)]
pub enum WorkflowEvent {
    /// The work was done and has nothing to tell.
    Done,
    /// `available` bytes are free at the location asked about.
    FreeSpace { available: u64 },
    /// The configuration file was read: `content` holds it, or `None`
    /// where there is no such file.
    ConfigBackup { content: Option<Vec<u8>> },
    /// The package was downloaded to `location`.
    PackageFetched { location: String },
    /// The package file exists, or does not.
    PackageProbed { exists: bool },
    /// The work failed with `error`.
    Failed { error: BeansError },
}

/// Mathematical model of a [`WorkflowEvent`].
pub enum WorkflowEventView {
    Done,
    FreeSpace { available: u64 },
    ConfigBackup { content: Option<Seq<u8>> },
    PackageFetched { location: Seq<char> },
    PackageProbed { exists: bool },
    Failed { error: BeansErrorView },
}

impl View for WorkflowEvent {
    type V = WorkflowEventView;

    open spec fn view(&self) -> WorkflowEventView {
        match *self {
            WorkflowEvent::Done => WorkflowEventView::Done,
            WorkflowEvent::FreeSpace { available } => WorkflowEventView::FreeSpace { available },
            WorkflowEvent::ConfigBackup { content } => WorkflowEventView::ConfigBackup {
                content: view_of(content),
            },
            WorkflowEvent::PackageFetched { location } => WorkflowEventView::PackageFetched {
                location: location@,
            },
            WorkflowEvent::PackageProbed { exists } => WorkflowEventView::PackageProbed { exists },
            WorkflowEvent::Failed { error } => WorkflowEventView::Failed { error: error@ },
        }
    }
}

impl Clone for WorkflowEvent {
    fn clone(&self) -> (copy: Self)
        ensures
            copy@ == self@,
    {
        match self {
            WorkflowEvent::Done => WorkflowEvent::Done,
            WorkflowEvent::FreeSpace { available } => WorkflowEvent::FreeSpace {
                available: *available,
            },
            WorkflowEvent::ConfigBackup { content } => WorkflowEvent::ConfigBackup {
                content: match content {
                    Some(content) => Some(content.clone()),
                    None => None,
                },
            },
            WorkflowEvent::PackageFetched { location } => WorkflowEvent::PackageFetched {
                location: location.clone(),
            },
            WorkflowEvent::PackageProbed { exists } => WorkflowEvent::PackageProbed {
                exists: *exists,
            },
            WorkflowEvent::Failed { error } => WorkflowEvent::Failed { error: error.clone() },
        }
    }
}

/// What a workflow answers to an event: the next piece of outside work,
/// and perhaps something to tell the user first.
#[derive(Debug, PartialEq, Eq)]
pub struct WorkflowStep {
    pub notice: Option<Notice>,
    pub action: WorkflowAction,
}

/// Mathematical model of a [`WorkflowStep`].
pub struct WorkflowStepView {
    pub notice: Option<NoticeView>,
    pub action: WorkflowActionView,
}

impl View for WorkflowStep {
    type V = WorkflowStepView;

    open spec fn view(&self) -> WorkflowStepView {
        WorkflowStepView { notice: view_of(self.notice), action: self.action@ }
    }
}

impl Clone for WorkflowStep {
    fn clone(&self) -> (copy: Self)
        ensures
            copy@ == self@,
    {
        WorkflowStep {
            notice: match &self.notice {
                Some(notice) => Some(notice.clone()),
                None => None,
            },
            action: self.action.clone(),
        }
    }
}

impl WorkflowStepView {
    /// The step that asks for `action` and has nothing to tell.
    pub open spec fn silent(action: WorkflowActionView) -> WorkflowStepView {
        WorkflowStepView { notice: None, action }
    }
}

} // verus!
