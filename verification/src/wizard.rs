//! The interactive surface: what the user's choice means, which workflow
//! it starts, and how the result is told to the host.

use crate::ctx::{session_of, Configuration, RunnerContext, RunnerContextView};
use crate::error::{BeansError, BeansErrorView};
use crate::model::view_of;
use crate::version::{
    steps_view, InstallationFiles, MigrationStep, MigrationStepView, RemoteVersionResponse,
};
use crate::workflows::install::{InstallWorkflow, InstallWorkflowView};
use crate::workflows::update::{UpdateWorkflow, UpdateWorkflowView};
use crate::workflows::verify::{VerifyWorkflow, VerifyWorkflowView};
use crate::workflows::WorkflowStep;
use vstd::prelude::*;
use vstd::string::StrSliceExecFns;

verus! {

/// How the installation root is told to the session.
#[derive(Debug, PartialEq, Eq)]
pub enum SourceModDirectoryParam {
    /// The root is whatever the host's own lookup finds.
    AutoDetect,
    /// The root is the given location.
    WithLocation(String),
}

/// What the user chose from the menu.
#[derive(Debug, Clone, Copy, PartialEq, Eq, Structural)]
pub enum MenuChoice {
    /// Install or reinstall.
    Install,
    /// Check for updates and apply them.
    Update,
    /// Verify and repair.
    Verify,
    /// Leave.
    Quit,
    /// Anything else: the menu is shown again.
    Unknown,
}

/// The meaning of what the user typed at the menu: `1`, `2` and `3` choose
/// a workflow, `q` in either case leaves, and nothing else is understood.
pub open spec fn menu_choice(input: Seq<char>) -> MenuChoice {
    if input.len() != 1 {
        MenuChoice::Unknown
    } else if input[0] == '1' {
        MenuChoice::Install
    } else if input[0] == '2' {
        MenuChoice::Update
    } else if input[0] == '3' {
        MenuChoice::Verify
    } else if input[0] == 'q' || input[0] == 'Q' {
        MenuChoice::Quit
    } else {
        MenuChoice::Unknown
    }
}

/// The installation root of a session: the given location where one is
/// given, else what the host's lookup `detected`.
pub open spec fn chosen_path(sml_via: SourceModDirectoryParam, detected: Option<Seq<char>>) -> Option<
    Seq<char>,
> {
    match sml_via {
        SourceModDirectoryParam::AutoDetect => detected,
        SourceModDirectoryParam::WithLocation(location) => Some(location@),
    }
}

/// The status that the process hands to the host: zero after a success,
/// one after a failure.
pub open spec fn exit_code(success: bool) -> i32 {
    if success {
        0
    } else {
        1
    }
}

/// The installation root that the host's lookup found, or the failure to
/// find one.
pub fn get_path(detected: Option<String>) -> (path: Result<String, BeansError>)
    ensures
        detected is Some <==> path is Ok,
        path matches Ok(found) ==> found@ == detected.unwrap()@,
        path matches Err(error) ==> error@ == BeansErrorView::SourceModLocationNotFound,
{
    match detected {
        Some(path) => Ok(path),
        None => Err(BeansError::SourceModLocationNotFound),
    }
}

/// A session at the menu.
#[derive(Debug, PartialEq, Eq)]
pub struct WizardContext {
    pub context: RunnerContext,
}

impl View for WizardContext {
    type V = RunnerContextView;

    open spec fn view(&self) -> RunnerContextView {
        self.context@
    }
}

impl WizardContext {
    /// Starts a session at the menu, from what was found on the host: the
    /// installation root that the host's lookup `detected`, the catalog as
    /// fetched, and the files that tell of the installation. With it comes
    /// the migration that the caller has to perform.
    pub fn run(
        sml_via: SourceModDirectoryParam,
        detected: Option<String>,
        version_list: RemoteVersionResponse,
        config: Configuration,
        files: &InstallationFiles,
    ) -> (wizard: Result<(WizardContext, Vec<MigrationStep>), BeansError>)
        ensures
            wizard matches Ok((started, steps)) ==> session_of(
                chosen_path(sml_via, view_of(detected)),
                version_list@,
                config@,
                files@,
            ) == Ok::<(RunnerContextView, Seq<MigrationStepView>), BeansErrorView>(
                (started@, steps_view(steps@)),
            ),
            wizard matches Err(error) ==> session_of(
                chosen_path(sml_via, view_of(detected)),
                version_list@,
                config@,
                files@,
            ) == Err::<(RunnerContextView, Seq<MigrationStepView>), BeansErrorView>(error@),
    {
        let sourcemod_path = match sml_via {
            SourceModDirectoryParam::AutoDetect => detected,
            SourceModDirectoryParam::WithLocation(location) => Some(location),
        };
        match RunnerContext::create_auto(sourcemod_path, version_list, config, files) {
            Ok((context, steps)) => Ok((WizardContext { context }, steps)),
            Err(error) => Err(error),
        }
    }

    /// Reads the user's choice at the menu.
    pub fn menu(user_input: &str) -> (choice: MenuChoice)
        ensures
            choice == menu_choice(user_input@),
    {
        if user_input.unicode_len() != 1 {
            return MenuChoice::Unknown;
        }
        match user_input.get_char(0) {
            '1' => MenuChoice::Install,
            '2' => MenuChoice::Update,
            '3' => MenuChoice::Verify,
            'q' | 'Q' => MenuChoice::Quit,
            _ => MenuChoice::Unknown,
        }
    }

    /// The status that the process hands to the host after a workflow.
    pub fn menu_error_catch(v: &Result<(), BeansError>) -> (code: i32)
        ensures
            code == exit_code(v is Ok),
    {
        match v {
            Ok(_) => 0,
            Err(_) => 1,
        }
    }

    /// Begins the installation of the latest version.
    pub fn task_install(self) -> (next: (InstallWorkflow, WorkflowStep))
        ensures
            (next.0@, next.1@) == InstallWorkflowView::begin(self@),
    {
        InstallWorkflow::wizard(self.context)
    }

    /// Begins the update to the latest version.
    pub fn task_update(self) -> (next: (UpdateWorkflow, WorkflowStep))
        ensures
            (next.0@, next.1@) == UpdateWorkflowView::begin(self@),
    {
        UpdateWorkflow::wizard(self.context)
    }

    /// Begins the verification of the installed version.
    pub fn task_verify(self) -> (next: (VerifyWorkflow, WorkflowStep))
        ensures
            (next.0@, next.1@) == VerifyWorkflowView::begin(self@),
    {
        VerifyWorkflow::wizard(self.context)
    }
}

} // verus!
