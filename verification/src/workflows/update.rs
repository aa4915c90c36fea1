//! The update workflow: bring the installation from the installed version
//! to the latest one by applying the patch that the catalog publishes for
//! exactly that pair of versions.

use crate::butler::{PatchRequest, PatchRequestView, VerifyRequest, VerifyRequestView};
use crate::ctx::{RunnerContext, RunnerContextView};
use crate::error::{BeansError, BeansErrorView};
use crate::helper::{enough_space, has_free_space};
use crate::workflows::{
    Notice, NoticeView, WorkflowAction, WorkflowActionView, WorkflowEvent, WorkflowEventView,
    WorkflowOutcome, WorkflowOutcomeView, WorkflowStep, WorkflowStepView,
};
use vstd::prelude::*;

verus! {

/// Everything that an update will ask for, settled before any outside work
/// is done.
#[derive(Debug, PartialEq, Eq)]
pub struct UpdatePlan {
    /// Where free space is measured: the installation root.
    pub space_location: String,
    /// The temporary space, in bytes, that the patch needs.
    pub required: u64,
    /// The user's configuration file, which is kept across the update.
    pub config_location: String,
    /// The verification of the installed version, run before patching so
    /// that the patch finds the files it was made for.
    pub verify: VerifyRequest,
    /// The patch itself.
    pub patch: PatchRequest,
}

/// Mathematical model of an [`UpdatePlan`].
pub struct UpdatePlanView {
    pub space_location: Seq<char>,
    pub required: u64,
    pub config_location: Seq<char>,
    pub verify: VerifyRequestView,
    pub patch: PatchRequestView,
}

impl View for UpdatePlan {
    type V = UpdatePlanView;

    open spec fn view(&self) -> UpdatePlanView {
        UpdatePlanView {
            space_location: self.space_location@,
            required: self.required,
            config_location: self.config_location@,
            verify: self.verify@,
            patch: self.patch@,
        }
    }
}

/// Where an update stands: which piece of outside work it waits for.
#[derive(Debug, PartialEq, Eq)]
pub enum UpdateStage {
    /// Waiting to learn how much space is free.
    CheckingSpace { plan: UpdatePlan },
    /// Waiting for the configuration file to be made writable, before the
    /// installation is touched.
    OpeningPermissions { plan: UpdatePlan },
    /// Waiting for the configuration file to be read.
    BackingUp { plan: UpdatePlan },
    /// Waiting for the patch engine to verify the installed version.
    Verifying { plan: UpdatePlan, backup: Option<Vec<u8>> },
    /// Waiting for the patch engine to apply the patch.
    Patching { plan: UpdatePlan, backup: Option<Vec<u8>> },
    /// Waiting for the configuration file to be written back.
    Restoring { plan: UpdatePlan, content: Vec<u8> },
    /// Waiting for the configuration file to be made writable again, after
    /// the installation was touched.
    ClosingPermissions { plan: UpdatePlan },
    /// Waiting for the failure to be reported.
    Reporting { error: BeansError },
    /// The update has ended.
    Finished { outcome: WorkflowOutcome },
}

/// Mathematical model of an [`UpdateStage`].
pub enum UpdateStageView {
    CheckingSpace { plan: UpdatePlanView },
    OpeningPermissions { plan: UpdatePlanView },
    BackingUp { plan: UpdatePlanView },
    Verifying { plan: UpdatePlanView, backup: Option<Seq<u8>> },
    Patching { plan: UpdatePlanView, backup: Option<Seq<u8>> },
    Restoring { plan: UpdatePlanView, content: Seq<u8> },
    ClosingPermissions { plan: UpdatePlanView },
    Reporting { error: BeansErrorView },
    Finished { outcome: WorkflowOutcomeView },
}

impl View for UpdateStage {
    type V = UpdateStageView;

    open spec fn view(&self) -> UpdateStageView {
        match *self {
            UpdateStage::CheckingSpace { plan } => UpdateStageView::CheckingSpace { plan: plan@ },
            UpdateStage::OpeningPermissions { plan } => UpdateStageView::OpeningPermissions {
                plan: plan@,
            },
            UpdateStage::BackingUp { plan } => UpdateStageView::BackingUp { plan: plan@ },
            UpdateStage::Verifying { plan, backup } => UpdateStageView::Verifying {
                plan: plan@,
                backup: crate::model::view_of(backup),
            },
            UpdateStage::Patching { plan, backup } => UpdateStageView::Patching {
                plan: plan@,
                backup: crate::model::view_of(backup),
            },
            UpdateStage::Restoring { plan, content } => UpdateStageView::Restoring {
                plan: plan@,
                content: content@,
            },
            UpdateStage::ClosingPermissions { plan } => UpdateStageView::ClosingPermissions {
                plan: plan@,
            },
            UpdateStage::Reporting { error } => UpdateStageView::Reporting { error: error@ },
            UpdateStage::Finished { outcome } => UpdateStageView::Finished { outcome: outcome@ },
        }
    }
}

/// A running update: the session it belongs to and the stage it is in.
#[derive(Debug, PartialEq, Eq)]
pub struct UpdateWorkflow {
    pub ctx: RunnerContext,
    pub stage: UpdateStage,
}

/// Mathematical model of an [`UpdateWorkflow`].
pub struct UpdateWorkflowView {
    pub ctx: RunnerContextView,
    pub stage: UpdateStageView,
}

impl View for UpdateWorkflow {
    type V = UpdateWorkflowView;

    open spec fn view(&self) -> UpdateWorkflowView {
        UpdateWorkflowView { ctx: self.ctx@, stage: self.stage@ }
    }
}

impl UpdateStageView {
    /// The outside work that the stage waits for.
    pub open spec fn pending(self) -> WorkflowActionView {
        match self {
            UpdateStageView::CheckingSpace { plan } => WorkflowActionView::CheckFreeSpace {
                location: plan.space_location,
                required: plan.required,
            },
            UpdateStageView::OpeningPermissions { plan } => WorkflowActionView::NormalizePermissions {
                location: plan.config_location,
            },
            UpdateStageView::BackingUp { plan } => WorkflowActionView::BackupConfig {
                location: plan.config_location,
            },
            UpdateStageView::Verifying { plan, backup } => WorkflowActionView::Verify {
                request: plan.verify,
            },
            UpdateStageView::Patching { plan, backup } => WorkflowActionView::ApplyPatch {
                request: plan.patch,
            },
            UpdateStageView::Restoring { plan, content } => WorkflowActionView::RestoreConfig {
                location: plan.config_location,
                content,
            },
            UpdateStageView::ClosingPermissions { plan } => WorkflowActionView::NormalizePermissions {
                location: plan.config_location,
            },
            UpdateStageView::Reporting { error } => WorkflowActionView::ReportError { error },
            UpdateStageView::Finished { outcome } => WorkflowActionView::Finish { outcome },
        }
    }
}

impl UpdateStageView {
    /// The content of the configuration file that the stage keeps for
    /// writing back, if it keeps any.
    pub open spec fn held_backup(self) -> Option<Seq<u8>> {
        match self {
            UpdateStageView::Verifying { plan, backup } => backup,
            UpdateStageView::Patching { plan, backup } => backup,
            UpdateStageView::Restoring { plan, content } => Some(content),
            _ => None,
        }
    }
}

impl UpdateWorkflowView {
    /// What an update of the session `ctx` comes to before any outside work:
    /// the plan to carry out, or the outcome that ends it at once.
    ///
    /// Nothing installed: nothing to update. A catalog without versions has
    /// no latest version to update to, which is an error. No patch from the
    /// installed version to the latest: nothing to do. A patch, but no
    /// record of the installed version in the catalog: an error. A record,
    /// but without signature or heal address: nothing is attempted.
    pub open spec fn plan(ctx: RunnerContextView) -> Result<UpdatePlanView, WorkflowOutcomeView> {
        if ctx.current_version is None {
            Err(WorkflowOutcomeView::NotInstalled)
        } else if ctx.remote_version_list.versions.dom().is_empty() {
            Err(WorkflowOutcomeView::Failed { error: BeansErrorView::EmptyManifest })
        } else if ctx.patch_available() is None {
            Err(WorkflowOutcomeView::NoPatchAvailable)
        } else if ctx.current_remote_version() is None {
            Err(
                WorkflowOutcomeView::Failed {
                    error: BeansErrorView::RemoteVersionNotFound {
                        version: ctx.current_version.unwrap(),
                    },
                },
            )
        } else if ctx.verify_request() is None {
            Err(WorkflowOutcomeView::MissingRemoteFiles)
        } else {
            Ok(
                UpdatePlanView {
                    space_location: ctx.sourcemod_path,
                    required: ctx.patch_available().unwrap().tempreq as u64,
                    config_location: ctx.gameinfo_location(),
                    verify: ctx.verify_request().unwrap(),
                    patch: ctx.patch_request(ctx.patch_available().unwrap()),
                },
            )
        }
    }

    /// The workflow in `stage`, asking for what that stage waits for.
    pub open spec fn proceed(
        ctx: RunnerContextView,
        stage: UpdateStageView,
        notice: Option<NoticeView>,
    ) -> (UpdateWorkflowView, WorkflowStepView) {
        (UpdateWorkflowView { ctx, stage }, WorkflowStepView { notice, action: stage.pending() })
    }

    /// The first step of an update of the session `ctx`.
    pub open spec fn begin(ctx: RunnerContextView) -> (UpdateWorkflowView, WorkflowStepView) {
        match Self::plan(ctx) {
            Ok(plan) => Self::proceed(ctx, UpdateStageView::CheckingSpace { plan }, None),
            Err(outcome) => Self::proceed(ctx, UpdateStageView::Finished { outcome }, None),
        }
    }

    /// The step that answers `event`.
    ///
    /// A failure of any piece of outside work ends the update: the failure
    /// is reported, then handed to the caller. Too little free space is only
    /// told. An event that does not answer what the stage waits for changes
    /// nothing: the same work is asked for again.
    pub open spec fn resume(self, event: WorkflowEventView) -> (
        UpdateWorkflowView,
        WorkflowStepView,
    ) {
        match (self.stage, event) {
            (
                UpdateStageView::CheckingSpace { plan },
                WorkflowEventView::FreeSpace { available },
            ) => Self::proceed(
                self.ctx,
                UpdateStageView::OpeningPermissions { plan },
                if enough_space(available, plan.required) {
                    None
                } else {
                    Some(NoticeView::LowDiskSpace { required: plan.required, available })
                },
            ),
            (UpdateStageView::OpeningPermissions { plan }, WorkflowEventView::Done) => Self::proceed(
                self.ctx,
                UpdateStageView::BackingUp { plan },
                None,
            ),
            (
                UpdateStageView::BackingUp { plan },
                WorkflowEventView::ConfigBackup { content },
            ) => Self::proceed(self.ctx, UpdateStageView::Verifying { plan, backup: content }, None),
            (UpdateStageView::Verifying { plan, backup }, WorkflowEventView::Done) => Self::proceed(
                self.ctx,
                UpdateStageView::Patching { plan, backup },
                None,
            ),
            (
                UpdateStageView::Patching { plan, backup: Some(content) },
                WorkflowEventView::Done,
            ) => Self::proceed(self.ctx, UpdateStageView::Restoring { plan, content }, None),
            (
                UpdateStageView::Patching { plan, backup: None },
                WorkflowEventView::Done,
            ) => Self::proceed(self.ctx, UpdateStageView::ClosingPermissions { plan }, None),
            (UpdateStageView::Restoring { plan, content }, WorkflowEventView::Done) => Self::proceed(
                self.ctx,
                UpdateStageView::ClosingPermissions { plan },
                None,
            ),
            (UpdateStageView::ClosingPermissions { plan }, WorkflowEventView::Done) => Self::proceed(
                self.ctx,
                UpdateStageView::Finished { outcome: WorkflowOutcomeView::Completed },
                None,
            ),
            (UpdateStageView::Reporting { error }, _) => Self::proceed(
                self.ctx,
                UpdateStageView::Finished { outcome: WorkflowOutcomeView::Failed { error } },
                None,
            ),
            (UpdateStageView::Finished { outcome }, _) => Self::proceed(self.ctx, self.stage, None),
            (_, WorkflowEventView::Failed { error }) => Self::proceed(
                self.ctx,
                UpdateStageView::Reporting { error },
                None,
            ),
            (_, _) => Self::proceed(self.ctx, self.stage, None),
        }
    }
}

impl UpdateWorkflowView {
    /// The update of the session `ctx` once `events` have come in, in this
    /// order, each as the answer to the step before it: the workflow as it
    /// then stands, and the step it answered last.
    pub open spec fn after(ctx: RunnerContextView, events: Seq<WorkflowEventView>) -> (
        UpdateWorkflowView,
        WorkflowStepView,
    )
        decreases events.len(),
    {
        if events.len() == 0 {
            Self::begin(ctx)
        } else {
            Self::after(ctx, events.drop_last()).0.resume(events.last())
        }
    }

    /// What the update of the session `ctx` waits for when the event at
    /// `index` comes in: the work that this event answers.
    pub open spec fn asked_at(
        ctx: RunnerContextView,
        events: Seq<WorkflowEventView>,
        index: int,
    ) -> WorkflowActionView {
        Self::after(ctx, events.take(index)).1.action
    }
}

/// An update never changes the session it belongs to, and what it asks for
/// is always what its stage waits for.
pub proof fn lemma_update_keeps_session(ctx: RunnerContextView, events: Seq<WorkflowEventView>)
    ensures
        UpdateWorkflowView::after(ctx, events).0.ctx == ctx,
        UpdateWorkflowView::after(ctx, events).1.action == UpdateWorkflowView::after(
            ctx,
            events,
        ).0.stage.pending(),
    decreases events.len(),
{
    if events.len() > 0 {
        lemma_update_keeps_session(ctx, events.drop_last());
    }
}

/// An update that has no plan to carry out does no outside work at all:
/// its first step and every later one end it with the same outcome.
pub proof fn lemma_update_without_plan(ctx: RunnerContextView, events: Seq<WorkflowEventView>)
    requires
        UpdateWorkflowView::plan(ctx) is Err,
    ensures
        UpdateWorkflowView::after(ctx, events).1 == WorkflowStepView::silent(
            WorkflowActionView::Finish { outcome: UpdateWorkflowView::plan(ctx)->Err_0 },
        ),
        UpdateWorkflowView::after(ctx, events).0.stage is Finished,
    decreases events.len(),
{
    if events.len() > 0 {
        lemma_update_without_plan(ctx, events.drop_last());
    }
}

/// Where nothing is installed, an update succeeds without doing anything:
/// whatever the catalog holds and whatever events come in, every step says
/// so, and none asks for the network or the patch engine.
pub proof fn lemma_update_of_nothing_installed(
    ctx: RunnerContextView,
    events: Seq<WorkflowEventView>,
)
    requires
        ctx.current_version is None,
    ensures
        UpdateWorkflowView::after(ctx, events).1.action == (WorkflowActionView::Finish {
            outcome: WorkflowOutcomeView::NotInstalled,
        }),
        WorkflowOutcomeView::NotInstalled.is_success(),
        !UpdateWorkflowView::after(ctx, events).1.action.uses_network(),
        !UpdateWorkflowView::after(ctx, events).1.action.calls_patch_engine(),
{
    lemma_update_without_plan(ctx, events);
}

/// Where the catalog has no patch from the installed version to the latest
/// one (nothing is installed, the installed version is the latest, or no
/// path is published), an update succeeds without doing anything: whatever
/// events come in, every step ends it, and none asks for the patch engine.
pub proof fn lemma_update_without_patch(
    ctx: RunnerContextView,
    latest: usize,
    events: Seq<WorkflowEventView>,
)
    requires
        ctx.remote_version_list.is_latest(latest),
        ctx.remote_version_list.applicable_patch(ctx.current_version, latest) is None,
    ensures
        UpdateWorkflowView::after(ctx, events).1.action == (WorkflowActionView::Finish {
            outcome: if ctx.current_version is None {
                WorkflowOutcomeView::NotInstalled
            } else {
                WorkflowOutcomeView::NoPatchAvailable
            },
        }),
        WorkflowOutcomeView::NotInstalled.is_success(),
        WorkflowOutcomeView::NoPatchAvailable.is_success(),
        !UpdateWorkflowView::after(ctx, events).1.action.calls_patch_engine(),
{
    assert(ctx.remote_version_list.latest_id() == latest);
    lemma_update_without_plan(ctx, events);
}

/// No patch is applied to an installation that was not verified first: an
/// update asks for the patch only after it asked for the verification and
/// was told that it was done.
pub proof fn lemma_update_verifies_before_patching(
    ctx: RunnerContextView,
    events: Seq<WorkflowEventView>,
)
    requires
        UpdateWorkflowView::after(ctx, events).1.action is ApplyPatch,
    ensures
        exists|index: int|
            0 <= index < events.len() && events[index] is Done
                && (#[trigger] UpdateWorkflowView::asked_at(ctx, events, index)) is Verify,
    decreases events.len(),
{
    lemma_update_keeps_session(ctx, events);
    if events.len() > 0 {
        let earlier = events.drop_last();
        lemma_update_keeps_session(ctx, earlier);
        if UpdateWorkflowView::after(ctx, earlier).0.stage is Verifying {
            assert(events.take(events.len() - 1) =~= earlier);
            assert(UpdateWorkflowView::asked_at(ctx, events, events.len() - 1) is Verify);
        } else {
            lemma_update_verifies_before_patching(ctx, earlier);
            let index = choose|index: int|
                0 <= index < earlier.len() && earlier[index] is Done
                    && (#[trigger] UpdateWorkflowView::asked_at(ctx, earlier, index)) is Verify;
            assert(events.take(index) =~= earlier.take(index));
            assert(UpdateWorkflowView::asked_at(ctx, events, index) is Verify);
        }
    }
}

/// An update is complete only where the patch was applied: it writes the
/// configuration back, normalizes permissions again or ends with
/// `Completed` only after it asked for the patch and was told that it was
/// done.
pub proof fn lemma_update_completes_after_patching(
    ctx: RunnerContextView,
    events: Seq<WorkflowEventView>,
)
    requires
        UpdateWorkflowView::after(ctx, events).0.stage is Restoring || UpdateWorkflowView::after(
            ctx,
            events,
        ).0.stage is ClosingPermissions || UpdateWorkflowView::after(ctx, events).1.action == (
        WorkflowActionView::Finish { outcome: WorkflowOutcomeView::Completed }),
    ensures
        exists|index: int|
            0 <= index < events.len() && events[index] is Done
                && (#[trigger] UpdateWorkflowView::asked_at(ctx, events, index)) is ApplyPatch,
    decreases events.len(),
{
    lemma_update_keeps_session(ctx, events);
    if events.len() > 0 {
        let earlier = events.drop_last();
        lemma_update_keeps_session(ctx, earlier);
        if UpdateWorkflowView::after(ctx, earlier).0.stage is Patching {
            assert(events.take(events.len() - 1) =~= earlier);
            assert(UpdateWorkflowView::asked_at(ctx, events, events.len() - 1) is ApplyPatch);
        } else {
            lemma_update_completes_after_patching(ctx, earlier);
            let index = choose|index: int|
                0 <= index < earlier.len() && earlier[index] is Done
                    && (#[trigger] UpdateWorkflowView::asked_at(ctx, earlier, index)) is ApplyPatch;
            assert(events.take(index) =~= earlier.take(index));
            assert(UpdateWorkflowView::asked_at(ctx, events, index) is ApplyPatch);
        }
    }
}

/// What an update keeps of the configuration file is what it was told the
/// file holds, unchanged: it comes from the answer to its own request to
/// read the file.
proof fn lemma_update_backup_origin(ctx: RunnerContextView, events: Seq<WorkflowEventView>)
    requires
        UpdateWorkflowView::after(ctx, events).0.stage.held_backup() is Some,
    ensures
        exists|index: int|
            0 <= index < events.len() && events[index] == (WorkflowEventView::ConfigBackup {
                content: UpdateWorkflowView::after(ctx, events).0.stage.held_backup(),
            }) && (#[trigger] UpdateWorkflowView::asked_at(ctx, events, index)) is BackupConfig,
    decreases events.len(),
{
    let held = UpdateWorkflowView::after(ctx, events).0.stage.held_backup();
    lemma_update_keeps_session(ctx, events);
    if events.len() > 0 {
        let earlier = events.drop_last();
        lemma_update_keeps_session(ctx, earlier);
        if UpdateWorkflowView::after(ctx, earlier).0.stage is BackingUp {
            assert(events.take(events.len() - 1) =~= earlier);
            assert(UpdateWorkflowView::asked_at(ctx, events, events.len() - 1) is BackupConfig);
        } else {
            lemma_update_backup_origin(ctx, earlier);
            let index = choose|index: int|
                0 <= index < earlier.len() && earlier[index] == (WorkflowEventView::ConfigBackup {
                    content: held,
                }) && (#[trigger] UpdateWorkflowView::asked_at(ctx, earlier, index)) is BackupConfig;
            assert(events.take(index) =~= earlier.take(index));
            assert(UpdateWorkflowView::asked_at(ctx, events, index) is BackupConfig);
        }
    }
}

/// The configuration file is restored verbatim: where an update asks to
/// write the file back, the content it hands over is exactly the content
/// that it was told the file held before the installation was touched.
pub proof fn lemma_update_restores_what_was_read(
    ctx: RunnerContextView,
    events: Seq<WorkflowEventView>,
)
    requires
        UpdateWorkflowView::after(ctx, events).1.action is RestoreConfig,
    ensures
        exists|index: int|
            0 <= index < events.len() && events[index] == (WorkflowEventView::ConfigBackup {
                content: Some(UpdateWorkflowView::after(ctx, events).1.action->content),
            }) && (#[trigger] UpdateWorkflowView::asked_at(ctx, events, index)) is BackupConfig,
{
    lemma_update_keeps_session(ctx, events);
    lemma_update_backup_origin(ctx, events);
}

/// No failure of outside work is handed to the caller unreported: where an
/// update that had a plan to carry out ends in a failure, it asked before
/// for that failure to be reported.
pub proof fn lemma_update_reports_failures(ctx: RunnerContextView, events: Seq<WorkflowEventView>)
    requires
        UpdateWorkflowView::plan(ctx) is Ok,
        UpdateWorkflowView::after(ctx, events).1.action is Finish,
        UpdateWorkflowView::after(ctx, events).1.action->outcome is Failed,
    ensures
        exists|index: int|
            0 <= index < events.len() && (#[trigger] UpdateWorkflowView::asked_at(
                ctx,
                events,
                index,
            )) == (WorkflowActionView::ReportError {
                error: UpdateWorkflowView::after(ctx, events).1.action->outcome->error,
            }),
    decreases events.len(),
{
    let error = UpdateWorkflowView::after(ctx, events).1.action->outcome->error;
    lemma_update_keeps_session(ctx, events);
    if events.len() > 0 {
        let earlier = events.drop_last();
        lemma_update_keeps_session(ctx, earlier);
        if UpdateWorkflowView::after(ctx, earlier).0.stage is Reporting {
            assert(events.take(events.len() - 1) =~= earlier);
            assert(UpdateWorkflowView::asked_at(ctx, events, events.len() - 1) == (
            WorkflowActionView::ReportError { error }));
        } else {
            lemma_update_reports_failures(ctx, earlier);
            let index = choose|index: int|
                0 <= index < earlier.len() && (#[trigger] UpdateWorkflowView::asked_at(
                    ctx,
                    earlier,
                    index,
                )) == (WorkflowActionView::ReportError { error });
            assert(events.take(index) =~= earlier.take(index));
            assert(UpdateWorkflowView::asked_at(ctx, events, index) == (
            WorkflowActionView::ReportError { error }));
        }
    }
}

impl UpdateStage {
    /// The outside work that the stage waits for.
    pub fn pending(&self) -> (action: WorkflowAction)
        ensures
            action@ == self@.pending(),
    {
        match self {
            UpdateStage::CheckingSpace { plan } => WorkflowAction::CheckFreeSpace {
                location: plan.space_location.clone(),
                required: plan.required,
            },
            UpdateStage::OpeningPermissions { plan } => WorkflowAction::NormalizePermissions {
                location: plan.config_location.clone(),
            },
            UpdateStage::BackingUp { plan } => WorkflowAction::BackupConfig {
                location: plan.config_location.clone(),
            },
            UpdateStage::Verifying { plan, .. } => WorkflowAction::Verify {
                request: plan.verify.clone(),
            },
            UpdateStage::Patching { plan, .. } => WorkflowAction::ApplyPatch {
                request: plan.patch.clone(),
            },
            UpdateStage::Restoring { plan, content } => WorkflowAction::RestoreConfig {
                location: plan.config_location.clone(),
                content: content.clone(),
            },
            UpdateStage::ClosingPermissions { plan } => WorkflowAction::NormalizePermissions {
                location: plan.config_location.clone(),
            },
            UpdateStage::Reporting { error } => WorkflowAction::ReportError { error: error.clone() },
            UpdateStage::Finished { outcome } => WorkflowAction::Finish { outcome: outcome.clone() },
        }
    }
}

impl UpdateWorkflow {
    /// Settles what an update of the session `ctx` will do, before any
    /// outside work: `Ok` with the plan to carry out, or `Err` with the
    /// outcome that ends the update at once.
    pub fn plan(ctx: &RunnerContext) -> (plan: Result<UpdatePlan, WorkflowOutcome>)
        ensures
            plan matches Ok(made) ==> UpdateWorkflowView::plan(ctx@) == Ok::<
                UpdatePlanView,
                WorkflowOutcomeView,
            >(made@),
            plan matches Err(outcome) ==> UpdateWorkflowView::plan(ctx@) == Err::<
                UpdatePlanView,
                WorkflowOutcomeView,
            >(outcome@),
    {
        let current = match ctx.current_version {
            Some(current) => current,
            None => {
                return Err(WorkflowOutcome::NotInstalled);
            },
        };
        let latest = match ctx.remote_version_list.latest_version() {
            Ok((latest, _)) => latest,
            Err(error) => {
                return Err(WorkflowOutcome::Failed { error });
            },
        };
        let patch = match ctx.remote_version_list.applicable_patch(ctx.current_version, latest) {
            Some(patch) => patch,
            None => {
                return Err(WorkflowOutcome::NoPatchAvailable);
            },
        };
        let record = match ctx.current_remote_version() {
            Some(record) => record,
            None => {
                return Err(
                    WorkflowOutcome::Failed {
                        error: BeansError::RemoteVersionNotFound { version: current },
                    },
                );
            },
        };
        let verify = match ctx.verify_request_for(&record) {
            Some(verify) => verify,
            None => {
                return Err(WorkflowOutcome::MissingRemoteFiles);
            },
        };
        Ok(
            UpdatePlan {
                space_location: ctx.sourcemod_path.clone(),
                required: patch.tempreq as u64,
                config_location: ctx.gameinfo_location(),
                verify,
                patch: ctx.patch_request(&patch),
            },
        )
    }

    /// The workflow in `stage`, asking for what that stage waits for.
    fn proceed(ctx: RunnerContext, stage: UpdateStage, notice: Option<Notice>) -> (next: (
        UpdateWorkflow,
        WorkflowStep,
    ))
        ensures
            (next.0@, next.1@) == UpdateWorkflowView::proceed(
                ctx@,
                stage@,
                crate::model::view_of(notice),
            ),
    {
        let action = stage.pending();
        (UpdateWorkflow { ctx, stage }, WorkflowStep { notice, action })
    }

    /// Begins an update of the session `ctx` and names its first piece of
    /// outside work.
    pub fn wizard(ctx: RunnerContext) -> (next: (UpdateWorkflow, WorkflowStep))
        ensures
            (next.0@, next.1@) == UpdateWorkflowView::begin(ctx@),
    {
        match Self::plan(&ctx) {
            Ok(plan) => Self::proceed(ctx, UpdateStage::CheckingSpace { plan }, None),
            Err(outcome) => Self::proceed(ctx, UpdateStage::Finished { outcome }, None),
        }
    }

    /// Takes in how the outside work that was asked for ended, and names
    /// the next.
    pub fn resume(self, event: WorkflowEvent) -> (next: (UpdateWorkflow, WorkflowStep))
        ensures
            (next.0@, next.1@) == self@.resume(event@),
            next.0@.ctx == self@.ctx,
    {
        let UpdateWorkflow { ctx, stage } = self;
        match (stage, event) {
            (UpdateStage::CheckingSpace { plan }, WorkflowEvent::FreeSpace { available }) => {
                let notice = if has_free_space(available, plan.required) {
                    None
                } else {
                    Some(Notice::LowDiskSpace { required: plan.required, available })
                };
                Self::proceed(ctx, UpdateStage::OpeningPermissions { plan }, notice)
            },
            (UpdateStage::OpeningPermissions { plan }, WorkflowEvent::Done) => Self::proceed(
                ctx,
                UpdateStage::BackingUp { plan },
                None,
            ),
            (UpdateStage::BackingUp { plan }, WorkflowEvent::ConfigBackup { content }) => Self::proceed(
                ctx,
                UpdateStage::Verifying { plan, backup: content },
                None,
            ),
            (UpdateStage::Verifying { plan, backup }, WorkflowEvent::Done) => Self::proceed(
                ctx,
                UpdateStage::Patching { plan, backup },
                None,
            ),
            (
                UpdateStage::Patching { plan, backup: Some(content) },
                WorkflowEvent::Done,
            ) => Self::proceed(ctx, UpdateStage::Restoring { plan, content }, None),
            (UpdateStage::Patching { plan, backup: None }, WorkflowEvent::Done) => Self::proceed(
                ctx,
                UpdateStage::ClosingPermissions { plan },
                None,
            ),
            (UpdateStage::Restoring { plan, .. }, WorkflowEvent::Done) => Self::proceed(
                ctx,
                UpdateStage::ClosingPermissions { plan },
                None,
            ),
            (UpdateStage::ClosingPermissions { .. }, WorkflowEvent::Done) => Self::proceed(
                ctx,
                UpdateStage::Finished { outcome: WorkflowOutcome::Completed },
                None,
            ),
            (UpdateStage::Reporting { error }, _) => Self::proceed(
                ctx,
                UpdateStage::Finished { outcome: WorkflowOutcome::Failed { error } },
                None,
            ),
            (UpdateStage::Finished { outcome }, _) => Self::proceed(
                ctx,
                UpdateStage::Finished { outcome },
                None,
            ),
            (_, WorkflowEvent::Failed { error }) => Self::proceed(
                ctx,
                UpdateStage::Reporting { error },
                None,
            ),
            (stage, _) => Self::proceed(ctx, stage, None),
        }
    }
}

} // verus!
