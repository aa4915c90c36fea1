//! The verify workflow: check the installation against the signatures of
//! the installed version and repair what differs. The installed version
//! stays what it is.

use crate::butler::{VerifyRequest, VerifyRequestView};
use crate::ctx::{RunnerContext, RunnerContextView};
use crate::error::{BeansError, BeansErrorView};
use crate::model::view_of;
use crate::workflows::{
    WorkflowAction, WorkflowActionView, WorkflowEvent, WorkflowEventView, WorkflowOutcome,
    WorkflowOutcomeView, WorkflowStep, WorkflowStepView,
};
use vstd::prelude::*;

verus! {

/// Everything that a verification will ask for, settled before any outside
/// work is done.
#[derive(Debug, PartialEq, Eq)]
pub struct VerifyPlan {
    /// The user's configuration file, which is kept across the repair.
    pub config_location: String,
    /// The verification of the installed version.
    pub verify: VerifyRequest,
}

/// Mathematical model of a [`VerifyPlan`].
pub struct VerifyPlanView {
    pub config_location: Seq<char>,
    pub verify: VerifyRequestView,
}

impl View for VerifyPlan {
    type V = VerifyPlanView;

    open spec fn view(&self) -> VerifyPlanView {
        VerifyPlanView { config_location: self.config_location@, verify: self.verify@ }
    }
}

/// Where a verification stands: which piece of outside work it waits for.
#[derive(Debug, PartialEq, Eq)]
pub enum VerifyStage {
    /// Waiting for the configuration file to be made writable, before the
    /// installation is touched.
    OpeningPermissions { plan: VerifyPlan },
    /// Waiting for the configuration file to be read.
    BackingUp { plan: VerifyPlan },
    /// Waiting for the patch engine to verify and repair.
    Verifying { plan: VerifyPlan, backup: Option<Vec<u8>> },
    /// Waiting for the configuration file to be written back.
    Restoring { plan: VerifyPlan, content: Vec<u8> },
    /// Waiting for the configuration file to be made writable again, after
    /// the installation was touched.
    ClosingPermissions { plan: VerifyPlan },
    /// Waiting for the failure to be reported.
    Reporting { error: BeansError },
    /// The verification has ended.
    Finished { outcome: WorkflowOutcome },
}

/// Mathematical model of a [`VerifyStage`].
pub enum VerifyStageView {
    OpeningPermissions { plan: VerifyPlanView },
    BackingUp { plan: VerifyPlanView },
    Verifying { plan: VerifyPlanView, backup: Option<Seq<u8>> },
    Restoring { plan: VerifyPlanView, content: Seq<u8> },
    ClosingPermissions { plan: VerifyPlanView },
    Reporting { error: BeansErrorView },
    Finished { outcome: WorkflowOutcomeView },
}

impl View for VerifyStage {
    type V = VerifyStageView;

    open spec fn view(&self) -> VerifyStageView {
        match *self {
            VerifyStage::OpeningPermissions { plan } => VerifyStageView::OpeningPermissions {
                plan: plan@,
            },
            VerifyStage::BackingUp { plan } => VerifyStageView::BackingUp { plan: plan@ },
            VerifyStage::Verifying { plan, backup } => VerifyStageView::Verifying {
                plan: plan@,
                backup: view_of(backup),
            },
            VerifyStage::Restoring { plan, content } => VerifyStageView::Restoring {
                plan: plan@,
                content: content@,
            },
            VerifyStage::ClosingPermissions { plan } => VerifyStageView::ClosingPermissions {
                plan: plan@,
            },
            VerifyStage::Reporting { error } => VerifyStageView::Reporting { error: error@ },
            VerifyStage::Finished { outcome } => VerifyStageView::Finished { outcome: outcome@ },
        }
    }
}

/// A running verification: the session it belongs to and the stage it is
/// in.
#[derive(Debug, PartialEq, Eq)]
pub struct VerifyWorkflow {
    pub ctx: RunnerContext,
    pub stage: VerifyStage,
}

/// Mathematical model of a [`VerifyWorkflow`].
pub struct VerifyWorkflowView {
    pub ctx: RunnerContextView,
    pub stage: VerifyStageView,
}

impl View for VerifyWorkflow {
    type V = VerifyWorkflowView;

    open spec fn view(&self) -> VerifyWorkflowView {
        VerifyWorkflowView { ctx: self.ctx@, stage: self.stage@ }
    }
}

impl VerifyStageView {
    /// The outside work that the stage waits for.
    pub open spec fn pending(self) -> WorkflowActionView {
        match self {
            VerifyStageView::OpeningPermissions { plan } => WorkflowActionView::NormalizePermissions {
                location: plan.config_location,
            },
            VerifyStageView::BackingUp { plan } => WorkflowActionView::BackupConfig {
                location: plan.config_location,
            },
            VerifyStageView::Verifying { plan, backup } => WorkflowActionView::Verify {
                request: plan.verify,
            },
            VerifyStageView::Restoring { plan, content } => WorkflowActionView::RestoreConfig {
                location: plan.config_location,
                content,
            },
            VerifyStageView::ClosingPermissions { plan } => WorkflowActionView::NormalizePermissions {
                location: plan.config_location,
            },
            VerifyStageView::Reporting { error } => WorkflowActionView::ReportError { error },
            VerifyStageView::Finished { outcome } => WorkflowActionView::Finish { outcome },
        }
    }
}

impl VerifyStageView {
    /// The content of the configuration file that the stage keeps for
    /// writing back, if it keeps any.
    pub open spec fn held_backup(self) -> Option<Seq<u8>> {
        match self {
            VerifyStageView::Verifying { plan, backup } => backup,
            VerifyStageView::Restoring { plan, content } => Some(content),
            _ => None,
        }
    }
}

impl VerifyWorkflowView {
    /// What a verification of the session `ctx` comes to before any outside
    /// work: the plan to carry out, or the outcome that ends it at once.
    ///
    /// Nothing installed: nothing to verify. No record of the installed
    /// version in the catalog: an error. A record, but without signature or
    /// heal address: nothing is attempted.
    pub open spec fn plan(ctx: RunnerContextView) -> Result<VerifyPlanView, WorkflowOutcomeView> {
        if ctx.current_version is None {
            Err(WorkflowOutcomeView::NotInstalled)
        } else if ctx.current_remote_version() is None {
            Err(
                WorkflowOutcomeView::Failed {
                    error: BeansErrorView::RemoteVersionNotFound {
                        version: ctx.current_version.unwrap(),
                    },
                },
            )
        } else {
            match ctx.verify_request() {
                Some(verify) => Ok(
                    VerifyPlanView { config_location: ctx.gameinfo_location(), verify },
                ),
                None => Err(WorkflowOutcomeView::MissingRemoteFiles),
            }
        }
    }

    /// The workflow in `stage`, asking for what that stage waits for.
    pub open spec fn proceed(ctx: RunnerContextView, stage: VerifyStageView) -> (
        VerifyWorkflowView,
        WorkflowStepView,
    ) {
        (VerifyWorkflowView { ctx, stage }, WorkflowStepView::silent(stage.pending()))
    }

    /// The first step of a verification of the session `ctx`.
    pub open spec fn begin(ctx: RunnerContextView) -> (VerifyWorkflowView, WorkflowStepView) {
        match Self::plan(ctx) {
            Ok(plan) => Self::proceed(ctx, VerifyStageView::OpeningPermissions { plan }),
            Err(outcome) => Self::proceed(ctx, VerifyStageView::Finished { outcome }),
        }
    }

    /// The step that answers `event`.
    ///
    /// A failure of any piece of outside work ends the verification: the
    /// failure is reported, then handed to the caller. An event that does
    /// not answer what the stage waits for changes nothing: the same work
    /// is asked for again.
    pub open spec fn resume(self, event: WorkflowEventView) -> (
        VerifyWorkflowView,
        WorkflowStepView,
    ) {
        match (self.stage, event) {
            (VerifyStageView::OpeningPermissions { plan }, WorkflowEventView::Done) => Self::proceed(
                self.ctx,
                VerifyStageView::BackingUp { plan },
            ),
            (
                VerifyStageView::BackingUp { plan },
                WorkflowEventView::ConfigBackup { content },
            ) => Self::proceed(self.ctx, VerifyStageView::Verifying { plan, backup: content }),
            (
                VerifyStageView::Verifying { plan, backup: Some(content) },
                WorkflowEventView::Done,
            ) => Self::proceed(self.ctx, VerifyStageView::Restoring { plan, content }),
            (
                VerifyStageView::Verifying { plan, backup: None },
                WorkflowEventView::Done,
            ) => Self::proceed(self.ctx, VerifyStageView::ClosingPermissions { plan }),
            (VerifyStageView::Restoring { plan, content }, WorkflowEventView::Done) => Self::proceed(
                self.ctx,
                VerifyStageView::ClosingPermissions { plan },
            ),
            (VerifyStageView::ClosingPermissions { plan }, WorkflowEventView::Done) => Self::proceed(
                self.ctx,
                VerifyStageView::Finished { outcome: WorkflowOutcomeView::Completed },
            ),
            (VerifyStageView::Reporting { error }, _) => Self::proceed(
                self.ctx,
                VerifyStageView::Finished { outcome: WorkflowOutcomeView::Failed { error } },
            ),
            (VerifyStageView::Finished { outcome }, _) => Self::proceed(self.ctx, self.stage),
            (_, WorkflowEventView::Failed { error }) => Self::proceed(
                self.ctx,
                VerifyStageView::Reporting { error },
            ),
            (_, _) => Self::proceed(self.ctx, self.stage),
        }
    }

    /// The verification of the session `ctx` once `events` have come in,
    /// in this order, each as the answer to the step before it: the
    /// workflow as it then stands, and the step it answered last.
    pub open spec fn after(ctx: RunnerContextView, events: Seq<WorkflowEventView>) -> (
        VerifyWorkflowView,
        WorkflowStepView,
    )
        decreases events.len(),
    {
        if events.len() == 0 {
            Self::begin(ctx)
        } else {
            Self::after(ctx, events.drop_last()).0.resume(events.last())
        }
    }

    /// What the verification of the session `ctx` waits for when the event
    /// at `index` comes in: the work that this event answers.
    pub open spec fn asked_at(
        ctx: RunnerContextView,
        events: Seq<WorkflowEventView>,
        index: int,
    ) -> WorkflowActionView {
        Self::after(ctx, events.take(index)).1.action
    }
}

/// A verification never changes the session it belongs to, least of all
/// the installed version, and what it asks for is always what its stage
/// waits for.
pub proof fn lemma_verify_keeps_session(ctx: RunnerContextView, events: Seq<WorkflowEventView>)
    ensures
        VerifyWorkflowView::after(ctx, events).0.ctx == ctx,
        VerifyWorkflowView::after(ctx, events).1.action == VerifyWorkflowView::after(
            ctx,
            events,
        ).0.stage.pending(),
    decreases events.len(),
{
    if events.len() > 0 {
        lemma_verify_keeps_session(ctx, events.drop_last());
    }
}

/// A verification that has no plan to carry out does no outside work at
/// all: its first step and every later one end it with the same outcome.
pub proof fn lemma_verify_without_plan(ctx: RunnerContextView, events: Seq<WorkflowEventView>)
    requires
        VerifyWorkflowView::plan(ctx) is Err,
    ensures
        VerifyWorkflowView::after(ctx, events).1 == WorkflowStepView::silent(
            WorkflowActionView::Finish { outcome: VerifyWorkflowView::plan(ctx)->Err_0 },
        ),
        VerifyWorkflowView::after(ctx, events).0.stage is Finished,
    decreases events.len(),
{
    if events.len() > 0 {
        lemma_verify_without_plan(ctx, events.drop_last());
    }
}

/// Where the catalog's record of the installed version lacks the signature
/// address or the heal address, a verification succeeds without verifying:
/// whatever events come in, every step says so, and none asks for the patch
/// engine.
pub proof fn lemma_verify_without_remote_files(
    ctx: RunnerContextView,
    events: Seq<WorkflowEventView>,
)
    requires
        ctx.current_remote_version() matches Some(record) && (record.signature_url is None
            || record.heal_url is None),
    ensures
        VerifyWorkflowView::after(ctx, events).1.action == (WorkflowActionView::Finish {
            outcome: WorkflowOutcomeView::MissingRemoteFiles,
        }),
        WorkflowOutcomeView::MissingRemoteFiles.is_success(),
        !VerifyWorkflowView::after(ctx, events).1.action.calls_patch_engine(),
{
    lemma_verify_without_plan(ctx, events);
}

/// Where nothing is installed, a verification succeeds without doing
/// anything.
pub proof fn lemma_verify_of_nothing_installed(
    ctx: RunnerContextView,
    events: Seq<WorkflowEventView>,
)
    requires
        ctx.current_version is None,
    ensures
        VerifyWorkflowView::after(ctx, events).1.action == (WorkflowActionView::Finish {
            outcome: WorkflowOutcomeView::NotInstalled,
        }),
        WorkflowOutcomeView::NotInstalled.is_success(),
{
    lemma_verify_without_plan(ctx, events);
}

/// A verification is complete only where the patch engine verified: it
/// restores the configuration, normalizes permissions again or ends with
/// `Completed` only after it asked for the verification and was told that
/// it was done.
pub proof fn lemma_verify_completes_after_verifying(
    ctx: RunnerContextView,
    events: Seq<WorkflowEventView>,
)
    requires
        VerifyWorkflowView::after(ctx, events).0.stage is Restoring || VerifyWorkflowView::after(
            ctx,
            events,
        ).0.stage is ClosingPermissions || VerifyWorkflowView::after(ctx, events).1.action == (
        WorkflowActionView::Finish { outcome: WorkflowOutcomeView::Completed }),
    ensures
        exists|index: int|
            0 <= index < events.len() && events[index] is Done
                && (#[trigger] VerifyWorkflowView::asked_at(ctx, events, index)) is Verify,
    decreases events.len(),
{
    lemma_verify_keeps_session(ctx, events);
    if events.len() > 0 {
        let earlier = events.drop_last();
        lemma_verify_keeps_session(ctx, earlier);
        if VerifyWorkflowView::after(ctx, earlier).0.stage is Verifying {
            assert(events.take(events.len() - 1) =~= earlier);
            assert(VerifyWorkflowView::asked_at(ctx, events, events.len() - 1) is Verify);
        } else {
            lemma_verify_completes_after_verifying(ctx, earlier);
            let index = choose|index: int|
                0 <= index < earlier.len() && earlier[index] is Done
                    && (#[trigger] VerifyWorkflowView::asked_at(ctx, earlier, index)) is Verify;
            assert(events.take(index) =~= earlier.take(index));
            assert(VerifyWorkflowView::asked_at(ctx, events, index) is Verify);
        }
    }
}

/// What a verification keeps of the configuration file is what it was told the
/// file holds, unchanged: it comes from the answer to its own request to
/// read the file.
proof fn lemma_verify_backup_origin(ctx: RunnerContextView, events: Seq<WorkflowEventView>)
    requires
        VerifyWorkflowView::after(ctx, events).0.stage.held_backup() is Some,
    ensures
        exists|index: int|
            0 <= index < events.len() && events[index] == (WorkflowEventView::ConfigBackup {
                content: VerifyWorkflowView::after(ctx, events).0.stage.held_backup(),
            }) && (#[trigger] VerifyWorkflowView::asked_at(ctx, events, index)) is BackupConfig,
    decreases events.len(),
{
    let held = VerifyWorkflowView::after(ctx, events).0.stage.held_backup();
    lemma_verify_keeps_session(ctx, events);
    if events.len() > 0 {
        let earlier = events.drop_last();
        lemma_verify_keeps_session(ctx, earlier);
        if VerifyWorkflowView::after(ctx, earlier).0.stage is BackingUp {
            assert(events.take(events.len() - 1) =~= earlier);
            assert(VerifyWorkflowView::asked_at(ctx, events, events.len() - 1) is BackupConfig);
        } else {
            lemma_verify_backup_origin(ctx, earlier);
            let index = choose|index: int|
                0 <= index < earlier.len() && earlier[index] == (WorkflowEventView::ConfigBackup {
                    content: held,
                }) && (#[trigger] VerifyWorkflowView::asked_at(ctx, earlier, index)) is BackupConfig;
            assert(events.take(index) =~= earlier.take(index));
            assert(VerifyWorkflowView::asked_at(ctx, events, index) is BackupConfig);
        }
    }
}

/// The configuration file is restored verbatim: where a verification asks to
/// write the file back, the content it hands over is exactly the content
/// that it was told the file held before the installation was touched.
pub proof fn lemma_verify_restores_what_was_read(
    ctx: RunnerContextView,
    events: Seq<WorkflowEventView>,
)
    requires
        VerifyWorkflowView::after(ctx, events).1.action is RestoreConfig,
    ensures
        exists|index: int|
            0 <= index < events.len() && events[index] == (WorkflowEventView::ConfigBackup {
                content: Some(VerifyWorkflowView::after(ctx, events).1.action->content),
            }) && (#[trigger] VerifyWorkflowView::asked_at(ctx, events, index)) is BackupConfig,
{
    lemma_verify_keeps_session(ctx, events);
    lemma_verify_backup_origin(ctx, events);
}

/// No failure of outside work is handed to the caller unreported: where a
/// verification that had a plan to carry out ends in a failure, it asked
/// before for that failure to be reported.
pub proof fn lemma_verify_reports_failures(ctx: RunnerContextView, events: Seq<WorkflowEventView>)
    requires
        VerifyWorkflowView::plan(ctx) is Ok,
        VerifyWorkflowView::after(ctx, events).1.action is Finish,
        VerifyWorkflowView::after(ctx, events).1.action->outcome is Failed,
    ensures
        exists|index: int|
            0 <= index < events.len() && (#[trigger] VerifyWorkflowView::asked_at(
                ctx,
                events,
                index,
            )) == (WorkflowActionView::ReportError {
                error: VerifyWorkflowView::after(ctx, events).1.action->outcome->error,
            }),
    decreases events.len(),
{
    let error = VerifyWorkflowView::after(ctx, events).1.action->outcome->error;
    lemma_verify_keeps_session(ctx, events);
    if events.len() > 0 {
        let earlier = events.drop_last();
        lemma_verify_keeps_session(ctx, earlier);
        if VerifyWorkflowView::after(ctx, earlier).0.stage is Reporting {
            assert(events.take(events.len() - 1) =~= earlier);
            assert(VerifyWorkflowView::asked_at(ctx, events, events.len() - 1) == (
            WorkflowActionView::ReportError { error }));
        } else {
            lemma_verify_reports_failures(ctx, earlier);
            let index = choose|index: int|
                0 <= index < earlier.len() && (#[trigger] VerifyWorkflowView::asked_at(
                    ctx,
                    earlier,
                    index,
                )) == (WorkflowActionView::ReportError { error });
            assert(events.take(index) =~= earlier.take(index));
            assert(VerifyWorkflowView::asked_at(ctx, events, index) == (
            WorkflowActionView::ReportError { error }));
        }
    }
}

impl VerifyStage {
    /// The outside work that the stage waits for.
    pub fn pending(&self) -> (action: WorkflowAction)
        ensures
            action@ == self@.pending(),
    {
        match self {
            VerifyStage::OpeningPermissions { plan } => WorkflowAction::NormalizePermissions {
                location: plan.config_location.clone(),
            },
            VerifyStage::BackingUp { plan } => WorkflowAction::BackupConfig {
                location: plan.config_location.clone(),
            },
            VerifyStage::Verifying { plan, .. } => WorkflowAction::Verify {
                request: plan.verify.clone(),
            },
            VerifyStage::Restoring { plan, content } => WorkflowAction::RestoreConfig {
                location: plan.config_location.clone(),
                content: content.clone(),
            },
            VerifyStage::ClosingPermissions { plan } => WorkflowAction::NormalizePermissions {
                location: plan.config_location.clone(),
            },
            VerifyStage::Reporting { error } => WorkflowAction::ReportError { error: error.clone() },
            VerifyStage::Finished { outcome } => WorkflowAction::Finish { outcome: outcome.clone() },
        }
    }
}

impl VerifyWorkflow {
    /// Settles what a verification of the session `ctx` will do, before any
    /// outside work: `Ok` with the plan to carry out, or `Err` with the
    /// outcome that ends the verification at once.
    pub fn plan(ctx: &RunnerContext) -> (plan: Result<VerifyPlan, WorkflowOutcome>)
        ensures
            plan matches Ok(made) ==> VerifyWorkflowView::plan(ctx@) == Ok::<
                VerifyPlanView,
                WorkflowOutcomeView,
            >(made@),
            plan matches Err(outcome) ==> VerifyWorkflowView::plan(ctx@) == Err::<
                VerifyPlanView,
                WorkflowOutcomeView,
            >(outcome@),
    {
        let current = match ctx.current_version {
            Some(current) => current,
            None => {
                return Err(WorkflowOutcome::NotInstalled);
            },
        };
        let record = match ctx.current_remote_version() {
            Some(record) => record,
            None => {
                return Err(
                    WorkflowOutcome::Failed {
                        error: BeansError::RemoteVersionNotFound { version: current },
                    },
                );
            },
        };
        match ctx.verify_request_for(&record) {
            Some(verify) => Ok(VerifyPlan { config_location: ctx.gameinfo_location(), verify }),
            None => Err(WorkflowOutcome::MissingRemoteFiles),
        }
    }

    /// The workflow in `stage`, asking for what that stage waits for.
    fn proceed(ctx: RunnerContext, stage: VerifyStage) -> (next: (VerifyWorkflow, WorkflowStep))
        ensures
            (next.0@, next.1@) == VerifyWorkflowView::proceed(ctx@, stage@),
    {
        let action = stage.pending();
        (VerifyWorkflow { ctx, stage }, WorkflowStep { notice: None, action })
    }

    /// Begins a verification of the session `ctx` and names its first piece
    /// of outside work.
    pub fn wizard(ctx: RunnerContext) -> (next: (VerifyWorkflow, WorkflowStep))
        ensures
            (next.0@, next.1@) == VerifyWorkflowView::begin(ctx@),
    {
        match Self::plan(&ctx) {
            Ok(plan) => Self::proceed(ctx, VerifyStage::OpeningPermissions { plan }),
            Err(outcome) => Self::proceed(ctx, VerifyStage::Finished { outcome }),
        }
    }

    /// Takes in how the outside work that was asked for ended, and names
    /// the next.
    pub fn resume(self, event: WorkflowEvent) -> (next: (VerifyWorkflow, WorkflowStep))
        ensures
            (next.0@, next.1@) == self@.resume(event@),
            next.0@.ctx == self@.ctx,
    {
        let VerifyWorkflow { ctx, stage } = self;
        match (stage, event) {
            (VerifyStage::OpeningPermissions { plan }, WorkflowEvent::Done) => Self::proceed(
                ctx,
                VerifyStage::BackingUp { plan },
            ),
            (VerifyStage::BackingUp { plan }, WorkflowEvent::ConfigBackup { content }) => Self::proceed(
                ctx,
                VerifyStage::Verifying { plan, backup: content },
            ),
            (
                VerifyStage::Verifying { plan, backup: Some(content) },
                WorkflowEvent::Done,
            ) => Self::proceed(ctx, VerifyStage::Restoring { plan, content }),
            (VerifyStage::Verifying { plan, backup: None }, WorkflowEvent::Done) => Self::proceed(
                ctx,
                VerifyStage::ClosingPermissions { plan },
            ),
            (VerifyStage::Restoring { plan, .. }, WorkflowEvent::Done) => Self::proceed(
                ctx,
                VerifyStage::ClosingPermissions { plan },
            ),
            (VerifyStage::ClosingPermissions { .. }, WorkflowEvent::Done) => Self::proceed(
                ctx,
                VerifyStage::Finished { outcome: WorkflowOutcome::Completed },
            ),
            (VerifyStage::Reporting { error }, _) => Self::proceed(
                ctx,
                VerifyStage::Finished { outcome: WorkflowOutcome::Failed { error } },
            ),
            (VerifyStage::Finished { outcome }, _) => Self::proceed(
                ctx,
                VerifyStage::Finished { outcome },
            ),
            (_, WorkflowEvent::Failed { error }) => Self::proceed(
                ctx,
                VerifyStage::Reporting { error },
            ),
            (stage, _) => Self::proceed(ctx, stage),
        }
    }
}

} // verus!
