//! The install workflow: download the full package of the latest version,
//! extract it into the installation root and record the installed version.
//! Reinstalling over an existing installation takes the same path.

use crate::ctx::{RunnerContext, RunnerContextView};
use crate::decimal::{decimal, to_decimal};
use crate::error::{BeansError, BeansErrorView, DownloadFailureReason, DownloadFailureReasonView};
use crate::model::view_of;
use crate::version::{
    AdastralVersionFile, AdastralVersionFileView, RemoteVersion, RemoteVersionView,
};
use crate::workflows::{
    Notice, NoticeView, WorkflowAction, WorkflowActionView, WorkflowEvent, WorkflowEventView,
    WorkflowOutcome, WorkflowOutcomeView, WorkflowStep, WorkflowStepView,
};
use vstd::prelude::*;

verus! {

/// Where an installation stands: which piece of outside work it waits for.
///
/// `cleanup` tells whether the package file was downloaded by this
/// workflow, which then deletes it at the end, or was handed in by the
/// caller, who keeps it.
#[derive(Debug, PartialEq, Eq)]
#[allow(inconsistent_fields)]
pub enum InstallStage {
    /// Waiting for the full package of version `version_id` to be
    /// downloaded.
    Fetching { version: RemoteVersion, version_id: usize },
    /// Waiting to learn whether the package file exists.
    Probing { package: String, version_id: Option<usize>, cleanup: bool },
    /// Waiting for the package to be extracted.
    Extracting { package: String, version_id: Option<usize>, cleanup: bool },
    /// Waiting for the version marker to be written.
    Persisting { package: String, marker: AdastralVersionFile, cleanup: bool },
    /// Waiting for the downloaded package to be deleted.
    CleaningUp { package: String, outcome: WorkflowOutcome },
    /// The installation has ended.
    Finished { outcome: WorkflowOutcome },
}

/// Mathematical model of an [`InstallStage`].
#[allow(inconsistent_fields)]
pub enum InstallStageView {
    Fetching { version: RemoteVersionView, version_id: usize },
    Probing { package: Seq<char>, version_id: Option<usize>, cleanup: bool },
    Extracting { package: Seq<char>, version_id: Option<usize>, cleanup: bool },
    Persisting { package: Seq<char>, marker: AdastralVersionFileView, cleanup: bool },
    CleaningUp { package: Seq<char>, outcome: WorkflowOutcomeView },
    Finished { outcome: WorkflowOutcomeView },
}

impl View for InstallStage {
    type V = InstallStageView;

    open spec fn view(&self) -> InstallStageView {
        match *self {
            InstallStage::Fetching { version, version_id } => InstallStageView::Fetching {
                version: version@,
                version_id,
            },
            InstallStage::Probing { package, version_id, cleanup } => InstallStageView::Probing {
                package: package@,
                version_id,
                cleanup,
            },
            InstallStage::Extracting { package, version_id, cleanup } => InstallStageView::Extracting {
                package: package@,
                version_id,
                cleanup,
            },
            InstallStage::Persisting { package, marker, cleanup } => InstallStageView::Persisting {
                package: package@,
                marker: marker@,
                cleanup,
            },
            InstallStage::CleaningUp { package, outcome } => InstallStageView::CleaningUp {
                package: package@,
                outcome: outcome@,
            },
            InstallStage::Finished { outcome } => InstallStageView::Finished { outcome: outcome@ },
        }
    }
}

/// A running installation: the session it belongs to and the stage it is
/// in.
#[derive(Debug, PartialEq, Eq)]
pub struct InstallWorkflow {
    pub context: RunnerContext,
    pub stage: InstallStage,
}

/// Mathematical model of an [`InstallWorkflow`].
pub struct InstallWorkflowView {
    pub context: RunnerContextView,
    pub stage: InstallStageView,
}

impl View for InstallWorkflow {
    type V = InstallWorkflowView;

    open spec fn view(&self) -> InstallWorkflowView {
        InstallWorkflowView { context: self.context@, stage: self.stage@ }
    }
}

/// The failure of an installation whose package file is not where it
/// should be.
pub open spec fn package_not_found(location: Seq<char>) -> BeansErrorView {
    BeansErrorView::DownloadFailure {
        reason: DownloadFailureReasonView::FileNotFound { location },
    }
}

impl InstallWorkflowView {
    /// The outside work that the workflow waits for.
    pub open spec fn pending(self) -> WorkflowActionView {
        match self.stage {
            InstallStageView::Fetching { version, version_id } => WorkflowActionView::FetchPackage {
                version,
            },
            InstallStageView::Probing { package, version_id, cleanup } => WorkflowActionView::ProbePackage {
                location: package,
            },
            InstallStageView::Extracting { package, version_id, cleanup } => WorkflowActionView::ExtractPackage {
                package,
                out_dir: self.context.sourcemod_path,
            },
            InstallStageView::Persisting { package, marker, cleanup } => WorkflowActionView::WriteMarker {
                location: self.context.version_location(),
                marker,
            },
            InstallStageView::CleaningUp { package, outcome } => WorkflowActionView::DeletePackage {
                location: package,
            },
            InstallStageView::Finished { outcome } => WorkflowActionView::Finish { outcome },
        }
    }

    /// The workflow in `stage`, asking for what that stage waits for.
    pub open spec fn proceed(
        context: RunnerContextView,
        stage: InstallStageView,
        notice: Option<NoticeView>,
    ) -> (InstallWorkflowView, WorkflowStepView) {
        let workflow = InstallWorkflowView { context, stage };
        (workflow, WorkflowStepView { notice, action: workflow.pending() })
    }

    /// The step that the work on the package ends with: the package is
    /// deleted first where this workflow downloaded it, whatever `outcome`
    /// is.
    pub open spec fn conclude(
        context: RunnerContextView,
        package: Seq<char>,
        cleanup: bool,
        outcome: WorkflowOutcomeView,
        notice: Option<NoticeView>,
    ) -> (InstallWorkflowView, WorkflowStepView) {
        if cleanup {
            Self::proceed(context, InstallStageView::CleaningUp { package, outcome }, notice)
        } else {
            Self::proceed(context, InstallStageView::Finished { outcome }, notice)
        }
    }

    /// The first step of an installation of the latest version into the
    /// session `context`. A catalog without versions has no latest version,
    /// which is an error.
    pub open spec fn begin(context: RunnerContextView) -> (InstallWorkflowView, WorkflowStepView) {
        let catalog = context.remote_version_list;
        if catalog.versions.dom().is_empty() {
            Self::proceed(
                context,
                InstallStageView::Finished {
                    outcome: WorkflowOutcomeView::Failed { error: BeansErrorView::EmptyManifest },
                },
                None,
            )
        } else {
            Self::proceed(
                context,
                InstallStageView::Fetching {
                    version: catalog.versions[catalog.latest_id()],
                    version_id: catalog.latest_id(),
                },
                match context.current_version {
                    Some(current) => Some(NoticeView::Reinstalling { current }),
                    None => None,
                },
            )
        }
    }

    /// The first step of an installation from the package file at
    /// `package`, which holds version `version_id`. The caller keeps the
    /// file. Without a version, no marker is written.
    pub open spec fn begin_from(
        context: RunnerContextView,
        package: Seq<char>,
        version_id: Option<usize>,
    ) -> (InstallWorkflowView, WorkflowStepView) {
        Self::proceed(
            context,
            InstallStageView::Probing { package, version_id, cleanup: false },
            None,
        )
    }

    /// The step that answers `event`.
    ///
    /// The installed version changes at one point only: when the package
    /// of a known version has been extracted. A marker that cannot be
    /// written and a package that cannot be deleted are told, and do not
    /// undo a finished installation. An event that does not answer what the
    /// stage waits for changes nothing: the same work is asked for again.
    pub open spec fn resume(self, event: WorkflowEventView) -> (
        InstallWorkflowView,
        WorkflowStepView,
    ) {
        let context = self.context;
        match (self.stage, event) {
            (
                InstallStageView::Fetching { version, version_id },
                WorkflowEventView::PackageFetched { location },
            ) => Self::proceed(
                context,
                InstallStageView::Probing {
                    package: location,
                    version_id: Some(version_id),
                    cleanup: true,
                },
                None,
            ),
            (
                InstallStageView::Fetching { version, version_id },
                WorkflowEventView::Failed { error },
            ) => Self::proceed(
                context,
                InstallStageView::Finished { outcome: WorkflowOutcomeView::Failed { error } },
                None,
            ),
            (
                InstallStageView::Probing { package, version_id, cleanup },
                WorkflowEventView::PackageProbed { exists },
            ) => if exists {
                Self::proceed(
                    context,
                    InstallStageView::Extracting { package, version_id, cleanup },
                    None,
                )
            } else {
                Self::conclude(
                    context,
                    package,
                    cleanup,
                    WorkflowOutcomeView::Failed { error: package_not_found(package) },
                    None,
                )
            },
            (
                InstallStageView::Probing { package, version_id, cleanup },
                WorkflowEventView::Failed { error },
            ) => Self::conclude(
                context,
                package,
                cleanup,
                WorkflowOutcomeView::Failed { error },
                None,
            ),
            (
                InstallStageView::Extracting { package, version_id: Some(installed), cleanup },
                WorkflowEventView::Done,
            ) => Self::proceed(
                RunnerContextView { current_version: Some(installed), ..context },
                InstallStageView::Persisting {
                    package,
                    marker: AdastralVersionFileView { version: decimal(installed as nat) },
                    cleanup,
                },
                None,
            ),
            (
                InstallStageView::Extracting { package, version_id: None, cleanup },
                WorkflowEventView::Done,
            ) => Self::conclude(
                context,
                package,
                cleanup,
                WorkflowOutcomeView::Completed,
                Some(NoticeView::MarkerSkipped),
            ),
            (
                InstallStageView::Extracting { package, version_id, cleanup },
                WorkflowEventView::Failed { error },
            ) => Self::conclude(
                context,
                package,
                cleanup,
                WorkflowOutcomeView::Failed { error },
                None,
            ),
            (
                InstallStageView::Persisting { package, marker, cleanup },
                WorkflowEventView::Done,
            ) => Self::conclude(context, package, cleanup, WorkflowOutcomeView::Completed, None),
            (
                InstallStageView::Persisting { package, marker, cleanup },
                WorkflowEventView::Failed { error },
            ) => Self::conclude(
                context,
                package,
                cleanup,
                WorkflowOutcomeView::Completed,
                Some(NoticeView::MarkerNotWritten { error }),
            ),
            (
                InstallStageView::CleaningUp { package, outcome },
                WorkflowEventView::Done,
            ) => Self::proceed(context, InstallStageView::Finished { outcome }, None),
            (
                InstallStageView::CleaningUp { package, outcome },
                WorkflowEventView::Failed { error },
            ) => Self::proceed(
                context,
                InstallStageView::Finished { outcome },
                Some(NoticeView::PackageNotDeleted { error }),
            ),
            (_, _) => Self::proceed(context, self.stage, None),
        }
    }
}

impl InstallWorkflowView {
    /// The installation that began with `start` once `events` have come in,
    /// in this order, each as the answer to the step before it: the
    /// workflow as it then stands, and the step it answered last.
    pub open spec fn after(
        start: (InstallWorkflowView, WorkflowStepView),
        events: Seq<WorkflowEventView>,
    ) -> (InstallWorkflowView, WorkflowStepView)
        decreases events.len(),
    {
        if events.len() == 0 {
            start
        } else {
            Self::after(start, events.drop_last()).0.resume(events.last())
        }
    }

    /// What the installation waits for when the event at `index` comes in:
    /// the work that this event answers.
    pub open spec fn asked_at(
        start: (InstallWorkflowView, WorkflowStepView),
        events: Seq<WorkflowEventView>,
        index: int,
    ) -> WorkflowActionView {
        Self::after(start, events.take(index)).1.action
    }

    /// The version that an installation from the catalog of the session
    /// `ctx` installs: the latest one, if the catalog has any version.
    pub open spec fn latest_target(ctx: RunnerContextView) -> Option<usize> {
        if ctx.remote_version_list.versions.dom().is_empty() {
            None
        } else {
            Some(ctx.remote_version_list.latest_id())
        }
    }

    /// Whether `start` begins an installation of version `target` into the
    /// session `ctx`, be it from the catalog or from a package at hand.
    pub open spec fn begins(
        start: (InstallWorkflowView, WorkflowStepView),
        ctx: RunnerContextView,
        target: Option<usize>,
    ) -> bool {
        ||| start == Self::begin(ctx) && target == Self::latest_target(ctx)
        ||| exists|package: Seq<char>| start == Self::begin_from(ctx, package, target)
    }

    /// Whether the workflow is as far as an installation of version
    /// `target` into the session `ctx` can have come: the session is
    /// untouched up to the extraction and records `target` from then on,
    /// and the outcome that the workflow holds, if it holds one, is a
    /// failure from before the extraction or completion after it.
    pub open spec fn on_course(self, ctx: RunnerContextView, target: Option<usize>) -> bool {
        match self.stage {
            InstallStageView::Fetching { version, version_id } => self.context == ctx && target
                == Some(version_id),
            InstallStageView::Probing { package, version_id, cleanup } => self.context == ctx
                && target == version_id,
            InstallStageView::Extracting { package, version_id, cleanup } => self.context == ctx
                && target == version_id,
            InstallStageView::Persisting { package, marker, cleanup } => target is Some
                && self.context == ctx.installed(target),
            InstallStageView::CleaningUp { package, outcome } => self.settled(ctx, target, outcome),
            InstallStageView::Finished { outcome } => self.settled(ctx, target, outcome),
        }
    }

    /// Whether the session of the workflow is what `outcome` makes of the
    /// session `ctx`: unchanged after a failure, recording `target` after
    /// completion.
    pub open spec fn settled(
        self,
        ctx: RunnerContextView,
        target: Option<usize>,
        outcome: WorkflowOutcomeView,
    ) -> bool {
        match outcome {
            WorkflowOutcomeView::Failed { error } => self.context == ctx,
            WorkflowOutcomeView::Completed => self.context == ctx.installed(target),
            _ => false,
        }
    }
}

impl RunnerContextView {
    /// The session once version `target` is installed. Where the version
    /// of what was installed is not known, the session stays as it is.
    pub open spec fn installed(self, target: Option<usize>) -> RunnerContextView {
        match target {
            Some(version) => RunnerContextView { current_version: Some(version), ..self },
            None => self,
        }
    }
}

/// An installation stays on course, and what it asks for is always what
/// its stage waits for.
pub proof fn lemma_install_stays_on_course(
    start: (InstallWorkflowView, WorkflowStepView),
    ctx: RunnerContextView,
    target: Option<usize>,
    events: Seq<WorkflowEventView>,
)
    requires
        InstallWorkflowView::begins(start, ctx, target),
    ensures
        InstallWorkflowView::after(start, events).0.on_course(ctx, target),
        InstallWorkflowView::after(start, events).1.action == InstallWorkflowView::after(
            start,
            events,
        ).0.pending(),
    decreases events.len(),
{
    if events.len() > 0 {
        lemma_install_stays_on_course(start, ctx, target, events.drop_last());
    }
}

/// An installation reports no failure to anyone but its caller, and never
/// asks for the patch engine.
pub proof fn lemma_install_reports_nothing(
    start: (InstallWorkflowView, WorkflowStepView),
    ctx: RunnerContextView,
    target: Option<usize>,
    events: Seq<WorkflowEventView>,
)
    requires
        InstallWorkflowView::begins(start, ctx, target),
    ensures
        !(InstallWorkflowView::after(start, events).1.action is ReportError),
        !InstallWorkflowView::after(start, events).1.action.calls_patch_engine(),
{
    lemma_install_stays_on_course(start, ctx, target, events);
}

/// The installed version is recorded on success and on nothing else. An
/// installation that ends in a failure leaves the session as it was; one
/// that ends otherwise is complete, and the session then records the
/// version that was installed (the latest one of the catalog, or the one
/// that was named for the package at hand) and is unchanged in all else.
pub proof fn lemma_install_records_success_only(
    start: (InstallWorkflowView, WorkflowStepView),
    ctx: RunnerContextView,
    target: Option<usize>,
    events: Seq<WorkflowEventView>,
)
    requires
        InstallWorkflowView::begins(start, ctx, target),
        InstallWorkflowView::after(start, events).1.action is Finish,
    ensures
        ({
            let (workflow, step) = InstallWorkflowView::after(start, events);
            let outcome = step.action->outcome;
            &&& outcome is Failed || outcome is Completed
            &&& outcome is Failed ==> workflow.context == ctx
            &&& outcome is Completed ==> workflow.context == ctx.installed(target)
        }),
{
    lemma_install_stays_on_course(start, ctx, target, events);
}

/// Nothing is recorded that was not extracted: where the session of an
/// installation differs from the session it began with, the workflow
/// asked for the extraction before and was told that it was done.
pub proof fn lemma_install_records_after_extraction(
    start: (InstallWorkflowView, WorkflowStepView),
    ctx: RunnerContextView,
    target: Option<usize>,
    events: Seq<WorkflowEventView>,
)
    requires
        InstallWorkflowView::begins(start, ctx, target),
        InstallWorkflowView::after(start, events).0.context != ctx,
    ensures
        exists|index: int|
            0 <= index < events.len() && events[index] is Done
                && (#[trigger] InstallWorkflowView::asked_at(start, events, index))
                is ExtractPackage,
    decreases events.len(),
{
    lemma_install_stays_on_course(start, ctx, target, events);
    if events.len() > 0 {
        let earlier = events.drop_last();
        lemma_install_stays_on_course(start, ctx, target, earlier);
        if InstallWorkflowView::after(start, earlier).0.context == ctx {
            assert(events.take(events.len() - 1) =~= earlier);
            assert(InstallWorkflowView::asked_at(start, events, events.len() - 1)
                is ExtractPackage);
        } else {
            lemma_install_records_after_extraction(start, ctx, target, earlier);
            let index = choose|index: int|
                0 <= index < earlier.len() && earlier[index] is Done
                    && (#[trigger] InstallWorkflowView::asked_at(start, earlier, index))
                    is ExtractPackage;
            assert(events.take(index) =~= earlier.take(index));
            assert(InstallWorkflowView::asked_at(start, events, index) is ExtractPackage);
        }
    }
}

impl InstallStageView {
    /// Whether the stage works on the package file at `location` and will
    /// have it deleted when that work ends.
    pub open spec fn holds_download(self, location: Seq<char>) -> bool {
        match self {
            InstallStageView::Probing { package, version_id, cleanup } => cleanup && package
                == location,
            InstallStageView::Extracting { package, version_id, cleanup } => cleanup && package
                == location,
            InstallStageView::Persisting { package, marker, cleanup } => cleanup && package
                == location,
            InstallStageView::CleaningUp { package, outcome } => package == location,
            _ => false,
        }
    }
}

/// Once a package was downloaded to `location`, the installation either
/// still works on it or has ended after asking for its deletion.
proof fn lemma_install_download_is_held(
    ctx: RunnerContextView,
    events: Seq<WorkflowEventView>,
    fetched: int,
    location: Seq<char>,
)
    requires
        0 <= fetched < events.len(),
        InstallWorkflowView::asked_at(InstallWorkflowView::begin(ctx), events, fetched)
            is FetchPackage,
        events[fetched] == (WorkflowEventView::PackageFetched { location }),
    ensures
        ({
            let stage = InstallWorkflowView::after(InstallWorkflowView::begin(ctx), events).0.stage;
            ||| stage.holds_download(location)
            ||| stage is Finished && exists|index: int|
                fetched < index < events.len() && (#[trigger] InstallWorkflowView::asked_at(
                    InstallWorkflowView::begin(ctx),
                    events,
                    index,
                )) == (WorkflowActionView::DeletePackage { location })
        }),
    decreases events.len(),
{
    let start = InstallWorkflowView::begin(ctx);
    let target = InstallWorkflowView::latest_target(ctx);
    let earlier = events.drop_last();
    lemma_install_stays_on_course(start, ctx, target, earlier);
    assert(events.take(events.len() - 1) =~= earlier);
    if fetched < events.len() - 1 {
        assert(events.take(fetched) =~= earlier.take(fetched));
        lemma_install_download_is_held(ctx, earlier, fetched, location);
        let before = InstallWorkflowView::after(start, earlier).0.stage;
        if before is Finished {
            let index = choose|index: int|
                fetched < index < earlier.len() && (#[trigger] InstallWorkflowView::asked_at(
                    start,
                    earlier,
                    index,
                )) == (WorkflowActionView::DeletePackage { location });
            assert(events.take(index) =~= earlier.take(index));
            assert(InstallWorkflowView::asked_at(start, events, index) == (
            WorkflowActionView::DeletePackage { location }));
        } else if before is CleaningUp && InstallWorkflowView::after(start, events).0.stage
            is Finished {
            assert(InstallWorkflowView::asked_at(start, events, events.len() - 1) == (
            WorkflowActionView::DeletePackage { location }));
        }
    }
}

/// What was downloaded is deleted, however the installation went: an
/// installation that has ended asked, after every download that it was
/// told of, for the deletion of the file that was downloaded.
pub proof fn lemma_install_deletes_the_download(
    ctx: RunnerContextView,
    events: Seq<WorkflowEventView>,
    fetched: int,
    location: Seq<char>,
)
    requires
        0 <= fetched < events.len(),
        InstallWorkflowView::asked_at(InstallWorkflowView::begin(ctx), events, fetched)
            is FetchPackage,
        events[fetched] == (WorkflowEventView::PackageFetched { location }),
        InstallWorkflowView::after(InstallWorkflowView::begin(ctx), events).1.action is Finish,
    ensures
        exists|index: int|
            fetched < index < events.len() && (#[trigger] InstallWorkflowView::asked_at(
                InstallWorkflowView::begin(ctx),
                events,
                index,
            )) == (WorkflowActionView::DeletePackage { location }),
{
    let start = InstallWorkflowView::begin(ctx);
    let target = InstallWorkflowView::latest_target(ctx);
    lemma_install_stays_on_course(start, ctx, target, events);
    lemma_install_download_is_held(ctx, events, fetched, location);
}

impl InstallWorkflow {
    /// The workflow in `stage`, asking for what that stage waits for.
    fn proceed(context: RunnerContext, stage: InstallStage, notice: Option<Notice>) -> (next: (
        InstallWorkflow,
        WorkflowStep,
    ))
        ensures
            (next.0@, next.1@) == InstallWorkflowView::proceed(context@, stage@, view_of(notice)),
    {
        let action = match &stage {
            InstallStage::Fetching { version, .. } => WorkflowAction::FetchPackage {
                version: version.clone(),
            },
            InstallStage::Probing { package, .. } => WorkflowAction::ProbePackage {
                location: package.clone(),
            },
            InstallStage::Extracting { package, .. } => WorkflowAction::ExtractPackage {
                package: package.clone(),
                out_dir: context.sourcemod_path.clone(),
            },
            InstallStage::Persisting { marker, .. } => WorkflowAction::WriteMarker {
                location: context.get_version_location(),
                marker: marker.clone(),
            },
            InstallStage::CleaningUp { package, .. } => WorkflowAction::DeletePackage {
                location: package.clone(),
            },
            InstallStage::Finished { outcome } => WorkflowAction::Finish { outcome: outcome.clone() },
        };
        (InstallWorkflow { context, stage }, WorkflowStep { notice, action })
    }

    /// The step that the work on the package ends with.
    fn conclude(
        context: RunnerContext,
        package: String,
        cleanup: bool,
        outcome: WorkflowOutcome,
        notice: Option<Notice>,
    ) -> (next: (InstallWorkflow, WorkflowStep))
        ensures
            (next.0@, next.1@) == InstallWorkflowView::conclude(
                context@,
                package@,
                cleanup,
                outcome@,
                view_of(notice),
            ),
    {
        if cleanup {
            Self::proceed(context, InstallStage::CleaningUp { package, outcome }, notice)
        } else {
            Self::proceed(context, InstallStage::Finished { outcome }, notice)
        }
    }

    /// Begins an installation of the latest version into the session
    /// `ctx` and names its first piece of outside work.
    pub fn wizard(ctx: RunnerContext) -> (next: (InstallWorkflow, WorkflowStep))
        ensures
            (next.0@, next.1@) == InstallWorkflowView::begin(ctx@),
    {
        match ctx.remote_version_list.latest_version() {
            Ok((version_id, version)) => {
                let notice = match ctx.current_version {
                    Some(current) => Some(Notice::Reinstalling { current }),
                    None => None,
                };
                Self::proceed(ctx, InstallStage::Fetching { version, version_id }, notice)
            },
            Err(error) => Self::proceed(
                ctx,
                InstallStage::Finished { outcome: WorkflowOutcome::Failed { error } },
                None,
            ),
        }
    }

    /// Begins an installation from the package file at `package_loc`, which
    /// holds version `version_id`, into the installation root of the
    /// session `ctx`. Without a version, no marker is written. The package
    /// file stays where it is.
    pub fn install_from(ctx: RunnerContext, package_loc: String, version_id: Option<usize>) -> (next:
        (InstallWorkflow, WorkflowStep))
        ensures
            (next.0@, next.1@) == InstallWorkflowView::begin_from(ctx@, package_loc@, version_id),
    {
        Self::proceed(
            ctx,
            InstallStage::Probing { package: package_loc, version_id, cleanup: false },
            None,
        )
    }

    /// Takes in how the outside work that was asked for ended, and names
    /// the next.
    pub fn resume(self, event: WorkflowEvent) -> (next: (InstallWorkflow, WorkflowStep))
        ensures
            (next.0@, next.1@) == self@.resume(event@),
    {
        let InstallWorkflow { context, stage } = self;
        let mut context = context;
        match (stage, event) {
            (
                InstallStage::Fetching { version_id, .. },
                WorkflowEvent::PackageFetched { location },
            ) => Self::proceed(
                context,
                InstallStage::Probing {
                    package: location,
                    version_id: Some(version_id),
                    cleanup: true,
                },
                None,
            ),
            (InstallStage::Fetching { .. }, WorkflowEvent::Failed { error }) => Self::proceed(
                context,
                InstallStage::Finished { outcome: WorkflowOutcome::Failed { error } },
                None,
            ),
            (
                InstallStage::Probing { package, version_id, cleanup },
                WorkflowEvent::PackageProbed { exists },
            ) => {
                if exists {
                    Self::proceed(
                        context,
                        InstallStage::Extracting { package, version_id, cleanup },
                        None,
                    )
                } else {
                    let error = BeansError::DownloadFailure {
                        reason: DownloadFailureReason::FileNotFound { location: package.clone() },
                    };
                    Self::conclude(
                        context,
                        package,
                        cleanup,
                        WorkflowOutcome::Failed { error },
                        None,
                    )
                }
            },
            (
                InstallStage::Probing { package, cleanup, .. },
                WorkflowEvent::Failed { error },
            ) => Self::conclude(context, package, cleanup, WorkflowOutcome::Failed { error }, None),
            (
                InstallStage::Extracting { package, version_id: Some(installed), cleanup },
                WorkflowEvent::Done,
            ) => {
                context.current_version = Some(installed);
                let marker = AdastralVersionFile { version: to_decimal(installed) };
                Self::proceed(context, InstallStage::Persisting { package, marker, cleanup }, None)
            },
            (
                InstallStage::Extracting { package, version_id: None, cleanup },
                WorkflowEvent::Done,
            ) => Self::conclude(
                context,
                package,
                cleanup,
                WorkflowOutcome::Completed,
                Some(Notice::MarkerSkipped),
            ),
            (
                InstallStage::Extracting { package, cleanup, .. },
                WorkflowEvent::Failed { error },
            ) => Self::conclude(context, package, cleanup, WorkflowOutcome::Failed { error }, None),
            (
                InstallStage::Persisting { package, cleanup, .. },
                WorkflowEvent::Done,
            ) => Self::conclude(context, package, cleanup, WorkflowOutcome::Completed, None),
            (
                InstallStage::Persisting { package, cleanup, .. },
                WorkflowEvent::Failed { error },
            ) => Self::conclude(
                context,
                package,
                cleanup,
                WorkflowOutcome::Completed,
                Some(Notice::MarkerNotWritten { error }),
            ),
            (InstallStage::CleaningUp { outcome, .. }, WorkflowEvent::Done) => Self::proceed(
                context,
                InstallStage::Finished { outcome },
                None,
            ),
            (
                InstallStage::CleaningUp { outcome, .. },
                WorkflowEvent::Failed { error },
            ) => Self::proceed(
                context,
                InstallStage::Finished { outcome },
                Some(Notice::PackageNotDeleted { error }),
            ),
            (stage, _) => Self::proceed(context, stage, None),
        }
    }
}

} // verus!
