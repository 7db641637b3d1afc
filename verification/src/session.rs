//! One build, from its settings to its results.
//!
//! A [`Session`] decides; its caller acts. The caller reports what happened as an [`Event`]
//! and is told what to do next as an [`Action`]: steps on the file system, the process to
//! run, the results, or the error that ended the build. The first error is final.

use vstd::prelude::*;
use vstd::string::*;
use crate::artifacts::{collection_ops, spec_artifacts, spec_collection, Artifacts, ArtifactsView};
use crate::config::{Settings, SettingsView};
use crate::discover::{resolve, spec_resolution, spec_resolved};
use crate::environment::Environment;
use crate::error::{BuildError, BuildErrorView};
use crate::ops::{spec_ops, FsOp, FsOpView, Invocation, InvocationView};
use crate::stage::{spec_staging, staging_ops};
use crate::text::chain;
use crate::toolchain::{spec_uses_msvc, uses_msvc};

verus! {

/// How far a build has come.
#[derive(Debug, Clone, Copy, PartialEq, Eq, Structural)]
pub enum Phase {
    /// The settings are complete; nothing was done yet.
    Configured,
    /// The caller stages the sources.
    Staging,
    /// The caller runs the external build.
    Running,
    /// The caller collects the results.
    Collecting,
    /// The build ended with its results.
    Succeeded,
    /// The build ended with an error.
    Failed,
}

/// What the caller reports.
#[derive(Debug, Clone, PartialEq, Eq)]
pub enum Event {
    /// The caller is ready to begin.
    Started,
    /// The steps that were asked for are done.
    Completed,
    /// The step `op` failed; `reason` is what the system said.
    Failed { op: FsOp, reason: String },
    /// The process ran and ended. `command` is its command line, `status` how it ended.
    Exited { success: bool, command: String, status: String },
    /// The process could not be started. `reason` is what the system said.
    NotStarted { command: String, reason: String },
}

/// What an [`Event`] says, over plain sequences.
pub enum EventView {
    Started,
    Completed,
    Failed { op: FsOpView, reason: Seq<char> },
    Exited { success: bool, command: Seq<char>, status: Seq<char> },
    NotStarted { command: Seq<char>, reason: Seq<char> },
}

impl View for Event {
    type V = EventView;

    open spec fn view(&self) -> EventView {
        match self {
            Event::Started => EventView::Started,
            Event::Completed => EventView::Completed,
            Event::Failed { op, reason } => EventView::Failed { op: op@, reason: reason@ },
            Event::Exited { success, command, status } => EventView::Exited {
                success: *success,
                command: command@,
                status: status@,
            },
            Event::NotStarted { command, reason } => EventView::NotStarted {
                command: command@,
                reason: reason@,
            },
        }
    }
}

/// What the caller is to do next.
#[derive(Debug, Clone, PartialEq, Eq)]
pub enum Action {
    /// Perform these steps in their order, as [`begin`] and [`after_step`] tell, and report
    /// what they end with.
    Perform(Vec<FsOp>),
    /// Run this process and wait for it.
    Run(Invocation),
    /// The build is done; these are its results.
    Finish(Artifacts),
    /// The build is over; this is why.
    Abort(BuildError),
    /// The build was over before this report.
    Halt,
}

/// What an [`Action`] says, over plain sequences.
pub enum ActionView {
    Perform(Seq<FsOpView>),
    Run(InvocationView),
    Finish(ArtifactsView),
    Abort(BuildErrorView),
    Halt,
}

impl View for Action {
    type V = ActionView;

    open spec fn view(&self) -> ActionView {
        match self {
            Action::Perform(ops) => ActionView::Perform(spec_ops(ops@)),
            Action::Run(run) => ActionView::Run(run@),
            Action::Finish(artifacts) => ActionView::Finish(artifacts@),
            Action::Abort(error) => ActionView::Abort(error@),
            Action::Halt => ActionView::Halt,
        }
    }
}

/// How far the caller has come with a list of steps.
#[derive(Debug, Clone, PartialEq, Eq)]
pub enum Progress {
    /// The step at this place in the list is due.
    Perform(usize),
    /// Nothing more is due; this is what the caller reports.
    Report(Event),
}

/// What a [`Progress`] says, over plain sequences.
pub enum ProgressView {
    Perform(nat),
    Report(EventView),
}

impl View for Progress {
    type V = ProgressView;

    open spec fn view(&self) -> ProgressView {
        match self {
            Progress::Perform(index) => ProgressView::Perform(*index as nat),
            Progress::Report(event) => ProgressView::Report(event@),
        }
    }
}

/// Where a list of `steps` steps begins: at its first step, or with the report that all is
/// done where there is none.
pub open spec fn spec_begin(steps: nat) -> ProgressView {
    if steps == 0 {
        ProgressView::Report(EventView::Completed)
    } else {
        ProgressView::Perform(0)
    }
}

/// What follows the step at `index` of a list of `steps` steps. The first failure ends the
/// list and is what is reported; a step that succeeded is followed by the next, and the last
/// by the report that all is done.
pub open spec fn spec_after_step(steps: nat, index: nat, failure: Option<EventView>) -> ProgressView {
    match failure {
        Some(event) => ProgressView::Report(event),
        None => if index + 1 < steps {
            ProgressView::Perform(index + 1)
        } else {
            ProgressView::Report(EventView::Completed)
        },
    }
}

/// The failure of a step, over plain sequences.
pub open spec fn spec_failure(failure: Option<Event>) -> Option<EventView> {
    match failure {
        Some(event) => Some(event@),
        None => None,
    }
}

/// Where the list `ops` begins.
pub fn begin(ops: &Vec<FsOp>) -> (r: Progress)
    ensures
        r@ == spec_begin(ops@.len()),
{
    if ops.len() == 0 {
        Progress::Report(Event::Completed)
    } else {
        Progress::Perform(0)
    }
}

/// What follows the step at `index` of the list `ops`, which failed with `failure` or
/// succeeded.
pub fn after_step(ops: &Vec<FsOp>, index: usize, failure: Option<Event>) -> (r: Progress)
    ensures
        r@ == spec_after_step(ops@.len(), index as nat, spec_failure(failure)),
{
    match failure {
        Some(event) => Progress::Report(event),
        None => if ops.len() > 0 && index < ops.len() - 1 {
            Progress::Perform(index + 1)
        } else {
            Progress::Report(Event::Completed)
        },
    }
}

/// One build in progress.
#[derive(Debug, Clone, PartialEq, Eq)]
pub struct Session {
    settings: Settings,
    env: Environment,
    phase: Phase,
}

/// What a [`Session`] holds, over plain sequences.
pub struct SessionView {
    pub settings: SettingsView,
    pub env: Seq<(Seq<char>, Seq<char>)>,
    pub phase: Phase,
}

impl View for Session {
    type V = SessionView;

    closed spec fn view(&self) -> SessionView {
        SessionView { settings: self.settings@, env: self.env@, phase: self.phase }
    }
}

/// Whether the build is over.
pub open spec fn spec_over(phase: Phase) -> bool {
    phase == Phase::Succeeded || phase == Phase::Failed
}

/// Whether the report `event` in the phase `phase` makes the session resolve its tools.
pub open spec fn spec_awaits_resolution(phase: Phase, event: EventView) -> bool {
    phase == Phase::Staging && event is Completed
}

/// How a process that did not succeed is said to have ended.
pub open spec fn spec_exit_reason(status: Seq<char>) -> Seq<char> {
    "exited with status "@ + status
}

/// The phase that follows and what the caller is to do, for a session `s` that is told
/// `event`. `resolution` is what resolving the tools gives; it counts only when staging has
/// just been completed.
pub open spec fn spec_step(
    s: SessionView,
    event: EventView,
    resolution: Result<InvocationView, BuildErrorView>,
) -> (Phase, ActionView) {
    let msvc = spec_uses_msvc(s.settings.target);
    match (s.phase, event) {
        (Phase::Succeeded, _) => (Phase::Succeeded, ActionView::Halt),
        (Phase::Failed, _) => (Phase::Failed, ActionView::Halt),
        (Phase::Configured, EventView::Started) => (
            Phase::Staging,
            ActionView::Perform(spec_staging(s.settings, msvc)),
        ),
        (Phase::Staging, EventView::Completed) => match resolution {
            Ok(run) => (Phase::Running, ActionView::Run(run)),
            Err(error) => (Phase::Failed, ActionView::Abort(error)),
        },
        (Phase::Staging, EventView::Failed { op, reason }) => (
            Phase::Failed,
            ActionView::Abort(BuildErrorView::Filesystem { op, reason }),
        ),
        (Phase::Running, EventView::Exited { success, command, status }) => if success {
            (Phase::Collecting, ActionView::Perform(spec_collection(s.settings, msvc)))
        } else {
            (
                Phase::Failed,
                ActionView::Abort(
                    BuildErrorView::Process { command, reason: spec_exit_reason(status) },
                ),
            )
        },
        (Phase::Running, EventView::NotStarted { command, reason }) => (
            Phase::Failed,
            ActionView::Abort(BuildErrorView::Process { command, reason }),
        ),
        (Phase::Collecting, EventView::Completed) => (
            Phase::Succeeded,
            ActionView::Finish(spec_artifacts(s.settings, msvc)),
        ),
        (Phase::Collecting, EventView::Failed { op, reason }) => (
            Phase::Failed,
            ActionView::Abort(BuildErrorView::Filesystem { op, reason }),
        ),
        _ => (Phase::Failed, ActionView::Abort(BuildErrorView::OutOfTurn)),
    }
}

impl Session {
    /// A build with these settings in this environment, before its first step.
    pub fn new(settings: Settings, env: Environment) -> (r: Session)
        ensures
            r@ == (SessionView { settings: settings@, env: env@, phase: Phase::Configured }),
    {
        Session { settings, env, phase: Phase::Configured }
    }

    /// How far the build has come.
    pub fn phase(&self) -> (r: Phase)
        ensures
            r == self@.phase,
    {
        self.phase
    }

    /// The settings of the build.
    pub fn settings(&self) -> (r: &Settings)
        ensures
            r@ == self@.settings,
    {
        &self.settings
    }

    /// Whether the build is over.
    pub fn is_over(&self) -> (r: bool)
        ensures
            r == spec_over(self@.phase),
    {
        match self.phase {
            Phase::Succeeded => true,
            Phase::Failed => true,
            _ => false,
        }
    }

    /// Whether the report `event` makes the session resolve its tools.
    pub fn awaits_resolution(&self, event: &Event) -> (r: bool)
        ensures
            r == spec_awaits_resolution(self@.phase, event@),
    {
        match (self.phase, event) {
            (Phase::Staging, Event::Completed) => true,
            _ => false,
        }
    }

    /// Takes the report `event` and tells what is due next, with `resolution` standing for
    /// what resolving the tools gives. The settings and the environment stay as they are.
    pub fn react(&mut self, event: Event, resolution: Result<Invocation, BuildError>) -> (r: Action)
        ensures
            final(self)@.settings == old(self)@.settings,
            final(self)@.env == old(self)@.env,
            (final(self)@.phase, r@) == spec_step(old(self)@, event@, spec_resolution(resolution)),
    {
        let msvc = uses_msvc(self.settings.target.as_str());
        let (phase, action) = match (self.phase, event) {
            (Phase::Succeeded, _) => (Phase::Succeeded, Action::Halt),
            (Phase::Failed, _) => (Phase::Failed, Action::Halt),
            (Phase::Configured, Event::Started) => (
                Phase::Staging,
                Action::Perform(staging_ops(&self.settings, msvc)),
            ),
            (Phase::Staging, Event::Completed) => match resolution {
                Ok(run) => (Phase::Running, Action::Run(run)),
                Err(error) => (Phase::Failed, Action::Abort(error)),
            },
            (Phase::Staging, Event::Failed { op, reason }) => (
                Phase::Failed,
                Action::Abort(BuildError::Filesystem { op, reason }),
            ),
            (Phase::Running, Event::Exited { success, command, status }) => if success {
                (Phase::Collecting, Action::Perform(collection_ops(&self.settings, msvc)))
            } else {
                (
                    Phase::Failed,
                    Action::Abort(
                        BuildError::Process {
                            command,
                            reason: chain("exited with status ", status.as_str()),
                        },
                    ),
                )
            },
            (Phase::Running, Event::NotStarted { command, reason }) => (
                Phase::Failed,
                Action::Abort(BuildError::Process { command, reason }),
            ),
            (Phase::Collecting, Event::Completed) => (
                Phase::Succeeded,
                Action::Finish(Artifacts::of(&self.settings, msvc)),
            ),
            (Phase::Collecting, Event::Failed { op, reason }) => (
                Phase::Failed,
                Action::Abort(BuildError::Filesystem { op, reason }),
            ),
            _ => (Phase::Failed, Action::Abort(BuildError::OutOfTurn)),
        };
        self.phase = phase;
        action
    }

    /// Takes the report `event` and tells what is due next.
    ///
    /// When staging has just been completed, the session looks at the machine for the tools of
    /// the build; what it then tells is [`spec_step`] of some resolution that
    /// [`spec_resolved`] admits. In every other case what it tells depends on the session and
    /// the report alone.
    pub fn advance(&mut self, event: Event) -> (r: Action)
        ensures
            final(self)@.settings == old(self)@.settings,
            final(self)@.env == old(self)@.env,
            spec_awaits_resolution(old(self)@.phase, event@) ==> exists|
                resolution: Result<InvocationView, BuildErrorView>,
            |
                spec_resolved(old(self)@.settings, old(self)@.env, resolution) && (
                    final(self)@.phase,
                    r@,
                ) == #[trigger] spec_step(old(self)@, event@, resolution),
            !spec_awaits_resolution(old(self)@.phase, event@) ==> forall|
                resolution: Result<InvocationView, BuildErrorView>,
            |
                (final(self)@.phase, r@) == #[trigger] spec_step(old(self)@, event@, resolution),
    {
        let resolution = if self.awaits_resolution(&event) {
            resolve(&self.settings, &self.env)
        } else {
            Err(BuildError::OutOfTurn)
        };
        let ghost given = spec_resolution(resolution);
        let ghost before = self@;
        let ghost told = event@;
        let action = self.react(event, resolution);
        assert((self@.phase, action@) == spec_step(before, told, given));
        action
    }
}

} // verus!
