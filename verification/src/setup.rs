//! The provisioning of a repository, as a state machine. The library
//! decides what is to be done next; its caller does it and reports what
//! came of it.

use vstd::prelude::*;
use crate::command::{CommandLine, GitCommand};
use crate::hooks::{file_views, HookFile};
use crate::repo::{RepoError, RepositoryPath, RepositoryRef};

verus! {

/// How an attempt to create a directory ended.
#[derive(Debug, PartialEq, Eq, Clone, Copy, Structural)]
pub enum DirOutcome {
    /// The directory was created.
    Created,
    /// The directory was there already.
    AlreadyExists,
    /// The directory is not there and could not be created.
    Failed,
}

/// What the outside world answers to an action of the provisioning.
#[derive(Debug, PartialEq, Eq, Clone, Copy, Structural)]
pub enum RepoEvent {
    /// The probed path is a directory, or is not.
    DirProbed { is_dir: bool },
    /// The attempt to create a directory ended.
    DirCreated { outcome: DirOutcome },
    /// `git init --bare` exited, with success or not. A `git` that could not
    /// be started counts as one that did not succeed.
    InitExited { success: bool },
    /// All hook files were written and given their permission bits, or one
    /// was not.
    HooksWritten { ok: bool },
}

/// How far the provisioning of a repository has come.
#[derive(Debug, PartialEq, Eq, Clone, Copy, Structural)]
pub enum Stage {
    /// Asking whether the repository exists.
    Probing,
    /// Creating the directory of the repository and those above it.
    CreatingDirs,
    /// Running `git init --bare`.
    Initializing,
    /// Creating the hooks directory.
    CreatingHooksDir,
    /// Writing the hook files.
    WritingHooks,
    /// The repository exists.
    Ready,
    /// The provisioning was given up.
    Failed { error: RepoError },
}

impl Stage {
    /// The stage that follows on an event. An event that does not answer the
    /// action of the stage changes nothing.
    pub open spec fn after(self, event: RepoEvent) -> Stage {
        match (self, event) {
            (Stage::Probing, RepoEvent::DirProbed { is_dir }) => if is_dir {
                Stage::Ready
            } else {
                Stage::CreatingDirs
            },
            (Stage::CreatingDirs, RepoEvent::DirCreated { outcome }) => if outcome
                == DirOutcome::Failed {
                Stage::Failed { error: RepoError::InitFailed }
            } else {
                Stage::Initializing
            },
            (Stage::Initializing, RepoEvent::InitExited { success }) => if success {
                Stage::CreatingHooksDir
            } else {
                Stage::Failed { error: RepoError::InitFailed }
            },
            (Stage::CreatingHooksDir, RepoEvent::DirCreated { outcome }) => if outcome
                == DirOutcome::Failed {
                Stage::Failed { error: RepoError::HookInstallFailed }
            } else {
                Stage::WritingHooks
            },
            (Stage::WritingHooks, RepoEvent::HooksWritten { ok }) => if ok {
                Stage::Ready
            } else {
                Stage::Failed { error: RepoError::HookInstallFailed }
            },
            _ => self,
        }
    }

    /// Whether an event answers the action of the stage.
    pub open spec fn awaits(self, event: RepoEvent) -> bool {
        match (self, event) {
            (Stage::Probing, RepoEvent::DirProbed { .. }) => true,
            (Stage::CreatingDirs, RepoEvent::DirCreated { .. }) => true,
            (Stage::Initializing, RepoEvent::InitExited { .. }) => true,
            (Stage::CreatingHooksDir, RepoEvent::DirCreated { .. }) => true,
            (Stage::WritingHooks, RepoEvent::HooksWritten { .. }) => true,
            _ => false,
        }
    }

    /// Whether the provisioning has ended, well or not.
    pub open spec fn finished(self) -> bool {
        self is Ready || self is Failed
    }

    /// The largest number of actions that are still to be answered before
    /// the provisioning ends.
    pub open spec fn actions_left(self) -> nat {
        match self {
            Stage::Probing => 5,
            Stage::CreatingDirs => 4,
            Stage::Initializing => 3,
            Stage::CreatingHooksDir => 2,
            Stage::WritingHooks => 1,
            Stage::Ready => 0,
            Stage::Failed { .. } => 0,
        }
    }

    /// The stage reached from this one after a sequence of events.
    pub open spec fn run(self, events: Seq<RepoEvent>) -> Stage
        decreases events.len(),
    {
        if events.len() == 0 {
            self
        } else {
            self.run(events.drop_last()).after(events.last())
        }
    }

    /// The stage that follows on an event.
    pub fn next(self, event: RepoEvent) -> (s: Stage)
        ensures
            s == self.after(event),
    {
        match self {
            Stage::Probing => match event {
                RepoEvent::DirProbed { is_dir: true } => Stage::Ready,
                RepoEvent::DirProbed { is_dir: false } => Stage::CreatingDirs,
                _ => self,
            },
            Stage::CreatingDirs => match event {
                RepoEvent::DirCreated { outcome: DirOutcome::Failed } => Stage::Failed {
                    error: RepoError::InitFailed,
                },
                RepoEvent::DirCreated { .. } => Stage::Initializing,
                _ => self,
            },
            Stage::Initializing => match event {
                RepoEvent::InitExited { success: true } => Stage::CreatingHooksDir,
                RepoEvent::InitExited { success: false } => Stage::Failed {
                    error: RepoError::InitFailed,
                },
                _ => self,
            },
            Stage::CreatingHooksDir => match event {
                RepoEvent::DirCreated { outcome: DirOutcome::Failed } => Stage::Failed {
                    error: RepoError::HookInstallFailed,
                },
                RepoEvent::DirCreated { .. } => Stage::WritingHooks,
                _ => self,
            },
            Stage::WritingHooks => match event {
                RepoEvent::HooksWritten { ok: true } => Stage::Ready,
                RepoEvent::HooksWritten { ok: false } => Stage::Failed {
                    error: RepoError::HookInstallFailed,
                },
                _ => self,
            },
            Stage::Ready => self,
            Stage::Failed { .. } => self,
        }
    }

    /// Whether the provisioning has ended, well or not.
    pub fn is_finished(self) -> (b: bool)
        ensures
            b == self.finished(),
    {
        match self {
            Stage::Ready => true,
            Stage::Failed { .. } => true,
            _ => false,
        }
    }
}

/// What the provisioning asks the outside world to do next.
pub enum RepoAction {
    /// Tell whether `path` is a directory.
    ProbeDir { path: String },
    /// Create the directory `path` and those above it that are missing.
    CreateDirs { path: String },
    /// Run `git` and wait for it to exit.
    RunGit { command: GitCommand },
    /// Write each file into the directory `dir`, replacing what its name
    /// held, and give it the permission bits `mode`, where the platform has
    /// such bits.
    WriteHooks { dir: String, files: Vec<HookFile>, mode: u32 },
    /// Nothing: the provisioning has ended with this result.
    Finish { result: Result<RepositoryRef, RepoError> },
}

/// What a `RepoAction` holds.
pub enum ActionView {
    ProbeDir { path: Seq<char> },
    CreateDirs { path: Seq<char> },
    RunGit { command: CommandLine },
    WriteHooks { dir: Seq<char>, files: Seq<(Seq<char>, Seq<char>)>, mode: u32 },
    Finish { result: Result<RepositoryPath, RepoError> },
}

impl View for RepoAction {
    type V = ActionView;

    open spec fn view(&self) -> ActionView {
        match self {
            RepoAction::ProbeDir { path } => ActionView::ProbeDir { path: path@ },
            RepoAction::CreateDirs { path } => ActionView::CreateDirs { path: path@ },
            RepoAction::RunGit { command } => ActionView::RunGit { command: command@ },
            RepoAction::WriteHooks { dir, files, mode } => ActionView::WriteHooks {
                dir: dir@,
                files: file_views(files@),
                mode: *mode,
            },
            RepoAction::Finish { result } => ActionView::Finish {
                result: match result {
                    Ok(repo) => Ok(repo@),
                    Err(e) => Err(*e),
                },
            },
        }
    }
}

impl ActionView {
    /// Whether the action changes anything outside: a probe and the end of
    /// the provisioning do not.
    pub open spec fn writes(self) -> bool {
        self is CreateDirs || self is RunGit || self is WriteHooks
    }

    /// Whether an event is an answer to the action. The end of the
    /// provisioning has no answer.
    pub open spec fn answered_by(self, event: RepoEvent) -> bool {
        match self {
            ActionView::ProbeDir { .. } => event is DirProbed,
            ActionView::CreateDirs { .. } => event is DirCreated,
            ActionView::RunGit { .. } => event is InitExited,
            ActionView::WriteHooks { .. } => event is HooksWritten,
            ActionView::Finish { .. } => false,
        }
    }
}

/// The provisioning of one repository: which repository, and how far it has
/// come.
pub struct RepoSetup {
    pub repo: RepositoryRef,
    pub stage: Stage,
}

/// What a `RepoSetup` holds.
pub struct SetupView {
    pub repo: RepositoryPath,
    pub stage: Stage,
}

impl View for RepoSetup {
    type V = SetupView;

    open spec fn view(&self) -> SetupView {
        SetupView { repo: self.repo@, stage: self.stage }
    }
}

impl RepoSetup {
    /// The provisioning after an event: the same repository, at the stage
    /// that follows on the event.
    pub fn advance(self, event: RepoEvent) -> (next: RepoSetup)
        ensures
            next@ == (SetupView { repo: self@.repo, stage: self@.stage.after(event) }),
    {
        let stage = self.stage.next(event);
        RepoSetup { repo: self.repo, stage }
    }
}

/// An event that answers the action of a stage brings the provisioning
/// nearer to its end; any other event leaves the stage as it is. So a
/// provisioning ends after at most five answered actions.
pub proof fn lemma_event_advances(stage: Stage, event: RepoEvent)
    ensures
        stage.awaits(event) ==> stage.after(event).actions_left() < stage.actions_left(),
        !stage.awaits(event) ==> stage.after(event) == stage,
        stage.finished() <==> stage.actions_left() == 0,
        stage.finished() ==> !stage.awaits(event),
{
}

/// The first event of a run decides where the rest of the run starts.
pub proof fn lemma_run_from_first(stage: Stage, events: Seq<RepoEvent>)
    requires
        events.len() > 0,
    ensures
        stage.run(events) == stage.after(events[0]).run(events.skip(1)),
    decreases events.len(),
{
    if events.len() == 1 {
        assert(events.drop_last() =~= seq![]);
        assert(events.skip(1) =~= seq![]);
    } else {
        lemma_run_from_first(stage, events.drop_last());
        assert(events.drop_last().skip(1) =~= events.skip(1).drop_last());
    }
}

/// A provisioning that has ended stays as it has ended, whatever is
/// reported to it.
pub proof fn lemma_finished_stays(stage: Stage, events: Seq<RepoEvent>)
    requires
        stage.finished(),
    ensures
        stage.run(events) == stage,
    decreases events.len(),
{
    if events.len() > 0 {
        lemma_finished_stays(stage, events.drop_last());
    }
}

/// Where the probe finds the repository, the provisioning ends with success
/// at once: nothing that is reported after the probe changes that.
pub proof fn lemma_existing_repository_is_ready(events: Seq<RepoEvent>)
    requires
        events.len() > 0,
        events[0] == (RepoEvent::DirProbed { is_dir: true }),
    ensures
        Stage::Probing.run(events) == Stage::Ready,
{
    lemma_run_from_first(Stage::Probing, events);
    lemma_finished_stays(Stage::Ready, events.skip(1));
}

/// A directory that is there already is as good as one that was created:
/// the provisioning goes on, for the directory of the repository and for
/// its hooks directory. Only a directory that is missing and cannot be
/// created ends it.
pub proof fn lemma_existing_directory_is_no_failure(stage: Stage)
    requires
        stage is CreatingDirs || stage is CreatingHooksDir,
    ensures
        stage.after(RepoEvent::DirCreated { outcome: DirOutcome::AlreadyExists }) == stage.after(
            RepoEvent::DirCreated { outcome: DirOutcome::Created },
        ),
        !stage.after(RepoEvent::DirCreated { outcome: DirOutcome::AlreadyExists }).finished(),
        stage.after(RepoEvent::DirCreated { outcome: DirOutcome::Failed }) is Failed,
{
}

/// The provisioning of a repository that is not there yet: the directories
/// are created or found, `git init --bare` succeeds, the hooks directory is
/// created or found, the hooks are written, and the repository is ready.
pub proof fn lemma_fresh_repository_becomes_ready(dirs: DirOutcome, hooks_dir: DirOutcome)
    requires
        dirs != DirOutcome::Failed,
        hooks_dir != DirOutcome::Failed,
    ensures
        Stage::Probing.run(
            seq![
                RepoEvent::DirProbed { is_dir: false },
                RepoEvent::DirCreated { outcome: dirs },
                RepoEvent::InitExited { success: true },
                RepoEvent::DirCreated { outcome: hooks_dir },
                RepoEvent::HooksWritten { ok: true },
            ],
        ) == Stage::Ready,
{
    let events = seq![
        RepoEvent::DirProbed { is_dir: false },
        RepoEvent::DirCreated { outcome: dirs },
        RepoEvent::InitExited { success: true },
        RepoEvent::DirCreated { outcome: hooks_dir },
        RepoEvent::HooksWritten { ok: true },
    ];
    assert(events.take(1).drop_last() =~= events.take(0));
    assert(events.take(2).drop_last() =~= events.take(1));
    assert(events.take(3).drop_last() =~= events.take(2));
    assert(events.take(4).drop_last() =~= events.take(3));
    assert(events.drop_last() =~= events.take(4));
    assert(Stage::Probing.run(events.take(0)) == Stage::Probing);
    assert(Stage::Probing.run(events.take(1)) == Stage::CreatingDirs);
    assert(Stage::Probing.run(events.take(2)) == Stage::Initializing);
    assert(Stage::Probing.run(events.take(3)) == Stage::CreatingHooksDir);
    assert(Stage::Probing.run(events.take(4)) == Stage::WritingHooks);
}

/// Whether an event tells that the repository is on disk: the probe has
/// found it, or `git init --bare` has succeeded.
pub open spec fn shows_repository(event: RepoEvent) -> bool {
    event == (RepoEvent::DirProbed { is_dir: true }) || event == (RepoEvent::InitExited {
        success: true,
    })
}

/// The stages that are reached only once the repository is on disk.
spec fn past_init(stage: Stage) -> bool {
    stage is CreatingHooksDir || stage is WritingHooks || stage is Ready || stage == (Stage::Failed {
        error: RepoError::HookInstallFailed,
    })
}

proof fn lemma_past_init_shows_repository(events: Seq<RepoEvent>)
    ensures
        past_init(Stage::Probing.run(events)) ==> exists|i: int|
            0 <= i < events.len() && shows_repository(#[trigger] events[i]),
        !(Stage::Probing.run(events) == (Stage::Failed { error: RepoError::InvalidName })),
    decreases events.len(),
{
    if events.len() > 0 {
        let before = events.drop_last();
        lemma_past_init_shows_repository(before);
        if past_init(Stage::Probing.run(events)) {
            if past_init(Stage::Probing.run(before)) {
                let i = choose|i: int|
                    0 <= i < before.len() && shows_repository(#[trigger] before[i]);
                assert(shows_repository(events[i]));
            } else {
                assert(shows_repository(events[events.len() - 1]));
            }
        }
    }
}

/// A provisioning ends with success only where the probe has found the
/// repository or `git init --bare` has succeeded; and once either has
/// happened, the only failure left is that of the hooks.
pub proof fn lemma_ready_shows_repository(events: Seq<RepoEvent>)
    ensures
        Stage::Probing.run(events) is Ready ==> exists|i: int|
            0 <= i < events.len() && shows_repository(#[trigger] events[i]),
        Stage::Probing.run(events) == (Stage::Failed { error: RepoError::HookInstallFailed })
            ==> exists|i: int| 0 <= i < events.len() && shows_repository(#[trigger] events[i]),
        Stage::Probing.run(events) != (Stage::Failed { error: RepoError::InvalidName }),
{
    lemma_past_init_shows_repository(events);
}

} // verus!
