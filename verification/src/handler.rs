//! The handler: it starts the provisioning of repositories, says which
//! action a provisioning waits on, and builds the commands that serve a
//! repository.

use vstd::prelude::*;
use vstd::string::*;
use crate::command::{CommandLine, GitCommand};
use crate::hooks::{HookScripts, HookSet, HOOK_FILE_MODE};
use crate::repo::{sanitized, RepoError, RepositoryPath, RepositoryRef};
use crate::rpc::GitRpc;
use crate::setup::{ActionView, RepoAction, RepoEvent, RepoSetup, SetupView, Stage};

verus! {

/// Provisions repositories below one directory and builds the `git`
/// commands that serve them.
pub struct GitHandler {
    /// The directory that stores the repositories.
    pub dir: String,
    /// The `git` program to run.
    pub git_path: String,
    /// The hooks to install into each new repository.
    pub hooks: HookScripts,
}

/// What a `GitHandler` holds.
pub struct HandlerView {
    pub dir: Seq<char>,
    pub git_path: Seq<char>,
    pub hooks: HookSet,
}

impl View for GitHandler {
    type V = HandlerView;

    open spec fn view(&self) -> HandlerView {
        HandlerView { dir: self.dir@, git_path: self.git_path@, hooks: self.hooks@ }
    }
}

impl HandlerView {
    /// The action that a provisioning waits on at its stage.
    pub open spec fn action_for(self, setup: SetupView) -> ActionView {
        match setup.stage {
            Stage::Probing => ActionView::ProbeDir { path: setup.repo.objects_dir() },
            Stage::CreatingDirs => ActionView::CreateDirs { path: setup.repo.path() },
            Stage::Initializing => ActionView::RunGit {
                command: CommandLine::init_bare(self.git_path, setup.repo),
            },
            Stage::CreatingHooksDir => ActionView::CreateDirs { path: setup.repo.hooks_dir() },
            Stage::WritingHooks => ActionView::WriteHooks {
                dir: setup.repo.hooks_dir(),
                files: self.hooks.files(),
                mode: HOOK_FILE_MODE,
            },
            Stage::Ready => ActionView::Finish { result: Ok(setup.repo) },
            Stage::Failed { error } => ActionView::Finish { result: Err(error) },
        }
    }
}

impl Default for GitHandler {
    fn default() -> (r: Self)
        ensures
            r@.dir == "./data/repo"@,
            r@.git_path == "git"@,
            r@.hooks == HookScripts::default_set(),
    {
        GitHandler {
            dir: String::from_str("./data/repo"),
            git_path: String::from_str("git"),
            hooks: HookScripts::default(),
        }
    }
}

impl GitHandler {
    /// Begins to provide the repository that a request names. The name is
    /// sanitized first, and a name that does not pass is refused; otherwise
    /// the provisioning starts by asking whether the repository exists.
    pub fn create_repo(&self, repo_name: &str) -> (r: Result<RepoSetup, RepoError>)
        ensures
            match r {
                Ok(setup) => {
                    &&& sanitized(repo_name@) == Some(setup@.repo.name)
                    &&& setup@.repo.base == self@.dir
                    &&& setup@.stage == Stage::Probing
                },
                Err(e) => sanitized(repo_name@) is None && e == RepoError::InvalidName,
            },
    {
        match RepositoryRef::new(self.dir.as_str(), repo_name) {
            Ok(repo) => Ok(RepoSetup { repo, stage: Stage::Probing }),
            Err(e) => Err(e),
        }
    }

    /// The action that a provisioning waits on. The caller performs it and
    /// hands what came of it to `RepoSetup::advance`, until the action is
    /// `Finish`.
    pub fn next_action(&self, setup: &RepoSetup) -> (action: RepoAction)
        ensures
            action@ == self@.action_for(setup@),
    {
        match setup.stage {
            Stage::Probing => RepoAction::ProbeDir { path: setup.repo.objects_dir() },
            Stage::CreatingDirs => RepoAction::CreateDirs { path: setup.repo.path() },
            Stage::Initializing => RepoAction::RunGit {
                command: GitCommand::init_bare(self.git_path.as_str(), &setup.repo),
            },
            Stage::CreatingHooksDir => RepoAction::CreateDirs { path: setup.repo.hooks_dir() },
            Stage::WritingHooks => RepoAction::WriteHooks {
                dir: setup.repo.hooks_dir(),
                files: self.hooks.hook_files(),
                mode: HOOK_FILE_MODE,
            },
            Stage::Ready => RepoAction::Finish { result: Ok(setup.repo.clone()) },
            Stage::Failed { error } => RepoAction::Finish { result: Err(error) },
        }
    }

    /// Whether the repository that a request names is on disk: whether its
    /// directory holds a directory `objects`. `is_dir` tells of a path
    /// whether it is a directory. A name that is not valid names no
    /// repository.
    pub fn repo_exists<F: Fn(&str) -> bool>(&self, repo_name: &str, is_dir: F) -> (b: bool)
        requires
            forall|path: &str| call_requires(is_dir, (path,)),
        ensures
            match sanitized(repo_name@) {
                Some(name) => exists|path: &str|
                    path@ == (RepositoryPath { base: self@.dir, name }).objects_dir()
                        && call_ensures(is_dir, (path,), b),
                None => !b,
            },
    {
        match RepositoryRef::new(self.dir.as_str(), repo_name) {
            Ok(repo) => {
                let path = repo.objects_dir();
                is_dir(path.as_str())
            },
            Err(_) => false,
        }
    }

    /// The command that lists the refs of a repository for a service.
    pub fn get_info_refs(&self, git_rpc: &GitRpc, repo: &RepositoryRef) -> (command: GitCommand)
        ensures
            command@ == CommandLine::advertise_refs(self@.git_path, *git_rpc, repo@),
    {
        GitCommand::advertise_refs(self.git_path.as_str(), git_rpc, repo)
    }

    /// The command that serves one exchange of a service on a repository.
    pub fn git_rpc(&self, git_rpc: &GitRpc, repo: &RepositoryRef) -> (command: GitCommand)
        ensures
            command@ == CommandLine::stateless_rpc(self@.git_path, *git_rpc, repo@),
    {
        GitCommand::stateless_rpc(self.git_path.as_str(), git_rpc, repo)
    }
}

/// The events that a stage awaits are the answers to the action that the
/// provisioning asks for at that stage; and it asks for the end exactly
/// when it has ended.
pub proof fn lemma_action_is_awaited(handler: HandlerView, setup: SetupView, event: RepoEvent)
    ensures
        handler.action_for(setup).answered_by(event) <==> setup.stage.awaits(event),
        handler.action_for(setup) is Finish <==> setup.stage.finished(),
{
}

/// A repository that the probe finds is left alone: the provisioning ends
/// at once with success, and asks for no action that creates or writes.
pub proof fn lemma_existing_repository_is_left_alone(handler: HandlerView, setup: SetupView)
    requires
        setup.stage == Stage::Probing,
    ensures
        !handler.action_for(setup).writes(),
        setup.stage.after(RepoEvent::DirProbed { is_dir: true }) == Stage::Ready,
        handler.action_for(
            SetupView {
                repo: setup.repo,
                stage: setup.stage.after(RepoEvent::DirProbed { is_dir: true }),
            },
        ) == (ActionView::Finish { result: Ok(setup.repo) }),
{
}

} // verus!
