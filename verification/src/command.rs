//! The invocations of `git` that the gateway makes.

use vstd::prelude::*;
use vstd::string::*;
use crate::repo::{RepositoryPath, RepositoryRef};
use crate::rpc::GitRpc;

verus! {

/// An invocation of the `git` program: what to run, with which arguments,
/// and in which working directory.
pub struct GitCommand {
    pub program: String,
    pub args: Vec<String>,
    /// The working directory, or `None` for that of the gateway.
    pub cwd: Option<String>,
}

/// What a `GitCommand` holds.
pub struct CommandLine {
    pub program: Seq<char>,
    pub args: Seq<Seq<char>>,
    pub cwd: Option<Seq<char>>,
}

/// The text of each string of a list.
pub open spec fn texts(strings: Seq<String>) -> Seq<Seq<char>> {
    strings.map_values(|s: String| s@)
}

impl View for GitCommand {
    type V = CommandLine;

    open spec fn view(&self) -> CommandLine {
        CommandLine {
            program: self.program@,
            args: texts(self.args@),
            cwd: match self.cwd {
                Some(dir) => Some(dir@),
                None => None,
            },
        }
    }
}

impl CommandLine {
    /// `git init --bare <path>`, which creates the bare repository.
    pub open spec fn init_bare(git_path: Seq<char>, repo: RepositoryPath) -> CommandLine {
        CommandLine {
            program: git_path,
            args: seq!["init"@, "--bare"@, repo.path()],
            cwd: None,
        }
    }

    /// `git <subcommand> --stateless-rpc --advertise-refs <name>`, run in the
    /// directory that stores the repositories.
    pub open spec fn advertise_refs(
        git_path: Seq<char>,
        rpc: GitRpc,
        repo: RepositoryPath,
    ) -> CommandLine {
        CommandLine {
            program: git_path,
            args: seq![rpc.subcommand_name(), "--stateless-rpc"@, "--advertise-refs"@, repo.name],
            cwd: Some(repo.base),
        }
    }

    /// `git <subcommand> --stateless-rpc <name>`, run in the directory that
    /// stores the repositories.
    pub open spec fn stateless_rpc(
        git_path: Seq<char>,
        rpc: GitRpc,
        repo: RepositoryPath,
    ) -> CommandLine {
        CommandLine {
            program: git_path,
            args: seq![rpc.subcommand_name(), "--stateless-rpc"@, repo.name],
            cwd: Some(repo.base),
        }
    }
}

impl GitCommand {
    /// The command that creates the bare repository `repo`.
    pub fn init_bare(git_path: &str, repo: &RepositoryRef) -> (command: GitCommand)
        ensures
            command@ == CommandLine::init_bare(git_path@, repo@),
    {
        let mut args: Vec<String> = Vec::new();
        args.push(String::from_str("init"));
        args.push(String::from_str("--bare"));
        args.push(repo.path());
        let command = GitCommand { program: String::from_str(git_path), args, cwd: None };
        assert(command@.args =~= seq!["init"@, "--bare"@, repo@.path()]);
        command
    }

    /// The command that lists the refs of `repo` for a service.
    pub fn advertise_refs(git_path: &str, rpc: &GitRpc, repo: &RepositoryRef) -> (command:
        GitCommand)
        ensures
            command@ == CommandLine::advertise_refs(git_path@, *rpc, repo@),
    {
        let mut args: Vec<String> = Vec::new();
        args.push(String::from_str(rpc.subcommand()));
        args.push(String::from_str("--stateless-rpc"));
        args.push(String::from_str("--advertise-refs"));
        args.push(String::from_str(repo.name()));
        let command = GitCommand {
            program: String::from_str(git_path),
            args,
            cwd: Some(String::from_str(repo.base())),
        };
        assert(command@.args =~= seq![
            rpc.subcommand_name(),
            "--stateless-rpc"@,
            "--advertise-refs"@,
            repo@.name,
        ]);
        command
    }

    /// The command that serves one exchange of a service on `repo`.
    pub fn stateless_rpc(git_path: &str, rpc: &GitRpc, repo: &RepositoryRef) -> (command:
        GitCommand)
        ensures
            command@ == CommandLine::stateless_rpc(git_path@, *rpc, repo@),
    {
        let mut args: Vec<String> = Vec::new();
        args.push(String::from_str(rpc.subcommand()));
        args.push(String::from_str("--stateless-rpc"));
        args.push(String::from_str(repo.name()));
        let command = GitCommand {
            program: String::from_str(git_path),
            args,
            cwd: Some(String::from_str(repo.base())),
        };
        assert(command@.args =~= seq![rpc.subcommand_name(), "--stateless-rpc"@, repo@.name]);
        command
    }
}

} // verus!
