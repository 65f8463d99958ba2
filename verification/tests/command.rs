use git_server::{GitCommand, GitHandler, GitRpc, HookScripts, RepositoryRef};

fn handler() -> GitHandler {
    GitHandler { dir: "data".into(), git_path: "/opt/git/bin/git".into(), hooks: HookScripts::default() }
}

#[test]
fn init_creates_the_bare_repository_at_its_path() {
    let repo = RepositoryRef::new("data", "/a/b.git").unwrap();
    let command = GitCommand::init_bare("git", &repo);
    assert_eq!(command.program, "git");
    assert_eq!(command.args, vec!["init", "--bare", "data/a/b.git"]);
    assert_eq!(command.cwd, None);
}

#[test]
fn refs_are_listed_in_the_base_directory() {
    let repo = RepositoryRef::new("data", "/a/b.git").unwrap();
    let command = handler().get_info_refs(&GitRpc::GitUploadPack, &repo);
    assert_eq!(command.program, "/opt/git/bin/git");
    assert_eq!(command.args, vec!["upload-pack", "--stateless-rpc", "--advertise-refs", "a/b.git"]);
    assert_eq!(command.cwd.as_deref(), Some("data"));

    let command = handler().get_info_refs(&GitRpc::GitReceivePack, &repo);
    assert_eq!(command.args, vec!["receive-pack", "--stateless-rpc", "--advertise-refs", "a/b.git"]);
}

#[test]
fn an_exchange_runs_in_the_base_directory() {
    let repo = RepositoryRef::new("data", "test-10").unwrap();
    let command = handler().git_rpc(&GitRpc::GitReceivePack, &repo);
    assert_eq!(command.program, "/opt/git/bin/git");
    assert_eq!(command.args, vec!["receive-pack", "--stateless-rpc", "test-10"]);
    assert_eq!(command.cwd.as_deref(), Some("data"));

    let command = GitCommand::stateless_rpc("git", &GitRpc::GitUploadPack, &repo);
    assert_eq!(command.program, "git");
    assert_eq!(command.args, vec!["upload-pack", "--stateless-rpc", "test-10"]);
}
