use git_server::server::{advertise_refs, execute};
use git_server::{GitOutput, GitRpc, GitRun, RpcError, RpcOutcome};

fn outcome(success: bool, stdout: &[u8], stderr: &[u8]) -> RpcOutcome {
    RpcOutcome { success, stdout: stdout.to_vec(), stderr: stderr.to_vec() }
}

#[test]
fn advertisement_of_an_empty_repository() {
    let output = GitOutput { git_rpc: GitRpc::GitUploadPack, output: outcome(true, b"", b"") };
    let response = output.advertisement();
    let line = "# service=git-upload-pack\n";
    let header = format!("{:04x}", line.len() + 4);
    assert_eq!(header, "001e");
    assert_eq!(&response.body[..4], header.as_bytes());
    assert_eq!(&response.body[4..4 + line.len()], line.as_bytes());
    assert_eq!(&response.body[4 + line.len()..], b"0000");
    assert_eq!(response.status, 200);
    assert_eq!(response.content_type, "application/x-git-upload-pack-advertisement");
    assert_eq!(response.cache_control, "no-cache");
}

#[test]
fn advertisement_wraps_what_git_listed() {
    let refs = b"00327f1c refs/heads/main\0report-status\n0000";
    let output = GitOutput { git_rpc: GitRpc::GitReceivePack, output: outcome(true, refs, b"warning") };
    let response = output.advertisement();
    let mut expected = b"001f# service=git-receive-pack\n0000".to_vec();
    expected.extend_from_slice(refs);
    assert_eq!(response.body, expected);
    assert_eq!(response.status, 200);
    assert_eq!(response.content_type, "application/x-git-receive-pack-advertisement");
    assert_eq!(response.cache_control, "no-cache");
}

#[test]
fn advertisement_of_a_failed_git_frames_its_diagnostics() {
    let output = GitOutput {
        git_rpc: GitRpc::GitUploadPack,
        output: outcome(false, b"partial", b"fatal: not a git repository\n"),
    };
    let response = output.advertisement();
    assert_eq!(
        response.body,
        b"001e# service=git-upload-pack\n0000fatal: not a git repository\n".to_vec()
    );
    assert_eq!(response.status, 500);
    assert_eq!(response.content_type, "application/x-git-upload-pack-advertisement");
    assert_eq!(response.cache_control, "no-cache");
}

#[test]
fn result_is_what_git_said() {
    let pack = [0u8, 1, 2, 255, b'P', b'A', b'C', b'K', 0, 0x80];
    let output = GitOutput { git_rpc: GitRpc::GitUploadPack, output: outcome(true, &pack, b"noise") };
    let response = output.result();
    assert_eq!(response.body, pack.to_vec());
    assert_eq!(response.status, 200);
    assert_eq!(response.content_type, "application/x-git-upload-pack-result");
    assert_eq!(response.cache_control, "no-cache");

    let output = GitOutput { git_rpc: GitRpc::GitReceivePack, output: outcome(true, b"", b"") };
    let response = output.result();
    assert_eq!(response.body, Vec::<u8>::new());
    assert_eq!(response.content_type, "application/x-git-receive-pack-result");
}

#[test]
fn result_of_a_failed_git_is_its_diagnostics() {
    let output = GitOutput {
        git_rpc: GitRpc::GitReceivePack,
        output: outcome(false, b"half a pack", b"error: unpack failed\n"),
    };
    let response = output.result();
    assert_eq!(response.body, b"error: unpack failed\n".to_vec());
    assert_eq!(response.status, 500);
    assert_eq!(response.content_type, "application/x-git-receive-pack-result");
    assert_eq!(response.cache_control, "no-cache");
}

#[test]
fn announcement_and_content_types() {
    assert_eq!(GitRpc::GitUploadPack.announce(), b"001e# service=git-upload-pack\n0000".to_vec());
    assert_eq!(GitRpc::GitReceivePack.announce(), b"001f# service=git-receive-pack\n0000".to_vec());
    assert_eq!(
        GitRpc::GitUploadPack.advertisement_content_type(),
        "application/x-git-upload-pack-advertisement"
    );
    assert_eq!(GitRpc::GitReceivePack.result_content_type(), "application/x-git-receive-pack-result");
}

#[test]
fn payload_and_status_of_an_outcome() {
    let good = outcome(true, b"out", b"err");
    assert_eq!(good.payload(), &b"out".to_vec());
    assert_eq!(good.status(), 200);
    let bad = outcome(false, b"out", b"err");
    assert_eq!(bad.payload(), &b"err".to_vec());
    assert_eq!(bad.status(), 500);
}

#[test]
fn git_that_did_not_start_fails_the_request() {
    assert_eq!(
        advertise_refs(GitRpc::GitUploadPack, GitRun::NotStarted).err(),
        Some(RpcError::SpawnFailed)
    );
    assert_eq!(execute(GitRpc::GitReceivePack, GitRun::NotStarted).err(), Some(RpcError::SpawnFailed));
}

#[test]
fn git_that_failed_is_no_error() {
    let run = GitRun::Exited { outcome: outcome(false, b"", b"fatal: bad line length\n") };
    let response = advertise_refs(GitRpc::GitReceivePack, run).unwrap();
    assert_eq!(response.status, 500);
    assert_eq!(response.body, b"001f# service=git-receive-pack\n0000fatal: bad line length\n".to_vec());

    let run = GitRun::Exited { outcome: outcome(false, b"x", b"fatal: bad line length\n") };
    let response = execute(GitRpc::GitUploadPack, run).unwrap();
    assert_eq!(response.status, 500);
    assert_eq!(response.content_type, "application/x-git-upload-pack-result");
    assert_eq!(response.body, b"fatal: bad line length\n".to_vec());
}

#[test]
fn git_that_succeeded_is_relayed() {
    let run = GitRun::Exited { outcome: outcome(true, b"0000", b"") };
    let response = advertise_refs(GitRpc::GitUploadPack, run).unwrap();
    assert_eq!(response.status, 200);
    assert_eq!(response.body, b"001e# service=git-upload-pack\n00000000".to_vec());

    let run = GitRun::Exited { outcome: outcome(true, b"PACK\x00\x00\x00\x02", b"") };
    let response = execute(GitRpc::GitUploadPack, run).unwrap();
    assert_eq!(response.status, 200);
    assert_eq!(response.cache_control, "no-cache");
    assert_eq!(response.body, b"PACK\x00\x00\x00\x02".to_vec());
}
