use git_server::{DecodeError, GatewayError, ParseError, RepoError, RpcError};

#[test]
fn client_errors_have_a_status_in_the_four_hundreds() {
    assert_eq!(GatewayError::Parse(ParseError::UnsupportedService).status(), 400);
    assert_eq!(GatewayError::Decode(DecodeError::Corrupt).status(), 400);
    assert_eq!(GatewayError::Decode(DecodeError::TooLarge).status(), 413);
    assert_eq!(GatewayError::Repo(RepoError::InvalidName).status(), 400);
}

#[test]
fn server_errors_have_the_status_500() {
    assert_eq!(GatewayError::Repo(RepoError::InitFailed).status(), 500);
    assert_eq!(GatewayError::Repo(RepoError::HookInstallFailed).status(), 500);
    assert_eq!(GatewayError::Rpc(RpcError::SpawnFailed).status(), 500);
}

#[test]
fn each_error_has_its_message() {
    assert_eq!(GatewayError::Parse(ParseError::UnsupportedService).message(), "Unsupported service");
    assert_eq!(GatewayError::Decode(DecodeError::Corrupt).message(), "Could not process gzip");
    assert_eq!(GatewayError::Decode(DecodeError::TooLarge).message(), "Request body too large");
    assert_eq!(GatewayError::Repo(RepoError::InvalidName).message(), "Invalid repository name");
    assert_eq!(GatewayError::Repo(RepoError::InitFailed).message(), "Error init repo");
    assert_eq!(
        GatewayError::Repo(RepoError::HookInstallFailed).message(),
        "Error writing hook files"
    );
    assert_eq!(GatewayError::Rpc(RpcError::SpawnFailed).message(), "Could not run git");
}
