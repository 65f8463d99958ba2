//! The errors of the gateway, and how each is reported to the client.

use vstd::prelude::*;
use crate::gzip::DecodeError;
use crate::repo::RepoError;
use crate::rpc::ParseError;
use crate::server::RpcError;

verus! {

/// Why the gateway could not serve a request.
#[derive(Debug, PartialEq, Eq, Clone, Copy, Structural)]
pub enum GatewayError {
    /// The request names no supported service.
    Parse(ParseError),
    /// The repository could not be provided.
    Repo(RepoError),
    /// The request body was not accepted.
    Decode(DecodeError),
    /// `git` could not be run.
    Rpc(RpcError),
}

impl GatewayError {
    /// Whether the client is to blame: for a service or a body that is not
    /// accepted, and for the name of a repository that is not valid. Every
    /// other error is the server's.
    pub open spec fn blames_client(self) -> bool {
        match self {
            GatewayError::Parse(_) => true,
            GatewayError::Decode(_) => true,
            GatewayError::Repo(e) => e == RepoError::InvalidName,
            GatewayError::Rpc(_) => false,
        }
    }

    /// The status of the response that reports the error.
    pub open spec fn status_code(self) -> u16 {
        match self {
            GatewayError::Parse(_) => 400,
            GatewayError::Decode(DecodeError::Corrupt) => 400,
            GatewayError::Decode(DecodeError::TooLarge) => 413,
            GatewayError::Repo(RepoError::InvalidName) => 400,
            GatewayError::Repo(_) => 500,
            GatewayError::Rpc(_) => 500,
        }
    }

    /// What to tell about the error.
    pub open spec fn message_text(self) -> Seq<char> {
        match self {
            GatewayError::Parse(_) => "Unsupported service"@,
            GatewayError::Decode(DecodeError::Corrupt) => "Could not process gzip"@,
            GatewayError::Decode(DecodeError::TooLarge) => "Request body too large"@,
            GatewayError::Repo(RepoError::InvalidName) => "Invalid repository name"@,
            GatewayError::Repo(RepoError::InitFailed) => "Error init repo"@,
            GatewayError::Repo(RepoError::HookInstallFailed) => "Error writing hook files"@,
            GatewayError::Rpc(_) => "Could not run git"@,
        }
    }

    /// The status of the response that reports the error: 400 or 413 where
    /// the client is to blame, 500 where the server is.
    pub fn status(&self) -> (status: u16)
        ensures
            status == self.status_code(),
    {
        match self {
            GatewayError::Parse(_) => 400,
            GatewayError::Decode(DecodeError::Corrupt) => 400,
            GatewayError::Decode(DecodeError::TooLarge) => 413,
            GatewayError::Repo(RepoError::InvalidName) => 400,
            GatewayError::Repo(_) => 500,
            GatewayError::Rpc(_) => 500,
        }
    }

    /// What to tell about the error.
    pub fn message(&self) -> (message: &'static str)
        ensures
            message@ == self.message_text(),
    {
        match self {
            GatewayError::Parse(_) => "Unsupported service",
            GatewayError::Decode(DecodeError::Corrupt) => "Could not process gzip",
            GatewayError::Decode(DecodeError::TooLarge) => "Request body too large",
            GatewayError::Repo(RepoError::InvalidName) => "Invalid repository name",
            GatewayError::Repo(RepoError::InitFailed) => "Error init repo",
            GatewayError::Repo(RepoError::HookInstallFailed) => "Error writing hook files",
            GatewayError::Rpc(_) => "Could not run git",
        }
    }
}

/// An error that the client is to blame for is reported with a status
/// between 400 and 499, any other with one between 500 and 599. An error is
/// never reported as a success.
pub proof fn lemma_status_tells_who_is_to_blame(error: GatewayError)
    ensures
        error.blames_client() <==> 400 <= error.status_code() <= 499,
        !error.blames_client() <==> 500 <= error.status_code() <= 599,
{
}

} // verus!
