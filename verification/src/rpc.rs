//! The Git services that the gateway serves, and the names by which a
//! request asks for them.

use vstd::prelude::*;
use crate::text::str_eq;

verus! {

/// The Git services that a request can invoke.
#[derive(Debug, PartialEq, Eq, Clone, Copy, Structural)]
pub enum GitRpc {
    GitUploadPack,
    GitReceivePack,
}

/// Why a service string was not accepted.
#[derive(Debug, PartialEq, Eq, Clone, Copy, Structural)]
pub enum ParseError {
    /// The string is none of the canonical names of a supported service.
    UnsupportedService,
}

impl GitRpc {
    pub const RECEIVE_PACK_RPC: &'static str = "git-receive-pack";

    pub const UPLOAD_PACK_RPC: &'static str = "git-upload-pack";

    /// The canonical dashed name of the service.
    pub open spec fn dashed_name(self) -> Seq<char> {
        match self {
            GitRpc::GitUploadPack => "git-upload-pack"@,
            GitRpc::GitReceivePack => "git-receive-pack"@,
        }
    }

    /// The canonical spaced name of the service.
    pub open spec fn spaced_name(self) -> Seq<char> {
        match self {
            GitRpc::GitUploadPack => "git upload-pack"@,
            GitRpc::GitReceivePack => "git receive-pack"@,
        }
    }

    /// The name of the `git` subcommand that serves the service.
    pub open spec fn subcommand_name(self) -> Seq<char> {
        match self {
            GitRpc::GitUploadPack => "upload-pack"@,
            GitRpc::GitReceivePack => "receive-pack"@,
        }
    }

    /// The service that a string names, if it names one.
    pub open spec fn parsed(s: Seq<char>) -> Option<GitRpc> {
        if s == GitRpc::GitUploadPack.dashed_name() || s == GitRpc::GitUploadPack.spaced_name() {
            Some(GitRpc::GitUploadPack)
        } else if s == GitRpc::GitReceivePack.dashed_name() || s == GitRpc::GitReceivePack.spaced_name() {
            Some(GitRpc::GitReceivePack)
        } else {
            None
        }
    }

    /// Reads a service name in its dashed or its spaced form.
    pub fn parse(raw: &str) -> (r: Result<GitRpc, ParseError>)
        ensures
            r == match GitRpc::parsed(raw@) {
                Some(rpc) => Ok::<GitRpc, ParseError>(rpc),
                None => Err(ParseError::UnsupportedService),
            },
    {
        if str_eq(raw, "git-upload-pack") || str_eq(raw, "git upload-pack") {
            Ok(GitRpc::GitUploadPack)
        } else if str_eq(raw, "git-receive-pack") || str_eq(raw, "git receive-pack") {
            Ok(GitRpc::GitReceivePack)
        } else {
            Err(ParseError::UnsupportedService)
        }
    }

    /// Reads a service name, giving `None` for anything but a canonical name.
    pub fn from(rpc_string: &str) -> (r: Option<GitRpc>)
        ensures
            r == GitRpc::parsed(rpc_string@),
    {
        match GitRpc::parse(rpc_string) {
            Ok(rpc) => Some(rpc),
            Err(_) => None,
        }
    }

    /// The canonical dashed name, as used on the command line and in the
    /// `service=` advertisement.
    pub fn value(&self) -> (s: &'static str)
        ensures
            s@ == self.dashed_name(),
    {
        match self {
            GitRpc::GitReceivePack => GitRpc::RECEIVE_PACK_RPC,
            GitRpc::GitUploadPack => GitRpc::UPLOAD_PACK_RPC,
        }
    }

    /// The subcommand of `git` that serves the service: what follows the
    /// first separator of its name.
    pub fn subcommand(&self) -> (s: &'static str)
        ensures
            s@ == self.subcommand_name(),
    {
        match self {
            GitRpc::GitReceivePack => "receive-pack",
            GitRpc::GitUploadPack => "upload-pack",
        }
    }

    /// The subcommand of `git` that serves the service. Every service has
    /// one, so this is never an error.
    pub fn sub_command(&self) -> (r: Result<&str, String>)
        ensures
            r matches Ok(s) && s@ == self.subcommand_name(),
    {
        Ok(self.subcommand())
    }
}

/// Each service has two canonical names, and no name belongs to two
/// services: reading either name of a service gives that service.
pub proof fn lemma_canonical_names_parse(rpc: GitRpc)
    ensures
        GitRpc::parsed(rpc.dashed_name()) == Some(rpc),
        GitRpc::parsed(rpc.spaced_name()) == Some(rpc),
        rpc.dashed_name() != rpc.spaced_name(),
{
    reveal_strlit("git-upload-pack");
    reveal_strlit("git upload-pack");
    reveal_strlit("git-receive-pack");
    reveal_strlit("git receive-pack");
    assert("git-upload-pack"@.len() == 15 && "git upload-pack"@.len() == 15);
    assert("git-receive-pack"@.len() == 16 && "git receive-pack"@.len() == 16);
    assert("git-upload-pack"@[3] == '-' && "git upload-pack"@[3] == ' ');
    assert("git-receive-pack"@[3] == '-' && "git receive-pack"@[3] == ' ');
}

/// A string is read as a service exactly when it is one of the two names of
/// that service; every other string is refused.
pub proof fn lemma_parse_accepts_only_canonical_names(s: Seq<char>)
    ensures
        GitRpc::parsed(s) matches Some(rpc) ==> s == rpc.dashed_name() || s == rpc.spaced_name(),
        GitRpc::parsed(s) is None <==> forall|rpc: GitRpc|
            s != #[trigger] rpc.dashed_name() && s != rpc.spaced_name(),
{
    lemma_canonical_names_parse(GitRpc::GitUploadPack);
    lemma_canonical_names_parse(GitRpc::GitReceivePack);
    if GitRpc::parsed(s) is None {
        assert forall|rpc: GitRpc| s != #[trigger] rpc.dashed_name() && s != rpc.spaced_name() by {
            match rpc {
                GitRpc::GitUploadPack => {},
                GitRpc::GitReceivePack => {},
            }
        }
    }
}

/// Reading a dashed canonical name and taking the value of the service read
/// gives the name back unchanged. For a spaced name the value is the dashed
/// name of the same service.
pub proof fn lemma_parse_then_value(s: Seq<char>)
    ensures
        s == GitRpc::GitUploadPack.dashed_name() || s == GitRpc::GitReceivePack.dashed_name()
            ==> GitRpc::parsed(s).unwrap().dashed_name() == s,
        s == GitRpc::GitUploadPack.spaced_name() ==> GitRpc::parsed(s).unwrap().dashed_name()
            == GitRpc::GitUploadPack.dashed_name(),
        s == GitRpc::GitReceivePack.spaced_name() ==> GitRpc::parsed(s).unwrap().dashed_name()
            == GitRpc::GitReceivePack.dashed_name(),
{
    lemma_canonical_names_parse(GitRpc::GitUploadPack);
    lemma_canonical_names_parse(GitRpc::GitReceivePack);
}

/// Both names of a service are the word `git`, one separator, and the
/// subcommand: the subcommand is what follows the first separator.
pub proof fn lemma_subcommand_follows_separator(rpc: GitRpc)
    ensures
        rpc.dashed_name() == "git-"@ + rpc.subcommand_name(),
        rpc.spaced_name() == "git "@ + rpc.subcommand_name(),
        forall|i: int| 0 <= i < 3 ==> rpc.dashed_name()[i] != '-' && rpc.spaced_name()[i] != ' ',
{
    reveal_strlit("git-upload-pack");
    reveal_strlit("git upload-pack");
    reveal_strlit("git-receive-pack");
    reveal_strlit("git receive-pack");
    reveal_strlit("upload-pack");
    reveal_strlit("receive-pack");
    reveal_strlit("git-");
    reveal_strlit("git ");
}

} // verus!
