//! The responses of the gateway: what `git` said, in the envelope that the
//! protocol asks for.

use vstd::prelude::*;
use vstd::string::*;
use vstd::utf8::*;
use crate::pktline::{
    declared_length, flush_pkt, frame, lemma_header_declares_length, pkt_line, push_flush,
};
use crate::rpc::GitRpc;

verus! {

/// Why a `git` command gave no outcome.
#[derive(Debug, PartialEq, Eq, Clone, Copy, Structural)]
pub enum RpcError {
    /// The `git` program could not be started.
    SpawnFailed,
}

/// What came of running a `git` command to its end.
pub struct RpcOutcome {
    /// Whether `git` exited with success.
    pub success: bool,
    pub stdout: Vec<u8>,
    pub stderr: Vec<u8>,
}

/// What an `RpcOutcome` holds.
pub struct OutcomeView {
    pub success: bool,
    pub stdout: Seq<u8>,
    pub stderr: Seq<u8>,
}

impl View for RpcOutcome {
    type V = OutcomeView;

    open spec fn view(&self) -> OutcomeView {
        OutcomeView { success: self.success, stdout: self.stdout@, stderr: self.stderr@ }
    }
}

impl OutcomeView {
    /// What is relayed to the client: the output of a `git` that succeeded,
    /// and the diagnostics of one that failed.
    pub open spec fn payload(self) -> Seq<u8> {
        if self.success {
            self.stdout
        } else {
            self.stderr
        }
    }

    /// The status of the response that relays the outcome.
    pub open spec fn status(self) -> u16 {
        if self.success {
            200
        } else {
            500
        }
    }
}

/// What came of an attempt to run a `git` command.
pub enum GitRun {
    /// The `git` program could not be started.
    NotStarted,
    /// `git` ran to its end.
    Exited { outcome: RpcOutcome },
}

/// What a `GitRun` holds.
pub enum RunView {
    NotStarted,
    Exited { outcome: OutcomeView },
}

impl View for GitRun {
    type V = RunView;

    open spec fn view(&self) -> RunView {
        match self {
            GitRun::NotStarted => RunView::NotStarted,
            GitRun::Exited { outcome } => RunView::Exited { outcome: outcome@ },
        }
    }
}

/// The outcome of a `git` command, with the service that it was run for.
pub struct GitOutput {
    pub git_rpc: GitRpc,
    pub output: RpcOutcome,
}

/// A response of the gateway.
pub struct GitResponse {
    pub status: u16,
    pub content_type: String,
    pub cache_control: String,
    pub body: Vec<u8>,
}

/// What a `GitResponse` holds.
pub struct ResponseView {
    pub status: u16,
    pub content_type: Seq<char>,
    pub cache_control: Seq<char>,
    pub body: Seq<u8>,
}

impl View for GitResponse {
    type V = ResponseView;

    open spec fn view(&self) -> ResponseView {
        ResponseView {
            status: self.status,
            content_type: self.content_type@,
            cache_control: self.cache_control@,
            body: self.body@,
        }
    }
}

/// The line that opens the ref advertisement of a service.
pub open spec fn service_line(rpc: GitRpc) -> Seq<char> {
    "# service="@ + rpc.dashed_name() + "\n"@
}

/// The head of a ref advertisement: the service line as one pkt-line, and a
/// flush marker.
pub open spec fn announcement(rpc: GitRpc) -> Seq<u8> {
    pkt_line(encode_utf8(service_line(rpc))) + flush_pkt()
}

/// The content type of the ref advertisement of a service.
pub open spec fn advertisement_type(rpc: GitRpc) -> Seq<char> {
    "application/x-"@ + rpc.dashed_name() + "-advertisement"@
}

/// The content type of the result of an exchange of a service.
pub open spec fn result_type(rpc: GitRpc) -> Seq<char> {
    "application/x-"@ + rpc.dashed_name() + "-result"@
}

/// The response that advertises refs: the announcement of the service, and
/// then what `git` has to say.
pub open spec fn advertisement_of(rpc: GitRpc, outcome: OutcomeView) -> ResponseView {
    ResponseView {
        status: outcome.status(),
        content_type: advertisement_type(rpc),
        cache_control: "no-cache"@,
        body: announcement(rpc) + outcome.payload(),
    }
}

/// The response that ends an exchange: what `git` has to say, unframed.
pub open spec fn result_of(rpc: GitRpc, outcome: OutcomeView) -> ResponseView {
    ResponseView {
        status: outcome.status(),
        content_type: result_type(rpc),
        cache_control: "no-cache"@,
        body: outcome.payload(),
    }
}

/// What a response holds, or the error.
pub open spec fn response_view(r: Result<GitResponse, RpcError>) -> Result<
    ResponseView,
    RpcError,
> {
    match r {
        Ok(response) => Ok(response@),
        Err(e) => Err(e),
    }
}

/// What becomes of a request for the refs of a repository. A `git` that
/// could not be started fails the request. A `git` that ran is answered
/// with what it said, also where it did not succeed.
pub open spec fn refs_advertised(rpc: GitRpc, run: RunView) -> Result<ResponseView, RpcError> {
    match run {
        RunView::NotStarted => Err(RpcError::SpawnFailed),
        RunView::Exited { outcome } => Ok(advertisement_of(rpc, outcome)),
    }
}

/// What becomes of an exchange with a service. A `git` that could not be
/// started fails the request. A `git` that ran is answered with what it
/// said, also where it did not succeed.
pub open spec fn executed(rpc: GitRpc, run: RunView) -> Result<ResponseView, RpcError> {
    match run {
        RunView::NotStarted => Err(RpcError::SpawnFailed),
        RunView::Exited { outcome } => Ok(result_of(rpc, outcome)),
    }
}

/// The service line is plain ASCII, one byte for each character, and short
/// enough for one pkt-line.
pub proof fn lemma_service_line_is_short(rpc: GitRpc)
    ensures
        is_ascii_chars(service_line(rpc)),
        encode_utf8(service_line(rpc)).len() == service_line(rpc).len(),
        service_line(rpc).len() == 11 + rpc.dashed_name().len(),
        service_line(rpc).len() <= 27,
{
    reveal_strlit("# service=");
    reveal_strlit("git-upload-pack");
    reveal_strlit("git-receive-pack");
    reveal_strlit("\n");
    is_ascii_chars_encode_utf8(service_line(rpc));
}

impl GitRpc {
    /// The head of the ref advertisement of the service.
    pub fn announce(&self) -> (head: Vec<u8>)
        ensures
            head@ == announcement(*self),
    {
        let mut info = String::from_str("# service=");
        info.append(self.value());
        info.append("\n");
        proof {
            lemma_service_line_is_short(*self);
        }
        let mut head = frame(info.as_str().as_bytes());
        push_flush(&mut head);
        head
    }

    /// The content type of the ref advertisement of the service.
    pub fn advertisement_content_type(&self) -> (t: String)
        ensures
            t@ == advertisement_type(*self),
    {
        let mut t = String::from_str("application/x-");
        t.append(self.value());
        t.append("-advertisement");
        t
    }

    /// The content type of the result of an exchange of the service.
    pub fn result_content_type(&self) -> (t: String)
        ensures
            t@ == result_type(*self),
    {
        let mut t = String::from_str("application/x-");
        t.append(self.value());
        t.append("-result");
        t
    }
}

impl RpcOutcome {
    /// What is relayed to the client: the output of a `git` that succeeded,
    /// and the diagnostics of one that failed.
    pub fn payload(&self) -> (bytes: &Vec<u8>)
        ensures
            bytes@ == self@.payload(),
    {
        if self.success {
            &self.stdout
        } else {
            &self.stderr
        }
    }

    /// The status of the response that relays the outcome: 200 where `git`
    /// succeeded, 500 where it failed.
    pub fn status(&self) -> (status: u16)
        ensures
            status == self@.status(),
    {
        if self.success {
            200
        } else {
            500
        }
    }
}

impl GitOutput {
    /// The response to a request for the refs of a repository. What `git`
    /// said follows the announcement of the service whether `git` succeeded
    /// or not, so the body is framed either way.
    pub fn advertisement(&self) -> (response: GitResponse)
        ensures
            response@ == advertisement_of(self.git_rpc, self.output@),
    {
        let mut body = self.git_rpc.announce();
        body.extend_from_slice(self.output.payload().as_slice());
        assert(body@ =~= announcement(self.git_rpc) + self.output@.payload());
        GitResponse {
            status: self.output.status(),
            content_type: self.git_rpc.advertisement_content_type(),
            cache_control: String::from_str("no-cache"),
            body,
        }
    }

    /// The response to an exchange with a service: what `git` said, as it
    /// said it.
    pub fn result(&self) -> (response: GitResponse)
        ensures
            response@ == result_of(self.git_rpc, self.output@),
    {
        GitResponse {
            status: self.output.status(),
            content_type: self.git_rpc.result_content_type(),
            cache_control: String::from_str("no-cache"),
            body: self.output.payload().clone(),
        }
    }
}

/// Answers a request for the refs of a repository, given what came of
/// running the command of `GitHandler::get_info_refs`.
pub fn advertise_refs(git_rpc: GitRpc, run: GitRun) -> (r: Result<GitResponse, RpcError>)
    ensures
        response_view(r) == refs_advertised(git_rpc, run@),
{
    match run {
        GitRun::NotStarted => Err(RpcError::SpawnFailed),
        GitRun::Exited { outcome } => Ok(GitOutput { git_rpc, output: outcome }.advertisement()),
    }
}

/// Answers an exchange with a service, given what came of running the
/// command of `GitHandler::git_rpc` on the body of the request.
pub fn execute(git_rpc: GitRpc, run: GitRun) -> (r: Result<GitResponse, RpcError>)
    ensures
        response_view(r) == executed(git_rpc, run@),
{
    match run {
        GitRun::NotStarted => Err(RpcError::SpawnFailed),
        GitRun::Exited { outcome } => Ok(GitOutput { git_rpc, output: outcome }.result()),
    }
}

/// A ref advertisement is well framed whatever `git` said: it begins with
/// a header that declares the length of the service line and four more,
/// then comes that line, then the flush marker, and only then the payload.
pub proof fn lemma_advertisement_is_framed(rpc: GitRpc, outcome: OutcomeView)
    ensures
        ({
            let body = advertisement_of(rpc, outcome).body;
            let line = encode_utf8(service_line(rpc));
            let n = line.len() as int;
            &&& n == service_line(rpc).len()
            &&& declared_length(body.take(4)) == Some(n + 4)
            &&& body.subrange(4, 4 + n) == line
            &&& body.subrange(4 + n, 8 + n) == flush_pkt()
            &&& body.skip(8 + n) == outcome.payload()
        }),
{
    lemma_service_line_is_short(rpc);
    lemma_header_declares_length(service_line(rpc).len() as int + 4);
}

/// The text of the announcement of a service.
pub open spec fn announcement_text(rpc: GitRpc) -> Seq<char> {
    match rpc {
        GitRpc::GitUploadPack => "001e# service=git-upload-pack\n0000"@,
        GitRpc::GitReceivePack => "001f# service=git-receive-pack\n0000"@,
    }
}

/// The announcement of a service, byte for byte: for `git-upload-pack` the
/// header `001e`, the line `# service=git-upload-pack` with its line feed,
/// and `0000`.
pub proof fn lemma_announcement_text(rpc: GitRpc)
    ensures
        announcement(rpc) == encode_utf8(announcement_text(rpc)),
{
    reveal_strlit("# service=");
    reveal_strlit("git-upload-pack");
    reveal_strlit("git-receive-pack");
    reveal_strlit("\n");
    reveal_strlit("001e# service=git-upload-pack\n0000");
    reveal_strlit("001f# service=git-receive-pack\n0000");
    is_ascii_chars_encode_utf8(service_line(rpc));
    is_ascii_chars_encode_utf8(announcement_text(rpc));
    assert(announcement(rpc) =~= encode_utf8(announcement_text(rpc)));
}

} // verus!
