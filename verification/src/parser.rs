//! Request lines such as a remote shell hands over: a command and, between
//! quotes, the name of a repository.

use vstd::prelude::*;
use vstd::string::*;
use crate::repo::without_leading_separator;
use crate::text::chars_of;

verus! {

/// A request for a Git service as it comes in one line, such as a command
/// handed over by a remote shell: which command, and on which repository.
#[derive(Debug, PartialEq, Eq)]
pub struct GitRequest {
    /// The command, as it was written.
    pub command: String,
    /// The repository, without the separator that may lead its name.
    pub repo: String,
}

/// What a `GitRequest` holds.
pub struct RequestView {
    pub command: Seq<char>,
    pub repo: Seq<char>,
}

impl View for GitRequest {
    type V = RequestView;

    open spec fn view(&self) -> RequestView {
        RequestView { command: self.command@, repo: self.repo@ }
    }
}

/// Whether a character is white space.
pub open spec fn is_space(c: char) -> bool {
    ||| '\t' <= c <= '\r'
    ||| c == ' '
    ||| c == '\u{85}'
    ||| c == '\u{a0}'
    ||| c == '\u{1680}'
    ||| '\u{2000}' <= c <= '\u{200a}'
    ||| '\u{2028}' <= c <= '\u{2029}'
    ||| c == '\u{202f}'
    ||| c == '\u{205f}'
    ||| c == '\u{3000}'
}

/// Whether a character may stand between `git` and the name of a service:
/// a dash, a bar, or white space.
pub open spec fn is_separator(c: char) -> bool {
    c == '-' || c == '|' || is_space(c)
}

/// Whether `word` stands in `line` at index `at`.
pub open spec fn has_at(line: Seq<char>, at: int, word: Seq<char>) -> bool {
    0 <= at && at + word.len() <= line.len() && line.subrange(at, at + word.len()) == word
}

/// The length of the command that a line begins with, if it begins with
/// one: `git`, one separator, and `upload-pack`, `upload-archive` or
/// `receive-pack`.
pub open spec fn command_len(line: Seq<char>) -> Option<int> {
    if has_at(line, 0, "git"@) && line.len() > 3 && is_separator(line[3]) {
        if has_at(line, 4, "upload-pack"@) {
            Some(15)
        } else if has_at(line, 4, "upload-archive"@) {
            Some(18)
        } else if has_at(line, 4, "receive-pack"@) {
            Some(16)
        } else {
            None
        }
    } else {
        None
    }
}

/// The index of the first line feed at or after `from`, or the length of
/// the text where there is none.
pub open spec fn line_end(line: Seq<char>, from: int) -> int
    decreases line.len() - from,
{
    if from >= line.len() {
        line.len() as int
    } else if line[from] == '\n' {
        from
    } else {
        line_end(line, from + 1)
    }
}

/// The index of the last quote at or after `from` and before `to`.
pub open spec fn last_quote(line: Seq<char>, from: int, to: int) -> Option<int>
    decreases to - from,
{
    if to <= from {
        None
    } else if line[to - 1] == '\'' {
        Some(to - 1)
    } else {
        last_quote(line, from, to - 1)
    }
}

/// The request that a line holds, if it holds one: a command, one space,
/// and the name of the repository between quotes. The name runs up to the
/// last quote of the first line, and loses the one separator that may lead
/// it. What follows the closing quote is not read.
pub open spec fn request_of(line: Seq<char>) -> Option<RequestView> {
    match command_len(line) {
        Some(c) => {
            if line.len() >= c + 2 && line[c] == ' ' && line[c + 1] == '\'' {
                match last_quote(line, c + 2, line_end(line, c + 2)) {
                    Some(close) => Some(
                        RequestView {
                            command: line.take(c),
                            repo: without_leading_separator(line.subrange(c + 2, close)),
                        },
                    ),
                    None => None,
                }
            } else {
                None
            }
        },
        None => None,
    }
}

/// The message for a line that holds no request.
pub open spec fn invalid_command(line: Seq<char>) -> Seq<char> {
    "Invalid git command: "@ + line
}

/// The end of the first line is where the first line feed stands: no line
/// feed comes before it, and one stands there unless the text ends first.
pub proof fn lemma_line_end_is_first_line_feed(line: Seq<char>, from: int)
    requires
        0 <= from <= line.len(),
    ensures
        from <= line_end(line, from) <= line.len(),
        forall|k: int| from <= k < line_end(line, from) ==> line[k] != '\n',
        line_end(line, from) < line.len() ==> line[line_end(line, from)] == '\n',
    decreases line.len() - from,
{
    if from < line.len() && line[from] != '\n' {
        lemma_line_end_is_first_line_feed(line, from + 1);
    }
}

/// The last quote is a quote with no quote after it in the range, and there
/// is one wherever the range holds a quote at all.
pub proof fn lemma_last_quote_is_last(line: Seq<char>, from: int, to: int)
    requires
        0 <= from <= to <= line.len(),
    ensures
        match last_quote(line, from, to) {
            Some(close) => {
                &&& from <= close < to
                &&& line[close] == '\''
                &&& forall|k: int| close < k < to ==> line[k] != '\''
            },
            None => forall|k: int| from <= k < to ==> line[k] != '\'',
        },
    decreases to - from,
{
    if from < to && line[to - 1] != '\'' {
        lemma_last_quote_is_last(line, from, to - 1);
    }
}

/// What a request holds: its command is `git`, a separator and the name of
/// a service, as the line began; the name of its repository holds no line
/// feed, and a quote closes it.
pub proof fn lemma_request_parts(line: Seq<char>)
    requires
        request_of(line) is Some,
    ensures
        ({
            let request = request_of(line).unwrap();
            let c = request.command.len() as int;
            &&& c == 15 || c == 18 || c == 16
            &&& request.command == line.take(c)
            &&& request.command.take(3) == "git"@
            &&& is_separator(request.command[3])
            &&& request.command.skip(4) == "upload-pack"@ || request.command.skip(4)
                == "upload-archive"@ || request.command.skip(4) == "receive-pack"@
            &&& forall|k: int| 0 <= k < request.repo.len() ==> request.repo[k] != '\n'
        }),
{
    reveal_strlit("git");
    reveal_strlit("upload-pack");
    reveal_strlit("upload-archive");
    reveal_strlit("receive-pack");
    let c = command_len(line).unwrap();
    let request = request_of(line).unwrap();
    let end = line_end(line, c + 2);
    lemma_line_end_is_first_line_feed(line, c + 2);
    lemma_last_quote_is_last(line, c + 2, end);
    let close = last_quote(line, c + 2, end).unwrap();
    let raw = line.subrange(c + 2, close);
    assert forall|k: int| 0 <= k < request.repo.len() implies request.repo[k] != '\n' by {
        if raw.len() > 0 && raw[0] == '/' {
            assert(request.repo[k] == raw[k + 1]);
        } else {
            assert(request.repo[k] == raw[k]);
        }
    }
}

/// Whether a character is white space.
fn space(c: char) -> (b: bool)
    ensures
        b == is_space(c),
{
    ('\t' <= c && c <= '\r') || c == ' ' || c == '\u{85}' || c == '\u{a0}' || c == '\u{1680}' || (
    '\u{2000}' <= c && c <= '\u{200a}') || ('\u{2028}' <= c && c <= '\u{2029}') || c == '\u{202f}'
        || c == '\u{205f}' || c == '\u{3000}'
}

/// Whether `word` stands in `line` at index `at`.
fn stands_at(line: &Vec<char>, at: usize, word: &str) -> (b: bool)
    ensures
        b == has_at(line@, at as int, word@),
{
    let w = chars_of(word);
    if at > line.len() || w.len() > line.len() - at {
        return false;
    }
    let mut i: usize = 0;
    while i < w.len()
        invariant
            0 <= i <= w.len(),
            w@ == word@,
            at + w.len() <= line.len(),
            forall|k: int| 0 <= k < i ==> line@[at + k] == w@[k],
        decreases w.len() - i,
    {
        if line[at + i] != w[i] {
            return false;
        }
        i = i + 1;
    }
    assert(line@.subrange(at as int, at + w.len()) =~= w@);
    true
}

/// The length of the command that a line begins with, if it begins with
/// one.
fn command_length(line: &Vec<char>) -> (r: Option<usize>)
    ensures
        match r {
            Some(c) => command_len(line@) == Some(c as int),
            None => command_len(line@) is None,
        },
{
    if stands_at(line, 0, "git") && line.len() > 3 && (line[3] == '-' || line[3] == '|' || space(
        line[3],
    )) {
        if stands_at(line, 4, "upload-pack") {
            Some(15)
        } else if stands_at(line, 4, "upload-archive") {
            Some(18)
        } else if stands_at(line, 4, "receive-pack") {
            Some(16)
        } else {
            None
        }
    } else {
        None
    }
}

/// The index of the first line feed at or after `from`, or the length of
/// the line.
fn find_line_end(line: &Vec<char>, from: usize) -> (end: usize)
    requires
        from <= line.len(),
    ensures
        end == line_end(line@, from as int),
        from <= end <= line.len(),
{
    let mut i: usize = from;
    while i < line.len() && line[i] != '\n'
        invariant
            from <= i <= line.len(),
            line_end(line@, from as int) == line_end(line@, i as int),
        decreases line.len() - i,
    {
        i = i + 1;
    }
    i
}

/// The index of the last quote at or after `from` and before `to`.
fn find_last_quote(line: &Vec<char>, from: usize, to: usize) -> (r: Option<usize>)
    requires
        from <= to <= line.len(),
    ensures
        match r {
            Some(close) => last_quote(line@, from as int, to as int) == Some(close as int)
                && from <= close < to,
            None => last_quote(line@, from as int, to as int) is None,
        },
{
    let mut j: usize = to;
    while j > from
        invariant
            from <= j <= to,
            to <= line.len(),
            last_quote(line@, from as int, to as int) == last_quote(line@, from as int, j as int),
        decreases j - from,
    {
        if line[j - 1] == '\'' {
            return Some(j - 1);
        }
        j = j - 1;
    }
    None
}

impl GitRequest {
    /// Reads a request line.
    pub fn new(cmd: &'static str) -> (r: Result<GitRequest, String>)
        ensures
            match r {
                Ok(request) => request_of(cmd@) == Some(request@),
                Err(message) => request_of(cmd@) is None && message@ == invalid_command(cmd@),
            },
    {
        let line = chars_of(cmd);
        if let Some(c) = command_length(&line) {
            if line.len() >= c + 2 && line[c] == ' ' && line[c + 1] == '\'' {
                let end = find_line_end(&line, c + 2);
                if let Some(close) = find_last_quote(&line, c + 2, end) {
                    let start: usize = if c + 2 < close && line[c + 2] == '/' {
                        c + 3
                    } else {
                        c + 2
                    };
                    assert(cmd@.subrange(start as int, close as int) =~= without_leading_separator(
                        cmd@.subrange(c + 2, close as int),
                    ));
                    return Ok(
                        GitRequest {
                            command: cmd.substring_char(0, c).to_owned(),
                            repo: cmd.substring_char(start, close).to_owned(),
                        },
                    );
                }
            }
        }
        let mut message = String::from_str("Invalid git command: ");
        message.append(cmd);
        Err(message)
    }
}

} // verus!
