use git_server::GitRequest;
use regex::Regex;

#[test]
fn test_git_repo() {
    let commands = [
        (
            GitRequest::new("git-upload-pack 'test.git'"),
            GitRequest {
                command: "git-upload-pack".into(),
                repo: "test.git".into(),
            },
        ),
        (
            GitRequest::new("git upload-pack 'test.git'"),
            GitRequest {
                command: "git upload-pack".into(),
                repo: "test.git".into(),
            },
        ),
        (
            GitRequest::new("git-upload-pack '/test.git'"),
            GitRequest {
                command: "git-upload-pack".into(),
                repo: "test.git".into(),
            },
        ),
        (
            GitRequest::new("git-upload-pack '/hello/world.git'"),
            GitRequest {
                command: "git-upload-pack".into(),
                repo: "hello/world.git".into(),
            },
        ),
        (
            GitRequest::new("git-receive-pack '/test.git'"),
            GitRequest {
                command: "git-receive-pack".into(),
                repo: "test.git".into(),
            },
        ),
        (
            GitRequest::new("git receive-pack '/test.git'"),
            GitRequest {
                command: "git receive-pack".into(),
                repo: "test.git".into(),
            },
        ),
        (
            GitRequest::new("git-upload-archive '/test.git'"),
            GitRequest {
                command: "git-upload-archive".into(),
                repo: "test.git".into(),
            },
        ),
        (
            GitRequest::new("git upload-archive '/test.git'"),
            GitRequest {
                command: "git upload-archive".into(),
                repo: "test.git".into(),
            },
        ),
    ];
    for (req, result) in commands.iter() {
        println!("Checking for: {:?}", req);
        assert_eq!(req.as_ref().unwrap(), result);
    }
}

fn request(command: &str, repo: &str) -> Result<GitRequest, String> {
    Ok(GitRequest { command: command.into(), repo: repo.into() })
}

fn invalid(line: &str) -> Result<GitRequest, String> {
    Err(format!("Invalid git command: {}", line))
}

#[test]
fn only_one_leading_separator_is_stripped() {
    assert_eq!(GitRequest::new("git-upload-pack '//test.git'"), request("git-upload-pack", "/test.git"));
    assert_eq!(GitRequest::new("git-upload-pack 'a/b/c.git'"), request("git-upload-pack", "a/b/c.git"));
    assert_eq!(GitRequest::new("git-upload-pack '/'"), request("git-upload-pack", ""));
    assert_eq!(GitRequest::new("git-upload-pack ''"), request("git-upload-pack", ""));
    assert_eq!(
        GitRequest::new("git-upload-pack '/../etc/passwd'"),
        request("git-upload-pack", "../etc/passwd")
    );
}

#[test]
fn name_runs_to_the_last_quote_of_the_first_line() {
    assert_eq!(GitRequest::new("git-upload-pack 'a'b' rest"), request("git-upload-pack", "a'b"));
    assert_eq!(GitRequest::new("git-upload-pack 'a' 'b'"), request("git-upload-pack", "a' 'b"));
    assert_eq!(GitRequest::new("git-upload-pack 'a'\n'b'"), request("git-upload-pack", "a"));
    assert_eq!(GitRequest::new("git-upload-pack 'a.git' --x"), request("git-upload-pack", "a.git"));
    assert_eq!(GitRequest::new("git-upload-pack '''"), request("git-upload-pack", "'"));
}

#[test]
fn separator_is_a_dash_a_bar_or_white_space() {
    assert_eq!(GitRequest::new("git|upload-pack 'r'"), request("git|upload-pack", "r"));
    assert_eq!(GitRequest::new("git\tupload-pack 'r'"), request("git\tupload-pack", "r"));
    assert_eq!(GitRequest::new("git\nreceive-pack 'r'"), request("git\nreceive-pack", "r"));
    assert_eq!(
        GitRequest::new("git\u{a0}upload-archive 'r'"),
        request("git\u{a0}upload-archive", "r")
    );
    assert_eq!(GitRequest::new("git\u{3000}upload-pack 'r'"), request("git\u{3000}upload-pack", "r"));
    assert_eq!(GitRequest::new("git_upload-pack 'r'"), invalid("git_upload-pack 'r'"));
    assert_eq!(GitRequest::new("git\u{200b}upload-pack 'r'"), invalid("git\u{200b}upload-pack 'r'"));
    assert_eq!(GitRequest::new("git--upload-pack 'r'"), invalid("git--upload-pack 'r'"));
}

#[test]
fn a_line_without_a_request_is_refused() {
    let lines = [
        "",
        "git",
        "git-upload-pack",
        "git-upload-pack ",
        "git-upload-pack '",
        "git-upload-pack 'test.git",
        "git-upload-pack test.git",
        "git-upload-pack  'test.git'",
        "git-upload-pack\t'test.git'",
        "git-upload-pack 'test\n.git'",
        "git-upload-pack \"test.git\"",
        " git-upload-pack 'test.git'",
        "Git-upload-pack 'test.git'",
        "git-upload-packs 'test.git'",
        "git-upload 'test.git'",
        "git-fetch-pack 'test.git'",
        "hg-upload-pack 'test.git'",
    ];
    for line in lines.iter() {
        assert_eq!(GitRequest::new(line), invalid(line));
    }
}

fn by_pattern(pattern: &Regex, line: &str) -> Option<(String, String)> {
    let captures = pattern.captures(line)?;
    let name = &captures[2];
    Some((captures[1].to_string(), name.strip_prefix('/').unwrap_or(name).to_string()))
}

#[test]
fn requests_are_those_of_the_pattern() {
    let pattern = Regex::new(
        r"^(git[-|\s]upload-pack|git[-|\s]upload-archive|git[-|\s]receive-pack) '(.*)'",
    )
    .unwrap();
    let heads = [
        "git-upload-pack",
        "git upload-pack",
        "git|receive-pack",
        "git\rupload-archive",
        "git\u{2003}receive-pack",
        "git\u{1680}upload-pack",
        "git\u{85}upload-pack",
        "git\u{2028}upload-pack",
        "git\u{202f}upload-pack",
        "git\u{205f}upload-pack",
        "git\u{0b}upload-pack",
        "git\u{0c}upload-pack",
        "git\u{1f}upload-pack",
        "git\u{200b}upload-pack",
        "git.upload-pack",
        "gitupload-pack",
        "git-upload-pac",
        "git-upload-archives",
        "git-receive-pack-x",
        "x git-upload-pack",
        "",
    ];
    let tails = [
        " 'test.git'",
        " '/test.git'",
        " '//test.git'",
        " ''",
        " '",
        " '/'",
        " 'a'b'c",
        " 'a'\n'b'",
        " 'a\n'",
        " '\n'",
        " 'caf\u{e9}.git' '",
        " '\u{1f600}/\u{4e2d}.git'",
        "  'test.git'",
        "'test.git'",
        " test.git'",
        " 'a/../b'",
        " 'a\r'",
        "",
    ];
    for head in heads.iter() {
        for tail in tails.iter() {
            let line: &'static str = Box::leak(format!("{}{}", head, tail).into_boxed_str());
            let expected = by_pattern(&pattern, line);
            let found = GitRequest::new(line).ok().map(|r| (r.command, r.repo));
            assert_eq!(found, expected, "on {:?}", line);
        }
    }
}
