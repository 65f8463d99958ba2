//! The hook scripts of a repository: which files installing them writes,
//! and what installing does to a hooks directory.

use vstd::prelude::*;
use vstd::string::*;
use crate::text::{join_path, joined};

verus! {

/// The scripts to install as hooks of a repository, one for each phase of a
/// push. A phase without a script gets no hook.
pub struct HookScripts {
    pub pre_receive: Option<String>,
    pub update: Option<String>,
    pub post_receive: Option<String>,
}

/// What a `HookScripts` holds: for each phase the text of its script.
pub struct HookSet {
    pub pre_receive: Option<Seq<char>>,
    pub update: Option<Seq<char>>,
    pub post_receive: Option<Seq<char>>,
}

/// A hook file to write: its name inside the hooks directory and its whole
/// content.
pub struct HookFile {
    pub name: String,
    pub body: String,
}

/// The permission bits of a hook file: its owner may read, write and run it,
/// everyone else may read and run it. `git` runs a hook only if it may.
pub const HOOK_FILE_MODE: u32 = 0o755;

/// The files of a hooks directory, each name with the content of its file.
pub type HooksDir = Map<Seq<char>, Seq<char>>;

/// The text of a script, if there is one.
pub open spec fn script_text(script: Option<String>) -> Option<Seq<char>> {
    match script {
        Some(s) => Some(s@),
        None => None,
    }
}

impl View for HookScripts {
    type V = HookSet;

    open spec fn view(&self) -> HookSet {
        HookSet {
            pre_receive: script_text(self.pre_receive),
            update: script_text(self.update),
            post_receive: script_text(self.post_receive),
        }
    }
}

impl View for HookFile {
    type V = (Seq<char>, Seq<char>);

    open spec fn view(&self) -> (Seq<char>, Seq<char>) {
        (self.name@, self.body@)
    }
}

/// Name and content of each file of a list.
pub open spec fn file_views(files: Seq<HookFile>) -> Seq<(Seq<char>, Seq<char>)> {
    files.map_values(|f: HookFile| f@)
}

/// The file that a phase asks for: one where it has a script, none otherwise.
pub open spec fn phase_files(name: Seq<char>, script: Option<Seq<char>>) -> Seq<
    (Seq<char>, Seq<char>),
> {
    match script {
        Some(body) => seq![(name, body)],
        None => seq![],
    }
}

/// The directory after the files of a list were written into it in order,
/// each replacing what its name held before.
pub open spec fn written(dir: HooksDir, files: Seq<(Seq<char>, Seq<char>)>) -> HooksDir
    decreases files.len(),
{
    if files.len() == 0 {
        dir
    } else {
        written(dir, files.drop_last()).insert(files.last().0, files.last().1)
    }
}

impl HookSet {
    /// The files to write for these scripts, in the order of the phases.
    pub open spec fn files(self) -> Seq<(Seq<char>, Seq<char>)> {
        phase_files("pre-receive"@, self.pre_receive) + phase_files("update"@, self.update)
            + phase_files("post-receive"@, self.post_receive)
    }

    /// The hooks directory after these scripts were installed into it.
    pub open spec fn installed(self, dir: HooksDir) -> HooksDir {
        written(dir, self.files())
    }

    /// These scripts laid over earlier ones: each phase has the script it has
    /// here, or else the earlier one.
    pub open spec fn over(self, earlier: HookSet) -> HookSet {
        HookSet {
            pre_receive: if self.pre_receive is Some {
                self.pre_receive
            } else {
                earlier.pre_receive
            },
            update: if self.update is Some {
                self.update
            } else {
                earlier.update
            },
            post_receive: if self.post_receive is Some {
                self.post_receive
            } else {
                earlier.post_receive
            },
        }
    }

    /// The script that these scripts hold for the file of a given name.
    pub open spec fn script_named(self, name: Seq<char>) -> Option<Seq<char>> {
        if name == "pre-receive"@ {
            self.pre_receive
        } else if name == "update"@ {
            self.update
        } else if name == "post-receive"@ {
            self.post_receive
        } else {
            None
        }
    }
}

impl Clone for HookScripts {
    fn clone(&self) -> (r: Self)
        ensures
            r@ == self@,
    {
        HookScripts {
            pre_receive: match &self.pre_receive {
                Some(s) => Some(s.clone()),
                None => None,
            },
            update: match &self.update {
                Some(s) => Some(s.clone()),
                None => None,
            },
            post_receive: match &self.post_receive {
                Some(s) => Some(s.clone()),
                None => None,
            },
        }
    }
}

impl Default for HookScripts {
    /// Scripts that print the name of their phase.
    fn default() -> (r: Self)
        ensures
            r@ == HookScripts::default_set(),
    {
        HookScripts {
            pre_receive: Some(String::from_str("echo \"pre-receive\"")),
            update: Some(String::from_str("echo \"update\"")),
            post_receive: Some(String::from_str("echo \"post-receive\"")),
        }
    }
}

impl HookScripts {
    /// The scripts that a handler installs unless it is given others: each
    /// prints the name of its phase.
    pub open spec fn default_set() -> HookSet {
        HookSet {
            pre_receive: Some("echo \"pre-receive\""@),
            update: Some("echo \"update\""@),
            post_receive: Some("echo \"post-receive\""@),
        }
    }

    /// Directory for git hooks within the repo.
    pub const HOOKS_DIR_NAME: &'static str = "hooks";

    /// The hooks directory of the repository at `repo_path`.
    pub fn get_hook_dir(repo_path: &str) -> (dir: String)
        ensures
            dir@ == joined(repo_path@, "hooks"@),
    {
        join_path(repo_path, HookScripts::HOOKS_DIR_NAME)
    }

    /// The files that installing these scripts writes: one for each phase that
    /// has a script, named after the phase and holding the script unchanged.
    pub fn hook_files(&self) -> (files: Vec<HookFile>)
        ensures
            file_views(files@) == self@.files(),
    {
        let mut files: Vec<HookFile> = Vec::new();
        if let Some(s) = &self.pre_receive {
            files.push(HookFile { name: String::from_str("pre-receive"), body: s.clone() });
        }
        if let Some(s) = &self.update {
            files.push(HookFile { name: String::from_str("update"), body: s.clone() });
        }
        if let Some(s) = &self.post_receive {
            files.push(HookFile { name: String::from_str("post-receive"), body: s.clone() });
        }
        files
    }
}

/// Writing one list of files after another is writing the two lists as one.
pub proof fn lemma_written_in_turn(
    dir: HooksDir,
    first: Seq<(Seq<char>, Seq<char>)>,
    second: Seq<(Seq<char>, Seq<char>)>,
)
    ensures
        written(dir, first + second) == written(written(dir, first), second),
    decreases second.len(),
{
    if second.len() == 0 {
        assert(first + second =~= first);
    } else {
        lemma_written_in_turn(dir, first, second.drop_last());
        assert((first + second).drop_last() =~= first + second.drop_last());
    }
}

/// Writing the file of one phase puts its script under its name, and changes
/// nothing where the phase has no script.
proof fn lemma_written_phase(dir: HooksDir, name: Seq<char>, script: Option<Seq<char>>)
    ensures
        written(dir, phase_files(name, script)) == match script {
            Some(body) => dir.insert(name, body),
            None => dir,
        },
{
    match script {
        Some(body) => {
            let files = phase_files(name, script);
            assert(files.drop_last() =~= seq![]);
            assert(written(dir, files.drop_last()) == dir);
        },
        None => {},
    }
}

/// The three phases have three different file names.
proof fn lemma_phase_names_differ()
    ensures
        "pre-receive"@ != "update"@,
        "pre-receive"@ != "post-receive"@,
        "update"@ != "post-receive"@,
{
    reveal_strlit("pre-receive");
    reveal_strlit("update");
    reveal_strlit("post-receive");
    assert("pre-receive"@.len() == 11);
    assert("update"@.len() == 6);
    assert("post-receive"@.len() == 12);
}

/// Installing puts each script into the file named after its phase, whatever
/// that file held, and leaves every other file of the directory as it was:
/// the file of a phase without a script too.
pub proof fn lemma_installed_files(set: HookSet, dir: HooksDir)
    ensures
        forall|name: Seq<char>| #[trigger]
            set.script_named(name) matches Some(body) ==> set.installed(dir).contains_pair(
                name,
                body,
            ),
        forall|name: Seq<char>| #[trigger]
            set.script_named(name) is None ==> (set.installed(dir).dom().contains(name)
                <==> dir.dom().contains(name)) && set.installed(dir)[name] == dir[name],
{
    lemma_phase_names_differ();
    let first = phase_files("pre-receive"@, set.pre_receive);
    let second = phase_files("update"@, set.update);
    let third = phase_files("post-receive"@, set.post_receive);
    let after_first = written(dir, first);
    let after_second = written(after_first, second);
    lemma_written_in_turn(dir, first + second, third);
    lemma_written_in_turn(dir, first, second);
    lemma_written_phase(dir, "pre-receive"@, set.pre_receive);
    lemma_written_phase(after_first, "update"@, set.update);
    lemma_written_phase(after_second, "post-receive"@, set.post_receive);
}

/// Installing is additive: installing one set of scripts and then another
/// leaves the directory as installing the second laid over the first does.
/// A phase that the second set has no script for keeps the file that the
/// first installation wrote.
pub proof fn lemma_install_is_additive(earlier: HookSet, later: HookSet, dir: HooksDir)
    ensures
        later.installed(earlier.installed(dir)) == later.over(earlier).installed(dir),
{
    lemma_phase_names_differ();
    lemma_installed_files(earlier, dir);
    lemma_installed_files(later, earlier.installed(dir));
    lemma_installed_files(later.over(earlier), dir);
    let twice = later.installed(earlier.installed(dir));
    let once = later.over(earlier).installed(dir);
    assert forall|name: Seq<char>|
        #![trigger twice.dom().contains(name)]
        #![trigger once.dom().contains(name)]
        twice.dom().contains(name) == once.dom().contains(name) && (twice.dom().contains(name)
            ==> twice[name] == once[name]) by {
        let script = later.script_named(name);
        assert(later.over(earlier).script_named(name) == if script is Some {
            script
        } else {
            earlier.script_named(name)
        });
    }
    assert(twice =~= once);
}

/// Installing is idempotent: installing the same scripts a second time
/// changes nothing.
pub proof fn lemma_install_twice(set: HookSet, dir: HooksDir)
    ensures
        set.installed(set.installed(dir)) == set.installed(dir),
{
    lemma_install_is_additive(set, set, dir);
}

/// Installing scripts for the first and the last phase, and then a script
/// for the middle phase alone, leaves all three files, each with the script
/// that was installed for it.
pub proof fn lemma_install_fills_in(
    dir: HooksDir,
    pre_receive: Seq<char>,
    update: Seq<char>,
    post_receive: Seq<char>,
)
    ensures
        ({
            let first = HookSet {
                pre_receive: Some(pre_receive),
                update: None,
                post_receive: Some(post_receive),
            };
            let second = HookSet { pre_receive: None, update: Some(update), post_receive: None };
            let end = second.installed(first.installed(dir));
            &&& end.contains_pair("pre-receive"@, pre_receive)
            &&& end.contains_pair("update"@, update)
            &&& end.contains_pair("post-receive"@, post_receive)
        }),
{
    let first = HookSet {
        pre_receive: Some(pre_receive),
        update: None,
        post_receive: Some(post_receive),
    };
    let second = HookSet { pre_receive: None, update: Some(update), post_receive: None };
    lemma_phase_names_differ();
    lemma_install_is_additive(first, second, dir);
    lemma_installed_files(second.over(first), dir);
    let all = second.over(first);
    assert(all.script_named("pre-receive"@) == Some(pre_receive));
    assert(all.script_named("update"@) == Some(update));
    assert(all.script_named("post-receive"@) == Some(post_receive));
}

} // verus!
