//! The settings of the gateway.

use vstd::prelude::*;
use vstd::string::*;
use crate::handler::GitHandler;
use crate::hooks::{HookScripts, HookSet};

verus! {

/// The settings of the gateway, made once when it starts.
pub struct GitServerConfig {
    /// The directory that stores the repositories.
    pub dir: String,
    /// The `git` program to run.
    pub git_path: String,
    /// The hooks to install into each new repository.
    pub hooks: HookScripts,
    /// The longest request body that is accepted, in bytes as sent.
    pub max_body_bytes: usize,
}

/// What a `GitServerConfig` holds.
pub struct ConfigView {
    pub dir: Seq<char>,
    pub git_path: Seq<char>,
    pub hooks: HookSet,
    pub max_body_bytes: usize,
}

impl View for GitServerConfig {
    type V = ConfigView;

    open spec fn view(&self) -> ConfigView {
        ConfigView {
            dir: self.dir@,
            git_path: self.git_path@,
            hooks: self.hooks@,
            max_body_bytes: self.max_body_bytes,
        }
    }
}

/// The limit on request bodies of a configuration that names none: two
/// mebibytes.
pub const DEFAULT_MAX_BODY_BYTES: usize = 2097152;

impl Default for GitServerConfig {
    fn default() -> (r: Self)
        ensures
            r@ == (ConfigView {
                dir: "./data/repo"@,
                git_path: "/usr/bin/git"@,
                hooks: HookScripts::default_set(),
                max_body_bytes: DEFAULT_MAX_BODY_BYTES,
            }),
    {
        GitServerConfig {
            dir: String::from_str("./data/repo"),
            git_path: String::from_str("/usr/bin/git"),
            hooks: HookScripts::default(),
            max_body_bytes: DEFAULT_MAX_BODY_BYTES,
        }
    }
}

impl GitServerConfig {
    /// A handler that works as the configuration says.
    pub fn handler(&self) -> (handler: GitHandler)
        ensures
            handler@.dir == self@.dir,
            handler@.git_path == self@.git_path,
            handler@.hooks == self@.hooks,
    {
        GitHandler {
            dir: self.dir.clone(),
            git_path: self.git_path.clone(),
            hooks: self.hooks.clone(),
        }
    }
}

} // verus!
