//! The user's configuration: where the catalog repository lives, where
//! it is checked out, and how updates are applied.
//!
//! Loading the configuration file is the shell's concern; the library
//! receives the already-parsed values.

use vstd::prelude::*;
use crate::remote::Remote;
use crate::remote::url_of;
use crate::utils::expand;
use crate::utils::home_expanded;

verus! {

/// How an existing working copy is brought up to date: fetch the
/// canonical branch and rebase onto it, or pull it directly.
#[derive(Debug, Clone, Copy, PartialEq, Eq, Structural)]
pub enum GitUpdateType {
    FetchRebase,
    Pull,
}

impl GitUpdateType {
    /// The update strategy used when the configuration names none.
    pub fn default() -> (r: GitUpdateType)
        ensures
            r == GitUpdateType::FetchRebase,
    {
        GitUpdateType::FetchRebase
    }
}

/// The source-control portion of the configuration.
#[derive(Debug, Clone, Copy, PartialEq, Eq, Structural)]
pub struct GitConfig {
    pub update_type: GitUpdateType,
}

/// The whole configuration: the catalog's remote, its local path
/// expression, and the source-control options.
#[derive(Debug)]
pub struct Config {
    pub remote: Remote,
    pub path: String,
    pub git: GitConfig,
}

impl Config {
    /// Assembles a configuration from its already-parsed parts.
    pub fn new(remote: Remote, path: String, git: GitConfig) -> (r: Config)
        ensures
            r.remote@ == remote@,
            r.path@ == path@,
            r.git == git,
    {
        Config { remote, path, git }
    }

    /// The URL of the catalog repository's remote.
    pub fn url(&self) -> (r: String)
        ensures
            r@ == url_of(self.remote@),
    {
        self.remote.url()
    }

    /// The catalog repository's local path with its home-directory
    /// placeholders expanded against `home`.
    pub fn path(&self, home: &str) -> (r: String)
        ensures
            r@ == home_expanded(self.path@, home@),
    {
        let r = expand(home, "", &self.path);
        proof {
            reveal_strlit("");
        }
        r
    }
}

} // verus!
