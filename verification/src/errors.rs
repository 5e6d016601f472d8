//! Error taxonomy of the library.
//!
//! Every failure carries enough structured context (package name, path,
//! stage) to be rendered as an actionable message by the caller.

use vstd::prelude::*;
use vstd::string::*;

verus! {

/// Failures reported by the external source-control client when it is
/// asked to classify or manipulate a working copy.
#[derive(Debug, PartialEq, Eq)]
pub enum GitError {
    /// The path exists but is not a repository this tool recognizes.
    NotARepository(String),
    /// Any other source-control failure, with its diagnostic text.
    Unknown(String),
}

/// The stage of the synchronization pipeline in which a source-control
/// operation failed.
#[derive(Debug, Clone, Copy, PartialEq, Eq, Structural)]
pub enum Stage {
    /// Removing a conflicting install path before a forced clone.
    Remove,
    /// Materializing the remote into the install path.
    Clone,
    /// Querying the working copy for its current branch.
    BranchQuery,
    /// Listing the working copy's configured remotes.
    RemoteQuery,
    /// Switching the working copy to another branch.
    Checkout,
    /// Fetching the canonical branch from the resolved remote.
    Fetch,
    /// Rebasing the local canonical branch onto the fetched one.
    Rebase,
    /// Pulling the canonical branch from the resolved remote.
    Pull,
}

/// The lifecycle hooks a package may define.
#[derive(Debug, Clone, Copy, PartialEq, Eq, Structural)]
pub enum HookKind {
    /// Run once after a fresh clone.
    PostInstall,
    /// Run once after a successful update.
    PostUpdate,
}

/// Everything that can go wrong in resolution or synchronization.
#[derive(Debug, PartialEq, Eq)]
pub enum Error {
    /// A requested or transitively referenced name matches neither a
    /// package nor a collection in the catalog.
    UnknownPackage(String),
    /// The working copy has no remote matching the package's declared
    /// URL: the catalog and the disk have drifted apart.
    RemoteNotFound(String),
    /// Non-repository content occupies the install path and `force`
    /// was not set; nothing was touched.
    ConflictingInstallPath(String),
    /// A clone, fetch, rebase, pull, checkout or removal failed; the
    /// stage identifies where, the detail carries the diagnostic.
    SourceControlFailure(Stage, String),
    /// A lifecycle hook failed. This never rolls back a clone or
    /// update that already succeeded; it is reported separately.
    HookFailure(HookKind, String),
}

impl Clone for GitError {
    fn clone(&self) -> (r: Self)
        ensures
            r == *self,
    {
        match self {
            GitError::NotARepository(m) => GitError::NotARepository(m.clone()),
            GitError::Unknown(m) => GitError::Unknown(m.clone()),
        }
    }
}

impl Clone for Error {
    fn clone(&self) -> (r: Self)
        ensures
            r == *self,
    {
        match self {
            Error::UnknownPackage(n) => Error::UnknownPackage(n.clone()),
            Error::RemoteNotFound(u) => Error::RemoteNotFound(u.clone()),
            Error::ConflictingInstallPath(p) => Error::ConflictingInstallPath(p.clone()),
            Error::SourceControlFailure(s, d) => Error::SourceControlFailure(*s, d.clone()),
            Error::HookFailure(h, d) => Error::HookFailure(*h, d.clone()),
        }
    }
}

impl GitError {
    /// The diagnostic text the error carries.
    pub fn message(&self) -> (r: String)
        ensures
            match self {
                GitError::NotARepository(m) => r@ == m@,
                GitError::Unknown(m) => r@ == m@,
            },
    {
        match self {
            GitError::NotARepository(m) => m.clone(),
            GitError::Unknown(m) => m.clone(),
        }
    }
}

/// The word naming a synchronization stage in reports.
pub open spec fn stage_word(s: Stage) -> Seq<char> {
    match s {
        Stage::Remove => "remove"@,
        Stage::Clone => "clone"@,
        Stage::BranchQuery => "branch query"@,
        Stage::RemoteQuery => "remote query"@,
        Stage::Checkout => "checkout"@,
        Stage::Fetch => "fetch"@,
        Stage::Rebase => "rebase"@,
        Stage::Pull => "pull"@,
    }
}

impl Stage {
    /// The word naming the stage in reports.
    pub fn word(&self) -> (r: String)
        ensures
            r@ == stage_word(*self),
    {
        match self {
            Stage::Remove => String::from_str("remove"),
            Stage::Clone => String::from_str("clone"),
            Stage::BranchQuery => String::from_str("branch query"),
            Stage::RemoteQuery => String::from_str("remote query"),
            Stage::Checkout => String::from_str("checkout"),
            Stage::Fetch => String::from_str("fetch"),
            Stage::Rebase => String::from_str("rebase"),
            Stage::Pull => String::from_str("pull"),
        }
    }
}

/// The name of a lifecycle hook.
pub open spec fn hook_word(h: HookKind) -> Seq<char> {
    match h {
        HookKind::PostInstall => "post-install"@,
        HookKind::PostUpdate => "post-update"@,
    }
}

impl HookKind {
    /// The hook's name in reports.
    pub fn word(&self) -> (r: String)
        ensures
            r@ == hook_word(*self),
    {
        match self {
            HookKind::PostInstall => String::from_str("post-install"),
            HookKind::PostUpdate => String::from_str("post-update"),
        }
    }
}

/// The actionable text reported for an error.
pub open spec fn error_message(e: Error) -> Seq<char> {
    match e {
        Error::UnknownPackage(p) => "Package '"@ + p@ + "' can't be found..."@,
        Error::RemoteNotFound(url) => "No remote matches '"@ + url@ + "'..."@,
        Error::ConflictingInstallPath(p) => "'"@ + p@ + "' exists but isn't a dotman repo..."@,
        Error::SourceControlFailure(s, d) => stage_word(s) + " failed: "@ + d@,
        Error::HookFailure(h, d) => hook_word(h) + " hook failed: "@ + d@,
    }
}

impl Error {
    /// The actionable text to report for this error; it names the
    /// package, path or stage concerned, never a bare failure.
    pub fn message(&self) -> (r: String)
        ensures
            r@ == error_message(*self),
    {
        match self {
            Error::UnknownPackage(p) => {
                let mut s = String::from_str("Package '");
                s.append(p.as_str());
                s.append("' can't be found...");
                assert(s@ =~= error_message(*self));
                s
            },
            Error::RemoteNotFound(url) => {
                let mut s = String::from_str("No remote matches '");
                s.append(url.as_str());
                s.append("'...");
                assert(s@ =~= error_message(*self));
                s
            },
            Error::ConflictingInstallPath(p) => {
                let mut s = String::from_str("'");
                s.append(p.as_str());
                s.append("' exists but isn't a dotman repo...");
                assert(s@ =~= error_message(*self));
                s
            },
            Error::SourceControlFailure(st, d) => {
                let mut s = st.word();
                s.append(" failed: ");
                s.append(d.as_str());
                assert(s@ =~= error_message(*self));
                s
            },
            Error::HookFailure(h, d) => {
                let mut s = h.word();
                s.append(" hook failed: ");
                s.append(d.as_str());
                assert(s@ =~= error_message(*self));
                s
            },
        }
    }
}

} // verus!
