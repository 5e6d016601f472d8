//! The per-package synchronization state machine.
//!
//! Synchronizing one package is a strictly sequential pipeline: probe
//! the install path, clone or update, run the lifecycle hook, restore
//! the user's branch. Every decision lives here, as a pure transition
//! function; the shell performs one requested action at a time (a
//! clone, a fetch, a hook run) and feeds the outcome back as an event.
//! The machine never prompts and never touches the filesystem itself.

use vstd::prelude::*;
use vstd::string::*;
use crate::config::GitUpdateType;
use crate::errors::Error;
use crate::errors::HookKind;
use crate::errors::Stage;
use crate::text::str_eq;

verus! {

/// How the source-control client classified the install path.
#[derive(Debug)]
pub enum PathClass {
    /// Nothing exists at the path.
    Absent,
    /// A repository synchronized from the package's declared remote.
    Recognized,
    /// Something else occupies the path; the payload is the client's
    /// diagnostic.
    Unrecognized(String),
}

/// What the source-control client found when asked which configured
/// remote matches the package's URL.
#[derive(Debug)]
pub enum RemoteLookup {
    /// The local name of the matching remote.
    Found(String),
    /// The listing succeeded but no remote matches.
    NoMatch,
    /// The listing itself failed, with its diagnostic.
    Failed(String),
}

/// The outcome of one action the shell performed, fed back into the
/// machine.
#[derive(Debug)]
pub enum SyncEvent {
    Classified(PathClass),
    Removed(Result<(), String>),
    CloneDone(Result<(), String>),
    BranchIs(Result<String, String>),
    CheckoutDone(Result<(), String>),
    RemoteIs(RemoteLookup),
    FetchDone(Result<(), String>),
    RebaseDone(Result<(), String>),
    PullDone(Result<(), String>),
    HookDone(Result<(), String>),
}

/// The next action the shell must perform for the machine.
#[derive(Debug)]
pub enum SyncAction {
    /// Classify the install path against the package's remote.
    Classify,
    /// Remove whatever occupies the install path.
    RemoveDir,
    /// Clone the package's remote into the install path.
    CloneRepo,
    /// Query the working copy's current branch.
    QueryBranch,
    /// Switch the working copy to the named branch.
    Checkout(String),
    /// Find the local name of the remote matching the package's URL.
    ResolveRemote,
    /// Fetch the canonical branch from the named remote.
    Fetch(String),
    /// Rebase the local canonical branch onto the fetched one.
    Rebase,
    /// Pull the canonical branch from the named remote.
    Pull(String),
    /// Run the named lifecycle hook in the install path.
    RunHook(HookKind),
}

/// How one package's synchronization ended.
#[derive(Debug)]
pub enum SyncOutcome {
    /// The package was materialized by a fresh clone.
    Cloned,
    /// The existing working copy was brought up to date.
    Updated,
    /// Nothing was attempted, for the stated reason.
    Skipped(String),
    /// Synchronization failed; nothing more was touched.
    Failed(Error),
}

/// A package's outcome together with its separately-flagged hook
/// result: a failed hook never rolls back a clone or update that
/// already succeeded.
#[derive(Debug)]
pub struct SyncReport {
    pub outcome: SyncOutcome,
    pub hook_error: Option<Error>,
}

/// The caller's per-invocation switches.
#[derive(Debug, Clone, Copy, PartialEq, Eq, Structural)]
pub struct SyncOptions {
    /// The caller has already confirmed intent; nothing here prompts
    /// either way.
    pub skip_confirmation: bool,
    /// Permit removing a non-conforming install path and cloning over
    /// it.
    pub force: bool,
    /// Do not invoke lifecycle hooks even when present.
    pub skip_hooks: bool,
}

/// Where the machine stands; each non-terminal state awaits the
/// outcome of exactly one action.
#[derive(Debug)]
pub enum SyncState {
    /// Awaiting the install-path classification.
    Probing,
    /// Awaiting removal of a conflicting install path (forced).
    Removing,
    /// Awaiting the clone.
    Cloning,
    /// Awaiting the post-install hook.
    RunningInstallHook,
    /// Awaiting the working copy's current branch name.
    QueryingBranch,
    /// Awaiting the switch to the canonical branch; `original` is
    /// where the user was.
    SwitchingBranch { original: String },
    /// Awaiting the remote lookup; `restore` is owed if a switch
    /// happened.
    ResolvingRemote { restore: Option<String> },
    /// Awaiting the fetch from `remote`.
    Fetching { remote: String, restore: Option<String> },
    /// Awaiting the rebase.
    Rebasing { restore: Option<String> },
    /// Awaiting the pull from `remote`.
    Pulling { remote: String, restore: Option<String> },
    /// Awaiting the post-update hook.
    RunningUpdateHook { restore: Option<String> },
    /// Awaiting the best-effort switch back to the user's branch; the
    /// report is already settled and is emitted whatever the switch
    /// returns.
    Restoring { branch: String, report: SyncReport },
    /// Terminal: the report for this package.
    Finished { report: SyncReport },
}

/// One package's synchronization drive: the package's remote URL and
/// expanded install path, the caller's options, the configured update
/// strategy, and the current state.
#[derive(Debug)]
pub struct SyncMachine {
    pub url: String,
    pub install_path: String,
    pub update_type: GitUpdateType,
    pub opts: SyncOptions,
    pub state: SyncState,
}

/// The canonical integration branch update operations target.
pub open spec fn canonical() -> Seq<char> {
    "master"@
}

/// The canonical integration branch, as an owned string.
pub fn canonical_branch() -> (r: String)
    ensures
        r@ == canonical(),
{
    String::from_str("master")
}

/// The report of a failed update: the error, with no hook outcome.
pub open spec fn failed_report(e: Error) -> SyncReport {
    SyncReport { outcome: SyncOutcome::Failed(e), hook_error: None }
}

/// Where an update path ends: through the restore state if a branch
/// switch is owed, straight to the terminal state otherwise.
pub open spec fn settle_spec(restore: Option<String>, report: SyncReport) -> SyncState {
    match restore {
        Some(b) => SyncState::Restoring { branch: b, report },
        None => SyncState::Finished { report },
    }
}

/// The machine's transition function: the state after feeding `e` to
/// `m`. An event that does not answer the pending action leaves the
/// machine where it stands.
pub open spec fn step_spec(m: SyncMachine, e: SyncEvent) -> SyncMachine {
    SyncMachine { state: step_state_spec(m, e), ..m }
}

/// The state part of [`step_spec`].
pub open spec fn step_state_spec(m: SyncMachine, e: SyncEvent) -> SyncState {
    match (m.state, e) {
        (SyncState::Probing, SyncEvent::Classified(PathClass::Absent)) => SyncState::Cloning,
        (SyncState::Probing, SyncEvent::Classified(PathClass::Recognized)) => SyncState::QueryingBranch,
        (SyncState::Probing, SyncEvent::Classified(PathClass::Unrecognized(_))) => {
            if m.opts.force {
                SyncState::Removing
            } else {
                SyncState::Finished {
                    report: failed_report(Error::ConflictingInstallPath(m.install_path)),
                }
            }
        },
        (SyncState::Removing, SyncEvent::Removed(Ok(()))) => SyncState::Cloning,
        (SyncState::Removing, SyncEvent::Removed(Err(d))) => SyncState::Finished {
            report: failed_report(Error::SourceControlFailure(Stage::Remove, d)),
        },
        (SyncState::Cloning, SyncEvent::CloneDone(Ok(()))) => {
            if m.opts.skip_hooks {
                SyncState::Finished {
                    report: SyncReport { outcome: SyncOutcome::Cloned, hook_error: None },
                }
            } else {
                SyncState::RunningInstallHook
            }
        },
        (SyncState::Cloning, SyncEvent::CloneDone(Err(d))) => SyncState::Finished {
            report: failed_report(Error::SourceControlFailure(Stage::Clone, d)),
        },
        (SyncState::RunningInstallHook, SyncEvent::HookDone(Ok(()))) => SyncState::Finished {
            report: SyncReport { outcome: SyncOutcome::Cloned, hook_error: None },
        },
        (SyncState::RunningInstallHook, SyncEvent::HookDone(Err(d))) => SyncState::Finished {
            report: SyncReport {
                outcome: SyncOutcome::Cloned,
                hook_error: Some(Error::HookFailure(HookKind::PostInstall, d)),
            },
        },
        (SyncState::QueryingBranch, SyncEvent::BranchIs(Ok(b))) => {
            if b@ == canonical() {
                SyncState::ResolvingRemote { restore: None }
            } else {
                SyncState::SwitchingBranch { original: b }
            }
        },
        (SyncState::QueryingBranch, SyncEvent::BranchIs(Err(d))) => SyncState::Finished {
            report: failed_report(Error::SourceControlFailure(Stage::BranchQuery, d)),
        },
        (SyncState::SwitchingBranch { original }, SyncEvent::CheckoutDone(Ok(()))) => SyncState::ResolvingRemote {
            restore: Some(original),
        },
        (SyncState::SwitchingBranch { original: _ }, SyncEvent::CheckoutDone(Err(d))) => SyncState::Finished {
            report: failed_report(Error::SourceControlFailure(Stage::Checkout, d)),
        },
        (SyncState::ResolvingRemote { restore }, SyncEvent::RemoteIs(RemoteLookup::Found(remote))) => {
            match m.update_type {
                GitUpdateType::FetchRebase => SyncState::Fetching { remote, restore },
                GitUpdateType::Pull => SyncState::Pulling { remote, restore },
            }
        },
        (SyncState::ResolvingRemote { restore }, SyncEvent::RemoteIs(RemoteLookup::NoMatch)) => settle_spec(
            restore,
            failed_report(Error::RemoteNotFound(m.url)),
        ),
        (SyncState::ResolvingRemote { restore }, SyncEvent::RemoteIs(RemoteLookup::Failed(d))) => settle_spec(
            restore,
            failed_report(Error::SourceControlFailure(Stage::RemoteQuery, d)),
        ),
        (SyncState::Fetching { remote: _, restore }, SyncEvent::FetchDone(Ok(()))) => SyncState::Rebasing {
            restore,
        },
        (SyncState::Fetching { remote: _, restore }, SyncEvent::FetchDone(Err(d))) => settle_spec(
            restore,
            failed_report(Error::SourceControlFailure(Stage::Fetch, d)),
        ),
        (SyncState::Rebasing { restore }, SyncEvent::RebaseDone(Ok(()))) => {
            if m.opts.skip_hooks {
                settle_spec(
                    restore,
                    SyncReport { outcome: SyncOutcome::Updated, hook_error: None },
                )
            } else {
                SyncState::RunningUpdateHook { restore }
            }
        },
        (SyncState::Rebasing { restore }, SyncEvent::RebaseDone(Err(d))) => settle_spec(
            restore,
            failed_report(Error::SourceControlFailure(Stage::Rebase, d)),
        ),
        (SyncState::Pulling { remote: _, restore }, SyncEvent::PullDone(Ok(()))) => {
            if m.opts.skip_hooks {
                settle_spec(
                    restore,
                    SyncReport { outcome: SyncOutcome::Updated, hook_error: None },
                )
            } else {
                SyncState::RunningUpdateHook { restore }
            }
        },
        (SyncState::Pulling { remote: _, restore }, SyncEvent::PullDone(Err(d))) => settle_spec(
            restore,
            failed_report(Error::SourceControlFailure(Stage::Pull, d)),
        ),
        (SyncState::RunningUpdateHook { restore }, SyncEvent::HookDone(Ok(()))) => settle_spec(
            restore,
            SyncReport { outcome: SyncOutcome::Updated, hook_error: None },
        ),
        (SyncState::RunningUpdateHook { restore }, SyncEvent::HookDone(Err(d))) => settle_spec(
            restore,
            SyncReport {
                outcome: SyncOutcome::Updated,
                hook_error: Some(Error::HookFailure(HookKind::PostUpdate, d)),
            },
        ),
        (SyncState::Restoring { branch: _, report }, SyncEvent::CheckoutDone(_)) => SyncState::Finished {
            report,
        },
        (s, _) => s,
    }
}

/// Whether `r` is exactly the action pending in `m`'s state: one
/// action per non-terminal state, none once finished.
pub open spec fn action_matches(m: SyncMachine, r: Option<SyncAction>) -> bool {
    match (m.state, r) {
        (SyncState::Probing, Some(SyncAction::Classify)) => true,
        (SyncState::Removing, Some(SyncAction::RemoveDir)) => true,
        (SyncState::Cloning, Some(SyncAction::CloneRepo)) => true,
        (SyncState::RunningInstallHook, Some(SyncAction::RunHook(h))) => h == HookKind::PostInstall,
        (SyncState::QueryingBranch, Some(SyncAction::QueryBranch)) => true,
        (SyncState::SwitchingBranch { original: _ }, Some(SyncAction::Checkout(b))) => b@
            == canonical(),
        (SyncState::ResolvingRemote { restore: _ }, Some(SyncAction::ResolveRemote)) => true,
        (SyncState::Fetching { remote, restore: _ }, Some(SyncAction::Fetch(rm))) => rm == remote,
        (SyncState::Rebasing { restore: _ }, Some(SyncAction::Rebase)) => true,
        (SyncState::Pulling { remote, restore: _ }, Some(SyncAction::Pull(rm))) => rm == remote,
        (SyncState::RunningUpdateHook { restore: _ }, Some(SyncAction::RunHook(h))) => h
            == HookKind::PostUpdate,
        (SyncState::Restoring { branch, report: _ }, Some(SyncAction::Checkout(b))) => b == branch,
        (SyncState::Finished { report: _ }, None) => true,
        (_, _) => false,
    }
}

impl SyncMachine {
    /// A fresh drive for one package, about to probe its install path.
    pub fn new(
        url: String,
        install_path: String,
        update_type: GitUpdateType,
        opts: SyncOptions,
    ) -> (r: SyncMachine)
        ensures
            r.url == url,
            r.install_path == install_path,
            r.update_type == update_type,
            r.opts == opts,
            r.state == SyncState::Probing,
    {
        SyncMachine { url, install_path, update_type, opts, state: SyncState::Probing }
    }

    /// The action the shell must perform next, or nothing once the
    /// machine is finished.
    pub fn pending_action(&self) -> (r: Option<SyncAction>)
        ensures
            action_matches(*self, r),
    {
        match &self.state {
            SyncState::Probing => Some(SyncAction::Classify),
            SyncState::Removing => Some(SyncAction::RemoveDir),
            SyncState::Cloning => Some(SyncAction::CloneRepo),
            SyncState::RunningInstallHook => Some(SyncAction::RunHook(HookKind::PostInstall)),
            SyncState::QueryingBranch => Some(SyncAction::QueryBranch),
            SyncState::SwitchingBranch { original: _ } => Some(
                SyncAction::Checkout(canonical_branch()),
            ),
            SyncState::ResolvingRemote { restore: _ } => Some(SyncAction::ResolveRemote),
            SyncState::Fetching { remote, restore: _ } => Some(SyncAction::Fetch(remote.clone())),
            SyncState::Rebasing { restore: _ } => Some(SyncAction::Rebase),
            SyncState::Pulling { remote, restore: _ } => Some(SyncAction::Pull(remote.clone())),
            SyncState::RunningUpdateHook { restore: _ } => Some(
                SyncAction::RunHook(HookKind::PostUpdate),
            ),
            SyncState::Restoring { branch, report: _ } => Some(
                SyncAction::Checkout(branch.clone()),
            ),
            SyncState::Finished { report: _ } => None,
        }
    }

    /// Feeds one event to the machine and returns it in its next
    /// state.
    pub fn step(self, e: SyncEvent) -> (r: SyncMachine)
        ensures
            r == step_spec(self, e),
    {
        let ghost pre = self;
        let SyncMachine { url, install_path, update_type, opts, state } = self;
        let new_state: SyncState = match (state, e) {
            (SyncState::Probing, SyncEvent::Classified(PathClass::Absent)) => SyncState::Cloning,
            (
                SyncState::Probing,
                SyncEvent::Classified(PathClass::Recognized),
            ) => SyncState::QueryingBranch,
            (SyncState::Probing, SyncEvent::Classified(PathClass::Unrecognized(_))) => {
                if opts.force {
                    SyncState::Removing
                } else {
                    SyncState::Finished {
                        report: SyncReport {
                            outcome: SyncOutcome::Failed(
                                Error::ConflictingInstallPath(install_path.clone()),
                            ),
                            hook_error: None,
                        },
                    }
                }
            },
            (SyncState::Removing, SyncEvent::Removed(Ok(()))) => SyncState::Cloning,
            (SyncState::Removing, SyncEvent::Removed(Err(d))) => SyncState::Finished {
                report: SyncReport {
                    outcome: SyncOutcome::Failed(Error::SourceControlFailure(Stage::Remove, d)),
                    hook_error: None,
                },
            },
            (SyncState::Cloning, SyncEvent::CloneDone(Ok(()))) => {
                if opts.skip_hooks {
                    SyncState::Finished {
                        report: SyncReport { outcome: SyncOutcome::Cloned, hook_error: None },
                    }
                } else {
                    SyncState::RunningInstallHook
                }
            },
            (SyncState::Cloning, SyncEvent::CloneDone(Err(d))) => SyncState::Finished {
                report: SyncReport {
                    outcome: SyncOutcome::Failed(Error::SourceControlFailure(Stage::Clone, d)),
                    hook_error: None,
                },
            },
            (SyncState::RunningInstallHook, SyncEvent::HookDone(Ok(()))) => SyncState::Finished {
                report: SyncReport { outcome: SyncOutcome::Cloned, hook_error: None },
            },
            (SyncState::RunningInstallHook, SyncEvent::HookDone(Err(d))) => SyncState::Finished {
                report: SyncReport {
                    outcome: SyncOutcome::Cloned,
                    hook_error: Some(Error::HookFailure(HookKind::PostInstall, d)),
                },
            },
            (SyncState::QueryingBranch, SyncEvent::BranchIs(Ok(b))) => {
                if str_eq(b.as_str(), "master") {
                    SyncState::ResolvingRemote { restore: None }
                } else {
                    SyncState::SwitchingBranch { original: b }
                }
            },
            (SyncState::QueryingBranch, SyncEvent::BranchIs(Err(d))) => SyncState::Finished {
                report: SyncReport {
                    outcome: SyncOutcome::Failed(
                        Error::SourceControlFailure(Stage::BranchQuery, d),
                    ),
                    hook_error: None,
                },
            },
            (
                SyncState::SwitchingBranch { original },
                SyncEvent::CheckoutDone(Ok(())),
            ) => SyncState::ResolvingRemote { restore: Some(original) },
            (
                SyncState::SwitchingBranch { original: _ },
                SyncEvent::CheckoutDone(Err(d)),
            ) => SyncState::Finished {
                report: SyncReport {
                    outcome: SyncOutcome::Failed(Error::SourceControlFailure(Stage::Checkout, d)),
                    hook_error: None,
                },
            },
            (
                SyncState::ResolvingRemote { restore },
                SyncEvent::RemoteIs(RemoteLookup::Found(remote)),
            ) => {
                match update_type {
                    GitUpdateType::FetchRebase => SyncState::Fetching { remote, restore },
                    GitUpdateType::Pull => SyncState::Pulling { remote, restore },
                }
            },
            (SyncState::ResolvingRemote { restore }, SyncEvent::RemoteIs(RemoteLookup::NoMatch)) => Self::settle(
                restore,
                SyncReport {
                    outcome: SyncOutcome::Failed(Error::RemoteNotFound(url.clone())),
                    hook_error: None,
                },
            ),
            (
                SyncState::ResolvingRemote { restore },
                SyncEvent::RemoteIs(RemoteLookup::Failed(d)),
            ) => Self::settle(
                restore,
                SyncReport {
                    outcome: SyncOutcome::Failed(
                        Error::SourceControlFailure(Stage::RemoteQuery, d),
                    ),
                    hook_error: None,
                },
            ),
            (
                SyncState::Fetching { remote: _, restore },
                SyncEvent::FetchDone(Ok(())),
            ) => SyncState::Rebasing { restore },
            (SyncState::Fetching { remote: _, restore }, SyncEvent::FetchDone(Err(d))) => Self::settle(
                restore,
                SyncReport {
                    outcome: SyncOutcome::Failed(Error::SourceControlFailure(Stage::Fetch, d)),
                    hook_error: None,
                },
            ),
            (SyncState::Rebasing { restore }, SyncEvent::RebaseDone(Ok(()))) => {
                if opts.skip_hooks {
                    Self::settle(
                        restore,
                        SyncReport { outcome: SyncOutcome::Updated, hook_error: None },
                    )
                } else {
                    SyncState::RunningUpdateHook { restore }
                }
            },
            (SyncState::Rebasing { restore }, SyncEvent::RebaseDone(Err(d))) => Self::settle(
                restore,
                SyncReport {
                    outcome: SyncOutcome::Failed(Error::SourceControlFailure(Stage::Rebase, d)),
                    hook_error: None,
                },
            ),
            (SyncState::Pulling { remote: _, restore }, SyncEvent::PullDone(Ok(()))) => {
                if opts.skip_hooks {
                    Self::settle(
                        restore,
                        SyncReport { outcome: SyncOutcome::Updated, hook_error: None },
                    )
                } else {
                    SyncState::RunningUpdateHook { restore }
                }
            },
            (SyncState::Pulling { remote: _, restore }, SyncEvent::PullDone(Err(d))) => Self::settle(
                restore,
                SyncReport {
                    outcome: SyncOutcome::Failed(Error::SourceControlFailure(Stage::Pull, d)),
                    hook_error: None,
                },
            ),
            (SyncState::RunningUpdateHook { restore }, SyncEvent::HookDone(Ok(()))) => Self::settle(
                restore,
                SyncReport { outcome: SyncOutcome::Updated, hook_error: None },
            ),
            (SyncState::RunningUpdateHook { restore }, SyncEvent::HookDone(Err(d))) => Self::settle(
                restore,
                SyncReport {
                    outcome: SyncOutcome::Updated,
                    hook_error: Some(Error::HookFailure(HookKind::PostUpdate, d)),
                },
            ),
            (
                SyncState::Restoring { branch: _, report },
                SyncEvent::CheckoutDone(_),
            ) => SyncState::Finished { report },
            (s, _) => s,
        };
        let r = SyncMachine { url, install_path, update_type, opts, state: new_state };
        proof {
            assert(r == step_spec(pre, e));
        }
        r
    }

    /// Ends an update path: through the restore state when a switch is
    /// owed, straight to the terminal state otherwise.
    fn settle(restore: Option<String>, report: SyncReport) -> (r: SyncState)
        ensures
            r == settle_spec(restore, report),
    {
        match restore {
            Some(b) => SyncState::Restoring { branch: b, report },
            None => SyncState::Finished { report },
        }
    }
}

/// The branch the machine still owes the user a switch back to, if
/// any.
pub open spec fn restore_owed(s: SyncState) -> Option<String> {
    match s {
        SyncState::ResolvingRemote { restore } => restore,
        SyncState::Fetching { remote: _, restore } => restore,
        SyncState::Rebasing { restore } => restore,
        SyncState::Pulling { remote: _, restore } => restore,
        SyncState::RunningUpdateHook { restore } => restore,
        SyncState::Restoring { branch, report: _ } => Some(branch),
        _ => None,
    }
}

/// A package whose install path is absent is cloned: the machine walks
/// the probe, clone and post-install-hook stages and reports `Cloned`,
/// with the hooks skipped when the caller asked for that, and a hook
/// failure flagged separately without undoing the clone.
pub proof fn lemma_absent_path_clones(m: SyncMachine, hook_result: Result<(), String>)
    requires
        m.state is Probing,
    ensures
        ({
            let m1 = step_spec(m, SyncEvent::Classified(PathClass::Absent));
            let m2 = step_spec(m1, SyncEvent::CloneDone(Ok(())));
            &&& m1.state is Cloning
            &&& m.opts.skip_hooks ==> (m2.state matches SyncState::Finished { report }
                && report.outcome is Cloned && report.hook_error is None)
            &&& !m.opts.skip_hooks ==> m2.state is RunningInstallHook && {
                let m3 = step_spec(m2, SyncEvent::HookDone(hook_result));
                m3.state matches SyncState::Finished { report } && report.outcome is Cloned
                    && (report.hook_error is Some <==> hook_result is Err)
            }
        }),
{
}

/// A recognized working copy sitting on a divergent branch is switched
/// to the canonical branch first, and from then on the machine owes
/// the user a switch back to exactly that branch.
pub proof fn lemma_divergent_branch_isolated(m: SyncMachine, b: String)
    requires
        m.state is QueryingBranch,
        b@ != canonical(),
    ensures
        ({
            let m1 = step_spec(m, SyncEvent::BranchIs(Ok(b)));
            let m2 = step_spec(m1, SyncEvent::CheckoutDone(Ok(())));
            &&& m1.state == (SyncState::SwitchingBranch { original: b })
            &&& forall|a: Option<SyncAction>|
                action_matches(m1, a) ==> (a matches Some(SyncAction::Checkout(c)) && c@
                    == canonical())
            &&& m2.state == (SyncState::ResolvingRemote { restore: Some(b) })
            &&& restore_owed(m2.state) == Some(b)
        }),
{
}

/// Once a switch back is owed, it stays owed, unchanged, until the
/// machine passes through the restore stage — whose pending action is
/// exactly the switch back — and the machine finishes only from
/// there. Update failures change the report, never the owed branch.
pub proof fn lemma_branch_restored_before_finish(m: SyncMachine, e: SyncEvent, b: String)
    requires
        restore_owed(m.state) == Some(b),
    ensures
        ({
            let m2 = step_spec(m, e);
            &&& m2.state is Finished ==> (m.state matches SyncState::Restoring {
                branch,
                report: _,
            } && branch == b)
            &&& !(m2.state is Finished) ==> restore_owed(m2.state) == Some(b)
            &&& m.state matches SyncState::Restoring { branch, report: _ } ==> forall|
                a: Option<SyncAction>,
            |
                action_matches(m, a) ==> (a matches Some(SyncAction::Checkout(c)) && c == b)
        }),
{
}

/// An unrecognized install path without `force` fails with the
/// conflicting path, and the machine terminates with nothing pending:
/// no removal, clone or other mutating action is ever requested.
pub proof fn lemma_conflict_leaves_path_untouched(m: SyncMachine, reason: String)
    requires
        m.state is Probing,
        !m.opts.force,
    ensures
        ({
            let m2 = step_spec(m, SyncEvent::Classified(PathClass::Unrecognized(reason)));
            &&& m2.state matches SyncState::Finished { report } && report.outcome
                matches SyncOutcome::Failed(e) && e == Error::ConflictingInstallPath(
                m.install_path,
            ) && report.hook_error is None
            &&& forall|a: Option<SyncAction>| action_matches(m2, a) ==> a is None
        }),
{
}

/// With hooks skipped the machine never enters a hook stage, so no
/// hook action is ever pending; since every state but the hook stages
/// pends a non-hook action, no hook is ever invoked.
pub proof fn lemma_skip_hooks_never_hooks(m: SyncMachine, e: SyncEvent)
    requires
        m.opts.skip_hooks,
        !(m.state is RunningInstallHook),
        !(m.state is RunningUpdateHook),
    ensures
        !(step_spec(m, e).state is RunningInstallHook),
        !(step_spec(m, e).state is RunningUpdateHook),
        forall|a: Option<SyncAction>|
            action_matches(m, a) ==> !(a matches Some(SyncAction::RunHook(_))),
{
}

/// A successful rebase or pull with hooks skipped still reports
/// `Updated`, through the restore stage when a switch back is owed.
pub proof fn lemma_skip_hooks_update_outcome(m: SyncMachine, remote: String, restore: Option<
    String,
>)
    requires
        m.opts.skip_hooks,
        m.state == (SyncState::Rebasing { restore }) || m.state == (SyncState::Pulling {
            remote,
            restore,
        }),
    ensures
        ({
            let e = if m.state is Rebasing {
                SyncEvent::RebaseDone(Ok(()))
            } else {
                SyncEvent::PullDone(Ok(()))
            };
            let m2 = step_spec(m, e);
            match restore {
                Some(br) => m2.state matches SyncState::Restoring { branch, report } && branch
                    == br && report.outcome is Updated && report.hook_error is None,
                None => m2.state matches SyncState::Finished { report } && report.outcome
                    is Updated && report.hook_error is None,
            }
        }),
{
}

/// The machine after feeding it the events of `es`, one by one.
pub open spec fn run_spec(m: SyncMachine, es: Seq<SyncEvent>) -> SyncMachine
    decreases es.len(),
{
    if es.len() == 0 {
        m
    } else {
        run_spec(step_spec(m, es[0]), es.skip(1))
    }
}

/// Two machines driven under an interleaving schedule: at each tick
/// the scheduled machine consumes its next event, and whatever events
/// remain afterwards are fed in order.
pub open spec fn run_pair(
    m1: SyncMachine,
    es1: Seq<SyncEvent>,
    m2: SyncMachine,
    es2: Seq<SyncEvent>,
    sched: Seq<bool>,
) -> (SyncMachine, SyncMachine)
    decreases sched.len(),
{
    if sched.len() == 0 {
        (run_spec(m1, es1), run_spec(m2, es2))
    } else if sched[0] {
        if es1.len() > 0 {
            run_pair(step_spec(m1, es1[0]), es1.skip(1), m2, es2, sched.skip(1))
        } else {
            run_pair(m1, es1, m2, es2, sched.skip(1))
        }
    } else {
        if es2.len() > 0 {
            run_pair(m1, es1, step_spec(m2, es2[0]), es2.skip(1), sched.skip(1))
        } else {
            run_pair(m1, es1, m2, es2, sched.skip(1))
        }
    }
}

/// Driving two independent packages concurrently changes nothing:
/// under every interleaving schedule each machine ends exactly where
/// sequential driving leaves it.
pub proof fn lemma_interleaving_irrelevant(
    m1: SyncMachine,
    es1: Seq<SyncEvent>,
    m2: SyncMachine,
    es2: Seq<SyncEvent>,
    sched: Seq<bool>,
)
    ensures
        run_pair(m1, es1, m2, es2, sched) == (run_spec(m1, es1), run_spec(m2, es2)),
    decreases sched.len(),
{
    if sched.len() > 0 {
        if sched[0] {
            if es1.len() > 0 {
                lemma_interleaving_irrelevant(
                    step_spec(m1, es1[0]),
                    es1.skip(1),
                    m2,
                    es2,
                    sched.skip(1),
                );
            } else {
                lemma_interleaving_irrelevant(m1, es1, m2, es2, sched.skip(1));
            }
        } else {
            if es2.len() > 0 {
                lemma_interleaving_irrelevant(
                    m1,
                    es1,
                    step_spec(m2, es2[0]),
                    es2.skip(1),
                    sched.skip(1),
                );
            } else {
                lemma_interleaving_irrelevant(m1, es1, m2, es2, sched.skip(1));
            }
        }
    }
}

/// Whether a report counts as success for the process exit status:
/// the package was cloned or updated. A hook failure alone is a
/// warning, deliberately and consistently, and does not fail the run.
pub open spec fn report_ok(r: SyncReport) -> bool {
    r.outcome is Cloned || r.outcome is Updated
}

/// Whether a whole run succeeded: every package's report counts as
/// success.
pub fn overall_success(reports: &Vec<SyncReport>) -> (r: bool)
    ensures
        r == forall|i: int| 0 <= i < reports@.len() ==> report_ok(reports@[i]),
{
    let n = reports.len();
    let mut i: usize = 0;
    while i < n
        invariant
            i <= n,
            n == reports@.len(),
            forall|j: int| 0 <= j < i ==> report_ok(reports@[j]),
        decreases n - i,
    {
        let ok = match &reports[i].outcome {
            SyncOutcome::Cloned => true,
            SyncOutcome::Updated => true,
            SyncOutcome::Skipped(_) => false,
            SyncOutcome::Failed(_) => false,
        };
        if !ok {
            return false;
        }
        i = i + 1;
    }
    true
}

} // verus!
