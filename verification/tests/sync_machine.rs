use dotman::config::GitUpdateType;
use dotman::errors::Error;
use dotman::errors::HookKind;
use dotman::errors::Stage;
use dotman::sync::overall_success;
use dotman::sync::PathClass;
use dotman::sync::RemoteLookup;
use dotman::sync::SyncAction;
use dotman::sync::SyncEvent;
use dotman::sync::SyncMachine;
use dotman::sync::SyncOptions;
use dotman::sync::SyncOutcome;
use dotman::sync::SyncReport;
use dotman::sync::SyncState;

fn machine(update_type: GitUpdateType, force: bool, skip_hooks: bool) -> SyncMachine {
    SyncMachine::new(
        String::from("git@github.com:o/r.git"),
        String::from("/home/u/.config/r"),
        update_type,
        SyncOptions { skip_confirmation: true, force, skip_hooks },
    )
}

fn report_of(m: &SyncMachine) -> &SyncReport {
    match &m.state {
        SyncState::Finished { report } => report,
        s => panic!("machine not finished: {:?}", s),
    }
}

#[test]
fn absent_path_probes_clones_hooks_and_reports_cloned() {
    let m = machine(GitUpdateType::FetchRebase, false, false);
    assert!(matches!(m.pending_action(), Some(SyncAction::Classify)));
    let m = m.step(SyncEvent::Classified(PathClass::Absent));
    assert!(matches!(m.pending_action(), Some(SyncAction::CloneRepo)));
    let m = m.step(SyncEvent::CloneDone(Ok(())));
    assert!(matches!(m.pending_action(), Some(SyncAction::RunHook(HookKind::PostInstall))));
    let m = m.step(SyncEvent::HookDone(Ok(())));
    assert!(m.pending_action().is_none());
    let rep = report_of(&m);
    assert!(matches!(rep.outcome, SyncOutcome::Cloned));
    assert!(rep.hook_error.is_none());
}

#[test]
fn divergent_branch_is_restored_after_successful_update() {
    let m = machine(GitUpdateType::FetchRebase, false, false);
    let m = m.step(SyncEvent::Classified(PathClass::Recognized));
    assert!(matches!(m.pending_action(), Some(SyncAction::QueryBranch)));
    let m = m.step(SyncEvent::BranchIs(Ok(String::from("feature"))));
    match m.pending_action() {
        Some(SyncAction::Checkout(b)) => assert_eq!(b, "master"),
        a => panic!("expected checkout of master, got {:?}", a),
    }
    let m = m.step(SyncEvent::CheckoutDone(Ok(())));
    assert!(matches!(m.pending_action(), Some(SyncAction::ResolveRemote)));
    let m = m.step(SyncEvent::RemoteIs(RemoteLookup::Found(String::from("origin"))));
    match m.pending_action() {
        Some(SyncAction::Fetch(r)) => assert_eq!(r, "origin"),
        a => panic!("expected fetch from origin, got {:?}", a),
    }
    let m = m.step(SyncEvent::FetchDone(Ok(())));
    assert!(matches!(m.pending_action(), Some(SyncAction::Rebase)));
    let m = m.step(SyncEvent::RebaseDone(Ok(())));
    assert!(matches!(m.pending_action(), Some(SyncAction::RunHook(HookKind::PostUpdate))));
    let m = m.step(SyncEvent::HookDone(Ok(())));
    match m.pending_action() {
        Some(SyncAction::Checkout(b)) => assert_eq!(b, "feature"),
        a => panic!("expected restore of feature, got {:?}", a),
    }
    let m = m.step(SyncEvent::CheckoutDone(Ok(())));
    let rep = report_of(&m);
    assert!(matches!(rep.outcome, SyncOutcome::Updated));
    assert!(rep.hook_error.is_none());
}

#[test]
fn divergent_branch_is_restored_even_when_update_fails() {
    let m = machine(GitUpdateType::FetchRebase, false, false);
    let m = m.step(SyncEvent::Classified(PathClass::Recognized));
    let m = m.step(SyncEvent::BranchIs(Ok(String::from("feature"))));
    let m = m.step(SyncEvent::CheckoutDone(Ok(())));
    let m = m.step(SyncEvent::RemoteIs(RemoteLookup::Found(String::from("origin"))));
    let m = m.step(SyncEvent::FetchDone(Ok(())));
    let m = m.step(SyncEvent::RebaseDone(Err(String::from("conflict"))));
    // The restore is still owed and is the next pending action.
    match m.pending_action() {
        Some(SyncAction::Checkout(b)) => assert_eq!(b, "feature"),
        a => panic!("expected restore of feature, got {:?}", a),
    }
    // Even a failed restore surfaces the update error.
    let m = m.step(SyncEvent::CheckoutDone(Err(String::from("also bad"))));
    let rep = report_of(&m);
    match &rep.outcome {
        SyncOutcome::Failed(Error::SourceControlFailure(Stage::Rebase, d)) => {
            assert_eq!(d, "conflict")
        },
        o => panic!("expected rebase failure, got {:?}", o),
    }
}

#[test]
fn canonical_branch_needs_no_switch_or_restore() {
    let m = machine(GitUpdateType::Pull, false, false);
    let m = m.step(SyncEvent::Classified(PathClass::Recognized));
    let m = m.step(SyncEvent::BranchIs(Ok(String::from("master"))));
    assert!(matches!(m.pending_action(), Some(SyncAction::ResolveRemote)));
    let m = m.step(SyncEvent::RemoteIs(RemoteLookup::Found(String::from("origin"))));
    match m.pending_action() {
        Some(SyncAction::Pull(r)) => assert_eq!(r, "origin"),
        a => panic!("expected pull from origin, got {:?}", a),
    }
    let m = m.step(SyncEvent::PullDone(Ok(())));
    let m = m.step(SyncEvent::HookDone(Ok(())));
    let rep = report_of(&m);
    assert!(matches!(rep.outcome, SyncOutcome::Updated));
}

#[test]
fn unrecognized_path_without_force_fails_untouched() {
    let m = machine(GitUpdateType::FetchRebase, false, false);
    let m = m.step(SyncEvent::Classified(PathClass::Unrecognized(String::from("stray dir"))));
    assert!(m.pending_action().is_none());
    let rep = report_of(&m);
    match &rep.outcome {
        SyncOutcome::Failed(Error::ConflictingInstallPath(p)) => {
            assert_eq!(p, "/home/u/.config/r")
        },
        o => panic!("expected conflicting install path, got {:?}", o),
    }
}

#[test]
fn unrecognized_path_with_force_removes_then_clones() {
    let m = machine(GitUpdateType::FetchRebase, true, false);
    let m = m.step(SyncEvent::Classified(PathClass::Unrecognized(String::from("stray dir"))));
    assert!(matches!(m.pending_action(), Some(SyncAction::RemoveDir)));
    let m = m.step(SyncEvent::Removed(Ok(())));
    assert!(matches!(m.pending_action(), Some(SyncAction::CloneRepo)));
    let m = m.step(SyncEvent::CloneDone(Ok(())));
    let m = m.step(SyncEvent::HookDone(Ok(())));
    assert!(matches!(report_of(&m).outcome, SyncOutcome::Cloned));
}

#[test]
fn skip_hooks_clones_without_hook_action() {
    let m = machine(GitUpdateType::FetchRebase, false, true);
    let m = m.step(SyncEvent::Classified(PathClass::Absent));
    let m = m.step(SyncEvent::CloneDone(Ok(())));
    // No hook action was ever pending: the machine is already done.
    assert!(m.pending_action().is_none());
    let rep = report_of(&m);
    assert!(matches!(rep.outcome, SyncOutcome::Cloned));
    assert!(rep.hook_error.is_none());
}

#[test]
fn skip_hooks_updates_without_hook_action() {
    let m = machine(GitUpdateType::Pull, false, true);
    let m = m.step(SyncEvent::Classified(PathClass::Recognized));
    let m = m.step(SyncEvent::BranchIs(Ok(String::from("master"))));
    let m = m.step(SyncEvent::RemoteIs(RemoteLookup::Found(String::from("origin"))));
    let m = m.step(SyncEvent::PullDone(Ok(())));
    assert!(m.pending_action().is_none());
    assert!(matches!(report_of(&m).outcome, SyncOutcome::Updated));
}

#[test]
fn hook_failure_is_flagged_but_keeps_the_clone() {
    let m = machine(GitUpdateType::FetchRebase, false, false);
    let m = m.step(SyncEvent::Classified(PathClass::Absent));
    let m = m.step(SyncEvent::CloneDone(Ok(())));
    let m = m.step(SyncEvent::HookDone(Err(String::from("hook blew up"))));
    let rep = report_of(&m);
    assert!(matches!(rep.outcome, SyncOutcome::Cloned));
    match &rep.hook_error {
        Some(Error::HookFailure(HookKind::PostInstall, d)) => assert_eq!(d, "hook blew up"),
        e => panic!("expected flagged hook failure, got {:?}", e),
    }
}

#[test]
fn remote_not_found_fails_after_restore() {
    let m = machine(GitUpdateType::FetchRebase, false, false);
    let m = m.step(SyncEvent::Classified(PathClass::Recognized));
    let m = m.step(SyncEvent::BranchIs(Ok(String::from("dev"))));
    let m = m.step(SyncEvent::CheckoutDone(Ok(())));
    let m = m.step(SyncEvent::RemoteIs(RemoteLookup::NoMatch));
    match m.pending_action() {
        Some(SyncAction::Checkout(b)) => assert_eq!(b, "dev"),
        a => panic!("expected restore of dev, got {:?}", a),
    }
    let m = m.step(SyncEvent::CheckoutDone(Ok(())));
    match &report_of(&m).outcome {
        SyncOutcome::Failed(Error::RemoteNotFound(u)) => {
            assert_eq!(u, "git@github.com:o/r.git")
        },
        o => panic!("expected remote-not-found, got {:?}", o),
    }
}

#[test]
fn each_source_control_stage_reports_its_failure() {
    let m = machine(GitUpdateType::FetchRebase, true, false);
    let m2 = m.step(SyncEvent::Classified(PathClass::Unrecognized(String::from("x"))));
    let m2 = m2.step(SyncEvent::Removed(Err(String::from("perm"))));
    assert!(matches!(
        &report_of(&m2).outcome,
        SyncOutcome::Failed(Error::SourceControlFailure(Stage::Remove, _))
    ));

    let m3 = machine(GitUpdateType::FetchRebase, false, false);
    let m3 = m3.step(SyncEvent::Classified(PathClass::Absent));
    let m3 = m3.step(SyncEvent::CloneDone(Err(String::from("net"))));
    assert!(matches!(
        &report_of(&m3).outcome,
        SyncOutcome::Failed(Error::SourceControlFailure(Stage::Clone, _))
    ));

    let m4 = machine(GitUpdateType::FetchRebase, false, false);
    let m4 = m4.step(SyncEvent::Classified(PathClass::Recognized));
    let m4 = m4.step(SyncEvent::BranchIs(Err(String::from("bad repo"))));
    assert!(matches!(
        &report_of(&m4).outcome,
        SyncOutcome::Failed(Error::SourceControlFailure(Stage::BranchQuery, _))
    ));

    let m5 = machine(GitUpdateType::FetchRebase, false, false);
    let m5 = m5.step(SyncEvent::Classified(PathClass::Recognized));
    let m5 = m5.step(SyncEvent::BranchIs(Ok(String::from("dev"))));
    let m5 = m5.step(SyncEvent::CheckoutDone(Err(String::from("dirty tree"))));
    assert!(matches!(
        &report_of(&m5).outcome,
        SyncOutcome::Failed(Error::SourceControlFailure(Stage::Checkout, _))
    ));

    let m6 = machine(GitUpdateType::FetchRebase, false, false);
    let m6 = m6.step(SyncEvent::Classified(PathClass::Recognized));
    let m6 = m6.step(SyncEvent::BranchIs(Ok(String::from("master"))));
    let m6 = m6.step(SyncEvent::RemoteIs(RemoteLookup::Failed(String::from("io"))));
    assert!(matches!(
        &report_of(&m6).outcome,
        SyncOutcome::Failed(Error::SourceControlFailure(Stage::RemoteQuery, _))
    ));

    let m7 = machine(GitUpdateType::FetchRebase, false, false);
    let m7 = m7.step(SyncEvent::Classified(PathClass::Recognized));
    let m7 = m7.step(SyncEvent::BranchIs(Ok(String::from("master"))));
    let m7 = m7.step(SyncEvent::RemoteIs(RemoteLookup::Found(String::from("origin"))));
    let m7 = m7.step(SyncEvent::FetchDone(Err(String::from("net"))));
    assert!(matches!(
        &report_of(&m7).outcome,
        SyncOutcome::Failed(Error::SourceControlFailure(Stage::Fetch, _))
    ));

    let m8 = machine(GitUpdateType::Pull, false, false);
    let m8 = m8.step(SyncEvent::Classified(PathClass::Recognized));
    let m8 = m8.step(SyncEvent::BranchIs(Ok(String::from("master"))));
    let m8 = m8.step(SyncEvent::RemoteIs(RemoteLookup::Found(String::from("origin"))));
    let m8 = m8.step(SyncEvent::PullDone(Err(String::from("net"))));
    assert!(matches!(
        &report_of(&m8).outcome,
        SyncOutcome::Failed(Error::SourceControlFailure(Stage::Pull, _))
    ));
}

#[test]
fn interleaved_machines_match_sequential_outcomes() {
    let events_a = [
        SyncEvent::Classified(PathClass::Absent),
        SyncEvent::CloneDone(Ok(())),
        SyncEvent::HookDone(Ok(())),
    ];
    let events_b = [
        SyncEvent::Classified(PathClass::Recognized),
        SyncEvent::BranchIs(Ok(String::from("master"))),
        SyncEvent::RemoteIs(RemoteLookup::Found(String::from("origin"))),
        SyncEvent::FetchDone(Ok(())),
        SyncEvent::RebaseDone(Ok(())),
        SyncEvent::HookDone(Ok(())),
    ];
    let rebuild_a = || {
        [
            SyncEvent::Classified(PathClass::Absent),
            SyncEvent::CloneDone(Ok(())),
            SyncEvent::HookDone(Ok(())),
        ]
    };
    let rebuild_b = || {
        [
            SyncEvent::Classified(PathClass::Recognized),
            SyncEvent::BranchIs(Ok(String::from("master"))),
            SyncEvent::RemoteIs(RemoteLookup::Found(String::from("origin"))),
            SyncEvent::FetchDone(Ok(())),
            SyncEvent::RebaseDone(Ok(())),
            SyncEvent::HookDone(Ok(())),
        ]
    };

    // Sequential: drive a to completion, then b.
    let mut a = machine(GitUpdateType::FetchRebase, false, false);
    for e in events_a {
        a = a.step(e);
    }
    let mut b = machine(GitUpdateType::FetchRebase, false, false);
    for e in events_b {
        b = b.step(e);
    }

    // Interleaved: alternate single steps between the two machines.
    let mut a2 = machine(GitUpdateType::FetchRebase, false, false);
    let mut b2 = machine(GitUpdateType::FetchRebase, false, false);
    let mut ia = rebuild_a().into_iter();
    let mut ib = rebuild_b().into_iter();
    loop {
        let mut moved = false;
        if let Some(e) = ia.next() {
            a2 = a2.step(e);
            moved = true;
        }
        if let Some(e) = ib.next() {
            b2 = b2.step(e);
            moved = true;
        }
        if !moved {
            break;
        }
    }

    assert!(matches!(report_of(&a).outcome, SyncOutcome::Cloned));
    assert!(matches!(report_of(&a2).outcome, SyncOutcome::Cloned));
    assert!(matches!(report_of(&b).outcome, SyncOutcome::Updated));
    assert!(matches!(report_of(&b2).outcome, SyncOutcome::Updated));
}

#[test]
fn overall_success_requires_every_package_synchronized() {
    let ok = vec![
        SyncReport { outcome: SyncOutcome::Cloned, hook_error: None },
        SyncReport { outcome: SyncOutcome::Updated, hook_error: None },
    ];
    assert!(overall_success(&ok));

    let with_failure = vec![
        SyncReport { outcome: SyncOutcome::Cloned, hook_error: None },
        SyncReport {
            outcome: SyncOutcome::Failed(Error::RemoteNotFound(String::from("u"))),
            hook_error: None,
        },
    ];
    assert!(!overall_success(&with_failure));

    let with_skip = vec![SyncReport {
        outcome: SyncOutcome::Skipped(String::from("declined")),
        hook_error: None,
    }];
    assert!(!overall_success(&with_skip));

    // A hook-only failure is a warning, not an overall failure.
    let hook_only = vec![SyncReport {
        outcome: SyncOutcome::Updated,
        hook_error: Some(Error::HookFailure(HookKind::PostUpdate, String::from("x"))),
    }];
    assert!(overall_success(&hook_only));

    let empty: Vec<SyncReport> = vec![];
    assert!(overall_success(&empty));
}

#[test]
fn mismatched_events_leave_the_machine_in_place() {
    let m = machine(GitUpdateType::FetchRebase, false, false);
    // A probing machine ignores answers it never asked for.
    let m = m.step(SyncEvent::RebaseDone(Ok(())));
    assert!(matches!(m.state, SyncState::Probing));
    assert!(matches!(m.pending_action(), Some(SyncAction::Classify)));
    let m = m.step(SyncEvent::HookDone(Err(String::from("noise"))));
    assert!(matches!(m.state, SyncState::Probing));
    // Once finished, every further event is ignored too.
    let m = m.step(SyncEvent::Classified(PathClass::Absent));
    let m = m.step(SyncEvent::CloneDone(Err(String::from("netsplit"))));
    let m = m.step(SyncEvent::Classified(PathClass::Absent));
    assert!(matches!(
        &report_of(&m).outcome,
        SyncOutcome::Failed(Error::SourceControlFailure(Stage::Clone, _))
    ));
}
