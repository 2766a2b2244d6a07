//! Tests of the rewrite engine model: the session state machine, step
//! classification, and branch retargeting.

use git_instafix::branch_index::{BranchEntry, BranchIndex};
use git_instafix::errors::FixupError;
use git_instafix::patcher::sentinel_message;
use git_instafix::rebaser::{
    classify_step, recovery_guidance, require_first_step, RebasePhase, RebaseSession, RebaseStep,
    StepDecision, StepKind,
};

fn hex(n: u64) -> String {
    format!("{:040x}", n)
}

fn entry(name: &str, target: u64) -> BranchEntry {
    BranchEntry { name: Some(name.to_string()), target: Some(target) }
}

// Model identities for a repository with linear history `a -> b` on `main`
// and a branch `changes` diverging after `a` with `c -> d -> e`.
const A: u64 = 1;
const B: u64 = 2;
const C: u64 = 3;
const D: u64 = 4;
const E: u64 = 5;
const AMEND: u64 = 6;
const D_NEW: u64 = 14;
const E_NEW: u64 = 15;

fn pick(id: u64, message: &str) -> RebaseStep {
    RebaseStep { kind: Some(StepKind::Pick), id, message: Some(message.to_string()) }
}

/// The full happy path over the diverged history: the amendment lands in
/// `d` through the first step, `e` is replayed, the leftover sentinel
/// commit is skipped, and `main` is never moved.
#[test]
fn amend_mid_commit_of_diverged_branch() {
    let sentinel = sentinel_message(false, &hex(D));

    // The branch index is built after the amendment commit exists, so
    // `changes` is indexed under the amendment, not under `e`.
    let entries = vec![entry("main", B), entry("changes", AMEND)];
    let mut index = BranchIndex::build(&entries).ok().unwrap();

    let mut session = RebaseSession::begin(E);
    session.record_amendment(AMEND);
    session.begin_rewrite();

    // Steps of the rewrite: d (receives the amendment), e, the sentinel.
    let total = 3;

    // First step: the amendment is folded into d.
    let first = pick(D, "d");
    assert!(require_first_step(Some(&first)).is_ok());
    session.apply_amendment();
    let moves = index.retarget_branches(D, &hex(D), D_NEW, &hex(D_NEW), Some(0), total);
    assert!(moves.is_empty());

    // Second step: e is replayed verbatim.
    let second = pick(E, "e");
    match classify_step(&second, &Some(sentinel.clone())) {
        Ok(StepDecision::Replay) => {}
        _ => panic!("expected a replay decision"),
    }
    let moves = index.retarget_branches(E, &hex(E), E_NEW, &hex(E_NEW), Some(1), total);
    assert!(moves.is_empty());

    // Third step: the leftover amendment commit is recognised and skipped.
    let third = pick(AMEND, sentinel.as_str());
    assert_eq!(classify_step(&third, &Some(sentinel.clone())).unwrap(), StepDecision::Skip);

    session.finish(E_NEW);
    assert_eq!(session.phase, RebasePhase::Finished);
    assert_eq!(session.tip, E_NEW);
    assert_eq!(session.amendment_applications, 1);

    // `main` still has its branch: a later retarget of B would move it,
    // proving it was never consumed by the unrelated steps above.
    let moves = index.retarget_branches(B, &hex(B), 99, &hex(99), Some(0), total);
    assert_eq!(moves.len(), 1);
    assert_eq!(moves[0].name, "main");
}

/// A branch pointing at a commit that is rewritten mid-operation moves to
/// the new identity of that commit, exactly once.
#[test]
fn intermediate_branch_is_retargeted() {
    let entries = vec![entry("main", B), entry("intermediate", D), entry("changes", AMEND)];
    let mut index = BranchIndex::build(&entries).ok().unwrap();

    let moves = index.retarget_branches(D, &hex(D), D_NEW, &hex(D_NEW), Some(0), 3);
    assert_eq!(moves.len(), 1);
    assert_eq!(moves[0].name, "intermediate");
    assert_eq!(moves[0].from, D);
    assert_eq!(moves[0].to, D_NEW);
    assert_eq!(
        moves[0].describe(),
        format!("updated branch intermediate: {} -> {}", &hex(D)[..15], &hex(D_NEW)[..15])
    );

    // A second retarget from the same original finds nothing left.
    let moves = index.retarget_branches(D, &hex(D), D_NEW, &hex(D_NEW), Some(0), 3);
    assert!(moves.is_empty());
}

/// A branch pointing at a commit outside the rewritten range is never
/// moved.
#[test]
fn unrelated_branch_is_never_moved() {
    let entries = vec![entry("main", B), entry("feature", C)];
    let mut index = BranchIndex::build(&entries).ok().unwrap();

    // Rewrites touch D and E only: no move ever names main or feature.
    assert!(index.retarget_branches(D, &hex(D), D_NEW, &hex(D_NEW), Some(0), 2).is_empty());
    assert!(index.retarget_branches(E, &hex(E), E_NEW, &hex(E_NEW), Some(0), 2).is_empty());

    // Both branches are still indexed where they were.
    let moves = index.retarget_branches(B, &hex(B), 98, &hex(98), Some(0), 2);
    assert_eq!(moves.len(), 1);
    assert_eq!(moves[0].name, "main");
    let moves = index.retarget_branches(C, &hex(C), 97, &hex(97), Some(0), 2);
    assert_eq!(moves.len(), 1);
    assert_eq!(moves[0].name, "feature");
}

/// On the last step of the operation no branch is moved: the rewrite
/// primitive itself performs that final move.
#[test]
fn last_step_moves_no_branch() {
    let entries = vec![entry("changes", E)];
    let mut index = BranchIndex::build(&entries).ok().unwrap();
    let moves = index.retarget_branches(E, &hex(E), E_NEW, &hex(E_NEW), Some(2), 3);
    assert!(moves.is_empty());
    // The entry is still there: an earlier step would move it.
    let moves = index.retarget_branches(E, &hex(E), E_NEW, &hex(E_NEW), Some(1), 3);
    assert_eq!(moves.len(), 1);
    assert_eq!(moves[0].name, "changes");
}

/// Several branches on one commit all move, in enumeration order.
#[test]
fn all_branches_of_a_commit_move() {
    let entries = vec![entry("one", D), entry("main", B), entry("two", D)];
    let mut index = BranchIndex::build(&entries).ok().unwrap();
    let moves = index.retarget_branches(D, &hex(D), D_NEW, &hex(D_NEW), Some(0), 2);
    assert_eq!(moves.len(), 2);
    assert_eq!(moves[0].name, "one");
    assert_eq!(moves[1].name, "two");
}

/// A branch that resolves to a commit but has a non-UTF-8 name fails the
/// index build, since its move could not be reported.
#[test]
fn unnamed_branch_fails_index_build() {
    let entries = vec![entry("main", B), BranchEntry { name: None, target: Some(C) }];
    match BranchIndex::build(&entries) {
        Err(FixupError::NameEncodingError) => {}
        _ => panic!("expected a name encoding failure"),
    }
}

/// A branch with no resolvable target is skipped, not an error.
#[test]
fn unresolvable_branch_is_skipped() {
    let entries = vec![BranchEntry { name: None, target: None }, entry("main", B)];
    let mut index = BranchIndex::build(&entries).ok().unwrap();
    let moves = index.retarget_branches(B, &hex(B), 98, &hex(98), Some(0), 2);
    assert_eq!(moves.len(), 1);
    assert_eq!(moves[0].name, "main");
}

/// After a failure mid-rewrite the session recovers to the amendment
/// commit as the branch tip: the user's work survives.
#[test]
fn abort_recovers_to_amendment() {
    let mut session = RebaseSession::begin(E);
    session.record_amendment(AMEND);
    session.begin_rewrite();
    session.abort();
    assert_eq!(session.phase, RebasePhase::Aborted);
    assert_eq!(session.tip, AMEND);

    // The same holds when the first step already applied the amendment.
    let mut session = RebaseSession::begin(E);
    session.record_amendment(AMEND);
    session.begin_rewrite();
    session.apply_amendment();
    session.abort();
    assert_eq!(session.tip, AMEND);
    assert_eq!(session.amendment, Some(AMEND));
}

/// A rewrite with no first step is an invariant violation.
#[test]
fn missing_first_step_is_empty_rebase() {
    match require_first_step(None) {
        Err(e) => assert_eq!(e.message(), "Unable to start rebase: no first step in rebase"),
        Ok(_) => panic!("expected an empty-rebase failure"),
    }
}

/// Every non-replay step kind is rejected, naming the kind.
#[test]
fn non_pick_kinds_are_rejected() {
    let kinds =
        [StepKind::Fixup, StepKind::Squash, StepKind::Exec, StepKind::Edit, StepKind::Reword];
    let names = ["Fixup", "Squash", "Exec", "Edit", "Reword"];
    for (kind, name) in kinds.iter().zip(names.iter()) {
        let step = RebaseStep { kind: Some(*kind), id: D, message: Some("d".to_string()) };
        match classify_step(&step, &None) {
            Err(e) => {
                assert_eq!(e.message(), format!("Unable to handle {} rebase operation", name))
            }
            Ok(_) => panic!("expected kind {} to be rejected", name),
        }
    }
}

/// A step with no kind or no message is skipped, not replayed.
#[test]
fn kindless_or_messageless_steps_are_skipped() {
    let step = RebaseStep { kind: None, id: D, message: Some("d".to_string()) };
    assert_eq!(classify_step(&step, &None).unwrap(), StepDecision::Skip);
    let step = RebaseStep { kind: Some(StepKind::Pick), id: D, message: None };
    assert_eq!(classify_step(&step, &None).unwrap(), StepDecision::Skip);
}

/// With no sentinel at hand every pick with a message is replayed.
#[test]
fn picks_replay_without_sentinel() {
    let step = pick(E, "e");
    assert_eq!(classify_step(&step, &None).unwrap(), StepDecision::Replay);
}

/// The recovery guidance names the parent of the selected commit.
#[test]
fn recovery_guidance_names_parent() {
    let parent = hex(C);
    assert_eq!(
        recovery_guidance(&parent),
        format!(
            "Aborting rebase, your changes are in the head commit.\nYou can apply it manually via:\n    git rebase --interactive --autosquash {}~",
            parent
        )
    );
}
