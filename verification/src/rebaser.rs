//! The fixup-and-propagate rewrite engine: classification of rewrite steps,
//! the session state machine with its all-or-nothing recovery guarantee, and
//! the recovery guidance shown when an operation is aborted.

use vstd::prelude::*;
use vstd::string::StringExecFns;
use crate::errors::FixupError;

verus! {

/// The kind of one step of a history rewrite, as a closed enumeration.
/// Only `Pick` (replay as-is) is supported by this engine; every other kind
/// is rejected rather than emulated.
#[derive(Clone, Copy, PartialEq, Eq, Structural, Debug)]
pub enum StepKind {
    Pick,
    Fixup,
    Squash,
    Exec,
    Edit,
    Reword,
}

impl StepKind {
    /// The display name of the step kind.
    pub open spec fn spec_name(self) -> Seq<char> {
        match self {
            StepKind::Pick => "Pick"@,
            StepKind::Fixup => "Fixup"@,
            StepKind::Squash => "Squash"@,
            StepKind::Exec => "Exec"@,
            StepKind::Edit => "Edit"@,
            StepKind::Reword => "Reword"@,
        }
    }

    pub fn name(&self) -> (s: &'static str)
        ensures
            s@ == self.spec_name(),
    {
        match self {
            StepKind::Pick => "Pick",
            StepKind::Fixup => "Fixup",
            StepKind::Squash => "Squash",
            StepKind::Exec => "Exec",
            StepKind::Edit => "Edit",
            StepKind::Reword => "Reword",
        }
    }
}

/// One step of the rewrite, as the rewrite primitive reports it: its kind
/// (`None` where the primitive reports no kind), the original identity of
/// the commit it processes, and that commit's message where it is valid
/// UTF-8.
pub struct RebaseStep {
    pub kind: Option<StepKind>,
    pub id: u64,
    pub message: Option<String>,
}

/// What the engine does with one step after the first.
#[derive(Clone, Copy, PartialEq, Eq, Structural, Debug)]
pub enum StepDecision {
    /// Commit the step verbatim (same tree, message and authorship, new
    /// parent), then retarget branches from its original identity.
    Replay,
    /// Commit nothing and move no branch: the step either carries no
    /// replayable commit or is the leftover synthetic amendment commit.
    Skip,
}

/// A step survives the rewrite exactly when it is a plain replay of a
/// commit with a message that is not the amendment's sentinel.
pub open spec fn spec_is_replay(step: RebaseStep, sentinel: Option<String>) -> bool {
    &&& step.kind == Some(StepKind::Pick)
    &&& step.message is Some
    &&& (sentinel matches Some(s) ==> step.message.unwrap()@ != s@)
}

/// Classify one rewrite step after the first: replay it, skip it, or
/// reject the whole operation because the step is not a plain replay.
pub fn classify_step(step: &RebaseStep, sentinel: &Option<String>) -> (r: Result<
    StepDecision,
    FixupError,
>)
    ensures
        match r {
            Ok(d) => {
                &&& (d is Replay <==> spec_is_replay(*step, *sentinel))
                &&& (step.kind is None || step.kind == Some(StepKind::Pick))
            },
            Err(e) => {
                &&& step.kind is Some
                &&& step.kind.unwrap() != StepKind::Pick
                &&& e matches FixupError::UnsupportedRewriteOperation { kind } && kind
                    == step.kind.unwrap()
            },
        },
{
    match &step.kind {
        None => Ok(StepDecision::Skip),
        Some(StepKind::Pick) => {
            match (&step.message, sentinel) {
                (None, _) => Ok(StepDecision::Skip),
                (Some(m), Some(s)) => {
                    if m.eq(s) {
                        Ok(StepDecision::Skip)
                    } else {
                        Ok(StepDecision::Replay)
                    }
                },
                (Some(_), None) => Ok(StepDecision::Replay),
            }
        },
        Some(k) => Err(FixupError::UnsupportedRewriteOperation { kind: *k }),
    }
}

/// The rewrite primitive must yield a first step; its absence is an
/// invariant violation, not a user error.
pub fn require_first_step<'a>(op: Option<&'a RebaseStep>) -> (r: Result<
    &'a RebaseStep,
    FixupError,
>)
    ensures
        match op {
            Some(s) => r matches Ok(rs) && rs == s,
            None => r matches Err(e) && e is EmptyRebase,
        },
{
    match op {
        Some(s) => Ok(s),
        None => Err(FixupError::EmptyRebase),
    }
}

/// Where a rewrite operation stands.
#[derive(Clone, Copy, PartialEq, Eq, Structural, Debug)]
pub enum RebasePhase {
    /// Nothing has been mutated: a failure here needs no recovery.
    Planning,
    /// The synthetic amendment commit exists as the branch tip.
    AmendmentCommitted,
    /// The rewrite primitive has started; the branch ref still points at
    /// the amendment commit until the primitive finishes.
    Rewriting,
    /// The first step has folded the amendment into the selected commit.
    AmendmentApplied,
    /// The primitive's finishing step has moved the branch tip to the
    /// final rewritten commit.
    Finished,
    /// The rewrite was abandoned; the repository is back in its
    /// pre-rewrite state, with the amendment commit as the branch tip.
    Aborted,
}

/// The scoped rewrite operation.  It tracks, next to the phase, the commit
/// the active branch ref points at, the identity of the amendment commit,
/// and how often the amendment diff has been applied.  The driver performs
/// each transition's repository work and then records it here; the
/// contracts force the transitions into the legal order, and the
/// well-formedness invariant carries the recovery guarantee.
pub struct RebaseSession {
    pub phase: RebasePhase,
    pub tip: u64,
    pub amendment: Option<u64>,
    pub amendment_applications: usize,
}

impl RebaseSession {
    /// What every reachable session state satisfies.  In particular: from
    /// the moment the amendment commit exists until the rewrite finishes,
    /// the branch ref points at the amendment commit, so an abort always
    /// recovers to it; and the amendment is folded in at most once, exactly
    /// once in a finished rewrite.
    pub open spec fn wf(self) -> bool {
        match self.phase {
            RebasePhase::Planning => self.amendment is None && self.amendment_applications == 0,
            RebasePhase::AmendmentCommitted => {
                &&& self.amendment is Some
                &&& self.tip == self.amendment.unwrap()
                &&& self.amendment_applications == 0
            },
            RebasePhase::Rewriting => {
                &&& self.amendment is Some
                &&& self.tip == self.amendment.unwrap()
                &&& self.amendment_applications == 0
            },
            RebasePhase::AmendmentApplied => {
                &&& self.amendment is Some
                &&& self.tip == self.amendment.unwrap()
                &&& self.amendment_applications == 1
            },
            RebasePhase::Finished => self.amendment_applications == 1,
            RebasePhase::Aborted => {
                &&& self.amendment is Some
                &&& self.tip == self.amendment.unwrap()
            },
        }
    }

    /// Open an operation over a repository whose active branch points at
    /// `head_tip`.
    pub fn begin(head_tip: u64) -> (s: RebaseSession)
        ensures
            s.wf(),
            s.phase is Planning,
            s.tip == head_tip,
    {
        RebaseSession {
            phase: RebasePhase::Planning,
            tip: head_tip,
            amendment: None,
            amendment_applications: 0,
        }
    }

    /// The amendment commit was created on the branch tip (an ordinary
    /// commit: it survives any later abort, so no work is lost).
    pub fn record_amendment(&mut self, amendment_id: u64)
        requires
            old(self).wf(),
            old(self).phase is Planning,
        ensures
            final(self).wf(),
            final(self).phase is AmendmentCommitted,
            final(self).amendment == Some(amendment_id),
            final(self).tip == amendment_id,
    {
        self.phase = RebasePhase::AmendmentCommitted;
        self.tip = amendment_id;
        self.amendment = Some(amendment_id);
    }

    /// The rewrite primitive was started, bounded by the parent of the
    /// selected commit and the branch tip.
    pub fn begin_rewrite(&mut self)
        requires
            old(self).wf(),
            old(self).phase is AmendmentCommitted,
        ensures
            final(self).wf(),
            final(self).phase is Rewriting,
            final(self).amendment == old(self).amendment,
            final(self).tip == old(self).tip,
    {
        self.phase = RebasePhase::Rewriting;
    }

    /// The first step applied the amendment diff into the selected commit
    /// and amended it to a new identity.  Only a session in the rewriting
    /// phase accepts this, so the amendment cannot be applied twice.
    pub fn apply_amendment(&mut self)
        requires
            old(self).wf(),
            old(self).phase is Rewriting,
        ensures
            final(self).wf(),
            final(self).phase is AmendmentApplied,
            final(self).amendment == old(self).amendment,
            final(self).tip == old(self).tip,
            final(self).amendment_applications == 1,
    {
        self.phase = RebasePhase::AmendmentApplied;
        self.amendment_applications = 1;
    }

    /// The primitive's finishing step moved the branch tip to the final
    /// rewritten commit.
    pub fn finish(&mut self, final_tip: u64)
        requires
            old(self).wf(),
            old(self).phase is AmendmentApplied,
        ensures
            final(self).wf(),
            final(self).phase is Finished,
            final(self).tip == final_tip,
            final(self).amendment_applications == 1,
    {
        self.phase = RebasePhase::Finished;
        self.tip = final_tip;
    }

    /// A failure during the rewrite: the primitive's scratch state is
    /// discarded and the repository is back where it was when the rewrite
    /// started — with the amendment commit as the branch tip.
    pub fn abort(&mut self)
        requires
            old(self).wf(),
            old(self).phase is Rewriting || old(self).phase is AmendmentApplied,
        ensures
            final(self).wf(),
            final(self).phase is Aborted,
            final(self).amendment == old(self).amendment,
            final(self).tip == old(self).amendment.unwrap(),
    {
        self.phase = RebasePhase::Aborted;
    }
}

/// Law: whenever an operation that created its amendment commit fails and
/// is aborted, the branch tip after recovery is exactly the amendment
/// commit — not the pre-amendment tip, and not a partially rewritten
/// commit.
pub proof fn lemma_recovery_tip_is_amendment(s: RebaseSession)
    requires
        s.wf(),
        s.phase is Aborted,
    ensures
        s.amendment is Some,
        s.tip == s.amendment.unwrap(),
{
}

/// Law: a finished rewrite has folded the amendment diff in exactly once.
pub proof fn lemma_finished_applies_amendment_once(s: RebaseSession)
    requires
        s.wf(),
        s.phase is Finished,
    ensures
        s.amendment_applications == 1,
{
}

/// Law: the leftover synthetic amendment commit — recognised by its
/// sentinel message — is never replayed, so the amendment is never applied
/// a second time to any descendant.
pub proof fn lemma_sentinel_never_replayed(step: RebaseStep, sentinel: String)
    requires
        step.message matches Some(m) && m@ == sentinel@,
    ensures
        !spec_is_replay(step, Some(sentinel)),
{
}

/// The guidance printed when the rewrite is aborted: the user's changes
/// are preserved in the amendment commit at the branch tip, and the named
/// command replays them manually from the parent of the selected commit.
pub open spec fn spec_recovery_guidance(parent_hex: Seq<char>) -> Seq<char> {
    "Aborting rebase, your changes are in the head commit.\nYou can apply it manually via:\n    git rebase --interactive --autosquash "@
        + parent_hex + "~"@
}

/// Render the recovery guidance naming the parent of the selected commit.
pub fn recovery_guidance(parent_hex: &str) -> (s: String)
    ensures
        s@ == spec_recovery_guidance(parent_hex@),
{
    let mut s =
    "Aborting rebase, your changes are in the head commit.\nYou can apply it manually via:\n    git rebase --interactive --autosquash ".to_owned();
    s.append(parent_hex);
    s.append("~");
    assert(s@ =~= spec_recovery_guidance(parent_hex@));
    s
}

} // verus!
