//! The amendment diff builder's decisions: which changes form the
//! amendment, how a pending diff is shown, the mandatory confirmation for
//! the stage-everything path, and the sentinel message of the synthetic
//! amendment commit.

use vstd::prelude::*;
use vstd::string::StringExecFns;
use crate::errors::FixupError;

verus! {

/// Where the amendment's changes come from.
#[derive(Clone, Copy, PartialEq, Eq, Structural, Debug)]
pub enum ChangeSource {
    /// Changes already staged in the index: the common path.
    Staged,
    /// Nothing staged; the working-tree changes are taken, after explicit
    /// confirmation.
    WorkingTree,
}

/// Decide what to amend with: staged changes win; otherwise working-tree
/// changes (the caller must then confirm); with neither there is nothing to
/// amend.
pub fn choose_change_source(staged_files_changed: usize, dirty_files_changed: usize) -> (r:
    Result<ChangeSource, FixupError>)
    ensures
        match r {
            Ok(ChangeSource::Staged) => staged_files_changed > 0,
            Ok(ChangeSource::WorkingTree) => staged_files_changed == 0 && dirty_files_changed
                > 0,
            Err(e) => staged_files_changed == 0 && dirty_files_changed == 0 && e
                is NothingToAmend,
        },
{
    if staged_files_changed > 0 {
        Ok(ChangeSource::Staged)
    } else if dirty_files_changed > 0 {
        Ok(ChangeSource::WorkingTree)
    } else {
        Err(FixupError::NothingToAmend)
    }
}

/// Are there any uncommitted changes at all (staged or in the working
/// tree)?  When the amendment came from the working tree, this decides
/// whether a stash must bracket the rewrite.
pub fn has_uncommitted_changes(staged_files_changed: usize, dirty_files_changed: usize) -> (r:
    bool)
    ensures
        r == (staged_files_changed > 0 || dirty_files_changed > 0),
{
    staged_files_changed > 0 || dirty_files_changed > 0
}

/// How a pending working-tree diff is presented for review.
#[derive(Clone, Copy, PartialEq, Eq, Structural, Debug)]
pub enum DiffRendering {
    /// The full (highlighted) diff: it fits the terminal.
    Full,
    /// Only a diffstat: the diff would scroll away.
    Stat,
}

/// The number of diff lines that still fit: the terminal height (24 where
/// it is unknown) minus room for the prompt.
pub open spec fn spec_cutoff(terminal_height: Option<u16>) -> int {
    let h = match terminal_height {
        Some(v) => v as int,
        None => 24,
    };
    if h >= 5 {
        h - 5
    } else {
        0
    }
}

/// Compute the cutoff height below which a full diff is shown.
pub fn diffstat_cutoff(terminal_height: Option<u16>) -> (c: usize)
    ensures
        c == spec_cutoff(terminal_height),
{
    let h: u16 = match terminal_height {
        Some(v) => v,
        None => 24,
    };
    if h >= 5 {
        (h - 5) as usize
    } else {
        0
    }
}

/// Show the full diff only when it is shorter than the cutoff.
pub fn choose_rendering(line_count: usize, cutoff: usize) -> (r: DiffRendering)
    ensures
        r == (if line_count >= cutoff {
            DiffRendering::Stat
        } else {
            DiffRendering::Full
        }),
{
    if line_count >= cutoff {
        DiffRendering::Stat
    } else {
        DiffRendering::Full
    }
}

/// The label under which a diffstat of the pending changes is shown.
pub fn diffstat_label(source: ChangeSource) -> (label: &'static str)
    ensures
        source is Staged ==> label@ == "Staged"@,
        source is WorkingTree ==> label@ == "Unstaged"@,
{
    match source {
        ChangeSource::Staged => "Staged",
        ChangeSource::WorkingTree => "Unstaged",
    }
}

/// The question asked before everything is staged and committed.
pub fn stage_everything_prompt() -> (p: &'static str)
    ensures
        p@ == "Nothing staged, stage and commit everything?"@,
{
    "Nothing staged, stage and commit everything?"
}

/// Turn the user's answer to the stage-everything question into the
/// decision: a "no" is a quiet failure — nothing went wrong, nothing is
/// printed, the process just stops.
pub fn confirm_stage_everything(accepted: bool) -> (r: Result<(), FixupError>)
    ensures
        accepted <==> r is Ok,
        r matches Err(e) ==> e is Declined,
{
    if accepted {
        Ok(())
    } else {
        Err(FixupError::Declined)
    }
}

/// The message of the synthetic amendment commit: a sentinel recognised —
/// and discarded — during replay.  The squash form differs only in its
/// prefix; combining messages is not implemented.
pub open spec fn spec_sentinel(squash: bool, target_hex: Seq<char>) -> Seq<char> {
    (if squash {
        "squash! "@
    } else {
        "fixup! "@
    }) + target_hex
}

/// Build the sentinel message for the amendment commit on the given target
/// commit.
pub fn sentinel_message(squash: bool, target_hex: &str) -> (m: String)
    ensures
        m@ == spec_sentinel(squash, target_hex@),
{
    let mut m: String = if squash {
        "squash! ".to_owned()
    } else {
        "fixup! ".to_owned()
    };
    m.append(target_hex);
    assert(m@ =~= spec_sentinel(squash, target_hex@));
    m
}

/// The text of one rendered diff line: content lines keep their origin
/// marker ('+', '-' or ' ') as a prefix; header lines are shown as they
/// are.
pub open spec fn spec_diff_line(origin: char, content: Seq<char>) -> Seq<char> {
    if origin == '+' || origin == '-' || origin == ' ' {
        seq![origin] + content
    } else {
        content
    }
}

/// Prepare one diff line for rendering.
pub fn diff_line_text(origin: char, content: &str) -> (t: String)
    ensures
        t@ == spec_diff_line(origin, content@),
{
    if origin == '+' {
        proof {
            reveal_strlit("+");
        }
        let mut t = "+".to_owned();
        t.append(content);
        assert(t@ =~= spec_diff_line(origin, content@));
        t
    } else if origin == '-' {
        proof {
            reveal_strlit("-");
        }
        let mut t = "-".to_owned();
        t.append(content);
        assert(t@ =~= spec_diff_line(origin, content@));
        t
    } else if origin == ' ' {
        proof {
            reveal_strlit(" ");
        }
        let mut t = " ".to_owned();
        t.append(content);
        assert(t@ =~= spec_diff_line(origin, content@));
        t
    } else {
        content.to_owned()
    }
}

} // verus!
