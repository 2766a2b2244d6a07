//! The commit model.
//!
//! A commit is identified inside the model by a small numeric identity that
//! the driver assigns one-to-one to real commit identities, together with the
//! 40-character hex form used for display.  A rewrite always produces a new
//! identity; no commit is ever mutated.

use vstd::prelude::*;
use vstd::string::StringExecFns;
use vstd::utf8::is_ascii_chars;
use crate::errors::FixupError;
use crate::text::{abbreviate, prefix_chars};

verus! {

/// The number of characters of a full hex commit identity.
pub const ID_HEX_LEN: usize = 40;

/// The number of characters shown when a commit is displayed.
pub const ID_ABBREV_LEN: usize = 10;

/// One commit, as the model sees it.
pub struct CommitInfo {
    /// Model identity: distinct commits have distinct numbers.
    pub id: u64,
    /// The 40-character lowercase hex form of the identity, for display.
    pub id_hex: String,
    /// The one-line summary of the commit message, where it is valid UTF-8.
    pub summary: Option<String>,
    /// The full commit message, where it is valid UTF-8.
    pub message: Option<String>,
    /// The identities of the parents, first parent first.
    pub parent_ids: Vec<u64>,
}

impl CommitInfo {
    /// Well-formedness: the hex identity really is a 40-character ASCII
    /// string, so abbreviation for display is always possible.
    pub open spec fn wf(self) -> bool {
        &&& self.id_hex@.len() == ID_HEX_LEN
        &&& is_ascii_chars(self.id_hex@)
    }

    /// The summary shown for this commit, with the fallback the selection
    /// list uses.
    pub open spec fn spec_summary_or(self, fallback: Seq<char>) -> Seq<char> {
        match self.summary {
            Some(s) => s@,
            None => fallback,
        }
    }
}

/// A commit display line: abbreviated identity, a space, and the summary.
pub open spec fn spec_commit_display(c: CommitInfo) -> Seq<char> {
    prefix_chars(c.id_hex@, ID_ABBREV_LEN as nat) + " "@ + c.spec_summary_or("<no summary>"@)
}

/// Display a commit as "short_hex summary".
pub fn commit_display(c: &CommitInfo) -> (s: String)
    requires
        c.wf(),
    ensures
        s@ == spec_commit_display(*c),
{
    let mut s = abbreviate(c.id_hex.as_str(), ID_ABBREV_LEN);
    s.append(" ");
    match &c.summary {
        Some(sum) => s.append(sum.as_str()),
        None => s.append("<no summary>"),
    }
    assert(s@ =~= spec_commit_display(*c));
    s
}

/// The description of the commit at `idx` used by the pattern-not-found
/// failure: "short_hex (summary)", or a placeholder where the index is out
/// of range or the summary is missing.
pub open spec fn spec_id_and_summary(commits: Seq<CommitInfo>, idx: int) -> Seq<char> {
    if 0 <= idx < commits.len() {
        prefix_chars(commits[idx].id_hex@, ID_ABBREV_LEN as nat) + " ("@
            + commits[idx].spec_summary_or("<unknown>"@) + ")"@
    } else {
        "<unknown>"@
    }
}

/// Describe the commit at `idx` of the range, tolerating an out-of-range
/// index.
pub fn commit_id_and_summary(commits: &Vec<CommitInfo>, idx: usize) -> (s: String)
    requires
        forall|i: int| 0 <= i < commits@.len() ==> (#[trigger] commits@[i]).wf(),
    ensures
        s@ == spec_id_and_summary(commits@, idx as int),
{
    if idx < commits.len() {
        let c = &commits[idx];
        let mut s = abbreviate(c.id_hex.as_str(), ID_ABBREV_LEN);
        s.append(" (");
        match &c.summary {
            Some(sum) => s.append(sum.as_str()),
            None => s.append("<unknown>"),
        }
        s.append(")");
        assert(s@ =~= spec_id_and_summary(commits@, idx as int));
        s
    } else {
        "<unknown>".to_owned()
    }
}

/// A ref display line: "name (short_hex)", with a placeholder for a ref
/// whose name is not valid UTF-8.
pub open spec fn spec_format_ref(name: Option<String>, hex: Seq<char>) -> Seq<char> {
    (match name {
        Some(n) => n@,
        None => "<unnamed>"@,
    }) + " ("@ + prefix_chars(hex, ID_ABBREV_LEN as nat) + ")"@
}

/// Display a ref as "shorthand (short_hex)".
pub fn format_ref(name: &Option<String>, hex: &str) -> (s: String)
    requires
        hex@.len() <= usize::MAX,
        is_ascii_chars(hex@),
    ensures
        s@ == spec_format_ref(*name, hex@),
{
    let mut s = match name {
        Some(n) => n.clone(),
        None => "<unnamed>".to_owned(),
    };
    s.append(" (");
    let abbrev = abbreviate(hex, ID_ABBREV_LEN);
    s.append(abbrev.as_str());
    s.append(")");
    assert(s@ =~= spec_format_ref(*name, hex@));
    s
}

/// The first parent of the selected commit: the rewrite is rooted at it.
/// A parentless commit cannot be fixed up, since there is nothing to rebase
/// onto.
pub fn first_parent(c: &CommitInfo) -> (r: Result<u64, FixupError>)
    requires
        c.wf(),
    ensures
        match r {
            Ok(p) => c.parent_ids@.len() > 0 && p == c.parent_ids@[0],
            Err(e) => c.parent_ids@.len() == 0 && (e matches FixupError::NoParents { commit }
                && commit@ == spec_commit_display(*c)),
        },
{
    if c.parent_ids.len() > 0 {
        Ok(c.parent_ids[0])
    } else {
        Err(FixupError::NoParents { commit: commit_display(c) })
    }
}

} // verus!
