//! The commit selector: bounds the history walk into a commit range, finds a
//! commit by a summary pattern, and prepares the entries of the interactive
//! selection list.

use std::collections::HashMap;
use vstd::prelude::*;
use vstd::string::StringExecFns;
use crate::commits::{
    commit_id_and_summary, spec_id_and_summary, spec_format_ref, format_ref, CommitInfo,
    ID_ABBREV_LEN,
};
use crate::errors::FixupError;
use crate::text::{abbreviate, contains_seq, prefix_chars, str_contains};

verus! {

broadcast use vstd::std_specs::hash::group_hash_axioms;

/// Is this commit the boundary past which the walk must not go?
pub open spec fn is_boundary(c: CommitInfo, boundary: Option<u64>) -> bool {
    match boundary {
        Some(b) => c.id == b,
        None => false,
    }
}

/// Cut the history walk down to the commit range: the longest prefix of the
/// walk that stops (exclusively) at the boundary commit, holding at most
/// `max_count` commits.
///
/// The range never includes the boundary commit and never more than
/// `max_count` commits; it is shorter than both caps only when the next walk
/// entry is the boundary itself.
pub fn compute_range(walk: Vec<CommitInfo>, boundary: Option<u64>, max_count: usize) -> (r: Vec<
    CommitInfo,
>)
    ensures
        r@.len() <= max_count,
        r@.len() <= walk@.len(),
        forall|i: int| 0 <= i < r@.len() ==> r@[i] == walk@[i],
        forall|i: int| 0 <= i < r@.len() ==> !is_boundary(#[trigger] r@[i], boundary),
        r@.len() < max_count && r@.len() < walk@.len() ==> is_boundary(
            walk@[r@.len() as int],
            boundary,
        ),
{
    let n: usize = walk.len();
    let lim: usize = if max_count < n {
        max_count
    } else {
        n
    };
    let mut cut: usize = 0;
    let mut hit: bool = false;
    while cut < lim && !hit
        invariant
            lim <= max_count,
            lim <= n,
            n == walk@.len(),
            cut <= lim,
            lim < max_count ==> lim == n,
            forall|i: int| 0 <= i < cut ==> !is_boundary(#[trigger] walk@[i], boundary),
            hit ==> cut < n && is_boundary(walk@[cut as int], boundary),
        decreases lim - cut + (if hit {
            0int
        } else {
            1int
        }),
    {
        let here: bool = if let Some(b) = boundary {
            walk[cut].id == b
        } else {
            false
        };
        if here {
            hit = true;
        } else {
            cut += 1;
        }
    }
    let mut r = walk;
    r.truncate(cut);
    r
}

/// Does the commit's one-line summary contain the pattern as a substring?
pub open spec fn summary_contains(c: CommitInfo, pattern: Seq<char>) -> bool {
    match c.summary {
        Some(s) => contains_seq(s@, pattern),
        None => false,
    }
}

/// Pick the commit to amend by an exact textual match: the first commit of
/// the range (newest first) whose summary contains the pattern, or a failure
/// naming the two ends of the searched range.
pub fn select_by_pattern(commits: &Vec<CommitInfo>, pattern: &str) -> (r: Result<
    usize,
    FixupError,
>)
    requires
        commits@.len() > 0,
        forall|i: int| 0 <= i < commits@.len() ==> (#[trigger] commits@[i]).wf(),
    ensures
        match r {
            Ok(i) => {
                &&& i < commits@.len()
                &&& summary_contains(commits@[i as int], pattern@)
                &&& forall|j: int|
                    0 <= j < i ==> !summary_contains(#[trigger] commits@[j], pattern@)
            },
            Err(e) => {
                &&& forall|j: int|
                    0 <= j < commits@.len() ==> !summary_contains(
                        #[trigger] commits@[j],
                        pattern@,
                    )
                &&& e matches FixupError::PatternNotFound { first, last } ==> {
                    &&& first@ == spec_id_and_summary(commits@, commits@.len() - 1)
                    &&& last@ == spec_id_and_summary(commits@, 0)
                }
                &&& e is PatternNotFound
            },
        },
{
    let n: usize = commits.len();
    let mut i: usize = 0;
    while i < n
        invariant
            n == commits@.len(),
            i <= n,
            forall|i0: int| 0 <= i0 < commits@.len() ==> (#[trigger] commits@[i0]).wf(),
            forall|j: int| 0 <= j < i ==> !summary_contains(#[trigger] commits@[j], pattern@),
        decreases n - i,
    {
        let found: bool = match &commits[i].summary {
            Some(s) => str_contains(s.as_str(), pattern),
            None => false,
        };
        if found {
            return Ok(i);
        }
        i += 1;
    }
    let first = commit_id_and_summary(commits, n - 1);
    let last = commit_id_and_summary(commits, 0);
    Err(FixupError::PatternNotFound { first, last })
}

/// One entry of the interactive selection list, in plain parts so that the
/// presentation layer may style them.
pub struct SelectionItem {
    /// The abbreviated commit identity.
    pub id_abbrev: String,
    /// "(branch) " where a branch points at this commit and the commit is
    /// not the tip itself, else empty.
    pub branch_label: String,
    /// The commit summary, with a fallback for commits without one.
    pub summary: String,
}

/// What the entry for the commit at position `i` of the range must hold.
pub open spec fn item_ok(
    item: SelectionItem,
    c: CommitInfo,
    i: int,
    names: Map<u64, String>,
) -> bool {
    &&& item.id_abbrev@ == prefix_chars(c.id_hex@, ID_ABBREV_LEN as nat)
    &&& item.branch_label@ == if i > 0 && names.contains_key(c.id) {
        "("@ + names[c.id]@ + ") "@
    } else {
        ""@
    }
    &&& item.summary@ == c.spec_summary_or("no commit summary"@)
}

/// Prepare the selection list: newest first, each entry showing the
/// abbreviated identity, any branch name pointing at that commit (except on
/// the tip itself, which heads the list), and the summary.
pub fn selection_items(commits: &Vec<CommitInfo>, names: &HashMap<u64, String>) -> (items: Vec<
    SelectionItem,
>)
    requires
        forall|i: int| 0 <= i < commits@.len() ==> (#[trigger] commits@[i]).wf(),
    ensures
        items@.len() == commits@.len(),
        forall|i: int|
            0 <= i < items@.len() ==> item_ok(#[trigger] items@[i], commits@[i], i, names@),
{
    let n: usize = commits.len();
    let mut items: Vec<SelectionItem> = Vec::new();
    let mut i: usize = 0;
    while i < n
        invariant
            n == commits@.len(),
            i <= n,
            items@.len() == i,
            forall|i0: int| 0 <= i0 < commits@.len() ==> (#[trigger] commits@[i0]).wf(),
            forall|j: int|
                0 <= j < i ==> item_ok(#[trigger] items@[j], commits@[j], j, names@),
        decreases n - i,
    {
        let c = &commits[i];
        let id_abbrev = abbreviate(c.id_hex.as_str(), ID_ABBREV_LEN);
        let branch_label: String = if i > 0 {
            match names.get(&c.id) {
                Some(name) => {
                    let mut label = "(".to_owned();
                    label.append(name.as_str());
                    label.append(") ");
                    assert(label@ =~= "("@ + names@[c.id]@ + ") "@);
                    label
                },
                None => String::new(),
            }
        } else {
            String::new()
        };
        let summary: String = match &c.summary {
            Some(s) => s.clone(),
            None => "no commit summary".to_owned(),
        };
        proof {
            reveal_strlit("");
        }
        let item = SelectionItem { id_abbrev, branch_label, summary };
        assert(item.branch_label@ == if i > 0 && names@.contains_key(commits@[i as int].id) {
            "("@ + names@[commits@[i as int].id]@ + ") "@
        } else {
            ""@
        });
        assert(item_ok(item, commits@[i as int], i as int, names@));
        items.push(item);
        i += 1;
    }
    items
}

/// The prompt above the selection list; it notes when no upstream bounded
/// the walk.
pub fn selection_prompt(has_upstream: bool) -> (p: &'static str)
    ensures
        has_upstream ==> p@ == "Select a commit to amend:"@,
        !has_upstream ==> p@ == "Select a commit to amend (no upstream for HEAD):"@,
{
    if has_upstream {
        "Select a commit to amend:"
    } else {
        "Select a commit to amend (no upstream for HEAD):"
    }
}

/// Check that the commit range is not empty, naming the head and the
/// boundary in the failure.
pub fn check_nonempty_range(
    range_len: usize,
    head_name: &Option<String>,
    head_hex: &str,
    boundary_hex: &Option<String>,
) -> (r: Result<(), FixupError>)
    requires
        head_hex@.len() <= usize::MAX,
        vstd::string::is_ascii(head_hex),
    ensures
        r is Ok <==> range_len > 0,
        match r {
            Ok(_) => true,
            Err(e) => {
                &&& e matches FixupError::EmptyRange { head, boundary } ==> {
                    &&& head@ == spec_format_ref(*head_name, head_hex@)
                    &&& boundary@ == match *boundary_hex {
                        Some(h) => h@,
                        None => "<no upstream>"@,
                    }
                }
                &&& e is EmptyRange
            },
        },
{
    if range_len > 0 {
        Ok(())
    } else {
        let head = format_ref(head_name, head_hex);
        let boundary: String = match boundary_hex {
            Some(h) => h.clone(),
            None => "<no upstream>".to_owned(),
        };
        Err(FixupError::EmptyRange { head, boundary })
    }
}

} // verus!
