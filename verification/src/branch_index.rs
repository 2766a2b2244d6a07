//! The branch index: which branch refs point at which commit, and how they
//! are moved when a commit is rewritten.
//!
//! The index is built once per rewrite operation, before any commit is
//! rewritten, and progressively consumed as original identities are replaced
//! by rewritten ones.

use std::collections::HashMap;
use vstd::prelude::*;
use vstd::string::StringExecFns;
use crate::errors::FixupError;
use crate::text::prefix_chars;

verus! {

broadcast use vstd::std_specs::hash::group_hash_axioms;

/// One local branch as the driver enumerates it: its name (`None` where the
/// name is not valid UTF-8) and the commit it points at (`None` where the
/// ref does not resolve to a commit).
pub struct BranchEntry {
    pub name: Option<String>,
    pub target: Option<u64>,
}

/// The number of characters of a commit identity shown in a retarget
/// report.
pub const RETARGET_ABBREV_LEN: usize = 15;

/// The index that `build` produces from a sequence of branch entries:
/// branch names grouped by target commit, in enumeration order, skipping
/// branches without a resolvable target.
pub open spec fn spec_branch_index(entries: Seq<BranchEntry>) -> Map<u64, Seq<String>>
    decreases entries.len(),
{
    if entries.len() == 0 {
        Map::empty()
    } else {
        let m = spec_branch_index(entries.drop_last());
        let e = entries.last();
        if e.target is Some && e.name is Some {
            let t = e.target.unwrap();
            let names = if m.contains_key(t) {
                m[t]
            } else {
                Seq::empty()
            };
            m.insert(t, names.push(e.name.unwrap()))
        } else {
            m
        }
    }
}

/// Every branch that resolves to a commit has a reportable (UTF-8) name.
pub open spec fn entries_named(entries: Seq<BranchEntry>) -> bool {
    forall|i: int|
        0 <= i < entries.len() ==> ((#[trigger] entries[i]).target is Some ==> entries[i].name
            is Some)
}

/// How one retarget call changes the index: when the step condition allows
/// moving and the original commit is indexed, its entry is consumed.
pub open spec fn spec_retarget(m: Map<u64, Seq<String>>, original: u64, moved: bool) -> Map<
    u64,
    Seq<String>,
> {
    if moved && m.contains_key(original) {
        m.remove(original)
    } else {
        m
    }
}

/// The index after a whole sequence of retarget calls, each given as the
/// original identity and whether the step condition allowed moving.
pub open spec fn spec_retarget_all(m: Map<u64, Seq<String>>, ops: Seq<(u64, bool)>) -> Map<
    u64,
    Seq<String>,
>
    decreases ops.len(),
{
    if ops.len() == 0 {
        m
    } else {
        spec_retarget(spec_retarget_all(m, ops.drop_last()), ops.last().0, ops.last().1)
    }
}

/// A record of one branch ref that was moved, for observability.
pub struct RetargetedBranch {
    pub name: String,
    pub from: u64,
    pub from_hex: String,
    pub to: u64,
    pub to_hex: String,
}

impl RetargetedBranch {
    /// The hex identities can be abbreviated for display.
    pub open spec fn wf(self) -> bool {
        &&& self.from_hex@.len() <= usize::MAX
        &&& vstd::utf8::is_ascii_chars(self.from_hex@)
        &&& self.to_hex@.len() <= usize::MAX
        &&& vstd::utf8::is_ascii_chars(self.to_hex@)
    }

    /// The report line for one moved branch.
    pub open spec fn spec_describe(self) -> Seq<char> {
        "updated branch "@ + self.name@ + ": "@ + prefix_chars(
            self.from_hex@,
            RETARGET_ABBREV_LEN as nat,
        ) + " -> "@ + prefix_chars(self.to_hex@, RETARGET_ABBREV_LEN as nat)
    }

    /// Render "updated branch name: from -> to" with abbreviated
    /// identities.
    pub fn describe(&self) -> (s: String)
        requires
            self.wf(),
        ensures
            s@ == self.spec_describe(),
    {
        let mut s = "updated branch ".to_owned();
        s.append(self.name.as_str());
        s.append(": ");
        let from = crate::text::abbreviate(self.from_hex.as_str(), RETARGET_ABBREV_LEN);
        s.append(from.as_str());
        s.append(" -> ");
        let to = crate::text::abbreviate(self.to_hex.as_str(), RETARGET_ABBREV_LEN);
        s.append(to.as_str());
        assert(s@ =~= self.spec_describe());
        s
    }
}

/// The mapping from commit identity to the branch refs currently pointing
/// at it.
pub struct BranchIndex {
    map: HashMap<u64, Vec<String>>,
}

impl View for BranchIndex {
    type V = Map<u64, Seq<String>>;

    closed spec fn view(&self) -> Map<u64, Seq<String>> {
        self.map@.map_values(|v: Vec<String>| v@)
    }
}

impl BranchIndex {
    /// Group the enumerated local branches by their target commit.
    ///
    /// A branch with no resolvable target is skipped; a branch that
    /// resolves but has a non-UTF-8 name fails the build, since retargeting
    /// must be able to report the names it moves.
    pub fn build(entries: &Vec<BranchEntry>) -> (r: Result<BranchIndex, FixupError>)
        ensures
            match r {
                Ok(idx) => entries_named(entries@) && idx@ == spec_branch_index(entries@),
                Err(e) => !entries_named(entries@) && e is NameEncodingError,
            },
    {
        let ghost f = |v: Vec<String>| v@;
        let mut map: HashMap<u64, Vec<String>> = HashMap::new();
        let n: usize = entries.len();
        let mut i: usize = 0;
        proof {
            assert(map@.map_values(f) =~= spec_branch_index(entries@.take(0)));
        }
        while i < n
            invariant
                n == entries@.len(),
                i <= n,
                map@.map_values(f) == spec_branch_index(entries@.take(i as int)),
                entries_named(entries@.take(i as int)),
                f == (|v: Vec<String>| v@),
            decreases n - i,
        {
            let e = &entries[i];
            match (&e.target, &e.name) {
                (Some(t), Some(name)) => {
                    let t: u64 = *t;
                    let mut names: Vec<String> = match map.remove(&t) {
                        Some(v) => v,
                        None => Vec::new(),
                    };
                    names.push(name.clone());
                    map.insert(t, names);
                    proof {
                        let prev = spec_branch_index(entries@.take(i as int));
                        assert(entries@.take(i + 1).drop_last() =~= entries@.take(i as int));
                        assert(entries@.take(i + 1).last() == entries@[i as int]);
                        let old_names = if prev.contains_key(t) {
                            prev[t]
                        } else {
                            Seq::<String>::empty()
                        };
                        assert(names@ =~= old_names.push(entries@[i as int].name.unwrap()));
                        assert(map@.map_values(f) =~= prev.insert(t, names@));
                    }
                },
                (Some(_), None) => {
                    return Err(FixupError::NameEncodingError);
                },
                (None, _) => {
                    proof {
                        assert(entries@.take(i + 1).drop_last() =~= entries@.take(i as int));
                        assert(map@.map_values(f) =~= spec_branch_index(entries@.take(i + 1)));
                    }
                },
            }
            i += 1;
        }
        proof {
            assert(entries@.take(n as int) =~= entries@);
        }
        Ok(BranchIndex { map })
    }

    /// Move every branch indexed under `original` to `new_id`, unless this
    /// is the last step of the rewrite operation (the rewrite primitive
    /// itself performs that final move, and an early move would race with
    /// it).  Branches indexed under any other commit are untouched.
    ///
    /// Returns one record per moved branch; the driver performs the actual
    /// ref updates it describes.
    pub fn retarget_branches(
        &mut self,
        original: u64,
        original_hex: &str,
        new_id: u64,
        new_hex: &str,
        current_op: Option<usize>,
        total_ops: usize,
    ) -> (moves: Vec<RetargetedBranch>)
        requires
            total_ops >= 1,
            original_hex@.len() <= usize::MAX,
            vstd::string::is_ascii(original_hex),
            new_hex@.len() <= usize::MAX,
            vstd::string::is_ascii(new_hex),
        ensures
            ({
                let moved = !(current_op == Some((total_ops - 1) as usize));
                &&& final(self)@ == spec_retarget(old(self)@, original, moved)
                &&& (moved && old(self)@.contains_key(original) ==> {
                    &&& moves@.len() == old(self)@[original].len()
                    &&& forall|j: int|
                        0 <= j < moves@.len() ==> {
                            let mv = #[trigger] moves@[j];
                            &&& mv.name == old(self)@[original][j]
                            &&& mv.from == original
                            &&& mv.to == new_id
                            &&& mv.from_hex@ == original_hex@
                            &&& mv.to_hex@ == new_hex@
                            &&& mv.wf()
                        }
                })
                &&& (!(moved && old(self)@.contains_key(original)) ==> moves@.len() == 0)
            }),
    {
        let ghost f = |v: Vec<String>| v@;
        let is_last: bool = match current_op {
            Some(c) => c == total_ops - 1,
            None => false,
        };
        let mut moves: Vec<RetargetedBranch> = Vec::new();
        if is_last {
            return moves;
        }
        let names: Vec<String> = match self.map.remove(&original) {
            Some(v) => v,
            None => {
                proof {
                    assert(self.map@.map_values(f) =~= old(self)@);
                }
                return moves;
            },
        };
        proof {
            assert(self.map@.map_values(f) =~= old(self)@.remove(original));
        }
        let n: usize = names.len();
        let mut j: usize = 0;
        while j < n
            invariant
                n == names@.len(),
                j <= n,
                moves@.len() == j,
                original_hex@.len() <= usize::MAX,
                vstd::utf8::is_ascii_chars(original_hex@),
                new_hex@.len() <= usize::MAX,
                vstd::utf8::is_ascii_chars(new_hex@),
                forall|k: int|
                    0 <= k < j ==> {
                        let mv = #[trigger] moves@[k];
                        &&& mv.name == names@[k]
                        &&& mv.from == original
                        &&& mv.to == new_id
                        &&& mv.from_hex@ == original_hex@
                        &&& mv.to_hex@ == new_hex@
                        &&& mv.wf()
                    },
            decreases n - j,
        {
            let mv = RetargetedBranch {
                name: names[j].clone(),
                from: original,
                from_hex: original_hex.to_owned(),
                to: new_id,
                to_hex: new_hex.to_owned(),
            };
            moves.push(mv);
            j += 1;
        }
        moves
    }

}

/// Law: a branch pointing at a commit that is never rewritten is never
/// moved.  Whatever sequence of retarget calls a rewrite performs, a commit
/// identity that is not among the rewritten originals keeps exactly the
/// branches it started with.
pub proof fn lemma_retarget_preserves_unrelated(
    m: Map<u64, Seq<String>>,
    ops: Seq<(u64, bool)>,
    t: u64,
)
    requires
        forall|i: int| 0 <= i < ops.len() ==> (#[trigger] ops[i]).0 != t,
    ensures
        spec_retarget_all(m, ops).contains_key(t) == m.contains_key(t),
        m.contains_key(t) ==> spec_retarget_all(m, ops)[t] == m[t],
    decreases ops.len(),
{
    if ops.len() > 0 {
        lemma_retarget_preserves_unrelated(m, ops.drop_last(), t);
    }
}

/// Law: retargeting is idempotent.  Once a commit's branches have been
/// moved, a later retarget from the same original identity finds nothing
/// and changes nothing.
pub proof fn lemma_retarget_idempotent(
    m: Map<u64, Seq<String>>,
    original: u64,
    moved_again: bool,
)
    ensures
        spec_retarget(spec_retarget(m, original, true), original, moved_again) == spec_retarget(
            m,
            original,
            true,
        ),
{
    assert(spec_retarget(spec_retarget(m, original, true), original, moved_again) =~= spec_retarget(
        m,
        original,
        true,
    ));
}

/// The single-name display map used by the selection list: branch names
/// keyed by target commit, later entries winning on a shared target.
pub open spec fn spec_display_names(entries: Seq<BranchEntry>) -> Map<u64, String>
    decreases entries.len(),
{
    if entries.len() == 0 {
        Map::empty()
    } else {
        let m = spec_display_names(entries.drop_last());
        let e = entries.last();
        if e.target is Some && e.name is Some {
            m.insert(e.target.unwrap(), e.name.unwrap())
        } else {
            m
        }
    }
}

/// Build the display map from the enumerated branches (here remote branches
/// are included, and an unnamed or unresolvable branch is simply skipped:
/// nothing needs to be reported about it).
pub fn display_branch_names(entries: &Vec<BranchEntry>) -> (m: HashMap<u64, String>)
    ensures
        m@ == spec_display_names(entries@),
{
    let mut map: HashMap<u64, String> = HashMap::new();
    let n: usize = entries.len();
    let mut i: usize = 0;
    proof {
        assert(map@ =~= spec_display_names(entries@.take(0)));
    }
    while i < n
        invariant
            n == entries@.len(),
            i <= n,
            map@ == spec_display_names(entries@.take(i as int)),
        decreases n - i,
    {
        let e = &entries[i];
        match (&e.target, &e.name) {
            (Some(t), Some(name)) => {
                map.insert(*t, name.clone());
            },
            _ => {},
        }
        proof {
            assert(entries@.take(i + 1).drop_last() =~= entries@.take(i as int));
            assert(entries@.take(i + 1).last() == entries@[i as int]);
            assert(map@ =~= spec_display_names(entries@.take(i + 1)));
        }
        i += 1;
    }
    proof {
        assert(entries@.take(n as int) =~= entries@);
    }
    map
}

} // verus!
