//! The upstream/boundary resolver: which ref bounds the history walk, and
//! the degenerate case where the head already sits on that boundary.

use vstd::prelude::*;
use crate::errors::FixupError;
use crate::text::str_eq;

verus! {

/// The conventional trunk branch names tried, in priority order, when no
/// upstream is named explicitly.
pub open spec fn spec_trunk_names() -> Seq<Seq<char>> {
    seq!["main"@, "master"@, "develop"@, "trunk"@]
}

/// The conventional trunk branch names, in priority order.
pub fn trunk_names() -> (v: Vec<&'static str>)
    ensures
        v@.len() == spec_trunk_names().len(),
        forall|i: int| 0 <= i < v@.len() ==> (#[trigger] v@[i])@ == spec_trunk_names()[i],
{
    let mut v: Vec<&'static str> = Vec::new();
    v.push("main");
    v.push("master");
    v.push("develop");
    v.push("trunk");
    proof {
        assert forall|i: int| 0 <= i < v@.len() implies (#[trigger] v@[i])@
            == spec_trunk_names()[i] by {
            if i == 0 {
            } else if i == 1 {
            } else if i == 2 {
            } else {
                assert(i == 3);
            }
        }
    }
    v
}

/// Where the boundary comes from, by the fixed priority order: an
/// explicitly named upstream wins, then the first conventional trunk branch
/// that exists, then the head branch's configured tracking upstream; with
/// none of these the walk is unbounded.
pub enum BoundarySource {
    Explicit { name: String },
    Trunk { index: usize },
    TrackingUpstream,
    Unbounded,
}

/// Decide where the boundary comes from.  `trunk_exists[i]` says whether
/// the i-th conventional trunk name resolves to a local branch.
pub fn choose_boundary_source(
    explicit: &Option<String>,
    trunk_exists: &Vec<bool>,
    has_tracking: bool,
) -> (c: BoundarySource)
    requires
        trunk_exists@.len() == spec_trunk_names().len(),
    ensures
        (*explicit) matches Some(n) ==> (c matches BoundarySource::Explicit { name } && name@
            == n@),
        *explicit is None && (exists|i: int|
            0 <= i < trunk_exists@.len() && trunk_exists@[i]) ==> (c
            matches BoundarySource::Trunk { index } && {
            &&& index < trunk_exists@.len()
            &&& trunk_exists@[index as int]
            &&& forall|j: int| 0 <= j < index ==> !trunk_exists@[j]
        }),
        *explicit is None && !(exists|i: int| 0 <= i < trunk_exists@.len() && trunk_exists@[i])
            && has_tracking ==> c is TrackingUpstream,
        *explicit is None && !(exists|i: int| 0 <= i < trunk_exists@.len() && trunk_exists@[i])
            && !has_tracking ==> c is Unbounded,
{
    match explicit {
        Some(n) => BoundarySource::Explicit { name: n.clone() },
        None => {
            let len: usize = trunk_exists.len();
            let mut i: usize = 0;
            while i < len
                invariant
                    *explicit is None,
                    len == trunk_exists@.len(),
                    i <= len,
                    forall|j: int| 0 <= j < i ==> !trunk_exists@[j],
                decreases len - i,
            {
                if trunk_exists[i] {
                    return BoundarySource::Trunk { index: i };
                }
                i += 1;
            }
            if has_tracking {
                BoundarySource::TrackingUpstream
            } else {
                BoundarySource::Unbounded
            }
        },
    }
}

/// An explicitly named upstream must exist: the driver reports whether the
/// name resolved, and a missing ref is the caller's error.
pub fn require_ref_found(name: &str, found: bool) -> (r: Result<(), FixupError>)
    ensures
        r is Ok <==> found,
        r matches Err(e) ==> (e matches FixupError::RefNotFound { name: n } && n@ == name@),
{
    if found {
        Ok(())
    } else {
        Err(FixupError::RefNotFound { name: name.to_owned() })
    }
}

/// Accept the merge-base of the head tip and the boundary candidate as the
/// actual boundary — unless the merge-base is the head tip itself and the
/// candidate branch is literally the current branch, in which case the head
/// already sits on the trunk and there is nothing to fix up.
pub fn confirm_boundary(
    merge_base: u64,
    head_tip: u64,
    boundary_branch_name: &str,
    head_branch_name: &str,
) -> (r: Result<u64, FixupError>)
    ensures
        ({
            let degenerate = merge_base == head_tip && boundary_branch_name@
                == head_branch_name@;
            match r {
                Ok(b) => !degenerate && b == merge_base,
                Err(e) => degenerate && (e matches FixupError::NoDivergence { branch }
                    && branch@ == head_branch_name@),
            }
        }),
{
    if merge_base == head_tip && str_eq(boundary_branch_name, head_branch_name) {
        Err(FixupError::NoDivergence { branch: head_branch_name.to_owned() })
    } else {
        Ok(merge_base)
    }
}

} // verus!
