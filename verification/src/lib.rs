//! Verified core of a fixup-and-propagate rebase tool.
//!
//! The library models the decision logic of the tool: which commit of the
//! current branch to amend, which changes form the amendment, how every
//! rewritten commit is replayed, and which branch refs must move to the
//! rewritten identities.  The repository itself (object store, refs, index,
//! working tree) and the terminal are external collaborators: an unverified
//! driver performs their primitive operations and feeds the results back into
//! the functions of this crate as plain values.

pub mod boundary;
pub mod branch_index;
pub mod commits;
pub mod config;
pub mod errors;
pub mod patcher;
pub mod rebaser;
pub mod selector;
pub mod text;
