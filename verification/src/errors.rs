//! The failure taxonomy of the tool.
//!
//! Every failure carries (or is) a user-facing message.  A `Declined`
//! failure deliberately has an empty message: it means the user said no to a
//! confirmation, the process should exit non-zero but print nothing.  Every
//! other failure has a non-empty message.

use vstd::prelude::*;
use vstd::string::StringExecFns;
use crate::rebaser::StepKind;

verus! {

#[derive(Debug)]
pub enum FixupError {
    /// The head already sits on the boundary branch itself: there is no
    /// feature branch to fix up.
    NoDivergence { branch: String },
    /// The walk from the head produced no commits before the boundary.
    EmptyRange { head: String, boundary: String },
    /// The rewrite primitive yielded no first step.
    EmptyRebase,
    /// No commit summary in the searched range contains the pattern.
    PatternNotFound { first: String, last: String },
    /// Neither staged nor working-tree changes exist.
    NothingToAmend,
    /// The user declined a confirmation: exit quietly.
    Declined,
    /// The user cancelled an interactive selection.
    InteractionCancelled,
    /// A rewrite step had a kind other than plain replay.
    UnsupportedRewriteOperation { kind: StepKind },
    /// An explicitly named upstream ref does not exist.
    RefNotFound { name: String },
    /// A branch name is not valid UTF-8, so it cannot be reported.
    NameEncodingError,
    /// The selected commit has no parent to rebase onto.
    NoParents { commit: String },
    /// Any other underlying repository failure, with the stage at which it
    /// occurred.
    Stage { stage: String, detail: String },
}

impl FixupError {
    /// The exact user-facing message of each failure.
    pub open spec fn spec_message(self) -> Seq<char> {
        match self {
            FixupError::NoDivergence { branch } => (
            "HEAD is already pointing at a common upstream branch\nIf you don't create branches for your work consider setting upstream to a remote ref:\n\n    git config instafix.default-upstream-branch origin/"@
                + branch@),
            FixupError::EmptyRange { head, boundary } => (
            "No commits between "@ + head@ + " and "@ + boundary@),
            FixupError::EmptyRebase => "Unable to start rebase: no first step in rebase"@,
            FixupError::PatternNotFound { first, last } => (
            "No commit contains the pattern in its summary between "@ + first@ + ".."@ + last@),
            FixupError::NothingToAmend => (
            "Nothing staged and no tracked files have any changes"@),
            FixupError::Declined => ""@,
            FixupError::InteractionCancelled => "selection cancelled"@,
            FixupError::UnsupportedRewriteOperation { kind } => (
            "Unable to handle "@ + kind.spec_name() + " rebase operation"@),
            FixupError::RefNotFound { name } => ("could not find ref '"@ + name@ + "'"@),
            FixupError::NameEncodingError => "branch should have a name"@,
            FixupError::NoParents { commit } => ("Commit '"@ + commit@ + "' has no parents"@),
            FixupError::Stage { stage, detail } => (stage@ + ": "@ + detail@),
        }
    }

    /// Render the message.  It is empty exactly for a declined confirmation,
    /// which callers must treat as "exit non-zero, print nothing".
    pub fn message(&self) -> (m: String)
        ensures
            m@ == self.spec_message(),
            m@.len() == 0 <==> self is Declined,
    {
        match self {
            FixupError::NoDivergence { branch } => {
                proof {
                    reveal_strlit(
                        "HEAD is already pointing at a common upstream branch\nIf you don't create branches for your work consider setting upstream to a remote ref:\n\n    git config instafix.default-upstream-branch origin/",
                    );
                }
                let mut m =
                "HEAD is already pointing at a common upstream branch\nIf you don't create branches for your work consider setting upstream to a remote ref:\n\n    git config instafix.default-upstream-branch origin/".to_owned();
                m.append(branch.as_str());
                assert(m@ =~= self.spec_message());
                m
            },
            FixupError::EmptyRange { head, boundary } => {
                proof {
                    reveal_strlit("No commits between ");
                }
                let mut m = "No commits between ".to_owned();
                m.append(head.as_str());
                m.append(" and ");
                m.append(boundary.as_str());
                assert(m@ =~= self.spec_message());
                m
            },
            FixupError::EmptyRebase => {
                proof {
                    reveal_strlit("Unable to start rebase: no first step in rebase");
                }
                "Unable to start rebase: no first step in rebase".to_owned()
            },
            FixupError::PatternNotFound { first, last } => {
                proof {
                    reveal_strlit("No commit contains the pattern in its summary between ");
                }
                let mut m = "No commit contains the pattern in its summary between ".to_owned();
                m.append(first.as_str());
                m.append("..");
                m.append(last.as_str());
                assert(m@ =~= self.spec_message());
                m
            },
            FixupError::NothingToAmend => {
                proof {
                    reveal_strlit("Nothing staged and no tracked files have any changes");
                }
                "Nothing staged and no tracked files have any changes".to_owned()
            },
            FixupError::Declined => {
                proof {
                    reveal_strlit("");
                }
                let m = String::new();
                assert(m@ =~= self.spec_message());
                m
            },
            FixupError::InteractionCancelled => {
                proof {
                    reveal_strlit("selection cancelled");
                }
                "selection cancelled".to_owned()
            },
            FixupError::UnsupportedRewriteOperation { kind } => {
                proof {
                    reveal_strlit("Unable to handle ");
                }
                let mut m = "Unable to handle ".to_owned();
                m.append(kind.name());
                m.append(" rebase operation");
                assert(m@ =~= self.spec_message());
                m
            },
            FixupError::RefNotFound { name } => {
                proof {
                    reveal_strlit("could not find ref '");
                }
                let mut m = "could not find ref '".to_owned();
                m.append(name.as_str());
                m.append("'");
                assert(m@ =~= self.spec_message());
                m
            },
            FixupError::NameEncodingError => {
                proof {
                    reveal_strlit("branch should have a name");
                }
                "branch should have a name".to_owned()
            },
            FixupError::NoParents { commit } => {
                proof {
                    reveal_strlit("Commit '");
                }
                let mut m = "Commit '".to_owned();
                m.append(commit.as_str());
                m.append("' has no parents");
                assert(m@ =~= self.spec_message());
                m
            },
            FixupError::Stage { stage, detail } => {
                proof {
                    reveal_strlit(": ");
                }
                let mut m = stage.clone();
                m.append(": ");
                m.append(detail.as_str());
                assert(m@ =~= self.spec_message());
                m
            },
        }
    }

    /// A failure that should print nothing: the user's own "no".
    pub fn is_quiet(&self) -> (r: bool)
        ensures
            r == (self is Declined),
    {
        match self {
            FixupError::Declined => true,
            _ => false,
        }
    }
}

} // verus!
