//! Tests of the commit range, pattern selection, the selection list, and
//! the display helpers.

use std::collections::HashMap;

use git_instafix::branch_index::{display_branch_names, BranchEntry};
use git_instafix::commits::{commit_display, commit_id_and_summary, first_parent, format_ref, CommitInfo};
use git_instafix::errors::FixupError;
use git_instafix::selector::{
    check_nonempty_range, compute_range, select_by_pattern, selection_items, selection_prompt,
};
use git_instafix::text::{abbreviate, str_contains, str_ends_with, str_eq};

fn hex(n: u64) -> String {
    format!("{:040x}", n)
}

fn commit(id: u64, summary: &str) -> CommitInfo {
    CommitInfo {
        id,
        id_hex: hex(id),
        summary: Some(summary.to_string()),
        message: Some(summary.to_string()),
        parent_ids: if id > 1 { vec![id - 1] } else { vec![] },
    }
}

fn walk() -> Vec<CommitInfo> {
    // Newest first: e, d, c, then the boundary a.
    vec![commit(5, "e"), commit(4, "d"), commit(3, "c"), commit(1, "a")]
}

/// The range stops exclusively at the boundary and never exceeds the
/// maximum count.
#[test]
fn range_excludes_boundary_and_respects_cap() {
    let r = compute_range(walk(), Some(1), 15);
    let ids: Vec<u64> = r.iter().map(|c| c.id).collect();
    assert_eq!(ids, vec![5, 4, 3]);

    let r = compute_range(walk(), Some(1), 2);
    let ids: Vec<u64> = r.iter().map(|c| c.id).collect();
    assert_eq!(ids, vec![5, 4]);

    let r = compute_range(walk(), None, 15);
    assert_eq!(r.len(), 4);

    // Tip equal to the boundary: an empty range.
    let r = compute_range(walk(), Some(5), 15);
    assert!(r.is_empty());

    let r = compute_range(walk(), Some(1), 0);
    assert!(r.is_empty());
}

/// The first commit whose summary contains the pattern wins,
/// deterministically.
#[test]
fn pattern_picks_first_match() {
    let commits = vec![commit(5, "add tests"), commit(4, "fix parser"), commit(3, "fix lexer")];
    assert_eq!(select_by_pattern(&commits, "fix").ok(), Some(1));
    assert_eq!(select_by_pattern(&commits, "lexer").ok(), Some(2));
    assert_eq!(select_by_pattern(&commits, "add").ok(), Some(0));
}

/// A pattern that matches nothing fails, naming the two ends of the
/// searched range.
#[test]
fn pattern_not_found_names_range_ends() {
    let commits = vec![commit(5, "e"), commit(4, "d"), commit(3, "c")];
    match select_by_pattern(&commits, "b") {
        Err(e) => {
            let expected = format!(
                "No commit contains the pattern in its summary between {} (c)..{} (e)",
                &hex(3)[..10],
                &hex(5)[..10],
            );
            assert_eq!(e.message(), expected);
        }
        Ok(_) => panic!("expected the pattern to be missing"),
    }
}

/// An empty range is refused, naming the head and the boundary.
#[test]
fn empty_range_names_head_and_boundary() {
    let head_hex = hex(5);
    let r = check_nonempty_range(0, &Some("changes".to_string()), &head_hex, &None);
    match r {
        Err(e) => {
            let expected =
                format!("No commits between changes ({}) and <no upstream>", &head_hex[..10]);
            assert_eq!(e.message(), expected);
        }
        Ok(()) => panic!("expected an empty-range failure"),
    }
    assert!(check_nonempty_range(3, &Some("changes".to_string()), &head_hex, &None).is_ok());

    let boundary_hex = hex(1);
    match check_nonempty_range(0, &None, &head_hex, &Some(boundary_hex.clone())) {
        Err(e) => {
            let expected =
                format!("No commits between <unnamed> ({}) and {}", &head_hex[..10], boundary_hex);
            assert_eq!(e.message(), expected);
        }
        Ok(()) => panic!("expected an empty-range failure"),
    }
}

/// The selection list shows abbreviated identities, branch names on every
/// entry but the tip, and summaries.
#[test]
fn selection_list_entries() {
    let commits = vec![commit(5, "e"), commit(4, "d"), commit(3, "c")];
    let entries = vec![
        BranchEntry { name: Some("changes".to_string()), target: Some(5) },
        BranchEntry { name: Some("intermediate".to_string()), target: Some(4) },
    ];
    let names: HashMap<u64, String> = display_branch_names(&entries);
    let items = selection_items(&commits, &names);
    assert_eq!(items.len(), 3);

    assert_eq!(items[0].id_abbrev, &hex(5)[..10]);
    // The tip's own branch is not repeated on the first entry.
    assert_eq!(items[0].branch_label, "");
    assert_eq!(items[0].summary, "e");

    assert_eq!(items[1].branch_label, "(intermediate) ");
    assert_eq!(items[1].summary, "d");

    assert_eq!(items[2].branch_label, "");
    assert_eq!(items[2].summary, "c");
}

/// In the display map a later branch wins a shared target; unnamed or
/// unresolvable entries are skipped.
#[test]
fn display_names_last_wins() {
    let entries = vec![
        BranchEntry { name: Some("old".to_string()), target: Some(4) },
        BranchEntry { name: None, target: Some(9) },
        BranchEntry { name: Some("skip".to_string()), target: None },
        BranchEntry { name: Some("new".to_string()), target: Some(4) },
    ];
    let names = display_branch_names(&entries);
    assert_eq!(names.get(&4).map(|s| s.as_str()), Some("new"));
    assert!(!names.contains_key(&9));
    assert_eq!(names.len(), 1);
}

#[test]
fn selection_prompt_notes_missing_upstream() {
    assert_eq!(selection_prompt(true), "Select a commit to amend:");
    assert_eq!(selection_prompt(false), "Select a commit to amend (no upstream for HEAD):");
}

#[test]
fn commit_display_forms() {
    let c = commit(4, "d");
    assert_eq!(commit_display(&c), format!("{} d", &hex(4)[..10]));
    let mut n = commit(4, "d");
    n.summary = None;
    assert_eq!(commit_display(&n), format!("{} <no summary>", &hex(4)[..10]));
}

#[test]
fn id_and_summary_tolerates_out_of_range() {
    let commits = vec![commit(5, "e"), commit(4, "d")];
    assert_eq!(commit_id_and_summary(&commits, 1), format!("{} (d)", &hex(4)[..10]));
    assert_eq!(commit_id_and_summary(&commits, 7), "<unknown>");
}

#[test]
fn format_ref_forms() {
    let h = hex(5);
    assert_eq!(format_ref(&Some("main".to_string()), &h), format!("main ({})", &h[..10]));
    assert_eq!(format_ref(&None, &h), format!("<unnamed> ({})", &h[..10]));
}

/// A parentless commit cannot be fixed up.
#[test]
fn parentless_commit_is_refused() {
    let root = commit(1, "a");
    match first_parent(&root) {
        Err(e) => assert_eq!(e.message(), format!("Commit '{} a' has no parents", &hex(1)[..10])),
        Ok(_) => panic!("expected a no-parents failure"),
    }
    assert_eq!(first_parent(&commit(4, "d")).ok(), Some(3));
}

#[test]
fn text_utilities() {
    assert!(str_contains("fix the parser", "the"));
    assert!(str_contains("fix the parser", ""));
    assert!(str_contains("fix the parser", "parser"));
    assert!(!str_contains("fix the parser", "lexer"));
    assert!(!str_contains("ab", "abc"));

    assert!(str_ends_with("git-instasquash", "squash"));
    assert!(!str_ends_with("git-instafix", "squash"));
    assert!(str_ends_with("squash", "squash"));
    assert!(!str_ends_with("ash", "squash"));

    assert!(str_eq("same", "same"));
    assert!(!str_eq("same", "sane"));
    assert!(!str_eq("same", "sames"));

    assert_eq!(abbreviate("0123456789abcdef", 10), "0123456789");
    assert_eq!(abbreviate("abc", 10), "abc");
}

/// An interaction failure and the remaining error forms render their
/// messages; only the user's "no" is silent.
#[test]
fn remaining_error_messages() {
    assert_eq!(FixupError::InteractionCancelled.message(), "selection cancelled");
    assert_eq!(
        FixupError::RefNotFound { name: "origin/missing".to_string() }.message(),
        "could not find ref 'origin/missing'"
    );
    assert_eq!(FixupError::NameEncodingError.message(), "branch should have a name");
    assert_eq!(
        FixupError::Stage { stage: "starting rebase".to_string(), detail: "odb fault".to_string() }
            .message(),
        "starting rebase: odb fault"
    );
    assert!(!FixupError::InteractionCancelled.is_quiet());
}
