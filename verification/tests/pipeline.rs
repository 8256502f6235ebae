use edfp::apply::{apply_init, apply_step, ApplyStatus};
use edfp::builder::{build_changes, BuildError};
use edfp::gate::response_approves;
use edfp::lines::split_lines;
use edfp::model::{parse_lines, Change, Operation};
use edfp::report::{describe_changes, describe_modifying_changes, filter_removals, filter_renamings};

fn change(path: &str, operation: Operation) -> Change {
    Change { path: String::from(path), operation }
}

fn rename_to(path: &str) -> Operation {
    Operation::Rename { new_path: String::from(path) }
}

// Classification of (original, edited) line pairs.

#[test]
fn classify_unchanged_is_noop() {
    let c = parse_lines((String::from("a.txt"), String::from("a.txt")));
    assert_eq!(c.path, "a.txt");
    assert!(matches!(c.operation, Operation::NoOp));
}

#[test]
fn classify_emptied_is_remove() {
    let c = parse_lines((String::from("a.txt"), String::new()));
    assert_eq!(c.path, "a.txt");
    assert!(matches!(c.operation, Operation::Remove));
}

#[test]
fn classify_edited_is_rename() {
    let c = parse_lines((String::from("a.txt"), String::from("b.txt")));
    assert_eq!(c.path, "a.txt");
    match c.operation {
        Operation::Rename { new_path } => assert_eq!(new_path, "b.txt"),
        _ => panic!("expected a rename"),
    }
}

#[test]
fn classify_empty_unchanged_is_noop_not_remove() {
    let c = parse_lines((String::new(), String::new()));
    assert_eq!(c.path, "");
    assert!(matches!(c.operation, Operation::NoOp));
}

#[test]
fn classify_empty_original_edited_is_rename() {
    let c = parse_lines((String::new(), String::from("x")));
    match c.operation {
        Operation::Rename { new_path } => assert_eq!(new_path, "x"),
        _ => panic!("expected a rename"),
    }
}

// Building a change sequence from two line lists.

#[test]
fn build_equal_lengths_is_aligned() {
    let given = vec![String::from("a"), String::from("b"), String::from("c")];
    let edited = vec![String::from("a"), String::new(), String::from("d")];
    let cs = build_changes(&given, &edited).unwrap();
    assert_eq!(cs.len(), 3);
    assert_eq!(cs[0].path, "a");
    assert!(matches!(cs[0].operation, Operation::NoOp));
    assert_eq!(cs[1].path, "b");
    assert!(matches!(cs[1].operation, Operation::Remove));
    assert_eq!(cs[2].path, "c");
    match &cs[2].operation {
        Operation::Rename { new_path } => assert_eq!(new_path, "d"),
        _ => panic!("expected a rename"),
    }
}

#[test]
fn build_empty_lists_is_empty() {
    let cs = build_changes(&Vec::new(), &Vec::new()).unwrap();
    assert_eq!(cs.len(), 0);
}

#[test]
fn build_unequal_lengths_is_structural_mismatch() {
    let given = vec![String::from("a"), String::from("b")];
    let edited = vec![String::from("a")];
    let r = build_changes(&given, &edited);
    assert_eq!(r.unwrap_err(), BuildError::StructuralMismatch);
    let r = build_changes(&Vec::new(), &vec![String::from("a")]);
    assert_eq!(r.unwrap_err(), BuildError::StructuralMismatch);
}

// The reporter.

#[test]
fn describe_only_noops_is_no_changes() {
    let cs = vec![change("a", Operation::NoOp), change("b", Operation::NoOp)];
    let (out, actionable) = describe_changes(&cs, String::new());
    assert!(!actionable);
    assert_eq!(out, "No changes\n");
}

#[test]
fn describe_empty_sequence_is_no_changes() {
    let (out, actionable) = describe_changes(&Vec::new(), String::new());
    assert!(!actionable);
    assert_eq!(out, "No changes\n");
}

#[test]
fn describe_renders_each_group_once_in_order() {
    let cs = vec![
        change("keep", Operation::NoOp),
        change("gone1", Operation::Remove),
        change("from1", rename_to("to1")),
        change("gone2", Operation::Remove),
        change("from2", rename_to("to2")),
    ];
    let (out, actionable) = describe_changes(&cs, String::new());
    assert!(actionable);
    assert_eq!(
        out,
        "DELETE the following files:\n\n\tgone1\n\tgone2\n\n\
         RENAME the following files:\n\n\tfrom1 → to1\n\tfrom2 → to2\n\n"
    );
}

#[test]
fn describe_single_remove_has_no_rename_group() {
    let cs = vec![change("gone", Operation::Remove)];
    let (out, actionable) = describe_changes(&cs, String::new());
    assert!(actionable);
    assert_eq!(out, "DELETE the following files:\n\n\tgone\n\n");
}

#[test]
fn describe_appends_to_given_output() {
    let cs = vec![change("a", Operation::NoOp)];
    let (out, _) = describe_changes(&cs, String::from("before|"));
    assert_eq!(out, "before|No changes\n");
}

#[test]
fn describe_group_renders_header_lines_and_separator() {
    let cs = vec![change("gone", Operation::Remove)];
    let out = describe_modifying_changes("HEADER", &cs, String::new());
    assert_eq!(out, "HEADER\n\tgone\n\n");
}

#[test]
fn describe_group_of_nothing_renders_nothing() {
    let out = describe_modifying_changes("HEADER", &Vec::new(), String::from("kept"));
    assert_eq!(out, "kept");
}

#[test]
fn filters_partition_by_kind() {
    let cs = vec![
        change("keep", Operation::NoOp),
        change("gone", Operation::Remove),
        change("from", rename_to("to")),
    ];
    let removals = filter_removals(&cs);
    assert_eq!(removals.len(), 1);
    assert_eq!(removals[0].path, "gone");
    let renamings = filter_renamings(&cs);
    assert_eq!(renamings.len(), 1);
    assert_eq!(renamings[0].path, "from");
}

// The confirmation gate.

#[test]
fn gate_accepts_affirmative_responses() {
    assert!(response_approves("y"));
    assert!(response_approves("Y"));
    assert!(response_approves("yes"));
    assert!(response_approves("y\n"));
    assert!(response_approves("  yes please\n"));
}

#[test]
fn gate_rejects_everything_else() {
    assert!(!response_approves("n"));
    assert!(!response_approves(""));
    assert!(!response_approves("maybe"));
    assert!(!response_approves("\n"));
    assert!(!response_approves("   "));
    assert!(!response_approves("no y"));
}

// The applier's sequencing: original order, halting on the first failure.

#[test]
fn apply_halts_on_first_failure() {
    // Remove(A), Remove(B), Remove(C) where B fails: A is attempted and
    // succeeds, the run fails at B's index, and C is never asked for — the
    // failed status is terminal and points at the failing change.
    let s = apply_init(3);
    assert_eq!(s, ApplyStatus::InProgress { next: 0 });
    let s = apply_step(s, 3, true);
    assert_eq!(s, ApplyStatus::InProgress { next: 1 });
    let s = apply_step(s, 3, false);
    assert_eq!(s, ApplyStatus::Failed { at: 1 });
}

#[test]
fn apply_walks_all_changes_in_order_on_success() {
    let mut s = apply_init(3);
    for k in 0..3usize {
        assert_eq!(s, ApplyStatus::InProgress { next: k });
        s = apply_step(s, 3, true);
    }
    assert_eq!(s, ApplyStatus::Done);
}

#[test]
fn apply_of_nothing_is_done() {
    assert_eq!(apply_init(0), ApplyStatus::Done);
}

// Splitting text into lines.

#[test]
fn split_plain_lines() {
    let r = split_lines("a\nb\nc");
    assert_eq!(r, vec!["a", "b", "c"]);
}

#[test]
fn split_final_newline_opens_no_line() {
    let r = split_lines("a\nb\n");
    assert_eq!(r, vec!["a", "b"]);
}

#[test]
fn split_keeps_interior_empty_lines() {
    let r = split_lines("a\n\nb\n");
    assert_eq!(r, vec!["a", "", "b"]);
}

#[test]
fn split_strips_carriage_return_before_newline_only() {
    let r = split_lines("a\r\nb\r");
    assert_eq!(r, vec!["a", "b\r"]);
}

#[test]
fn split_empty_text_has_no_lines() {
    let r = split_lines("");
    assert!(r.is_empty());
}

// End-to-end over the pure pipeline.

#[test]
fn end_to_end_mixed_edit() {
    let given = split_lines("foo.txt\nbar.txt\nbaz.txt\n");
    let edited = split_lines("foo.txt\n\nqux.txt\n");
    let cs = build_changes(&given, &edited).unwrap();
    assert_eq!(cs.len(), 3);
    assert!(matches!(cs[0].operation, Operation::NoOp));
    assert_eq!(cs[0].path, "foo.txt");
    assert!(matches!(cs[1].operation, Operation::Remove));
    assert_eq!(cs[1].path, "bar.txt");
    match &cs[2].operation {
        Operation::Rename { new_path } => {
            assert_eq!(cs[2].path, "baz.txt");
            assert_eq!(new_path, "qux.txt");
        },
        _ => panic!("expected a rename"),
    }
    let (out, actionable) = describe_changes(&cs, String::new());
    assert!(actionable);
    assert_eq!(
        out,
        "DELETE the following files:\n\n\tbar.txt\n\n\
         RENAME the following files:\n\n\tbaz.txt → qux.txt\n\n"
    );
    assert!(response_approves("y\n"));
    let mut s = apply_init(cs.len());
    while let ApplyStatus::InProgress { next } = s {
        // each file-system effect succeeds in this scenario
        s = apply_step(s, cs.len(), true);
        assert!(next < 3);
    }
    assert_eq!(s, ApplyStatus::Done);
}

#[test]
fn end_to_end_untouched_buffer() {
    let given = split_lines("foo.txt\nbar.txt\n");
    let edited = split_lines("foo.txt\nbar.txt\n");
    let cs = build_changes(&given, &edited).unwrap();
    let (out, actionable) = describe_changes(&cs, String::new());
    assert_eq!(out, "No changes\n");
    // with nothing actionable, no confirmation is asked and nothing is applied
    assert!(!actionable);
}

#[test]
fn change_render_shows_direction() {
    assert_eq!(change("a", Operation::NoOp).render(), "");
    assert_eq!(change("a", Operation::Remove).render(), "a");
    assert_eq!(change("a", rename_to("b")).render(), "a → b");
}
