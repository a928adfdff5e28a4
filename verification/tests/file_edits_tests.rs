use blocklist::file_edits::{
    content_of, line_count, on_diff_view_event, save_errors_message, saved_diffs_result,
    should_autoexecute_file_edits, CodeDiffViewEvent, FileSaveError, RequestFileEditsResult,
    SavedAcceptedDiffs,
};
use blocklist::permissions::{
    ActionPermission, AskUserQuestionPermission, ExecutionProfile, WriteToPtyPermission,
};

fn saved(save_errors: Vec<FileSaveError>) -> SavedAcceptedDiffs {
    SavedAcceptedDiffs {
        unified_diff: "--- a\n+++ b\n".to_string(),
        lines_added: 3,
        lines_removed: 1,
        updated_files: vec![("src/a.rs".to_string(), false), ("src/b.rs".to_string(), true)],
        file_contents: vec![
            ("src/a.rs".to_string(), "old".to_string()),
            ("src/a.rs".to_string(), "fn a() {}\nfn b() {}\n".to_string()),
        ],
        deleted_files: vec!["src/gone.rs".to_string()],
        save_errors,
    }
}

#[test]
fn line_count_follows_str_lines() {
    assert_eq!(line_count(""), 0);
    assert_eq!(line_count("a"), 1);
    assert_eq!(line_count("a\n"), 1);
    assert_eq!(line_count("a\nb"), 2);
    assert_eq!(line_count("a\r\nb\r\n"), 2);
    assert_eq!(line_count("\n\n"), 2);
    for text in ["x\ny\n\nz", "\r\n", "one line"] {
        assert_eq!(line_count(text), text.lines().count());
    }
}

#[test]
fn the_last_editor_text_of_a_file_wins() {
    let contents = vec![
        ("a".to_string(), "first".to_string()),
        ("b".to_string(), "other".to_string()),
        ("a".to_string(), "second".to_string()),
    ];
    assert_eq!(content_of(&contents, "a"), "second");
    assert_eq!(content_of(&contents, "b"), "other");
    assert_eq!(content_of(&contents, "c"), "");
}

#[test]
fn failed_writes_are_reported_one_per_line() {
    let errors = vec![
        FileSaveError::IoError { path: "/tmp/x.rs".to_string(), error: "disk full".to_string() },
        FileSaveError::Other,
        FileSaveError::IoError { path: "q\"uote".to_string(), error: "denied".to_string() },
    ];
    assert_eq!(
        save_errors_message(&errors),
        "Failed to save file \"/tmp/x.rs\": disk full\nFailed to save file \"q\\\"uote\": denied"
    );
    assert_eq!(save_errors_message(&vec![FileSaveError::Other]), "");
}

#[test]
fn a_failed_save_answers_with_the_failure() {
    let result = saved_diffs_result(saved(vec![FileSaveError::IoError {
        path: "/tmp/x.rs".to_string(),
        error: "disk full".to_string(),
    }]));
    match result {
        RequestFileEditsResult::DiffApplicationFailed { error } => {
            assert_eq!(error, "Failed to save file \"/tmp/x.rs\": disk full")
        }
        _ => panic!("expected a failure"),
    }
}

#[test]
fn a_successful_save_answers_with_each_file() {
    match saved_diffs_result(saved(vec![])) {
        RequestFileEditsResult::Success { diff, updated_files, deleted_files, lines_added, lines_removed } => {
            assert_eq!(diff, "--- a\n+++ b\n");
            assert_eq!(deleted_files, vec!["src/gone.rs".to_string()]);
            assert_eq!((lines_added, lines_removed), (3, 1));
            assert_eq!(updated_files.len(), 2);
            assert_eq!(updated_files[0].file_name, "src/a.rs");
            assert!(!updated_files[0].was_edited_by_user);
            assert_eq!(updated_files[0].content, "fn a() {}\nfn b() {}\n");
            assert_eq!(updated_files[0].line_count, 2);
            assert_eq!(updated_files[1].file_name, "src/b.rs");
            assert!(updated_files[1].was_edited_by_user);
            assert_eq!(updated_files[1].content, "");
            assert_eq!(updated_files[1].line_count, 0);
        }
        _ => panic!("expected success"),
    }
}

#[test]
fn a_request_is_answered_once() {
    assert!(matches!(
        on_diff_view_event(true, CodeDiffViewEvent::Rejected),
        Some(RequestFileEditsResult::Cancelled)
    ));
    assert!(on_diff_view_event(false, CodeDiffViewEvent::Rejected).is_none());
    assert!(on_diff_view_event(true, CodeDiffViewEvent::Other).is_none());
    assert!(on_diff_view_event(false, CodeDiffViewEvent::SavedAcceptedDiffs(saved(vec![]))).is_none());
    assert!(matches!(
        on_diff_view_event(true, CodeDiffViewEvent::SavedAcceptedDiffs(saved(vec![]))),
        Some(RequestFileEditsResult::Success { .. })
    ));
}

#[test]
fn passive_diffs_are_never_applied_without_asking() {
    let mut profile = ExecutionProfile {
        apply_code_diffs: ActionPermission::AlwaysAllow,
        read_files: ActionPermission::AgentDecides,
        execute_commands: ActionPermission::AgentDecides,
        write_to_pty: WriteToPtyPermission::AlwaysAsk,
        ask_user_question: AskUserQuestionPermission::AskExceptInAutoApprove,
        command_allowlist: Vec::new(),
        command_denylist: Vec::new(),
        directory_allowlist: Vec::new(),
    };
    assert!(should_autoexecute_file_edits(Some(false), false, &profile));
    assert!(!should_autoexecute_file_edits(Some(true), true, &profile));
    assert!(!should_autoexecute_file_edits(None, true, &profile));
    profile.apply_code_diffs = ActionPermission::AlwaysAsk;
    assert!(!should_autoexecute_file_edits(Some(false), false, &profile));
    assert!(should_autoexecute_file_edits(Some(false), true, &profile));
}
