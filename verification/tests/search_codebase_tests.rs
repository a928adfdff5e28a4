use blocklist::permissions::{
    ActionPermission, AskUserQuestionPermission, BlocklistAIPermissions, ExecutionProfile,
    WriteToPtyPermission,
};
use blocklist::search_codebase::{
    codebase_unavailable_result, file_context_result, index_error_result,
    relevant_files_error_result, should_autoexecute_search, GetRelevantFilesError,
    SearchCodebaseFailureReason, SearchCodebaseResult,
};

fn failure<F>(result: SearchCodebaseResult<F>) -> (String, SearchCodebaseFailureReason) {
    match result {
        SearchCodebaseResult::Failed { message, reason } => (message, reason),
        SearchCodebaseResult::Success { .. } => panic!("expected a failure"),
    }
}

fn profile(read_files: ActionPermission) -> ExecutionProfile {
    ExecutionProfile {
        apply_code_diffs: ActionPermission::AgentDecides,
        read_files,
        execute_commands: ActionPermission::AgentDecides,
        write_to_pty: WriteToPtyPermission::AlwaysAsk,
        ask_user_question: AskUserQuestionPermission::AskExceptInAutoApprove,
        command_allowlist: Vec::new(),
        command_denylist: Vec::new(),
        directory_allowlist: Vec::new(),
    }
}

#[test]
fn read_files_answer_the_search() {
    match file_context_result::<u32>(Ok((vec![1, 2], vec![]))) {
        SearchCodebaseResult::Success { files } => assert_eq!(files, vec![1, 2]),
        _ => panic!("expected success"),
    }
}

#[test]
fn missing_files_fail_the_search_by_name() {
    let (message, reason) = failure(file_context_result::<u32>(Ok((
        vec![1],
        vec!["a.rs".to_string(), "b/c.rs".to_string()],
    ))));
    assert_eq!(message, "These files do not exist: a.rs, b/c.rs");
    assert_eq!(reason, SearchCodebaseFailureReason::InvalidFilePaths);
    let (message, reason) = failure(file_context_result::<u32>(Err("disk gone".to_string())));
    assert_eq!(message, "disk gone");
    assert_eq!(reason, SearchCodebaseFailureReason::ClientError);
}

#[test]
fn each_index_failure_has_its_message() {
    assert_eq!(
        failure(relevant_files_error_result::<u32>()),
        (
            "The search failed. Try another way to locate the relevant files.".to_string(),
            SearchCodebaseFailureReason::GetRelevantFilesError
        )
    );
    assert_eq!(failure(codebase_unavailable_result::<u32>()).1, SearchCodebaseFailureReason::CodebaseNotIndexed);
    let (pending, reason) = failure(index_error_result::<u32>(GetRelevantFilesError::Pending));
    assert!(pending.starts_with("The current git repository is still being indexed"));
    assert_eq!(reason, SearchCodebaseFailureReason::CodebaseNotIndexed);
    assert_eq!(
        failure(index_error_result::<u32>(GetRelevantFilesError::Missing)).0,
        "The current directory isn't within a git repository, which is necessary to search for relevant files."
    );
    assert_eq!(
        failure(index_error_result::<u32>(GetRelevantFilesError::CreateFailed)).0,
        "Relevant file search in the current directory is not available"
    );
}

#[test]
fn searches_run_alone_when_the_repository_is_readable() {
    let permissions = BlocklistAIPermissions::new();
    let asks = profile(ActionPermission::AlwaysAsk);
    assert!(should_autoexecute_search(&permissions, 1, None, false, &asks));
    assert!(!should_autoexecute_search(&permissions, 1, Some("/repo".to_string()), false, &asks));
    assert!(should_autoexecute_search(&permissions, 1, Some("/repo".to_string()), true, &asks));
    let allows = profile(ActionPermission::AlwaysAllow);
    assert!(should_autoexecute_search(&permissions, 1, Some("/repo".to_string()), false, &allows));
}
