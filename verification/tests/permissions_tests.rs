use blocklist::permissions::{
    allow_read_files_for_directory, can_ask_user_question, can_autoexecute_command,
    can_write_files, can_write_to_pty, is_agent_mode_autonomy_allowed,
    set_always_allow_read_files, set_always_allow_write_to_pty,
    normalize_line_continuations, ActionPermission, AskUserQuestionPermission,
    BlocklistAIPermissions, CommandExecutionPermission, CommandExecutionPermissionAllowedReason,
    CommandExecutionPermissionDeniedReason, CommandPredicate, EscapeChar, ExecutionProfile,
    FileReadPermission, FileReadPermissionAllowedReason, FileReadPermissionDeniedReason,
    FileWritePermission, FileWritePermissionAllowedReason, FileWritePermissionDeniedReason,
    WriteToPtyPermission,
};

const CONVO: u128 = 42;

fn default_profile() -> ExecutionProfile {
    ExecutionProfile {
        apply_code_diffs: ActionPermission::AgentDecides,
        read_files: ActionPermission::AgentDecides,
        execute_commands: ActionPermission::AgentDecides,
        write_to_pty: WriteToPtyPermission::AlwaysAsk,
        ask_user_question: AskUserQuestionPermission::AskExceptInAutoApprove,
        command_allowlist: Vec::new(),
        command_denylist: Vec::new(),
        directory_allowlist: Vec::new(),
    }
}

fn regex(pattern: &str) -> CommandPredicate {
    CommandPredicate::new_regex(pattern).unwrap()
}

/// The single simple command a command line without operators splits into.
fn single(command: &str) -> Vec<String> {
    vec![command.to_string()]
}

#[test]
fn test_can_read_files_empty_paths() {
    let permissions = BlocklistAIPermissions::new();
    let result =
        permissions.can_read_files_with_conversation(CONVO, &vec![], false, &default_profile());
    assert!(result.is_allowed());
    assert!(matches!(
        result,
        FileReadPermission::Allowed(FileReadPermissionAllowedReason::ExplicitlyAllowlisted)
    ));
}

#[test]
fn test_can_read_files_profile_allowlist_interaction() {
    let permissions = BlocklistAIPermissions::new();
    let mut profile = default_profile();
    profile.read_files = ActionPermission::AlwaysAsk;
    profile.directory_allowlist.push("/profile/allowed".to_string());

    let result = permissions.can_read_files_with_conversation(
        CONVO,
        &vec!["/profile/allowed/file.txt".to_string()],
        false,
        &profile,
    );
    assert!(result.is_allowed());
    assert!(matches!(
        result,
        FileReadPermission::Allowed(FileReadPermissionAllowedReason::ExplicitlyAllowlisted)
    ));

    let result = permissions.can_read_files_with_conversation(
        CONVO,
        &vec!["/not/allowed/file.txt".to_string()],
        false,
        &profile,
    );
    assert!(!result.is_allowed());
    assert!(matches!(
        result,
        FileReadPermission::Denied(FileReadPermissionDeniedReason::AlwaysAskEnabled)
    ));
}

#[test]
fn test_can_write_files() {
    let mut profile = default_profile();

    profile.apply_code_diffs = ActionPermission::AgentDecides;
    let result = can_write_files(false, &profile);
    assert!(!result.is_allowed());
    assert!(
        matches!(
            result,
            FileWritePermission::Denied(FileWritePermissionDeniedReason::AgentDecided)
        ),
        "not allowed because AgentDecides right now just means ask"
    );

    profile.apply_code_diffs = ActionPermission::AlwaysAllow;
    let result = can_write_files(false, &profile);
    assert!(result.is_allowed());
    assert!(matches!(
        result,
        FileWritePermission::Allowed(FileWritePermissionAllowedReason::AutowriteSettingEnabled)
    ));

    profile.apply_code_diffs = ActionPermission::AlwaysAsk;
    let result = can_write_files(false, &profile);
    assert!(!result.is_allowed());
    assert!(matches!(
        result,
        FileWritePermission::Denied(FileWritePermissionDeniedReason::AlwaysAskEnabled)
    ));
}

#[test]
fn test_can_autoexecute_command_denylist_precedence() {
    let mut profile = default_profile();
    profile.command_denylist.push(regex("rm .*"));

    let result = can_autoexecute_command(&single("rm file.txt"), false, false, None, false, &profile);
    assert!(!result.is_allowed());
    assert!(matches!(
        result,
        CommandExecutionPermission::Denied(
            CommandExecutionPermissionDeniedReason::ExplicitlyDenylisted
        )
    ));
}

#[test]
fn test_can_autoexecute_command_allowlist_precedence() {
    let mut profile = default_profile();
    profile.execute_commands = ActionPermission::AlwaysAsk;
    profile.command_allowlist.push(regex("git .*"));

    let result = can_autoexecute_command(&single("git status"), false, false, None, false, &profile);
    assert!(result.is_allowed());
    assert!(matches!(
        result,
        CommandExecutionPermission::Allowed(
            CommandExecutionPermissionAllowedReason::ExplicitlyAllowlisted
        )
    ));
}

#[test]
fn test_can_autoexecute_command_denylist_beats_run_to_completion() {
    let mut profile = default_profile();
    profile.command_denylist.push(regex("rm .*"));

    // The conversation runs to completion, yet the denylist wins.
    let result =
        can_autoexecute_command(&single("rm important.txt"), false, false, None, true, &profile);
    assert!(!result.is_allowed());
    assert!(matches!(
        result,
        CommandExecutionPermission::Denied(
            CommandExecutionPermissionDeniedReason::ExplicitlyDenylisted
        )
    ));
}

#[test]
fn test_can_autoexecute_command_run_to_completion_allows_non_denylisted() {
    let profile = default_profile();
    let result =
        can_autoexecute_command(&single("echo hello"), false, true, Some(false), true, &profile);
    assert!(result.is_allowed());
    assert!(matches!(
        result,
        CommandExecutionPermission::Allowed(
            CommandExecutionPermissionAllowedReason::RunToCompletion
        )
    ));
}

#[test]
fn test_can_autoexecute_command_agent_decides_allows_not_risky() {
    let mut profile = default_profile();
    profile.execute_commands = ActionPermission::AgentDecides;

    let result =
        can_autoexecute_command(&single("make test"), false, false, Some(false), false, &profile);
    assert!(result.is_allowed());
    assert!(matches!(
        result,
        CommandExecutionPermission::Allowed(CommandExecutionPermissionAllowedReason::AgentDecided)
    ));
}

#[test]
fn test_can_write_to_pty() {
    let mut profile = default_profile();
    profile.write_to_pty = WriteToPtyPermission::AlwaysAllow;
    assert_eq!(can_write_to_pty(false, &profile), WriteToPtyPermission::AlwaysAllow);
}

#[test]
fn test_denylist_matches_multiline_commands() {
    let mut profile = default_profile();
    profile.command_denylist.push(regex("rm .*"));

    let result = can_autoexecute_command(&single("rm file.txt"), false, false, None, false, &profile);
    assert!(!result.is_allowed());
    assert!(matches!(
        result,
        CommandExecutionPermission::Denied(
            CommandExecutionPermissionDeniedReason::ExplicitlyDenylisted
        )
    ));

    let normalized = normalize_line_continuations(
        "rm file1.txt \\\nfile2.txt \\\nfile3.txt",
        EscapeChar::Backslash,
    );
    assert_eq!(normalized, "rm file1.txt  file2.txt  file3.txt");
    let result = can_autoexecute_command(&single(&normalized), false, false, None, false, &profile);
    assert!(
        !result.is_allowed(),
        "multiline rm command should be denied by denylist"
    );
    assert!(matches!(
        result,
        CommandExecutionPermission::Denied(
            CommandExecutionPermissionDeniedReason::ExplicitlyDenylisted
        )
    ));

    let normalized =
        normalize_line_continuations("rm file1.txt `\nfile2.txt `\nfile3.txt", EscapeChar::Backtick);
    assert_eq!(normalized, "rm file1.txt  file2.txt  file3.txt");
    let result = can_autoexecute_command(&single(&normalized), false, false, None, false, &profile);
    assert!(
        !result.is_allowed(),
        "multiline rm command with backtick continuations should be denied by denylist"
    );
    assert!(matches!(
        result,
        CommandExecutionPermission::Denied(
            CommandExecutionPermissionDeniedReason::ExplicitlyDenylisted
        )
    ));
}

#[test]
fn agent_decides_denies_redirections_then_checks_allowlist_then_read_only() {
    let mut profile = default_profile();
    profile.command_allowlist.push(regex("^ls"));
    let ls = single("ls -la");
    assert_eq!(
        can_autoexecute_command(&ls, true, false, None, false, &profile),
        CommandExecutionPermission::Denied(CommandExecutionPermissionDeniedReason::ContainsRedirection)
    );
    assert_eq!(
        can_autoexecute_command(&ls, false, false, None, false, &profile),
        CommandExecutionPermission::Allowed(
            CommandExecutionPermissionAllowedReason::ExplicitlyAllowlisted
        )
    );
    let two = vec!["ls".to_string(), "make".to_string()];
    assert_eq!(
        can_autoexecute_command(&two, false, true, Some(true), false, &profile),
        CommandExecutionPermission::Allowed(CommandExecutionPermissionAllowedReason::AgentDecided)
    );
    assert_eq!(
        can_autoexecute_command(&two, false, false, None, false, &profile),
        CommandExecutionPermission::Denied(CommandExecutionPermissionDeniedReason::AgentDecided)
    );
    profile.execute_commands = ActionPermission::AlwaysAllow;
    assert_eq!(
        can_autoexecute_command(&two, true, false, None, false, &profile),
        CommandExecutionPermission::Allowed(CommandExecutionPermissionAllowedReason::AlwaysAllowed)
    );
    profile.execute_commands = ActionPermission::AlwaysAsk;
    assert_eq!(
        can_autoexecute_command(&two, false, false, None, false, &profile),
        CommandExecutionPermission::Denied(CommandExecutionPermissionDeniedReason::AlwaysAskEnabled)
    );
}

#[test]
fn invalid_patterns_make_no_predicate() {
    assert!(CommandPredicate::new_regex("rm (").is_none());
    assert_eq!(regex("git .*").pattern(), "git .*");
    assert!(regex("git").matches("a git push"));
}

#[test]
fn files_allowed_in_a_conversation_are_readable_there_only() {
    let mut permissions = BlocklistAIPermissions::new();
    let mut profile = default_profile();
    profile.read_files = ActionPermission::AlwaysAsk;
    permissions.add_temporary_file_read_permissions(
        CONVO,
        vec!["/repo/src".to_string(), "/repo/src".to_string()],
    );
    let paths = vec!["/repo/src/main.rs".to_string(), "/repo/src".to_string()];
    assert_eq!(
        permissions.can_read_files(Some(CONVO), &paths, &profile),
        FileReadPermission::Allowed(FileReadPermissionAllowedReason::AlreadyReadInConvo)
    );
    assert_eq!(
        permissions.can_read_files(Some(CONVO + 1), &paths, &profile),
        FileReadPermission::Denied(FileReadPermissionDeniedReason::AlwaysAskEnabled)
    );
    // A sibling sharing a name prefix is not under the allowed directory.
    assert_eq!(
        permissions.can_read_files(Some(CONVO), &vec!["/repo/srcx".to_string()], &profile),
        FileReadPermission::Denied(FileReadPermissionDeniedReason::AlwaysAskEnabled)
    );
    assert_eq!(
        permissions.can_read_files_with_conversation(CONVO + 1, &paths, true, &profile),
        FileReadPermission::Allowed(FileReadPermissionAllowedReason::RunToCompletion)
    );
}

#[test]
fn read_settings_decide_when_nothing_was_allowed() {
    let permissions = BlocklistAIPermissions::new();
    let mut profile = default_profile();
    let paths = vec!["/etc/hosts".to_string()];
    assert_eq!(
        permissions.can_read_files(None, &paths, &profile),
        FileReadPermission::Allowed(FileReadPermissionAllowedReason::AgentDecided)
    );
    profile.read_files = ActionPermission::AlwaysAllow;
    assert_eq!(
        permissions.can_read_files(None, &paths, &profile),
        FileReadPermission::Allowed(FileReadPermissionAllowedReason::AutoreadSettingEnabled)
    );
}

#[test]
fn run_to_completion_allows_writes_pty_and_silences_questions() {
    let mut profile = default_profile();
    assert_eq!(
        can_write_files(true, &profile),
        FileWritePermission::Allowed(FileWritePermissionAllowedReason::RunToCompletion)
    );
    assert_eq!(can_write_to_pty(true, &profile), WriteToPtyPermission::AlwaysAllow);
    assert_eq!(can_write_to_pty(false, &profile), WriteToPtyPermission::AlwaysAsk);
    assert!(!can_ask_user_question(true, &profile));
    assert!(can_ask_user_question(false, &profile));
    profile.ask_user_question = AskUserQuestionPermission::Never;
    assert!(!can_ask_user_question(false, &profile));
    profile.ask_user_question = AskUserQuestionPermission::AlwaysAsk;
    assert!(can_ask_user_question(true, &profile));
}

#[test]
fn continuations_of_the_other_shell_are_kept() {
    assert_eq!(
        normalize_line_continuations("a `\nb", EscapeChar::Backslash),
        "a `\nb"
    );
    assert_eq!(normalize_line_continuations("a\\\\\nb", EscapeChar::Backslash), "a\\ b");
    assert_eq!(normalize_line_continuations("\\", EscapeChar::Backslash), "\\");
}

#[test]
fn allowing_a_directory_makes_its_files_readable_and_asks_for_the_rest() {
    let permissions = BlocklistAIPermissions::new();
    let mut profile = default_profile();
    profile.read_files = ActionPermission::AlwaysAllow;
    allow_read_files_for_directory(&mut profile, "/repo".to_string());
    allow_read_files_for_directory(&mut profile, "/repo".to_string());
    assert_eq!(profile.read_files, ActionPermission::AlwaysAsk);
    assert_eq!(profile.directory_allowlist, vec!["/repo".to_string()]);
    assert_eq!(
        permissions.can_read_files(None, &vec!["/repo/src/a.rs".to_string()], &profile),
        FileReadPermission::Allowed(FileReadPermissionAllowedReason::ExplicitlyAllowlisted)
    );
    assert_eq!(
        permissions.can_read_files(None, &vec!["/etc/passwd".to_string()], &profile),
        FileReadPermission::Denied(FileReadPermissionDeniedReason::AlwaysAskEnabled)
    );
}

#[test]
fn the_always_allow_switches_set_their_settings() {
    let mut profile = default_profile();
    set_always_allow_write_to_pty(&mut profile, true);
    assert_eq!(profile.write_to_pty, WriteToPtyPermission::AlwaysAllow);
    set_always_allow_write_to_pty(&mut profile, false);
    assert_eq!(profile.write_to_pty, WriteToPtyPermission::AlwaysAsk);
    set_always_allow_read_files(&mut profile, true);
    assert_eq!(profile.read_files, ActionPermission::AlwaysAllow);
    set_always_allow_read_files(&mut profile, false);
    assert_eq!(profile.read_files, ActionPermission::AlwaysAsk);
    assert_eq!(profile.apply_code_diffs, ActionPermission::AgentDecides);
    assert!(is_agent_mode_autonomy_allowed());
}

#[test]
fn joined_commands_keep_no_continuation() {
    let command = "rm a \\\n\\\nb \\\\\nc";
    let joined = normalize_line_continuations(command, EscapeChar::Backslash);
    assert_eq!(joined, "rm a   b \\ c");
    assert_eq!(joined, command.replace("\\\n", " "));
    assert!(!joined.contains("\\\n"));
}

#[test]
fn granted_files_stay_readable_after_more_grants() {
    let mut permissions = BlocklistAIPermissions::new();
    let profile = default_profile();
    permissions.add_temporary_file_read_permissions(CONVO, vec!["/repo/a".to_string()]);
    permissions.add_temporary_file_read_permissions(CONVO, vec!["/repo/b".to_string()]);
    assert_eq!(
        permissions.can_read_files(Some(CONVO), &vec!["/repo/a/x.rs".to_string(), "/repo/b".to_string()], &profile),
        FileReadPermission::Allowed(FileReadPermissionAllowedReason::AlreadyReadInConvo)
    );
    assert_eq!(
        permissions.can_read_files(Some(CONVO + 1), &vec!["/repo/a/x.rs".to_string()], &profile),
        FileReadPermission::Allowed(FileReadPermissionAllowedReason::AgentDecided)
    );
}
