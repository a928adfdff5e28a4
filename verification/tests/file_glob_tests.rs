use std::path::PathBuf;

use blocklist::file_glob::{
    build_find_command, build_git_ls_files_command, build_powershell_get_childitem_command,
    check_file_glob_request, file_glob_search_dir, file_glob_strategy, find_outcome, git_ls_files_outcome,
    non_empty_lines, powershell_outcome, FileGlobStrategy,
};
use blocklist::shell::{join_paths, join_words, shell_quote_arg, ShellLaunchData, ShellType};

#[test]
fn build_find_command_single_quotes_patterns_and_path() {
    let patterns = vec![
        "$(touch /tmp/warp-poc)*.rs".to_string(),
        "owner's*.rs".to_string(),
    ];

    let command = build_find_command(&patterns, "/tmp/repo path", ShellType::Bash);

    assert_eq!(
        command,
        r#"find '/tmp/repo path' -type f -name '$(touch /tmp/warp-poc)*.rs' -o -name 'owner'"'"'s*.rs'"#
    );
}

#[test]
fn build_git_ls_files_command_single_quotes_joined_patterns() {
    let pattern = "$(touch /tmp/warp-poc)*.rs";
    let patterns = vec![pattern.to_string()];
    let target_path = PathBuf::from(std::path::MAIN_SEPARATOR_STR)
        .join("tmp")
        .join("repo");

    let command = build_git_ls_files_command(
        &patterns,
        target_path.to_str().unwrap(),
        None,
        ShellType::Bash,
    );

    let expected = format!(
        "git ls-files -c -o --exclude-standard -- '{}' '{}'",
        target_path.join(pattern).display(),
        target_path.join("*").join(pattern).display(),
    );
    assert_eq!(command, expected);
}

#[test]
fn build_powershell_get_childitem_command_single_quotes_patterns_and_path() {
    let patterns = vec![
        r#"$(New-Item C:\pwn)*.rs"#.to_string(),
        "owner's*.rs".to_string(),
    ];

    let command = build_powershell_get_childitem_command(&patterns, r#"C:\repo path"#);

    assert_eq!(
        command,
        r#"Get-ChildItem -File -Recurse -Include '$(New-Item C:\pwn)*.rs','owner''s*.rs' -Path 'C:\repo path' | ForEach-Object { $_.FullName }"#
    );
}

#[test]
fn find_command_with_no_patterns_has_no_name_tests() {
    let command = build_find_command(&[], "/repo", ShellType::Zsh);
    assert_eq!(command, "find '/repo' -type f ");
}

#[test]
fn git_ls_files_command_inside_wsl_uses_forward_slashes() {
    let patterns = vec!["*.rs".to_string(), "*.toml".to_string()];
    let command = build_git_ls_files_command(
        &patterns,
        "/mnt/c/repo/",
        Some(&ShellLaunchData::Wsl),
        ShellType::Bash,
    );
    assert_eq!(
        command,
        "git ls-files -c -o --exclude-standard -- '/mnt/c/repo/*.rs' '/mnt/c/repo/*/*.rs' '/mnt/c/repo/*.toml' '/mnt/c/repo/*/*.toml'"
    );
}

#[test]
fn fish_quoting_escapes_quotes_and_backslashes() {
    assert_eq!(shell_quote_arg(r"it's a\b", ShellType::Fish), r"'it\'s a\\b'");
    assert_eq!(shell_quote_arg("", ShellType::Bash), "''");
    assert_eq!(shell_quote_arg("a'b", ShellType::PowerShell), "'a''b'");
}

#[test]
fn join_paths_skips_a_doubled_separator() {
    assert_eq!(
        join_paths(&["/tmp/", "repo", "src"], Some(&ShellLaunchData::Msys2)),
        "/tmp/repo/src"
    );
    assert_eq!(join_paths(&["", "a"], Some(&ShellLaunchData::Wsl)), "a");
    assert_eq!(
        join_words(&vec!["a".to_string(), "b".to_string(), "c".to_string()], ", "),
        "a, b, c"
    );
}

#[test]
fn non_empty_lines_drops_blank_lines_and_crlf_endings() {
    let lines = non_empty_lines("a.rs\r\n\nb.rs\n\r\nc.rs\r");
    assert_eq!(lines, vec!["a.rs".to_string(), "b.rs".to_string(), "c.rs\r".to_string()]);
    assert!(non_empty_lines("").is_empty());
    assert_eq!(non_empty_lines("\n\nonly\n"), vec!["only".to_string()]);
}

#[test]
fn file_glob_refuses_empty_patterns_and_missing_sessions() {
    assert_eq!(
        check_file_glob_request(&[], true),
        Err("No patterns provided to file_glob".to_string())
    );
    assert_eq!(
        check_file_glob_request(&["*.rs".to_string()], false),
        Err("No session provided to file_glob".to_string())
    );
    assert_eq!(check_file_glob_request(&["*.rs".to_string()], true), Ok(()));
}

#[test]
fn file_glob_strategy_prefers_git_then_powershell() {
    assert_eq!(file_glob_strategy(true, ShellType::PowerShell), FileGlobStrategy::GitLsFiles);
    assert_eq!(
        file_glob_strategy(false, ShellType::PowerShell),
        FileGlobStrategy::PowerShellGetChildItem
    );
    assert_eq!(file_glob_strategy(false, ShellType::Zsh), FileGlobStrategy::Find);
}

#[test]
fn git_ls_files_output_is_joined_onto_the_target() {
    let outcome = git_ls_files_outcome(
        true,
        "src/a.rs\n\nb.rs\n",
        "/repo",
        Some(&ShellLaunchData::Wsl),
    )
    .unwrap();
    assert_eq!(outcome.matched_files, vec!["/repo/src/a.rs".to_string(), "/repo/b.rs".to_string()]);
    assert_eq!(outcome.warnings, None);
    assert_eq!(
        git_ls_files_outcome(false, "fatal: bad", "/repo", None).err(),
        Some("fatal: bad".to_string())
    );
}

#[test]
fn find_output_counts_even_when_find_fails() {
    let outcome = find_outcome(false, "/a.rs\n", "find: denied\n").unwrap();
    assert_eq!(outcome.matched_files, vec!["/a.rs".to_string()]);
    assert_eq!(outcome.warnings, Some("find: denied\n".to_string()));
    let quiet = find_outcome(true, "", "  \n").unwrap();
    assert!(quiet.matched_files.is_empty());
    assert_eq!(quiet.warnings, None);
    assert_eq!(find_outcome(false, " \n", "boom").err(), Some("boom".to_string()));
}

#[test]
fn powershell_output_is_read_line_by_line() {
    let outcome = powershell_outcome(true, "C:\\a.rs\r\nC:\\b.rs\r\n").unwrap();
    assert_eq!(outcome.matched_files, vec!["C:\\a.rs".to_string(), "C:\\b.rs".to_string()]);
    assert_eq!(powershell_outcome(false, "nope").err(), Some("nope".to_string()));
}

#[test]
fn file_glob_searches_the_working_directory_by_default() {
    assert_eq!(file_glob_search_dir(None), ".");
    assert_eq!(file_glob_search_dir(Some("/repo".to_string())), "/repo");
}
