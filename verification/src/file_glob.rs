//! The shell commands that list the files matching a set of glob patterns
//! under a directory, and the reading of their output.
//!
//! Every pattern and path reaches the shell single-quoted, so a pattern such
//! as `$(touch x)*.rs` is matched literally and never run.

use vstd::prelude::*;

use crate::text::{trim, trimmed};
use crate::shell::{
    push_char,
    joined, joined_path, join_words, lemma_joined_path_single, path_separator, push_path_part, separator_fits,
    shell_quote_arg, shell_quoted, string_views, ShellLaunchData, ShellType,
};

verus! {

/// `-name '<pattern>'` for each pattern.
pub open spec fn find_name_args(patterns: Seq<Seq<char>>, shell: ShellType) -> Seq<Seq<char>> {
    patterns.map_values(|p: Seq<char>| "-name "@ + shell_quoted(p, shell))
}

/// The `find` command listing the files under `path` whose name matches one
/// of `patterns`.
pub open spec fn find_command(patterns: Seq<Seq<char>>, path: Seq<char>, shell: ShellType) -> Seq<
    char,
> {
    "find "@ + shell_quoted(path, shell) + " -type f "@ + joined(
        find_name_args(patterns, shell),
        " -o "@,
    )
}

/// The two pathspecs given to `git ls-files` for each pattern: the pattern
/// directly under `path`, and the pattern below any directory under `path`.
pub open spec fn git_pathspecs(
    patterns: Seq<Seq<char>>,
    path: Seq<char>,
    shell: ShellType,
    sep: char,
) -> Seq<Seq<char>>
    decreases patterns.len(),
{
    if patterns.len() == 0 {
        Seq::empty()
    } else {
        let p = patterns.last();
        git_pathspecs(patterns.drop_last(), path, shell, sep) + seq![
            shell_quoted(joined_path(seq![path, p], sep), shell),
            shell_quoted(joined_path(seq![path, "*"@, p], sep), shell),
        ]
    }
}

/// The `git ls-files` command listing tracked and untracked, not ignored,
/// files matching `patterns` under `path`.
pub open spec fn git_ls_files_command(
    patterns: Seq<Seq<char>>,
    path: Seq<char>,
    shell: ShellType,
    sep: char,
) -> Seq<char> {
    "git ls-files -c -o --exclude-standard -- "@ + joined(
        git_pathspecs(patterns, path, shell, sep),
        " "@,
    )
}

/// The PowerShell pipeline listing the full names of the files under `path`
/// that match one of `patterns`.
pub open spec fn powershell_get_childitem_command(patterns: Seq<Seq<char>>, path: Seq<char>) -> Seq<
    char,
> {
    "Get-ChildItem -File -Recurse -Include "@ + joined(
        patterns.map_values(|p: Seq<char>| shell_quoted(p, ShellType::PowerShell)),
        ","@,
    ) + " -Path "@ + shell_quoted(path, ShellType::PowerShell)
        + " | ForEach-Object { $_.FullName }"@
}

/// Builds the `find` command for `patterns` under `target_path`.
pub fn build_find_command(patterns: &[String], target_path: &str, shell_type: ShellType) -> (cmd:
    String)
    ensures
        cmd@ == find_command(string_views(patterns@), target_path@, shell_type),
{
    let mut args: Vec<String> = Vec::new();
    let mut i: usize = 0;
    while i < patterns.len()
        invariant
            i <= patterns.len(),
            string_views(args@) == find_name_args(
                string_views(patterns@.subrange(0, i as int)),
                shell_type,
            ),
        decreases patterns.len() - i,
    {
        let mut arg = String::new();
        arg.append("-name ");
        let quoted = shell_quote_arg(patterns[i].as_str(), shell_type);
        arg.append(quoted.as_str());
        assert(arg@ =~= "-name "@ + shell_quoted(patterns@[i as int]@, shell_type));
        let ghost prev_args = args@;
        args.push(arg);
        assert(string_views(args@) =~= string_views(prev_args).push(arg@));
        assert(string_views(args@) =~= find_name_args(
            string_views(patterns@.subrange(0, i + 1)),
            shell_type,
        ));
        i += 1;
    }
    assert(patterns@.subrange(0, patterns.len() as int) =~= patterns@);
    let joined_args = join_words(&args, " -o ");
    let mut cmd = String::new();
    cmd.append("find ");
    let quoted_path = shell_quote_arg(target_path, shell_type);
    cmd.append(quoted_path.as_str());
    cmd.append(" -type f ");
    cmd.append(joined_args.as_str());
    cmd
}

/// `base` and `part` joined into one path with separator `sep`.
fn join_two(base: &str, part: &str, sep: char) -> (out: String)
    ensures
        out@ == joined_path(seq![base@, part@], sep),
{
    let mut out = String::new();
    push_path_part(&mut out, base, sep);
    assert(out@ =~= base@);
    push_path_part(&mut out, part, sep);
    assert(seq![base@, part@].drop_last() =~= seq![base@]);
    assert(seq![base@].drop_last() =~= Seq::<Seq<char>>::empty());
    proof { lemma_joined_path_single(base@, sep); }
    out
}

/// `base`, `middle` and `part` joined into one path with separator `sep`.
fn join_three(base: &str, middle: &str, part: &str, sep: char) -> (out: String)
    ensures
        out@ == joined_path(seq![base@, middle@, part@], sep),
{
    let mut out = String::new();
    push_path_part(&mut out, base, sep);
    assert(out@ =~= base@);
    push_path_part(&mut out, middle, sep);
    let ghost two = out@;
    push_path_part(&mut out, part, sep);
    assert(seq![base@, middle@, part@].drop_last() =~= seq![base@, middle@]);
    assert(seq![base@, middle@].drop_last() =~= seq![base@]);
    assert(seq![base@].drop_last() =~= Seq::<Seq<char>>::empty());
    proof { lemma_joined_path_single(base@, sep); }
    assert(joined_path(seq![base@, middle@], sep) == two);
    out
}

/// Builds the `git ls-files` command for `patterns` under `target_path`.
/// The pathspecs are joined onto `target_path` with the separator of the
/// shell's paths (see `join_paths`).
pub fn build_git_ls_files_command(
    patterns: &[String],
    target_path: &str,
    shell_launch_data: Option<&ShellLaunchData>,
    shell_type: ShellType,
) -> (cmd: String)
    ensures
        exists|sep: char|
            separator_fits(shell_launch_data, sep) && cmd@ == git_ls_files_command(
                string_views(patterns@),
                target_path@,
                shell_type,
                sep,
            ),
{
    let sep = path_separator(shell_launch_data);
    let mut args: Vec<String> = Vec::new();
    let mut i: usize = 0;
    while i < patterns.len()
        invariant
            i <= patterns.len(),
            string_views(args@) == git_pathspecs(
                string_views(patterns@.subrange(0, i as int)),
                target_path@,
                shell_type,
                sep,
            ),
        decreases patterns.len() - i,
    {
        let pattern = patterns[i].as_str();
        let direct = join_two(target_path, pattern, sep);
        let nested = join_three(target_path, "*", pattern, sep);
        args.push(shell_quote_arg(direct.as_str(), shell_type));
        args.push(shell_quote_arg(nested.as_str(), shell_type));
        let ghost prev = string_views(patterns@.subrange(0, i as int));
        let ghost next = string_views(patterns@.subrange(0, i + 1));
        assert(next.drop_last() =~= prev);
        assert(string_views(args@) =~= git_pathspecs(next, target_path@, shell_type, sep));
        i += 1;
    }
    assert(patterns@.subrange(0, patterns.len() as int) =~= patterns@);
    let joined_args = join_words(&args, " ");
    let mut cmd = String::new();
    cmd.append("git ls-files -c -o --exclude-standard -- ");
    cmd.append(joined_args.as_str());
    cmd
}

/// Builds the PowerShell `Get-ChildItem` pipeline for `patterns` under
/// `target_path`.
pub fn build_powershell_get_childitem_command(patterns: &[String], target_path: &str) -> (cmd:
    String)
    ensures
        cmd@ == powershell_get_childitem_command(string_views(patterns@), target_path@),
{
    let mut args: Vec<String> = Vec::new();
    let mut i: usize = 0;
    while i < patterns.len()
        invariant
            i <= patterns.len(),
            string_views(args@) == string_views(patterns@.subrange(0, i as int)).map_values(
                |p: Seq<char>| shell_quoted(p, ShellType::PowerShell),
            ),
        decreases patterns.len() - i,
    {
        let quoted = shell_quote_arg(patterns[i].as_str(), ShellType::PowerShell);
        let ghost prev_args = args@;
        args.push(quoted);
        assert(string_views(args@) =~= string_views(prev_args).push(quoted@));
        assert(string_views(args@) =~= string_views(patterns@.subrange(0, i + 1)).map_values(
            |p: Seq<char>| shell_quoted(p, ShellType::PowerShell),
        ));
        i += 1;
    }
    assert(patterns@.subrange(0, patterns.len() as int) =~= patterns@);
    let joined_args = join_words(&args, ",");
    let mut cmd = String::new();
    cmd.append("Get-ChildItem -File -Recurse -Include ");
    cmd.append(joined_args.as_str());
    cmd.append(" -Path ");
    let quoted_path = shell_quote_arg(target_path, ShellType::PowerShell);
    cmd.append(quoted_path.as_str());
    cmd.append(" | ForEach-Object { $_.FullName }");
    cmd
}

/// `line` without the `\r` of a `\r\n` ending.
pub open spec fn strip_cr(line: Seq<char>) -> Seq<char> {
    if line.len() > 0 && line.last() == '\r' {
        line.drop_last()
    } else {
        line
    }
}

/// Reading `s` from the start: the lines ended by a `\n` so far, and the
/// text after the last `\n`.
pub open spec fn line_scan(s: Seq<char>) -> (Seq<Seq<char>>, Seq<char>)
    decreases s.len(),
{
    if s.len() == 0 {
        (Seq::empty(), Seq::empty())
    } else {
        let (done, current) = line_scan(s.drop_last());
        if s.last() == '\n' {
            (done.push(strip_cr(current)), Seq::empty())
        } else {
            (done, current.push(s.last()))
        }
    }
}

/// The lines of `s` as `str::lines` yields them: split at each `\n`, a
/// `\r` right before a `\n` dropped, and nothing after a final `\n`.
pub open spec fn text_lines(s: Seq<char>) -> Seq<Seq<char>> {
    let (done, current) = line_scan(s);
    if current.len() == 0 {
        done
    } else {
        done.push(current)
    }
}

/// Whether a line has any character.
pub open spec fn is_non_empty(line: Seq<char>) -> bool {
    line.len() > 0
}

/// The lines of `s` that are not empty, in order.
pub open spec fn non_empty_text_lines(s: Seq<char>) -> Seq<Seq<char>> {
    text_lines(s).filter(|line: Seq<char>| is_non_empty(line))
}

/// Filtering a sequence with one more element at its end.
proof fn lemma_filter_push(s: Seq<Seq<char>>, x: Seq<char>)
    ensures
        s.push(x).filter(|line: Seq<char>| is_non_empty(line)) == (if is_non_empty(x) {
            s.filter(|line: Seq<char>| is_non_empty(line)).push(x)
        } else {
            s.filter(|line: Seq<char>| is_non_empty(line))
        }),
{
    reveal(Seq::filter);
    assert(s.push(x).drop_last() =~= s);
}

/// The first `end` characters of `chars` as a string.
fn string_from_prefix(chars: &Vec<char>, end: usize) -> (out: String)
    requires
        end <= chars.len(),
    ensures
        out@ == chars@.subrange(0, end as int),
{
    let mut out = String::new();
    let mut i: usize = 0;
    while i < end
        invariant
            i <= end <= chars.len(),
            out@ == chars@.subrange(0, i as int),
        decreases end - i,
    {
        push_char(&mut out, chars[i]);
        assert(out@ =~= chars@.subrange(0, i + 1));
        i += 1;
    }
    out
}

/// Appends `line`, without the `\r` of a `\r\n` ending, to `lines` when it
/// is not empty.
fn push_line(lines: &mut Vec<String>, line: &Vec<char>, keep_cr: bool)
    ensures
        string_views(final(lines)@) == (if is_non_empty(
            (if keep_cr { line@ } else { strip_cr(line@) }),
        ) {
            string_views(old(lines)@).push((if keep_cr { line@ } else { strip_cr(line@) }))
        } else {
            string_views(old(lines)@)
        }),
{
    let n = line.len();
    let end = if !keep_cr && n > 0 && line[n - 1] == '\r' {
        n - 1
    } else {
        n
    };
    assert(line@.subrange(0, n as int) =~= line@);
    assert(n > 0 ==> line@.subrange(0, n - 1) =~= line@.drop_last());
    if end > 0 {
        let text = string_from_prefix(line, end);
        let ghost before = old(lines)@;
        lines.push(text);
        assert(string_views(lines@) =~= string_views(before).push(text@));
    }
}

/// The non-empty lines of `text`, in order, as `str::lines` splits them.
pub fn non_empty_lines(text: &str) -> (lines: Vec<String>)
    ensures
        string_views(lines@) == non_empty_text_lines(text@),
{
    broadcast use vstd::string::group_string_axioms;
    let mut lines: Vec<String> = Vec::new();
    let mut current: Vec<char> = Vec::new();
    for c in it: text.chars()
        invariant
            it.seq() == text@,
            string_views(lines@) == line_scan(text@.subrange(0, it.index() as int)).0.filter(
                |line: Seq<char>| is_non_empty(line),
            ),
            current@ == line_scan(text@.subrange(0, it.index() as int)).1,
    {
        let ghost i = it.index();
        let ghost prefix = text@.subrange(0, i as int);
        assert(text@.subrange(0, i + 1).drop_last() =~= prefix);
        assert(c == text@[i as int]);
        if c == '\n' {
            proof { lemma_filter_push(line_scan(prefix).0, strip_cr(current@)); }
            push_line(&mut lines, &current, false);
            current = Vec::new();
        } else {
            current.push(c);
        }
    }
    let ghost n = text@.len();
    assert(text@.subrange(0, n as int) =~= text@);
    proof { lemma_filter_push(line_scan(text@).0, current@); }
    push_line(&mut lines, &current, true);
    lines
}

/// How the files matching the patterns are listed.
#[derive(Clone, Copy, Debug, PartialEq, Eq, Structural)]
pub enum FileGlobStrategy {
    /// `git ls-files`, inside a git repository.
    GitLsFiles,
    /// PowerShell's `Get-ChildItem`.
    PowerShellGetChildItem,
    /// `find`.
    Find,
}

/// What a listing found: the files, and what `find` printed on its error
/// stream when it printed anything there.
pub struct FileGlobOutcome {
    pub matched_files: Vec<String>,
    pub warnings: Option<String>,
}

/// Refuses a listing with no pattern, or with no shell session to run it in.
pub fn check_file_glob_request(patterns: &[String], has_session: bool) -> (checked: Result<(), String>)
    ensures
        match checked {
            Ok(()) => patterns@.len() > 0 && has_session,
            Err(e) => if patterns@.len() == 0 {
                e@ == "No patterns provided to file_glob"@
            } else {
                !has_session && e@ == "No session provided to file_glob"@
            },
        },
{
    if patterns.len() == 0 {
        return Err(String::from_str("No patterns provided to file_glob"));
    }
    if !has_session {
        return Err(String::from_str("No session provided to file_glob"));
    }
    Ok(())
}

/// The listing to run: `git ls-files` inside a git repository, else
/// `Get-ChildItem` under PowerShell, else `find`.
pub fn file_glob_strategy(is_in_git_repo: bool, shell_type: ShellType) -> (strategy: FileGlobStrategy)
    ensures
        strategy == (if is_in_git_repo {
            FileGlobStrategy::GitLsFiles
        } else if shell_type == ShellType::PowerShell {
            FileGlobStrategy::PowerShellGetChildItem
        } else {
            FileGlobStrategy::Find
        }),
{
    if is_in_git_repo {
        FileGlobStrategy::GitLsFiles
    } else {
        match shell_type {
            ShellType::PowerShell => FileGlobStrategy::PowerShellGetChildItem,
            _ => FileGlobStrategy::Find,
        }
    }
}

/// What `git ls-files` gave: on success its non-empty lines, each a path
/// relative to `target_path` joined onto it with the separator of the
/// shell's paths; on failure its output as the error.
pub fn git_ls_files_outcome(
    success: bool,
    output: &str,
    target_path: &str,
    shell_launch_data: Option<&ShellLaunchData>,
) -> (outcome: Result<FileGlobOutcome, String>)
    ensures
        match outcome {
            Ok(o) => success && o.warnings is None && exists|sep: char|
                separator_fits(shell_launch_data, sep) && string_views(o.matched_files@)
                    == non_empty_text_lines(output@).map_values(
                    |line: Seq<char>| joined_path(seq![target_path@, line], sep),
                ),
            Err(e) => !success && e@ == output@,
        },
{
    if !success {
        return Err(String::from_str(output));
    }
    let sep = path_separator(shell_launch_data);
    let lines = non_empty_lines(output);
    let ghost expected = non_empty_text_lines(output@).map_values(
        |line: Seq<char>| joined_path(seq![target_path@, line], sep),
    );
    let mut files: Vec<String> = Vec::new();
    let mut i: usize = 0;
    while i < lines.len()
        invariant
            i <= lines.len(),
            string_views(lines@) == non_empty_text_lines(output@),
            expected == non_empty_text_lines(output@).map_values(
                |line: Seq<char>| joined_path(seq![target_path@, line], sep),
            ),
            string_views(files@) == expected.subrange(0, i as int),
        decreases lines.len() - i,
    {
        let path = join_two(target_path, lines[i].as_str(), sep);
        let ghost before = files@;
        files.push(path);
        assert(string_views(lines@)[i as int] == lines@[i as int]@);
        assert(expected[i as int] == joined_path(seq![target_path@, lines@[i as int]@], sep));
        assert(string_views(files@) =~= string_views(before).push(path@));
        assert(string_views(files@) =~= expected.subrange(0, i + 1));
        i += 1;
    }
    assert(expected.subrange(0, lines.len() as int) =~= expected);
    Ok(FileGlobOutcome { matched_files: files, warnings: None })
}

/// What `find` gave: its non-empty output lines when it succeeded or
/// printed anything but white space, with its error stream as a warning
/// when that holds anything but white space; otherwise its error stream as
/// the error.
pub fn find_outcome(success: bool, stdout: &str, stderr: &str) -> (outcome: Result<FileGlobOutcome, String>)
    ensures
        match outcome {
            Ok(o) => {
                &&& (success || trimmed(stdout@).len() > 0)
                &&& string_views(o.matched_files@) == non_empty_text_lines(stdout@)
                &&& match o.warnings {
                    Some(w) => trimmed(stderr@).len() > 0 && w@ == stderr@,
                    None => trimmed(stderr@).len() == 0,
                }
            },
            Err(e) => !success && trimmed(stdout@).len() == 0 && e@ == stderr@,
        },
{
    let has_results = trim(stdout).unicode_len() > 0;
    if success || has_results {
        let files = non_empty_lines(stdout);
        let warnings = if trim(stderr).unicode_len() > 0 {
            Some(String::from_str(stderr))
        } else {
            None
        };
        Ok(FileGlobOutcome { matched_files: files, warnings })
    } else {
        Err(String::from_str(stderr))
    }
}

/// What `Get-ChildItem` gave: on success its non-empty lines; on failure
/// its output as the error.
pub fn powershell_outcome(success: bool, output: &str) -> (outcome: Result<FileGlobOutcome, String>)
    ensures
        match outcome {
            Ok(o) => success && o.warnings is None && string_views(o.matched_files@)
                == non_empty_text_lines(output@),
            Err(e) => !success && e@ == output@,
        },
{
    if success {
        Ok(FileGlobOutcome { matched_files: non_empty_lines(output), warnings: None })
    } else {
        Err(String::from_str(output))
    }
}

/// The directory a listing searches: the one asked for, else the current
/// working directory (`.`).
pub fn file_glob_search_dir(search_dir: Option<String>) -> (dir: String)
    ensures
        dir@ == match search_dir {
            Some(d) => d@,
            None => "."@,
        },
{
    match search_dir {
        Some(d) => d,
        None => String::from_str("."),
    }
}

} // verus!
