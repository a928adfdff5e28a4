//! The answer to a request for file edits, read off what the diff view
//! reports once the user has acted on it: rejected, or accepted and saved.

use vstd::prelude::*;

use crate::file_glob::text_lines;
use crate::permissions::{can_write_files, write_permission, ExecutionProfile};
use crate::shell::{join_words, joined, string_views};
use crate::text::{chars_of, str_eq};

verus! {

/// Why a file could not be saved.
pub enum FileSaveError {
    /// The write failed; `error` is what the system said.
    IoError { path: String, error: String },
    /// Any other failure, which the message leaves out.
    Other,
}

/// A file the edits touched, as the model is told of it.
pub struct UpdatedFileContext {
    pub was_edited_by_user: bool,
    pub file_name: String,
    /// The file's text as the editor holds it (empty when the editor holds none).
    pub content: String,
    /// The number of lines of `content`.
    pub line_count: usize,
}

/// The answer to a request for file edits.
pub enum RequestFileEditsResult {
    Success {
        diff: String,
        updated_files: Vec<UpdatedFileContext>,
        deleted_files: Vec<String>,
        lines_added: usize,
        lines_removed: usize,
    },
    DiffApplicationFailed { error: String },
    Cancelled,
}

/// What the diff view reports when the user accepted the edits and they
/// were saved.
pub struct SavedAcceptedDiffs {
    pub unified_diff: String,
    pub lines_added: usize,
    pub lines_removed: usize,
    /// Each touched file, with whether the user edited it before accepting.
    pub updated_files: Vec<(String, bool)>,
    /// The editor's text of files, by name.
    pub file_contents: Vec<(String, String)>,
    pub deleted_files: Vec<String>,
    pub save_errors: Vec<FileSaveError>,
}

/// What the diff view reports.
pub enum CodeDiffViewEvent {
    Rejected,
    SavedAcceptedDiffs(SavedAcceptedDiffs),
    /// Any other report, which does not end the request.
    Other,
}

/// How `{:?}` prints the path `path`: quoted, with escapes.
pub uninterp spec fn debug_path(path: Seq<char>) -> Seq<char>;

/// `format!("{:?}", std::path::Path::new(path))`: the `Debug` text of the
/// path. The contract claims only that this text is a function of the path
/// (`debug_path`); what the escapes are is left to std.
#[verifier::external_body]
fn path_debug_text(path: &str) -> (text: String)
    ensures
        text@ == debug_path(path@),
{
    format!("{:?}", std::path::Path::new(path))
}

/// The line that reports a failed save, for the failures that have one.
pub open spec fn save_error_line(e: FileSaveError) -> Option<Seq<char>> {
    match e {
        FileSaveError::IoError { path, error } => Some(
            "Failed to save file "@ + debug_path(path@) + ": "@ + error@,
        ),
        FileSaveError::Other => None,
    }
}

/// The lines that report `errors`, in order.
pub open spec fn save_error_lines(errors: Seq<FileSaveError>) -> Seq<Seq<char>>
    decreases errors.len(),
{
    if errors.len() == 0 {
        Seq::empty()
    } else {
        let rest = save_error_lines(errors.drop_last());
        match save_error_line(errors.last()) {
            Some(line) => rest.push(line),
            None => rest,
        }
    }
}

/// The report of failed saves: one line for each write that failed.
pub fn save_errors_message(errors: &Vec<FileSaveError>) -> (message: String)
    ensures
        message@ == joined(save_error_lines(errors@), "\n"@),
{
    let mut lines: Vec<String> = Vec::new();
    let mut i: usize = 0;
    while i < errors.len()
        invariant
            i <= errors.len(),
            string_views(lines@) == save_error_lines(errors@.subrange(0, i as int)),
        decreases errors.len() - i,
    {
        assert(errors@.subrange(0, i + 1).drop_last() =~= errors@.subrange(0, i as int));
        match &errors[i] {
            FileSaveError::IoError { path, error } => {
                let mut line = String::from_str("Failed to save file ");
                let quoted = path_debug_text(path.as_str());
                line.append(quoted.as_str());
                line.append(": ");
                line.append(error.as_str());
                let ghost before = lines@;
                lines.push(line);
                assert(string_views(lines@) =~= string_views(before).push(lines@.last()@));
            },
            FileSaveError::Other => {},
        }
        i += 1;
    }
    assert(errors@.subrange(0, errors.len() as int) =~= errors@);
    join_words(&lines, "\n")
}

/// The editor's text of `name`: the last entry for it in `contents`, or
/// nothing.
pub open spec fn content_for(contents: Seq<(String, String)>, name: Seq<char>) -> Seq<char>
    decreases contents.len(),
{
    if contents.len() == 0 {
        Seq::empty()
    } else if contents.last().0@ == name {
        contents.last().1@
    } else {
        content_for(contents.drop_last(), name)
    }
}

/// The editor's text of `name` (see `content_for`).
pub fn content_of(contents: &Vec<(String, String)>, name: &str) -> (content: String)
    ensures
        content@ == content_for(contents@, name@),
{
    let mut i: usize = contents.len();
    assert(contents@.subrange(0, i as int) =~= contents@);
    while i > 0
        invariant
            i <= contents.len(),
            content_for(contents@, name@) == content_for(contents@.subrange(0, i as int), name@),
        decreases i,
    {
        assert(contents@.subrange(0, i as int).drop_last() =~= contents@.subrange(0, i - 1));
        if str_eq(contents[i - 1].0.as_str(), name) {
            return contents[i - 1].1.clone();
        }
        i -= 1;
    }
    String::new()
}

/// The number of lines of `text`, counted as `str::lines` yields them.
pub fn line_count(text: &str) -> (count: usize)
    ensures
        count == text_lines(text@).len(),
{
    let chars = chars_of(text);
    let mut done: usize = 0;
    let mut in_line = false;
    let mut i: usize = 0;
    while i < chars.len()
        invariant
            chars@ == text@,
            i <= chars.len(),
            done <= i,
            in_line ==> done < i,
            done == crate::file_glob::line_scan(chars@.subrange(0, i as int)).0.len(),
            in_line == (crate::file_glob::line_scan(chars@.subrange(0, i as int)).1.len() > 0),
        decreases chars.len() - i,
    {
        assert(chars@.subrange(0, i + 1).drop_last() =~= chars@.subrange(0, i as int));
        if chars[i] == '\n' {
            done += 1;
            in_line = false;
        } else {
            in_line = true;
        }
        i += 1;
    }
    assert(chars@.subrange(0, chars.len() as int) =~= chars@);
    if in_line {
        done + 1
    } else {
        done
    }
}

/// What the model is told of `file`, given the editor's texts.
pub open spec fn file_context_matches(
    context: UpdatedFileContext,
    file: (String, bool),
    contents: Seq<(String, String)>,
) -> bool {
    &&& context.file_name@ == file.0@
    &&& context.was_edited_by_user == file.1
    &&& context.content@ == content_for(contents, file.0@)
    &&& context.line_count == text_lines(context.content@).len()
}

/// Whether `result` answers `saved`: a failure naming each write that
/// failed, if any save failed; otherwise the diff, each touched file with
/// the editor's text of it, the deleted files and the counts of changed
/// lines.
pub open spec fn answers_saved_diffs(saved: SavedAcceptedDiffs, result: RequestFileEditsResult) -> bool {
    if saved.save_errors@.len() > 0 {
        result matches RequestFileEditsResult::DiffApplicationFailed { error } && error@ == joined(
            save_error_lines(saved.save_errors@),
            "\n"@,
        )
    } else {
        result matches RequestFileEditsResult::Success {
            diff,
            updated_files,
            deleted_files,
            lines_added,
            lines_removed,
        } && diff@ == saved.unified_diff@ && string_views(deleted_files@) == string_views(
            saved.deleted_files@,
        ) && lines_added == saved.lines_added && lines_removed == saved.lines_removed
            && updated_files@.len() == saved.updated_files@.len() && forall|i: int|
            0 <= i < updated_files@.len() ==> file_context_matches(
                #[trigger] updated_files@[i],
                saved.updated_files@[i],
                saved.file_contents@,
            )
    }
}

/// The answer once the accepted edits were saved: a failure naming each
/// write that failed, if any save failed; otherwise the diff, each touched
/// file with the editor's text of it, the deleted files and the counts of
/// changed lines.
pub fn saved_diffs_result(saved: SavedAcceptedDiffs) -> (result: RequestFileEditsResult)
    ensures
        answers_saved_diffs(saved, result),
{
    if saved.save_errors.len() > 0 {
        let error = save_errors_message(&saved.save_errors);
        return RequestFileEditsResult::DiffApplicationFailed { error };
    }
    let mut updated_files: Vec<UpdatedFileContext> = Vec::new();
    let mut i: usize = 0;
    while i < saved.updated_files.len()
        invariant
            i <= saved.updated_files.len(),
            updated_files@.len() == i,
            forall|k: int|
                0 <= k < i ==> file_context_matches(
                    #[trigger] updated_files@[k],
                    saved.updated_files@[k],
                    saved.file_contents@,
                ),
        decreases saved.updated_files.len() - i,
    {
        let name = saved.updated_files[i].0.clone();
        let content = content_of(&saved.file_contents, name.as_str());
        let count = line_count(content.as_str());
        updated_files.push(
            UpdatedFileContext {
                was_edited_by_user: saved.updated_files[i].1,
                file_name: name,
                content,
                line_count: count,
            },
        );
        i += 1;
    }
    RequestFileEditsResult::Success {
        diff: saved.unified_diff,
        updated_files,
        deleted_files: saved.deleted_files,
        lines_added: saved.lines_added,
        lines_removed: saved.lines_removed,
    }
}

/// What the request is answered when the diff view reports `event` while
/// the answer is still `pending`: `Cancelled` on a rejection, the result of
/// the save on an accepted save, and nothing otherwise; once answered, the
/// request is answered no more.
pub fn on_diff_view_event(pending: bool, event: CodeDiffViewEvent) -> (reply: Option<RequestFileEditsResult>)
    ensures
        reply is Some <==> (pending && !(event is Other)),
        pending && event is Rejected ==> reply matches Some(RequestFileEditsResult::Cancelled),
        pending ==> match event {
            CodeDiffViewEvent::SavedAcceptedDiffs(saved) => reply matches Some(r) && answers_saved_diffs(saved, r),
            _ => true,
        },
{
    if !pending {
        return None;
    }
    match event {
        CodeDiffViewEvent::Rejected => Some(RequestFileEditsResult::Cancelled),
        CodeDiffViewEvent::SavedAcceptedDiffs(saved) => Some(saved_diffs_result(saved)),
        CodeDiffViewEvent::Other => None,
    }
}

/// Whether requested edits are applied without asking: never when the
/// conversation has no exchange yet (`latest_exchange_is_passive` is `None`)
/// or when its latest exchange came from a passive request; otherwise as far
/// as the agent may write files.
pub fn should_autoexecute_file_edits(
    latest_exchange_is_passive: Option<bool>,
    runs_to_completion: bool,
    profile: &ExecutionProfile,
) -> (auto: bool)
    ensures
        auto == (latest_exchange_is_passive == Some(false) && (runs_to_completion || write_permission(
            profile.apply_code_diffs,
        ) is Allowed)),
{
    match latest_exchange_is_passive {
        Some(false) => can_write_files(runs_to_completion, profile).is_allowed(),
        _ => false,
    }
}

} // verus!
