//! The answers to the agent's codebase searches: from what the index and the
//! file reads gave, and the messages for each way a search fails.

use vstd::prelude::*;

use crate::permissions::{read_permission, BlocklistAIPermissions, ExecutionProfile, allowed_in};
use crate::shell::{join_words, joined, string_views};

verus! {

/// Why a search failed.
#[derive(Clone, Copy, Debug, PartialEq, Eq, Structural)]
pub enum SearchCodebaseFailureReason {
    InvalidFilePaths,
    ClientError,
    GetRelevantFilesError,
    CodebaseNotIndexed,
}

/// The answer to a search: the relevant files (`F` is a file's context), or
/// why there are none.
#[derive(Debug)]
pub enum SearchCodebaseResult<F> {
    Success { files: Vec<F> },
    Failed { message: String, reason: SearchCodebaseFailureReason },
}

/// Why the index could not take a search.
#[derive(Clone, Copy, Debug, PartialEq, Eq, Structural)]
pub enum GetRelevantFilesError {
    /// The repository is still being indexed.
    Pending,
    /// No index could be made here.
    CreateFailed,
    /// The directory is in no git repository.
    Missing,
}

/// Whether `result` failed with `message` for `reason`.
pub open spec fn fails_with<F>(result: SearchCodebaseResult<F>, message: Seq<char>, reason: SearchCodebaseFailureReason) -> bool {
    result matches SearchCodebaseResult::Failed { message: m, reason: r } && m@ == message && r == reason
}

/// The answer once the relevant files were read: `read` holds the files
/// read and the paths that do not exist, or why reading failed. Missing
/// paths fail the search, naming them; a read that failed fails it with its
/// error.
pub fn file_context_result<F>(read: Result<(Vec<F>, Vec<String>), String>) -> (result: SearchCodebaseResult<F>)
    ensures
        match read {
            Ok((files, missing)) => if missing@.len() > 0 {
                fails_with(
                    result,
                    "These files do not exist: "@ + joined(string_views(missing@), ", "@),
                    SearchCodebaseFailureReason::InvalidFilePaths,
                )
            } else {
                result matches SearchCodebaseResult::Success { files: f } && f == files
            },
            Err(e) => fails_with(result, e@, SearchCodebaseFailureReason::ClientError),
        },
{
    match read {
        Ok((files, missing)) => {
            if missing.len() > 0 {
                let mut message = String::from_str("These files do not exist: ");
                let names = join_words(&missing, ", ");
                message.append(names.as_str());
                SearchCodebaseResult::Failed { message, reason: SearchCodebaseFailureReason::InvalidFilePaths }
            } else {
                SearchCodebaseResult::Success { files }
            }
        },
        Err(e) => SearchCodebaseResult::Failed { message: e, reason: SearchCodebaseFailureReason::ClientError },
    }
}

/// The answer when the index reports that the search failed.
pub fn relevant_files_error_result<F>() -> (result: SearchCodebaseResult<F>)
    ensures
        fails_with(
            result,
            "The search failed. Try another way to locate the relevant files."@,
            SearchCodebaseFailureReason::GetRelevantFilesError,
        ),
{
    SearchCodebaseResult::Failed {
        message: String::from_str("The search failed. Try another way to locate the relevant files."),
        reason: SearchCodebaseFailureReason::GetRelevantFilesError,
    }
}

/// The answer when the action's repository is not known.
pub fn codebase_unavailable_result<F>() -> (result: SearchCodebaseResult<F>)
    ensures
        fails_with(
            result,
            "The search failed because the codebase is not available. Try another way to locate the relevant files."@,
            SearchCodebaseFailureReason::CodebaseNotIndexed,
        ),
{
    SearchCodebaseResult::Failed {
        message: String::from_str(
            "The search failed because the codebase is not available. Try another way to locate the relevant files.",
        ),
        reason: SearchCodebaseFailureReason::CodebaseNotIndexed,
    }
}

/// The message for an index that could not take the search.
pub open spec fn index_error_message(error: GetRelevantFilesError) -> Seq<char> {
    match error {
        GetRelevantFilesError::Pending => "The current git repository is still being indexed, so search is unavailable right now. You can try again later"@,
        GetRelevantFilesError::CreateFailed => "Relevant file search in the current directory is not available"@,
        GetRelevantFilesError::Missing => "The current directory isn't within a git repository, which is necessary to search for relevant files."@,
    }
}

/// The answer when the index could not take the search: the repository is
/// not indexed, with a message for the reason.
pub fn index_error_result<F>(error: GetRelevantFilesError) -> (result: SearchCodebaseResult<F>)
    ensures
        fails_with(result, index_error_message(error), SearchCodebaseFailureReason::CodebaseNotIndexed),
{
    let message = match error {
        GetRelevantFilesError::Pending => String::from_str(
            "The current git repository is still being indexed, so search is unavailable right now. You can try again later",
        ),
        GetRelevantFilesError::CreateFailed => String::from_str(
            "Relevant file search in the current directory is not available",
        ),
        GetRelevantFilesError::Missing => String::from_str(
            "The current directory isn't within a git repository, which is necessary to search for relevant files.",
        ),
    };
    SearchCodebaseResult::Failed { message, reason: SearchCodebaseFailureReason::CodebaseNotIndexed }
}

/// Whether a search runs without asking: always when its repository is not
/// known yet; otherwise as far as the agent may read the repository in the
/// conversation.
pub fn should_autoexecute_search(
    permissions: &BlocklistAIPermissions,
    conversation_id: u128,
    root_repo_path: Option<String>,
    runs_to_completion: bool,
    profile: &ExecutionProfile,
) -> (auto: bool)
    ensures
        auto == match root_repo_path {
            None => true,
            Some(root) => runs_to_completion || read_permission(
                seq![root@],
                allowed_in(permissions@, Some(conversation_id)),
                profile.read_files,
                string_views(profile.directory_allowlist@),
            ) is Allowed,
        },
{
    match root_repo_path {
        None => true,
        Some(root) => {
            let paths = vec![root];
            assert(string_views(paths@) =~= seq![paths@[0]@]);
            permissions.can_read_files_with_conversation(conversation_id, &paths, runs_to_completion, profile).is_allowed()
        },
    }
}

} // verus!
