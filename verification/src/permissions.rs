//! What an agent may do without asking: read files, write files, run
//! commands, write to the terminal and ask the user questions.
//!
//! The decisions read the active execution profile, whether the conversation
//! runs to completion (auto-approves every action), and, for reads, the files
//! the user already allowed in the conversation. A command that matches the
//! profile's denylist is never run on its own, whatever else holds.

use std::collections::HashMap;
use vstd::prelude::*;

verus! {

broadcast use vstd::std_specs::hash::group_hash_axioms;

/// Whether the pattern `pattern` is a valid regular expression.
pub uninterp spec fn regex_compiles(pattern: Seq<char>) -> bool;

/// Whether the regular expression `pattern` matches somewhere in `haystack`.
pub uninterp spec fn regex_finds(pattern: Seq<char>, haystack: Seq<char>) -> bool;

/// Whether `path` starts with the path `base`, comparing whole components.
pub uninterp spec fn path_has_prefix(path: Seq<char>, base: Seq<char>) -> bool;

/// `regex::Regex::new(pattern).is_ok()`: whether the `regex` crate accepts
/// `pattern`. Its result is a function of the pattern alone.
#[verifier::external_body]
fn regex_is_valid(pattern: &str) -> (ok: bool)
    ensures
        ok == regex_compiles(pattern@),
{
    regex::Regex::new(pattern).is_ok()
}

/// `regex::Regex::new(pattern)` followed by `Regex::is_match(haystack)`:
/// whether the pattern matches anywhere in the haystack. The pattern is
/// known to compile, so the `false` of a failed compilation is never taken.
#[verifier::external_body]
fn regex_search(pattern: &str, haystack: &str) -> (found: bool)
    requires
        regex_compiles(pattern@),
    ensures
        found == regex_finds(pattern@, haystack@),
{
    regex::Regex::new(pattern).map(|re| re.is_match(haystack)).unwrap_or(false)
}

/// `std::path::Path::new(path).starts_with(base)`: whether `base` is a prefix
/// of `path` made of whole components. A path starts with itself.
#[verifier::external_body]
fn path_starts_with(path: &str, base: &str) -> (prefixed: bool)
    ensures
        prefixed == path_has_prefix(path@, base@),
        path@ == base@ ==> prefixed,
{
    std::path::Path::new(path).starts_with(base)
}

/// How much autonomy a profile gives an action.
#[derive(Clone, Copy, Debug, PartialEq, Eq, Structural)]
pub enum ActionPermission {
    AgentDecides,
    AlwaysAllow,
    AlwaysAsk,
}

/// Whether the agent may write to the terminal without asking.
#[derive(Clone, Copy, Debug, PartialEq, Eq, Structural)]
pub enum WriteToPtyPermission {
    AlwaysAllow,
    AlwaysAsk,
}

/// When the agent may ask the user a question.
#[derive(Clone, Copy, Debug, PartialEq, Eq, Structural)]
pub enum AskUserQuestionPermission {
    Never,
    AskExceptInAutoApprove,
    AlwaysAsk,
}

/// The line-continuation character of the shell: a backslash for POSIX
/// shells, a backtick for PowerShell.
#[derive(Clone, Copy, Debug, PartialEq, Eq, Structural)]
pub enum EscapeChar {
    Backslash,
    Backtick,
}

/// The character of `escape`.
pub open spec fn escape_char_value(escape: EscapeChar) -> char {
    match escape {
        EscapeChar::Backslash => '\\',
        EscapeChar::Backtick => '`',
    }
}

/// A regular expression that commands are matched against.
pub struct CommandPredicate {
    pattern: String,
}

impl View for CommandPredicate {
    type V = Seq<char>;

    closed spec fn view(&self) -> Seq<char> {
        self.pattern@
    }
}

impl CommandPredicate {
    #[verifier::type_invariant]
    spec fn compiles(self) -> bool {
        regex_compiles(self.pattern@)
    }

    /// The predicate for the regular expression `pattern`; `None` when the
    /// pattern is not a valid regular expression.
    pub fn new_regex(pattern: &str) -> (predicate: Option<CommandPredicate>)
        ensures
            match predicate {
                Some(p) => regex_compiles(pattern@) && p@ == pattern@,
                None => !regex_compiles(pattern@),
            },
    {
        if regex_is_valid(pattern) {
            Some(CommandPredicate { pattern: pattern.to_string() })
        } else {
            None
        }
    }

    /// The regular expression.
    pub fn pattern(&self) -> (pattern: &str)
        ensures
            pattern@ == self@,
    {
        self.pattern.as_str()
    }

    /// Whether the regular expression matches somewhere in `command`.
    pub fn matches(&self, command: &str) -> (matched: bool)
        ensures
            matched == regex_finds(self@, command@),
    {
        proof {
            use_type_invariant(self);
        }
        regex_search(self.pattern.as_str(), command)
    }
}

/// The settings of the active execution profile that the decisions read.
pub struct ExecutionProfile {
    pub apply_code_diffs: ActionPermission,
    pub read_files: ActionPermission,
    pub execute_commands: ActionPermission,
    pub write_to_pty: WriteToPtyPermission,
    pub ask_user_question: AskUserQuestionPermission,
    pub command_allowlist: Vec<CommandPredicate>,
    pub command_denylist: Vec<CommandPredicate>,
    /// Directories whose files may be read without asking.
    pub directory_allowlist: Vec<String>,
}

/// Whether or not a command can be auto-executed, and why.
#[derive(Clone, Copy, Debug, PartialEq, Eq, Structural)]
pub enum CommandExecutionPermission {
    Allowed(CommandExecutionPermissionAllowedReason),
    Denied(CommandExecutionPermissionDeniedReason),
}

/// Why a command can be auto-executed.
#[derive(Clone, Copy, Debug, PartialEq, Eq, Structural)]
pub enum CommandExecutionPermissionAllowedReason {
    Dispatched,
    ExplicitlyAllowlisted,
    IsReadOnlyAndSettingEnabled,
    AgentDecided,
    AlwaysAllowed,
    RunToCompletion,
}

/// Why a command can't be auto-executed.
#[derive(Clone, Copy, Debug, PartialEq, Eq, Structural)]
pub enum CommandExecutionPermissionDeniedReason {
    AutonomyForceDisabled,
    AlwaysAskEnabled,
    ExplicitlyDenylisted,
    ContainsRedirection,
    AgentDecided,
}

impl CommandExecutionPermission {
    pub fn is_allowed(&self) -> (allowed: bool)
        ensures
            allowed == (*self is Allowed),
    {
        match self {
            CommandExecutionPermission::Allowed(..) => true,
            CommandExecutionPermission::Denied(..) => false,
        }
    }
}

/// Whether or not files can be auto-read, and why.
#[derive(Clone, Copy, Debug, PartialEq, Eq, Structural)]
pub enum FileReadPermission {
    Allowed(FileReadPermissionAllowedReason),
    Denied(FileReadPermissionDeniedReason),
}

/// Why files can be auto-read.
#[derive(Clone, Copy, Debug, PartialEq, Eq, Structural)]
pub enum FileReadPermissionAllowedReason {
    Dispatched,
    AlreadyReadInConvo,
    ExplicitlyAllowlisted,
    AutoreadSettingEnabled,
    AgentDecided,
    RunToCompletion,
}

/// Why files can't be auto-read.
#[derive(Clone, Copy, Debug, PartialEq, Eq, Structural)]
pub enum FileReadPermissionDeniedReason {
    AutonomyForceDisabled,
    AlwaysAskEnabled,
    AgentDecided,
}

impl FileReadPermission {
    pub fn is_allowed(&self) -> (allowed: bool)
        ensures
            allowed == (*self is Allowed),
    {
        match self {
            FileReadPermission::Allowed(..) => true,
            FileReadPermission::Denied(..) => false,
        }
    }
}

/// Whether or not files can be auto-written, and why.
#[derive(Clone, Copy, Debug, PartialEq, Eq, Structural)]
pub enum FileWritePermission {
    Allowed(FileWritePermissionAllowedReason),
    Denied(FileWritePermissionDeniedReason),
}

impl FileWritePermission {
    pub fn is_allowed(&self) -> (allowed: bool)
        ensures
            allowed == (*self is Allowed),
    {
        match self {
            FileWritePermission::Allowed(..) => true,
            FileWritePermission::Denied(..) => false,
        }
    }
}

/// Why files can be written automatically.
#[derive(Clone, Copy, Debug, PartialEq, Eq, Structural)]
pub enum FileWritePermissionAllowedReason {
    Dispatched,
    AgentDecided,
    AutowriteSettingEnabled,
    RunToCompletion,
}

/// Why files can't be written automatically.
#[derive(Clone, Copy, Debug, PartialEq, Eq, Structural)]
pub enum FileWritePermissionDeniedReason {
    AutonomyForceDisabled,
    AlwaysAskEnabled,
    AgentDecided,
}

/// `s` with each `<escape>\n` (read from the left, without overlap) replaced
/// by one space.
pub open spec fn joined_continuations(s: Seq<char>, escape: char) -> Seq<char>
    decreases s.len(),
{
    if s.len() < 2 {
        s
    } else if s[0] == escape && s[1] == '\n' {
        seq![' '] + joined_continuations(s.subrange(2, s.len() as int), escape)
    } else {
        seq![s[0]] + joined_continuations(s.drop_first(), escape)
    }
}

/// Joins the continued lines of `command` into one line, so that a pattern
/// written for one line matches a command split over several.
pub fn normalize_line_continuations(command: &str, escape_char: EscapeChar) -> (normalized: String)
    ensures
        normalized@ == joined_continuations(command@, escape_char_value(escape_char)),
{
    broadcast use vstd::string::group_string_axioms;
    let escape = match escape_char {
        EscapeChar::Backslash => '\\',
        EscapeChar::Backtick => '`',
    };
    let mut chars: Vec<char> = Vec::new();
    for c in it: command.chars()
        invariant
            it.seq() == command@,
            chars@ == command@.subrange(0, it.index() as int),
    {
        chars.push(c);
        assert(chars@ =~= command@.subrange(0, it.index() + 1));
    }
    assert(chars@ =~= command@);
    let n = chars.len();
    let mut out = String::new();
    let mut i: usize = 0;
    while i < n
        invariant
            n == chars@.len(),
            chars@ == command@,
            i <= n,
            escape == escape_char_value(escape_char),
            out@ + joined_continuations(chars@.subrange(i as int, n as int), escape)
                == joined_continuations(command@, escape),
        decreases n - i,
    {
        let ghost rest = chars@.subrange(i as int, n as int);
        let ghost out0 = out@;
        assert(rest[0] == chars@[i as int]);
        if i + 1 < n && chars[i] == escape && chars[i + 1] == '\n' {
            assert(rest[1] == chars@[i + 1]);
            assert(rest.subrange(2, rest.len() as int) =~= chars@.subrange(i + 2, n as int));
            crate::shell::push_char(&mut out, ' ');
            assert(out@ + joined_continuations(chars@.subrange(i + 2, n as int), escape)
                =~= out0 + joined_continuations(rest, escape));
            i += 2;
        } else {
            assert(rest.drop_first() =~= chars@.subrange(i + 1, n as int));
            crate::shell::push_char(&mut out, chars[i]);
            if i + 1 < n {
                assert(rest[1] == chars@[i + 1]);
                assert(out@ + joined_continuations(chars@.subrange(i + 1, n as int), escape)
                    =~= out0 + joined_continuations(rest, escape));
            } else {
                assert(rest =~= seq![chars@[i as int]]);
                assert(chars@.subrange(i + 1, n as int) =~= Seq::<char>::empty());
                assert(out@ + joined_continuations(chars@.subrange(i + 1, n as int), escape)
                    =~= out0 + joined_continuations(rest, escape));
            }
            i += 1;
        }
    }
    assert(chars@.subrange(n as int, n as int) =~= Seq::<char>::empty());
    assert(out@ + Seq::<char>::empty() =~= out@);
    out
}

/// Whether some predicate of `predicates` matches somewhere in `command`.
pub open spec fn some_predicate_matches(predicates: Seq<CommandPredicate>, command: Seq<char>) -> bool {
    exists|k: int| 0 <= k < predicates.len() && regex_finds(#[trigger] predicates[k]@, command)
}

/// Whether some command of `commands` matches the denylist.
pub open spec fn any_denylisted(commands: Seq<Seq<char>>, denylist: Seq<CommandPredicate>) -> bool {
    exists|j: int| 0 <= j < commands.len() && some_predicate_matches(denylist, #[trigger] commands[j])
}

/// Whether every command of `commands` matches the allowlist.
pub open spec fn all_allowlisted(commands: Seq<Seq<char>>, allowlist: Seq<CommandPredicate>) -> bool {
    forall|j: int| 0 <= j < commands.len() ==> some_predicate_matches(allowlist, #[trigger] commands[j])
}

/// The decision on running a command made of `commands` (the command split
/// into its simple commands) on its own.
pub open spec fn command_permission(
    commands: Seq<Seq<char>>,
    contains_redirection: bool,
    is_read_only: bool,
    is_risky: Option<bool>,
    runs_to_completion: bool,
    setting: ActionPermission,
    allowlist: Seq<CommandPredicate>,
    denylist: Seq<CommandPredicate>,
) -> CommandExecutionPermission {
    if any_denylisted(commands, denylist) {
        CommandExecutionPermission::Denied(CommandExecutionPermissionDeniedReason::ExplicitlyDenylisted)
    } else if runs_to_completion {
        CommandExecutionPermission::Allowed(CommandExecutionPermissionAllowedReason::RunToCompletion)
    } else {
        match setting {
            ActionPermission::AgentDecides => if is_risky == Some(false) {
                CommandExecutionPermission::Allowed(CommandExecutionPermissionAllowedReason::AgentDecided)
            } else if contains_redirection {
                CommandExecutionPermission::Denied(
                    CommandExecutionPermissionDeniedReason::ContainsRedirection,
                )
            } else if all_allowlisted(commands, allowlist) {
                CommandExecutionPermission::Allowed(
                    CommandExecutionPermissionAllowedReason::ExplicitlyAllowlisted,
                )
            } else if is_read_only {
                CommandExecutionPermission::Allowed(CommandExecutionPermissionAllowedReason::AgentDecided)
            } else {
                CommandExecutionPermission::Denied(CommandExecutionPermissionDeniedReason::AgentDecided)
            },
            ActionPermission::AlwaysAllow => CommandExecutionPermission::Allowed(
                CommandExecutionPermissionAllowedReason::AlwaysAllowed,
            ),
            ActionPermission::AlwaysAsk => if all_allowlisted(commands, allowlist) {
                CommandExecutionPermission::Allowed(
                    CommandExecutionPermissionAllowedReason::ExplicitlyAllowlisted,
                )
            } else {
                CommandExecutionPermission::Denied(CommandExecutionPermissionDeniedReason::AlwaysAskEnabled)
            },
        }
    }
}

/// Whether `path` lies under one of `bases`.
pub open spec fn under_one_of(path: Seq<char>, bases: Seq<Seq<char>>) -> bool {
    exists|j: int| 0 <= j < bases.len() && path_has_prefix(path, #[trigger] bases[j])
}

/// Whether every path of `paths` lies under one of `bases`.
pub open spec fn all_under(paths: Seq<Seq<char>>, bases: Seq<Seq<char>>) -> bool {
    forall|i: int| 0 <= i < paths.len() ==> #[trigger] under_one_of(paths[i], bases)
}

/// The decision on reading `paths` on their own, given the files already
/// allowed in the conversation (`already_allowed`, when it has any).
pub open spec fn read_permission(
    paths: Seq<Seq<char>>,
    already_allowed: Option<Seq<Seq<char>>>,
    setting: ActionPermission,
    directory_allowlist: Seq<Seq<char>>,
) -> FileReadPermission {
    if paths.len() == 0 {
        FileReadPermission::Allowed(FileReadPermissionAllowedReason::ExplicitlyAllowlisted)
    } else if already_allowed is Some && all_under(paths, already_allowed->0) {
        FileReadPermission::Allowed(FileReadPermissionAllowedReason::AlreadyReadInConvo)
    } else {
        match setting {
            ActionPermission::AgentDecides => FileReadPermission::Allowed(
                FileReadPermissionAllowedReason::AgentDecided,
            ),
            ActionPermission::AlwaysAllow => FileReadPermission::Allowed(
                FileReadPermissionAllowedReason::AutoreadSettingEnabled,
            ),
            ActionPermission::AlwaysAsk => if all_under(paths, directory_allowlist) {
                FileReadPermission::Allowed(FileReadPermissionAllowedReason::ExplicitlyAllowlisted)
            } else {
                FileReadPermission::Denied(FileReadPermissionDeniedReason::AlwaysAskEnabled)
            },
        }
    }
}

/// The decision on writing files given the profile's setting alone.
pub open spec fn write_permission(setting: ActionPermission) -> FileWritePermission {
    match setting {
        ActionPermission::AgentDecides => FileWritePermission::Denied(
            FileWritePermissionDeniedReason::AgentDecided,
        ),
        ActionPermission::AlwaysAllow => FileWritePermission::Allowed(
            FileWritePermissionAllowedReason::AutowriteSettingEnabled,
        ),
        ActionPermission::AlwaysAsk => FileWritePermission::Denied(
            FileWritePermissionDeniedReason::AlwaysAskEnabled,
        ),
    }
}

/// Whether some predicate of `predicates` matches somewhere in `command`.
fn any_predicate_matches(predicates: &Vec<CommandPredicate>, command: &str) -> (matched: bool)
    ensures
        matched == some_predicate_matches(predicates@, command@),
{
    let mut k: usize = 0;
    while k < predicates.len()
        invariant
            k <= predicates.len(),
            forall|x: int| 0 <= x < k ==> !regex_finds(#[trigger] predicates@[x]@, command@),
        decreases predicates.len() - k,
    {
        if predicates[k].matches(command) {
            return true;
        }
        k += 1;
    }
    false
}

/// Whether some command of `commands` matches the denylist.
fn some_command_denylisted(commands: &Vec<String>, denylist: &Vec<CommandPredicate>) -> (denied: bool)
    ensures
        denied == any_denylisted(crate::shell::string_views(commands@), denylist@),
{
    let ghost views = crate::shell::string_views(commands@);
    let mut j: usize = 0;
    while j < commands.len()
        invariant
            j <= commands.len(),
            views == crate::shell::string_views(commands@),
            forall|x: int| 0 <= x < j ==> !some_predicate_matches(denylist@, #[trigger] views[x]),
        decreases commands.len() - j,
    {
        if any_predicate_matches(denylist, commands[j].as_str()) {
            assert(views[j as int] == commands@[j as int]@);
            return true;
        }
        j += 1;
    }
    false
}

/// Whether every command of `commands` matches the allowlist.
fn every_command_allowlisted(commands: &Vec<String>, allowlist: &Vec<CommandPredicate>) -> (allowed: bool)
    ensures
        allowed == all_allowlisted(crate::shell::string_views(commands@), allowlist@),
{
    let ghost views = crate::shell::string_views(commands@);
    let mut j: usize = 0;
    while j < commands.len()
        invariant
            j <= commands.len(),
            views == crate::shell::string_views(commands@),
            forall|x: int| 0 <= x < j ==> some_predicate_matches(allowlist@, #[trigger] views[x]),
        decreases commands.len() - j,
    {
        if !any_predicate_matches(allowlist, commands[j].as_str()) {
            assert(views[j as int] == commands@[j as int]@);
            return false;
        }
        j += 1;
    }
    true
}

/// Whether `path` lies under one of `bases`.
fn under_some(path: &str, bases: &Vec<String>) -> (found: bool)
    ensures
        found == under_one_of(path@, crate::shell::string_views(bases@)),
{
    let ghost base_views = crate::shell::string_views(bases@);
    let mut j: usize = 0;
    while j < bases.len()
        invariant
            j <= bases.len(),
            base_views == crate::shell::string_views(bases@),
            forall|x: int| 0 <= x < j ==> !path_has_prefix(path@, #[trigger] base_views[x]),
        decreases bases.len() - j,
    {
        assert(base_views[j as int] == bases@[j as int]@);
        if path_starts_with(path, bases[j].as_str()) {
            return true;
        }
        j += 1;
    }
    false
}

/// Whether every path of `paths` lies under one of `bases`.
fn all_paths_under(paths: &Vec<String>, bases: &Vec<String>) -> (all: bool)
    ensures
        all == all_under(crate::shell::string_views(paths@), crate::shell::string_views(bases@)),
{
    let ghost views = crate::shell::string_views(paths@);
    let ghost base_views = crate::shell::string_views(bases@);
    let mut i: usize = 0;
    while i < paths.len()
        invariant
            i <= paths.len(),
            views == crate::shell::string_views(paths@),
            base_views == crate::shell::string_views(bases@),
            forall|x: int| 0 <= x < i ==> #[trigger] under_one_of(views[x], base_views),
        decreases paths.len() - i,
    {
        assert(views[i as int] == paths@[i as int]@);
        if !under_some(paths[i].as_str(), bases) {
            return false;
        }
        i += 1;
    }
    true
}

/// Decides whether the command made of `commands` (the command split into
/// its simple commands; see `normalize_line_continuations` for the text to
/// split) may run without asking. The denylist comes first: a denylisted
/// command is never auto-executed.
pub fn can_autoexecute_command(
    commands: &Vec<String>,
    contains_redirection: bool,
    is_read_only: bool,
    is_risky: Option<bool>,
    runs_to_completion: bool,
    profile: &ExecutionProfile,
) -> (permission: CommandExecutionPermission)
    ensures
        permission == command_permission(
            crate::shell::string_views(commands@),
            contains_redirection,
            is_read_only,
            is_risky,
            runs_to_completion,
            profile.execute_commands,
            profile.command_allowlist@,
            profile.command_denylist@,
        ),
{
    if some_command_denylisted(commands, &profile.command_denylist) {
        return CommandExecutionPermission::Denied(
            CommandExecutionPermissionDeniedReason::ExplicitlyDenylisted,
        );
    }
    if runs_to_completion {
        return CommandExecutionPermission::Allowed(
            CommandExecutionPermissionAllowedReason::RunToCompletion,
        );
    }
    match profile.execute_commands {
        ActionPermission::AgentDecides => {
            if is_risky == Some(false) {
                return CommandExecutionPermission::Allowed(
                    CommandExecutionPermissionAllowedReason::AgentDecided,
                );
            }
            if contains_redirection {
                return CommandExecutionPermission::Denied(
                    CommandExecutionPermissionDeniedReason::ContainsRedirection,
                );
            }
            if every_command_allowlisted(commands, &profile.command_allowlist) {
                return CommandExecutionPermission::Allowed(
                    CommandExecutionPermissionAllowedReason::ExplicitlyAllowlisted,
                );
            }
            if is_read_only {
                CommandExecutionPermission::Allowed(
                    CommandExecutionPermissionAllowedReason::AgentDecided,
                )
            } else {
                CommandExecutionPermission::Denied(
                    CommandExecutionPermissionDeniedReason::AgentDecided,
                )
            }
        },
        ActionPermission::AlwaysAllow => CommandExecutionPermission::Allowed(
            CommandExecutionPermissionAllowedReason::AlwaysAllowed,
        ),
        ActionPermission::AlwaysAsk => {
            if every_command_allowlisted(commands, &profile.command_allowlist) {
                CommandExecutionPermission::Allowed(
                    CommandExecutionPermissionAllowedReason::ExplicitlyAllowlisted,
                )
            } else {
                CommandExecutionPermission::Denied(
                    CommandExecutionPermissionDeniedReason::AlwaysAskEnabled,
                )
            }
        },
    }
}

/// Decides whether files may be written without asking: always in a
/// conversation that runs to completion, else as the profile says.
pub fn can_write_files(runs_to_completion: bool, profile: &ExecutionProfile) -> (permission: FileWritePermission)
    ensures
        permission == if runs_to_completion {
            FileWritePermission::Allowed(FileWritePermissionAllowedReason::RunToCompletion)
        } else {
            write_permission(profile.apply_code_diffs)
        },
{
    if runs_to_completion {
        return FileWritePermission::Allowed(FileWritePermissionAllowedReason::RunToCompletion);
    }
    determine_write_permissions_from_active_profile(profile)
}

/// The write decision of the profile's setting alone.
pub fn determine_write_permissions_from_active_profile(profile: &ExecutionProfile) -> (permission: FileWritePermission)
    ensures
        permission == write_permission(profile.apply_code_diffs),
{
    match profile.apply_code_diffs {
        ActionPermission::AgentDecides => FileWritePermission::Denied(
            FileWritePermissionDeniedReason::AgentDecided,
        ),
        ActionPermission::AlwaysAllow => FileWritePermission::Allowed(
            FileWritePermissionAllowedReason::AutowriteSettingEnabled,
        ),
        ActionPermission::AlwaysAsk => FileWritePermission::Denied(
            FileWritePermissionDeniedReason::AlwaysAskEnabled,
        ),
    }
}

/// Whether the agent may write to the terminal: always in a conversation
/// that runs to completion, else as the profile says.
pub fn can_write_to_pty(runs_to_completion: bool, profile: &ExecutionProfile) -> (permission: WriteToPtyPermission)
    ensures
        permission == if runs_to_completion {
            WriteToPtyPermission::AlwaysAllow
        } else {
            profile.write_to_pty
        },
{
    if runs_to_completion {
        return WriteToPtyPermission::AlwaysAllow;
    }
    profile.write_to_pty
}

/// Whether the agent may ask the user a question: never, always, or unless
/// the conversation auto-approves its actions.
pub fn can_ask_user_question(runs_to_completion: bool, profile: &ExecutionProfile) -> (may_ask: bool)
    ensures
        may_ask == match profile.ask_user_question {
            AskUserQuestionPermission::Never => false,
            AskUserQuestionPermission::AskExceptInAutoApprove => !runs_to_completion,
            AskUserQuestionPermission::AlwaysAsk => true,
        },
{
    match profile.ask_user_question {
        AskUserQuestionPermission::Never => false,
        AskUserQuestionPermission::AskExceptInAutoApprove => !runs_to_completion,
        AskUserQuestionPermission::AlwaysAsk => true,
    }
}

/// The files the user allowed the agent to read, per conversation.
pub struct BlocklistAIPermissions {
    temporary_file_permissions: HashMap<u128, Vec<String>>,
}

impl View for BlocklistAIPermissions {
    type V = Map<u128, Seq<Seq<char>>>;

    closed spec fn view(&self) -> Map<u128, Seq<Seq<char>>> {
        self.temporary_file_permissions@.map_values(|files: Vec<String>| crate::shell::string_views(files@))
    }
}

/// The files allowed in `conversation_id`, if it has any.
pub open spec fn allowed_in(p: Map<u128, Seq<Seq<char>>>, conversation_id: Option<u128>) -> Option<Seq<Seq<char>>> {
    match conversation_id {
        Some(c) => if p.contains_key(c) {
            Some(p[c])
        } else {
            None
        },
        None => None,
    }
}

/// Whether `after` is `before` with `files` granted in `conversation_id`:
/// every other conversation keeps its grants, and this one holds its earlier
/// grants followed by `files`.
pub open spec fn adds_grants(
    before: Map<u128, Seq<Seq<char>>>,
    after: Map<u128, Seq<Seq<char>>>,
    conversation_id: u128,
    files: Seq<Seq<char>>,
) -> bool {
    after == before.insert(
        conversation_id,
        (if before.contains_key(conversation_id) {
            before[conversation_id]
        } else {
            Seq::empty()
        }) + files,
    )
}

impl BlocklistAIPermissions {
    /// No file allowed in any conversation.
    pub fn new() -> (permissions: Self)
        ensures
            permissions@ == Map::<u128, Seq<Seq<char>>>::empty(),
    {
        let permissions = BlocklistAIPermissions { temporary_file_permissions: HashMap::new() };
        assert(permissions@ =~= Map::<u128, Seq<Seq<char>>>::empty());
        permissions
    }

    /// Allows the agent to read `files` for the rest of `conversation_id`:
    /// they are appended to the conversation's grants.
    pub fn add_temporary_file_read_permissions(&mut self, conversation_id: u128, files: Vec<String>)
        ensures
            adds_grants(old(self)@, final(self)@, conversation_id, crate::shell::string_views(files@)),
    {
        let mut allowed = match self.temporary_file_permissions.remove(&conversation_id) {
            Some(allowed) => allowed,
            None => Vec::new(),
        };
        let ghost start = crate::shell::string_views(allowed@);
        let ghost file_views = crate::shell::string_views(files@);
        let mut i: usize = 0;
        while i < files.len()
            invariant
                i <= files.len(),
                file_views == crate::shell::string_views(files@),
                crate::shell::string_views(allowed@) == start + file_views.subrange(0, i as int),
            decreases files.len() - i,
        {
            let ghost views_before = crate::shell::string_views(allowed@);
            allowed.push(files[i].clone());
            assert(crate::shell::string_views(allowed@) =~= views_before.push(files@[i as int]@));
            assert(file_views.subrange(0, i + 1) =~= file_views.subrange(0, i as int).push(files@[i as int]@));
            assert(crate::shell::string_views(allowed@) =~= start + file_views.subrange(0, i + 1));
            i += 1;
        }
        assert(file_views.subrange(0, files.len() as int) =~= file_views);
        let ghost final_views = crate::shell::string_views(allowed@);
        self.temporary_file_permissions.insert(conversation_id, allowed);
        assert(start == (if old(self)@.contains_key(conversation_id) {
            old(self)@[conversation_id]
        } else {
            Seq::empty()
        }));
        assert(self@ =~= old(self)@.insert(conversation_id, final_views));
    }

    /// Decides whether `paths` may be read without asking in
    /// `conversation_id` (when given): vacuously for no path, when the user
    /// already allowed them in the conversation, else as the profile's setting
    /// and directory allowlist say.
    pub fn can_read_files(
        &self,
        conversation_id: Option<u128>,
        paths: &Vec<String>,
        profile: &ExecutionProfile,
    ) -> (permission: FileReadPermission)
        ensures
            permission == read_permission(
                crate::shell::string_views(paths@),
                allowed_in(self@, conversation_id),
                profile.read_files,
                crate::shell::string_views(profile.directory_allowlist@),
            ),
    {
        if paths.len() == 0 {
            return FileReadPermission::Allowed(FileReadPermissionAllowedReason::ExplicitlyAllowlisted);
        }
        match conversation_id {
            Some(c) => match self.temporary_file_permissions.get(&c) {
                Some(allowed) => {
                    if all_paths_under(paths, allowed) {
                        return FileReadPermission::Allowed(
                            FileReadPermissionAllowedReason::AlreadyReadInConvo,
                        );
                    }
                },
                None => {},
            },
            None => {},
        }
        match profile.read_files {
            ActionPermission::AgentDecides => FileReadPermission::Allowed(
                FileReadPermissionAllowedReason::AgentDecided,
            ),
            ActionPermission::AlwaysAllow => FileReadPermission::Allowed(
                FileReadPermissionAllowedReason::AutoreadSettingEnabled,
            ),
            ActionPermission::AlwaysAsk => {
                if all_paths_under(paths, &profile.directory_allowlist) {
                    FileReadPermission::Allowed(FileReadPermissionAllowedReason::ExplicitlyAllowlisted)
                } else {
                    FileReadPermission::Denied(FileReadPermissionDeniedReason::AlwaysAskEnabled)
                }
            },
        }
    }

    /// Decides whether `paths` may be read without asking in
    /// `conversation_id`: always when the conversation runs to completion,
    /// else as `can_read_files` decides.
    pub fn can_read_files_with_conversation(
        &self,
        conversation_id: u128,
        paths: &Vec<String>,
        runs_to_completion: bool,
        profile: &ExecutionProfile,
    ) -> (permission: FileReadPermission)
        ensures
            permission == if runs_to_completion {
                FileReadPermission::Allowed(FileReadPermissionAllowedReason::RunToCompletion)
            } else {
                read_permission(
                    crate::shell::string_views(paths@),
                    allowed_in(self@, Some(conversation_id)),
                    profile.read_files,
                    crate::shell::string_views(profile.directory_allowlist@),
                )
            },
    {
        if runs_to_completion {
            return FileReadPermission::Allowed(FileReadPermissionAllowedReason::RunToCompletion);
        }
        self.can_read_files(Some(conversation_id), paths, profile)
    }
}

/// A command the denylist matches is never run on its own, whatever the
/// profile, the conversation's run-to-completion mode or the command's
/// other traits say.
pub proof fn law_denylist_takes_precedence(
    commands: Seq<Seq<char>>,
    contains_redirection: bool,
    is_read_only: bool,
    is_risky: Option<bool>,
    runs_to_completion: bool,
    setting: ActionPermission,
    allowlist: Seq<CommandPredicate>,
    denylist: Seq<CommandPredicate>,
    j: int,
)
    requires
        0 <= j < commands.len(),
        some_predicate_matches(denylist, commands[j]),
    ensures
        command_permission(
            commands,
            contains_redirection,
            is_read_only,
            is_risky,
            runs_to_completion,
            setting,
            allowlist,
            denylist,
        ) == CommandExecutionPermission::Denied(
            CommandExecutionPermissionDeniedReason::ExplicitlyDenylisted,
        ),
{
    assert(any_denylisted(commands, denylist));
}

/// A conversation that runs to completion auto-executes every command the
/// denylist does not match.
pub proof fn law_run_to_completion_allows_the_rest(
    commands: Seq<Seq<char>>,
    contains_redirection: bool,
    is_read_only: bool,
    is_risky: Option<bool>,
    setting: ActionPermission,
    allowlist: Seq<CommandPredicate>,
    denylist: Seq<CommandPredicate>,
)
    requires
        !any_denylisted(commands, denylist),
    ensures
        command_permission(commands, contains_redirection, is_read_only, is_risky, true, setting, allowlist, denylist)
            == CommandExecutionPermission::Allowed(CommandExecutionPermissionAllowedReason::RunToCompletion),
{
}

/// Under the agent-decides setting, with no denylisted command and no
/// run-to-completion, a command the agent judged not risky is auto-executed,
/// whatever its redirections, the allowlist or its read-only status say.
pub proof fn law_agent_runs_commands_it_judged_safe(
    commands: Seq<Seq<char>>,
    contains_redirection: bool,
    is_read_only: bool,
    allowlist: Seq<CommandPredicate>,
    denylist: Seq<CommandPredicate>,
)
    requires
        !any_denylisted(commands, denylist),
    ensures
        command_permission(
            commands,
            contains_redirection,
            is_read_only,
            Some(false),
            false,
            ActionPermission::AgentDecides,
            allowlist,
            denylist,
        ) == CommandExecutionPermission::Allowed(CommandExecutionPermissionAllowedReason::AgentDecided),
{
}

/// Under the agent-decides setting, a command the agent did not judge safe
/// and that redirects its output is never auto-executed, whatever the
/// allowlist or its read-only status say (unless denylisted first, or run to
/// completion).
pub proof fn law_redirection_needs_a_safe_judgement(
    commands: Seq<Seq<char>>,
    is_read_only: bool,
    is_risky: Option<bool>,
    allowlist: Seq<CommandPredicate>,
    denylist: Seq<CommandPredicate>,
)
    requires
        !any_denylisted(commands, denylist),
        is_risky != Some(false),
    ensures
        command_permission(
            commands,
            true,
            is_read_only,
            is_risky,
            false,
            ActionPermission::AgentDecides,
            allowlist,
            denylist,
        ) == CommandExecutionPermission::Denied(CommandExecutionPermissionDeniedReason::ContainsRedirection),
{
}

/// Under the agent-decides setting, a command without redirection that the
/// agent did not judge safe runs on its own exactly when every part is
/// allowlisted (reason: allowlisted) or it only reads (reason: the agent's
/// decision); otherwise the agent's decision refuses it.
pub proof fn law_agent_falls_back_on_allowlist_then_read_only(
    commands: Seq<Seq<char>>,
    is_read_only: bool,
    is_risky: Option<bool>,
    allowlist: Seq<CommandPredicate>,
    denylist: Seq<CommandPredicate>,
)
    requires
        !any_denylisted(commands, denylist),
        is_risky != Some(false),
    ensures
        ({
            let p = command_permission(
                commands,
                false,
                is_read_only,
                is_risky,
                false,
                ActionPermission::AgentDecides,
                allowlist,
                denylist,
            );
            &&& all_allowlisted(commands, allowlist) ==> p == CommandExecutionPermission::Allowed(
                CommandExecutionPermissionAllowedReason::ExplicitlyAllowlisted,
            )
            &&& !all_allowlisted(commands, allowlist) && is_read_only ==> p == CommandExecutionPermission::Allowed(
                CommandExecutionPermissionAllowedReason::AgentDecided,
            )
            &&& !all_allowlisted(commands, allowlist) && !is_read_only ==> p == CommandExecutionPermission::Denied(
                CommandExecutionPermissionDeniedReason::AgentDecided,
            )
        }),
{
}

/// Under the always-allow setting every command the denylist does not match
/// runs; under always-ask only those whose every part is allowlisted, and the
/// rest are refused because the setting asks; neither setting reads the
/// command's risk, redirections or read-only status.
pub proof fn law_fixed_settings_ignore_the_command_traits(
    commands: Seq<Seq<char>>,
    contains_redirection: bool,
    is_read_only: bool,
    is_risky: Option<bool>,
    allowlist: Seq<CommandPredicate>,
    denylist: Seq<CommandPredicate>,
)
    requires
        !any_denylisted(commands, denylist),
    ensures
        command_permission(
            commands,
            contains_redirection,
            is_read_only,
            is_risky,
            false,
            ActionPermission::AlwaysAllow,
            allowlist,
            denylist,
        ) == CommandExecutionPermission::Allowed(CommandExecutionPermissionAllowedReason::AlwaysAllowed),
        command_permission(
            commands,
            contains_redirection,
            is_read_only,
            is_risky,
            false,
            ActionPermission::AlwaysAsk,
            allowlist,
            denylist,
        ) == if all_allowlisted(commands, allowlist) {
            CommandExecutionPermission::Allowed(CommandExecutionPermissionAllowedReason::ExplicitlyAllowlisted)
        } else {
            CommandExecutionPermission::Denied(CommandExecutionPermissionDeniedReason::AlwaysAskEnabled)
        },
{
}

/// Reading no file at all is always allowed.
pub proof fn law_reading_no_file_is_allowed(
    already_allowed: Option<Seq<Seq<char>>>,
    setting: ActionPermission,
    directory_allowlist: Seq<Seq<char>>,
)
    ensures
        read_permission(Seq::empty(), already_allowed, setting, directory_allowlist)
            == FileReadPermission::Allowed(FileReadPermissionAllowedReason::ExplicitlyAllowlisted),
{
}

/// Files under what the user allowed in a conversation are readable there,
/// whatever the profile says.
pub proof fn law_allowed_files_stay_readable(
    paths: Seq<Seq<char>>,
    allowed: Seq<Seq<char>>,
    setting: ActionPermission,
    directory_allowlist: Seq<Seq<char>>,
)
    requires
        paths.len() > 0,
        all_under(paths, allowed),
    ensures
        read_permission(paths, Some(allowed), setting, directory_allowlist)
            == FileReadPermission::Allowed(FileReadPermissionAllowedReason::AlreadyReadInConvo),
{
}

/// Sets whether the agent may write to the terminal without asking:
/// always, or never without asking.
pub fn set_always_allow_write_to_pty(profile: &mut ExecutionProfile, enabled: bool)
    ensures
        *final(profile) == (ExecutionProfile {
            write_to_pty: if enabled {
                WriteToPtyPermission::AlwaysAllow
            } else {
                WriteToPtyPermission::AlwaysAsk
            },
            ..*old(profile)
        }),
{
    profile.write_to_pty = if enabled {
        WriteToPtyPermission::AlwaysAllow
    } else {
        WriteToPtyPermission::AlwaysAsk
    };
}

/// Sets whether the agent may read files without asking: always, or only
/// under the allowed directories.
pub fn set_always_allow_read_files(profile: &mut ExecutionProfile, enabled: bool)
    ensures
        *final(profile) == (ExecutionProfile {
            read_files: if enabled {
                ActionPermission::AlwaysAllow
            } else {
                ActionPermission::AlwaysAsk
            },
            ..*old(profile)
        }),
{
    profile.read_files = if enabled {
        ActionPermission::AlwaysAllow
    } else {
        ActionPermission::AlwaysAsk
    };
}

/// Whether some string of `list` holds `s`.
fn lists(list: &Vec<String>, s: &str) -> (found: bool)
    ensures
        found == crate::shell::string_views(list@).contains(s@),
{
    let mut i: usize = 0;
    while i < list.len()
        invariant
            i <= list.len(),
            forall|k: int| 0 <= k < i ==> #[trigger] list@[k]@ != s@,
        decreases list.len() - i,
    {
        if crate::text::str_eq(list[i].as_str(), s) {
            assert(crate::shell::string_views(list@)[i as int] == s@);
            return true;
        }
        i += 1;
    }
    proof {
        if crate::shell::string_views(list@).contains(s@) {
            let k = choose|k: int| 0 <= k < list@.len() && #[trigger] crate::shell::string_views(list@)[k] == s@;
            assert(list@[k]@ != s@);
        }
    }
    false
}

/// Lets the agent read the files under `directory` without asking, and asks
/// for every other file: the directory joins the allowed ones (once), and
/// reading falls back to asking.
pub fn allow_read_files_for_directory(profile: &mut ExecutionProfile, directory: String)
    ensures
        final(profile).read_files == ActionPermission::AlwaysAsk,
        crate::shell::string_views(final(profile).directory_allowlist@) == if crate::shell::string_views(
            old(profile).directory_allowlist@,
        ).contains(directory@) {
            crate::shell::string_views(old(profile).directory_allowlist@)
        } else {
            crate::shell::string_views(old(profile).directory_allowlist@).push(directory@)
        },
        final(profile).apply_code_diffs == old(profile).apply_code_diffs,
        final(profile).execute_commands == old(profile).execute_commands,
        final(profile).write_to_pty == old(profile).write_to_pty,
        final(profile).ask_user_question == old(profile).ask_user_question,
        final(profile).command_allowlist == old(profile).command_allowlist,
        final(profile).command_denylist == old(profile).command_denylist,
{
    profile.read_files = ActionPermission::AlwaysAsk;
    if !lists(&profile.directory_allowlist, directory.as_str()) {
        let ghost before = profile.directory_allowlist@;
        profile.directory_allowlist.push(directory);
        assert(crate::shell::string_views(profile.directory_allowlist@) =~= crate::shell::string_views(before).push(
            profile.directory_allowlist@.last()@,
        ));
    }
}

/// Whether autonomous agent actions are allowed at all: they always are.
pub fn is_agent_mode_autonomy_allowed() -> (allowed: bool)
    ensures
        allowed,
{
    true
}

/// Once a directory is allowed, files under it are read without asking
/// (reading otherwise asks).
pub proof fn law_allowed_directory_is_readable(
    paths: Seq<Seq<char>>,
    directory_allowlist: Seq<Seq<char>>,
    directory: Seq<char>,
)
    requires
        paths.len() > 0,
        forall|i: int| 0 <= i < paths.len() ==> path_has_prefix(#[trigger] paths[i], directory),
    ensures
        read_permission(
            paths,
            None,
            ActionPermission::AlwaysAsk,
            if directory_allowlist.contains(directory) {
                directory_allowlist
            } else {
                directory_allowlist.push(directory)
            },
        ) == FileReadPermission::Allowed(FileReadPermissionAllowedReason::ExplicitlyAllowlisted),
{
    let list = if directory_allowlist.contains(directory) {
        directory_allowlist
    } else {
        directory_allowlist.push(directory)
    };
    let j = if directory_allowlist.contains(directory) {
        choose|j: int| 0 <= j < directory_allowlist.len() && directory_allowlist[j] == directory
    } else {
        directory_allowlist.len() as int
    };
    assert(list[j] == directory);
    assert forall|i: int| 0 <= i < paths.len() implies #[trigger] under_one_of(paths[i], list) by {
        assert(path_has_prefix(paths[i], list[j]));
    }
}

/// Once files are granted in a conversation, every path under one of them,
/// or under a file granted there earlier, is read there without asking,
/// whatever the profile says; the grants of other conversations stay.
pub proof fn law_granted_files_stay_readable(
    before: Map<u128, Seq<Seq<char>>>,
    after: Map<u128, Seq<Seq<char>>>,
    conversation_id: u128,
    files: Seq<Seq<char>>,
    paths: Seq<Seq<char>>,
    setting: ActionPermission,
    directory_allowlist: Seq<Seq<char>>,
)
    requires
        adds_grants(before, after, conversation_id, files),
        paths.len() > 0,
        all_under(
            paths,
            (if before.contains_key(conversation_id) {
                before[conversation_id]
            } else {
                Seq::empty()
            }) + files,
        ),
    ensures
        read_permission(paths, allowed_in(after, Some(conversation_id)), setting, directory_allowlist)
            == FileReadPermission::Allowed(FileReadPermissionAllowedReason::AlreadyReadInConvo),
        forall|c: u128| c != conversation_id ==> allowed_in(after, Some(c)) == allowed_in(before, Some(c)),
{
    let earlier = if before.contains_key(conversation_id) {
        before[conversation_id]
    } else {
        Seq::empty()
    };
    let granted = earlier + files;
    let now = after[conversation_id];
    assert(after.contains_key(conversation_id));
    assert forall|i: int| 0 <= i < paths.len() implies #[trigger] under_one_of(paths[i], now) by {
        assert(under_one_of(paths[i], granted));
        let j = choose|j: int| 0 <= j < granted.len() && path_has_prefix(paths[i], #[trigger] granted[j]);
        let base = granted[j];
        if j < earlier.len() {
            assert(earlier[j] == base);
            assert(earlier.to_set().contains(base));
        } else {
            assert(files[j - earlier.len()] == base);
            assert(files.to_set().contains(base));
        }
        assert(now.to_set().contains(base));
        let k = choose|k: int| 0 <= k < now.len() && now[k] == base;
        assert(path_has_prefix(paths[i], now[k]));
    }
    assert forall|c: u128| c != conversation_id implies allowed_in(after, Some(c)) == allowed_in(before, Some(c)) by {
        if before.contains_key(c) {
            assert(after.contains_key(c));
        } else {
            assert(!after.dom().contains(c));
        }
    }
}

/// The first character of a joined command is a line break only where the
/// command itself starts with one.
proof fn lemma_joined_first(s: Seq<char>, escape: char)
    requires
        escape != ' ',
    ensures
        joined_continuations(s, escape).len() > 0 && joined_continuations(s, escape)[0] == '\n' ==> s.len() > 0
            && s[0] == '\n',
    decreases s.len(),
{
    if s.len() >= 2 && !(s[0] == escape && s[1] == '\n') {
        assert((seq![s[0]] + joined_continuations(s.drop_first(), escape))[0] == s[0]);
    }
    if s.len() >= 2 && s[0] == escape && s[1] == '\n' {
        assert((seq![' '] + joined_continuations(s.subrange(2, s.len() as int), escape))[0] == ' ');
    }
}

/// Joining continued lines leaves no escape character right before a line
/// break: every continuation becomes a space, so a pattern written for one
/// line sees a multi-line command as one line.
pub proof fn law_joined_command_has_no_continuations(s: Seq<char>, escape: char)
    requires
        escape != ' ',
    ensures
        forall|k: int|
            0 <= k < joined_continuations(s, escape).len() - 1 ==> !(#[trigger] joined_continuations(s, escape)[k]
                == escape && joined_continuations(s, escape)[k + 1] == '\n'),
    decreases s.len(),
{
    let r = joined_continuations(s, escape);
    if s.len() < 2 {
    } else if s[0] == escape && s[1] == '\n' {
        let t = s.subrange(2, s.len() as int);
        law_joined_command_has_no_continuations(t, escape);
        let rest = joined_continuations(t, escape);
        assert forall|k: int| 0 <= k < r.len() - 1 implies !(#[trigger] r[k] == escape && r[k + 1] == '\n') by {
            if k > 0 {
                assert(r[k] == rest[k - 1]);
                assert(r[k + 1] == rest[k]);
            }
        }
    } else {
        let t = s.drop_first();
        law_joined_command_has_no_continuations(t, escape);
        lemma_joined_first(t, escape);
        let rest = joined_continuations(t, escape);
        assert forall|k: int| 0 <= k < r.len() - 1 implies !(#[trigger] r[k] == escape && r[k + 1] == '\n') by {
            assert(r[k + 1] == rest[k]);
            if k > 0 {
                assert(r[k] == rest[k - 1]);
            } else {
                assert(r[0] == s[0]);
                assert(t[0] == s[1]);
            }
        }
    }
}

} // verus!
