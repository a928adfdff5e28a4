//! Requests the AI controller builds from user input: slash commands handled
//! through the query flow, the query text of an input, and the identifiers
//! and events of a request.

use vstd::prelude::*;

use crate::shell::{join_words, joined, string_views};
use crate::text::str_eq;

verus! {

/// Slash commands handled through the AI query flow.
#[derive(Clone, Debug, PartialEq, Eq)]
pub enum SlashCommandRequest {
    CreateNewProject { query: String },
    CloneRepository { url: String },
    InitProjectRules,
    FetchReviewComments { repo_path: String },
}

/// The agent inputs a slash command produces; `C` is the context attached.
#[derive(Clone, Debug, PartialEq, Eq)]
pub enum SlashCommandInput<C> {
    CreateNewProject { query: String, context: C },
    CloneRepository { clone_repo_url: String, context: C },
    InitProjectRules { context: C, display_query: Option<String> },
    FetchReviewComments { repo_path: String, context: C },
}

impl SlashCommandRequest {
    /// The request for `query` when it is one handled through the query flow:
    /// exactly `/init` starts project-rule initialisation.
    pub fn from_query(query: &str) -> (request: Option<SlashCommandRequest>)
        ensures
            request == if query@ == "/init"@ {
                Some(SlashCommandRequest::InitProjectRules)
            } else {
                None
            },
    {
        if str_eq(query, "/init") {
            return Some(SlashCommandRequest::InitProjectRules);
        }
        None
    }

    /// The conversation the request belongs to: the selected one for review
    /// comments, none (a new one) otherwise.
    pub fn conversation_id(&self, selected_conversation_id: Option<u128>) -> (id: Option<u128>)
        ensures
            id == match *self {
                SlashCommandRequest::FetchReviewComments { .. } => selected_conversation_id,
                _ => None,
            },
    {
        match self {
            SlashCommandRequest::FetchReviewComments { .. } => selected_conversation_id,
            _ => None,
        }
    }

    /// The agent input the request sends, with `context` attached.
    pub fn input<C>(self, context: C) -> (inputs: Vec<SlashCommandInput<C>>)
        ensures
            inputs@.len() == 1,
            match self {
                SlashCommandRequest::CreateNewProject { query } => inputs@[0]
                    == SlashCommandInput::CreateNewProject { query, context },
                SlashCommandRequest::CloneRepository { url } => inputs@[0]
                    == SlashCommandInput::CloneRepository { clone_repo_url: url, context },
                SlashCommandRequest::InitProjectRules => (inputs@[0] matches SlashCommandInput::InitProjectRules {
                    context: c,
                    display_query: Some(q),
                } && c == context && q@ == "/init"@),
                SlashCommandRequest::FetchReviewComments { repo_path } => inputs@[0]
                    == SlashCommandInput::FetchReviewComments { repo_path, context },
            },
    {
        let input = match self {
            SlashCommandRequest::CreateNewProject { query } => SlashCommandInput::CreateNewProject {
                query,
                context,
            },
            SlashCommandRequest::CloneRepository { url } => SlashCommandInput::CloneRepository {
                clone_repo_url: url,
                context,
            },
            SlashCommandRequest::InitProjectRules => SlashCommandInput::InitProjectRules {
                context,
                display_query: Some("/init".to_string()),
            },
            SlashCommandRequest::FetchReviewComments { repo_path } => {
                SlashCommandInput::FetchReviewComments { repo_path, context }
            },
        };
        let mut inputs = Vec::new();
        inputs.push(input);
        inputs
    }
}

/// Where a query to send comes from.
#[derive(Clone, Debug, PartialEq, Eq)]
pub enum InputQueryType {
    /// Typed by the user in the input.
    UserSubmittedQueryFromInput { query: String },
    /// An agent input, which may carry a user query.
    AIInputType { user_query: Option<String> },
}

/// A query about to be sent.
#[derive(Clone, Debug, PartialEq, Eq)]
pub struct InputQuery {
    pub input_query: InputQueryType,
}

impl InputQuery {
    /// The inputs that go before the query: the finished action results
    /// (`completed`), but only for a query the user typed.
    pub fn prepended_action_results<R>(&self, completed: Vec<R>) -> (inputs: Vec<R>)
        ensures
            inputs@ == if self.input_query is UserSubmittedQueryFromInput {
                completed@
            } else {
                Seq::<R>::empty()
            },
    {
        match &self.input_query {
            InputQueryType::UserSubmittedQueryFromInput { .. } => completed,
            InputQueryType::AIInputType { .. } => Vec::new(),
        }
    }

    /// The query's text: what the user typed, or the agent input's user
    /// query (empty when it has none).
    pub fn query(&self) -> (text: String)
        ensures
            text@ == match self.input_query {
                InputQueryType::UserSubmittedQueryFromInput { query } => query@,
                InputQueryType::AIInputType { user_query } => match user_query {
                    Some(q) => q@,
                    None => Seq::empty(),
                },
            },
    {
        match &self.input_query {
            InputQueryType::UserSubmittedQueryFromInput { query } => query.clone(),
            InputQueryType::AIInputType { user_query } => match user_query {
                Some(q) => q.clone(),
                None => String::new(),
            },
        }
    }
}

/// The identifiers of one request.
#[derive(Clone, Copy, Debug, PartialEq, Eq, Structural)]
pub struct ClientIdentifiers {
    pub conversation_id: u128,
    pub client_exchange_id: u128,
    /// Not known for restored AI blocks.
    pub response_stream_id: Option<u64>,
}

/// Events of the AI controller.
#[derive(Clone, Debug, PartialEq, Eq)]
pub enum BlocklistAIControllerEvent {
    /// A request was sent to the agent.
    SentRequest {
        contains_user_query: bool,
        /// The first send of a previously queued prompt rather than a direct
        /// submission: subscribers leave the input buffer alone.
        is_queued_prompt: bool,
        model_id: String,
        stream_id: u64,
    },
    /// The output of a response was fully received.
    FinishedReceivingOutput { stream_id: u64, conversation_id: u128 },
    /// The export-to-file slash command ran.
    ExportConversationToFile { filename: Option<String> },
}

/// Reads a skill on the agent's request.
#[derive(Debug)]
pub struct ReadSkillExecutor;

impl ReadSkillExecutor {
    pub fn new() -> (executor: Self) {
        ReadSkillExecutor
    }

    /// User-created skills are readable on demand, without asking.
    pub fn should_autoexecute(&self) -> (auto: bool)
        ensures
            auto,
    {
        true
    }
}

/// The conversation whose progress a new request stops, and whether the
/// request follows up in that same conversation.
#[derive(Clone, Copy, Debug, PartialEq, Eq, Structural)]
pub struct FollowUpCancellation {
    pub conversation_id: u128,
    pub is_for_same_conversation: bool,
}

/// What sending a request into `conversation_id` stops: the progress of the
/// view's active conversation, if it has one, as a follow-up that is for the
/// same conversation exactly when the two are one.
pub fn follow_up_cancellation(active_conversation_id: Option<u128>, conversation_id: u128) -> (cancel: Option<
    FollowUpCancellation,
>)
    ensures
        cancel == match active_conversation_id {
            Some(active) => Some(
                FollowUpCancellation {
                    conversation_id: active,
                    is_for_same_conversation: active == conversation_id,
                },
            ),
            None => None::<FollowUpCancellation>,
        },
{
    match active_conversation_id {
        Some(active) => Some(
            FollowUpCancellation { conversation_id: active, is_for_same_conversation: active == conversation_id },
        ),
        None => None,
    }
}

/// Which screen a running command's contents are read from for the agent.
#[derive(Clone, Copy, Debug, PartialEq, Eq, Structural)]
pub enum RunningCommandGrid {
    /// The whole alternate screen.
    AltScreen,
    /// The command's output, at most `max_lines` lines of it.
    Output { max_lines: usize },
}

/// Whether the agent is told of a running command, and from which screen:
/// only a long-running command that the agent is not monitoring already
/// counts; its contents come from the alternate screen while that is active,
/// else from its last thousand lines of output.
pub fn get_running_command(
    is_active_and_long_running: bool,
    is_agent_monitoring: bool,
    is_alt_screen_active: bool,
) -> (grid: Option<RunningCommandGrid>)
    ensures
        grid == if !is_active_and_long_running || is_agent_monitoring {
            None
        } else if is_alt_screen_active {
            Some(RunningCommandGrid::AltScreen)
        } else {
            Some(RunningCommandGrid::Output { max_lines: 1000 })
        },
{
    if !is_active_and_long_running || is_agent_monitoring {
        return None;
    }
    if is_alt_screen_active {
        Some(RunningCommandGrid::AltScreen)
    } else {
        Some(RunningCommandGrid::Output { max_lines: 1000 })
    }
}

/// Why a request is not sent.
#[derive(Clone, Copy, Debug, PartialEq, Eq, Structural)]
pub enum RequestRefusal {
    /// The request names a conversation that is not in memory.
    NoSuchConversation,
    /// The conversation's agent session is still answering an earlier request.
    InFlight,
}

/// Whether a request into a conversation is sent: not when the conversation
/// is unknown, nor while its agent session is active.
pub fn admit_request(conversation_exists: bool, acp_session_active: bool) -> (admitted: Result<(), RequestRefusal>)
    ensures
        admitted == if !conversation_exists {
            Err(RequestRefusal::NoSuchConversation)
        } else if acp_session_active {
            Err(RequestRefusal::InFlight)
        } else {
            Ok::<(), RequestRefusal>(())
        },
{
    if !conversation_exists {
        Err(RequestRefusal::NoSuchConversation)
    } else if acp_session_active {
        Err(RequestRefusal::InFlight)
    } else {
        Ok(())
    }
}

/// What the prompt to an agent session reads of one input of a request.
pub struct AcpPromptInput {
    /// The user's query, when the input is one.
    pub user_query: Option<String>,
    /// The input as text.
    pub text: String,
    /// The sections that describe the input's context and attachments.
    pub context_sections: Vec<String>,
}

/// The user queries of `inputs`, in order.
pub open spec fn user_queries(inputs: Seq<AcpPromptInput>) -> Seq<Seq<char>>
    decreases inputs.len(),
{
    if inputs.len() == 0 {
        Seq::empty()
    } else {
        user_queries(inputs.drop_last()) + match inputs.last().user_query {
            Some(q) => seq![q@],
            None => Seq::empty(),
        }
    }
}

/// The context sections of `inputs`, input after input.
pub open spec fn context_sections_of(inputs: Seq<AcpPromptInput>) -> Seq<Seq<char>>
    decreases inputs.len(),
{
    if inputs.len() == 0 {
        Seq::empty()
    } else {
        context_sections_of(inputs.drop_last()) + string_views(inputs.last().context_sections@)
    }
}

/// The prompt shown and sent for `inputs`: the user queries (or, when there
/// are none, every input's text), then, when there is any context, a
/// "Context:" section holding all of it; parts are separated by blank lines.
pub open spec fn acp_display_prompt(inputs: Seq<AcpPromptInput>) -> Seq<char> {
    let base = if user_queries(inputs).len() > 0 {
        user_queries(inputs)
    } else {
        inputs.map_values(|i: AcpPromptInput| i.text@)
    };
    let context = context_sections_of(inputs);
    let sections = if context.len() > 0 {
        base.push("Context:\n"@ + joined(context, "\n\n"@))
    } else {
        base
    };
    joined(sections, "\n\n"@)
}

/// Whether a request holds a user query: then the input's context is reset
/// once the request is sent.
pub open spec fn has_user_query(inputs: Seq<AcpPromptInput>) -> bool {
    exists|i: int| 0 <= i < inputs.len() && (#[trigger] inputs[i]).user_query is Some
}

/// The prompt for an agent session (see `acp_display_prompt`).
pub fn acp_prompt_from_request(inputs: &Vec<AcpPromptInput>) -> (prompt: String)
    ensures
        prompt@ == acp_display_prompt(inputs@),
{
    let mut queries: Vec<String> = Vec::new();
    let mut texts: Vec<String> = Vec::new();
    let mut context: Vec<String> = Vec::new();
    let mut i: usize = 0;
    while i < inputs.len()
        invariant
            i <= inputs.len(),
            string_views(queries@) == user_queries(inputs@.subrange(0, i as int)),
            string_views(texts@) == inputs@.subrange(0, i as int).map_values(|x: AcpPromptInput| x.text@),
            string_views(context@) == context_sections_of(inputs@.subrange(0, i as int)),
        decreases inputs.len() - i,
    {
        let ghost prefix = inputs@.subrange(0, i as int);
        let ghost next = inputs@.subrange(0, i + 1);
        assert(next.drop_last() =~= prefix);
        let input = &inputs[i];
        match &input.user_query {
            Some(q) => {
                let ghost before = queries@;
                queries.push(q.clone());
                assert(string_views(queries@) =~= string_views(before).push(q@));
            },
            None => {},
        }
        assert(string_views(queries@) =~= user_queries(next));
        let ghost texts_before = texts@;
        texts.push(input.text.clone());
        assert(string_views(texts@) =~= string_views(texts_before).push(input.text@));
        assert(string_views(texts@) =~= next.map_values(|x: AcpPromptInput| x.text@));
        let mut j: usize = 0;
        let ghost context_before = string_views(context@);
        while j < input.context_sections.len()
            invariant
                j <= input.context_sections.len(),
                string_views(context@) == context_before + string_views(input.context_sections@.subrange(0, j as int)),
            decreases input.context_sections.len() - j,
        {
            let ghost c_before = context@;
            context.push(input.context_sections[j].clone());
            assert(string_views(input.context_sections@.subrange(0, j + 1)) =~= string_views(
                input.context_sections@.subrange(0, j as int),
            ).push(input.context_sections@[j as int]@));
            assert(string_views(context@) =~= string_views(c_before).push(input.context_sections@[j as int]@));
            j += 1;
        }
        assert(input.context_sections@.subrange(0, j as int) =~= input.context_sections@);
        assert(string_views(context@) =~= context_sections_of(next));
        i += 1;
    }
    assert(inputs@.subrange(0, i as int) =~= inputs@);
    let mut sections = if queries.len() > 0 {
        queries
    } else {
        texts
    };
    if context.len() > 0 {
        let mut section = String::from_str("Context:\n");
        let joined_context = join_words(&context, "\n\n");
        section.append(joined_context.as_str());
        let ghost before = sections@;
        sections.push(section);
        assert(string_views(sections@) =~= string_views(before).push(sections@.last()@));
    }
    join_words(&sections, "\n\n")
}

/// Whether the request's inputs hold a user query (see `has_user_query`).
pub fn input_contains_user_query(inputs: &Vec<AcpPromptInput>) -> (found: bool)
    ensures
        found == has_user_query(inputs@),
{
    let mut i: usize = 0;
    while i < inputs.len()
        invariant
            i <= inputs.len(),
            forall|k: int| 0 <= k < i ==> (#[trigger] inputs@[k]).user_query is None,
        decreases inputs.len() - i,
    {
        if inputs[i].user_query.is_some() {
            return true;
        }
        i += 1;
    }
    false
}

/// The task a follow-up query goes into.
#[derive(Clone, Copy, Debug, PartialEq, Eq)]
pub enum FollowUpTask<B, T> {
    /// A new subagent task for the command running in block `B`.
    CreateCliSubagentTask { block_id: B },
    /// The existing task `T`.
    Task(T),
    /// None: the conversation is not in memory; the query is dropped.
    Abandon,
}

/// The task a follow-up query in `conversation_id` goes into: a new
/// subagent task for a running command (`running_block`, when the command
/// was detected); else the task of the agent-monitored active block when it
/// belongs to this conversation and has one (`monitored` gives its
/// conversation and task); else the conversation's root task, when the
/// conversation is in memory.
pub fn follow_up_task<B, T>(
    running_block: Option<B>,
    monitored: Option<(u128, Option<T>)>,
    conversation_id: u128,
    root_task: Option<T>,
) -> (task: FollowUpTask<B, T>)
    ensures
        task == match running_block {
            Some(b) => FollowUpTask::CreateCliSubagentTask { block_id: b },
            None => match monitored {
                Some((c, Some(t))) if c == conversation_id => FollowUpTask::Task(t),
                _ => match root_task {
                    Some(t) => FollowUpTask::Task(t),
                    None => FollowUpTask::<B, T>::Abandon,
                },
            },
        },
{
    match running_block {
        Some(b) => return FollowUpTask::CreateCliSubagentTask { block_id: b },
        None => {},
    }
    match monitored {
        Some((c, Some(t))) => {
            if c == conversation_id {
                return FollowUpTask::Task(t);
            }
        },
        _ => {},
    }
    match root_task {
        Some(t) => FollowUpTask::Task(t),
        None => FollowUpTask::Abandon,
    }
}

/// What one finished action's result tells the controller.
#[derive(Clone, Copy, Debug, PartialEq, Eq, Structural)]
pub struct FinishedActionOutcome {
    /// The action was a request for file edits.
    pub is_request_file_edits: bool,
    /// Its result asks for a request to the agent once it completes.
    pub triggers_request: bool,
    /// It succeeded.
    pub is_successful: bool,
}

/// The status a conversation is given when its actions finish and no
/// follow-up request is sent.
#[derive(Clone, Copy, Debug, PartialEq, Eq, Structural)]
pub enum FinishedConversationStatus {
    Success,
    Cancelled,
}

/// What the controller does once an action of a conversation finishes.
#[derive(Clone, Copy, Debug, PartialEq, Eq, Structural)]
pub enum FinishedActionsDecision {
    /// Nothing: actions are still running, the conversation or its results
    /// are gone, or its agent session is still answering.
    Nothing,
    /// Send the results back to the agent in a follow-up request.
    SendFollowUp,
    /// Set the conversation's status.
    UpdateStatus(FinishedConversationStatus),
}

/// Some result asks for a follow-up request.
pub open spec fn any_triggers_request(results: Seq<FinishedActionOutcome>) -> bool {
    exists|i: int| 0 <= i < results.len() && (#[trigger] results[i]).triggers_request
}

/// Every result succeeded.
pub open spec fn all_successful(results: Seq<FinishedActionOutcome>) -> bool {
    forall|i: int| 0 <= i < results.len() ==> (#[trigger] results[i]).is_successful
}

/// The decision once an action of a conversation finishes.
///
/// Nothing happens while actions are unfinished, or when the conversation
/// (`is_entirely_passive_code_diff`) or its finished results are gone. A
/// follow-up is sent when a manual follow-up is pending, or when some result
/// asks for one, unless the conversation is a passive code diff whose last
/// result is a file edit or a long-running command completed. Otherwise,
/// unless the agent session is still active, the status becomes `Success`
/// when every result succeeded or a long-running command completed, else
/// `Cancelled`.
pub open spec fn finished_actions_decision(
    has_unfinished_actions: bool,
    is_entirely_passive_code_diff: Option<bool>,
    results: Option<Seq<FinishedActionOutcome>>,
    has_manual_follow_up: bool,
    is_lrc_command_completed: bool,
    acp_session_active: bool,
) -> FinishedActionsDecision {
    if has_unfinished_actions {
        FinishedActionsDecision::Nothing
    } else {
        match (is_entirely_passive_code_diff, results) {
            (Some(passive), Some(rs)) => {
                let is_passive_code_diff = passive && rs.len() > 0 && rs.last().is_request_file_edits;
                if (!is_passive_code_diff && !is_lrc_command_completed && any_triggers_request(rs))
                    || has_manual_follow_up {
                    FinishedActionsDecision::SendFollowUp
                } else if acp_session_active {
                    FinishedActionsDecision::Nothing
                } else if all_successful(rs) || is_lrc_command_completed {
                    FinishedActionsDecision::UpdateStatus(FinishedConversationStatus::Success)
                } else {
                    FinishedActionsDecision::UpdateStatus(FinishedConversationStatus::Cancelled)
                }
            },
            _ => FinishedActionsDecision::Nothing,
        }
    }
}

/// The contents of `results`, when there are any.
pub open spec fn outcomes_view(results: Option<Vec<FinishedActionOutcome>>) -> Option<Seq<FinishedActionOutcome>> {
    match results {
        Some(v) => Some(v@),
        None => None,
    }
}

/// Decides what follows when an action of a conversation finishes (see
/// `finished_actions_decision`).
pub fn on_actions_finished(
    has_unfinished_actions: bool,
    is_entirely_passive_code_diff: Option<bool>,
    results: &Option<Vec<FinishedActionOutcome>>,
    has_manual_follow_up: bool,
    is_lrc_command_completed: bool,
    acp_session_active: bool,
) -> (decision: FinishedActionsDecision)
    ensures
        decision == finished_actions_decision(
            has_unfinished_actions,
            is_entirely_passive_code_diff,
            outcomes_view(*results),
            has_manual_follow_up,
            is_lrc_command_completed,
            acp_session_active,
        ),
{
    if has_unfinished_actions {
        return FinishedActionsDecision::Nothing;
    }
    let passive = match is_entirely_passive_code_diff {
        Some(p) => p,
        None => {
            return FinishedActionsDecision::Nothing;
        },
    };
    let rs = match results {
        Some(rs) => rs,
        None => {
            return FinishedActionsDecision::Nothing;
        },
    };
    let is_passive_code_diff = passive && rs.len() > 0 && rs[rs.len() - 1].is_request_file_edits;
    let mut any_triggers = false;
    let mut all_ok = true;
    let mut i: usize = 0;
    while i < rs.len()
        invariant
            i <= rs.len(),
            any_triggers == exists|k: int| 0 <= k < i && (#[trigger] rs@[k]).triggers_request,
            all_ok == forall|k: int| 0 <= k < i ==> (#[trigger] rs@[k]).is_successful,
        decreases rs.len() - i,
    {
        if rs[i].triggers_request {
            any_triggers = true;
        }
        if !rs[i].is_successful {
            all_ok = false;
        }
        i += 1;
    }
    if (!is_passive_code_diff && !is_lrc_command_completed && any_triggers) || has_manual_follow_up {
        FinishedActionsDecision::SendFollowUp
    } else if acp_session_active {
        FinishedActionsDecision::Nothing
    } else if all_ok || is_lrc_command_completed {
        FinishedActionsDecision::UpdateStatus(FinishedConversationStatus::Success)
    } else {
        FinishedActionsDecision::UpdateStatus(FinishedConversationStatus::Cancelled)
    }
}

/// Whether leaving the agent view cancels the conversation's progress: not
/// for a conversation without exchanges, nor for one that is gone
/// (`is_in_progress` is `None`); else exactly when it is in progress.
pub fn cancels_on_exit(final_exchange_count: usize, is_in_progress: Option<bool>) -> (cancel: bool)
    ensures
        cancel == (final_exchange_count != 0 && is_in_progress == Some(true)),
{
    if final_exchange_count == 0 {
        return false;
    }
    match is_in_progress {
        Some(in_progress) => in_progress,
        None => false,
    }
}

/// Whether a sent request makes its conversation the view's active one:
/// unless one of its inputs is a passive request (`input_is_passive`).
pub fn marks_conversation_active(input_is_passive: &Vec<bool>) -> (mark: bool)
    ensures
        mark == !input_is_passive@.contains(true),
{
    let mut i: usize = 0;
    while i < input_is_passive.len()
        invariant
            i <= input_is_passive.len(),
            forall|k: int| 0 <= k < i ==> !input_is_passive@[k],
        decreases input_is_passive.len() - i,
    {
        if input_is_passive[i] {
            assert(input_is_passive@[i as int] == true);
            return false;
        }
        i += 1;
    }
    true
}

} // verus!
