//! Prompt suggestions offered after a terminal command finishes.

use vstd::prelude::*;

use crate::text::{trim, trimmed};

verus! {

/// Whether to ask for prompt suggestions after `command`: when it is not
/// blank and the terminal setting is on.
pub fn should_generate_terminal_prompt_suggestions(command: &str, terminal_prompt_suggestions_enabled: bool) -> (ask: bool)
    ensures
        ask == (trimmed(command@).len() > 0 && terminal_prompt_suggestions_enabled),
{
    trim(command).unicode_len() > 0 && terminal_prompt_suggestions_enabled
}

/// A suggestion the service returned.
#[derive(Clone, Debug, PartialEq, Eq)]
pub enum TerminalPromptSuggestion {
    /// A coding task over `files`.
    Coding { query: String, files: Vec<String> },
    Simple { query: String },
    /// A kind of suggestion this client does not offer.
    Unsupported,
}

/// The service's answer to a request for suggestions.
#[derive(Clone, Debug, PartialEq, Eq)]
pub struct TerminalPromptSuggestionsResponse {
    pub id: String,
    pub suggestion: Option<TerminalPromptSuggestion>,
    /// Whether a coding suggestion may be delegated to the agent.
    pub is_valid_code_delegation: bool,
}

/// A suggestion offered to the user.
#[derive(Clone, Debug, PartialEq, Eq)]
pub struct PromptSuggestion {
    pub id: String,
    pub label: Option<String>,
    pub prompt: String,
    pub coding_query_context: Option<Vec<String>>,
    pub should_start_new_conversation: bool,
}

/// The suggestion offered after a command, if any.
#[derive(Clone, Debug, PartialEq, Eq)]
pub enum AgentModePromptSuggestion {
    NoSuggestion,
    Success(PromptSuggestion),
    /// The request for a suggestion failed.
    Error,
}

/// The suggestion to offer for `response`: a coding suggestion only when it
/// may be delegated, a simple one always, in a new conversation.
pub fn map_prompt_suggestions_response(response: TerminalPromptSuggestionsResponse) -> (offered: AgentModePromptSuggestion)
    ensures
        match response.suggestion {
            Some(TerminalPromptSuggestion::Coding { query, files }) => if response.is_valid_code_delegation {
                offered == AgentModePromptSuggestion::Success(
                    PromptSuggestion {
                        id: response.id,
                        label: None,
                        prompt: query,
                        coding_query_context: Some(files),
                        should_start_new_conversation: true,
                    },
                )
            } else {
                offered == AgentModePromptSuggestion::NoSuggestion
            },
            Some(TerminalPromptSuggestion::Simple { query }) => offered
                == AgentModePromptSuggestion::Success(
                PromptSuggestion {
                    id: response.id,
                    label: None,
                    prompt: query,
                    coding_query_context: None,
                    should_start_new_conversation: true,
                },
            ),
            _ => offered == AgentModePromptSuggestion::NoSuggestion,
        },
{
    let TerminalPromptSuggestionsResponse { id, suggestion, is_valid_code_delegation } = response;
    match suggestion {
        Some(TerminalPromptSuggestion::Coding { query, files }) => {
            if is_valid_code_delegation {
                AgentModePromptSuggestion::Success(
                    PromptSuggestion {
                        id,
                        label: None,
                        prompt: query,
                        coding_query_context: Some(files),
                        should_start_new_conversation: true,
                    },
                )
            } else {
                AgentModePromptSuggestion::NoSuggestion
            }
        },
        Some(TerminalPromptSuggestion::Simple { query }) => AgentModePromptSuggestion::Success(
            PromptSuggestion {
                id,
                label: None,
                prompt: query,
                coding_query_context: None,
                should_start_new_conversation: true,
            },
        ),
        _ => AgentModePromptSuggestion::NoSuggestion,
    }
}

/// Events of the passive suggestions model.
#[derive(Clone, Debug, PartialEq, Eq)]
pub enum PassiveSuggestionsEvent {
    PromptSuggestionsGenerated {
        prompt_suggestion: AgentModePromptSuggestion,
        block_id: u64,
        command: String,
        request_duration_ms: u64,
    },
}

/// What the passive suggestions model reacts to.
pub enum PassiveSuggestionsInput {
    /// A command started in the terminal.
    BlockStarted,
    /// A command finished; `was_part_of_agent_interaction` when the agent ran it.
    UserBlockCompleted { block_id: u64, command: String, was_part_of_agent_interaction: bool },
    /// The agent controller sent a request.
    SentRequest,
    /// The pending request for `block_id` came back: `response` is `None`
    /// when it failed. The times are in milliseconds.
    SuggestionsArrived {
        block_id: u64,
        command: String,
        response: Option<TerminalPromptSuggestionsResponse>,
        start_ts_ms: i64,
        end_ts_ms: i64,
    },
}

/// What the model asks of its owner.
#[derive(Clone, Debug, PartialEq, Eq)]
pub enum PassiveSuggestionsAction {
    /// Drop the request in flight.
    AbortPending,
    /// Ask the service for suggestions after `command` (block `block_id`).
    Generate { block_id: u64, command: String },
    /// Tell the listeners.
    Emit(PassiveSuggestionsEvent),
}

/// Whether a request for suggestions is in flight.
pub struct PassiveSuggestionsModel {
    pending: bool,
}

/// `end - start`, saturating at the bounds of `i64`, then read as a `u64`
/// as `as` reads it (a negative difference wraps).
pub open spec fn request_duration(start_ts_ms: i64, end_ts_ms: i64) -> u64 {
    let d = end_ts_ms - start_ts_ms;
    let sat: i64 = if d > i64::MAX {
        i64::MAX
    } else if d < i64::MIN {
        i64::MIN
    } else {
        d as i64
    };
    sat as u64
}

fn duration_ms(start_ts_ms: i64, end_ts_ms: i64) -> (d: u64)
    ensures
        d == request_duration(start_ts_ms, end_ts_ms),
{
    let d: i128 = end_ts_ms as i128 - start_ts_ms as i128;
    let sat: i64 = if d > i64::MAX as i128 {
        i64::MAX
    } else if d < i64::MIN as i128 {
        i64::MIN
    } else {
        d as i64
    };
    #[verifier::truncate]
    (sat as u64)
}

/// The suggestion offered for what came back (see `map_prompt_suggestions_response`).
pub open spec fn offered_for(response: Option<TerminalPromptSuggestionsResponse>, offered: AgentModePromptSuggestion) -> bool {
    match response {
        None => offered == AgentModePromptSuggestion::Error,
        Some(r) => match r.suggestion {
            Some(TerminalPromptSuggestion::Coding { query, files }) => if r.is_valid_code_delegation {
                offered == AgentModePromptSuggestion::Success(
                    PromptSuggestion {
                        id: r.id,
                        label: None,
                        prompt: query,
                        coding_query_context: Some(files),
                        should_start_new_conversation: true,
                    },
                )
            } else {
                offered == AgentModePromptSuggestion::NoSuggestion
            },
            Some(TerminalPromptSuggestion::Simple { query }) => offered == AgentModePromptSuggestion::Success(
                PromptSuggestion {
                    id: r.id,
                    label: None,
                    prompt: query,
                    coding_query_context: None,
                    should_start_new_conversation: true,
                },
            ),
            _ => offered == AgentModePromptSuggestion::NoSuggestion,
        },
    }
}

impl PassiveSuggestionsModel {
    pub closed spec fn is_pending(self) -> bool {
        self.pending
    }

    /// A model with no request in flight.
    pub fn new() -> (model: Self)
        ensures
            !model.is_pending(),
    {
        PassiveSuggestionsModel { pending: false }
    }

    /// Whether a request is in flight.
    pub fn has_pending_request(&self) -> (pending: bool)
        ensures
            pending == self.is_pending(),
    {
        self.pending
    }

    /// Records that the owner started the request it was asked for.
    pub fn request_started(&mut self)
        ensures
            final(self).is_pending(),
    {
        self.pending = true;
    }

    /// Forgets the request in flight; says whether there was one to drop.
    pub fn abort_pending_requests(&mut self) -> (aborted: bool)
        ensures
            aborted == old(self).is_pending(),
            !final(self).is_pending(),
    {
        let aborted = self.pending;
        self.pending = false;
        aborted
    }

    /// Reacts to `input`: a starting command or a sent agent request drops
    /// the request in flight; a command the user ran drops it too and, when
    /// it is not blank and the setting is on, asks for suggestions; an
    /// answer ends the request and is reported with the suggestion it gives
    /// (`Error` when the request failed) and how long it took.
    pub fn handle(&mut self, input: PassiveSuggestionsInput, suggestions_enabled: bool) -> (actions: Vec<
        PassiveSuggestionsAction,
    >)
        ensures
            match input {
                PassiveSuggestionsInput::BlockStarted | PassiveSuggestionsInput::SentRequest => {
                    &&& !final(self).is_pending()
                    &&& actions@ == if old(self).is_pending() {
                        seq![PassiveSuggestionsAction::AbortPending]
                    } else {
                        Seq::empty()
                    }
                },
                PassiveSuggestionsInput::UserBlockCompleted { block_id, command, was_part_of_agent_interaction } => {
                    if was_part_of_agent_interaction {
                        final(self).is_pending() == old(self).is_pending() && actions@.len() == 0
                    } else {
                        let aborts: Seq<PassiveSuggestionsAction> = if old(self).is_pending() {
                            seq![PassiveSuggestionsAction::AbortPending]
                        } else {
                            Seq::empty()
                        };
                        &&& !final(self).is_pending()
                        &&& if trimmed(command@).len() > 0 && suggestions_enabled {
                            actions@.len() == aborts.len() + 1 && actions@.subrange(0, aborts.len() as int)
                                == aborts && actions@.last() == PassiveSuggestionsAction::Generate { block_id, command }
                        } else {
                            actions@ == aborts
                        }
                    }
                },
                PassiveSuggestionsInput::SuggestionsArrived { block_id, command, response, start_ts_ms, end_ts_ms } => {
                    &&& !final(self).is_pending()
                    &&& actions@.len() == 1
                    &&& actions@[0] matches PassiveSuggestionsAction::Emit(
                        PassiveSuggestionsEvent::PromptSuggestionsGenerated {
                            prompt_suggestion,
                            block_id: b,
                            command: c,
                            request_duration_ms,
                        },
                    ) && offered_for(response, prompt_suggestion) && b == block_id && c == command
                        && request_duration_ms == request_duration(start_ts_ms, end_ts_ms)
                },
            },
    {
        let mut actions: Vec<PassiveSuggestionsAction> = Vec::new();
        match input {
            PassiveSuggestionsInput::BlockStarted | PassiveSuggestionsInput::SentRequest => {
                if self.abort_pending_requests() {
                    actions.push(PassiveSuggestionsAction::AbortPending);
                }
            },
            PassiveSuggestionsInput::UserBlockCompleted { block_id, command, was_part_of_agent_interaction } => {
                if was_part_of_agent_interaction {
                    return actions;
                }
                if self.abort_pending_requests() {
                    actions.push(PassiveSuggestionsAction::AbortPending);
                }
                let ghost aborts = actions@;
                if should_generate_terminal_prompt_suggestions(command.as_str(), suggestions_enabled) {
                    actions.push(PassiveSuggestionsAction::Generate { block_id, command });
                    assert(actions@.subrange(0, aborts.len() as int) =~= aborts);
                }
            },
            PassiveSuggestionsInput::SuggestionsArrived { block_id, command, response, start_ts_ms, end_ts_ms } => {
                self.pending = false;
                let request_duration_ms = duration_ms(start_ts_ms, end_ts_ms);
                let prompt_suggestion = match response {
                    Some(r) => map_prompt_suggestions_response(r),
                    None => AgentModePromptSuggestion::Error,
                };
                actions.push(
                    PassiveSuggestionsAction::Emit(
                        PassiveSuggestionsEvent::PromptSuggestionsGenerated {
                            prompt_suggestion,
                            block_id,
                            command,
                            request_duration_ms,
                        },
                    ),
                );
            },
        }
        actions
    }
}

} // verus!
