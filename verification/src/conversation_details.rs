//! The conversation details panel: its action buttons, events and actions,
//! and the initial query it shows.

use vstd::prelude::*;

use crate::text::{trim, trimmed};

verus! {

/// Which buttons the details panel's action row shows; `A` is the action
/// that opens the conversation.
#[derive(Clone, Debug)]
pub struct ActionButtonsConfig<A> {
    pub open_action: Option<A>,
    pub fork_conversation_id: Option<u128>,
}

impl<A> Default for ActionButtonsConfig<A> {
    fn default() -> (config: Self)
        ensures
            config.open_action is None,
            config.fork_conversation_id is None,
    {
        ActionButtonsConfig { open_action: None, fork_conversation_id: None }
    }
}

impl<A> ActionButtonsConfig<A> {
    /// Whether no button will be rendered.
    pub fn is_empty(&self) -> (empty: bool)
        ensures
            empty == (self.open_action is None && self.fork_conversation_id is None),
    {
        self.open_action.is_none() && self.fork_conversation_id.is_none()
    }

    /// The buttons for `conversation_id`: fork always, open when an action is
    /// given.
    pub fn for_conversation(conversation_id: u128, open_action: Option<A>) -> (config: Self)
        ensures
            config.open_action == open_action,
            config.fork_conversation_id == Some(conversation_id),
    {
        ActionButtonsConfig { open_action, fork_conversation_id: Some(conversation_id) }
    }
}

/// Events emitted by the action buttons.
#[derive(Clone, Copy, Debug, PartialEq, Eq, Structural)]
pub enum AgentDetailsButtonEvent {
    Open,
    ForkConversation { conversation_id: u128 },
}

/// Actions dispatched by button clicks.
#[derive(Clone, Copy, Debug, PartialEq, Eq, Structural)]
pub enum AgentDetailsAction {
    Open,
    ForkConversation,
}

/// Events emitted by the details panel.
#[derive(Clone, Copy, Debug, PartialEq, Eq, Structural)]
pub enum ConversationDetailsPanelEvent {
    Close,
}

/// Actions of the details panel.
#[derive(Clone, Copy, Debug, PartialEq, Eq, Structural)]
pub enum ConversationDetailsPanelAction {
    Close,
    CopyDirectory,
    CopyConversationId,
    CopyInitialQuery,
    Focus,
    CopySelectedText,
}

/// The initial query to show: the prompt without surrounding white space,
/// unless nothing is left.
pub fn trimmed_initial_query(source_prompt: &Option<String>) -> (query: Option<&str>)
    ensures
        match source_prompt {
            Some(prompt) => if trimmed(prompt@).len() > 0 {
                query matches Some(q) && q@ == trimmed(prompt@)
            } else {
                query is None
            },
            None => query is None,
        },
{
    let prompt = match source_prompt {
        Some(prompt) => prompt,
        None => {
            return None;
        },
    };
    let query = trim(prompt.as_str());
    if query.unicode_len() == 0 {
        None
    } else {
        Some(query)
    }
}

/// What the details panel reads off one exchange of a conversation. Times
/// are in milliseconds.
pub struct ExchangeFacts {
    pub start_ms: i64,
    pub finish_ms: Option<i64>,
    pub working_directory: Option<String>,
}

/// What the details panel reads off a conversation: `S` is its status and
/// `R` an artifact of it (a plan, a pull request, a branch).
pub struct ConversationFacts<S, R> {
    /// The conversation's id, as text.
    pub id: String,
    pub first_exchange: Option<ExchangeFacts>,
    pub latest_exchange: Option<ExchangeFacts>,
    pub status: S,
    pub title: Option<String>,
    pub artifacts: Vec<R>,
    pub initial_query: Option<String>,
}

/// What the details panel shows; a field left `None` is not shown.
pub struct ConversationDetailsData<S, R, A> {
    pub directory: Option<String>,
    pub conversation_id: Option<String>,
    /// The conversation the action buttons act on, when they have one.
    pub ai_conversation_id: Option<u128>,
    pub status: Option<S>,
    pub title: String,
    pub created_at_ms: Option<i64>,
    pub run_time_ms: Option<i128>,
    pub artifacts: Vec<R>,
    pub open_action: Option<A>,
    pub source_prompt: Option<String>,
}

/// The run time shown for a conversation whose first exchange started at
/// `start_ms` and whose latest one finished at `finish_ms`: the difference,
/// unless its whole seconds (rounded toward zero) are negative.
pub open spec fn run_time(start_ms: i64, finish_ms: i64) -> Option<i128> {
    let d = finish_ms - start_ms;
    if d > -1000 {
        Some(d as i128)
    } else {
        None
    }
}

/// Whether `data` is what the panel shows of `facts` (see `from_conversation`).
pub open spec fn details_of<S, R, A>(facts: ConversationFacts<S, R>, data: ConversationDetailsData<S, R, A>) -> bool {
    &&& data.directory == match facts.first_exchange {
        Some(first) => first.working_directory,
        None => None,
    }
    &&& data.conversation_id == Some(facts.id)
    &&& data.ai_conversation_id is None
    &&& data.status == Some(facts.status)
    &&& data.title@ == match facts.title {
        Some(t) => t@,
        None => "Conversation"@,
    }
    &&& data.created_at_ms == match (facts.first_exchange, facts.latest_exchange) {
        (Some(first), Some(_)) => Some(first.start_ms),
        _ => None,
    }
    &&& data.run_time_ms == match (facts.first_exchange, facts.latest_exchange) {
        (Some(first), Some(last)) => match last.finish_ms {
            Some(finish) => run_time(first.start_ms, finish),
            None => None,
        },
        _ => None,
    }
    &&& data.artifacts == facts.artifacts
    &&& data.open_action is None
    &&& data.source_prompt == facts.initial_query
}

impl<S, R, A> ConversationDetailsData<S, R, A> {
    /// The details of a conversation: the first exchange's directory, the
    /// id, the status, the title ("Conversation" when it has none), when it
    /// started and how long it ran (once its latest exchange finished), its
    /// artifacts and its initial query.
    pub fn from_conversation(facts: ConversationFacts<S, R>) -> (data: Self)
        ensures
            details_of(facts, data),
    {
        let ConversationFacts { id, first_exchange, latest_exchange, status, title, artifacts, initial_query } =
            facts;
        let mut run_time_ms: Option<i128> = None;
        let mut created_at_ms: Option<i64> = None;
        let mut directory: Option<String> = None;
        match &first_exchange {
            Some(first) => {
                match &latest_exchange {
                    Some(last) => {
                        match last.finish_ms {
                            Some(finish) => {
                                let d: i128 = finish as i128 - first.start_ms as i128;
                                if d > -1000 {
                                    run_time_ms = Some(d);
                                }
                            },
                            None => {},
                        }
                        created_at_ms = Some(first.start_ms);
                    },
                    None => {},
                }
            },
            None => {},
        }
        match first_exchange {
            Some(first) => {
                directory = first.working_directory;
            },
            None => {},
        }
        let title = match title {
            Some(t) => t,
            None => String::from_str("Conversation"),
        };
        ConversationDetailsData {
            directory,
            conversation_id: Some(id),
            ai_conversation_id: None,
            status: Some(status),
            title,
            created_at_ms,
            run_time_ms,
            artifacts,
            open_action: None,
            source_prompt: initial_query,
        }
    }
}

/// The action buttons for `data`: when it names a conversation to act on,
/// fork it and, when the panel shows its open button, open it; otherwise
/// none.
pub fn action_buttons_config_from_data<S, R, A>(show_open_button: bool, data: ConversationDetailsData<S, R, A>) -> (config:
    Option<ActionButtonsConfig<A>>)
    ensures
        match data.ai_conversation_id {
            Some(id) => config matches Some(c) && c.fork_conversation_id == Some(id) && c.open_action == if show_open_button {
                data.open_action
            } else {
                None
            },
            None => config is None,
        },
{
    let ConversationDetailsData { ai_conversation_id, open_action, .. } = data;
    let open = if show_open_button {
        open_action
    } else {
        None
    };
    match ai_conversation_id {
        Some(id) => Some(ActionButtonsConfig::for_conversation(id, open)),
        None => None,
    }
}

} // verus!
