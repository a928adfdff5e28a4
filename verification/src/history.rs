//! Status values of the AI history: the output status shown for a past
//! query, conversation status updates, and history errors.

use vstd::prelude::*;

use crate::toolbar::Icon;

verus! {

/// How a finished agent output ended.
#[derive(Clone, Copy, Debug, PartialEq, Eq, Structural)]
pub enum FinishedAIAgentOutput {
    Cancelled,
    Error,
    Success,
}

/// The streaming state of an agent output.
#[derive(Clone, Copy, Debug, PartialEq, Eq, Structural)]
pub enum AIAgentOutputStatus {
    Streaming,
    Finished { finished_output: FinishedAIAgentOutput },
}

/// Status of the output of a past query.
#[derive(Clone, Copy, Debug, PartialEq, Eq, Structural)]
pub enum AIQueryHistoryOutputStatus {
    /// Waiting for or streaming output.
    Pending,
    /// The user cancelled the streaming.
    Cancelled,
    /// The streaming failed.
    Failed,
    /// The streaming completed.
    Completed,
}

/// The history status of an agent output status.
pub open spec fn history_status_of(status: AIAgentOutputStatus) -> AIQueryHistoryOutputStatus {
    match status {
        AIAgentOutputStatus::Streaming => AIQueryHistoryOutputStatus::Pending,
        AIAgentOutputStatus::Finished { finished_output } => match finished_output {
            FinishedAIAgentOutput::Cancelled => AIQueryHistoryOutputStatus::Cancelled,
            FinishedAIAgentOutput::Error => AIQueryHistoryOutputStatus::Failed,
            FinishedAIAgentOutput::Success => AIQueryHistoryOutputStatus::Completed,
        },
    }
}

impl AIQueryHistoryOutputStatus {
    /// The status as shown to the user.
    pub fn display_text(&self) -> (text: &'static str)
        ensures
            text@ == match *self {
                AIQueryHistoryOutputStatus::Completed => "Completed successfully"@,
                AIQueryHistoryOutputStatus::Pending => "Pending"@,
                AIQueryHistoryOutputStatus::Cancelled => "Cancelled by user"@,
                AIQueryHistoryOutputStatus::Failed => "Failed"@,
            },
    {
        match self {
            AIQueryHistoryOutputStatus::Completed => "Completed successfully",
            AIQueryHistoryOutputStatus::Pending => "Pending",
            AIQueryHistoryOutputStatus::Cancelled => "Cancelled by user",
            AIQueryHistoryOutputStatus::Failed => "Failed",
        }
    }

    /// The icon of the status.
    pub fn icon(&self) -> (icon: Icon)
        ensures
            icon == match *self {
                AIQueryHistoryOutputStatus::Completed => Icon::Check,
                AIQueryHistoryOutputStatus::Pending => Icon::Loading,
                AIQueryHistoryOutputStatus::Cancelled => Icon::SlashCircle,
                AIQueryHistoryOutputStatus::Failed => Icon::AlertTriangle,
            },
    {
        match self {
            AIQueryHistoryOutputStatus::Completed => Icon::Check,
            AIQueryHistoryOutputStatus::Pending => Icon::Loading,
            AIQueryHistoryOutputStatus::Cancelled => Icon::SlashCircle,
            AIQueryHistoryOutputStatus::Failed => Icon::AlertTriangle,
        }
    }

    /// The history status of an agent output status.
    pub fn from_output_status(status: &AIAgentOutputStatus) -> (history: Self)
        ensures
            history == history_status_of(*status),
    {
        match status {
            AIAgentOutputStatus::Streaming => AIQueryHistoryOutputStatus::Pending,
            AIAgentOutputStatus::Finished { finished_output } => match finished_output {
                FinishedAIAgentOutput::Cancelled => AIQueryHistoryOutputStatus::Cancelled,
                FinishedAIAgentOutput::Error => AIQueryHistoryOutputStatus::Failed,
                FinishedAIAgentOutput::Success => AIQueryHistoryOutputStatus::Completed,
            },
        }
    }
}

/// The status of a conversation.
#[derive(Clone, Copy, Debug, PartialEq, Eq, Structural)]
pub enum ConversationStatus {
    InProgress,
    Success,
    Error,
    Cancelled,
    Blocked,
}

/// Whether a status update restored a conversation into a terminal view
/// (its status did not change) or set a status, with the previous one.
#[derive(Clone, Copy, Debug, PartialEq, Eq, Structural)]
pub enum ConversationStatusUpdate {
    Restored,
    Changed { prev_status: ConversationStatus },
}

/// Why the history could not be updated.
#[derive(Clone, Debug, PartialEq, Eq)]
pub enum UpdateHistoryError {
    /// The conversation refused the update, for the reason given.
    Conversation(String),
    /// No conversation has the id.
    ConversationNotFound(u128),
}

/// A conversation restored from storage; `C` is the conversation type.
#[derive(Debug)]
pub enum RestoredConversationData<C> {
    Conversation(Box<C>),
}

/// The kinds of blocks stored for session restoration; only command blocks
/// exist. `B` is the stored block.
#[derive(Clone, Debug, PartialEq, Eq)]
pub enum SerializedBlockListItem<B> {
    Command { block: Box<B> },
}

} // verus!
