//! The kind of request behind an AI block, and the status of the output it
//! renders.

use vstd::prelude::*;

verus! {

/// The passive requests that can produce an AI block.
#[derive(Clone, Copy, Debug, PartialEq, Eq, Structural)]
pub enum PassiveRequestType {
    CodeDiff,
}

/// The type of request that triggered the AI block.
#[derive(Clone, Copy, Debug, PartialEq, Eq, Structural)]
pub enum AIRequestType {
    Active,
    Passive(PassiveRequestType),
}

impl Default for AIRequestType {
    fn default() -> (request: Self)
        ensures
            request == AIRequestType::Active,
    {
        AIRequestType::Active
    }
}

impl AIRequestType {
    pub fn is_active(&self) -> (active: bool)
        ensures
            active == (*self == AIRequestType::Active),
    {
        match self {
            AIRequestType::Active => true,
            AIRequestType::Passive(_) => false,
        }
    }

    pub fn is_passive(&self) -> (passive: bool)
        ensures
            passive == (*self is Passive),
    {
        match self {
            AIRequestType::Active => false,
            AIRequestType::Passive(_) => true,
        }
    }

    pub fn is_passive_code_diff(&self) -> (code_diff: bool)
        ensures
            code_diff == (*self == AIRequestType::Passive(PassiveRequestType::CodeDiff)),
    {
        match self {
            AIRequestType::Passive(PassiveRequestType::CodeDiff) => true,
            AIRequestType::Active => false,
        }
    }
}

/// The status of the agent output an AI block renders: `O` is the output,
/// `C` the reason of a cancellation and `E` the error of a failure.
#[derive(Debug)]
pub enum AIBlockOutputStatus<O, C, E> {
    Pending,
    PartiallyReceived { output: O },
    Complete { output: O },
    Cancelled { partial_output: Option<O>, reason: C },
    Failed { partial_output: Option<O>, error: E },
}

/// The output a status holds, if any.
pub open spec fn held_output<O, C, E>(status: AIBlockOutputStatus<O, C, E>) -> Option<O> {
    match status {
        AIBlockOutputStatus::Pending => None,
        AIBlockOutputStatus::PartiallyReceived { output } => Some(output),
        AIBlockOutputStatus::Complete { output } => Some(output),
        AIBlockOutputStatus::Cancelled { partial_output, .. } => partial_output,
        AIBlockOutputStatus::Failed { partial_output, .. } => partial_output,
    }
}

impl<O: Clone, C, E> AIBlockOutputStatus<O, C, E> {
    /// Whether the response is still being streamed from the agent.
    pub fn is_streaming(&self) -> (streaming: bool)
        ensures
            streaming == (*self is Pending || *self is PartiallyReceived),
    {
        match self {
            AIBlockOutputStatus::Pending | AIBlockOutputStatus::PartiallyReceived { .. } => true,
            _ => false,
        }
    }

    /// Whether the response stream was cancelled.
    pub fn is_cancelled(&self) -> (cancelled: bool)
        ensures
            cancelled == (*self is Cancelled),
    {
        match self {
            AIBlockOutputStatus::Cancelled { .. } => true,
            _ => false,
        }
    }

    /// The reason of the cancellation, if the stream was cancelled.
    pub fn cancellation_reason(&self) -> (reason: Option<&C>)
        ensures
            reason == match *self {
                AIBlockOutputStatus::Cancelled { reason, .. } => Some(&reason),
                _ => None,
            },
    {
        match self {
            AIBlockOutputStatus::Cancelled { reason, .. } => Some(reason),
            _ => None,
        }
    }

    pub fn is_complete(&self) -> (complete: bool)
        ensures
            complete == (*self is Complete),
    {
        match self {
            AIBlockOutputStatus::Complete { .. } => true,
            _ => false,
        }
    }

    /// A copy of the output to render, if there is any.
    pub fn output_to_render(&self) -> (output: Option<O>)
        ensures
            match held_output(*self) {
                Some(held) => output matches Some(copy) && cloned(held, copy),
                None => output is None,
            },
    {
        match self {
            AIBlockOutputStatus::Pending => None,
            AIBlockOutputStatus::PartiallyReceived { output } => Some(output.clone()),
            AIBlockOutputStatus::Complete { output } => Some(output.clone()),
            AIBlockOutputStatus::Cancelled { partial_output, .. } => match partial_output {
                Some(output) => Some(output.clone()),
                None => None,
            },
            AIBlockOutputStatus::Failed { partial_output, .. } => match partial_output {
                Some(output) => Some(output.clone()),
                None => None,
            },
        }
    }

    /// The error, if the stream failed.
    pub fn error(&self) -> (error: Option<&E>)
        ensures
            error == match *self {
                AIBlockOutputStatus::Failed { error, .. } => Some(&error),
                _ => None,
            },
    {
        match self {
            AIBlockOutputStatus::Failed { error, .. } => Some(error),
            _ => None,
        }
    }
}

} // verus!
