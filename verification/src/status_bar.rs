//! What the agent status bar stops when the user asks it to: the request
//! being streamed, else the action of the exchange that is pending or
//! running, else the conversation's remaining progress; and the guard that
//! a running summarization puts in front of that.

use vstd::prelude::*;

use crate::text::str_eq;

verus! {

/// What a stop request cancels.
#[derive(Clone, Debug, PartialEq, Eq)]
pub enum CancelTarget {
    /// The response stream with this id.
    ResponseStream(u128),
    /// The action with this id, in this conversation.
    Action { conversation_id: u128, action_id: String },
    /// Everything still running in this conversation.
    ConversationProgress(u128),
    /// Nothing.
    Nothing,
}

/// What the status bar knows of the exchange it shows.
pub struct ActiveExchangeState {
    pub is_streaming: bool,
    pub conversation_id: Option<u128>,
    /// The ids of the actions of the output shown, when there is one.
    pub output_action_ids: Option<Vec<String>>,
    /// Whether the conversation is still in progress (a subagent may run).
    pub conversation_in_progress: bool,
}

/// Whether `ids` holds `id`.
pub open spec fn holds_id(ids: Seq<String>, id: Seq<char>) -> bool {
    exists|i: int| 0 <= i < ids.len() && #[trigger] ids[i]@ == id
}

fn contains_id(ids: &Vec<String>, id: &str) -> (found: bool)
    ensures
        found == holds_id(ids@, id@),
{
    let mut i: usize = 0;
    while i < ids.len()
        invariant
            i <= ids.len(),
            forall|k: int| 0 <= k < i ==> #[trigger] ids@[k]@ != id@,
        decreases ids.len() - i,
    {
        if str_eq(ids[i].as_str(), id) {
            return true;
        }
        i += 1;
    }
    false
}

/// Whether the answer to a stop request is `target`, as `cancel_target`
/// decides it (see there).
pub open spec fn is_cancel_target(
    exchange: Option<ActiveExchangeState>,
    latest_response_stream_id: Option<u128>,
    pending_or_running_action: Option<String>,
    target: CancelTarget,
) -> bool {
    match exchange {
        None => target == CancelTarget::Nothing,
        Some(e) => if e.is_streaming {
            target == match latest_response_stream_id {
                Some(s) => CancelTarget::ResponseStream(s),
                None => CancelTarget::Nothing,
            }
        } else {
            match (e.conversation_id, e.output_action_ids) {
                (Some(c), Some(ids)) => {
                    if pending_or_running_action matches Some(a) && holds_id(ids@, a@) {
                        target matches CancelTarget::Action { conversation_id, action_id }
                            && conversation_id == c && action_id@ == pending_or_running_action->0@
                    } else if e.conversation_in_progress {
                        target == CancelTarget::ConversationProgress(c)
                    } else {
                        target == CancelTarget::Nothing
                    }
                },
                _ => target == CancelTarget::Nothing,
            }
        },
    }
}

/// With no exchange shown, a stop request cancels nothing; while the exchange
/// streams it cancels the latest response stream (nothing when there is
/// none) and never an action or the conversation.
pub proof fn law_stop_while_streaming_cancels_the_stream(
    exchange: Option<ActiveExchangeState>,
    latest_response_stream_id: Option<u128>,
    pending_or_running_action: Option<String>,
    target: CancelTarget,
)
    requires
        is_cancel_target(exchange, latest_response_stream_id, pending_or_running_action, target),
    ensures
        exchange is None ==> target == CancelTarget::Nothing,
        exchange matches Some(e) && e.is_streaming ==> target == match latest_response_stream_id {
            Some(s) => CancelTarget::ResponseStream(s),
            None => CancelTarget::Nothing,
        },
{
}

/// Once the exchange has stopped streaming, without a conversation or an
/// output shown a stop request cancels nothing.
pub proof fn law_stop_needs_a_conversation_and_output(
    e: ActiveExchangeState,
    latest_response_stream_id: Option<u128>,
    pending_or_running_action: Option<String>,
    target: CancelTarget,
)
    requires
        !e.is_streaming,
        e.conversation_id is None || e.output_action_ids is None,
        is_cancel_target(Some(e), latest_response_stream_id, pending_or_running_action, target),
    ensures
        target == CancelTarget::Nothing,
{
}

/// Once the exchange of conversation `c` has stopped streaming and shows an
/// output, a stop request cancels the pending or running action when it
/// belongs to that output; when no such action exists (none pending at all,
/// or one of another output) it cancels the progress of the conversation
/// while it is still in progress, as when a subagent runs, and else nothing.
/// It never reaches into another conversation.
pub proof fn law_stop_after_streaming(
    e: ActiveExchangeState,
    c: u128,
    latest_response_stream_id: Option<u128>,
    pending_or_running_action: Option<String>,
    target: CancelTarget,
)
    requires
        !e.is_streaming,
        e.conversation_id == Some(c),
        e.output_action_ids is Some,
        is_cancel_target(Some(e), latest_response_stream_id, pending_or_running_action, target),
    ensures
        pending_or_running_action is Some && holds_id(e.output_action_ids->0@, pending_or_running_action->0@)
            ==> (target matches CancelTarget::Action { conversation_id, action_id } && conversation_id == c
            && action_id@ == pending_or_running_action->0@),
        !(pending_or_running_action is Some && holds_id(e.output_action_ids->0@, pending_or_running_action->0@))
            && e.conversation_in_progress ==> target == CancelTarget::ConversationProgress(c),
        !(pending_or_running_action is Some && holds_id(e.output_action_ids->0@, pending_or_running_action->0@))
            && !e.conversation_in_progress ==> target == CancelTarget::Nothing,
{
}

/// What a stop request cancels: with no exchange shown, nothing; while the
/// exchange streams, its latest response stream; otherwise, when the output
/// shown has actions, the pending or running action if it is one of them,
/// else the conversation's progress while the conversation is still in
/// progress.
pub fn cancel_target(
    exchange: Option<ActiveExchangeState>,
    latest_response_stream_id: Option<u128>,
    pending_or_running_action: Option<String>,
) -> (target: CancelTarget)
    ensures
        is_cancel_target(exchange, latest_response_stream_id, pending_or_running_action, target),
{
    let e = match exchange {
        None => return CancelTarget::Nothing,
        Some(e) => e,
    };
    if e.is_streaming {
        return match latest_response_stream_id {
            Some(s) => CancelTarget::ResponseStream(s),
            None => CancelTarget::Nothing,
        };
    }
    let c = match e.conversation_id {
        None => return CancelTarget::Nothing,
        Some(c) => c,
    };
    let ids = match e.output_action_ids {
        None => return CancelTarget::Nothing,
        Some(ids) => ids,
    };
    match pending_or_running_action {
        Some(a) => {
            if contains_id(&ids, a.as_str()) {
                return CancelTarget::Action { conversation_id: c, action_id: a };
            }
        },
        None => {},
    }
    if e.conversation_in_progress {
        CancelTarget::ConversationProgress(c)
    } else {
        CancelTarget::Nothing
    }
}

/// What Ctrl-C does in the status bar.
#[derive(Clone, Copy, Debug, PartialEq, Eq, Structural)]
pub enum CtrlCResponse {
    /// Nothing: no exchange is shown.
    Ignore,
    /// Ask first: a summarization runs and the confirmation is not open yet.
    OpenSummarizationCancelDialog,
    /// Stop (see `cancel_target`) and close the confirmation.
    CancelAndCloseDialog,
    /// Stop (see `cancel_target`).
    Cancel,
}

/// What Ctrl-C does: nothing without an exchange; while a summarization
/// runs, the first press opens a confirmation and the second stops; else it
/// stops.
pub fn ctrl_c_response(has_active_exchange: bool, summarization_active: bool, dialog_open: bool) -> (response:
    CtrlCResponse)
    ensures
        response == if !has_active_exchange {
            CtrlCResponse::Ignore
        } else if summarization_active {
            if dialog_open {
                CtrlCResponse::CancelAndCloseDialog
            } else {
                CtrlCResponse::OpenSummarizationCancelDialog
            }
        } else {
            CtrlCResponse::Cancel
        },
{
    if !has_active_exchange {
        CtrlCResponse::Ignore
    } else if summarization_active {
        if dialog_open {
            CtrlCResponse::CancelAndCloseDialog
        } else {
            CtrlCResponse::OpenSummarizationCancelDialog
        }
    } else {
        CtrlCResponse::Cancel
    }
}

/// Whether the summarization confirmation shows: it is open and the shown
/// exchange's conversation is being summarized.
pub fn should_show_summarization_cancel_dialog(dialog_open: bool, summarization_active: Option<bool>) -> (show:
    bool)
    ensures
        show == (dialog_open && summarization_active == Some(true)),
{
    dialog_open && match summarization_active {
        Some(active) => active,
        None => false,
    }
}

/// Whether an output update closes the summarization confirmation: it is
/// open and the summarization is over.
pub fn closes_summarization_cancel_dialog(dialog_open: bool, summarization_active: bool) -> (close: bool)
    ensures
        close == (dialog_open && !summarization_active),
{
    dialog_open && !summarization_active
}

} // verus!
