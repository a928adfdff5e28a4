use blocklist::status_bar::{
    cancel_target, closes_summarization_cancel_dialog, ctrl_c_response,
    should_show_summarization_cancel_dialog, ActiveExchangeState, CancelTarget, CtrlCResponse,
};

fn exchange(is_streaming: bool, actions: Option<Vec<&str>>, in_progress: bool) -> ActiveExchangeState {
    ActiveExchangeState {
        is_streaming,
        conversation_id: Some(42),
        output_action_ids: actions.map(|ids| ids.into_iter().map(String::from).collect()),
        conversation_in_progress: in_progress,
    }
}

#[test]
fn stop_cancels_the_stream_while_streaming() {
    assert_eq!(
        cancel_target(Some(exchange(true, Some(vec!["a"]), true)), Some(7), Some("a".to_string())),
        CancelTarget::ResponseStream(7)
    );
    assert_eq!(cancel_target(Some(exchange(true, None, true)), None, None), CancelTarget::Nothing);
    assert_eq!(cancel_target(None, Some(7), None), CancelTarget::Nothing);
}

#[test]
fn stop_cancels_the_pending_action_of_the_shown_output() {
    assert_eq!(
        cancel_target(Some(exchange(false, Some(vec!["a", "b"]), true)), Some(7), Some("b".to_string())),
        CancelTarget::Action { conversation_id: 42, action_id: "b".to_string() }
    );
}

#[test]
fn stop_falls_back_to_the_conversation_progress() {
    assert_eq!(
        cancel_target(Some(exchange(false, Some(vec!["a"]), true)), None, Some("other".to_string())),
        CancelTarget::ConversationProgress(42)
    );
    assert_eq!(
        cancel_target(Some(exchange(false, Some(vec![]), false)), None, None),
        CancelTarget::Nothing
    );
    assert_eq!(cancel_target(Some(exchange(false, None, true)), None, None), CancelTarget::Nothing);
}

#[test]
fn ctrl_c_asks_before_stopping_a_summarization() {
    assert_eq!(ctrl_c_response(false, true, true), CtrlCResponse::Ignore);
    assert_eq!(ctrl_c_response(true, true, false), CtrlCResponse::OpenSummarizationCancelDialog);
    assert_eq!(ctrl_c_response(true, true, true), CtrlCResponse::CancelAndCloseDialog);
    assert_eq!(ctrl_c_response(true, false, true), CtrlCResponse::Cancel);
}

#[test]
fn the_summarization_dialog_follows_the_summarization() {
    assert!(should_show_summarization_cancel_dialog(true, Some(true)));
    assert!(!should_show_summarization_cancel_dialog(true, Some(false)));
    assert!(!should_show_summarization_cancel_dialog(true, None));
    assert!(!should_show_summarization_cancel_dialog(false, Some(true)));
    assert!(closes_summarization_cancel_dialog(true, false));
    assert!(!closes_summarization_cancel_dialog(true, true));
    assert!(!closes_summarization_cancel_dialog(false, false));
}
