use blocklist::suggestions::{
    AgentModePromptSuggestion, PassiveSuggestionsAction, PassiveSuggestionsEvent,
    PassiveSuggestionsInput, PassiveSuggestionsModel, PromptSuggestion, TerminalPromptSuggestion,
    TerminalPromptSuggestionsResponse,
};

fn completed(command: &str, agent: bool) -> PassiveSuggestionsInput {
    PassiveSuggestionsInput::UserBlockCompleted {
        block_id: 5,
        command: command.to_string(),
        was_part_of_agent_interaction: agent,
    }
}

#[test]
fn a_finished_user_command_asks_for_suggestions() {
    let mut model = PassiveSuggestionsModel::new();
    let actions = model.handle(completed("ls -la", false), true);
    assert_eq!(
        actions,
        vec![PassiveSuggestionsAction::Generate { block_id: 5, command: "ls -la".to_string() }]
    );
    model.request_started();
    assert!(model.has_pending_request());
    let actions = model.handle(completed("git status", false), true);
    assert_eq!(
        actions,
        vec![
            PassiveSuggestionsAction::AbortPending,
            PassiveSuggestionsAction::Generate { block_id: 5, command: "git status".to_string() },
        ]
    );
    assert!(!model.has_pending_request());
}

#[test]
fn blank_agent_or_disabled_commands_ask_for_nothing() {
    let mut model = PassiveSuggestionsModel::new();
    assert!(model.handle(completed("   ", false), true).is_empty());
    assert!(model.handle(completed("ls", false), false).is_empty());
    model.request_started();
    assert!(model.handle(completed("ls", true), true).is_empty());
    assert!(model.has_pending_request());
}

#[test]
fn starting_commands_and_agent_requests_drop_the_pending_request() {
    let mut model = PassiveSuggestionsModel::new();
    assert!(model.handle(PassiveSuggestionsInput::BlockStarted, true).is_empty());
    model.request_started();
    assert_eq!(
        model.handle(PassiveSuggestionsInput::SentRequest, true),
        vec![PassiveSuggestionsAction::AbortPending]
    );
    assert!(!model.abort_pending_requests());
}

#[test]
fn answers_are_reported_with_their_duration() {
    let mut model = PassiveSuggestionsModel::new();
    model.request_started();
    let response = TerminalPromptSuggestionsResponse {
        id: "s1".to_string(),
        suggestion: Some(TerminalPromptSuggestion::Simple { query: "explain".to_string() }),
        is_valid_code_delegation: false,
    };
    let actions = model.handle(
        PassiveSuggestionsInput::SuggestionsArrived {
            block_id: 5,
            command: "ls".to_string(),
            response: Some(response),
            start_ts_ms: 1_000,
            end_ts_ms: 1_250,
        },
        true,
    );
    assert_eq!(
        actions,
        vec![PassiveSuggestionsAction::Emit(PassiveSuggestionsEvent::PromptSuggestionsGenerated {
            prompt_suggestion: AgentModePromptSuggestion::Success(PromptSuggestion {
                id: "s1".to_string(),
                label: None,
                prompt: "explain".to_string(),
                coding_query_context: None,
                should_start_new_conversation: true,
            }),
            block_id: 5,
            command: "ls".to_string(),
            request_duration_ms: 250,
        })]
    );
    assert!(!model.has_pending_request());
}

#[test]
fn failed_requests_report_an_error_and_durations_wrap_as_casts_do() {
    let mut model = PassiveSuggestionsModel::new();
    let failed = model.handle(
        PassiveSuggestionsInput::SuggestionsArrived {
            block_id: 1,
            command: "x".to_string(),
            response: None,
            start_ts_ms: 10,
            end_ts_ms: 5,
        },
        true,
    );
    assert_eq!(
        failed,
        vec![PassiveSuggestionsAction::Emit(PassiveSuggestionsEvent::PromptSuggestionsGenerated {
            prompt_suggestion: AgentModePromptSuggestion::Error,
            block_id: 1,
            command: "x".to_string(),
            request_duration_ms: (-5i64) as u64,
        })]
    );
    let saturated = model.handle(
        PassiveSuggestionsInput::SuggestionsArrived {
            block_id: 1,
            command: "x".to_string(),
            response: None,
            start_ts_ms: i64::MIN,
            end_ts_ms: i64::MAX,
        },
        true,
    );
    match &saturated[0] {
        PassiveSuggestionsAction::Emit(PassiveSuggestionsEvent::PromptSuggestionsGenerated {
            request_duration_ms,
            ..
        }) => assert_eq!(*request_duration_ms, i64::MAX as u64),
        _ => panic!("expected an event"),
    }
}
