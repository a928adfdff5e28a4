use blocklist::block_model::{AIBlockOutputStatus, AIRequestType, PassiveRequestType};
use blocklist::command_attribution::{
    is_command_copied_from_document, is_command_copied_from_env_var_collection,
    is_command_copied_from_local_object, AgentCitation, EnvVarAttribution, LocalObject,
};
use blocklist::controller::{
    acp_prompt_from_request, admit_request, follow_up_cancellation, follow_up_task,
    get_running_command, input_contains_user_query, AcpPromptInput, FollowUpTask, RequestRefusal, FollowUpCancellation, RunningCommandGrid, InputQuery, InputQueryType, ReadSkillExecutor,
    SlashCommandInput, SlashCommandRequest, on_actions_finished, cancels_on_exit,
    marks_conversation_active, FinishedActionOutcome, FinishedActionsDecision,
    FinishedConversationStatus,
};
use blocklist::conversation_details::{
    action_buttons_config_from_data, trimmed_initial_query, ActionButtonsConfig,
    ConversationDetailsData, ConversationFacts, ExchangeFacts,
};
use blocklist::history::{
    AIAgentOutputStatus, AIQueryHistoryOutputStatus, FinishedAIAgentOutput,
};
use blocklist::suggestions::{
    map_prompt_suggestions_response, should_generate_terminal_prompt_suggestions,
    AgentModePromptSuggestion, TerminalPromptSuggestion, TerminalPromptSuggestionsResponse,
};
use blocklist::text::{is_whitespace, str_eq, trim, trim_end_matches_char};
use blocklist::toolbar::{
    AgentToolbarEditorMode, AgentToolbarItemKind, ContextChipKind, Icon, ToolbarAvailability,
};

#[test]
fn test_terminal_prompt_suggestions_use_terminal_setting_only() {
    assert!(should_generate_terminal_prompt_suggestions("echo hello", true));
    assert!(!should_generate_terminal_prompt_suggestions("   ", true));
    assert!(!should_generate_terminal_prompt_suggestions("echo hello", false));
}

#[test]
fn toolbar_items_know_their_footers() {
    assert!(ToolbarAvailability::Both.is_available_for_agent_view());
    assert!(!ToolbarAvailability::CLIAgentOnly.is_available_for_agent_view());
    assert!(ToolbarAvailability::CLIAgentOnly.is_available_for_cli());
    let chip = AgentToolbarItemKind::from(ContextChipKind::Ssh);
    assert!(chip.is_context_chip());
    assert!(chip.is_local_agent_view_control());
    assert_eq!(chip.context_chip_kind(), Some(&ContextChipKind::Ssh));
    assert_eq!(chip.display_label(), "Context Chip");
    assert_eq!(chip.icon(), Some(Icon::Globe));
    assert_eq!(AgentToolbarItemKind::RichInput.available_in(), ToolbarAvailability::CLIAgentOnly);
    assert_eq!(AgentToolbarItemKind::FileAttach.display_label(), "Attach File");
    assert_eq!(AgentToolbarItemKind::FileExplorer.icon(), Some(Icon::FileCopy));
    assert!(!AgentToolbarItemKind::FileExplorer.is_local_agent_view_control());
    assert_eq!(AgentToolbarItemKind::FileAttach.context_chip_kind(), None);
}

#[test]
fn toolbar_defaults_per_mode() {
    let (left, right, all) = AgentToolbarItemKind::defaults_for_mode(AgentToolbarEditorMode::AgentView);
    assert_eq!(left.len(), 5);
    assert_eq!(left[0], AgentToolbarItemKind::ContextChip(ContextChipKind::Ssh));
    assert_eq!(right, vec![AgentToolbarItemKind::FileAttach]);
    assert_eq!(all.last(), Some(&AgentToolbarItemKind::FileAttach));
    let (left, right, all) = AgentToolbarItemKind::defaults_for_mode(AgentToolbarEditorMode::CLIAgent);
    assert_eq!(
        left,
        vec![
            AgentToolbarItemKind::FileAttach,
            AgentToolbarItemKind::ContextChip(ContextChipKind::GitDiffStats),
            AgentToolbarItemKind::FileExplorer,
            AgentToolbarItemKind::RichInput,
        ]
    );
    assert_eq!(right.len(), 2);
    assert_eq!(&all[all.len() - 3..], &[
        AgentToolbarItemKind::FileExplorer,
        AgentToolbarItemKind::RichInput,
        AgentToolbarItemKind::FileAttach,
    ]);
}

#[test]
fn request_types_and_output_statuses() {
    assert!(AIRequestType::default().is_active());
    let passive = AIRequestType::Passive(PassiveRequestType::CodeDiff);
    assert!(passive.is_passive() && passive.is_passive_code_diff() && !passive.is_active());

    let pending: AIBlockOutputStatus<u32, &str, &str> = AIBlockOutputStatus::Pending;
    assert!(pending.is_streaming());
    assert_eq!(pending.output_to_render(), None);
    let partial: AIBlockOutputStatus<u32, &str, &str> =
        AIBlockOutputStatus::PartiallyReceived { output: 3 };
    assert!(partial.is_streaming() && !partial.is_complete());
    let cancelled: AIBlockOutputStatus<u32, &str, &str> = AIBlockOutputStatus::Cancelled {
        partial_output: Some(7),
        reason: "user",
    };
    assert!(cancelled.is_cancelled());
    assert_eq!(cancelled.cancellation_reason(), Some(&"user"));
    assert_eq!(cancelled.output_to_render(), Some(7));
    let failed: AIBlockOutputStatus<u32, &str, &str> = AIBlockOutputStatus::Failed {
        partial_output: None,
        error: "boom",
    };
    assert_eq!(failed.error(), Some(&"boom"));
    assert_eq!(failed.output_to_render(), None);
    let complete: AIBlockOutputStatus<u32, &str, &str> = AIBlockOutputStatus::Complete { output: 9 };
    assert!(complete.is_complete() && !complete.is_streaming());
    assert_eq!(complete.output_to_render(), Some(9));
}

#[test]
fn slash_commands_route_only_exact_init() {
    assert_eq!(
        SlashCommandRequest::from_query("/init"),
        Some(SlashCommandRequest::InitProjectRules)
    );
    assert_eq!(SlashCommandRequest::from_query("/init "), None);
    assert_eq!(SlashCommandRequest::from_query("/fork"), None);
    let inputs = SlashCommandRequest::InitProjectRules.input(5u8);
    assert_eq!(
        inputs,
        vec![SlashCommandInput::InitProjectRules {
            context: 5u8,
            display_query: Some("/init".to_string()),
        }]
    );
    let review = SlashCommandRequest::FetchReviewComments {
        repo_path: "/repo".to_string(),
    };
    assert_eq!(review.conversation_id(Some(3)), Some(3));
    assert_eq!(SlashCommandRequest::InitProjectRules.conversation_id(Some(3)), None);
}

#[test]
fn input_query_text() {
    let typed = InputQuery {
        input_query: InputQueryType::UserSubmittedQueryFromInput {
            query: "fix it".to_string(),
        },
    };
    assert_eq!(typed.query(), "fix it");
    let agent = InputQuery {
        input_query: InputQueryType::AIInputType { user_query: None },
    };
    assert_eq!(agent.query(), "");
    assert!(ReadSkillExecutor::new().should_autoexecute());
}

#[test]
fn history_status_text_and_icons() {
    let finished = |o| AIAgentOutputStatus::Finished { finished_output: o };
    assert_eq!(
        AIQueryHistoryOutputStatus::from_output_status(&AIAgentOutputStatus::Streaming),
        AIQueryHistoryOutputStatus::Pending
    );
    let cancelled =
        AIQueryHistoryOutputStatus::from_output_status(&finished(FinishedAIAgentOutput::Cancelled));
    assert_eq!(cancelled.display_text(), "Cancelled by user");
    assert_eq!(cancelled.icon(), Icon::SlashCircle);
    let failed =
        AIQueryHistoryOutputStatus::from_output_status(&finished(FinishedAIAgentOutput::Error));
    assert_eq!(failed.display_text(), "Failed");
    let done =
        AIQueryHistoryOutputStatus::from_output_status(&finished(FinishedAIAgentOutput::Success));
    assert_eq!(done.display_text(), "Completed successfully");
    assert_eq!(done.icon(), Icon::Check);
    assert_eq!(AIQueryHistoryOutputStatus::Pending.icon(), Icon::Loading);
}

#[test]
fn prompt_suggestions_map_to_offers() {
    let coding = TerminalPromptSuggestionsResponse {
        id: "s1".to_string(),
        suggestion: Some(TerminalPromptSuggestion::Coding {
            query: "fix the build".to_string(),
            files: vec!["src/lib.rs".to_string()],
        }),
        is_valid_code_delegation: true,
    };
    match map_prompt_suggestions_response(coding.clone()) {
        AgentModePromptSuggestion::Success(s) => {
            assert_eq!(s.id, "s1");
            assert_eq!(s.prompt, "fix the build");
            assert_eq!(s.coding_query_context, Some(vec!["src/lib.rs".to_string()]));
            assert!(s.should_start_new_conversation);
            assert_eq!(s.label, None);
        }
        other => panic!("expected a suggestion, got {other:?}"),
    }
    let not_delegable = TerminalPromptSuggestionsResponse {
        is_valid_code_delegation: false,
        ..coding
    };
    assert_eq!(
        map_prompt_suggestions_response(not_delegable),
        AgentModePromptSuggestion::NoSuggestion
    );
    let simple = TerminalPromptSuggestionsResponse {
        id: "s2".to_string(),
        suggestion: Some(TerminalPromptSuggestion::Simple {
            query: "explain".to_string(),
        }),
        is_valid_code_delegation: false,
    };
    match map_prompt_suggestions_response(simple) {
        AgentModePromptSuggestion::Success(s) => {
            assert_eq!(s.prompt, "explain");
            assert_eq!(s.coding_query_context, None);
        }
        other => panic!("expected a suggestion, got {other:?}"),
    }
    let none = TerminalPromptSuggestionsResponse {
        id: "s3".to_string(),
        suggestion: None,
        is_valid_code_delegation: true,
    };
    assert_eq!(
        map_prompt_suggestions_response(none),
        AgentModePromptSuggestion::NoSuggestion
    );
}

#[test]
fn env_var_commands_are_attributed() {
    let vars = vec![
        EnvVarAttribution {
            command: Some("op read secret".to_string()),
            initialization: "export TOKEN=$(op read secret);".to_string(),
        },
        EnvVarAttribution {
            command: None,
            initialization: "export A=1;;".to_string(),
        },
    ];
    let export = "export TOKEN=$(op read secret); export A=1;";
    assert!(is_command_copied_from_env_var_collection(export, export, &vars));
    assert!(is_command_copied_from_env_var_collection("op read secret", export, &vars));
    assert!(is_command_copied_from_env_var_collection("export A=1", export, &vars));
    assert!(is_command_copied_from_env_var_collection("export A=1;;", export, &vars));
    assert!(!is_command_copied_from_env_var_collection("export A=2", export, &vars));
}

#[test]
fn details_panel_buttons_and_initial_query() {
    let empty: ActionButtonsConfig<u8> = ActionButtonsConfig::default();
    assert!(empty.is_empty());
    let config = ActionButtonsConfig::for_conversation(4, Some(1u8));
    assert!(!config.is_empty());
    assert_eq!(config.fork_conversation_id, Some(4));
    assert_eq!(trimmed_initial_query(&Some("  hello \n".to_string())), Some("hello"));
    assert_eq!(trimmed_initial_query(&Some(" \t ".to_string())), None);
    assert_eq!(trimmed_initial_query(&None), None);
}

#[test]
fn text_helpers_match_std() {
    for s in ["", "  a b  ", "\u{a0}x\u{3000}", "\n\t", "no-trim", "\u{200b}z"] {
        assert_eq!(trim(s), s.trim());
    }
    for c in ['\u{85}', '\u{2028}', ' ', 'a', '\u{200b}', '\u{feff}'] {
        assert_eq!(is_whitespace(c), c.is_whitespace());
    }
    assert_eq!(trim_end_matches_char("a;;", ';'), "a");
    assert!(str_eq("é", "é"));
    assert!(!str_eq("a", "ab"));
}

#[test]
fn a_follow_up_stops_the_active_conversation() {
    assert_eq!(follow_up_cancellation(None, 4), None);
    assert_eq!(
        follow_up_cancellation(Some(4), 4),
        Some(FollowUpCancellation { conversation_id: 4, is_for_same_conversation: true })
    );
    assert_eq!(
        follow_up_cancellation(Some(3), 4),
        Some(FollowUpCancellation { conversation_id: 3, is_for_same_conversation: false })
    );
}

#[test]
fn running_commands_are_read_from_the_screen_they_use() {
    assert_eq!(get_running_command(false, false, true), None);
    assert_eq!(get_running_command(true, true, false), None);
    assert_eq!(get_running_command(true, false, true), Some(RunningCommandGrid::AltScreen));
    assert_eq!(
        get_running_command(true, false, false),
        Some(RunningCommandGrid::Output { max_lines: 1000 })
    );
}

fn exchange(start_ms: i64, finish_ms: Option<i64>, dir: Option<&str>) -> ExchangeFacts {
    ExchangeFacts { start_ms, finish_ms, working_directory: dir.map(String::from) }
}

fn facts(first: Option<ExchangeFacts>, latest: Option<ExchangeFacts>, title: Option<&str>) -> ConversationFacts<&'static str, u8> {
    ConversationFacts {
        id: "c-1".to_string(),
        first_exchange: first,
        latest_exchange: latest,
        status: "done",
        title: title.map(String::from),
        artifacts: vec![7],
        initial_query: Some("fix it".to_string()),
    }
}

#[test]
fn details_show_start_run_time_and_directory() {
    let data: ConversationDetailsData<&str, u8, ()> = ConversationDetailsData::from_conversation(facts(
        Some(exchange(1_000, None, Some("/repo"))),
        Some(exchange(5_000, Some(61_000), None)),
        Some("Refactor"),
    ));
    assert_eq!(data.title, "Refactor");
    assert_eq!(data.directory, Some("/repo".to_string()));
    assert_eq!(data.conversation_id, Some("c-1".to_string()));
    assert_eq!(data.status, Some("done"));
    assert_eq!(data.created_at_ms, Some(1_000));
    assert_eq!(data.run_time_ms, Some(60_000));
    assert_eq!(data.artifacts, vec![7]);
    assert_eq!(data.source_prompt, Some("fix it".to_string()));
    assert_eq!(data.ai_conversation_id, None);
}

#[test]
fn details_drop_negative_run_times_by_whole_seconds() {
    let slightly: ConversationDetailsData<&str, u8, ()> = ConversationDetailsData::from_conversation(facts(
        Some(exchange(10_000, None, None)),
        Some(exchange(10_000, Some(9_500), None)),
        None,
    ));
    assert_eq!(slightly.run_time_ms, Some(-500));
    assert_eq!(slightly.title, "Conversation");
    let clearly: ConversationDetailsData<&str, u8, ()> = ConversationDetailsData::from_conversation(facts(
        Some(exchange(10_000, None, None)),
        Some(exchange(10_000, Some(9_000), None)),
        None,
    ));
    assert_eq!(clearly.run_time_ms, None);
    assert_eq!(clearly.created_at_ms, Some(10_000));
    let unfinished: ConversationDetailsData<&str, u8, ()> = ConversationDetailsData::from_conversation(facts(
        Some(exchange(10_000, None, None)),
        Some(exchange(12_000, None, None)),
        None,
    ));
    assert_eq!(unfinished.run_time_ms, None);
    let empty: ConversationDetailsData<&str, u8, ()> =
        ConversationDetailsData::from_conversation(facts(None, None, None));
    assert_eq!(empty.created_at_ms, None);
    assert_eq!(empty.directory, None);
}

#[test]
fn details_without_a_conversation_to_act_on_have_no_buttons() {
    let data: ConversationDetailsData<&str, u8, u32> =
        ConversationDetailsData::from_conversation(facts(None, None, None));
    assert!(action_buttons_config_from_data(true, data).is_none());
    let mut named: ConversationDetailsData<&str, u8, u32> =
        ConversationDetailsData::from_conversation(facts(None, None, None));
    named.ai_conversation_id = Some(9);
    named.open_action = Some(3);
    let config = action_buttons_config_from_data(false, named).unwrap();
    assert_eq!(config.fork_conversation_id, Some(9));
    assert_eq!(config.open_action, None);
}

#[test]
fn test_from_conversation_populates_local_conversation_fields() {
    let directory = "/tmp/local-conversation-directory";
    let conversation_id = "7b0e4c2a-1111-4222-8333-444455556666";
    let facts: ConversationFacts<&str, u8> = ConversationFacts {
        id: conversation_id.to_string(),
        first_exchange: Some(exchange(0, None, Some(directory))),
        latest_exchange: Some(exchange(0, Some(1_000), None)),
        status: "success",
        title: Some("test query".to_string()),
        artifacts: vec![],
        initial_query: Some("test query".to_string()),
    };
    let data: ConversationDetailsData<&str, u8, ()> = ConversationDetailsData::from_conversation(facts);
    assert_eq!(data.directory.as_deref(), Some(directory));
    assert_eq!(data.conversation_id, Some(conversation_id.to_string()));
    assert!(data.ai_conversation_id.is_none());
    assert!(data.status.is_some());
    assert_eq!(data.title, "test query");
    assert_eq!(data.source_prompt.as_deref(), Some("test query"));
}

#[test]
fn commands_are_attributed_to_cited_local_objects_only() {
    let collection = LocalObject::EnvVarCollection {
        export_for_shell: "export A=1".to_string(),
        vars: vec![EnvVarAttribution { command: None, initialization: "export A=1;".to_string() }],
    };
    let cited = AgentCitation::LocalObject { uid: "obj".to_string() };
    assert!(is_command_copied_from_document("  export A=1  ", &cited, &collection, true));
    assert!(!is_command_copied_from_document("export A=1", &cited, &collection, false));
    assert!(!is_command_copied_from_document("export A=1", &AgentCitation::Other, &collection, true));
    let workflow = LocalObject::Workflow { matches_command: true };
    assert!(is_command_copied_from_local_object("anything", &workflow, false));
    assert!(!is_command_copied_from_local_object("x", &LocalObject::Missing, true));
}

#[test]
fn requests_go_only_into_known_idle_conversations() {
    assert_eq!(admit_request(false, true), Err(RequestRefusal::NoSuchConversation));
    assert_eq!(admit_request(true, true), Err(RequestRefusal::InFlight));
    assert_eq!(admit_request(true, false), Ok(()));
}

fn prompt_input(query: Option<&str>, text: &str, context: &[&str]) -> AcpPromptInput {
    AcpPromptInput {
        user_query: query.map(String::from),
        text: text.to_string(),
        context_sections: context.iter().map(|c| c.to_string()).collect(),
    }
}

#[test]
fn the_agent_prompt_joins_queries_then_context() {
    let inputs = vec![
        prompt_input(Some("fix the build"), "fix the build", &["Working directory:\n/repo"]),
        prompt_input(None, "action result", &[]),
        prompt_input(Some("and add a test"), "and add a test", &["Selected text:\nfn a()", "Attachment x:\ny"]),
    ];
    assert_eq!(
        acp_prompt_from_request(&inputs),
        "fix the build\n\nand add a test\n\nContext:\nWorking directory:\n/repo\n\nSelected text:\nfn a()\n\nAttachment x:\ny"
    );
    assert!(input_contains_user_query(&inputs));
}

#[test]
fn without_queries_the_agent_prompt_is_every_input() {
    let inputs = vec![prompt_input(None, "result one", &[]), prompt_input(None, "result two", &[])];
    assert_eq!(acp_prompt_from_request(&inputs), "result one\n\nresult two");
    assert!(!input_contains_user_query(&inputs));
    assert_eq!(acp_prompt_from_request(&vec![]), "");
}

#[test]
fn follow_ups_pick_their_task() {
    let running: FollowUpTask<u64, &str> = follow_up_task(Some(9), Some((4, Some("sub"))), 4, Some("root"));
    assert_eq!(running, FollowUpTask::CreateCliSubagentTask { block_id: 9 });
    assert_eq!(follow_up_task::<u64, &str>(None, Some((4, Some("sub"))), 4, Some("root")), FollowUpTask::Task("sub"));
    assert_eq!(follow_up_task::<u64, &str>(None, Some((5, Some("sub"))), 4, Some("root")), FollowUpTask::Task("root"));
    assert_eq!(follow_up_task::<u64, &str>(None, Some((4, None)), 4, Some("root")), FollowUpTask::Task("root"));
    assert_eq!(follow_up_task::<u64, &str>(None, None, 4, None), FollowUpTask::Abandon);
}

fn outcome(is_request_file_edits: bool, triggers_request: bool, is_successful: bool) -> FinishedActionOutcome {
    FinishedActionOutcome { is_request_file_edits, triggers_request, is_successful }
}

#[test]
fn finished_actions_wait_for_unfinished_actions_and_missing_state() {
    let results = Some(vec![outcome(false, true, true)]);
    assert_eq!(
        on_actions_finished(true, Some(false), &results, true, false, false),
        FinishedActionsDecision::Nothing
    );
    assert_eq!(
        on_actions_finished(false, None, &results, true, false, false),
        FinishedActionsDecision::Nothing
    );
    assert_eq!(
        on_actions_finished(false, Some(false), &None, true, false, false),
        FinishedActionsDecision::Nothing
    );
}

#[test]
fn finished_actions_send_a_follow_up_when_a_result_asks() {
    let results = Some(vec![outcome(false, false, true), outcome(false, true, false)]);
    assert_eq!(
        on_actions_finished(false, Some(false), &results, false, false, false),
        FinishedActionsDecision::SendFollowUp
    );
    // A completed long-running command sends nothing back on its own.
    assert_eq!(
        on_actions_finished(false, Some(false), &results, false, true, false),
        FinishedActionsDecision::UpdateStatus(FinishedConversationStatus::Success)
    );
    // A pending manual follow-up always sends.
    assert_eq!(
        on_actions_finished(false, Some(false), &results, true, true, true),
        FinishedActionsDecision::SendFollowUp
    );
}

#[test]
fn passive_code_diff_sets_status_instead_of_following_up() {
    let accepted = Some(vec![outcome(true, true, true)]);
    assert_eq!(
        on_actions_finished(false, Some(true), &accepted, false, false, false),
        FinishedActionsDecision::UpdateStatus(FinishedConversationStatus::Success)
    );
    let rejected = Some(vec![outcome(true, true, false)]);
    assert_eq!(
        on_actions_finished(false, Some(true), &rejected, false, false, false),
        FinishedActionsDecision::UpdateStatus(FinishedConversationStatus::Cancelled)
    );
    // While the agent session is active the status is left alone.
    assert_eq!(
        on_actions_finished(false, Some(true), &rejected, false, false, true),
        FinishedActionsDecision::Nothing
    );
    // A passive diff whose last result is not a file edit still follows up.
    let mixed = Some(vec![outcome(true, true, true), outcome(false, false, true)]);
    assert_eq!(
        on_actions_finished(false, Some(true), &mixed, false, false, false),
        FinishedActionsDecision::SendFollowUp
    );
}

#[test]
fn leaving_the_agent_view_cancels_only_started_conversations_in_progress() {
    assert!(!cancels_on_exit(0, Some(true)));
    assert!(!cancels_on_exit(2, None));
    assert!(!cancels_on_exit(2, Some(false)));
    assert!(cancels_on_exit(2, Some(true)));
}

#[test]
fn passive_requests_leave_the_active_conversation() {
    assert!(marks_conversation_active(&vec![]));
    assert!(marks_conversation_active(&vec![false, false]));
    assert!(!marks_conversation_active(&vec![false, true]));
}

#[test]
fn finished_results_go_before_typed_queries_only() {
    let typed = InputQuery {
        input_query: InputQueryType::UserSubmittedQueryFromInput { query: "fix it".to_string() },
    };
    assert_eq!(typed.prepended_action_results(vec![1, 2]), vec![1, 2]);
    let agent = InputQuery { input_query: InputQueryType::AIInputType { user_query: None } };
    assert_eq!(agent.prepended_action_results(vec![1, 2]), Vec::<i32>::new());
}
