use blocklist::agent_view::{zero_state_message, Keystroke, MessageAction, MessageEntry, ZeroStateInputs};
use blocklist::message_bar::{
    agent_message_source, autodetected_bash_mode_message, bootstrapping_message,
    exit_bash_mode_message, fork_slash_command_message, hide_shortcuts_message, AgentMessageSource,
    AgentMessageState, DetectedSlashCommand, MessageColor, MessageItem,
};

fn zero_state() -> ZeroStateInputs {
    ZeroStateInputs {
        is_ai_input_enabled: true,
        is_input_type_locked: false,
        agent_view_entry_length: Some(2),
        exchange_count: 2,
        is_entirely_passive: false,
        is_cancelled_or_error: false,
        is_mac: true,
        is_buffer_empty: true,
        show_code_review_button: false,
        conversations_keystroke: None,
        plan_count: 0,
        is_plan_open: false,
        can_fork: false,
    }
}

fn state() -> AgentMessageState {
    AgentMessageState {
        has_ephemeral_message: false,
        is_bootstrapped: true,
        detected_slash_command: None,
        has_attached_blocks_message: false,
        has_attached_text_selection_message: false,
        is_shortcut_view_open: false,
        zero_state: zero_state(),
    }
}

fn entry(keystroke: &str, text: &str, action: MessageAction, disabled: bool) -> MessageEntry {
    MessageEntry { keystroke: keystroke.to_string(), text: text.to_string(), action, disabled }
}

fn key(name: &str, cmd: bool, muted: bool) -> MessageItem {
    let mut keystroke = Keystroke::plain(name);
    keystroke.cmd = cmd;
    MessageItem::Keystroke { keystroke, muted }
}

fn text(t: &str) -> MessageItem {
    MessageItem::Text(t.to_string())
}

#[test]
fn producers_are_asked_in_order_of_priority() {
    let mut s = state();
    assert_eq!(agent_message_source(&s), AgentMessageSource::ZeroState);
    s.is_shortcut_view_open = true;
    assert_eq!(agent_message_source(&s), AgentMessageSource::HideShortcuts);
    s.zero_state.is_ai_input_enabled = false;
    s.zero_state.is_input_type_locked = true;
    assert_eq!(agent_message_source(&s), AgentMessageSource::ExitBashMode);
    s.zero_state.is_input_type_locked = false;
    s.zero_state.is_buffer_empty = false;
    assert_eq!(agent_message_source(&s), AgentMessageSource::AutodetectedBashMode);
    s.has_attached_text_selection_message = true;
    assert_eq!(agent_message_source(&s), AgentMessageSource::AttachedTextSelection);
    s.has_attached_blocks_message = true;
    assert_eq!(agent_message_source(&s), AgentMessageSource::AttachedBlocks);
    s.detected_slash_command = Some(DetectedSlashCommand::ForkFrom);
    assert_eq!(agent_message_source(&s), AgentMessageSource::ForkSlashCommand);
    s.is_bootstrapped = false;
    assert_eq!(agent_message_source(&s), AgentMessageSource::Bootstrapping);
    s.has_ephemeral_message = true;
    assert_eq!(agent_message_source(&s), AgentMessageSource::Ephemeral);
}

#[test]
fn another_slash_command_is_no_autodetected_shell_command() {
    let mut s = state();
    s.zero_state.is_ai_input_enabled = false;
    s.zero_state.is_buffer_empty = false;
    s.detected_slash_command = Some(DetectedSlashCommand::Other);
    assert_eq!(agent_message_source(&s), AgentMessageSource::ZeroState);
    s.zero_state.agent_view_entry_length = None;
    assert_eq!(agent_message_source(&s), AgentMessageSource::Empty);
}

#[test]
fn fork_commands_name_their_destinations() {
    assert_eq!(
        fork_slash_command_message(DetectedSlashCommand::Fork).unwrap().items,
        vec![key("enter", false, false), text(" new pane"), key("enter", true, false), text(" new tab")]
    );
    assert_eq!(
        fork_slash_command_message(DetectedSlashCommand::ForkFrom).unwrap().items,
        vec![key("enter", false, false), text(" current pane"), key("enter", true, false), text(" new pane")]
    );
    assert!(fork_slash_command_message(DetectedSlashCommand::Other).is_none());
}

#[test]
fn fixed_messages() {
    assert_eq!(bootstrapping_message().items, vec![text("Starting shell...")]);
    let hide = hide_shortcuts_message();
    assert_eq!(hide.items, vec![key("?", false, false), text("to hide help")]);
    assert_eq!(hide.on_click, Some(MessageAction::ToggleAgentViewShortcuts));
}

#[test]
fn shell_mode_messages() {
    let detected = autodetected_bash_mode_message(Some(Keystroke::plain("i")));
    assert_eq!(
        detected.items,
        vec![text("autodetected shell command, "), key("i", false, false), text(" to override")]
    );
    assert_eq!(detected.color, MessageColor::Blue);
    let unbound = autodetected_bash_mode_message(None);
    assert_eq!(unbound.items, vec![text("autodetected shell command")]);
    assert_eq!(unbound.color, MessageColor::Default);
    let empty = exit_bash_mode_message(true);
    assert_eq!(empty.items, vec![key("backspace", false, false), text("to exit shell mode")]);
    assert_eq!(empty.color, MessageColor::Blue);
    let typing = exit_bash_mode_message(false);
    assert_eq!(typing.items, vec![key("backspace", false, true), text("to exit shell mode")]);
    assert_eq!(typing.color, MessageColor::FadedBlue);
}

#[test]
fn zero_state_lists_help_and_commands() {
    assert_eq!(
        zero_state_message(&zero_state()).unwrap(),
        vec![
            entry("?", "for help", MessageAction::ToggleAgentViewShortcuts, false),
            entry("/", "for commands", MessageAction::ToggleSlashCommandsMenu, false),
        ]
    );
}

#[test]
fn zero_state_offers_resume_menu_review_plans_and_fork() {
    let mut inputs = zero_state();
    inputs.is_cancelled_or_error = true;
    inputs.is_mac = false;
    inputs.is_buffer_empty = false;
    inputs.conversations_keystroke = Some("ctrl-shift-o".to_string());
    inputs.show_code_review_button = true;
    inputs.plan_count = 2;
    inputs.can_fork = true;
    assert_eq!(
        zero_state_message(&inputs).unwrap(),
        vec![
            entry("ctrl-alt-r", "to resume conversation", MessageAction::ResumeConversation, false),
            entry("?", "for help", MessageAction::ToggleAgentViewShortcuts, true),
            entry("/", "for commands", MessageAction::ToggleSlashCommandsMenu, true),
            entry("ctrl-shift-o", "open conversation", MessageAction::ToggleConversationsMenu, false),
            entry("ctrl-shift-+", "for code review", MessageAction::ToggleCodeReview, false),
            entry("cmdorctrl-alt-p", "to view plans", MessageAction::ToggleAIDocumentPane, false),
            entry(
                "ctrl-alt-y",
                "to fork and continue",
                MessageAction::ForkConversationFromLastKnownGoodState,
                false
            ),
        ]
    );
    inputs.plan_count = 1;
    inputs.is_plan_open = true;
    inputs.exchange_count = 3;
    inputs.is_entirely_passive = true;
    let items = zero_state_message(&inputs).unwrap();
    assert!(items.iter().all(|e| e.action != MessageAction::ToggleConversationsMenu));
    assert!(items.iter().all(|e| e.action != MessageAction::ResumeConversation));
    assert!(items.contains(&entry("cmdorctrl-alt-p", "to hide plan", MessageAction::ToggleAIDocumentPane, false)));
}

#[test]
fn zero_state_is_silent_in_locked_shell_mode_or_outside_the_agent_view() {
    let mut inputs = zero_state();
    inputs.is_ai_input_enabled = false;
    inputs.is_input_type_locked = true;
    assert!(zero_state_message(&inputs).is_none());
    let mut outside = zero_state();
    outside.agent_view_entry_length = None;
    assert!(zero_state_message(&outside).is_none());
}
