use blocklist::agent_view::{
    acp_current_mode_label, agent_message_bar_shortcut_visibility, agent_shortcut_props,
    fork_from_last_known_good_state_exchange_id, should_fork_from_last_known_good_state,
    AgentShortcutKeybindings, AgentShortcutsViewContext, ExchangeOutcome, ExchangeSummary,
    Keystroke, RenderableAIError,
};

#[test]
fn acp_footer_keeps_generic_shortcuts() {
    let visibility = agent_message_bar_shortcut_visibility(false, true);

    assert!(visibility.show_conversation_menu);
    assert!(visibility.show_code_review);
}

#[test]
fn updated_conversations_hide_conversation_menu_only() {
    let visibility = agent_message_bar_shortcut_visibility(true, true);

    assert!(!visibility.show_conversation_menu);
    assert!(visibility.show_code_review);
}

fn test_keystroke(key: &str) -> Keystroke {
    Keystroke::plain(key)
}

fn new_conversation_keystroke() -> Keystroke {
    let mut keystroke = Keystroke::plain("n");
    keystroke.cmd = true;
    keystroke
}

fn key_of(shortcut: &blocklist::agent_view::ShortcutProps) -> (&str, bool, bool, bool, bool) {
    let k = &shortcut.keystroke;
    (k.key.as_str(), k.ctrl, k.alt, k.shift, k.cmd)
}

#[test]
fn acp_shortcuts_keep_generic_items_without_legacy_agent_items() {
    let shortcuts = agent_shortcut_props(
        AgentShortcutsViewContext {
            has_submitted_first_prompt: false,
        },
        AgentShortcutKeybindings {
            code_review: Some(test_keystroke("r")),
            conversation_list: Some(test_keystroke("l")),
            conversation_search: Some(test_keystroke("y")),
            new_conversation: new_conversation_keystroke(),
        },
    );
    let labels = shortcuts
        .iter()
        .map(|shortcut| shortcut.text.as_str())
        .collect::<Vec<_>>();

    assert_eq!(
        labels,
        vec![
            "input shell command",
            "for slash commands",
            "for file paths and attaching other context",
            "open code review",
            "toggle conversation list",
            "search and continue conversations",
            "start a new conversation",
            "pause agent",
            "go back to terminal",
        ]
    );
    assert!(!labels.contains(&"toggle auto-accept"));
    assert_eq!(
        shortcuts
            .iter()
            .find(|shortcut| shortcut.text == "search and continue conversations")
            .map(|shortcut| shortcut.keystroke.key.as_str()),
        Some("y")
    );
}

#[test]
fn unbound_shortcuts_are_left_out() {
    let shortcuts = agent_shortcut_props(
        AgentShortcutsViewContext::default(),
        AgentShortcutKeybindings {
            code_review: None,
            conversation_list: None,
            conversation_search: None,
            new_conversation: new_conversation_keystroke(),
        },
    );
    let labels: Vec<&str> = shortcuts.iter().map(|s| s.text.as_str()).collect();
    assert_eq!(labels.len(), 6);
    assert_eq!(labels[3], "start a new conversation");
    assert!(shortcuts[4].keystroke.ctrl);
    assert_eq!(shortcuts[5].keystroke.key, "escape");
}

#[test]
fn every_shortcut_carries_its_keystroke() {
    let shortcuts = agent_shortcut_props(
        AgentShortcutsViewContext { has_submitted_first_prompt: false },
        AgentShortcutKeybindings {
            code_review: Some(test_keystroke("r")),
            conversation_list: None,
            conversation_search: Some(test_keystroke("y")),
            new_conversation: new_conversation_keystroke(),
        },
    );
    let keys: Vec<_> = shortcuts.iter().map(key_of).collect();
    assert_eq!(
        keys,
        vec![
            ("!", false, false, false, false),
            ("/", false, false, false, false),
            ("@", false, false, false, false),
            ("r", false, false, false, false),
            ("y", false, false, false, false),
            ("n", false, false, false, true),
            ("c", true, false, false, false),
            ("escape", false, false, false, false),
        ]
    );
    assert_eq!(shortcuts[3].text, "open code review");
    assert_eq!(shortcuts[4].text, "search and continue conversations");
    assert!(shortcuts.iter().all(|s| s.text_color.is_none()));
}

#[test]
fn acp_current_mode_label_uses_current_mode_update() {
    assert_eq!(acp_current_mode_label(None), None);
    assert_eq!(acp_current_mode_label(Some("plan")).as_deref(), Some("plan"));
    assert_eq!(acp_current_mode_label(Some("   ")), None);
    assert_eq!(acp_current_mode_label(Some("\t code \n")).as_deref(), Some("code"));
}

fn exchange(id: u128, has_user_query: bool, outcome: ExchangeOutcome) -> ExchangeSummary {
    ExchangeSummary {
        id,
        has_user_query,
        outcome,
    }
}

#[test]
fn fork_skips_the_failed_latest_query_and_finds_the_last_good_one() {
    let failed = ExchangeOutcome::Error(RenderableAIError::Other {
        will_attempt_resume: false,
    });
    let exchanges = vec![
        exchange(1, true, ExchangeOutcome::Success),
        exchange(2, true, ExchangeOutcome::Success),
        exchange(3, false, ExchangeOutcome::Success),
        exchange(4, true, ExchangeOutcome::Cancelled),
        exchange(5, true, failed),
    ];
    assert!(should_fork_from_last_known_good_state(&exchanges, false));
    assert_eq!(fork_from_last_known_good_state_exchange_id(&exchanges, false), Some(2));
    assert_eq!(fork_from_last_known_good_state_exchange_id(&exchanges, true), None);
}

#[test]
fn no_fork_for_retried_or_overloaded_failures() {
    let resumed = vec![
        exchange(1, true, ExchangeOutcome::Success),
        exchange(2, true, ExchangeOutcome::Error(RenderableAIError::Other {
            will_attempt_resume: true,
        })),
    ];
    assert!(!should_fork_from_last_known_good_state(&resumed, false));
    assert_eq!(fork_from_last_known_good_state_exchange_id(&resumed, false), None);
    let overloaded = vec![
        exchange(1, true, ExchangeOutcome::Success),
        exchange(2, true, ExchangeOutcome::Error(RenderableAIError::ProviderOverloaded)),
    ];
    assert!(!should_fork_from_last_known_good_state(&overloaded, false));
    assert!(!should_fork_from_last_known_good_state(&vec![], false));
    let only_failed = vec![exchange(9, true, ExchangeOutcome::Error(RenderableAIError::Other {
        will_attempt_resume: false,
    }))];
    assert_eq!(fork_from_last_known_good_state_exchange_id(&only_failed, false), None);
}
