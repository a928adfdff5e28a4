use blocklist::history_model::{history_order, BlocklistAIHistoryModel, BlocklistAIHistoryEvent, HistoryOrder};

fn registry_with(view: u64, ids: &[u128]) -> (BlocklistAIHistoryModel<String>, Vec<BlocklistAIHistoryEvent>) {
    let mut registry = BlocklistAIHistoryModel::new();
    let mut events = Vec::new();
    for id in ids {
        registry.start_new_conversation(view, *id, format!("conversation {id}"), &mut events);
    }
    (registry, events)
}

#[test]
fn test_all_cleared_conversations_includes_terminal_view_id() {
    let terminal_view_id: u64 = 7;
    let (mut registry, mut events) = registry_with(terminal_view_id, &[1]);
    registry.clear_conversations_in_terminal_view(terminal_view_id, &mut events);
    let has_cleared = registry
        .all_cleared_conversations()
        .iter()
        .any(|(id, convo)| *id == terminal_view_id && *convo == 1);
    assert!(has_cleared);
}

#[test]
fn starting_conversations_appends_them_in_order() {
    let (registry, events) = registry_with(1, &[10, 11, 12]);
    assert_eq!(registry.all_live_conversations_for_terminal_view(1), vec![10, 11, 12]);
    assert_eq!(
        events,
        vec![
            BlocklistAIHistoryEvent::StartedNewConversation { new_conversation_id: 10, terminal_view_id: 1 },
            BlocklistAIHistoryEvent::StartedNewConversation { new_conversation_id: 11, terminal_view_id: 1 },
            BlocklistAIHistoryEvent::StartedNewConversation { new_conversation_id: 12, terminal_view_id: 1 },
        ]
    );
    assert_eq!(registry.conversation(11), Some(&"conversation 11".to_string()));
    assert_eq!(registry.conversation(99), None);
    assert!(registry.all_live_conversations_for_terminal_view(2).is_empty());
}

#[test]
fn activating_in_another_view_transfers_ownership() {
    let (mut registry, mut events) = registry_with(1, &[10, 11]);
    registry.set_active_conversation_id(10, 1, &mut events);
    assert_eq!(registry.active_conversation_id(1), Some(10));
    // View 2 restores conversation 10 and activates it.
    registry.restore_conversations(2, vec![(10, "restored".to_string())], &mut events);
    events.clear();
    registry.set_active_conversation_id(10, 2, &mut events);
    assert_eq!(
        events,
        vec![
            BlocklistAIHistoryEvent::ClearedActiveConversation { conversation_id: 10, terminal_view_id: 1 },
            BlocklistAIHistoryEvent::ConversationOwnershipTransferred {
                conversation_id: 10,
                previous_terminal_view_id: 1,
                new_terminal_view_id: 2,
            },
            BlocklistAIHistoryEvent::SetActiveConversation { conversation_id: 10, terminal_view_id: 2 },
        ]
    );
    assert_eq!(registry.all_live_conversations_for_terminal_view(1), vec![11]);
    assert_eq!(registry.all_live_conversations_for_terminal_view(2), vec![10]);
    assert_eq!(registry.active_conversation_id(1), None);
    assert_eq!(registry.active_conversation_id(2), Some(10));
    assert_eq!(registry.terminal_view_id_for_conversation(10), Some(2));
    assert_eq!(registry.terminal_view_id_for_conversation(11), Some(1));
}

#[test]
fn activating_a_conversation_the_view_does_not_own_does_nothing() {
    let (mut registry, mut events) = registry_with(1, &[10]);
    events.clear();
    registry.set_active_conversation_id(10, 2, &mut events);
    registry.mark_active_conversation_id(10, 2, &mut events);
    assert!(events.is_empty());
    assert_eq!(registry.active_conversation_id(2), None);
    assert_eq!(registry.active_conversation_id(1), None);
}

#[test]
fn marking_active_leaves_other_views_alone() {
    let (mut registry, mut events) = registry_with(1, &[10]);
    registry.set_active_conversation_id(10, 1, &mut events);
    registry.restore_conversations(2, vec![(10, "restored".to_string())], &mut events);
    events.clear();
    registry.mark_active_conversation_id(10, 2, &mut events);
    assert_eq!(
        events,
        vec![BlocklistAIHistoryEvent::SetActiveConversation { conversation_id: 10, terminal_view_id: 2 }]
    );
    assert_eq!(registry.active_conversation_id(1), Some(10));
    assert_eq!(registry.active_conversation_id(2), Some(10));
    assert_eq!(registry.all_live_conversations_for_terminal_view(1), vec![10]);
}

#[test]
fn restoring_reports_each_conversation_then_all() {
    let (mut registry, mut events) = registry_with(3, &[5]);
    events.clear();
    registry.restore_conversations(3, vec![(6, "a".to_string()), (7, "b".to_string())], &mut events);
    assert_eq!(registry.all_live_conversations_for_terminal_view(3), vec![5, 6, 7]);
    assert_eq!(
        events,
        vec![
            BlocklistAIHistoryEvent::RestoredConversation { conversation_id: 6, terminal_view_id: 3 },
            BlocklistAIHistoryEvent::RestoredConversation { conversation_id: 7, terminal_view_id: 3 },
            BlocklistAIHistoryEvent::RestoredConversations { terminal_view_id: 3, conversation_ids: vec![6, 7] },
        ]
    );
    assert_eq!(registry.conversation(7), Some(&"b".to_string()));
}

#[test]
fn clearing_moves_live_conversations_after_earlier_cleared_ones() {
    let (mut registry, mut events) = registry_with(1, &[1, 2]);
    registry.set_active_conversation_id(2, 1, &mut events);
    registry.clear_conversations_in_terminal_view(1, &mut events);
    assert_eq!(
        events.last(),
        Some(&BlocklistAIHistoryEvent::ClearedConversationsInTerminalView {
            terminal_view_id: 1,
            active_conversation_id: Some(2),
            cleared_conversation_ids: vec![1, 2],
        })
    );
    registry.start_new_conversation(1, 3, "three".to_string(), &mut events);
    registry.clear_conversations_in_terminal_view(1, &mut events);
    assert_eq!(
        events.last(),
        Some(&BlocklistAIHistoryEvent::ClearedConversationsInTerminalView {
            terminal_view_id: 1,
            active_conversation_id: None,
            cleared_conversation_ids: vec![3],
        })
    );
    assert!(registry.all_live_conversations_for_terminal_view(1).is_empty());
    let mut cleared = registry.all_cleared_conversations();
    cleared.sort();
    assert_eq!(cleared, vec![(1, 1), (1, 2), (1, 3)]);
    assert!(!registry.is_conversation_live(2));
    assert_eq!(registry.active_conversation_id(1), None);
}

#[test]
fn removing_a_conversation_takes_it_out_of_the_view() {
    let (mut registry, mut events) = registry_with(1, &[1, 2]);
    registry.set_active_conversation_id(2, 1, &mut events);
    events.clear();
    registry.remove_conversation(2, 1, &mut events);
    assert_eq!(
        events,
        vec![BlocklistAIHistoryEvent::RemoveConversation { terminal_view_id: 1, conversation_id: 2 }]
    );
    assert_eq!(registry.conversation(2), None);
    assert_eq!(registry.active_conversation_id(1), None);
    assert_eq!(registry.all_live_conversations_for_terminal_view(1), vec![1]);
    assert!(!registry.is_conversation_live(2));
    assert!(registry.is_conversation_live(1));
}

#[test]
fn deleting_without_a_view_only_forgets_the_conversation() {
    let (mut registry, mut events) = registry_with(1, &[1, 2]);
    events.clear();
    registry.delete_conversation(1, None, &mut events);
    assert!(events.is_empty());
    assert_eq!(registry.conversation(1), None);
    // The id stays listed but is no longer in memory.
    assert!(registry.is_conversation_live(1));
    assert_eq!(registry.all_live_conversations_for_terminal_view(1), vec![2]);
    let mut live = registry.all_live_conversations();
    live.sort();
    assert_eq!(live, vec![(1, 2)]);
}

#[test]
fn deleting_from_a_view_reports_removal_then_deletion() {
    let (mut registry, mut events) = registry_with(4, &[9]);
    events.clear();
    registry.delete_conversation(9, Some(4), &mut events);
    assert_eq!(
        events,
        vec![
            BlocklistAIHistoryEvent::RemoveConversation { terminal_view_id: 4, conversation_id: 9 },
            BlocklistAIHistoryEvent::DeletedConversation { terminal_view_id: 4, conversation_id: 9 },
        ]
    );
    assert_eq!(registry.terminal_view_id_for_conversation(9), None);
}

#[test]
fn events_name_the_view_they_concern() {
    let moved = BlocklistAIHistoryEvent::ConversationOwnershipTransferred {
        conversation_id: 1,
        previous_terminal_view_id: 3,
        new_terminal_view_id: 4,
    };
    assert_eq!(moved.terminal_view_id(), Some(3));
    let started =
        BlocklistAIHistoryEvent::StartedNewConversation { new_conversation_id: 1, terminal_view_id: 9 };
    assert_eq!(started.terminal_view_id(), Some(9));
    let historical =
        BlocklistAIHistoryEvent::UpdatedConversationMetadata { terminal_view_id: None, conversation_id: 1 };
    assert_eq!(historical.terminal_view_id(), None);
}

#[test]
fn transcript_viewers_are_remembered() {
    let (mut registry, _) = registry_with(1, &[1]);
    assert!(!registry.is_terminal_view_conversation_transcript_viewer(8));
    registry.mark_terminal_view_as_conversation_transcript_viewer(8);
    assert!(registry.is_terminal_view_conversation_transcript_viewer(8));
    assert!(!registry.is_terminal_view_conversation_transcript_viewer(1));
}

#[test]
fn test_transcript_viewer_terminal_view_is_not_marked_historical() {
    let terminal_view_id: u64 = 3;
    let (mut history_model, _) = registry_with(terminal_view_id, &[1]);
    history_model.mark_terminal_view_as_conversation_transcript_viewer(terminal_view_id);
    history_model.mark_conversations_historical_for_terminal_view(terminal_view_id, &vec![1]);
    let historical_count = history_model.get_local_conversations_metadata().len();
    assert_eq!(historical_count, 0);
}

#[test]
fn eligible_live_conversations_become_historical() {
    let (mut history_model, mut events) = registry_with(3, &[1, 2, 3]);
    history_model.delete_conversation(3, None, &mut events);
    history_model.mark_conversations_historical_for_terminal_view(3, &vec![1, 3, 9]);
    let mut ids = history_model.get_local_conversations_metadata();
    ids.sort();
    assert_eq!(ids, vec![1]);
}

#[test]
fn the_latest_conversation_holding_an_action_is_found() {
    let (mut history_model, mut events) = registry_with(2, &[1, 2, 3]);
    assert_eq!(history_model.conversation_id_for_action(2, &vec![1, 2]), Some(2));
    history_model.delete_conversation(2, None, &mut events);
    assert_eq!(history_model.conversation_id_for_action(2, &vec![1, 2]), Some(1));
    assert_eq!(history_model.conversation_id_for_action(2, &vec![7]), None);
    assert_eq!(history_model.conversation_id_for_action(5, &vec![1]), None);
}

#[test]
fn clearing_a_view_without_live_conversations_lists_none() {
    let (mut registry, mut events) = registry_with(1, &[1]);
    registry.clear_conversations_in_terminal_view(4, &mut events);
    assert_eq!(
        events.last(),
        Some(&BlocklistAIHistoryEvent::ClearedConversationsInTerminalView {
            terminal_view_id: 4,
            active_conversation_id: None,
            cleared_conversation_ids: vec![],
        })
    );
}

#[test]
fn queries_of_the_shown_view_are_of_the_current_session() {
    assert_eq!(history_order(Some(3), 3), HistoryOrder::CurrentSession);
    assert_eq!(history_order(Some(3), 4), HistoryOrder::DifferentSession);
    assert_eq!(history_order(None, 3), HistoryOrder::DifferentSession);

    let (mut registry, mut events) = registry_with(1, &[10, 11]);
    registry.start_new_conversation(2, 20, "other".to_string(), &mut events);
    registry.clear_conversations_in_terminal_view(1, &mut events);
    registry.start_new_conversation(1, 12, "later".to_string(), &mut events);

    let sources = registry.ai_query_sources(Some(1));
    let mut cleared = sources.cleared.clone();
    cleared.sort_by_key(|(id, _)| *id);
    assert_eq!(cleared, vec![(10, HistoryOrder::CurrentSession), (11, HistoryOrder::CurrentSession)]);
    let mut live = sources.live.clone();
    live.sort_by_key(|(id, _)| *id);
    assert_eq!(live, vec![(12, HistoryOrder::CurrentSession), (20, HistoryOrder::DifferentSession)]);

    let elsewhere = registry.ai_query_sources(None);
    assert!(elsewhere.live.iter().all(|(_, order)| *order == HistoryOrder::DifferentSession));
}

#[test]
fn persisted_queries_of_loaded_conversations_are_left_out() {
    let (mut registry, mut events) = registry_with(1, &[10, 11]);
    registry.clear_conversations_in_terminal_view(1, &mut events);
    registry.start_new_conversation(2, 20, "live".to_string(), &mut events);
    assert!(registry.is_conversation_loaded(10));
    assert!(registry.is_conversation_loaded(20));
    assert!(!registry.is_conversation_loaded(30));
    assert_eq!(registry.persisted_queries_to_show(&vec![30, 10, 20, 31, 30]), vec![0, 3, 4]);
    assert!(registry.persisted_queries_to_show(&vec![]).is_empty());
}
