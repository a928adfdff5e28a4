//! Decisions of the agent view: which shortcuts its message bar and its
//! shortcut list show, the mode label of an external agent session, and
//! where to fork a conversation whose latest request failed.

use vstd::prelude::*;

use crate::text::{trim, trimmed};

verus! {

/// Which shortcuts the agent message bar shows.
#[derive(Clone, Copy, Debug, PartialEq, Eq, Structural)]
pub struct AgentMessageBarShortcutVisibility {
    pub show_conversation_menu: bool,
    pub show_code_review: bool,
}

/// The conversation menu shows until the conversation is updated after
/// entering the agent view; the code review shortcut shows as asked.
pub fn agent_message_bar_shortcut_visibility(
    has_conversation_been_updated_since_agent_view_entry: bool,
    show_code_review_button: bool,
) -> (visibility: AgentMessageBarShortcutVisibility)
    ensures
        visibility.show_conversation_menu == !has_conversation_been_updated_since_agent_view_entry,
        visibility.show_code_review == show_code_review_button,
{
    AgentMessageBarShortcutVisibility {
        show_conversation_menu: !has_conversation_been_updated_since_agent_view_entry,
        show_code_review: show_code_review_button,
    }
}

/// What the agent shortcuts view knows of the conversation.
#[derive(Clone, Copy, Debug, Default, PartialEq, Eq, Structural)]
pub struct AgentShortcutsViewContext {
    pub has_submitted_first_prompt: bool,
}

/// A key with its modifiers.
#[derive(Debug, PartialEq, Eq)]
pub struct Keystroke {
    pub key: String,
    pub ctrl: bool,
    pub alt: bool,
    pub shift: bool,
    pub cmd: bool,
}

impl Keystroke {
    /// `key` without modifiers.
    pub fn plain(key: &str) -> (keystroke: Keystroke)
        ensures
            keystroke.key@ == key@,
            !keystroke.ctrl && !keystroke.alt && !keystroke.shift && !keystroke.cmd,
    {
        Keystroke { key: key.to_string(), ctrl: false, alt: false, shift: false, cmd: false }
    }
}

/// A color as red, green, blue and alpha bytes.
#[derive(Debug)]
pub struct ColorU {
    pub r: u8,
    pub g: u8,
    pub b: u8,
    pub a: u8,
}

/// One entry of the shortcut list: a keystroke, what it does, and the color
/// of its text when it differs from the theme's.
#[derive(Debug)]
pub struct ShortcutProps {
    pub keystroke: Keystroke,
    pub text: String,
    pub text_color: Option<ColorU>,
}

/// Every entry of `shortcuts` takes the theme's text color.
pub open spec fn theme_colored(shortcuts: Seq<ShortcutProps>) -> bool {
    forall|i: int| 0 <= i < shortcuts.len() ==> shortcuts[i].text_color is None
}

/// The keystrokes the shortcut list shows that depend on the application:
/// the user's bindings for the shortcuts that have one, and the agent view's
/// keystroke for starting a new conversation (a constant of the application,
/// handed in by the caller).
#[derive(Debug)]
pub struct AgentShortcutKeybindings {
    pub code_review: Option<Keystroke>,
    pub conversation_list: Option<Keystroke>,
    pub conversation_search: Option<Keystroke>,
    pub new_conversation: Keystroke,
}

/// A keystroke as plain values: key, ctrl, alt, shift, cmd.
pub type KeyView = (Seq<char>, bool, bool, bool, bool);

/// The plain values of `k`.
pub open spec fn key_view(k: Keystroke) -> KeyView {
    (k.key@, k.ctrl, k.alt, k.shift, k.cmd)
}

/// `key` without modifiers.
pub open spec fn plain_key(key: Seq<char>) -> KeyView {
    (key, false, false, false, false)
}

/// The entry for `keystroke` labelled `label`, when there is a keystroke.
pub open spec fn bound_entry(keystroke: Option<Keystroke>, label: Seq<char>) -> Seq<(KeyView, Seq<char>)> {
    match keystroke {
        Some(k) => seq![(key_view(k), label)],
        None => Seq::empty(),
    }
}

/// The shortcut list, as keystrokes and labels: `!`, `/` and `@` for the
/// input modes; code review, the conversation list and the conversation
/// search under their bindings, when bound; then starting a new
/// conversation, ctrl-`c` to pause the agent, and `escape` to go back.
pub open spec fn shortcut_entries(keybindings: AgentShortcutKeybindings) -> Seq<(KeyView, Seq<char>)> {
    seq![
        (plain_key("!"@), "input shell command"@),
        (plain_key("/"@), "for slash commands"@),
        (plain_key("@"@), "for file paths and attaching other context"@),
    ] + bound_entry(keybindings.code_review, "open code review"@) + bound_entry(
        keybindings.conversation_list,
        "toggle conversation list"@,
    ) + bound_entry(keybindings.conversation_search, "search and continue conversations"@) + seq![
        (key_view(keybindings.new_conversation), "start a new conversation"@),
        (("c"@, true, false, false, false), "pause agent"@),
        (plain_key("escape"@), "go back to terminal"@),
    ]
}

/// The keystrokes and labels of a list of shortcuts.
pub open spec fn entries_of(shortcuts: Seq<ShortcutProps>) -> Seq<(KeyView, Seq<char>)> {
    shortcuts.map_values(|s: ShortcutProps| (key_view(s.keystroke), s.text@))
}

/// Appends a shortcut for `keystroke` labelled `text`.
fn push_shortcut(shortcuts: &mut Vec<ShortcutProps>, keystroke: Keystroke, text: &str)
    ensures
        entries_of(final(shortcuts)@) == entries_of(old(shortcuts)@).push((key_view(keystroke), text@)),
        theme_colored(old(shortcuts)@) ==> theme_colored(final(shortcuts)@),
{
    let ghost before = shortcuts@;
    let ghost k = key_view(keystroke);
    shortcuts.push(ShortcutProps { keystroke, text: text.to_string(), text_color: None });
    assert(entries_of(shortcuts@) =~= entries_of(before).push((k, text@)));
}

/// Appends the shortcut for `keystroke` labelled `text`, when bound.
fn push_bound(shortcuts: &mut Vec<ShortcutProps>, keystroke: Option<Keystroke>, text: &str)
    ensures
        entries_of(final(shortcuts)@) == entries_of(old(shortcuts)@) + bound_entry(keystroke, text@),
        theme_colored(old(shortcuts)@) ==> theme_colored(final(shortcuts)@),
{
    let ghost expected = bound_entry(keystroke, text@);
    let ghost before = entries_of(shortcuts@);
    match keystroke {
        Some(k) => push_shortcut(shortcuts, k, text),
        None => {},
    }
    assert(entries_of(shortcuts@) =~= before + expected);
}

/// The shortcut list of the agent view (see `shortcut_entries`), all in the
/// theme's text color; it does not depend on `context`.
pub fn agent_shortcut_props(context: AgentShortcutsViewContext, keybindings: AgentShortcutKeybindings) -> (shortcuts: Vec<ShortcutProps>)
    ensures
        entries_of(shortcuts@) == shortcut_entries(keybindings),
        theme_colored(shortcuts@),
{
    let _has_submitted_first_prompt = context.has_submitted_first_prompt;
    let ghost expected = shortcut_entries(keybindings);
    let mut shortcuts: Vec<ShortcutProps> = Vec::new();
    push_shortcut(&mut shortcuts, Keystroke::plain("!"), "input shell command");
    push_shortcut(&mut shortcuts, Keystroke::plain("/"), "for slash commands");
    push_shortcut(&mut shortcuts, Keystroke::plain("@"), "for file paths and attaching other context");
    let AgentShortcutKeybindings { code_review, conversation_list, conversation_search, new_conversation } =
        keybindings;
    push_bound(&mut shortcuts, code_review, "open code review");
    push_bound(&mut shortcuts, conversation_list, "toggle conversation list");
    push_bound(&mut shortcuts, conversation_search, "search and continue conversations");
    push_shortcut(&mut shortcuts, new_conversation, "start a new conversation");
    push_shortcut(
        &mut shortcuts,
        Keystroke { key: "c".to_string(), ctrl: true, alt: false, shift: false, cmd: false },
        "pause agent",
    );
    push_shortcut(&mut shortcuts, Keystroke::plain("escape"), "go back to terminal");
    assert(entries_of(shortcuts@) =~= expected);
    shortcuts
}

/// The label of an external agent session's current mode: its id without
/// surrounding white space, unless nothing is left.
pub fn acp_current_mode_label(current_mode_id: Option<&str>) -> (label: Option<String>)
    ensures
        match current_mode_id {
            Some(id) => if trimmed(id@).len() > 0 {
                label matches Some(l) && l@ == trimmed(id@)
            } else {
                label is None
            },
            None => label is None,
        },
{
    let id = match current_mode_id {
        Some(id) => id,
        None => {
            return None;
        },
    };
    let mode = trim(id);
    if mode.unicode_len() == 0 {
        None
    } else {
        Some(mode.to_string())
    }
}

/// Why a request failed.
#[derive(Clone, Copy, Debug, PartialEq, Eq, Structural)]
pub enum RenderableAIError {
    ProviderOverloaded,
    Other { will_attempt_resume: bool },
}

/// How an exchange's output ended, if it did.
#[derive(Clone, Copy, Debug, PartialEq, Eq, Structural)]
pub enum ExchangeOutcome {
    Streaming,
    Success,
    Cancelled,
    Error(RenderableAIError),
}

/// What the fork decision reads of one exchange of the root task.
#[derive(Clone, Copy, Debug, PartialEq, Eq, Structural)]
pub struct ExchangeSummary {
    pub id: u128,
    pub has_user_query: bool,
    pub outcome: ExchangeOutcome,
}

/// Whether forking from the last known good state is offered: outside the
/// transcript viewer, when the latest exchange failed in a way that will not
/// be retried on its own.
pub open spec fn offers_fork(exchanges: Seq<ExchangeSummary>, is_transcript_viewer: bool) -> bool {
    !is_transcript_viewer && exchanges.len() > 0 && match exchanges.last().outcome {
        ExchangeOutcome::Error(RenderableAIError::ProviderOverloaded) => false,
        ExchangeOutcome::Error(RenderableAIError::Other { will_attempt_resume }) => !will_attempt_resume,
        _ => false,
    }
}

/// Reading `exchanges` from the newest: the first successful exchange with a
/// user query once one such exchange (the failed latest) has been passed.
pub open spec fn fork_target(exchanges: Seq<ExchangeSummary>, passed_latest: bool) -> Option<u128>
    decreases exchanges.len(),
{
    if exchanges.len() == 0 {
        None
    } else {
        let e = exchanges.last();
        if !e.has_user_query {
            fork_target(exchanges.drop_last(), passed_latest)
        } else if !passed_latest {
            fork_target(exchanges.drop_last(), true)
        } else if e.outcome == ExchangeOutcome::Success {
            Some(e.id)
        } else {
            fork_target(exchanges.drop_last(), true)
        }
    }
}

/// Whether exchange `i` of `exchanges` finished successfully with a user
/// query: a known good state.
pub open spec fn is_good_state(exchanges: Seq<ExchangeSummary>, i: int) -> bool {
    0 <= i < exchanges.len() && exchanges[i].has_user_query && exchanges[i].outcome == ExchangeOutcome::Success
}

/// Whether a user query was sent after exchange `i`.
pub open spec fn has_later_query(exchanges: Seq<ExchangeSummary>, i: int) -> bool {
    exists|j: int| i < j < exchanges.len() && (#[trigger] exchanges[j]).has_user_query
}

proof fn lemma_fork_target(exchanges: Seq<ExchangeSummary>, passed: bool)
    ensures
        match fork_target(exchanges, passed) {
            Some(id) => exists|i: int|
                #[trigger] is_good_state(exchanges, i) && exchanges[i].id == id && (passed || has_later_query(
                    exchanges,
                    i,
                )) && forall|k: int|
                    i < k < exchanges.len() && #[trigger] is_good_state(exchanges, k) ==> !passed
                        && !has_later_query(exchanges, k),
            None => forall|k: int|
                #[trigger] is_good_state(exchanges, k) ==> !passed && !has_later_query(exchanges, k),
        },
    decreases exchanges.len(),
{
    if exchanges.len() == 0 {
        return;
    }
    let n = exchanges.len() - 1;
    let rest = exchanges.drop_last();
    let e = exchanges.last();
    assert forall|k: int| 0 <= k < n implies rest[k] == exchanges[k] by {}
    assert forall|k: int| #[trigger] is_good_state(rest, k) <==> (k < n && is_good_state(exchanges, k)) by {}
    let next = if !e.has_user_query {
        passed
    } else {
        true
    };
    if e.has_user_query && passed && e.outcome == ExchangeOutcome::Success {
        assert(is_good_state(exchanges, n));
        return;
    }
    lemma_fork_target(rest, next);
    // A later query in `exchanges` after k < n is one in `rest`, or the last exchange.
    assert forall|k: int|
        0 <= k < n implies (has_later_query(exchanges, k) <==> (has_later_query(rest, k) || e.has_user_query)) by {
        if has_later_query(exchanges, k) {
            let j = choose|j: int| k < j < exchanges.len() && (#[trigger] exchanges[j]).has_user_query;
            if j < n {
                assert(rest[j].has_user_query);
            }
        }
        if has_later_query(rest, k) {
            let j = choose|j: int| k < j < rest.len() && (#[trigger] rest[j]).has_user_query;
            assert(exchanges[j].has_user_query);
        }
        if e.has_user_query {
            assert(exchanges[n].has_user_query);
        }
    }
    assert(!has_later_query(exchanges, n as int));
    match fork_target(rest, next) {
        Some(id) => {
            let i = choose|i: int|
                #[trigger] is_good_state(rest, i) && rest[i].id == id && (next || has_later_query(rest, i))
                    && forall|k: int|
                    i < k < rest.len() && #[trigger] is_good_state(rest, k) ==> !next && !has_later_query(rest, k);
            assert(is_good_state(exchanges, i) && exchanges[i].id == id);
            assert forall|k: int|
                i < k < exchanges.len() && #[trigger] is_good_state(exchanges, k) implies !passed && !has_later_query(
                    exchanges,
                    k,
                ) by {
                if k < n {
                    assert(is_good_state(rest, k));
                }
            }
        },
        None => {
            assert forall|k: int| #[trigger] is_good_state(exchanges, k) implies !passed && !has_later_query(
                exchanges,
                k,
            ) by {
                if k < n {
                    assert(is_good_state(rest, k));
                }
            }
        },
    }
}

/// Forking from the last known good state is offered exactly outside the
/// transcript viewer when the latest exchange failed with an error other than
/// provider overload that will not be resumed; a successful, cancelled,
/// streaming or overloaded latest exchange offers nothing.
pub proof fn law_fork_offered_only_after_unresumed_failure(
    exchanges: Seq<ExchangeSummary>,
    is_transcript_viewer: bool,
)
    ensures
        offers_fork(exchanges, is_transcript_viewer) <==> (!is_transcript_viewer && exchanges.len() > 0
            && exchanges.last().outcome == ExchangeOutcome::Error(
            RenderableAIError::Other { will_attempt_resume: false },
        )),
{
}

/// The exchange forked from is the newest known good state that a later user
/// query followed (the failed latest query is never forked from); there is
/// none exactly when every known good state is the latest query itself.
pub proof fn law_fork_targets_the_newest_good_state_before_the_failure(exchanges: Seq<ExchangeSummary>)
    ensures
        match fork_target(exchanges, false) {
            Some(id) => exists|i: int|
                #[trigger] is_good_state(exchanges, i) && exchanges[i].id == id && has_later_query(exchanges, i)
                    && forall|k: int|
                    i < k < exchanges.len() && #[trigger] is_good_state(exchanges, k) ==> !has_later_query(exchanges, k),
            None => forall|k: int| #[trigger] is_good_state(exchanges, k) ==> !has_later_query(exchanges, k),
        },
{
    lemma_fork_target(exchanges, false);
}

/// Whether forking from the last known good state is offered (see
/// `offers_fork`) for the root-task `exchanges`, oldest first.
pub fn should_fork_from_last_known_good_state(exchanges: &Vec<ExchangeSummary>, is_transcript_viewer: bool) -> (offered: bool)
    ensures
        offered == offers_fork(exchanges@, is_transcript_viewer),
{
    if is_transcript_viewer {
        return false;
    }
    if exchanges.len() == 0 {
        return false;
    }
    match exchanges[exchanges.len() - 1].outcome {
        ExchangeOutcome::Error(RenderableAIError::ProviderOverloaded) => false,
        ExchangeOutcome::Error(RenderableAIError::Other { will_attempt_resume }) => !will_attempt_resume,
        _ => false,
    }
}

/// The exchange to fork from when the latest request failed: the nearest
/// successful exchange with a user query before the latest one.
pub fn fork_from_last_known_good_state_exchange_id(exchanges: &Vec<ExchangeSummary>, is_transcript_viewer: bool) -> (target: Option<u128>)
    ensures
        target == if offers_fork(exchanges@, is_transcript_viewer) {
            fork_target(exchanges@, false)
        } else {
            None
        },
{
    if !should_fork_from_last_known_good_state(exchanges, is_transcript_viewer) {
        return None;
    }
    let mut i: usize = exchanges.len();
    let mut passed_latest = false;
    assert(exchanges@.subrange(0, i as int) =~= exchanges@);
    while i > 0
        invariant
            i <= exchanges@.len(),
            offers_fork(exchanges@, is_transcript_viewer),
            fork_target(exchanges@, false) == fork_target(exchanges@.subrange(0, i as int), passed_latest),
        decreases i,
    {
        let e = exchanges[i - 1];
        let ghost prefix = exchanges@.subrange(0, i as int);
        assert(prefix.drop_last() =~= exchanges@.subrange(0, i - 1));
        assert(prefix.last() == e);
        if e.has_user_query {
            if !passed_latest {
                passed_latest = true;
            } else if e.outcome == ExchangeOutcome::Success {
                assert(prefix.last().outcome == ExchangeOutcome::Success);
                assert(fork_target(prefix, true) == Some(e.id));
                return Some(e.id);
            }
        }
        i -= 1;
    }
    None
}

/// What clicking a message item does.
#[derive(Clone, Copy, Debug, PartialEq, Eq, Structural)]
pub enum MessageAction {
    ResumeConversation,
    ToggleAgentViewShortcuts,
    ToggleSlashCommandsMenu,
    ToggleConversationsMenu,
    ToggleCodeReview,
    ToggleAIDocumentPane,
    ForkConversationFromLastKnownGoodState,
}

/// One clickable item of the message bar: a keystroke (in the form
/// `cmd-shift-R`), its description, what it does, and whether it is shown
/// disabled.
#[derive(Debug, PartialEq, Eq)]
pub struct MessageEntry {
    pub keystroke: String,
    pub text: String,
    pub action: MessageAction,
    pub disabled: bool,
}

/// What the zero-state message of the agent view depends on.
#[derive(Debug)]
pub struct ZeroStateInputs {
    pub is_ai_input_enabled: bool,
    pub is_input_type_locked: bool,
    /// The conversation's exchange count when the agent view was entered,
    /// while the agent view is active.
    pub agent_view_entry_length: Option<usize>,
    pub exchange_count: usize,
    pub is_entirely_passive: bool,
    /// Whether the conversation was cancelled or failed.
    pub is_cancelled_or_error: bool,
    pub is_mac: bool,
    pub is_buffer_empty: bool,
    pub show_code_review_button: bool,
    /// The user's binding for the conversations menu, if any.
    pub conversations_keystroke: Option<String>,
    pub plan_count: usize,
    pub is_plan_open: bool,
    /// Whether a fork from the last known good state is possible (see
    /// `fork_from_last_known_good_state_exchange_id`).
    pub can_fork: bool,
}

/// An entry as plain values: keystroke, text, action, disabled.
pub type EntryView = (Seq<char>, Seq<char>, MessageAction, bool);

/// The views of message entries.
pub open spec fn entry_views(entries: Seq<MessageEntry>) -> Seq<EntryView> {
    entries.map_values(|e: MessageEntry| (e.keystroke@, e.text@, e.action, e.disabled))
}

/// The resume item, after a cancelled or failed conversation that was not
/// entirely passive.
pub open spec fn resume_items(i: ZeroStateInputs) -> Seq<EntryView> {
    if !i.is_entirely_passive && i.is_cancelled_or_error {
        seq![
            (if i.is_mac {
                "cmd-shift-R"@
            } else {
                "ctrl-alt-r"@
            }, "to resume conversation"@, MessageAction::ResumeConversation, false),
        ]
    } else {
        Seq::empty()
    }
}

/// The help and command items, disabled while the input holds text.
pub open spec fn input_items(i: ZeroStateInputs) -> Seq<EntryView> {
    seq![
        ("?"@, "for help"@, MessageAction::ToggleAgentViewShortcuts, !i.is_buffer_empty),
        ("/"@, "for commands"@, MessageAction::ToggleSlashCommandsMenu, !i.is_buffer_empty),
    ]
}

/// The conversation menu item, until the conversation changes in the agent
/// view, when the menu has a binding.
pub open spec fn menu_items(i: ZeroStateInputs) -> Seq<EntryView> {
    if i.agent_view_entry_length == Some(i.exchange_count) && i.conversations_keystroke is Some {
        seq![(i.conversations_keystroke->0@, "open conversation"@, MessageAction::ToggleConversationsMenu, false)]
    } else {
        Seq::empty()
    }
}

/// The code review item, when its button is shown.
pub open spec fn review_items(i: ZeroStateInputs) -> Seq<EntryView> {
    if i.show_code_review_button {
        seq![
            (if i.is_mac {
                "cmd-shift-+"@
            } else {
                "ctrl-shift-+"@
            }, "for code review"@, MessageAction::ToggleCodeReview, false),
        ]
    } else {
        Seq::empty()
    }
}

/// The plan item, when the conversation has plans.
pub open spec fn plan_items(i: ZeroStateInputs) -> Seq<EntryView> {
    if i.plan_count > 0 {
        seq![
            ("cmdorctrl-alt-p"@, if i.is_plan_open {
                "to hide plan"@
            } else if i.plan_count > 1 {
                "to view plans"@
            } else {
                "to view plan"@
            }, MessageAction::ToggleAIDocumentPane, false),
        ]
    } else {
        Seq::empty()
    }
}

/// The fork item, when a fork from the last known good state is possible.
pub open spec fn fork_items(i: ZeroStateInputs) -> Seq<EntryView> {
    if i.can_fork {
        seq![
            (if i.is_mac {
                "cmd-alt-y"@
            } else {
                "ctrl-alt-y"@
            }, "to fork and continue"@, MessageAction::ForkConversationFromLastKnownGoodState, false),
        ]
    } else {
        Seq::empty()
    }
}

/// The items of the zero-state message, or none when the shell input is
/// locked or the agent view is not active.
pub open spec fn zero_state_items(i: ZeroStateInputs) -> Option<Seq<EntryView>> {
    if !i.is_ai_input_enabled && i.is_input_type_locked {
        None
    } else if i.agent_view_entry_length is None {
        None
    } else {
        Some(resume_items(i) + input_items(i) + menu_items(i) + review_items(i) + plan_items(i) + fork_items(i))
    }
}

/// Appends an entry.
fn push_entry(entries: &mut Vec<MessageEntry>, keystroke: &str, text: &str, action: MessageAction, disabled: bool)
    ensures
        entry_views(final(entries)@) == entry_views(old(entries)@).push((keystroke@, text@, action, disabled)),
{
    let ghost before = entries@;
    entries.push(MessageEntry { keystroke: keystroke.to_string(), text: text.to_string(), action, disabled });
    assert(entry_views(entries@) =~= entry_views(before).push((keystroke@, text@, action, disabled)));
}

/// Appends the resume item, if any.
fn push_resume_items(items: &mut Vec<MessageEntry>, inputs: &ZeroStateInputs)
    ensures
        entry_views(final(items)@) == entry_views(old(items)@) + resume_items(*inputs),
{
    let ghost before = entry_views(items@);
    if !inputs.is_entirely_passive && inputs.is_cancelled_or_error {
        let keystroke = if inputs.is_mac {
            "cmd-shift-R"
        } else {
            "ctrl-alt-r"
        };
        push_entry(items, keystroke, "to resume conversation", MessageAction::ResumeConversation, false);
    }
    assert(entry_views(items@) =~= before + resume_items(*inputs));
}

/// Appends the help and command items.
fn push_input_items(items: &mut Vec<MessageEntry>, inputs: &ZeroStateInputs)
    ensures
        entry_views(final(items)@) == entry_views(old(items)@) + input_items(*inputs),
{
    let ghost before = entry_views(items@);
    let disabled = !inputs.is_buffer_empty;
    push_entry(items, "?", "for help", MessageAction::ToggleAgentViewShortcuts, disabled);
    push_entry(items, "/", "for commands", MessageAction::ToggleSlashCommandsMenu, disabled);
    assert(entry_views(items@) =~= before + input_items(*inputs));
}

/// Appends the conversation menu item, if any.
fn push_menu_items(items: &mut Vec<MessageEntry>, inputs: &ZeroStateInputs, entry_length: usize)
    requires
        inputs.agent_view_entry_length == Some(entry_length),
    ensures
        entry_views(final(items)@) == entry_views(old(items)@) + menu_items(*inputs),
{
    let ghost before = entry_views(items@);
    let visibility = agent_message_bar_shortcut_visibility(
        entry_length != inputs.exchange_count,
        inputs.show_code_review_button,
    );
    if visibility.show_conversation_menu {
        match &inputs.conversations_keystroke {
            Some(keystroke) => push_entry(
                items,
                keystroke.as_str(),
                "open conversation",
                MessageAction::ToggleConversationsMenu,
                false,
            ),
            None => {},
        }
    }
    assert(entry_views(items@) =~= before + menu_items(*inputs));
}

/// Appends the code review item, if any.
fn push_review_items(items: &mut Vec<MessageEntry>, inputs: &ZeroStateInputs)
    ensures
        entry_views(final(items)@) == entry_views(old(items)@) + review_items(*inputs),
{
    let ghost before = entry_views(items@);
    if inputs.show_code_review_button {
        let keystroke = if inputs.is_mac {
            "cmd-shift-+"
        } else {
            "ctrl-shift-+"
        };
        push_entry(items, keystroke, "for code review", MessageAction::ToggleCodeReview, false);
    }
    assert(entry_views(items@) =~= before + review_items(*inputs));
}

/// Appends the plan item, if any.
fn push_plan_items(items: &mut Vec<MessageEntry>, inputs: &ZeroStateInputs)
    ensures
        entry_views(final(items)@) == entry_views(old(items)@) + plan_items(*inputs),
{
    let ghost before = entry_views(items@);
    if inputs.plan_count > 0 {
        let text = if inputs.is_plan_open {
            "to hide plan"
        } else if inputs.plan_count > 1 {
            "to view plans"
        } else {
            "to view plan"
        };
        push_entry(items, "cmdorctrl-alt-p", text, MessageAction::ToggleAIDocumentPane, false);
    }
    assert(entry_views(items@) =~= before + plan_items(*inputs));
}

/// Appends the fork item, if any.
fn push_fork_items(items: &mut Vec<MessageEntry>, inputs: &ZeroStateInputs)
    ensures
        entry_views(final(items)@) == entry_views(old(items)@) + fork_items(*inputs),
{
    let ghost before = entry_views(items@);
    if inputs.can_fork {
        let keystroke = if inputs.is_mac {
            "cmd-alt-y"
        } else {
            "ctrl-alt-y"
        };
        push_entry(
            items,
            keystroke,
            "to fork and continue",
            MessageAction::ForkConversationFromLastKnownGoodState,
            false,
        );
    }
    assert(entry_views(items@) =~= before + fork_items(*inputs));
}

/// The zero-state message of the agent view: resume (after a cancelled or
/// failed conversation), help, commands, the conversation menu (until the
/// conversation changes), code review, the plan, and fork, as they apply.
pub fn zero_state_message(inputs: &ZeroStateInputs) -> (items: Option<Vec<MessageEntry>>)
    ensures
        match zero_state_items(*inputs) {
            Some(expected) => items matches Some(v) && entry_views(v@) == expected,
            None => items is None,
        },
{
    if !inputs.is_ai_input_enabled && inputs.is_input_type_locked {
        return None;
    }
    let entry_length = match inputs.agent_view_entry_length {
        Some(length) => length,
        None => {
            return None;
        },
    };
    let mut items: Vec<MessageEntry> = Vec::new();
    assert(entry_views(items@) =~= Seq::<EntryView>::empty());
    push_resume_items(&mut items, inputs);
    push_input_items(&mut items, inputs);
    push_menu_items(&mut items, inputs, entry_length);
    push_review_items(&mut items, inputs);
    push_plan_items(&mut items, inputs);
    push_fork_items(&mut items, inputs);
    assert(entry_views(items@) =~= resume_items(*inputs) + input_items(*inputs) + menu_items(*inputs)
        + review_items(*inputs) + plan_items(*inputs) + fork_items(*inputs));
    Some(items)
}

/// Actions of the plan and to-do list view.
#[derive(Clone, Copy, Debug, PartialEq, Eq, Structural)]
pub enum PlanAndTodoListAction {
    ToggleTodoPopup,
}

/// Events of the AI status bar.
#[derive(Clone, Copy, Debug, PartialEq, Eq, Structural)]
pub enum BlocklistAIStatusBarEvent {
    SummarizationCancelDialogToggled { is_open: bool },
}

/// Actions of the AI status bar.
#[derive(Clone, Copy, Debug, PartialEq, Eq, Structural)]
pub enum BlocklistAIStatusBarAction {
    Stop,
}

} // verus!
