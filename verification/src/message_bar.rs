//! The message bar under the agent input: which of its producers speaks,
//! in their order of priority, and what the producers of this crate say.

use vstd::prelude::*;

use crate::agent_view::{zero_state_items, Keystroke, MessageAction, ZeroStateInputs};

verus! {

/// The slash command detected in the input, as far as the message bar
/// tells them apart.
#[derive(Clone, Copy, Debug, PartialEq, Eq, Structural)]
pub enum DetectedSlashCommand {
    /// `fork`: forks into a new pane by default.
    Fork,
    /// `fork-from`: forks into the current pane by default.
    ForkFrom,
    Other,
}

/// Which producer gives the message, from the highest priority down.
#[derive(Clone, Copy, Debug, PartialEq, Eq, Structural)]
pub enum AgentMessageSource {
    Ephemeral,
    Bootstrapping,
    ForkSlashCommand,
    AttachedBlocks,
    AttachedTextSelection,
    AutodetectedBashMode,
    ExitBashMode,
    HideShortcuts,
    ZeroState,
    Empty,
}

/// What the choice of producer depends on.
pub struct AgentMessageState {
    pub has_ephemeral_message: bool,
    pub is_bootstrapped: bool,
    pub detected_slash_command: Option<DetectedSlashCommand>,
    pub has_attached_blocks_message: bool,
    pub has_attached_text_selection_message: bool,
    pub is_shortcut_view_open: bool,
    /// The input's state (AI input, locked type, empty buffer) is read from here.
    pub zero_state: ZeroStateInputs,
}

/// Whether the input holds a shell command that was told apart from a
/// prompt on its own: AI input off, the type not locked, text in the
/// buffer, and no slash command.
pub open spec fn autodetected_shell_command(s: AgentMessageState) -> bool {
    !(s.zero_state.is_ai_input_enabled || s.zero_state.is_input_type_locked || s.zero_state.is_buffer_empty
        || s.detected_slash_command is Some)
}

/// Which producer gives the message.
pub open spec fn message_source(s: AgentMessageState) -> AgentMessageSource {
    if s.has_ephemeral_message {
        AgentMessageSource::Ephemeral
    } else if !s.is_bootstrapped {
        AgentMessageSource::Bootstrapping
    } else if s.detected_slash_command == Some(DetectedSlashCommand::Fork) || s.detected_slash_command == Some(
        DetectedSlashCommand::ForkFrom,
    ) {
        AgentMessageSource::ForkSlashCommand
    } else if s.has_attached_blocks_message {
        AgentMessageSource::AttachedBlocks
    } else if s.has_attached_text_selection_message {
        AgentMessageSource::AttachedTextSelection
    } else if autodetected_shell_command(s) {
        AgentMessageSource::AutodetectedBashMode
    } else if !s.zero_state.is_ai_input_enabled && s.zero_state.is_input_type_locked {
        AgentMessageSource::ExitBashMode
    } else if s.is_shortcut_view_open {
        AgentMessageSource::HideShortcuts
    } else if zero_state_items(s.zero_state) is Some {
        AgentMessageSource::ZeroState
    } else {
        AgentMessageSource::Empty
    }
}

/// Which producer gives the message: the first, in order of priority, that
/// has one (see `message_source`).
pub fn agent_message_source(state: &AgentMessageState) -> (source: AgentMessageSource)
    ensures
        source == message_source(*state),
{
    let z = &state.zero_state;
    if state.has_ephemeral_message {
        return AgentMessageSource::Ephemeral;
    }
    if !state.is_bootstrapped {
        return AgentMessageSource::Bootstrapping;
    }
    match state.detected_slash_command {
        Some(DetectedSlashCommand::Fork) | Some(DetectedSlashCommand::ForkFrom) => {
            return AgentMessageSource::ForkSlashCommand;
        },
        _ => {},
    }
    if state.has_attached_blocks_message {
        return AgentMessageSource::AttachedBlocks;
    }
    if state.has_attached_text_selection_message {
        return AgentMessageSource::AttachedTextSelection;
    }
    if !(z.is_ai_input_enabled || z.is_input_type_locked || z.is_buffer_empty
        || state.detected_slash_command.is_some()) {
        return AgentMessageSource::AutodetectedBashMode;
    }
    if !z.is_ai_input_enabled && z.is_input_type_locked {
        return AgentMessageSource::ExitBashMode;
    }
    if state.is_shortcut_view_open {
        return AgentMessageSource::HideShortcuts;
    }
    let zero_state_applies = !(!z.is_ai_input_enabled && z.is_input_type_locked)
        && z.agent_view_entry_length.is_some();
    if zero_state_applies {
        AgentMessageSource::ZeroState
    } else {
        AgentMessageSource::Empty
    }
}

/// The color of a message's text.
#[derive(Clone, Copy, Debug, PartialEq, Eq, Structural)]
pub enum MessageColor {
    Default,
    Blue,
    /// Blue at reduced opacity.
    FadedBlue,
}

/// A part of a message.
#[derive(Debug, PartialEq, Eq)]
pub enum MessageItem {
    Text(String),
    /// A keystroke, drawn muted when `muted`.
    Keystroke { keystroke: Keystroke, muted: bool },
}

/// A message of the bar: its parts, their color, and what a click on it
/// does, if anything.
#[derive(Debug, PartialEq, Eq)]
pub struct AgentMessage {
    pub items: Vec<MessageItem>,
    pub color: MessageColor,
    pub on_click: Option<MessageAction>,
}

/// Whether `item` is the text `text`.
pub open spec fn is_text(item: MessageItem, text: Seq<char>) -> bool {
    item matches MessageItem::Text(t) && t@ == text
}

/// Whether `item` is the keystroke `key` (with cmd when `cmd`, no other
/// modifier), muted when `muted`.
pub open spec fn is_key(item: MessageItem, key: Seq<char>, cmd: bool, muted: bool) -> bool {
    item matches MessageItem::Keystroke { keystroke, muted: m } && keystroke.key@ == key && keystroke.cmd == cmd
        && !keystroke.ctrl && !keystroke.alt && !keystroke.shift && m == muted
}

/// "Starting shell...", while the shell bootstraps.
pub fn bootstrapping_message() -> (message: AgentMessage)
    ensures
        message.items@.len() == 1,
        is_text(message.items@[0], "Starting shell..."@),
        message.color == MessageColor::Default,
        message.on_click is None,
{
    AgentMessage {
        items: vec![MessageItem::Text("Starting shell...".to_string())],
        color: MessageColor::Default,
        on_click: None,
    }
}

fn key_item(key: &str, cmd: bool, muted: bool) -> (item: MessageItem)
    ensures
        is_key(item, key@, cmd, muted),
{
    let mut keystroke = Keystroke::plain(key);
    keystroke.cmd = cmd;
    MessageItem::Keystroke { keystroke, muted }
}

fn text_item(text: &str) -> (item: MessageItem)
    ensures
        is_text(item, text@),
{
    MessageItem::Text(text.to_string())
}

/// Where the fork commands lead: enter for the default, cmd-enter for the
/// other; `fork` goes to a new pane or a new tab, `fork-from` to the
/// current pane or a new pane.
pub fn fork_slash_command_message(command: DetectedSlashCommand) -> (message: Option<AgentMessage>)
    ensures
        command == DetectedSlashCommand::Other ==> message is None,
        command != DetectedSlashCommand::Other ==> (message matches Some(m) && m.items@.len() == 4 && is_key(
            m.items@[0],
            "enter"@,
            false,
            false,
        ) && is_text(
            m.items@[1],
            if command == DetectedSlashCommand::Fork {
                " new pane"@
            } else {
                " current pane"@
            },
        ) && is_key(m.items@[2], "enter"@, true, false) && is_text(
            m.items@[3],
            if command == DetectedSlashCommand::Fork {
                " new tab"@
            } else {
                " new pane"@
            },
        ) && m.color == MessageColor::Default && m.on_click is None),
{
    let (primary, secondary) = match command {
        DetectedSlashCommand::Other => return None,
        DetectedSlashCommand::Fork => (" new pane", " new tab"),
        DetectedSlashCommand::ForkFrom => (" current pane", " new pane"),
    };
    Some(
        AgentMessage {
            items: vec![key_item("enter", false, false), text_item(primary), key_item("enter", true, false), text_item(secondary)],
            color: MessageColor::Default,
            on_click: None,
        },
    )
}

/// "? to hide help", which closes the shortcut view when clicked.
pub fn hide_shortcuts_message() -> (message: AgentMessage)
    ensures
        message.items@.len() == 2,
        is_key(message.items@[0], "?"@, false, false),
        is_text(message.items@[1], "to hide help"@),
        message.color == MessageColor::Default,
        message.on_click == Some(MessageAction::ToggleAgentViewShortcuts),
{
    AgentMessage {
        items: vec![key_item("?", false, false), text_item("to hide help")],
        color: MessageColor::Default,
        on_click: Some(MessageAction::ToggleAgentViewShortcuts),
    }
}

/// That the input was taken for a shell command, in blue, with the
/// keystroke that switches to the agent when it has a binding.
pub fn autodetected_bash_mode_message(override_keystroke: Option<Keystroke>) -> (message: AgentMessage)
    ensures
        match override_keystroke {
            Some(k) => message.items@.len() == 3 && is_text(message.items@[0], "autodetected shell command, "@)
                && message.items@[1] == (MessageItem::Keystroke { keystroke: k, muted: false }) && is_text(
                message.items@[2],
                " to override"@,
            ) && message.color == MessageColor::Blue,
            None => message.items@.len() == 1 && is_text(message.items@[0], "autodetected shell command"@)
                && message.color == MessageColor::Default,
        },
        message.on_click is None,
{
    match override_keystroke {
        Some(keystroke) => AgentMessage {
            items: vec![
                text_item("autodetected shell command, "),
                MessageItem::Keystroke { keystroke, muted: false },
                text_item(" to override"),
            ],
            color: MessageColor::Blue,
            on_click: None,
        },
        None => AgentMessage {
            items: vec![text_item("autodetected shell command")],
            color: MessageColor::Default,
            on_click: None,
        },
    }
}

/// "backspace to exit shell mode": in blue on an empty input; faded, with
/// the keystroke muted, while the input holds text.
pub fn exit_bash_mode_message(is_buffer_empty: bool) -> (message: AgentMessage)
    ensures
        message.items@.len() == 2,
        is_key(message.items@[0], "backspace"@, false, !is_buffer_empty),
        is_text(message.items@[1], "to exit shell mode"@),
        message.color == if is_buffer_empty {
            MessageColor::Blue
        } else {
            MessageColor::FadedBlue
        },
        message.on_click is None,
{
    AgentMessage {
        items: vec![key_item("backspace", false, !is_buffer_empty), text_item("to exit shell mode")],
        color: if is_buffer_empty {
            MessageColor::Blue
        } else {
            MessageColor::FadedBlue
        },
        on_click: None,
    }
}

} // verus!
