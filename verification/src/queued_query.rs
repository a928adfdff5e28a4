//! Prompts and shell commands queued to run after the agent finishes, per
//! conversation, with the row being edited and the auto-queue toggles.
//!
//! Every state change reports what happened by pushing `QueuedQueryEvent`s
//! onto the caller's event list, in the order they happened. A conversation
//! with no entry has an empty queue, no edit in progress and no override.

use std::collections::HashMap;
use vstd::prelude::*;

use crate::history_model::{live_in, owns, BlocklistAIHistoryEvent, RegistryView};

verus! {

broadcast use vstd::std_specs::hash::group_hash_axioms;

/// A version-4, RFC 4122 variant UUID read as a `u128` (big-endian): the
/// version nibble is 4 and the two variant bits are `10`.
pub open spec fn is_v4_uuid(u: u128) -> bool {
    u & 0xF000_C000_0000_0000_0000u128 == 0x4000_8000_0000_0000_0000u128
}

/// `uuid::Uuid::new_v4` read as a `u128` (`Uuid::as_u128`): a fresh random
/// identifier. `new_v4` masks the random bits and sets the version and
/// variant bits, so the result carries them; of the other bits, which are
/// random, nothing is stated.
#[verifier::external_body]
fn random_uuid() -> (u: u128)
    ensures
        is_v4_uuid(u),
{
    uuid::Uuid::new_v4().as_u128()
}

/// A globally unique identifier of one queued row, stable across reorder,
/// edit and delete.
#[derive(Clone, Copy, Debug, PartialEq, Eq, Hash, Structural)]
pub struct QueuedQueryId(pub u128);

impl QueuedQueryId {
    /// A fresh random identifier: a version-4 UUID, never the nil one.
    pub fn new() -> (id: Self)
        ensures
            is_v4_uuid(id.0),
            id.0 != 0,
    {
        let u = random_uuid();
        assert(is_v4_uuid(u) ==> u != 0) by (bit_vector);
        QueuedQueryId(u)
    }
}

/// Where a queued row came from. Ordering and firing do not depend on it.
#[derive(Clone, Copy, Debug, PartialEq, Eq, Structural)]
pub enum QueuedQueryOrigin {
    /// The `/queue <prompt>` slash command.
    QueueSlashCommand,
    /// The auto-queue toggle in the warping indicator.
    AutoQueueToggle,
    /// Auto-queue in effect during an agent-requested long-running command.
    LrcAutoQueue,
    /// The follow-up prompt of `/compact-and <prompt>`.
    CompactAndSlashCommand,
    /// The follow-up prompt of `/fork-and-compact <prompt>`.
    ForkAndCompactSlashCommand,
}

/// An image captured from the input box.
#[derive(Debug, PartialEq, Eq)]
pub struct ImageContext {
    pub data: String,
    pub mime_type: String,
    pub file_name: String,
    pub is_figma: bool,
}

impl Clone for ImageContext {
    fn clone(&self) -> (copy: Self)
        ensures
            copy == *self,
    {
        ImageContext {
            data: self.data.clone(),
            mime_type: self.mime_type.clone(),
            file_name: self.file_name.clone(),
            is_figma: self.is_figma,
        }
    }
}

/// An attachment waiting to be sent with a prompt.
#[derive(Debug, PartialEq, Eq)]
pub enum PendingAttachment {
    Image(ImageContext),
    /// A file, by name and path.
    File { file_name: String, file_path: String },
}

impl Clone for PendingAttachment {
    fn clone(&self) -> (copy: Self)
        ensures
            copy == *self,
    {
        match self {
            PendingAttachment::Image(image) => PendingAttachment::Image(image.clone()),
            PendingAttachment::File { file_name, file_path } => PendingAttachment::File {
                file_name: file_name.clone(),
                file_path: file_path.clone(),
            },
        }
    }
}

impl PendingAttachment {
    /// The attachment's file name.
    pub fn file_name(&self) -> (name: &str)
        ensures
            name@ == match self {
                PendingAttachment::Image(image) => image.file_name@,
                PendingAttachment::File { file_name, .. } => file_name@,
            },
    {
        match self {
            PendingAttachment::Image(image) => image.file_name.as_str(),
            PendingAttachment::File { file_name, .. } => file_name.as_str(),
        }
    }
}

/// A copy of `attachments`.
fn copy_attachments(attachments: &Vec<PendingAttachment>) -> (copy: Vec<PendingAttachment>)
    ensures
        copy@ == attachments@,
{
    let mut copy: Vec<PendingAttachment> = Vec::new();
    let mut i: usize = 0;
    while i < attachments.len()
        invariant
            i <= attachments.len(),
            copy@ == attachments@.subrange(0, i as int),
        decreases attachments.len() - i,
    {
        copy.push(attachments[i].clone());
        assert(copy@ =~= attachments@.subrange(0, i + 1));
        i += 1;
    }
    assert(attachments@.subrange(0, attachments.len() as int) =~= attachments@);
    copy
}

/// Whether a row is an agent prompt (with its attachments) or a shell
/// command, which never carries any.
#[derive(Debug)]
enum QueuedQueryKind {
    Prompt { attachments: Vec<PendingAttachment> },
    Command,
}

/// One queued row: an agent prompt or a shell command.
#[derive(Debug)]
pub struct QueuedQuery {
    id: QueuedQueryId,
    text: String,
    origin: QueuedQueryOrigin,
    kind: QueuedQueryKind,
}

/// The kind of a row, as a value.
pub enum QueryKindView {
    Prompt(Seq<PendingAttachment>),
    Command,
}

/// What a `QueuedQuery` holds.
pub struct QueuedQueryView {
    pub id: QueuedQueryId,
    pub text: Seq<char>,
    pub origin: QueuedQueryOrigin,
    pub kind: QueryKindView,
}

impl QueuedQueryView {
    /// Whether the row is a shell command.
    pub open spec fn is_command(self) -> bool {
        self.kind is Command
    }

    /// The row's attachments: none for a command.
    pub open spec fn attachments(self) -> Seq<PendingAttachment> {
        match self.kind {
            QueryKindView::Prompt(a) => a,
            QueryKindView::Command => Seq::empty(),
        }
    }
}

impl View for QueuedQuery {
    type V = QueuedQueryView;

    closed spec fn view(&self) -> QueuedQueryView {
        QueuedQueryView {
            id: self.id,
            text: self.text@,
            origin: self.origin,
            kind: match self.kind {
                QueuedQueryKind::Prompt { attachments } => QueryKindView::Prompt(attachments@),
                QueuedQueryKind::Command => QueryKindView::Command,
            },
        }
    }
}

impl Clone for QueuedQuery {
    fn clone(&self) -> (copy: Self)
        ensures
            copy@ == self@,
    {
        let kind = match &self.kind {
            QueuedQueryKind::Prompt { attachments } => QueuedQueryKind::Prompt {
                attachments: copy_attachments(attachments),
            },
            QueuedQueryKind::Command => QueuedQueryKind::Command,
        };
        QueuedQuery { id: self.id, text: self.text.clone(), origin: self.origin, kind }
    }
}

impl QueuedQuery {
    /// A prompt without attachments, under a fresh id.
    pub fn new(text: String, origin: QueuedQueryOrigin) -> (query: Self)
        ensures
            query@.text == text@,
            query@.origin == origin,
            query@.kind == QueryKindView::Prompt(Seq::empty()),
            is_v4_uuid(query@.id.0),
    {
        Self::new_with_attachments(text, origin, Vec::new())
    }

    /// A prompt with `attachments`, under a fresh id.
    pub fn new_with_attachments(
        text: String,
        origin: QueuedQueryOrigin,
        attachments: Vec<PendingAttachment>,
    ) -> (query: Self)
        ensures
            query@.text == text@,
            query@.origin == origin,
            query@.kind == QueryKindView::Prompt(attachments@),
            is_v4_uuid(query@.id.0),
    {
        QueuedQuery {
            id: QueuedQueryId::new(),
            text,
            origin,
            kind: QueuedQueryKind::Prompt { attachments },
        }
    }

    /// A shell command, under a fresh id. Commands never carry attachments.
    pub fn new_command(text: String, origin: QueuedQueryOrigin) -> (query: Self)
        ensures
            query@.text == text@,
            query@.origin == origin,
            query@.kind == QueryKindView::Command,
            is_v4_uuid(query@.id.0),
    {
        QueuedQuery { id: QueuedQueryId::new(), text, origin, kind: QueuedQueryKind::Command }
    }

    pub fn id(&self) -> (id: QueuedQueryId)
        ensures
            id == self@.id,
    {
        self.id
    }

    pub fn text(&self) -> (text: &str)
        ensures
            text@ == self@.text,
    {
        self.text.as_str()
    }

    pub fn origin(&self) -> (origin: QueuedQueryOrigin)
        ensures
            origin == self@.origin,
    {
        self.origin
    }

    /// Whether this row is a shell command rather than an agent prompt.
    pub fn is_command(&self) -> (command: bool)
        ensures
            command == self@.is_command(),
    {
        match self.kind {
            QueuedQueryKind::Command => true,
            QueuedQueryKind::Prompt { .. } => false,
        }
    }

    /// The attachments captured with the row (none for a command).
    pub fn attachments(&self) -> (attachments: &[PendingAttachment])
        ensures
            attachments@ == self@.attachments(),
    {
        match &self.kind {
            QueuedQueryKind::Prompt { attachments } => attachments.as_slice(),
            QueuedQueryKind::Command => &[],
        }
    }
}

/// What the auto-fire drain should do with the head row, which stays queued
/// until the caller removes it with `remove_fired_row`.
#[derive(Debug)]
pub enum AutofireAction {
    /// Submit this prompt as a queued user query.
    Submit { query_id: QueuedQueryId, text: String },
    /// The head row is being edited: restore its committed text and
    /// attachments to the input, in the row's own kind.
    PopFromEditMode {
        query_id: QueuedQueryId,
        text: String,
        attachments: Vec<PendingAttachment>,
        is_command: bool,
    },
    /// Run this row as a shell command.
    ExecuteCommand { query_id: QueuedQueryId, command: String },
}

/// The default way a prompt typed while the agent works is submitted.
#[derive(Clone, Copy, Debug, PartialEq, Eq, Structural)]
pub enum PromptSubmissionMode {
    Interrupt,
    Queue,
}

/// How a prompt typed during an agent-requested long-running command is
/// submitted.
#[derive(Clone, Copy, Debug, PartialEq, Eq, Structural)]
pub enum LongRunningCommandSubmissionMode {
    Interrupt,
    QueueUntilCommandCompletes,
}

/// What the queue needs to know of the terminal's active block.
#[derive(Clone, Copy, Debug, PartialEq, Eq, Structural)]
pub struct ActiveBlockInfo {
    pub is_agent_in_control: bool,
    pub is_agent_requested_command: bool,
    pub ai_conversation_id: Option<u128>,
}

/// Whether queueing is switched on automatically for `conversation_id`: an
/// agent controls the active block's agent-requested long-running command,
/// and the settings queue prompts for the duration of such commands.
pub open spec fn lrc_auto_queue_active(
    default_mode: PromptSubmissionMode,
    lrc_mode: LongRunningCommandSubmissionMode,
    active_block: ActiveBlockInfo,
    conversation_id: u128,
) -> bool {
    &&& default_mode == PromptSubmissionMode::Interrupt
    &&& lrc_mode == LongRunningCommandSubmissionMode::QueueUntilCommandCompletes
    &&& active_block.is_agent_in_control
    &&& active_block.is_agent_requested_command
    &&& active_block.ai_conversation_id == Some(conversation_id)
}

/// Returns true when queue mode is auto-enabled for `conversation_id` (see
/// `lrc_auto_queue_active`).
pub fn is_lrc_auto_queue_active(
    default_mode: PromptSubmissionMode,
    lrc_mode: LongRunningCommandSubmissionMode,
    active_block: &ActiveBlockInfo,
    conversation_id: u128,
) -> (active: bool)
    ensures
        active == lrc_auto_queue_active(default_mode, lrc_mode, *active_block, conversation_id),
{
    default_mode == PromptSubmissionMode::Interrupt && lrc_mode
        == LongRunningCommandSubmissionMode::QueueUntilCommandCompletes
        && active_block.is_agent_in_control && active_block.is_agent_requested_command
        && active_block.ai_conversation_id == Some(conversation_id)
}

/// Long-running-command auto-queue is on for a conversation only while an
/// agent controls the active block, the block runs a command the agent asked
/// for in that very conversation, prompts interrupt by default and the
/// settings queue them for such commands; each of these failing turns it off
/// whatever the others say, and all of them holding turns it on.
pub proof fn law_lrc_auto_queue_needs_agent_control(
    default_mode: PromptSubmissionMode,
    lrc_mode: LongRunningCommandSubmissionMode,
    active_block: ActiveBlockInfo,
    conversation_id: u128,
)
    ensures
        !active_block.is_agent_in_control ==> !lrc_auto_queue_active(
            default_mode,
            lrc_mode,
            active_block,
            conversation_id,
        ),
        !active_block.is_agent_requested_command ==> !lrc_auto_queue_active(
            default_mode,
            lrc_mode,
            active_block,
            conversation_id,
        ),
        active_block.ai_conversation_id != Some(conversation_id) ==> !lrc_auto_queue_active(
            default_mode,
            lrc_mode,
            active_block,
            conversation_id,
        ),
        default_mode == PromptSubmissionMode::Queue ==> !lrc_auto_queue_active(
            default_mode,
            lrc_mode,
            active_block,
            conversation_id,
        ),
        lrc_mode == LongRunningCommandSubmissionMode::Interrupt ==> !lrc_auto_queue_active(
            default_mode,
            lrc_mode,
            active_block,
            conversation_id,
        ),
        (default_mode == PromptSubmissionMode::Interrupt && lrc_mode
            == LongRunningCommandSubmissionMode::QueueUntilCommandCompletes && active_block.is_agent_in_control
            && active_block.is_agent_requested_command && active_block.ai_conversation_id == Some(
            conversation_id,
        )) ==> lrc_auto_queue_active(default_mode, lrc_mode, active_block, conversation_id),
{
}

/// What the model reports. Each event names the conversation it applies to.
#[derive(Clone, Copy, Debug, PartialEq, Eq, Structural)]
pub enum QueuedQueryEvent {
    Appended { conversation_id: u128, query_id: QueuedQueryId },
    Removed { conversation_id: u128, query_id: QueuedQueryId },
    Reordered { conversation_id: u128 },
    EditEntered { conversation_id: u128, query_id: QueuedQueryId },
    EditCommitted { conversation_id: u128, query_id: QueuedQueryId },
    EditCancelled { conversation_id: u128, query_id: QueuedQueryId },
    Cleared { conversation_id: u128 },
    QueueNextPromptToggled { conversation_id: u128 },
    /// The default submission mode changed, so the effective toggle of every
    /// conversation without an override may have changed.
    DefaultModeChanged,
}

/// Per-conversation queue, edit and toggle state.
struct ConversationQueueState {
    queue: Vec<QueuedQuery>,
    editing: Option<QueuedQueryId>,
    queue_next_prompt_override: Option<bool>,
    command_in_flight: bool,
    queue_next_lrc_prompt_override: Option<bool>,
}

/// What one conversation's state holds.
pub struct ConversationQueueView {
    pub queue: Seq<QueuedQueryView>,
    /// The row in edit mode, if any.
    pub editing: Option<QueuedQueryId>,
    /// The conversation's own toggle, once the user has flipped it.
    pub queue_next_prompt_override: Option<bool>,
    /// Whether a drained shell command from this queue is running.
    pub command_in_flight: bool,
    /// A toggle made during an agent-requested long-running command.
    pub queue_next_lrc_prompt_override: Option<bool>,
}

/// The views of a sequence of rows.
pub open spec fn rows_view(rows: Seq<QueuedQuery>) -> Seq<QueuedQueryView> {
    rows.map_values(|q: QueuedQuery| q@)
}

impl View for ConversationQueueState {
    type V = ConversationQueueView;

    closed spec fn view(&self) -> ConversationQueueView {
        ConversationQueueView {
            queue: rows_view(self.queue@),
            editing: self.editing,
            queue_next_prompt_override: self.queue_next_prompt_override,
            command_in_flight: self.command_in_flight,
            queue_next_lrc_prompt_override: self.queue_next_lrc_prompt_override,
        }
    }
}

impl ConversationQueueState {
    fn new() -> (state: Self)
        ensures
            state@ == empty_queue_state(),
    {
        let state = ConversationQueueState {
            queue: Vec::new(),
            editing: None,
            queue_next_prompt_override: None,
            command_in_flight: false,
            queue_next_lrc_prompt_override: None,
        };
        assert(state@.queue =~= Seq::<QueuedQueryView>::empty());
        state
    }
}

/// The state of a conversation that has none stored.
pub open spec fn empty_queue_state() -> ConversationQueueView {
    ConversationQueueView {
        queue: Seq::empty(),
        editing: None,
        queue_next_prompt_override: None,
        command_in_flight: false,
        queue_next_lrc_prompt_override: None,
    }
}

/// What a `QueuedQueryModel` holds.
pub struct QueuedQueryModelView {
    pub queues: Map<u128, ConversationQueueView>,
    /// The default submission mode from the settings.
    pub default_mode: PromptSubmissionMode,
}

/// The queued rows and toggles of every conversation, by conversation id.
pub struct QueuedQueryModel {
    queues: HashMap<u128, ConversationQueueState>,
    default_mode: PromptSubmissionMode,
}

impl View for QueuedQueryModel {
    type V = QueuedQueryModelView;

    closed spec fn view(&self) -> QueuedQueryModelView {
        QueuedQueryModelView {
            queues: self.queues@.map_values(|s: ConversationQueueState| s@),
            default_mode: self.default_mode,
        }
    }
}

/// The state of `conversation_id` in `m` (the empty state when none is stored).
pub open spec fn state_in(m: QueuedQueryModelView, conversation_id: u128) -> ConversationQueueView {
    if m.queues.contains_key(conversation_id) {
        m.queues[conversation_id]
    } else {
        empty_queue_state()
    }
}

/// `m` with the state of `conversation_id` replaced by `state`.
pub open spec fn with_state(
    m: QueuedQueryModelView,
    conversation_id: u128,
    state: ConversationQueueView,
) -> QueuedQueryModelView {
    QueuedQueryModelView { queues: m.queues.insert(conversation_id, state), ..m }
}

/// Whether `i` is the first position of a row with id `id` in `queue`.
pub open spec fn is_first_position(queue: Seq<QueuedQueryView>, id: QueuedQueryId, i: int) -> bool {
    &&& 0 <= i < queue.len()
    &&& queue[i].id == id
    &&& forall|j: int| 0 <= j < i ==> queue[j].id != id
}

/// Whether some row of `queue` has id `id`.
pub open spec fn has_row(queue: Seq<QueuedQueryView>, id: QueuedQueryId) -> bool {
    exists|i: int| 0 <= i < queue.len() && queue[i].id == id
}

/// The first position of a row with id `id` (meaningful when `has_row`).
pub open spec fn first_position(queue: Seq<QueuedQueryView>, id: QueuedQueryId) -> int {
    choose|i: int| is_first_position(queue, id, i)
}

/// A row that is present has exactly one first position.
pub proof fn lemma_first_position(queue: Seq<QueuedQueryView>, id: QueuedQueryId, i: int)
    requires
        is_first_position(queue, id, i),
    ensures
        first_position(queue, id) == i,
        has_row(queue, id),
{
    let k = first_position(queue, id);
    assert(is_first_position(queue, id, k));
    if k < i {
        assert(queue[k].id != id);
    }
    if i < k {
        assert(queue[i].id != id);
    }
}

/// The effective per-conversation toggle: the conversation's own override,
/// else on exactly when the default mode is `Queue`.
pub open spec fn toggle_enabled(m: QueuedQueryModelView, conversation_id: u128) -> bool {
    match state_in(m, conversation_id).queue_next_prompt_override {
        Some(b) => b,
        None => m.default_mode == PromptSubmissionMode::Queue,
    }
}

/// The effective toggle during an eligible long-running command: on unless
/// toggled off for the command.
pub open spec fn lrc_toggle_enabled(m: QueuedQueryModelView, conversation_id: u128) -> bool {
    match state_in(m, conversation_id).queue_next_lrc_prompt_override {
        Some(b) => b,
        None => true,
    }
}

/// `m` after the per-conversation toggle of `conversation_id` flips.
pub open spec fn toggled(m: QueuedQueryModelView, conversation_id: u128) -> QueuedQueryModelView {
    let s = state_in(m, conversation_id);
    with_state(
        m,
        conversation_id,
        ConversationQueueView {
            queue_next_prompt_override: Some(!toggle_enabled(m, conversation_id)),
            ..s
        },
    )
}

/// `m` after the long-running-command toggle of `conversation_id` flips.
pub open spec fn lrc_toggled(m: QueuedQueryModelView, conversation_id: u128) -> QueuedQueryModelView {
    let s = state_in(m, conversation_id);
    with_state(
        m,
        conversation_id,
        ConversationQueueView {
            queue_next_lrc_prompt_override: Some(!lrc_toggle_enabled(m, conversation_id)),
            ..s
        },
    )
}

/// `m` after `row` joins the tail of `conversation_id`'s queue.
pub open spec fn appended(m: QueuedQueryModelView, conversation_id: u128, row: QueuedQueryView) -> QueuedQueryModelView {
    let s = state_in(m, conversation_id);
    with_state(m, conversation_id, ConversationQueueView { queue: s.queue.push(row), ..s })
}

/// `s` after the row at position `i` leaves, dropping the edit when it was on
/// that row.
pub open spec fn without_row(s: ConversationQueueView, i: int) -> ConversationQueueView {
    ConversationQueueView {
        queue: s.queue.remove(i),
        editing: if s.editing == Some(s.queue[i].id) {
            None
        } else {
            s.editing
        },
        ..s
    }
}

/// `m` after the row `query_id` of `conversation_id` is removed, when there
/// is one.
pub open spec fn removed_row(m: QueuedQueryModelView, conversation_id: u128, query_id: QueuedQueryId) -> QueuedQueryModelView {
    let s = state_in(m, conversation_id);
    if m.queues.contains_key(conversation_id) && has_row(s.queue, query_id) {
        with_state(m, conversation_id, without_row(s, first_position(s.queue, query_id)))
    } else {
        m
    }
}

/// The events of removing the row `query_id` of `conversation_id`.
pub open spec fn removed_row_events(m: QueuedQueryModelView, conversation_id: u128, query_id: QueuedQueryId) -> Seq<QueuedQueryEvent> {
    let s = state_in(m, conversation_id);
    if m.queues.contains_key(conversation_id) && has_row(s.queue, query_id) {
        seq![QueuedQueryEvent::Removed { conversation_id, query_id }]
    } else {
        Seq::empty()
    }
}

/// `queue` with the row at `from` moved to position `to` of the remaining
/// rows, clamped to their number.
pub open spec fn moved(queue: Seq<QueuedQueryView>, from: int, to: int) -> Seq<QueuedQueryView> {
    let rest = queue.remove(from);
    let at = if to < rest.len() {
        to
    } else {
        rest.len() as int
    };
    rest.insert(at, queue[from])
}

/// What the drain does with the head of `s`'s queue.
pub open spec fn autofire_of(s: ConversationQueueView, action: Option<AutofireAction>) -> bool {
    if s.queue.len() == 0 {
        action is None
    } else {
        let head = s.queue[0];
        match action {
            None => false,
            Some(AutofireAction::PopFromEditMode { query_id, text, attachments, is_command }) => {
                &&& s.editing == Some(head.id)
                &&& query_id == head.id
                &&& text@ == head.text
                &&& attachments@ == head.attachments()
                &&& is_command == head.is_command()
            },
            Some(AutofireAction::ExecuteCommand { query_id, command }) => {
                &&& s.editing != Some(head.id)
                &&& head.is_command()
                &&& query_id == head.id
                &&& command@ == head.text
            },
            Some(AutofireAction::Submit { query_id, text }) => {
                &&& s.editing != Some(head.id)
                &&& !head.is_command()
                &&& query_id == head.id
                &&& text@ == head.text
            },
        }
    }
}

impl QueuedQueryModel {
    /// An empty model whose default submission mode is `default_mode`.
    pub fn new(default_mode: PromptSubmissionMode) -> (model: Self)
        ensures
            model@.queues == Map::<u128, ConversationQueueView>::empty(),
            model@.default_mode == default_mode,
    {
        let model = QueuedQueryModel { queues: HashMap::new(), default_mode };
        assert(model@.queues =~= Map::<u128, ConversationQueueView>::empty());
        model
    }

    /// Takes the state of `conversation_id` out of the map (the empty state
    /// when none is stored).
    fn take_state(&mut self, conversation_id: u128) -> (state: ConversationQueueState)
        ensures
            state@ == state_in(old(self)@, conversation_id),
            final(self)@ == (QueuedQueryModelView {
                queues: old(self)@.queues.remove(conversation_id),
                ..old(self)@
            }),
    {
        let ghost before = self.queues@;
        let taken = self.queues.remove(&conversation_id);
        assert(self@.queues =~= old(self)@.queues.remove(conversation_id));
        match taken {
            Some(state) => state,
            None => ConversationQueueState::new(),
        }
    }

    /// Stores `state` as the state of `conversation_id`.
    fn put_state(&mut self, conversation_id: u128, state: ConversationQueueState)
        ensures
            final(self)@ == with_state(old(self)@, conversation_id, state@),
    {
        let ghost before = self.queues@;
        self.queues.insert(conversation_id, state);
        assert(self@.queues =~= old(self)@.queues.insert(conversation_id, state@));
    }

    /// Changes the default submission mode; every conversation without an
    /// override may now show another toggle state.
    pub fn set_default_mode(&mut self, mode: PromptSubmissionMode, events: &mut Vec<QueuedQueryEvent>)
        ensures
            final(self)@ == (QueuedQueryModelView { default_mode: mode, ..old(self)@ }),
            final(events)@ == old(events)@.push(QueuedQueryEvent::DefaultModeChanged),
    {
        self.default_mode = mode;
        events.push(QueuedQueryEvent::DefaultModeChanged);
    }

    /// The long-running-command submission setting changed: the effective
    /// toggle state may have changed.
    pub fn long_running_command_mode_changed(&self, events: &mut Vec<QueuedQueryEvent>)
        ensures
            final(events)@ == old(events)@.push(QueuedQueryEvent::DefaultModeChanged),
    {
        events.push(QueuedQueryEvent::DefaultModeChanged);
    }

    /// Drops the queue and toggles of `conversation_id`, reporting `Cleared`
    /// when it had any.
    pub fn drop_conversation(&mut self, conversation_id: u128, events: &mut Vec<QueuedQueryEvent>)
        ensures
            final(self)@ == (QueuedQueryModelView {
                queues: old(self)@.queues.remove(conversation_id),
                ..old(self)@
            }),
            final(events)@ == old(events)@ + if old(self)@.queues.contains_key(conversation_id) {
                seq![QueuedQueryEvent::Cleared { conversation_id }]
            } else {
                Seq::empty()
            },
    {
        let ghost before = self.queues@;
        let removed = self.queues.remove(&conversation_id);
        assert(self@.queues =~= old(self)@.queues.remove(conversation_id));
        if removed.is_some() {
            events.push(QueuedQueryEvent::Cleared { conversation_id });
        } else {
            assert(events@ =~= old(events)@ + Seq::empty());
        }
    }

    /// Drops the state of conversations the history removed, deleted or
    /// cleared from their terminal view.
    pub fn handle_history_event(&mut self, event: &BlocklistAIHistoryEvent, events: &mut Vec<QueuedQueryEvent>)
        ensures
            match event {
                BlocklistAIHistoryEvent::RemoveConversation { conversation_id, .. }
                | BlocklistAIHistoryEvent::DeletedConversation { conversation_id, .. } => {
                    final(self)@.queues == old(self)@.queues.remove(*conversation_id)
                },
                BlocklistAIHistoryEvent::ClearedConversationsInTerminalView {
                    cleared_conversation_ids, ..
                } => final(self)@.queues == old(self)@.queues.remove_keys(
                    cleared_conversation_ids@.to_set(),
                ),
                _ => final(self)@ == old(self)@ && final(events)@ == old(events)@,
            },
            final(self)@.default_mode == old(self)@.default_mode,
    {
        match event {
            BlocklistAIHistoryEvent::RemoveConversation { conversation_id, .. }
            | BlocklistAIHistoryEvent::DeletedConversation { conversation_id, .. } => {
                self.drop_conversation(*conversation_id, events);
            },
            BlocklistAIHistoryEvent::ClearedConversationsInTerminalView {
                cleared_conversation_ids, ..
            } => {
                let ghost start = self@.queues;
                let mut i: usize = 0;
                while i < cleared_conversation_ids.len()
                    invariant
                        i <= cleared_conversation_ids.len(),
                        self@.default_mode == old(self)@.default_mode,
                        start == old(self)@.queues,
                        self@.queues == start.remove_keys(
                            cleared_conversation_ids@.subrange(0, i as int).to_set(),
                        ),
                    decreases cleared_conversation_ids.len() - i,
                {
                    let id = cleared_conversation_ids[i];
                    self.drop_conversation(id, events);
                    proof {
                        let pre = cleared_conversation_ids@.subrange(0, i as int);
                        assert(cleared_conversation_ids@.subrange(0, i + 1) =~= pre.push(id));
                        pre.lemma_push_to_set_commute(id);
                    }
                    assert(self@.queues =~= start.remove_keys(
                        cleared_conversation_ids@.subrange(0, i + 1).to_set(),
                    ));
                    i += 1;
                }
                assert(cleared_conversation_ids@.subrange(0, i as int) =~= cleared_conversation_ids@);
            },
            _ => {},
        }
    }

    /// The queue of `conversation_id` (empty when it has none).
    pub fn queue(&self, conversation_id: u128) -> (rows: &[QueuedQuery])
        ensures
            rows_view(rows@) == state_in(self@, conversation_id).queue,
    {
        match self.queues.get(&conversation_id) {
            Some(state) => state.queue.as_slice(),
            None => {
                assert(rows_view(Seq::<QueuedQuery>::empty()) =~= Seq::<QueuedQueryView>::empty());
                &[]
            },
        }
    }

    /// Whether `conversation_id` has at least one queued row.
    pub fn has_queue(&self, conversation_id: u128) -> (some: bool)
        ensures
            some == (state_in(self@, conversation_id).queue.len() > 0),
    {
        match self.queues.get(&conversation_id) {
            Some(state) => state.queue.len() > 0,
            None => false,
        }
    }

    /// Whether a row would auto-fire for `conversation_id` the next time the
    /// conversation finishes successfully: the queue has a head.
    pub fn has_autofireable_prompt(&self, conversation_id: u128) -> (some: bool)
        ensures
            some == (state_in(self@, conversation_id).queue.len() > 0),
    {
        match self.queues.get(&conversation_id) {
            Some(state) => state.queue.len() > 0,
            None => false,
        }
    }

    /// Marks that a dispatched queued command runs for `conversation_id`.
    pub fn arm_command_in_flight(&mut self, conversation_id: u128)
        ensures
            final(self)@ == with_state(
                old(self)@,
                conversation_id,
                ConversationQueueView {
                    command_in_flight: true,
                    ..state_in(old(self)@, conversation_id)
                },
            ),
    {
        let mut state = self.take_state(conversation_id);
        state.command_in_flight = true;
        self.put_state(conversation_id, state);
        assert(self@.queues =~= old(self)@.queues.insert(
            conversation_id,
            ConversationQueueView { command_in_flight: true, ..state_in(old(self)@, conversation_id) },
        ));
    }

    /// Clears the in-flight-command marker of `conversation_id`.
    pub fn clear_command_in_flight(&mut self, conversation_id: u128)
        ensures
            final(self)@ == if old(self)@.queues.contains_key(conversation_id) {
                with_state(
                    old(self)@,
                    conversation_id,
                    ConversationQueueView {
                        command_in_flight: false,
                        ..state_in(old(self)@, conversation_id)
                    },
                )
            } else {
                old(self)@
            },
    {
        if self.queues.contains_key(&conversation_id) {
            let mut state = self.take_state(conversation_id);
            state.command_in_flight = false;
            self.put_state(conversation_id, state);
            assert(self@.queues =~= old(self)@.queues.insert(
                conversation_id,
                ConversationQueueView {
                    command_in_flight: false,
                    ..state_in(old(self)@, conversation_id)
                },
            ));
        }
    }

    /// Whether a dispatched queued command runs for `conversation_id`.
    pub fn has_command_in_flight(&self, conversation_id: u128) -> (running: bool)
        ensures
            running == state_in(self@, conversation_id).command_in_flight,
    {
        match self.queues.get(&conversation_id) {
            Some(state) => state.command_in_flight,
            None => false,
        }
    }

    /// The first of `live_conversation_ids` (the conversations of one terminal
    /// view) that has a queued command in flight.
    pub fn command_in_flight_for_terminal_view(&self, live_conversation_ids: &Vec<u128>) -> (found: Option<u128>)
        ensures
            match found {
                Some(c) => exists|i: int|
                    0 <= i < live_conversation_ids@.len() && live_conversation_ids@[i] == c
                        && state_in(self@, c).command_in_flight && forall|j: int|
                        0 <= j < i ==> !state_in(self@, #[trigger] live_conversation_ids@[j]).command_in_flight,
                None => forall|j: int|
                    0 <= j < live_conversation_ids@.len() ==> !state_in(
                        self@,
                        #[trigger] live_conversation_ids@[j],
                    ).command_in_flight,
            },
    {
        let mut i: usize = 0;
        while i < live_conversation_ids.len()
            invariant
                i <= live_conversation_ids.len(),
                forall|j: int|
                    0 <= j < i ==> !state_in(self@, #[trigger] live_conversation_ids@[j]).command_in_flight,
            decreases live_conversation_ids.len() - i,
        {
            let c = live_conversation_ids[i];
            if self.has_command_in_flight(c) {
                return Some(c);
            }
            i += 1;
        }
        None
    }

    /// The row in edit mode for `conversation_id`, if any.
    pub fn editing_row(&self, conversation_id: u128) -> (row: Option<QueuedQueryId>)
        ensures
            row == state_in(self@, conversation_id).editing,
    {
        match self.queues.get(&conversation_id) {
            Some(state) => state.editing,
            None => None,
        }
    }

    /// Whether the head row of `conversation_id`'s queue is being edited.
    pub fn first_row_is_in_edit_mode(&self, conversation_id: u128) -> (editing_head: bool)
        ensures
            editing_head == ({
                let s = state_in(self@, conversation_id);
                s.queue.len() > 0 && s.editing == Some(s.queue[0].id)
            }),
    {
        match self.queues.get(&conversation_id) {
            Some(state) => match state.editing {
                Some(editing_id) => state.queue.len() > 0 && state.queue[0].id == editing_id,
                None => false,
            },
            None => false,
        }
    }

    /// The effective auto-queue state of `conversation_id`: the
    /// long-running-command toggle while the active block's agent-requested
    /// command is eligible (see `lrc_auto_queue_active`), else the
    /// conversation's toggle.
    pub fn is_queue_next_prompt_enabled(
        &self,
        conversation_id: u128,
        active_block: &ActiveBlockInfo,
        lrc_mode: LongRunningCommandSubmissionMode,
    ) -> (enabled: bool)
        ensures
            enabled == if lrc_auto_queue_active(self@.default_mode, lrc_mode, *active_block, conversation_id) {
                lrc_toggle_enabled(self@, conversation_id)
            } else {
                toggle_enabled(self@, conversation_id)
            },
    {
        if is_lrc_auto_queue_active(self.default_mode, lrc_mode, active_block, conversation_id) {
            self.is_queue_next_prompt_enabled_during_lrc(conversation_id)
        } else {
            self.is_queue_next_prompt_toggle_enabled(conversation_id)
        }
    }

    /// The auto-queue state during an eligible long-running command: on unless
    /// toggled off for the command.
    pub fn is_queue_next_prompt_enabled_during_lrc(&self, conversation_id: u128) -> (enabled: bool)
        ensures
            enabled == lrc_toggle_enabled(self@, conversation_id),
    {
        match self.queues.get(&conversation_id) {
            Some(state) => match state.queue_next_lrc_prompt_override {
                Some(b) => b,
                None => true,
            },
            None => true,
        }
    }

    /// The per-conversation auto-queue toggle, ignoring any
    /// long-running-command override.
    pub fn is_queue_next_prompt_toggle_enabled(&self, conversation_id: u128) -> (enabled: bool)
        ensures
            enabled == toggle_enabled(self@, conversation_id),
    {
        let overridden = match self.queues.get(&conversation_id) {
            Some(state) => state.queue_next_prompt_override,
            None => None,
        };
        match overridden {
            Some(b) => b,
            None => self.default_mode == PromptSubmissionMode::Queue,
        }
    }

    /// Flips the per-conversation toggle, writing the inverse of its effective
    /// value (which may come from the default) as the conversation's override.
    pub fn toggle_queue_next_prompt(&mut self, conversation_id: u128, events: &mut Vec<QueuedQueryEvent>)
        ensures
            final(self)@ == toggled(old(self)@, conversation_id),
            final(events)@ == old(events)@.push(
                QueuedQueryEvent::QueueNextPromptToggled { conversation_id },
            ),
    {
        let current = self.is_queue_next_prompt_toggle_enabled(conversation_id);
        let mut state = self.take_state(conversation_id);
        state.queue_next_prompt_override = Some(!current);
        self.put_state(conversation_id, state);
        assert(self@.queues =~= toggled(old(self)@, conversation_id).queues);
        events.push(QueuedQueryEvent::QueueNextPromptToggled { conversation_id });
    }

    /// Flips the auto-queue state for the rest of the eligible long-running
    /// command.
    pub fn toggle_queue_next_prompt_during_lrc(&mut self, conversation_id: u128, events: &mut Vec<QueuedQueryEvent>)
        ensures
            final(self)@ == lrc_toggled(old(self)@, conversation_id),
            final(events)@ == old(events)@.push(
                QueuedQueryEvent::QueueNextPromptToggled { conversation_id },
            ),
    {
        let current = self.is_queue_next_prompt_enabled_during_lrc(conversation_id);
        let mut state = self.take_state(conversation_id);
        state.queue_next_lrc_prompt_override = Some(!current);
        self.put_state(conversation_id, state);
        assert(self@.queues =~= lrc_toggled(old(self)@, conversation_id).queues);
        events.push(QueuedQueryEvent::QueueNextPromptToggled { conversation_id });
    }

    /// Clears the long-running-command override when the command ends, so the
    /// conversation reverts to its own toggle; reports a toggle when there was
    /// an override.
    pub fn clear_queue_next_lrc_prompt_override(&mut self, conversation_id: u128, events: &mut Vec<QueuedQueryEvent>)
        ensures
            ({
                let s = state_in(old(self)@, conversation_id);
                if old(self)@.queues.contains_key(conversation_id) {
                    &&& final(self)@ == with_state(
                        old(self)@,
                        conversation_id,
                        ConversationQueueView { queue_next_lrc_prompt_override: None, ..s },
                    )
                    &&& final(events)@ == old(events)@ + if s.queue_next_lrc_prompt_override is Some {
                        seq![QueuedQueryEvent::QueueNextPromptToggled { conversation_id }]
                    } else {
                        Seq::empty()
                    }
                } else {
                    final(self)@ == old(self)@ && final(events)@ == old(events)@
                }
            }),
    {
        if !self.queues.contains_key(&conversation_id) {
            return;
        }
        let mut state = self.take_state(conversation_id);
        let had = state.queue_next_lrc_prompt_override.is_some();
        state.queue_next_lrc_prompt_override = None;
        self.put_state(conversation_id, state);
        assert(self@.queues =~= old(self)@.queues.insert(
            conversation_id,
            ConversationQueueView {
                queue_next_lrc_prompt_override: None,
                ..state_in(old(self)@, conversation_id)
            },
        ));
        if had {
            events.push(QueuedQueryEvent::QueueNextPromptToggled { conversation_id });
        } else {
            assert(events@ =~= old(events)@ + Seq::empty());
        }
    }

    /// Appends `query` to the tail of `conversation_id`'s queue and returns
    /// its id.
    pub fn append(&mut self, conversation_id: u128, query: QueuedQuery, events: &mut Vec<QueuedQueryEvent>) -> (query_id: QueuedQueryId)
        ensures
            query_id == query@.id,
            final(self)@ == appended(old(self)@, conversation_id, query@),
            final(events)@ == old(events)@.push(
                QueuedQueryEvent::Appended { conversation_id, query_id },
            ),
    {
        let query_id = query.id;
        let ghost row = query@;
        let mut state = self.take_state(conversation_id);
        let ghost before = state.queue@;
        state.queue.push(query);
        assert(rows_view(state.queue@) =~= rows_view(before).push(row));
        self.put_state(conversation_id, state);
        assert(self@.queues =~= appended(old(self)@, conversation_id, row).queues);
        events.push(QueuedQueryEvent::Appended { conversation_id, query_id });
        query_id
    }

    /// Removes and returns the head of `conversation_id`'s queue.
    pub fn pop_front(&mut self, conversation_id: u128, events: &mut Vec<QueuedQueryEvent>) -> (popped: Option<QueuedQuery>)
        ensures
            ({
                let s = state_in(old(self)@, conversation_id);
                if old(self)@.queues.contains_key(conversation_id) && s.queue.len() > 0 {
                    &&& popped matches Some(row) && row@ == s.queue[0]
                    &&& final(self)@ == with_state(old(self)@, conversation_id, without_row(s, 0))
                    &&& final(events)@ == old(events)@.push(
                        QueuedQueryEvent::Removed { conversation_id, query_id: s.queue[0].id },
                    )
                } else {
                    popped is None && final(self)@ == old(self)@ && final(events)@ == old(events)@
                }
            }),
    {
        if !self.queues.contains_key(&conversation_id) || !self.has_queue(conversation_id) {
            return None;
        }
        let mut state = self.take_state(conversation_id);
        let ghost s = state@;
        let ghost rows = state.queue@;
        let popped = state.queue.remove(0);
        assert(rows_view(state.queue@) =~= rows_view(rows).remove(0));
        if state.editing == Some(popped.id) {
            state.editing = None;
        }
        self.put_state(conversation_id, state);
        assert(self@.queues =~= old(self)@.queues.insert(conversation_id, without_row(s, 0)));
        events.push(QueuedQueryEvent::Removed { conversation_id, query_id: popped.id });
        Some(popped)
    }

    /// What the auto-fire drain should do with the head of
    /// `conversation_id`'s queue, which stays queued.
    pub fn peek_autofire(&self, conversation_id: u128) -> (action: Option<AutofireAction>)
        ensures
            autofire_of(state_in(self@, conversation_id), action),
    {
        let state = match self.queues.get(&conversation_id) {
            Some(state) => state,
            None => {
                return None;
            },
        };
        if state.queue.len() == 0 {
            return None;
        }
        let first = &state.queue[0];
        assert(state@.queue[0] == first@);
        let first_in_edit_mode = state.editing == Some(first.id);
        if first_in_edit_mode {
            let attachments = match &first.kind {
                QueuedQueryKind::Prompt { attachments } => copy_attachments(attachments),
                QueuedQueryKind::Command => Vec::new(),
            };
            Some(
                AutofireAction::PopFromEditMode {
                    query_id: first.id,
                    text: first.text.clone(),
                    attachments,
                    is_command: first.is_command(),
                },
            )
        } else if first.is_command() {
            Some(AutofireAction::ExecuteCommand { query_id: first.id, command: first.text.clone() })
        } else {
            Some(AutofireAction::Submit { query_id: first.id, text: first.text.clone() })
        }
    }

    /// The first position of the row `query_id` in `state`, if any.
    fn position_in(state: &ConversationQueueState, query_id: QueuedQueryId) -> (pos: Option<usize>)
        ensures
            match pos {
                Some(i) => is_first_position(state@.queue, query_id, i as int),
                None => !has_row(state@.queue, query_id),
            },
    {
        let mut i: usize = 0;
        while i < state.queue.len()
            invariant
                i <= state.queue.len(),
                forall|j: int| 0 <= j < i ==> state@.queue[j].id != query_id,
            decreases state.queue.len() - i,
        {
            if state.queue[i].id == query_id {
                assert(state@.queue[i as int] == state.queue@[i as int]@);
                return Some(i);
            }
            assert(state@.queue[i as int] == state.queue@[i as int]@);
            i += 1;
        }
        None
    }

    /// Removes the row at position `i` of `state`, dropping the edit when it
    /// was on that row.
    fn remove_at(state: &mut ConversationQueueState, i: usize) -> (row: QueuedQuery)
        requires
            i < old(state)@.queue.len(),
        ensures
            row@ == old(state)@.queue[i as int],
            final(state)@ == without_row(old(state)@, i as int),
    {
        let ghost rows = state.queue@;
        let row = state.queue.remove(i);
        assert(rows_view(state.queue@) =~= rows_view(rows).remove(i as int));
        if state.editing == Some(row.id) {
            state.editing = None;
        }
        row
    }

    /// Removes the row `query_id` of `conversation_id` once it has been fired.
    pub fn remove_fired_row(&mut self, conversation_id: u128, query_id: QueuedQueryId, events: &mut Vec<QueuedQueryEvent>)
        ensures
            final(self)@ == removed_row(old(self)@, conversation_id, query_id),
            final(events)@ == old(events)@ + removed_row_events(old(self)@, conversation_id, query_id),
    {
        let _ = self.remove_by_id(conversation_id, query_id, events);
    }

    /// Removes the row `query_id` of `conversation_id`, if present, and
    /// returns it.
    pub fn remove_by_id(&mut self, conversation_id: u128, query_id: QueuedQueryId, events: &mut Vec<QueuedQueryEvent>) -> (removed: Option<QueuedQuery>)
        ensures
            final(self)@ == removed_row(old(self)@, conversation_id, query_id),
            final(events)@ == old(events)@ + removed_row_events(old(self)@, conversation_id, query_id),
            match removed {
                Some(row) => {
                    let s = state_in(old(self)@, conversation_id);
                    old(self)@.queues.contains_key(conversation_id) && has_row(s.queue, query_id)
                        && row@ == s.queue[first_position(s.queue, query_id)]
                },
                None => !(old(self)@.queues.contains_key(conversation_id) && has_row(
                    state_in(old(self)@, conversation_id).queue,
                    query_id,
                )),
            },
    {
        let pos = match self.queues.get(&conversation_id) {
            Some(state) => Self::position_in(state, query_id),
            None => None,
        };
        let i = match pos {
            Some(i) => i,
            None => {
                assert(events@ =~= old(events)@ + Seq::empty());
                return None;
            },
        };
        let mut state = self.take_state(conversation_id);
        proof { lemma_first_position(state@.queue, query_id, i as int); }
        let ghost s = state@;
        let row = Self::remove_at(&mut state, i);
        self.put_state(conversation_id, state);
        assert(self@.queues =~= old(self)@.queues.insert(conversation_id, without_row(s, i as int)));
        events.push(QueuedQueryEvent::Removed { conversation_id, query_id });
        Some(row)
    }

    /// Puts back a fired row when its submission failed: at `insert_index`
    /// (clamped to the queue's length), unless the row is still queued. The
    /// conversation's state exists afterwards either way.
    pub fn restore_fired_row(&mut self, conversation_id: u128, insert_index: usize, query: QueuedQuery, events: &mut Vec<QueuedQueryEvent>)
        ensures
            ({
                let s = state_in(old(self)@, conversation_id);
                let at = if insert_index < s.queue.len() {
                    insert_index as int
                } else {
                    s.queue.len() as int
                };
                if has_row(s.queue, query@.id) {
                    final(self)@ == with_state(old(self)@, conversation_id, s)
                        && final(events)@ == old(events)@
                } else {
                    &&& final(self)@ == with_state(
                        old(self)@,
                        conversation_id,
                        ConversationQueueView { queue: s.queue.insert(at, query@), ..s },
                    )
                    &&& final(events)@ == old(events)@.push(
                        QueuedQueryEvent::Appended { conversation_id, query_id: query@.id },
                    )
                }
            }),
    {
        let mut state = self.take_state(conversation_id);
        let ghost s = state@;
        let query_id = query.id;
        match Self::position_in(&state, query_id) {
            Some(i) => {
                proof { lemma_first_position(s.queue, query_id, i as int); }
                self.put_state(conversation_id, state);
                assert(self@.queues =~= old(self)@.queues.insert(conversation_id, s));
                return ;
            },
            None => {},
        }
        let at = if insert_index < state.queue.len() {
            insert_index
        } else {
            state.queue.len()
        };
        let ghost rows = state.queue@;
        let ghost row = query@;
        state.queue.insert(at, query);
        assert(rows_view(state.queue@) =~= rows_view(rows).insert(at as int, row));
        self.put_state(conversation_id, state);
        assert(self@.queues =~= old(self)@.queues.insert(
            conversation_id,
            ConversationQueueView { queue: s.queue.insert(at as int, row), ..s },
        ));
        events.push(QueuedQueryEvent::Appended { conversation_id, query_id });
    }

    /// The attachments of the row `query_id` of `conversation_id`, or none
    /// when there is no such row.
    pub fn attachments_for(&self, conversation_id: u128, query_id: QueuedQueryId) -> (attachments: &[PendingAttachment])
        ensures
            ({
                let s = state_in(self@, conversation_id);
                attachments@ == if has_row(s.queue, query_id) {
                    s.queue[first_position(s.queue, query_id)].attachments()
                } else {
                    Seq::empty()
                }
            }),
    {
        let state = match self.queues.get(&conversation_id) {
            Some(state) => state,
            None => {
                return &[];
            },
        };
        match Self::position_in(state, query_id) {
            Some(i) => {
                proof { lemma_first_position(state@.queue, query_id, i as int); }
                assert(state@.queue[i as int] == state.queue@[i as int]@);
                state.queue[i].attachments()
            },
            None => &[],
        }
    }

    /// Moves the row `source_id` of `conversation_id` to `target_index` among
    /// the other rows (clamped to their number).
    pub fn reorder(&mut self, conversation_id: u128, source_id: QueuedQueryId, target_index: usize, events: &mut Vec<QueuedQueryEvent>)
        ensures
            ({
                let s = state_in(old(self)@, conversation_id);
                if old(self)@.queues.contains_key(conversation_id) && has_row(s.queue, source_id) {
                    &&& final(self)@ == with_state(
                        old(self)@,
                        conversation_id,
                        ConversationQueueView {
                            queue: moved(s.queue, first_position(s.queue, source_id), target_index as int),
                            ..s
                        },
                    )
                    &&& final(events)@ == old(events)@.push(
                        QueuedQueryEvent::Reordered { conversation_id },
                    )
                } else {
                    final(self)@ == old(self)@ && final(events)@ == old(events)@
                }
            }),
    {
        let pos = match self.queues.get(&conversation_id) {
            Some(state) => Self::position_in(state, source_id),
            None => None,
        };
        let i = match pos {
            Some(i) => i,
            None => {
                return ;
            },
        };
        let mut state = self.take_state(conversation_id);
        proof { lemma_first_position(state@.queue, source_id, i as int); }
        let ghost s = state@;
        let ghost rows = state.queue@;
        let row = state.queue.remove(i);
        let ghost rest = state.queue@;
        assert(rows_view(rest) =~= rows_view(rows).remove(i as int));
        let clamped = if target_index < state.queue.len() {
            target_index
        } else {
            state.queue.len()
        };
        state.queue.insert(clamped, row);
        assert(rows_view(state.queue@) =~= moved(s.queue, i as int, target_index as int));
        self.put_state(conversation_id, state);
        assert(self@.queues =~= old(self)@.queues.insert(
            conversation_id,
            ConversationQueueView { queue: moved(s.queue, i as int, target_index as int), ..s },
        ));
        events.push(QueuedQueryEvent::Reordered { conversation_id });
    }

    /// Enters edit mode for the row `query_id` of `conversation_id`; an edit
    /// in progress on another row is cancelled, its text unchanged.
    pub fn enter_edit_mode(&mut self, conversation_id: u128, query_id: QueuedQueryId, events: &mut Vec<QueuedQueryEvent>)
        ensures
            ({
                let s = state_in(old(self)@, conversation_id);
                if old(self)@.queues.contains_key(conversation_id) && has_row(s.queue, query_id) {
                    &&& final(self)@ == with_state(
                        old(self)@,
                        conversation_id,
                        ConversationQueueView { editing: Some(query_id), ..s },
                    )
                    &&& final(events)@ == old(events)@ + match s.editing {
                        Some(prev) => if prev != query_id {
                            seq![
                                QueuedQueryEvent::EditCancelled { conversation_id, query_id: prev },
                                QueuedQueryEvent::EditEntered { conversation_id, query_id },
                            ]
                        } else {
                            seq![QueuedQueryEvent::EditEntered { conversation_id, query_id }]
                        },
                        None => seq![QueuedQueryEvent::EditEntered { conversation_id, query_id }],
                    }
                } else {
                    final(self)@ == old(self)@ && final(events)@ == old(events)@
                }
            }),
    {
        let pos = match self.queues.get(&conversation_id) {
            Some(state) => Self::position_in(state, query_id),
            None => None,
        };
        match pos {
            Some(i) => {
                proof {
                    let s = state_in(old(self)@, conversation_id);
                    lemma_first_position(s.queue, query_id, i as int);
                }
            },
            None => {
                return ;
            },
        }
        let mut state = self.take_state(conversation_id);
        let previous = state.editing;
        state.editing = Some(query_id);
        self.put_state(conversation_id, state);
        assert(self@.queues =~= old(self)@.queues.insert(
            conversation_id,
            ConversationQueueView { editing: Some(query_id), ..state_in(old(self)@, conversation_id) },
        ));
        match previous {
            Some(prev) => {
                if prev != query_id {
                    events.push(QueuedQueryEvent::EditCancelled { conversation_id, query_id: prev });
                }
            },
            None => {},
        }
        events.push(QueuedQueryEvent::EditEntered { conversation_id, query_id });
    }

    /// Commits the edit in progress in `conversation_id`: the edited row's
    /// text becomes `new_text` and edit mode ends. An empty `new_text` cancels
    /// the edit instead, leaving the text as it was.
    pub fn commit_edit(&mut self, conversation_id: u128, new_text: String, events: &mut Vec<QueuedQueryEvent>)
        ensures
            ({
                let s = state_in(old(self)@, conversation_id);
                if old(self)@.queues.contains_key(conversation_id) && s.editing is Some {
                    let id = s.editing->0;
                    let ended = ConversationQueueView { editing: None, ..s };
                    if new_text@.len() == 0 {
                        &&& final(self)@ == with_state(old(self)@, conversation_id, ended)
                        &&& final(events)@ == old(events)@.push(
                            QueuedQueryEvent::EditCancelled { conversation_id, query_id: id },
                        )
                    } else {
                        &&& final(self)@ == with_state(
                            old(self)@,
                            conversation_id,
                            if has_row(s.queue, id) {
                                let i = first_position(s.queue, id);
                                ConversationQueueView {
                                    queue: s.queue.update(i, QueuedQueryView { text: new_text@, ..s.queue[i] }),
                                    ..ended
                                }
                            } else {
                                ended
                            },
                        )
                        &&& final(events)@ == old(events)@.push(
                            QueuedQueryEvent::EditCommitted { conversation_id, query_id: id },
                        )
                    }
                } else {
                    final(self)@ == old(self)@ && final(events)@ == old(events)@
                }
            }),
    {
        let editing = match self.queues.get(&conversation_id) {
            Some(state) => state.editing,
            None => {
                return ;
            },
        };
        let query_id = match editing {
            Some(id) => id,
            None => {
                return ;
            },
        };
        let mut state = self.take_state(conversation_id);
        let ghost s = state@;
        state.editing = None;
        if new_text.as_str().unicode_len() == 0 {
            self.put_state(conversation_id, state);
            assert(self@.queues =~= old(self)@.queues.insert(
                conversation_id,
                ConversationQueueView { editing: None, ..s },
            ));
            events.push(QueuedQueryEvent::EditCancelled { conversation_id, query_id });
            return ;
        }
        match Self::position_in(&state, query_id) {
            Some(i) => {
                proof { lemma_first_position(state@.queue, query_id, i as int); }
                let ghost rows = state.queue@;
                let mut row = state.queue.remove(i);
                row.text = new_text;
                let ghost edited = row@;
                state.queue.insert(i, row);
                assert(rows_view(state.queue@) =~= rows_view(rows).update(i as int, edited));
                assert(edited == QueuedQueryView { text: new_text@, ..s.queue[i as int] });
                self.put_state(conversation_id, state);
                assert(self@.queues =~= old(self)@.queues.insert(
                    conversation_id,
                    ConversationQueueView {
                        queue: s.queue.update(i as int, QueuedQueryView { text: new_text@, ..s.queue[i as int] }),
                        editing: None,
                        ..s
                    },
                ));
            },
            None => {
                self.put_state(conversation_id, state);
                assert(self@.queues =~= old(self)@.queues.insert(
                    conversation_id,
                    ConversationQueueView { editing: None, ..s },
                ));
            },
        }
        events.push(QueuedQueryEvent::EditCommitted { conversation_id, query_id });
    }

    /// Cancels the edit in progress in `conversation_id`, leaving the row's
    /// text as it was.
    pub fn cancel_edit(&mut self, conversation_id: u128, events: &mut Vec<QueuedQueryEvent>)
        ensures
            ({
                let s = state_in(old(self)@, conversation_id);
                if old(self)@.queues.contains_key(conversation_id) && s.editing is Some {
                    &&& final(self)@ == with_state(
                        old(self)@,
                        conversation_id,
                        ConversationQueueView { editing: None, ..s },
                    )
                    &&& final(events)@ == old(events)@.push(
                        QueuedQueryEvent::EditCancelled { conversation_id, query_id: s.editing->0 },
                    )
                } else {
                    final(self)@ == old(self)@ && final(events)@ == old(events)@
                }
            }),
    {
        let editing = match self.queues.get(&conversation_id) {
            Some(state) => state.editing,
            None => {
                return ;
            },
        };
        let query_id = match editing {
            Some(id) => id,
            None => {
                return ;
            },
        };
        let mut state = self.take_state(conversation_id);
        state.editing = None;
        self.put_state(conversation_id, state);
        assert(self@.queues =~= old(self)@.queues.insert(
            conversation_id,
            ConversationQueueView { editing: None, ..state_in(old(self)@, conversation_id) },
        ));
        events.push(QueuedQueryEvent::EditCancelled { conversation_id, query_id });
    }
}

/// A conversation's queue and toggles never change through another
/// conversation: every operation replaces the state of the one conversation it
/// names.
pub proof fn law_conversations_are_isolated(
    m: QueuedQueryModelView,
    conversation_id: u128,
    state: ConversationQueueView,
    other: u128,
)
    requires
        other != conversation_id,
    ensures
        state_in(with_state(m, conversation_id, state), other) == state_in(m, other),
        toggle_enabled(with_state(m, conversation_id, state), other) == toggle_enabled(m, other),
        lrc_toggle_enabled(with_state(m, conversation_id, state), other) == lrc_toggle_enabled(m, other),
{
}

/// Toggling flips the effective per-conversation toggle, and toggling twice
/// restores it; the long-running-command toggle is untouched.
pub proof fn law_toggle_flips_and_twice_restores(m: QueuedQueryModelView, conversation_id: u128)
    ensures
        toggle_enabled(toggled(m, conversation_id), conversation_id) == !toggle_enabled(m, conversation_id),
        toggle_enabled(toggled(toggled(m, conversation_id), conversation_id), conversation_id)
            == toggle_enabled(m, conversation_id),
        lrc_toggle_enabled(toggled(m, conversation_id), conversation_id) == lrc_toggle_enabled(
            m,
            conversation_id,
        ),
        state_in(toggled(m, conversation_id), conversation_id).queue == state_in(m, conversation_id).queue,
{
}

/// The long-running-command toggle flips, twice restores, and leaves the
/// conversation's own toggle alone.
pub proof fn law_lrc_toggle_flips_only_itself(m: QueuedQueryModelView, conversation_id: u128)
    ensures
        lrc_toggle_enabled(lrc_toggled(m, conversation_id), conversation_id) == !lrc_toggle_enabled(
            m,
            conversation_id,
        ),
        lrc_toggle_enabled(lrc_toggled(lrc_toggled(m, conversation_id), conversation_id), conversation_id)
            == lrc_toggle_enabled(m, conversation_id),
        toggle_enabled(lrc_toggled(m, conversation_id), conversation_id) == toggle_enabled(
            m,
            conversation_id,
        ),
{
}

/// Rows leave in the order they arrived: appending keeps every earlier row
/// where it was and puts the new one last, so the head is the oldest row.
pub proof fn law_append_is_fifo(m: QueuedQueryModelView, conversation_id: u128, row: QueuedQueryView)
    ensures
        ({
            let before = state_in(m, conversation_id).queue;
            let after = state_in(appended(m, conversation_id, row), conversation_id).queue;
            &&& after.len() == before.len() + 1
            &&& after.last() == row
            &&& forall|i: int| 0 <= i < before.len() ==> after[i] == before[i]
            &&& after[0] == if before.len() > 0 {
                before[0]
            } else {
                row
            }
        }),
{
}

/// Popping the head leaves the rest of the queue in order.
pub proof fn law_pop_front_keeps_the_rest_in_order(s: ConversationQueueView)
    requires
        s.queue.len() > 0,
    ensures
        without_row(s, 0).queue == s.queue.drop_first(),
{
    assert(s.queue.remove(0) =~= s.queue.drop_first());
}

/// Moving a row keeps every row, once each, and the number of rows.
pub proof fn law_reorder_is_a_permutation(queue: Seq<QueuedQueryView>, from: int, to: int)
    requires
        0 <= from < queue.len(),
        0 <= to,
    ensures
        moved(queue, from, to).len() == queue.len(),
        moved(queue, from, to).to_multiset() == queue.to_multiset(),
{
    broadcast use vstd::multiset::group_multiset_axioms;
    broadcast use vstd::seq_lib::group_to_multiset_ensures;

    let x = queue[from];
    let rest = queue.remove(from);
    let at = if to < rest.len() {
        to
    } else {
        rest.len() as int
    };
    let ins = rest.insert(at, x);
    assert(ins.remove(at) =~= rest);
    assert(ins[at] == x);
    assert(ins.to_multiset().remove(x) =~= rest.to_multiset());
    assert(ins.to_multiset().count(x) > 0);
    assert(ins.to_multiset() =~= rest.to_multiset().insert(x));
    assert(queue.to_multiset().remove(x) =~= rest.to_multiset());
    assert(queue.to_multiset().count(x) > 0) by {
        assert(queue.contains(x));
    }
    assert(queue.to_multiset() =~= rest.to_multiset().insert(x));
}

/// Putting a removed row back where it was restores the queue.
pub proof fn law_restore_undoes_remove(s: ConversationQueueView, i: int)
    requires
        0 <= i < s.queue.len(),
    ensures
        without_row(s, i).queue.insert(i, s.queue[i]) == s.queue,
{
    assert(s.queue.remove(i).insert(i, s.queue[i]) =~= s.queue);
}

/// A dropped conversation starts over empty.
pub proof fn law_dropped_conversation_is_empty(m: QueuedQueryModelView, conversation_id: u128)
    ensures
        state_in(
            QueuedQueryModelView { queues: m.queues.remove(conversation_id), ..m },
            conversation_id,
        ) == empty_queue_state(),
{
}

/// Clearing a terminal view drops the queue state of exactly the
/// conversations that were live in it: the cleared-view event lists them
/// (see `BlocklistAIHistoryModel::clear_conversations_in_terminal_view`), and
/// handling it removes their queues and keeps every other one.
pub proof fn law_clearing_a_view_drops_its_queues<C>(
    r: RegistryView<C>,
    view: u64,
    queues: Map<u128, ConversationQueueView>,
    conversation_id: u128,
)
    ensures
        owns(r, view, conversation_id) ==> !queues.remove_keys(live_in(r, view).to_set()).contains_key(
            conversation_id,
        ),
        !owns(r, view, conversation_id) && queues.contains_key(conversation_id) ==> queues.remove_keys(
            live_in(r, view).to_set(),
        ).contains_key(conversation_id) && queues.remove_keys(live_in(r, view).to_set())[conversation_id]
            == queues[conversation_id],
{
}

} // verus!
