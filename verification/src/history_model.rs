//! Which terminal view owns which conversation: the conversations live in
//! each view, those cleared from it (kept for up-arrow history), and the
//! active conversation of each view.
//!
//! A conversation is activated in one view by taking it away from every
//! other view, so that it ends with a single owner. Every change reports what
//! happened by pushing `BlocklistAIHistoryEvent`s onto the caller's list.

use std::collections::{HashMap, HashSet};
use vstd::prelude::*;

verus! {

broadcast use vstd::std_specs::hash::group_hash_axioms;

/// What the registry reports.
#[derive(Clone, Debug, PartialEq, Eq)]
pub enum BlocklistAIHistoryEvent {
    StartedNewConversation { new_conversation_id: u128, terminal_view_id: u64 },
    RestoredConversation { conversation_id: u128, terminal_view_id: u64 },
    RestoredConversations { terminal_view_id: u64, conversation_ids: Vec<u128> },
    SetActiveConversation { conversation_id: u128, terminal_view_id: u64 },
    ClearedActiveConversation { conversation_id: u128, terminal_view_id: u64 },
    ConversationOwnershipTransferred {
        conversation_id: u128,
        previous_terminal_view_id: u64,
        new_terminal_view_id: u64,
    },
    /// The view's live conversations were cleared; `cleared_conversation_ids`
    /// lists them, oldest first.
    ClearedConversationsInTerminalView {
        terminal_view_id: u64,
        active_conversation_id: Option<u128>,
        cleared_conversation_ids: Vec<u128>,
    },
    RemoveConversation { terminal_view_id: u64, conversation_id: u128 },
    DeletedConversation { terminal_view_id: u64, conversation_id: u128 },
    /// The metadata of a conversation changed; no view is named for a
    /// conversation that is only on disk.
    UpdatedConversationMetadata { terminal_view_id: Option<u64>, conversation_id: u128 },
}

/// The view an event concerns: for a transfer of ownership, the previous
/// owner, so that it drops what it shows of the conversation.
pub open spec fn event_terminal_view_id(event: BlocklistAIHistoryEvent) -> Option<u64> {
    match event {
        BlocklistAIHistoryEvent::StartedNewConversation { terminal_view_id, .. } => Some(terminal_view_id),
        BlocklistAIHistoryEvent::RestoredConversation { terminal_view_id, .. } => Some(terminal_view_id),
        BlocklistAIHistoryEvent::RestoredConversations { terminal_view_id, .. } => Some(terminal_view_id),
        BlocklistAIHistoryEvent::SetActiveConversation { terminal_view_id, .. } => Some(terminal_view_id),
        BlocklistAIHistoryEvent::ClearedActiveConversation { terminal_view_id, .. } => Some(terminal_view_id),
        BlocklistAIHistoryEvent::ConversationOwnershipTransferred { previous_terminal_view_id, .. } => Some(
            previous_terminal_view_id,
        ),
        BlocklistAIHistoryEvent::ClearedConversationsInTerminalView { terminal_view_id, .. } => Some(
            terminal_view_id,
        ),
        BlocklistAIHistoryEvent::RemoveConversation { terminal_view_id, .. } => Some(terminal_view_id),
        BlocklistAIHistoryEvent::DeletedConversation { terminal_view_id, .. } => Some(terminal_view_id),
        BlocklistAIHistoryEvent::UpdatedConversationMetadata { terminal_view_id, .. } => terminal_view_id,
    }
}

impl BlocklistAIHistoryEvent {
    /// The view this event concerns, if any (see `event_terminal_view_id`).
    pub fn terminal_view_id(&self) -> (view: Option<u64>)
        ensures
            view == event_terminal_view_id(*self),
    {
        match self {
            BlocklistAIHistoryEvent::StartedNewConversation { terminal_view_id, .. } => Some(*terminal_view_id),
            BlocklistAIHistoryEvent::RestoredConversation { terminal_view_id, .. } => Some(*terminal_view_id),
            BlocklistAIHistoryEvent::RestoredConversations { terminal_view_id, .. } => Some(*terminal_view_id),
            BlocklistAIHistoryEvent::SetActiveConversation { terminal_view_id, .. } => Some(*terminal_view_id),
            BlocklistAIHistoryEvent::ClearedActiveConversation { terminal_view_id, .. } => Some(
                *terminal_view_id,
            ),
            BlocklistAIHistoryEvent::ConversationOwnershipTransferred { previous_terminal_view_id, .. } => Some(
                *previous_terminal_view_id,
            ),
            BlocklistAIHistoryEvent::ClearedConversationsInTerminalView { terminal_view_id, .. } => Some(
                *terminal_view_id,
            ),
            BlocklistAIHistoryEvent::RemoveConversation { terminal_view_id, .. } => Some(*terminal_view_id),
            BlocklistAIHistoryEvent::DeletedConversation { terminal_view_id, .. } => Some(*terminal_view_id),
            BlocklistAIHistoryEvent::UpdatedConversationMetadata { terminal_view_id, .. } => *terminal_view_id,
        }
    }
}

/// What a registry holds.
pub struct RegistryView<C> {
    /// The conversations in memory, by id.
    pub conversations: Map<u128, C>,
    /// The live conversations of each terminal view, oldest first.
    pub live: Map<u64, Seq<u128>>,
    /// The conversations cleared from each terminal view.
    pub cleared: Map<u64, Seq<u128>>,
    /// The active conversation of each terminal view.
    pub active: Map<u64, u128>,
    /// The views that show a conversation's transcript rather than their own.
    pub transcript_viewers: Set<u64>,
    /// The conversations recorded as historical: listed among past
    /// conversations after they leave memory.
    pub historical: Set<u128>,
}

/// The conversations in memory and their owners; `C` is a conversation.
pub struct BlocklistAIHistoryModel<C> {
    conversations: HashMap<u128, C>,
    live: HashMap<u64, Vec<u128>>,
    cleared: HashMap<u64, Vec<u128>>,
    active: HashMap<u64, u128>,
    transcript_viewers: HashSet<u64>,
    historical: HashSet<u128>,
}

impl<C> View for BlocklistAIHistoryModel<C> {
    type V = RegistryView<C>;

    closed spec fn view(&self) -> RegistryView<C> {
        RegistryView {
            conversations: self.conversations@,
            live: seqs_of(self.live@),
            cleared: seqs_of(self.cleared@),
            active: self.active@,
            transcript_viewers: self.transcript_viewers@,
            historical: self.historical@,
        }
    }
}

/// The contents of each list of `m`.
pub open spec fn seqs_of(m: Map<u64, Vec<u128>>) -> Map<u64, Seq<u128>> {
    Map::new(|k: u64| m.contains_key(k), |k: u64| m[k]@)
}

proof fn lemma_seqs_of_insert(m: Map<u64, Vec<u128>>, k: u64, x: Vec<u128>)
    ensures
        seqs_of(m.insert(k, x)) == seqs_of(m).insert(k, x@),
{
    assert(seqs_of(m.insert(k, x)) =~= seqs_of(m).insert(k, x@));
}

proof fn lemma_seqs_of_remove(m: Map<u64, Vec<u128>>, k: u64)
    ensures
        seqs_of(m.remove(k)) == seqs_of(m).remove(k),
{
    assert(seqs_of(m.remove(k)) =~= seqs_of(m).remove(k));
}

/// The live conversations of `view` (none when it has no list).
pub open spec fn live_in<C>(r: RegistryView<C>, view: u64) -> Seq<u128> {
    if r.live.contains_key(view) {
        r.live[view]
    } else {
        Seq::empty()
    }
}

/// The conversations cleared from `view`.
pub open spec fn cleared_in<C>(r: RegistryView<C>, view: u64) -> Seq<u128> {
    if r.cleared.contains_key(view) {
        r.cleared[view]
    } else {
        Seq::empty()
    }
}

/// Whether `i` is the first position of `x` in `s`.
pub open spec fn is_first_index(s: Seq<u128>, x: u128, i: int) -> bool {
    0 <= i < s.len() && s[i] == x && forall|j: int| 0 <= j < i ==> s[j] != x
}

/// The first position of `x` in `s` (meaningful when `s` holds `x`).
pub open spec fn first_index(s: Seq<u128>, x: u128) -> int {
    choose|i: int| is_first_index(s, x, i)
}

/// A held element has exactly one first position.
proof fn lemma_first_index(s: Seq<u128>, x: u128, i: int)
    requires
        is_first_index(s, x, i),
    ensures
        first_index(s, x) == i,
{
    let k = first_index(s, x);
    assert(is_first_index(s, x, k));
    if k < i {
        assert(s[k] != x);
    }
    if i < k {
        assert(s[i] != x);
    }
}

/// Whether `s` holds `x`, with its first position.
fn index_of(s: &Vec<u128>, x: u128) -> (pos: Option<usize>)
    ensures
        match pos {
            Some(i) => is_first_index(s@, x, i as int),
            None => !s@.contains(x),
        },
{
    let mut i: usize = 0;
    while i < s.len()
        invariant
            i <= s.len(),
            forall|j: int| 0 <= j < i ==> s@[j] != x,
        decreases s.len() - i,
    {
        if s[i] == x {
            return Some(i);
        }
        i += 1;
    }
    None
}

/// `s` without every `x`.
pub open spec fn without(s: Seq<u128>, x: u128) -> Seq<u128> {
    s.filter(|y: u128| y != x)
}

/// `s` without every `x`, as `Vec::retain` leaves it.
fn retain_other(s: &Vec<u128>, x: u128) -> (out: Vec<u128>)
    ensures
        out@ == without(s@, x),
{
    let mut out: Vec<u128> = Vec::new();
    let mut i: usize = 0;
    while i < s.len()
        invariant
            i <= s.len(),
            out@ == without(s@.subrange(0, i as int), x),
        decreases s.len() - i,
    {
        proof {
            reveal(Seq::filter);
            assert(s@.subrange(0, i + 1).drop_last() =~= s@.subrange(0, i as int));
        }
        if s[i] != x {
            out.push(s[i]);
        }
        i += 1;
    }
    assert(s@.subrange(0, s.len() as int) =~= s@);
    out
}

/// Whether `view` owns `conversation_id`: it is among the view's live ones.
pub open spec fn owns<C>(r: RegistryView<C>, view: u64, conversation_id: u128) -> bool {
    live_in(r, view).contains(conversation_id)
}

/// The live lists after `conversation_id` is taken away from every view but
/// `view` (its first occurrence in each).
pub open spec fn live_after_transfer(live: Map<u64, Seq<u128>>, view: u64, conversation_id: u128) -> Map<u64, Seq<u128>> {
    Map::new(
        |v: u64| live.contains_key(v),
        |v: u64|
            if v != view && live[v].contains(conversation_id) {
                live[v].remove(first_index(live[v], conversation_id))
            } else {
                live[v]
            },
    )
}

/// The active map after `conversation_id` is activated in `view`: the other
/// views with a live list that had it active lose it.
pub open spec fn active_after_transfer(
    active: Map<u64, u128>,
    live: Map<u64, Seq<u128>>,
    view: u64,
    conversation_id: u128,
) -> Map<u64, u128> {
    Map::new(
        |v: u64|
            v == view || (active.contains_key(v) && !(v != view && live.contains_key(v) && active[v]
                == conversation_id)),
        |v: u64|
            if v == view {
                conversation_id
            } else {
                active[v]
            },
    )
}

/// The views that lose `conversation_id` as their active conversation.
pub open spec fn views_losing_active<C>(r: RegistryView<C>, view: u64, conversation_id: u128) -> Set<u64> {
    Set::new(
        |v: u64|
            v != view && r.live.contains_key(v) && r.active.contains_key(v) && r.active[v]
                == conversation_id,
    )
}

/// The views that lose `conversation_id` from their live list.
pub open spec fn previous_owners<C>(r: RegistryView<C>, view: u64, conversation_id: u128) -> Set<u64> {
    Set::new(|v: u64| v != view && r.live.contains_key(v) && r.live[v].contains(conversation_id))
}

/// The event for `view` losing `conversation_id` as its active conversation.
pub open spec fn cleared_event(conversation_id: u128, view: u64) -> BlocklistAIHistoryEvent {
    BlocklistAIHistoryEvent::ClearedActiveConversation { conversation_id, terminal_view_id: view }
}

/// One `cleared_event` for each of `views`, in order.
pub open spec fn cleared_events(conversation_id: u128, views: Seq<u64>) -> Seq<BlocklistAIHistoryEvent> {
    views.map_values(|v: u64| cleared_event(conversation_id, v))
}

/// The event for `conversation_id` moving from `from` to `to`.
pub open spec fn transferred_event(conversation_id: u128, from: u64, to: u64) -> BlocklistAIHistoryEvent {
    BlocklistAIHistoryEvent::ConversationOwnershipTransferred {
        conversation_id,
        previous_terminal_view_id: from,
        new_terminal_view_id: to,
    }
}

/// One `transferred_event` to `to` from each of `views`, in order.
pub open spec fn transferred_events(conversation_id: u128, views: Seq<u64>, to: u64) -> Seq<BlocklistAIHistoryEvent> {
    views.map_values(|v: u64| transferred_event(conversation_id, v, to))
}

/// The ids of restored conversations, in order.
pub open spec fn ids_of<C>(conversations: Seq<(u128, C)>) -> Seq<u128> {
    conversations.map_values(|p: (u128, C)| p.0)
}

/// `m` with each restored conversation put under its id, in order (a later
/// one under an id replaces an earlier one).
pub open spec fn with_restored<C>(m: Map<u128, C>, conversations: Seq<(u128, C)>) -> Map<u128, C>
    decreases conversations.len(),
{
    if conversations.len() == 0 {
        m
    } else {
        with_restored(m, conversations.drop_last()).insert(conversations.last().0, conversations.last().1)
    }
}

/// The event for `conversation_id` restored into `view`.
pub open spec fn restored_event(conversation_id: u128, view: u64) -> BlocklistAIHistoryEvent {
    BlocklistAIHistoryEvent::RestoredConversation { conversation_id, terminal_view_id: view }
}

/// One `restored_event` for each of `ids`, in order.
pub open spec fn restored_events(ids: Seq<u128>, view: u64) -> Seq<BlocklistAIHistoryEvent> {
    ids.map_values(|id: u128| restored_event(id, view))
}

/// The views that have a list in `lists`, each once.
fn keys_of(lists: &HashMap<u64, Vec<u128>>) -> (views: Vec<u64>)
    ensures
        views@.to_set() == lists@.dom(),
        views@.no_duplicates(),
{
    let mut views: Vec<u64> = Vec::new();
    for v in it: lists.keys()
        invariant
            it.seq().unref().to_set() == lists@.dom(),
            it.seq().unref().no_duplicates(),
            views@ == it.seq().unref().take(it.index() as int),
            it.index() == it.seq().len() ==> views@ == it.seq().unref(),
    {
        views.push(*v);
        assert(views@ =~= it.seq().unref().take(it.index() + 1));
        assert(it.index() + 1 == it.seq().len() ==> views@ =~= it.seq().unref());
    }
    views
}

/// A copy of `ids`.
fn copy_ids(ids: &Vec<u128>) -> (copy: Vec<u128>)
    ensures
        copy@ == ids@,
{
    let mut copy: Vec<u128> = Vec::new();
    let mut i: usize = 0;
    while i < ids.len()
        invariant
            i <= ids.len(),
            copy@ == ids@.subrange(0, i as int),
        decreases ids.len() - i,
    {
        copy.push(ids[i]);
        assert(copy@ =~= ids@.subrange(0, i + 1));
        i += 1;
    }
    assert(ids@.subrange(0, i as int) =~= ids@);
    copy
}

/// Takes the list of `view` out of `lists` (empty when it has none).
fn take_list(lists: &mut HashMap<u64, Vec<u128>>, view: u64) -> (list: Vec<u128>)
    ensures
        list@ == (if old(lists)@.contains_key(view) { old(lists)@[view]@ } else { Seq::empty() }),
        final(lists)@ == old(lists)@.remove(view),
        seqs_of(final(lists)@) == seqs_of(old(lists)@).remove(view),
{
    let ghost before = lists@;
    let taken = lists.remove(&view);
    proof {
        lemma_seqs_of_remove(before, view);
    }
    match taken {
        Some(list) => list,
        None => Vec::new(),
    }
}

/// Puts `list` into `lists` as the list of `view`.
fn put_list(lists: &mut HashMap<u64, Vec<u128>>, view: u64, list: Vec<u128>)
    ensures
        seqs_of(final(lists)@) == seqs_of(old(lists)@).insert(view, list@),
        final(lists)@.dom() == old(lists)@.dom().insert(view),
{
    let ghost before = lists@;
    let ghost l = list;
    lists.insert(view, list);
    proof {
        lemma_seqs_of_insert(before, view, l);
    }
}

/// `lists` with every `conversation_id` taken out of the list of `view`, if it has one.
pub open spec fn retained(lists: Map<u64, Seq<u128>>, view: u64, conversation_id: u128) -> Map<u64, Seq<u128>> {
    if lists.contains_key(view) {
        lists.insert(view, without(lists[view], conversation_id))
    } else {
        lists
    }
}

/// The conversations of `ids` that are in memory, in order.
pub open spec fn in_memory<C>(r: RegistryView<C>, ids: Seq<u128>) -> Seq<u128> {
    ids.filter(is_in_memory(r))
}

/// Whether a conversation is in memory.
pub open spec fn is_in_memory<C>(r: RegistryView<C>) -> spec_fn(u128) -> bool {
    |id: u128| r.conversations.contains_key(id)
}

/// Whether some view has `conversation_id` among its live conversations.
pub open spec fn is_live<C>(r: RegistryView<C>, conversation_id: u128) -> bool {
    exists|v: u64| #[trigger] owns(r, v, conversation_id)
}

/// Whether `conversation_id` is in memory and on the list of `view` in `lists`.
pub open spec fn listed_pair<C>(r: RegistryView<C>, lists: Map<u64, Seq<u128>>, view: u64, conversation_id: u128) -> bool {
    lists.contains_key(view) && lists[view].contains(conversation_id) && r.conversations.contains_key(conversation_id)
}

/// Whether `conversation_id` is in memory and among the conversations
/// cleared from `view`.
pub open spec fn cleared_pair<C>(r: RegistryView<C>, view: u64, conversation_id: u128) -> bool {
    listed_pair(r, r.cleared, view, conversation_id)
}

/// Whether `conversation_id` is in memory and live in `view`.
pub open spec fn live_pair<C>(r: RegistryView<C>, view: u64, conversation_id: u128) -> bool {
    listed_pair(r, r.live, view, conversation_id)
}

/// Whether `v` is among the first `n` elements of `s`.
pub open spec fn among_first(s: Seq<u64>, n: int, v: u64) -> bool {
    exists|k: int| 0 <= k < n && #[trigger] s[k] == v
}

/// Whether `id` is in memory and among `containing`.
pub open spec fn holds_action<C>(r: RegistryView<C>, containing: Seq<u128>, id: u128) -> bool {
    r.conversations.contains_key(id) && containing.contains(id)
}

/// Where a past query is listed in the up-arrow history.
#[derive(Clone, Copy, Debug, PartialEq, Eq, Structural)]
pub enum HistoryOrder {
    /// From the terminal view the history is shown in.
    CurrentSession,
    /// From any other view, or from disk.
    DifferentSession,
}

/// The order of the queries of `view` in the history shown in
/// `terminal_view_id`: the current session only for that view itself.
pub open spec fn order_for(terminal_view_id: Option<u64>, view: u64) -> HistoryOrder {
    if terminal_view_id == Some(view) {
        HistoryOrder::CurrentSession
    } else {
        HistoryOrder::DifferentSession
    }
}

/// The order of the queries of `view` in the history shown in
/// `terminal_view_id` (see `order_for`).
pub fn history_order(terminal_view_id: Option<u64>, view: u64) -> (order: HistoryOrder)
    ensures
        order == order_for(terminal_view_id, view),
{
    match terminal_view_id {
        Some(id) => if id == view {
            HistoryOrder::CurrentSession
        } else {
            HistoryOrder::DifferentSession
        },
        None => HistoryOrder::DifferentSession,
    }
}

/// Whether some view lists `conversation_id`, live or cleared: the
/// conversation is loaded, whether or not it is still in memory.
pub open spec fn is_loaded<C>(r: RegistryView<C>, conversation_id: u128) -> bool {
    exists|v: u64|
        #![trigger live_in(r, v)]
        #![trigger cleared_in(r, v)]
        live_in(r, v).contains(conversation_id) || cleared_in(r, v).contains(conversation_id)
}

/// The conversations whose exchanges make up the query history, each with
/// the order its queries take: those cleared from a view, then those live in
/// one, each in memory.
pub struct QuerySources {
    pub cleared: Vec<(u128, HistoryOrder)>,
    pub live: Vec<(u128, HistoryOrder)>,
}

/// Whether `sources` holds exactly the conversations in memory on the lists
/// of `lists`, each with the order of a view that lists it.
pub open spec fn sources_of<C>(
    r: RegistryView<C>,
    lists: Map<u64, Seq<u128>>,
    terminal_view_id: Option<u64>,
    sources: Seq<(u128, HistoryOrder)>,
) -> bool {
    forall|id: u128, order: HistoryOrder|
        #![trigger sources.contains((id, order))]
        sources.contains((id, order)) <==> exists|v: u64|
            #[trigger] listed_pair(r, lists, v, id) && order == order_for(terminal_view_id, v)
}

/// The query sources from the view/conversation `pairs`.
fn sources_from_pairs(pairs: &Vec<(u64, u128)>, terminal_view_id: Option<u64>) -> (sources: Vec<(u128, HistoryOrder)>)
    ensures
        forall|id: u128, order: HistoryOrder|
            #![trigger sources@.contains((id, order))]
            sources@.contains((id, order)) <==> exists|v: u64|
                #[trigger] pairs@.contains((v, id)) && order == order_for(terminal_view_id, v),
{
    let mut sources: Vec<(u128, HistoryOrder)> = Vec::new();
    let mut i: usize = 0;
    while i < pairs.len()
        invariant
            i <= pairs.len(),
            forall|id: u128, order: HistoryOrder|
                #![trigger sources@.contains((id, order))]
                sources@.contains((id, order)) <==> exists|k: int|
                    0 <= k < i && (#[trigger] pairs@[k]).1 == id && order == order_for(terminal_view_id, pairs@[k].0),
        decreases pairs.len() - i,
    {
        let (v, id) = pairs[i];
        let order = history_order(terminal_view_id, v);
        let ghost before = sources@;
        sources.push((id, order));
        assert forall|id2: u128, order2: HistoryOrder|
            sources@.contains((id2, order2)) <==> exists|k: int|
                0 <= k < i + 1 && (#[trigger] pairs@[k]).1 == id2 && order2 == order_for(terminal_view_id, pairs@[k].0) by {
            if sources@.contains((id2, order2)) {
                let q = choose|q: int| 0 <= q < sources@.len() && sources@[q] == (id2, order2);
                if q < before.len() {
                    assert(before[q] == (id2, order2));
                    assert(before.contains((id2, order2)));
                } else {
                    assert(pairs@[i as int].1 == id2);
                }
            }
            if exists|k: int| 0 <= k < i + 1 && (#[trigger] pairs@[k]).1 == id2 && order2 == order_for(terminal_view_id, pairs@[k].0) {
                let k = choose|k: int| 0 <= k < i + 1 && (#[trigger] pairs@[k]).1 == id2 && order2 == order_for(terminal_view_id, pairs@[k].0);
                if k < i {
                    assert(before.contains((id2, order2)));
                    let q = choose|q: int| 0 <= q < before.len() && before[q] == (id2, order2);
                    assert(sources@[q] == (id2, order2));
                } else {
                    assert(sources@[before.len() as int] == (id2, order2));
                }
            }
        }
        i += 1;
    }
    assert forall|id: u128, order: HistoryOrder|
        sources@.contains((id, order)) <==> exists|v: u64|
            #[trigger] pairs@.contains((v, id)) && order == order_for(terminal_view_id, v) by {
        if sources@.contains((id, order)) {
            let k = choose|k: int| 0 <= k < pairs@.len() && (#[trigger] pairs@[k]).1 == id && order == order_for(terminal_view_id, pairs@[k].0);
            assert(pairs@.contains((pairs@[k].0, id)));
        }
        if exists|v: u64| #[trigger] pairs@.contains((v, id)) && order == order_for(terminal_view_id, v) {
            let v = choose|v: u64| #[trigger] pairs@.contains((v, id)) && order == order_for(terminal_view_id, v);
            let k = choose|k: int| 0 <= k < pairs@.len() && pairs@[k] == (v, id);
            assert((pairs@[k]).1 == id);
        }
    }
    sources
}

/// A view whose list in `lists` holds `conversation_id`, if any.
fn view_listing(lists: &HashMap<u64, Vec<u128>>, conversation_id: u128) -> (found: Option<u64>)
    ensures
        match found {
            Some(v) => seqs_of(lists@).contains_key(v) && seqs_of(lists@)[v].contains(conversation_id),
            None => forall|v: u64|
                #[trigger] seqs_of(lists@).contains_key(v) ==> !seqs_of(lists@)[v].contains(conversation_id),
        },
{
    let views = keys_of(lists);
    let mut j: usize = 0;
    while j < views.len()
        invariant
            j <= views.len(),
            views@.to_set() == lists@.dom(),
            forall|k: int|
                0 <= k < j ==> !(lists@.contains_key(#[trigger] views@[k]) && lists@[views@[k]]@.contains(
                    conversation_id,
                )),
        decreases views.len() - j,
    {
        let v = views[j];
        match lists.get(&v) {
            Some(list) => {
                if index_of(list, conversation_id).is_some() {
                    return Some(v);
                }
            },
            None => {},
        }
        j += 1;
    }
    assert forall|v: u64| #[trigger] seqs_of(lists@).contains_key(v) implies !seqs_of(lists@)[v].contains(
        conversation_id,
    ) by {
        assert(views@.to_set().contains(v));
        let k = choose|k: int| 0 <= k < views@.len() && views@[k] == v;
    }
    None
}

impl<C> BlocklistAIHistoryModel<C> {
    /// An empty registry.
    pub fn new() -> (registry: Self)
        ensures
            registry@.conversations == Map::<u128, C>::empty(),
            registry@.live == Map::<u64, Seq<u128>>::empty(),
            registry@.cleared == Map::<u64, Seq<u128>>::empty(),
            registry@.active == Map::<u64, u128>::empty(),
            registry@.transcript_viewers == Set::<u64>::empty(),
            registry@.historical == Set::<u128>::empty(),
    {
        let registry = BlocklistAIHistoryModel {
            conversations: HashMap::new(),
            live: HashMap::new(),
            cleared: HashMap::new(),
            active: HashMap::new(),
            transcript_viewers: HashSet::new(),
            historical: HashSet::new(),
        };
        assert(registry@.live =~= Map::<u64, Seq<u128>>::empty());
        assert(registry@.cleared =~= Map::<u64, Seq<u128>>::empty());
        registry
    }

    /// The conversation `conversation_id`, if it is in memory.
    pub fn conversation(&self, conversation_id: u128) -> (conversation: Option<&C>)
        ensures
            match conversation {
                Some(c) => self@.conversations.contains_key(conversation_id) && *c
                    == self@.conversations[conversation_id],
                None => !self@.conversations.contains_key(conversation_id),
            },
    {
        self.conversations.get(&conversation_id)
    }

    /// The live list of `view` taken out of the map (empty when it has none).
    fn take_live(&mut self, view: u64) -> (list: Vec<u128>)
        ensures
            list@ == live_in(old(self)@, view),
            final(self)@ == (RegistryView { live: old(self)@.live.remove(view), ..old(self)@ }),
    {
        let ghost before = self.live@;
        let taken = self.live.remove(&view);
        proof {
            lemma_seqs_of_remove(before, view);
        }
        match taken {
            Some(list) => list,
            None => Vec::new(),
        }
    }

    /// Appends `conversation` as a new live conversation of `view`.
    pub fn start_new_conversation(&mut self, view: u64, conversation_id: u128, conversation: C, events: &mut Vec<BlocklistAIHistoryEvent>)
        ensures
            final(self)@ == (RegistryView {
                conversations: old(self)@.conversations.insert(conversation_id, conversation),
                live: old(self)@.live.insert(view, live_in(old(self)@, view).push(conversation_id)),
                ..old(self)@
            }),
            final(events)@ == old(events)@.push(
                BlocklistAIHistoryEvent::StartedNewConversation { new_conversation_id: conversation_id, terminal_view_id: view },
            ),
    {
        let mut list = self.take_live(view);
        list.push(conversation_id);
        let ghost l = list@;
        let ghost m = self.live@;
        self.live.insert(view, list);
        self.conversations.insert(conversation_id, conversation);
        proof {
            lemma_seqs_of_insert(m, view, list);
        }
        assert(self@.live =~= old(self)@.live.insert(view, l));
        events.push(
            BlocklistAIHistoryEvent::StartedNewConversation { new_conversation_id: conversation_id, terminal_view_id: view },
        );
    }

    /// Puts restored conversations back into `view`, as live ones, in order.
    /// Each one is reported by a `RestoredConversation`, and all of them
    /// together by a closing `RestoredConversations`.
    pub fn restore_conversations(&mut self, view: u64, conversations: Vec<(u128, C)>, events: &mut Vec<BlocklistAIHistoryEvent>)
        ensures
            final(self)@.live == if conversations@.len() == 0 {
                old(self)@.live
            } else {
                old(self)@.live.insert(view, live_in(old(self)@, view) + ids_of(conversations@))
            },
            final(self)@.cleared == old(self)@.cleared,
            final(self)@.active == old(self)@.active,
            final(self)@.transcript_viewers == old(self)@.transcript_viewers,
            final(self)@.historical == old(self)@.historical,
            final(self)@.conversations == with_restored(old(self)@.conversations, conversations@),
            final(events)@.len() == old(events)@.len() + conversations@.len() + 1,
            final(events)@.subrange(0, (old(events)@.len() + conversations@.len()) as int) == old(events)@
                + restored_events(ids_of(conversations@), view),
            final(events)@.last() matches BlocklistAIHistoryEvent::RestoredConversations { terminal_view_id, conversation_ids }
                && terminal_view_id == view && conversation_ids@ == ids_of(conversations@),
    {
        let had = self.live.contains_key(&view);
        let mut list = self.take_live(view);
        let ghost start = list@;
        let ghost ids = ids_of(conversations@);
        let ghost all = conversations@;
        let ghost before_events = events@;
        let n: usize = conversations.len();
        let mut restored: Vec<u128> = Vec::new();
        let mut rest = conversations;
        let mut k: usize = 0;
        while rest.len() > 0
            invariant
                all.len() == n,
                all.len() == ids.len(),
                ids == ids_of(all),
                k + rest@.len() == all.len(),
                rest@ == all.subrange(k as int, all.len() as int),
                list@ == start + ids.subrange(0, k as int),
                restored@ == ids.subrange(0, k as int),
                events@ == before_events + restored_events(ids.subrange(0, k as int), view),
                self@.live == old(self)@.live.remove(view),
                self@.cleared == old(self)@.cleared,
                self@.active == old(self)@.active,
                self@.transcript_viewers == old(self)@.transcript_viewers,
                self@.historical == old(self)@.historical,
                self@.conversations == with_restored(old(self)@.conversations, all.subrange(0, k as int)),
            decreases rest.len(),
        {
            let (id, conversation) = rest.remove(0);
            assert(id == ids[k as int]);
            assert(all.subrange(0, k + 1).drop_last() =~= all.subrange(0, k as int));
            list.push(id);
            restored.push(id);
            self.conversations.insert(id, conversation);
            events.push(BlocklistAIHistoryEvent::RestoredConversation { conversation_id: id, terminal_view_id: view });
            proof {
                assert(rest@ =~= all.subrange(k + 1, all.len() as int));
                assert(ids.subrange(0, k + 1) =~= ids.subrange(0, k as int).push(id));
                assert(restored_events(ids.subrange(0, k + 1), view) =~= restored_events(
                    ids.subrange(0, k as int),
                    view,
                ).push(restored_event(id, view)));
            }
            k += 1;
        }
        assert(ids.subrange(0, k as int) =~= ids);
        assert(all.subrange(0, k as int) =~= all);
        let ghost l = list@;
        if had || list.len() > 0 {
            let ghost m = self.live@;
            self.live.insert(view, list);
            proof {
                lemma_seqs_of_insert(m, view, list);
            }
            assert(self@.live =~= old(self)@.live.insert(view, l));
        } else {
            assert(self@.live =~= old(self)@.live);
        }
        let ghost mid = events@;
        events.push(BlocklistAIHistoryEvent::RestoredConversations { terminal_view_id: view, conversation_ids: restored });
        assert(events@.subrange(0, mid.len() as int) =~= mid);
    }

    /// Makes `conversation_id` the active conversation of `view` and takes it
    /// away from every other view: from their live lists, and as their active
    /// conversation. Nothing happens unless `view` owns the conversation.
    ///
    /// The events are: one `ClearedActiveConversation` for each view that
    /// loses it as its active conversation, one `ConversationOwnershipTransferred`
    /// for each view that loses it from its live list, and `SetActiveConversation`
    /// last; within each group the views come in the order in which the map
    /// is walked, which the contract leaves open.
    pub fn set_active_conversation_id(&mut self, conversation_id: u128, view: u64, events: &mut Vec<BlocklistAIHistoryEvent>)
        ensures
            !owns(old(self)@, view, conversation_id) ==> final(self)@ == old(self)@ && final(events)@
                == old(events)@,
            owns(old(self)@, view, conversation_id) ==> {
                &&& final(self)@.live == live_after_transfer(old(self)@.live, view, conversation_id)
                &&& final(self)@.active == active_after_transfer(
                    old(self)@.active,
                    old(self)@.live,
                    view,
                    conversation_id,
                )
                &&& final(self)@.conversations == old(self)@.conversations
                &&& final(self)@.cleared == old(self)@.cleared
                &&& final(self)@.transcript_viewers == old(self)@.transcript_viewers
                &&& final(self)@.historical == old(self)@.historical
                &&& exists|lost: Seq<u64>, moved: Seq<u64>|
                    #![trigger lost.to_set(), moved.to_set()]
                    {
                        &&& lost.no_duplicates()
                        &&& lost.to_set() == views_losing_active(old(self)@, view, conversation_id)
                        &&& moved.no_duplicates()
                        &&& moved.to_set() == previous_owners(old(self)@, view, conversation_id)
                        &&& final(events)@ == old(events)@ + cleared_events(conversation_id, lost)
                            + transferred_events(conversation_id, moved, view) + seq![
                            BlocklistAIHistoryEvent::SetActiveConversation { conversation_id, terminal_view_id: view },
                        ]
                    }
            },
    {
        let owned = match self.live.get(&view) {
            Some(list) => index_of(list, conversation_id).is_some(),
            None => false,
        };
        if !owned {
            return;
        }
        let ghost start = self@;
        let ghost c = conversation_id;
        let views = keys_of(&self.live);
        let mut previous: Vec<u64> = Vec::new();
        let ghost mut lost: Seq<u64> = Seq::empty();
        let ghost mut done: Set<u64> = Set::empty();
        let mut j: usize = 0;
        while j < views.len()
            invariant
                c == conversation_id,
                j <= views.len(),
                views@.to_set() == start.live.dom(),
                views@.no_duplicates(),
                forall|k: int| 0 <= k < j ==> done.contains(#[trigger] views@[k]),
                forall|k: int| j <= k < views.len() ==> !done.contains(#[trigger] views@[k]),
                done.subset_of(start.live.dom()),
                self@.conversations == start.conversations,
                self@.cleared == start.cleared,
                self@.transcript_viewers == start.transcript_viewers,
                self@.historical == start.historical,
                self@.live.dom() == start.live.dom(),
                forall|w: u64|
                    #![trigger self@.live[w]]
                    self@.live.contains_key(w) ==> self@.live[w] == if done.contains(w) {
                        live_after_transfer(start.live, view, c)[w]
                    } else {
                        start.live[w]
                    },
                forall|w: u64|
                    #![trigger self@.active.contains_key(w)]
                    self@.active.contains_key(w) == (start.active.contains_key(w) && !(done.contains(w) && w
                        != view && start.active[w] == c)),
                forall|w: u64|
                    #![trigger self@.active[w]]
                    self@.active.contains_key(w) ==> self@.active[w] == start.active[w],
                previous@.no_duplicates(),
                previous@.to_set() == done.filter(|w: u64| w != view && start.live[w].contains(c)),
                lost.no_duplicates(),
                lost.to_set() == done.filter(
                    |w: u64| w != view && start.active.contains_key(w) && start.active[w] == c,
                ),
                events@ == old(events)@ + cleared_events(c, lost),
            decreases views.len() - j,
        {
            let v = views[j];
            let ghost before = self@;
            assert(views@.contains(v));
            assert(!done.contains(v));
            if v != view {
                let mut list = self.take_live(v);
                match index_of(&list, conversation_id) {
                    Some(pos) => {
                        proof {
                            lemma_first_index(list@, c, pos as int);
                        }
                        list.remove(pos);
                        proof {
                            assert(!previous@.to_set().contains(v));
                            assert(!previous@.contains(v));
                            previous@.lemma_push_to_set_commute(v);
                        }
                        previous.push(v);
                    },
                    None => {},
                }
                let ghost l = list@;
                let ghost m = self.live@;
                self.live.insert(v, list);
                proof {
                    lemma_seqs_of_insert(m, v, list);
                }
                assert(self@.live =~= before.live.insert(v, l));
                let is_active = match self.active.get(&v) {
                    Some(a) => *a == conversation_id,
                    None => false,
                };
                if is_active {
                    self.active.remove(&v);
                    events.push(BlocklistAIHistoryEvent::ClearedActiveConversation { conversation_id, terminal_view_id: v });
                    proof {
                        assert(!lost.to_set().contains(v));
                        assert(!lost.contains(v));
                        lost.lemma_push_to_set_commute(v);
                        assert(cleared_events(c, lost.push(v)) =~= cleared_events(c, lost).push(
                            cleared_event(c, v),
                        ));
                        lost = lost.push(v);
                    }
                }
            }
            proof {
                done = done.insert(v);
                assert(previous@.to_set() =~= done.filter(|w: u64| w != view && start.live[w].contains(c)));
                assert(lost.to_set() =~= done.filter(
                    |w: u64| w != view && start.active.contains_key(w) && start.active[w] == c,
                ));
            }
            j += 1;
        }
        proof {
            assert(done =~= start.live.dom()) by {
                assert forall|w: u64| start.live.dom().contains(w) implies done.contains(w) by {
                    assert(views@.to_set().contains(w));
                    let k = choose|k: int| 0 <= k < views@.len() && views@[k] == w;
                }
            }
            assert(previous@.to_set() =~= previous_owners(start, view, c));
            assert(lost.to_set() =~= views_losing_active(start, view, c));
        }
        let ghost after_cleared = events@;
        let mut i: usize = 0;
        while i < previous.len()
            invariant
                c == conversation_id,
                i <= previous.len(),
                events@ == after_cleared + transferred_events(c, previous@.subrange(0, i as int), view),
            decreases previous.len() - i,
        {
            let from = previous[i];
            events.push(
                BlocklistAIHistoryEvent::ConversationOwnershipTransferred {
                    conversation_id,
                    previous_terminal_view_id: from,
                    new_terminal_view_id: view,
                },
            );
            assert(previous@.subrange(0, i + 1) =~= previous@.subrange(0, i as int).push(from));
            assert(transferred_events(c, previous@.subrange(0, i + 1), view) =~= transferred_events(
                c,
                previous@.subrange(0, i as int),
                view,
            ).push(transferred_event(c, from, view)));
            i += 1;
        }
        assert(previous@.subrange(0, i as int) =~= previous@);
        let ghost act = self@.active;
        self.active.insert(view, conversation_id);
        proof {
            assert forall|w: u64| w != view implies act.contains_key(w) == (start.active.contains_key(w) && !(
            start.live.contains_key(w) && start.active[w] == c)) by {
                assert(done.contains(w) == start.live.contains_key(w));
            }
            assert(self@.active =~= active_after_transfer(start.active, start.live, view, c));
        }
        events.push(BlocklistAIHistoryEvent::SetActiveConversation { conversation_id, terminal_view_id: view });
        proof {
            assert(self@.live =~= live_after_transfer(start.live, view, c));
            let moved = previous@;
            assert(lost.to_set() == views_losing_active(start, view, c));
            assert(moved.to_set() == previous_owners(start, view, c));
            assert(events@ =~= old(events)@ + cleared_events(c, lost) + transferred_events(c, moved, view) + seq![
                BlocklistAIHistoryEvent::SetActiveConversation { conversation_id, terminal_view_id: view },
            ]);
        }
    }
}

impl<C> BlocklistAIHistoryModel<C> {
    /// Records that `view` shows a conversation's transcript.
    pub fn mark_terminal_view_as_conversation_transcript_viewer(&mut self, view: u64)
        ensures
            final(self)@ == (RegistryView {
                transcript_viewers: old(self)@.transcript_viewers.insert(view),
                ..old(self)@
            }),
    {
        self.transcript_viewers.insert(view);
    }

    /// Whether `view` shows a conversation's transcript.
    pub fn is_terminal_view_conversation_transcript_viewer(&self, view: u64) -> (viewer: bool)
        ensures
            viewer == self@.transcript_viewers.contains(view),
    {
        self.transcript_viewers.contains(&view)
    }

    /// Records as historical the live conversations of `view` that are in
    /// memory and that `eligible` lists (those that would show in the
    /// blocklist and are not kept out of navigation); nothing for a view that
    /// shows a transcript.
    pub fn mark_conversations_historical_for_terminal_view(&mut self, view: u64, eligible: &Vec<u128>)
        ensures
            final(self)@ == (RegistryView {
                historical: if old(self)@.transcript_viewers.contains(view) {
                    old(self)@.historical
                } else {
                    old(self)@.historical.union(
                        Set::new(
                            |id: u128|
                                live_in(old(self)@, view).contains(id) && old(self)@.conversations.contains_key(id)
                                    && eligible@.contains(id),
                        ),
                    )
                },
                ..old(self)@
            }),
    {
        if self.transcript_viewers.contains(&view) {
            return;
        }
        let ghost start = self@;
        let ghost added = Set::new(
            |id: u128| live_in(start, view).contains(id) && start.conversations.contains_key(id) && eligible@.contains(id),
        );
        let ids = self.all_live_conversations_for_terminal_view(view);
        assert forall|id: u128| ids@.contains(id) == (live_in(start, view).contains(id) && start.conversations.contains_key(id)) by {
            broadcast use vstd::seq_lib::group_filter_ensures;
            let live = live_in(start, view);
            let p = is_in_memory(start);
            if ids@.contains(id) {
                live.lemma_filter_contains_rev(p, id);
                let k = choose|k: int| 0 <= k < ids@.len() && ids@[k] == id;
                assert(p(live.filter(p)[k]));
            }
            if live.contains(id) && start.conversations.contains_key(id) {
                let k = choose|k: int| 0 <= k < live.len() && live[k] == id;
                live.lemma_filter_contains(p, k);
            }
        }
        let mut i: usize = 0;
        assert(self@.historical =~= start.historical.union(
            Set::new(|x: u128| ids@.subrange(0, i as int).contains(x) && eligible@.contains(x)),
        ));
        while i < ids.len()
            invariant
                i <= ids.len(),
                forall|id: u128| ids@.contains(id) == (live_in(start, view).contains(id) && start.conversations.contains_key(id)),
                self@ == (RegistryView {
                    historical: start.historical.union(
                        Set::new(|id: u128| ids@.subrange(0, i as int).contains(id) && eligible@.contains(id)),
                    ),
                    ..start
                }),
            decreases ids.len() - i,
        {
            let id = ids[i];
            let ghost before = self@.historical;
            if index_of(eligible, id).is_some() {
                self.historical.insert(id);
            }
            proof {
                broadcast use vstd::seq_lib::lemma_seq_contains_after_push;
                assert(ids@.subrange(0, i + 1) =~= ids@.subrange(0, i as int).push(id));
                assert(self@.historical =~= start.historical.union(
                    Set::new(|x: u128| ids@.subrange(0, i + 1).contains(x) && eligible@.contains(x)),
                ));
            }
            i += 1;
        }
        proof {
            assert(ids@.subrange(0, ids.len() as int) =~= ids@);
            assert(self@.historical =~= start.historical.union(added));
        }
    }

    /// The conversations recorded as historical.
    pub fn get_local_conversations_metadata(&self) -> (ids: Vec<u128>)
        ensures
            ids@.to_set() == self@.historical,
            ids@.no_duplicates(),
    {
        let mut ids: Vec<u128> = Vec::new();
        for id in it: self.historical.iter()
            invariant
                it.seq().unref().to_set() == self.historical@,
                it.seq().unref().no_duplicates(),
                ids@ == it.seq().unref().take(it.index() as int),
                it.index() == it.seq().len() ==> ids@ == it.seq().unref(),
        {
            ids.push(*id);
            assert(ids@ =~= it.seq().unref().take(it.index() + 1));
            assert(it.index() + 1 == it.seq().len() ==> ids@ =~= it.seq().unref());
        }
        ids
    }

    /// The latest live conversation of `view` that is in memory and that
    /// `containing` lists (the conversations holding the action in question).
    pub fn conversation_id_for_action(&self, view: u64, containing: &Vec<u128>) -> (found: Option<u128>)
        ensures
            match found {
                Some(id) => exists|i: int|
                    0 <= i < live_in(self@, view).len() && live_in(self@, view)[i] == id && holds_action(
                        self@,
                        containing@,
                        id,
                    ) && forall|j: int|
                        i < j < live_in(self@, view).len() ==> !holds_action(
                            self@,
                            containing@,
                            #[trigger] live_in(self@, view)[j],
                        ),
                None => forall|j: int|
                    0 <= j < live_in(self@, view).len() ==> !holds_action(
                        self@,
                        containing@,
                        #[trigger] live_in(self@, view)[j],
                    ),
            },
    {
        let list = match self.live.get(&view) {
            Some(list) => list,
            None => return None,
        };
        let mut i: usize = list.len();
        while i > 0
            invariant
                i <= list.len(),
                list@ == live_in(self@, view),
                forall|j: int| i <= j < list@.len() ==> !holds_action(self@, containing@, #[trigger] list@[j]),
            decreases i,
        {
            let id = list[i - 1];
            if self.conversations.contains_key(&id) && index_of(containing, id).is_some() {
                assert(holds_action(self@, containing@, list@[i - 1]));
                return Some(id);
            }
            i -= 1;
        }
        None
    }

    /// Makes `conversation_id` the active conversation of `view` without
    /// touching any other view. Nothing happens unless `view` owns it.
    pub fn mark_active_conversation_id(&mut self, conversation_id: u128, view: u64, events: &mut Vec<BlocklistAIHistoryEvent>)
        ensures
            !owns(old(self)@, view, conversation_id) ==> final(self)@ == old(self)@ && final(events)@
                == old(events)@,
            owns(old(self)@, view, conversation_id) ==> final(self)@ == (RegistryView {
                active: old(self)@.active.insert(view, conversation_id),
                ..old(self)@
            }) && final(events)@ == old(events)@.push(
                BlocklistAIHistoryEvent::SetActiveConversation { conversation_id, terminal_view_id: view },
            ),
    {
        let owned = match self.live.get(&view) {
            Some(list) => index_of(list, conversation_id).is_some(),
            None => false,
        };
        if !owned {
            return;
        }
        self.active.insert(view, conversation_id);
        events.push(BlocklistAIHistoryEvent::SetActiveConversation { conversation_id, terminal_view_id: view });
    }

    /// The active conversation of `view`, if it has one and it is still
    /// among the view's live conversations.
    pub fn active_conversation_id(&self, view: u64) -> (active: Option<u128>)
        ensures
            active == (if self@.active.contains_key(view) && owns(self@, view, self@.active[view]) {
                Some(self@.active[view])
            } else {
                None::<u128>
            }),
    {
        let id = match self.active.get(&view) {
            Some(id) => *id,
            None => return None,
        };
        match self.live.get(&view) {
            Some(list) => {
                if index_of(list, id).is_some() {
                    Some(id)
                } else {
                    None
                }
            },
            None => None,
        }
    }

    /// Whether some view has `conversation_id` among its live conversations.
    pub fn is_conversation_live(&self, conversation_id: u128) -> (live: bool)
        ensures
            live == is_live(self@, conversation_id),
    {
        match self.terminal_view_id_for_conversation(conversation_id) {
            Some(_) => true,
            None => false,
        }
    }

    /// A view that owns `conversation_id`, if any; which one, when several
    /// do, depends on the order in which the map is walked.
    pub fn terminal_view_id_for_conversation(&self, conversation_id: u128) -> (owner: Option<u64>)
        ensures
            match owner {
                Some(v) => owns(self@, v, conversation_id),
                None => !is_live(self@, conversation_id),
            },
    {
        let views = keys_of(&self.live);
        let mut j: usize = 0;
        while j < views.len()
            invariant
                j <= views.len(),
                views@.to_set() == self.live@.dom(),
                forall|k: int| 0 <= k < j ==> !owns(self@, #[trigger] views@[k], conversation_id),
            decreases views.len() - j,
        {
            let v = views[j];
            assert(views@.contains(v));
            match self.live.get(&v) {
                Some(list) => {
                    if index_of(list, conversation_id).is_some() {
                        return Some(v);
                    }
                },
                None => {},
            }
            j += 1;
        }
        assert forall|v: u64| !owns(self@, v, conversation_id) by {
            if self@.live.contains_key(v) {
                assert(views@.to_set().contains(v));
                let k = choose|k: int| 0 <= k < views@.len() && views@[k] == v;
                assert(!owns(self@, views@[k], conversation_id));
            }
        }
        None
    }

    /// The live conversations of `view` that are in memory, oldest first.
    pub fn all_live_conversations_for_terminal_view(&self, view: u64) -> (ids: Vec<u128>)
        ensures
            ids@ == in_memory(self@, live_in(self@, view)),
    {
        let mut ids: Vec<u128> = Vec::new();
        match self.live.get(&view) {
            Some(list) => {
                let mut i: usize = 0;
                while i < list.len()
                    invariant
                        i <= list.len(),
                        ids@ == in_memory(self@, list@.subrange(0, i as int)),
                    decreases list.len() - i,
                {
                    proof {
                        reveal(Seq::filter);
                        assert(list@.subrange(0, i + 1).drop_last() =~= list@.subrange(0, i as int));
                    }
                    if self.conversations.contains_key(&list[i]) {
                        ids.push(list[i]);
                    }
                    i += 1;
                }
                assert(list@.subrange(0, list.len() as int) =~= list@);
            },
            None => {
                assert(in_memory(self@, Seq::<u128>::empty()) =~= Seq::<u128>::empty());
            },
        }
        ids
    }

    /// Every pair of a view and a conversation in memory that is on the
    /// view's list in `lists`.
    fn pairs_in_memory(&self, lists: &HashMap<u64, Vec<u128>>) -> (pairs: Vec<(u64, u128)>)
        ensures
            forall|v: u64, id: u128| pairs@.contains((v, id)) <==> listed_pair(self@, seqs_of(lists@), v, id),
    {
        let views = keys_of(lists);
        let mut pairs: Vec<(u64, u128)> = Vec::new();
        let mut j: usize = 0;
        while j < views.len()
            invariant
                j <= views.len(),
                views@.to_set() == lists@.dom(),
                views@.no_duplicates(),
                forall|v: u64, id: u128|
                    #![trigger pairs@.contains((v, id))]
                    pairs@.contains((v, id)) <==> (listed_pair(self@, seqs_of(lists@), v, id) && among_first(views@, j as int, v)),
            decreases views.len() - j,
        {
            let v = views[j];
            let ghost before = pairs@;
            assert(views@.contains(v));
            assert(views@.to_set().contains(v));
            match lists.get(&v) {
                Some(list) => {
                    let mut i: usize = 0;
                    while i < list.len()
                        invariant
                            i <= list.len(),
                            lists@.contains_key(v),
                            list@ == seqs_of(lists@)[v],
                            forall|w: u64, id: u128|
                                pairs@.contains((w, id)) <==> (before.contains((w, id)) || (w == v
                                    && self@.conversations.contains_key(id) && list@.subrange(0, i as int).contains(id))),
                        decreases list.len() - i,
                    {
                        let id = list[i];
                        if self.conversations.contains_key(&id) {
                            let ghost p = pairs@;
                            pairs.push((v, id));
                            assert forall|w: u64, id2: u128|
                                pairs@.contains((w, id2)) <==> (p.contains((w, id2)) || (w == v && id2 == id)) by {
                                if p.contains((w, id2)) {
                                    let q = choose|q: int| 0 <= q < p.len() && p[q] == (w, id2);
                                    assert(pairs@[q] == (w, id2));
                                }
                                if w == v && id2 == id {
                                    assert(pairs@[p.len() as int] == (w, id2));
                                }
                            }
                        }
                        proof {
                            broadcast use vstd::seq_lib::lemma_seq_contains_after_push;

                            assert(list@.subrange(0, i + 1) =~= list@.subrange(0, i as int).push(id));
                        }
                        i += 1;
                    }
                    assert(list@.subrange(0, list.len() as int) =~= list@);
                    assert forall|w: u64, id: u128|
                        pairs@.contains((w, id)) <==> (before.contains((w, id)) || (w == v && listed_pair(
                            self@,
                            seqs_of(lists@),
                            w,
                            id,
                        ))) by {}
                },
                None => {},
            }
            assert forall|w: u64, id: u128|
                pairs@.contains((w, id)) <==> (listed_pair(self@, seqs_of(lists@), w, id) && among_first(views@, j + 1, w)) by {
                assert(pairs@.contains((w, id)) <==> (before.contains((w, id)) || (w == v && listed_pair(
                    self@,
                    seqs_of(lists@),
                    w,
                    id,
                ))));
                assert(before.contains((w, id)) <==> (listed_pair(self@, seqs_of(lists@), w, id) && among_first(views@, j as int, w)));
                if among_first(views@, j + 1, w) {
                    let k = choose|k: int| 0 <= k < j + 1 && #[trigger] views@[k] == w;
                    if k < j {
                        assert(among_first(views@, j as int, w));
                    }
                }
                if among_first(views@, j as int, w) {
                    let k = choose|k: int| 0 <= k < j && #[trigger] views@[k] == w;
                    assert(0 <= k < j + 1 && views@[k] == w);
                }
                if w == v {
                    assert(views@[j as int] == w);
                }
            }
            j += 1;
        }
        assert forall|v: u64, id: u128| listed_pair(self@, seqs_of(lists@), v, id) implies among_first(views@, j as int, v) by {
            assert(lists@.contains_key(v));
            assert(views@.to_set().contains(v));
        }
        pairs
    }

    /// Every pair of a view and a conversation in memory that is among those
    /// cleared from it.
    pub fn all_cleared_conversations(&self) -> (pairs: Vec<(u64, u128)>)
        ensures
            forall|v: u64, id: u128| pairs@.contains((v, id)) <==> cleared_pair(self@, v, id),
    {
        self.pairs_in_memory(&self.cleared)
    }

    /// Every pair of a view and a conversation in memory that is live in it.
    pub fn all_live_conversations(&self) -> (pairs: Vec<(u64, u128)>)
        ensures
            forall|v: u64, id: u128| pairs@.contains((v, id)) <==> live_pair(self@, v, id),
    {
        self.pairs_in_memory(&self.live)
    }

    /// The conversations whose exchanges make up the query history shown in
    /// `terminal_view_id` (see `QuerySources`); queries from that view are of
    /// the current session, all others of a different one.
    pub fn ai_query_sources(&self, terminal_view_id: Option<u64>) -> (sources: QuerySources)
        ensures
            sources_of(self@, self@.cleared, terminal_view_id, sources.cleared@),
            sources_of(self@, self@.live, terminal_view_id, sources.live@),
    {
        let cleared_pairs = self.all_cleared_conversations();
        let live_pairs = self.all_live_conversations();
        let cleared = sources_from_pairs(&cleared_pairs, terminal_view_id);
        let live = sources_from_pairs(&live_pairs, terminal_view_id);
        assert forall|id: u128, order: HistoryOrder|
            cleared@.contains((id, order)) <==> exists|v: u64|
                #[trigger] listed_pair(self@, self@.cleared, v, id) && order == order_for(terminal_view_id, v) by {
            if cleared@.contains((id, order)) {
                let v = choose|v: u64| #[trigger] cleared_pairs@.contains((v, id)) && order == order_for(terminal_view_id, v);
                assert(cleared_pair(self@, v, id));
            }
            if exists|v: u64| #[trigger] listed_pair(self@, self@.cleared, v, id) && order == order_for(terminal_view_id, v) {
                let v = choose|v: u64| #[trigger] listed_pair(self@, self@.cleared, v, id) && order == order_for(terminal_view_id, v);
                assert(cleared_pair(self@, v, id));
                assert(cleared_pairs@.contains((v, id)));
            }
        }
        assert forall|id: u128, order: HistoryOrder|
            live@.contains((id, order)) <==> exists|v: u64|
                #[trigger] listed_pair(self@, self@.live, v, id) && order == order_for(terminal_view_id, v) by {
            if live@.contains((id, order)) {
                let v = choose|v: u64| #[trigger] live_pairs@.contains((v, id)) && order == order_for(terminal_view_id, v);
                assert(live_pair(self@, v, id));
            }
            if exists|v: u64| #[trigger] listed_pair(self@, self@.live, v, id) && order == order_for(terminal_view_id, v) {
                let v = choose|v: u64| #[trigger] listed_pair(self@, self@.live, v, id) && order == order_for(terminal_view_id, v);
                assert(live_pair(self@, v, id));
                assert(live_pairs@.contains((v, id)));
            }
        }
        QuerySources { cleared, live }
    }

    /// Whether some view lists `conversation_id`, live or cleared.
    pub fn is_conversation_loaded(&self, conversation_id: u128) -> (loaded: bool)
        ensures
            loaded == is_loaded(self@, conversation_id),
    {
        let live = view_listing(&self.live, conversation_id);
        let cleared = view_listing(&self.cleared, conversation_id);
        match (live, cleared) {
            (None, None) => {
                assert forall|v: u64|
                    !(#[trigger] live_in(self@, v).contains(conversation_id) || #[trigger] cleared_in(self@, v).contains(
                        conversation_id,
                    )) by {
                    assert(seqs_of(self.live@).contains_key(v) ==> !seqs_of(self.live@)[v].contains(conversation_id));
                    assert(seqs_of(self.cleared@).contains_key(v) ==> !seqs_of(self.cleared@)[v].contains(
                        conversation_id,
                    ));
                }
                assert(!is_loaded(self@, conversation_id));
                false
            },
            (Some(v), _) => {
                assert(live_in(self@, v).contains(conversation_id) || cleared_in(self@, v).contains(conversation_id));
                assert(is_loaded(self@, conversation_id));
                true
            },
            (None, Some(v)) => {
                assert(live_in(self@, v).contains(conversation_id) || cleared_in(self@, v).contains(conversation_id));
                assert(is_loaded(self@, conversation_id));
                true
            },
        }
    }

    /// Which of the persisted queries, given by their conversations, the
    /// query history lists: those of conversations no view lists (a loaded
    /// conversation's queries come from memory), in their order.
    pub fn persisted_queries_to_show(&self, persisted_conversation_ids: &Vec<u128>) -> (shown: Vec<usize>)
        ensures
            forall|i: int, j: int| 0 <= i < j < shown@.len() ==> shown@[i] < shown@[j],
            forall|a: int| 0 <= a < shown@.len() ==> shown@[a] < persisted_conversation_ids@.len(),
            forall|k: int|
                0 <= k < persisted_conversation_ids@.len() ==> (shown@.contains(k as usize) <==> !is_loaded(
                    self@,
                    #[trigger] persisted_conversation_ids@[k],
                )),
    {
        let mut shown: Vec<usize> = Vec::new();
        let mut i: usize = 0;
        while i < persisted_conversation_ids.len()
            invariant
                i <= persisted_conversation_ids.len(),
                forall|a: int| 0 <= a < shown@.len() ==> shown@[a] < i,
                forall|a: int, b: int| 0 <= a < b < shown@.len() ==> shown@[a] < shown@[b],
                forall|k: int|
                    0 <= k < i ==> (shown@.contains(k as usize) <==> !is_loaded(
                        self@,
                        #[trigger] persisted_conversation_ids@[k],
                    )),
            decreases persisted_conversation_ids.len() - i,
        {
            let ghost before = shown@;
            if !self.is_conversation_loaded(persisted_conversation_ids[i]) {
                shown.push(i);
                assert forall|k: int|
                    0 <= k < i + 1 implies (shown@.contains(k as usize) <==> !is_loaded(
                        self@,
                        #[trigger] persisted_conversation_ids@[k],
                    )) by {
                    if k < i {
                        if shown@.contains(k as usize) {
                            let q = choose|q: int| 0 <= q < shown@.len() && shown@[q] == k as usize;
                            if q < before.len() {
                                assert(before[q] == k as usize);
                            }
                        }
                        if before.contains(k as usize) {
                            let q = choose|q: int| 0 <= q < before.len() && before[q] == k as usize;
                            assert(shown@[q] == k as usize);
                        }
                    } else {
                        assert(shown@[before.len() as int] == i);
                    }
                }
            } else {
                assert forall|k: int|
                    0 <= k < i + 1 implies (shown@.contains(k as usize) <==> !is_loaded(
                        self@,
                        #[trigger] persisted_conversation_ids@[k],
                    )) by {
                    if k == i {
                        if shown@.contains(k as usize) {
                            let q = choose|q: int| 0 <= q < shown@.len() && shown@[q] == k as usize;
                        }
                    }
                }
            }
            i += 1;
        }
        shown
    }

    /// Moves the live conversations of `view` to the end of its cleared list
    /// and forgets its active conversation, which the event reports.
    pub fn clear_conversations_in_terminal_view(&mut self, view: u64, events: &mut Vec<BlocklistAIHistoryEvent>)
        ensures
            final(self)@.conversations == old(self)@.conversations,
            final(self)@.transcript_viewers == old(self)@.transcript_viewers,
            final(self)@.historical == old(self)@.historical,
            final(self)@.active == old(self)@.active.remove(view),
            final(self)@.live == old(self)@.live.remove(view),
            final(self)@.cleared == if old(self)@.live.contains_key(view) {
                old(self)@.cleared.insert(view, cleared_in(old(self)@, view) + old(self)@.live[view])
            } else {
                old(self)@.cleared
            },
            final(events)@.len() == old(events)@.len() + 1,
            final(events)@.drop_last() == old(events)@,
            final(events)@.last() matches BlocklistAIHistoryEvent::ClearedConversationsInTerminalView {
                terminal_view_id,
                active_conversation_id,
                cleared_conversation_ids,
            } && terminal_view_id == view && active_conversation_id == (if old(self)@.active.contains_key(view) {
                Some(old(self)@.active[view])
            } else {
                None
            }) && cleared_conversation_ids@ == live_in(old(self)@, view),
    {
        let active_conversation_id = self.active.remove(&view);
        let mut cleared_conversation_ids: Vec<u128> = Vec::new();
        if self.live.contains_key(&view) {
            let mut live = take_list(&mut self.live, view);
            cleared_conversation_ids = copy_ids(&live);
            let mut cleared = take_list(&mut self.cleared, view);
            cleared.append(&mut live);
            put_list(&mut self.cleared, view, cleared);
            assert(self@.cleared =~= old(self)@.cleared.insert(
                view,
                cleared_in(old(self)@, view) + old(self)@.live[view],
            ));
        }
        let ghost before = events@;
        events.push(
            BlocklistAIHistoryEvent::ClearedConversationsInTerminalView {
                terminal_view_id: view,
                active_conversation_id,
                cleared_conversation_ids,
            },
        );
        assert(events@.drop_last() =~= before);
    }

    /// Takes `conversation_id` out of memory and, when a view is given, out
    /// of that view: as its active conversation and from its lists.
    fn remove_conversation_from_memory(
        &mut self,
        conversation_id: u128,
        view: Option<u64>,
        events: &mut Vec<BlocklistAIHistoryEvent>,
    )
        ensures
            final(self)@.conversations == old(self)@.conversations.remove(conversation_id),
            final(self)@.transcript_viewers == old(self)@.transcript_viewers,
            final(self)@.historical == old(self)@.historical,
            match view {
                None => {
                    &&& final(self)@.live == old(self)@.live
                    &&& final(self)@.cleared == old(self)@.cleared
                    &&& final(self)@.active == old(self)@.active
                    &&& final(events)@ == old(events)@
                },
                Some(v) => {
                    &&& final(self)@.live == retained(old(self)@.live, v, conversation_id)
                    &&& final(self)@.cleared == retained(old(self)@.cleared, v, conversation_id)
                    &&& final(self)@.active == if old(self)@.active.contains_key(v) && old(self)@.active[v]
                        == conversation_id {
                        old(self)@.active.remove(v)
                    } else {
                        old(self)@.active
                    }
                    &&& final(events)@ == old(events)@.push(
                        BlocklistAIHistoryEvent::RemoveConversation { terminal_view_id: v, conversation_id },
                    )
                },
            },
    {
        self.conversations.remove(&conversation_id);
        match view {
            Some(v) => {
                let is_active = match self.active.get(&v) {
                    Some(a) => *a == conversation_id,
                    None => false,
                };
                if is_active {
                    self.active.remove(&v);
                }
                if self.live.contains_key(&v) {
                    let list = take_list(&mut self.live, v);
                    let kept = retain_other(&list, conversation_id);
                    put_list(&mut self.live, v, kept);
                    assert(self@.live =~= retained(old(self)@.live, v, conversation_id));
                }
                if self.cleared.contains_key(&v) {
                    let list = take_list(&mut self.cleared, v);
                    let kept = retain_other(&list, conversation_id);
                    put_list(&mut self.cleared, v, kept);
                    assert(self@.cleared =~= retained(old(self)@.cleared, v, conversation_id));
                }
                events.push(BlocklistAIHistoryEvent::RemoveConversation { terminal_view_id: v, conversation_id });
            },
            None => {},
        }
    }

    /// Removes `conversation_id` from memory and from `view`.
    pub fn remove_conversation(&mut self, conversation_id: u128, view: u64, events: &mut Vec<BlocklistAIHistoryEvent>)
        ensures
            final(self)@.conversations == old(self)@.conversations.remove(conversation_id),
            final(self)@.transcript_viewers == old(self)@.transcript_viewers,
            final(self)@.historical == old(self)@.historical,
            final(self)@.live == retained(old(self)@.live, view, conversation_id),
            final(self)@.cleared == retained(old(self)@.cleared, view, conversation_id),
            final(self)@.active == if old(self)@.active.contains_key(view) && old(self)@.active[view]
                == conversation_id {
                old(self)@.active.remove(view)
            } else {
                old(self)@.active
            },
            final(events)@ == old(events)@.push(
                BlocklistAIHistoryEvent::RemoveConversation { terminal_view_id: view, conversation_id },
            ),
    {
        self.remove_conversation_from_memory(conversation_id, Some(view), events);
    }

    /// Deletes `conversation_id` for good from memory and, when a view is
    /// given, from that view, which is then told by a `DeletedConversation`
    /// after the `RemoveConversation`.
    pub fn delete_conversation(&mut self, conversation_id: u128, view: Option<u64>, events: &mut Vec<BlocklistAIHistoryEvent>)
        ensures
            final(self)@.conversations == old(self)@.conversations.remove(conversation_id),
            final(self)@.transcript_viewers == old(self)@.transcript_viewers,
            final(self)@.historical == old(self)@.historical,
            match view {
                None => {
                    &&& final(self)@.live == old(self)@.live
                    &&& final(self)@.cleared == old(self)@.cleared
                    &&& final(self)@.active == old(self)@.active
                    &&& final(events)@ == old(events)@
                },
                Some(v) => {
                    &&& final(self)@.live == retained(old(self)@.live, v, conversation_id)
                    &&& final(self)@.cleared == retained(old(self)@.cleared, v, conversation_id)
                    &&& final(self)@.active == if old(self)@.active.contains_key(v) && old(self)@.active[v]
                        == conversation_id {
                        old(self)@.active.remove(v)
                    } else {
                        old(self)@.active
                    }
                    &&& final(events)@ == old(events)@.push(
                        BlocklistAIHistoryEvent::RemoveConversation { terminal_view_id: v, conversation_id },
                    ).push(BlocklistAIHistoryEvent::DeletedConversation { terminal_view_id: v, conversation_id })
                },
            },
    {
        self.remove_conversation_from_memory(conversation_id, view, events);
        match view {
            Some(v) => {
                events.push(BlocklistAIHistoryEvent::DeletedConversation { terminal_view_id: v, conversation_id });
            },
            None => {},
        }
    }
}

/// Whether `x` occurs at most once in `s`.
pub open spec fn at_most_once(s: Seq<u128>, x: u128) -> bool {
    forall|i: int, j: int| 0 <= i < s.len() && 0 <= j < s.len() && s[i] == x && s[j] == x ==> i == j
}

/// Activating a conversation in a view that owns it leaves that view its
/// list as it was and makes the conversation its active one; every other
/// view with a live list loses the conversation as its active one, and no
/// longer holds it when its list held it at most once.
pub proof fn law_activation_leaves_one_owner<C>(
    r: RegistryView<C>,
    view: u64,
    conversation_id: u128,
    other: u64,
)
    requires
        owns(r, view, conversation_id),
        other != view,
        at_most_once(live_in(r, other), conversation_id),
    ensures
        live_after_transfer(r.live, view, conversation_id)[view] == r.live[view],
        active_after_transfer(r.active, r.live, view, conversation_id).contains_key(view),
        active_after_transfer(r.active, r.live, view, conversation_id)[view] == conversation_id,
        r.live.contains_key(other) ==> !live_after_transfer(r.live, view, conversation_id)[other].contains(
            conversation_id,
        ),
        r.live.contains_key(other) ==> !(active_after_transfer(r.active, r.live, view, conversation_id).contains_key(
            other,
        ) && active_after_transfer(r.active, r.live, view, conversation_id)[other] == conversation_id),
{
    let c = conversation_id;
    if r.live.contains_key(other) && r.live[other].contains(c) {
        let s = r.live[other];
        let i = choose|i: int| 0 <= i < s.len() && s[i] == c;
        assert(is_first_index(s, c, i));
        lemma_first_index(s, c, i);
        let t = s.remove(i);
        assert(live_after_transfer(r.live, view, c)[other] == t);
        assert forall|p: int| 0 <= p < t.len() implies t[p] != c by {
            if p < i {
                assert(t[p] == s[p]);
            } else {
                assert(t[p] == s[p + 1]);
            }
        }
    }
}

/// Removing a conversation from a view leaves it on none of that view's
/// lists.
pub proof fn law_removed_conversation_leaves_the_view<C>(r: RegistryView<C>, view: u64, conversation_id: u128)
    ensures
        retained(r.live, view, conversation_id).contains_key(view) ==> !retained(r.live, view, conversation_id)[view].contains(
            conversation_id,
        ),
        retained(r.cleared, view, conversation_id).contains_key(view) ==> !retained(
            r.cleared,
            view,
            conversation_id,
        )[view].contains(conversation_id),
{
    broadcast use vstd::seq_lib::group_filter_ensures;

}

} // verus!
