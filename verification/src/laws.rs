//! What holds of the normalizer for every state and every event.

use crate::entry::{plain_entry, ConversationPatchView, EmissionView, NormalizedEntryTypeView};
use crate::normalize::{
    closed_slots, initial_state, run_spec, slot_patch, step_spec, tool_call_step, NormalizerView,
    StreamingTextView,
};
use crate::protocol::{AcpEventView, ContentBlockView, ToolCallStatus, ToolCallView, ToolKind};
use crate::tool_call::{extended, PartialToolCallView};
use vstd::prelude::*;

verus! {

/// The emission adds an entry.
pub open spec fn is_addition(e: EmissionView) -> bool {
    e matches EmissionView::Patch(p) && p is Add
}

/// The emission replaces an entry.
pub open spec fn is_replacement(e: EmissionView) -> bool {
    e matches EmissionView::Patch(p) && p is Replace
}

/// The index that the emission writes, for a patch.
pub open spec fn written_index(e: EmissionView) -> nat {
    match e {
        EmissionView::Patch(p) => p.index(),
        EmissionView::SessionId(_) => 0,
    }
}

/// Every index that the state holds, of a tool call or of an open slot, is
/// below `next`.
pub open spec fn in_use_below(st: NormalizerView, next: nat) -> bool {
    &&& forall|id: Seq<char>| #[trigger]
        st.tools.contains_key(id) ==> st.tools[id].index < next
    &&& st.streaming.assistant_text matches Some(s) ==> s.index < next
    &&& st.streaming.thinking_text matches Some(s) ==> s.index < next
}

/// At most one of the two streaming slots is open.
pub open spec fn at_most_one_open(st: NormalizerView) -> bool {
    st.streaming.assistant_text is None || st.streaming.thinking_text is None
}

/// The events that stream the given texts as chunks of the assistant's
/// message.
pub open spec fn message_events(texts: Seq<Seq<char>>) -> Seq<AcpEventView> {
    texts.map_values(|t: Seq<char>| AcpEventView::Message(ContentBlockView::Text(t)))
}

/// The events that stream the given texts as chunks of the assistant's
/// thinking.
pub open spec fn thought_events(texts: Seq<Seq<char>>) -> Seq<AcpEventView> {
    texts.map_values(|t: Seq<char>| AcpEventView::Thought(ContentBlockView::Text(t)))
}

/// The given texts, one after the other.
pub open spec fn joined(texts: Seq<Seq<char>>) -> Seq<char>
    decreases texts.len(),
{
    if texts.len() == 0 {
        Seq::empty()
    } else {
        joined(texts.drop_last()) + texts.last()
    }
}

/// The text of a slot; empty for a closed slot.
pub open spec fn slot_text(slot: Option<StreamingTextView>) -> Seq<char> {
    match slot {
        Some(s) => s.content,
        None => Seq::empty(),
    }
}

/// The index of a slot; `next` for a closed slot, which is the index that it
/// opens at.
pub open spec fn slot_index(slot: Option<StreamingTextView>, next: nat) -> nat {
    match slot {
        Some(s) => s.index,
        None => next,
    }
}

/// A tool call keeps the index that it was given: no event changes the index
/// of a tool call that the table holds, and none removes it.
pub proof fn law_tool_index_is_stable(
    st: NormalizerView,
    next: nat,
    event: AcpEventView,
    id: Seq<char>,
)
    requires
        st.tools.contains_key(id),
    ensures
        step_spec(st, next, event).state.tools.contains_key(id),
        step_spec(st, next, event).state.tools[id].index == st.tools[id].index,
{
}

/// The same over any list of events.
pub proof fn law_tool_index_is_stable_over_runs(
    st: NormalizerView,
    next: nat,
    events: Seq<AcpEventView>,
    id: Seq<char>,
)
    requires
        st.tools.contains_key(id),
    ensures
        run_spec(st, next, events).0.tools.contains_key(id),
        run_spec(st, next, events).0.tools[id].index == st.tools[id].index,
    decreases events.len(),
{
    if events.len() > 0 {
        law_tool_index_is_stable_over_runs(st, next, events.drop_last(), id);
        let (before, index, _) = run_spec(st, next, events.drop_last());
        law_tool_index_is_stable(before, index, events.last(), id);
    }
}

/// Every patch for a tool call is written at the index that the table holds
/// for the tool call: the first one adds the entry at the index drawn for
/// it, every later one replaces the entry at that same index.
pub proof fn law_tool_patches_share_one_index(st: NormalizerView, next: nat, tc: ToolCallView)
    ensures
        ({
            let s = tool_call_step(st, next, tc);
            &&& s.state.tools.contains_key(tc.id)
            &&& s.emission is Some
            &&& written_index(s.emission->0) == s.state.tools[tc.id].index
            &&& st.tools.contains_key(tc.id) ==> is_replacement(s.emission->0) && written_index(
                s.emission->0,
            ) == st.tools[tc.id].index && s.next_index == next
            &&& !st.tools.contains_key(tc.id) ==> is_addition(s.emission->0) && written_index(
                s.emission->0,
            ) == next && s.next_index == next + 1
        }),
{
}

/// An addition is written at the index drawn from the provider, which then
/// moves on by one; nothing else draws an index.
pub proof fn law_additions_draw_fresh_indices(st: NormalizerView, next: nat, event: AcpEventView)
    ensures
        ({
            let s = step_spec(st, next, event);
            if s.emission is Some && is_addition(s.emission->0) {
                written_index(s.emission->0) == next && s.next_index == next + 1
            } else {
                s.next_index == next
            }
        }),
{
}

/// Indices in use stay below the provider's next index, and a replacement is
/// written at an index in use, so that no index drawn later, by this
/// normalizer or by another writer that shares the provider, collides with
/// an entry of this one.
pub proof fn law_indices_in_use_stay_below(st: NormalizerView, next: nat, event: AcpEventView)
    requires
        in_use_below(st, next),
    ensures
        ({
            let s = step_spec(st, next, event);
            &&& in_use_below(s.state, s.next_index)
            &&& forall|later: nat| later >= s.next_index ==> in_use_below(s.state, later)
            &&& s.emission is Some && is_replacement(s.emission->0) ==> written_index(
                s.emission->0,
            ) < next
        }),
{
    let s = step_spec(st, next, event);
    assert forall|id: Seq<char>| #[trigger] s.state.tools.contains_key(id) implies s.state.tools[id].index
        < s.next_index by {
        if st.tools.contains_key(id) {
            law_tool_index_is_stable(st, next, event, id);
        }
    }
}

/// Over any list of events, the additions are written at strictly
/// increasing indices, all of them drawn between the provider's index at
/// the start and its index at the end.
pub proof fn law_added_indices_increase(st: NormalizerView, next: nat, events: Seq<AcpEventView>)
    ensures
        ({
            let (_, end, out) = run_spec(st, next, events);
            &&& next <= end
            &&& forall|i: int|
                0 <= i < out.len() && is_addition(#[trigger] out[i]) ==> next <= written_index(
                    out[i],
                ) < end
            &&& forall|i: int, j: int|
                0 <= i < j < out.len() && is_addition(#[trigger] out[i]) && is_addition(
                    #[trigger] out[j],
                ) ==> written_index(out[i]) < written_index(out[j])
        }),
    decreases events.len(),
{
    if events.len() > 0 {
        law_added_indices_increase(st, next, events.drop_last());
        let (before, index, _) = run_spec(st, next, events.drop_last());
        law_additions_draw_fresh_indices(before, index, events.last());
    }
}

/// Over any list of events, indices in use stay below the provider's next
/// index.
pub proof fn law_indices_in_use_stay_below_over_runs(
    st: NormalizerView,
    next: nat,
    events: Seq<AcpEventView>,
)
    requires
        in_use_below(st, next),
    ensures
        in_use_below(run_spec(st, next, events).0, run_spec(st, next, events).1),
    decreases events.len(),
{
    if events.len() > 0 {
        law_indices_in_use_stay_below_over_runs(st, next, events.drop_last());
        let (before, index, _) = run_spec(st, next, events.drop_last());
        law_indices_in_use_stay_below(before, index, events.last());
    }
}

/// At most one streaming slot is open at any time: a chunk of one kind
/// closes the slot of the other kind.
pub proof fn law_at_most_one_slot_open(st: NormalizerView, next: nat, event: AcpEventView)
    requires
        at_most_one_open(st),
    ensures
        at_most_one_open(step_spec(st, next, event).state),
        event is Message ==> step_spec(st, next, event).state.streaming.thinking_text is None,
        event is Thought ==> step_spec(st, next, event).state.streaming.assistant_text is None,
{
}

/// From the start, over any list of events: at most one streaming slot is
/// open, and every index in use is below the provider's next index.
pub proof fn law_runs_keep_the_state_in_order(next: nat, events: Seq<AcpEventView>)
    ensures
        at_most_one_open(run_spec(initial_state(), next, events).0),
        in_use_below(
            run_spec(initial_state(), next, events).0,
            run_spec(initial_state(), next, events).1,
        ),
    decreases events.len(),
{
    law_indices_in_use_stay_below_over_runs(initial_state(), next, events);
    if events.len() > 0 {
        law_runs_keep_the_state_in_order(next, events.drop_last());
        let (before, index, _) = run_spec(initial_state(), next, events.drop_last());
        law_at_most_one_slot_open(before, index, events.last());
    }
}

/// A run of text chunks of the assistant's message yields one patch for
/// each chunk, all at one index: the index of the slot if it was open, else
/// the index drawn for it. The patch for a chunk shows the slot's earlier
/// text followed by all chunks up to that one; it is an addition only for
/// the first chunk of a run that opens the slot, else a replacement. At the end the slot holds the whole
/// text.
pub proof fn law_message_run_concatenates(st: NormalizerView, next: nat, texts: Seq<Seq<char>>)
    requires
        texts.len() > 0,
    ensures
        ({
            let (end, end_index, out) = run_spec(st, next, message_events(texts));
            let slot = st.streaming.assistant_text;
            let index = slot_index(slot, next);
            &&& out.len() == texts.len()
            &&& end_index == (if slot is None {
                next + 1
            } else {
                next
            })
            &&& end.streaming.assistant_text == Some(
                StreamingTextView { index, content: slot_text(slot) + joined(texts) },
            )
            &&& end.streaming.thinking_text is None
            &&& end.tools == st.tools
            &&& forall|k: int|
                0 <= k < out.len() ==> #[trigger] out[k] == slot_patch(
                    StreamingTextView {
                        index,
                        content: slot_text(slot) + joined(texts.take(k + 1)),
                    },
                    k == 0 && slot is None,
                    NormalizedEntryTypeView::AssistantMessage,
                )
        }),
    decreases texts.len(),
{
    let events = message_events(texts);
    let slot = st.streaming.assistant_text;
    assert(events.drop_last() =~= message_events(texts.drop_last()));
    assert(events.last() == AcpEventView::Message(ContentBlockView::Text(texts.last())));
    if texts.len() == 1 {
        assert(texts.drop_last() =~= Seq::<Seq<char>>::empty());
        assert(joined(texts.drop_last()) =~= Seq::<char>::empty());
        assert(joined(texts) =~= texts.last());
        assert(texts.take(1) =~= texts);
        assert(slot_text(slot) + joined(texts) =~= slot_text(slot) + texts.last());
        assert(Seq::<char>::empty() + texts.last() =~= texts.last());
    } else {
        let front = texts.drop_last();
        law_message_run_concatenates(st, next, front);
        let (before, index, out) = run_spec(st, next, message_events(front));
        assert((slot_text(slot) + joined(front)) + texts.last() =~= slot_text(slot) + joined(
            texts,
        ));
        let (_, _, all) = run_spec(st, next, events);
        assert forall|k: int| 0 <= k < all.len() implies #[trigger] all[k] == slot_patch(
            StreamingTextView {
                index: slot_index(slot, next),
                content: slot_text(slot) + joined(texts.take(k + 1)),
            },
            k == 0 && slot is None,
            NormalizedEntryTypeView::AssistantMessage,
        ) by {
            if k < out.len() {
                assert(all[k] == out[k]);
                assert(front.take(k + 1) =~= texts.take(k + 1));
            } else {
                assert(texts.take(k + 1) =~= texts);
            }
        }
    }
}

/// The same for a run of text chunks of the assistant's thinking.
pub proof fn law_thought_run_concatenates(st: NormalizerView, next: nat, texts: Seq<Seq<char>>)
    requires
        texts.len() > 0,
    ensures
        ({
            let (end, end_index, out) = run_spec(st, next, thought_events(texts));
            let slot = st.streaming.thinking_text;
            let index = slot_index(slot, next);
            &&& out.len() == texts.len()
            &&& end_index == (if slot is None {
                next + 1
            } else {
                next
            })
            &&& end.streaming.thinking_text == Some(
                StreamingTextView { index, content: slot_text(slot) + joined(texts) },
            )
            &&& end.streaming.assistant_text is None
            &&& end.tools == st.tools
            &&& forall|k: int|
                0 <= k < out.len() ==> #[trigger] out[k] == slot_patch(
                    StreamingTextView {
                        index,
                        content: slot_text(slot) + joined(texts.take(k + 1)),
                    },
                    k == 0 && slot is None,
                    NormalizedEntryTypeView::Thinking,
                )
        }),
    decreases texts.len(),
{
    let events = thought_events(texts);
    let slot = st.streaming.thinking_text;
    assert(events.drop_last() =~= thought_events(texts.drop_last()));
    assert(events.last() == AcpEventView::Thought(ContentBlockView::Text(texts.last())));
    if texts.len() == 1 {
        assert(texts.drop_last() =~= Seq::<Seq<char>>::empty());
        assert(joined(texts.drop_last()) =~= Seq::<char>::empty());
        assert(joined(texts) =~= texts.last());
        assert(texts.take(1) =~= texts);
        assert(slot_text(slot) + joined(texts) =~= slot_text(slot) + texts.last());
        assert(Seq::<char>::empty() + texts.last() =~= texts.last());
    } else {
        let front = texts.drop_last();
        law_thought_run_concatenates(st, next, front);
        let (before, index, out) = run_spec(st, next, thought_events(front));
        assert((slot_text(slot) + joined(front)) + texts.last() =~= slot_text(slot) + joined(
            texts,
        ));
        let (_, _, all) = run_spec(st, next, events);
        assert forall|k: int| 0 <= k < all.len() implies #[trigger] all[k] == slot_patch(
            StreamingTextView {
                index: slot_index(slot, next),
                content: slot_text(slot) + joined(texts.take(k + 1)),
            },
            k == 0 && slot is None,
            NormalizedEntryTypeView::Thinking,
        ) by {
            if k < out.len() {
                assert(all[k] == out[k]);
                assert(front.take(k + 1) =~= texts.take(k + 1));
            } else {
                assert(texts.take(k + 1) =~= texts);
            }
        }
    }
}

/// The end of a turn closes both streaming slots and emits nothing; the
/// next text chunk of the assistant's message then opens a new entry, at the
/// next index, that holds just that chunk.
pub proof fn law_done_closes_both_slots(
    st: NormalizerView,
    next: nat,
    reason: Seq<char>,
    text: Seq<char>,
)
    ensures
        ({
            let done = step_spec(st, next, AcpEventView::Done(reason));
            let after = step_spec(
                done.state,
                done.next_index,
                AcpEventView::Message(ContentBlockView::Text(text)),
            );
            &&& done.state.streaming == closed_slots()
            &&& done.state.tools == st.tools
            &&& done.emission is None
            &&& done.next_index == next
            &&& after.emission == Some(
                EmissionView::Patch(
                    ConversationPatchView::Add {
                        index: next,
                        entry: plain_entry(NormalizedEntryTypeView::AssistantMessage, text),
                    },
                ),
            )
            &&& after.next_index == next + 1
        }),
{
}

/// The session id is announced once: by the first `SessionStart`, and by no
/// event after it.
pub proof fn law_session_id_announced_once(st: NormalizerView, next: nat, event: AcpEventView)
    ensures
        ({
            let s = step_spec(st, next, event);
            &&& (s.emission is Some && s.emission->0 is SessionId) <==> (event is SessionStart
                && !st.stored_session_id)
            &&& st.stored_session_id ==> s.state.stored_session_id
            &&& event is SessionStart ==> s.state.stored_session_id
        }),
{
}

/// A snapshot in which nothing is specified: no title, no content, no
/// location, no raw input or output, kind and status "not specified".
pub open spec fn unspecified(id: Seq<char>) -> ToolCallView {
    ToolCallView {
        id,
        title: Seq::empty(),
        kind: ToolKind::Other,
        status: ToolCallStatus::Pending,
        content: Seq::empty(),
        locations: Seq::empty(),
        raw_input: None,
        raw_output: None,
    }
}

/// Merging never overwrites with defaults: a snapshot in which nothing is
/// specified changes nothing of a record but its id.
pub proof fn law_defaults_never_overwrite(p: PartialToolCallView, id: Seq<char>)
    ensures
        extended(p, unspecified(id)) == (PartialToolCallView { id, ..p }),
{
}

/// Merging never touches the index, and merging the same snapshot twice is
/// the same as merging it once.
pub proof fn law_merge_is_idempotent(p: PartialToolCallView, tc: ToolCallView)
    ensures
        extended(p, tc).index == p.index,
        extended(extended(p, tc), tc) == extended(p, tc),
{
}

/// What a snapshot specifies, the record takes: a field of the snapshot that
/// is not empty, absent or "not specified" is the record's field afterwards.
pub proof fn law_merge_takes_what_is_specified(p: PartialToolCallView, tc: ToolCallView)
    ensures
        extended(p, tc).id == tc.id,
        tc.kind != ToolKind::Other ==> extended(p, tc).kind == tc.kind,
        tc.status != ToolCallStatus::Pending ==> extended(p, tc).status == tc.status,
        tc.title.len() > 0 ==> extended(p, tc).title == tc.title,
        tc.content.len() > 0 ==> extended(p, tc).content == tc.content,
        tc.locations.len() > 0 ==> extended(p, tc).path == Some(tc.locations[0]),
        tc.raw_input is Some ==> extended(p, tc).raw_input == tc.raw_input,
        tc.raw_output is Some ==> extended(p, tc).raw_output == tc.raw_output,
{
}

} // verus!
