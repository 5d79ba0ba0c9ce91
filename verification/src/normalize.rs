//! The log normalizer: a state machine that turns the events of a session
//! log into patches of the conversation.
//!
//! The state holds the two streaming slots (assistant text and thinking
//! text) and the table of tool calls by id. [`step_spec`] is the transition
//! function; [`Normalizer::step`] computes it, and [`normalize_logs`] folds
//! it over a list of events.

use crate::entry::{
    emission_views, opt_emission, plain_entry, ConversationPatch, ConversationPatchView, Emission,
    EmissionView, EntryIndexProvider, NormalizedEntry, NormalizedEntryType, NormalizedEntryTypeView,
};
use crate::protocol::{
    command_views, event_views, tool_call_from_update, AcpEvent, AcpEventView, AvailableCommand,
    ContentBlock, ContentBlockView, Plan, ToolCall, ToolCallUpdate, ToolCallUpdateFieldsView,
    ToolCallUpdateView, ToolCallView,
};
use crate::text::{decimal, decimal_string};
use crate::tool_call::{
    empty_record, extended, tool_entry, tool_use_entry, PartialToolCallData, PartialToolCallView,
};
use vstd::hash_map::StringHashMap;
use vstd::prelude::*;

verus! {

/// An open streaming slot: the index of its conversation entry and the text
/// received so far.
#[derive(Debug, Clone, PartialEq)]
pub struct StreamingText {
    pub index: usize,
    pub content: String,
}

/// View of [`StreamingText`]: every string is the sequence of its characters.
pub struct StreamingTextView {
    pub index: nat,
    pub content: Seq<char>,
}

impl View for StreamingText {
    type V = StreamingTextView;

    open spec fn view(&self) -> StreamingTextView {
        StreamingTextView { index: self.index as nat, content: self.content@ }
    }
}

/// Views of an optional slot.
pub open spec fn opt_slot(o: Option<StreamingText>) -> Option<StreamingTextView> {
    match o {
        Some(s) => Some(s@),
        None => None,
    }
}

/// The two streaming slots.
#[derive(Debug, Clone, PartialEq)]
pub struct StreamingState {
    pub assistant_text: Option<StreamingText>,
    pub thinking_text: Option<StreamingText>,
}

/// View of [`StreamingState`]: every string is the sequence of its characters.
pub struct StreamingStateView {
    pub assistant_text: Option<StreamingTextView>,
    pub thinking_text: Option<StreamingTextView>,
}

impl View for StreamingState {
    type V = StreamingStateView;

    open spec fn view(&self) -> StreamingStateView {
        StreamingStateView {
            assistant_text: opt_slot(self.assistant_text),
            thinking_text: opt_slot(self.thinking_text),
        }
    }
}

impl Default for StreamingState {
    fn default() -> (r: Self)
        ensures
            r@ == closed_slots(),
    {
        StreamingState { assistant_text: None, thinking_text: None }
    }
}

/// Both slots closed.
pub open spec fn closed_slots() -> StreamingStateView {
    StreamingStateView { assistant_text: None, thinking_text: None }
}

/// State of the normalizer.
#[verifier::ext_equal]
pub struct NormalizerView {
    /// Whether the session id has been announced.
    pub stored_session_id: bool,
    pub streaming: StreamingStateView,
    /// The tool calls seen so far, by id.
    pub tools: Map<Seq<char>, PartialToolCallView>,
}

/// The state before any event.
pub open spec fn initial_state() -> NormalizerView {
    NormalizerView { stored_session_id: false, streaming: closed_slots(), tools: Map::empty() }
}

/// Outcome of one transition: the state after it, the index that the
/// provider hands out next, and what goes to the message store.
#[verifier::ext_equal]
pub struct StepResult {
    pub state: NormalizerView,
    pub next_index: nat,
    pub emission: Option<EmissionView>,
}

/// The body of the entry that shows a plan: a heading and one numbered line
/// for each step.
pub open spec fn plan_body(entries: Seq<Seq<char>>) -> Seq<char>
    decreases entries.len(),
{
    if entries.len() == 0 {
        "Plan:\n"@
    } else {
        plan_body(entries.drop_last()) + decimal(entries.len()) + ". "@ + entries.last() + "\n"@
    }
}

/// The body of the entry that lists the available commands: a heading and
/// one line for each name.
pub open spec fn commands_body(names: Seq<Seq<char>>) -> Seq<char>
    decreases names.len(),
{
    if names.len() == 0 {
        "Available commands:\n"@
    } else {
        commands_body(names.drop_last()) + "- "@ + names.last() + "\n"@
    }
}

/// The body of the entry that reports a mode switch.
pub open spec fn mode_body(mode_id: Seq<char>) -> Seq<char> {
    "Current mode: "@ + mode_id
}

/// The transition that adds one entry at the next index and leaves the
/// tool table as it is.
pub open spec fn add_entry(
    st: NormalizerView,
    next: nat,
    entry_type: NormalizedEntryTypeView,
    content: Seq<char>,
) -> StepResult {
    StepResult {
        state: st,
        next_index: next + 1,
        emission: Some(
            EmissionView::Patch(
                ConversationPatchView::Add { index: next, entry: plain_entry(entry_type, content) },
            ),
        ),
    }
}

/// The transition that changes nothing.
pub open spec fn no_change(st: NormalizerView, next: nat) -> StepResult {
    StepResult { state: st, next_index: next, emission: None }
}

/// The state with both slots closed.
pub open spec fn with_closed_slots(st: NormalizerView) -> NormalizerView {
    NormalizerView { streaming: closed_slots(), ..st }
}

/// A chunk of streamed text arrives at a slot: a closed slot opens at the
/// next index with the chunk as its text, an open slot appends the chunk.
/// The result is the slot afterwards and whether it was opened.
pub open spec fn stream_chunk(slot: Option<StreamingTextView>, next: nat, text: Seq<char>) -> (
    StreamingTextView,
    bool,
) {
    match slot {
        Some(s) => (StreamingTextView { index: s.index, content: s.content + text }, false),
        None => (StreamingTextView { index: next, content: text }, true),
    }
}

/// The patch that shows a slot: an addition when the slot was just opened,
/// a replacement otherwise.
pub open spec fn slot_patch(
    slot: StreamingTextView,
    opened: bool,
    entry_type: NormalizedEntryTypeView,
) -> EmissionView {
    let entry = plain_entry(entry_type, slot.content);
    EmissionView::Patch(
        if opened {
            ConversationPatchView::Add { index: slot.index, entry }
        } else {
            ConversationPatchView::Replace { index: slot.index, entry }
        },
    )
}

/// A chunk of the assistant's message. It closes the thinking slot; only a
/// text block changes the assistant slot.
pub open spec fn message_step(st: NormalizerView, next: nat, block: ContentBlockView)
    -> StepResult {
    match block {
        ContentBlockView::Text(text) => {
            let (slot, opened) = stream_chunk(st.streaming.assistant_text, next, text);
            StepResult {
                state: NormalizerView {
                    streaming: StreamingStateView {
                        assistant_text: Some(slot),
                        thinking_text: None,
                    },
                    ..st
                },
                next_index: if opened {
                    next + 1
                } else {
                    next
                },
                emission: Some(
                    slot_patch(slot, opened, NormalizedEntryTypeView::AssistantMessage),
                ),
            }
        },
        _ => StepResult {
            state: NormalizerView {
                streaming: StreamingStateView {
                    assistant_text: st.streaming.assistant_text,
                    thinking_text: None,
                },
                ..st
            },
            next_index: next,
            emission: None,
        },
    }
}

/// A chunk of the assistant's thinking. It closes the assistant slot; only a
/// text block changes the thinking slot.
pub open spec fn thought_step(st: NormalizerView, next: nat, block: ContentBlockView)
    -> StepResult {
    match block {
        ContentBlockView::Text(text) => {
            let (slot, opened) = stream_chunk(st.streaming.thinking_text, next, text);
            StepResult {
                state: NormalizerView {
                    streaming: StreamingStateView {
                        assistant_text: None,
                        thinking_text: Some(slot),
                    },
                    ..st
                },
                next_index: if opened {
                    next + 1
                } else {
                    next
                },
                emission: Some(slot_patch(slot, opened, NormalizedEntryTypeView::Thinking)),
            }
        },
        _ => StepResult {
            state: NormalizerView {
                streaming: StreamingStateView {
                    assistant_text: None,
                    thinking_text: st.streaming.thinking_text,
                },
                ..st
            },
            next_index: next,
            emission: None,
        },
    }
}

/// A snapshot of a tool call arrives. Both slots close. A tool call that is
/// seen for the first time gets the next index and an addition; one that is
/// known keeps its index and gets a replacement. Either way the snapshot is
/// merged into the record.
pub open spec fn tool_call_step(st: NormalizerView, next: nat, tc: ToolCallView) -> StepResult {
    let is_new = !st.tools.contains_key(tc.id);
    let merged = extended(
        if is_new {
            empty_record()
        } else {
            st.tools[tc.id]
        },
        tc,
    );
    let record = if is_new {
        PartialToolCallView { index: next, ..merged }
    } else {
        merged
    };
    StepResult {
        state: NormalizerView {
            stored_session_id: st.stored_session_id,
            streaming: closed_slots(),
            tools: st.tools.insert(tc.id, record),
        },
        next_index: if is_new {
            next + 1
        } else {
            next
        },
        emission: Some(
            EmissionView::Patch(
                if is_new {
                    ConversationPatchView::Add { index: record.index, entry: tool_entry(record) }
                } else {
                    ConversationPatchView::Replace {
                        index: record.index,
                        entry: tool_entry(record),
                    }
                },
            ),
        ),
    }
}

/// An update with its title filled in: an update without a title takes the
/// title that the table holds for its id, or the empty title.
pub open spec fn with_known_title(
    u: ToolCallUpdateView,
    tools: Map<Seq<char>, PartialToolCallView>,
) -> ToolCallUpdateView {
    if u.fields.title is Some {
        u
    } else {
        ToolCallUpdateView {
            id: u.id,
            fields: ToolCallUpdateFieldsView {
                title: Some(
                    if tools.contains_key(u.id) {
                        tools[u.id].title
                    } else {
                        Seq::empty()
                    },
                ),
                ..u.fields
            },
        }
    }
}

/// An update that stands for a tool call is handled as that tool call; any
/// other update is dropped.
pub open spec fn update_step(st: NormalizerView, next: nat, u: ToolCallUpdateView) -> StepResult {
    match tool_call_from_update(u) {
        Some(tc) => tool_call_step(st, next, tc),
        None => no_change(st, next),
    }
}

/// The transition function of the normalizer.
pub open spec fn step_spec(st: NormalizerView, next: nat, event: AcpEventView) -> StepResult {
    match event {
        AcpEventView::SessionStart(id) => if st.stored_session_id {
            no_change(st, next)
        } else {
            StepResult {
                state: NormalizerView { stored_session_id: true, ..st },
                next_index: next,
                emission: Some(EmissionView::SessionId(id)),
            }
        },
        AcpEventView::Error(message) => add_entry(
            st,
            next,
            NormalizedEntryTypeView::ErrorMessage,
            message,
        ),
        AcpEventView::Done(_) => no_change(with_closed_slots(st), next),
        AcpEventView::Message(block) => message_step(st, next, block),
        AcpEventView::Thought(block) => thought_step(st, next, block),
        AcpEventView::Plan(entries) => add_entry(
            with_closed_slots(st),
            next,
            NormalizedEntryTypeView::SystemMessage,
            plan_body(entries),
        ),
        AcpEventView::AvailableCommands(names) => add_entry(
            st,
            next,
            NormalizedEntryTypeView::SystemMessage,
            commands_body(names),
        ),
        AcpEventView::CurrentMode(mode_id) => add_entry(
            with_closed_slots(st),
            next,
            NormalizedEntryTypeView::SystemMessage,
            mode_body(mode_id),
        ),
        AcpEventView::RequestPermission(u) => update_step(st, next, u),
        AcpEventView::ToolCall(tc) => tool_call_step(st, next, tc),
        AcpEventView::ToolUpdate(u) => update_step(st, next, with_known_title(u, st.tools)),
        AcpEventView::User(_) => no_change(st, next),
        AcpEventView::Other => no_change(st, next),
    }
}

/// The transitions of a list of events, one after the other: the state and
/// the next index at the end, and everything that went to the message store.
pub open spec fn run_spec(st: NormalizerView, next: nat, events: Seq<AcpEventView>) -> (
    NormalizerView,
    nat,
    Seq<EmissionView>,
)
    decreases events.len(),
{
    if events.len() == 0 {
        (st, next, Seq::empty())
    } else {
        let (before, index, out) = run_spec(st, next, events.drop_last());
        let last = step_spec(before, index, events.last());
        (
            last.state,
            last.next_index,
            match last.emission {
                Some(e) => out.push(e),
                None => out,
            },
        )
    }
}

/// Writes the body of the entry that shows a plan.
pub fn render_plan(plan: &Plan) -> (r: String)
    ensures
        r@ == plan_body(plan@),
{
    let mut body = "Plan:\n".to_owned();
    let mut i: usize = 0;
    while i < plan.entries.len()
        invariant
            i <= plan.entries.len(),
            body@ == plan_body(plan@.take(i as int)),
        decreases plan.entries.len() - i,
    {
        proof {
            assert(plan@.take(i + 1).drop_last() =~= plan@.take(i as int));
            assert(plan@.take(i + 1).last() == plan.entries@[i as int]@);
        }
        let number = decimal_string(i + 1);
        body.append(number.as_str());
        body.append(". ");
        body.append(plan.entries[i].content.as_str());
        body.append("\n");
        i = i + 1;
    }
    assert(plan@.take(plan.entries.len() as int) =~= plan@);
    body
}

/// Writes the body of the entry that lists the available commands.
pub fn render_commands(commands: &Vec<AvailableCommand>) -> (r: String)
    ensures
        r@ == commands_body(command_views(commands@)),
{
    let ghost names = command_views(commands@);
    let mut body = "Available commands:\n".to_owned();
    let mut i: usize = 0;
    while i < commands.len()
        invariant
            i <= commands.len(),
            names == command_views(commands@),
            body@ == commands_body(names.take(i as int)),
        decreases commands.len() - i,
    {
        proof {
            assert(names.take(i + 1).drop_last() =~= names.take(i as int));
            assert(names.take(i + 1).last() == commands@[i as int]@);
        }
        body.append("- ");
        body.append(commands[i].name.as_str());
        body.append("\n");
        i = i + 1;
    }
    assert(names.take(commands.len() as int) =~= names);
    body
}

/// Writes the body of the entry that reports a mode switch.
pub fn render_mode(mode_id: &str) -> (r: String)
    ensures
        r@ == mode_body(mode_id@),
{
    let mut body = "Current mode: ".to_owned();
    body.append(mode_id);
    body
}

/// The log normalizer.
pub struct Normalizer {
    stored_session_id: bool,
    streaming: StreamingState,
    tool_states: StringHashMap<PartialToolCallData>,
}

impl View for Normalizer {
    type V = NormalizerView;

    closed spec fn view(&self) -> NormalizerView {
        NormalizerView {
            stored_session_id: self.stored_session_id,
            streaming: self.streaming@,
            tools: self.tool_states@.map_values(|p: PartialToolCallData| p@),
        }
    }
}

impl Normalizer {
    /// A normalizer that has seen no event.
    pub fn new() -> (r: Normalizer)
        ensures
            r@ == initial_state(),
    {
        let r = Normalizer {
            stored_session_id: false,
            streaming: StreamingState::default(),
            tool_states: StringHashMap::new(),
        };
        assert(r@.tools =~= Map::empty());
        r
    }

    /// Whether the session id has been announced.
    pub fn has_session_id(&self) -> (r: bool)
        ensures
            r == self@.stored_session_id,
    {
        self.stored_session_id
    }

    /// The index of the conversation entry of a tool call, if the tool call
    /// is known.
    pub fn tool_index(&self, id: &str) -> (r: Option<usize>)
        ensures
            match r {
                Some(i) => self@.tools.contains_key(id@) && self@.tools[id@].index == i,
                None => !self@.tools.contains_key(id@),
            },
    {
        match self.tool_states.get(id) {
            Some(record) => Some(record.index),
            None => None,
        }
    }

    /// Adds one entry at the next index.
    fn add(index: &mut EntryIndexProvider, entry_type: NormalizedEntryType, content: String) -> (r:
        Emission)
        requires
            old(index)@ < usize::MAX,
        ensures
            final(index)@ == old(index)@ + 1,
            r@ == EmissionView::Patch(
                ConversationPatchView::Add {
                    index: old(index)@,
                    entry: plain_entry(entry_type@, content@),
                },
            ),
    {
        let i = index.next();
        Emission::Patch(
            ConversationPatch::add_normalized_entry(i, NormalizedEntry::plain(entry_type, content)),
        )
    }

    /// Handles a chunk of the assistant's message.
    fn handle_message(&mut self, index: &mut EntryIndexProvider, block: &ContentBlock) -> (r:
        Option<Emission>)
        requires
            old(index)@ < usize::MAX,
        ensures
            ({
                let s = message_step(old(self)@, old(index)@, block@);
                &&& final(self)@ == s.state
                &&& final(index)@ == s.next_index
                &&& opt_emission(r) == s.emission
            }),
    {
        self.streaming.thinking_text = None;
        match block {
            ContentBlock::Text(text) => {
                let (mut slot, opened) = match self.streaming.assistant_text.take() {
                    Some(s) => (s, false),
                    None => (StreamingText { index: index.next(), content: String::new() }, true),
                };
                slot.content.append(text.as_str());
                assert(Seq::<char>::empty() + text@ =~= text@);
                let entry = NormalizedEntry::plain(
                    NormalizedEntryType::AssistantMessage,
                    slot.content.clone(),
                );
                let patch = if opened {
                    ConversationPatch::add_normalized_entry(slot.index, entry)
                } else {
                    ConversationPatch::replace(slot.index, entry)
                };
                self.streaming.assistant_text = Some(slot);
                Some(Emission::Patch(patch))
            },
            _ => None,
        }
    }

    /// Handles a chunk of the assistant's thinking.
    fn handle_thought(&mut self, index: &mut EntryIndexProvider, block: &ContentBlock) -> (r:
        Option<Emission>)
        requires
            old(index)@ < usize::MAX,
        ensures
            ({
                let s = thought_step(old(self)@, old(index)@, block@);
                &&& final(self)@ == s.state
                &&& final(index)@ == s.next_index
                &&& opt_emission(r) == s.emission
            }),
    {
        self.streaming.assistant_text = None;
        match block {
            ContentBlock::Text(text) => {
                let (mut slot, opened) = match self.streaming.thinking_text.take() {
                    Some(s) => (s, false),
                    None => (StreamingText { index: index.next(), content: String::new() }, true),
                };
                slot.content.append(text.as_str());
                assert(Seq::<char>::empty() + text@ =~= text@);
                let entry = NormalizedEntry::plain(
                    NormalizedEntryType::Thinking,
                    slot.content.clone(),
                );
                let patch = if opened {
                    ConversationPatch::add_normalized_entry(slot.index, entry)
                } else {
                    ConversationPatch::replace(slot.index, entry)
                };
                self.streaming.thinking_text = Some(slot);
                Some(Emission::Patch(patch))
            },
            _ => None,
        }
    }

    /// Handles a snapshot of a tool call.
    fn handle_tool_call(&mut self, index: &mut EntryIndexProvider, tc: &ToolCall) -> (r: Emission)
        requires
            old(index)@ < usize::MAX,
        ensures
            ({
                let s = tool_call_step(old(self)@, old(index)@, tc@);
                &&& final(self)@ == s.state
                &&& final(index)@ == s.next_index
                &&& Some(r@) == s.emission
            }),
    {
        self.streaming.assistant_text = None;
        self.streaming.thinking_text = None;
        let (mut data, is_new) = match self.tool_states.get(tc.id.as_str()) {
            Some(record) => (record.duplicate(), false),
            None => (PartialToolCallData::default(), true),
        };
        data.extend(tc);
        if is_new {
            data.index = index.next();
        }
        let entry = tool_use_entry(&data);
        let patch = if is_new {
            ConversationPatch::add_normalized_entry(data.index, entry)
        } else {
            ConversationPatch::replace(data.index, entry)
        };
        let ghost record = data@;
        self.tool_states.insert(tc.id.clone(), data);
        assert(final(self)@.tools =~= old(self)@.tools.insert(tc@.id, record));
        Emission::Patch(patch)
    }

    /// Handles an update: as the tool call that it stands for, if any.
    fn handle_update(&mut self, index: &mut EntryIndexProvider, update: ToolCallUpdate) -> (r:
        Option<Emission>)
        requires
            old(index)@ < usize::MAX,
        ensures
            ({
                let s = update_step(old(self)@, old(index)@, update@);
                &&& final(self)@ == s.state
                &&& final(index)@ == s.next_index
                &&& opt_emission(r) == s.emission
            }),
    {
        match ToolCall::try_from(update) {
            Ok(tc) => Some(self.handle_tool_call(index, &tc)),
            Err(_) => None,
        }
    }

    /// An update with its title filled in from the table.
    fn fill_title(&self, update: &ToolCallUpdate) -> (r: ToolCallUpdate)
        ensures
            r@ == with_known_title(update@, self@.tools),
    {
        let mut filled = update.clone();
        if filled.fields.title.is_none() {
            let title = match self.tool_states.get(update.id.as_str()) {
                Some(record) => record.title.clone(),
                None => String::new(),
            };
            filled.fields.title = Some(title);
        }
        filled
    }

    /// Takes one event: updates the state, draws an index from `index` where
    /// the event opens a new conversation entry, and returns what goes to the
    /// message store.
    pub fn step(&mut self, index: &mut EntryIndexProvider, event: &AcpEvent) -> (r: Option<
        Emission,
    >)
        requires
            old(index)@ < usize::MAX,
        ensures
            ({
                let s = step_spec(old(self)@, old(index)@, event@);
                &&& final(self)@ == s.state
                &&& final(index)@ == s.next_index
                &&& opt_emission(r) == s.emission
            }),
    {
        match event {
            AcpEvent::SessionStart(id) => {
                if !self.stored_session_id {
                    self.stored_session_id = true;
                    Some(Emission::SessionId(id.clone()))
                } else {
                    None
                }
            },
            AcpEvent::Error(message) => Some(
                Self::add(index, NormalizedEntryType::ErrorMessage, message.clone()),
            ),
            AcpEvent::Done(_) => {
                self.streaming.assistant_text = None;
                self.streaming.thinking_text = None;
                None
            },
            AcpEvent::Message(block) => self.handle_message(index, block),
            AcpEvent::Thought(block) => self.handle_thought(index, block),
            AcpEvent::Plan(plan) => {
                self.streaming.assistant_text = None;
                self.streaming.thinking_text = None;
                Some(Self::add(index, NormalizedEntryType::SystemMessage, render_plan(plan)))
            },
            AcpEvent::AvailableCommands(commands) => Some(
                Self::add(index, NormalizedEntryType::SystemMessage, render_commands(commands)),
            ),
            AcpEvent::CurrentMode(mode_id) => {
                self.streaming.assistant_text = None;
                self.streaming.thinking_text = None;
                Some(
                    Self::add(
                        index,
                        NormalizedEntryType::SystemMessage,
                        render_mode(mode_id.as_str()),
                    ),
                )
            },
            AcpEvent::RequestPermission(request) => self.handle_update(
                index,
                request.tool_call.clone(),
            ),
            AcpEvent::ToolCall(tc) => Some(self.handle_tool_call(index, tc)),
            AcpEvent::ToolUpdate(update) => {
                let filled = self.fill_title(update);
                self.handle_update(index, filled)
            },
            AcpEvent::User(_) => None,
            AcpEvent::Other => None,
        }
    }
}

/// Normalizes a session log: takes its events in order, from the initial
/// state, and returns everything that goes to the message store. Indices of
/// new conversation entries are drawn from `index`.
pub fn normalize_logs(events: &Vec<AcpEvent>, index: &mut EntryIndexProvider) -> (r: Vec<Emission>)
    requires
        old(index)@ + events.len() <= usize::MAX,
    ensures
        ({
            let (_, next, out) = run_spec(initial_state(), old(index)@, event_views(events@));
            &&& final(index)@ == next
            &&& emission_views(r@) == out
        }),
{
    let ghost views = event_views(events@);
    let ghost start = index@;
    let mut normalizer = Normalizer::new();
    let mut out: Vec<Emission> = Vec::new();
    let mut i: usize = 0;
    while i < events.len()
        invariant
            i <= events.len(),
            views == event_views(events@),
            start + events.len() <= usize::MAX,
            index@ <= start + i,
            ({
                let (st, next, emitted) = run_spec(initial_state(), start, views.take(i as int));
                &&& normalizer@ == st
                &&& index@ == next
                &&& emission_views(out@) == emitted
            }),
        decreases events.len() - i,
    {
        proof {
            assert(views.take(i + 1).drop_last() =~= views.take(i as int));
            assert(views.take(i + 1).last() == events@[i as int]@);
        }
        match normalizer.step(index, &events[i]) {
            Some(e) => {
                proof {
                    assert(emission_views(out@.push(e)) =~= emission_views(out@).push(e@));
                }
                out.push(e);
            },
            None => {},
        }
        i = i + 1;
    }
    assert(views.take(events.len() as int) =~= views);
    out
}

} // verus!
