//! The conversation model that the normalizer produces: typed entries, and
//! patches that add an entry at a fresh index or replace the entry at an
//! index that is in use.

use crate::text::opt_text;
use vstd::prelude::*;

verus! {

/// Status of a tool use, as the conversation shows it.
#[derive(Debug, Clone, Copy, PartialEq, Eq, Structural)]
pub enum ToolStatus {
    Created,
    Success,
    Failed,
}

/// How a command ended.
#[derive(Debug, Clone, Copy, PartialEq, Eq, Structural)]
pub enum CommandExitStatus {
    ExitCode { code: i32 },
    Success { success: bool },
}

/// Result of a command run.
#[derive(Debug, Clone, PartialEq)]
pub struct CommandRunResult {
    pub exit_status: Option<CommandExitStatus>,
    pub output: Option<String>,
}

/// View of [`CommandRunResult`]: every string is the sequence of its characters.
pub struct CommandRunResultView {
    pub exit_status: Option<CommandExitStatus>,
    pub output: Option<Seq<char>>,
}

impl View for CommandRunResult {
    type V = CommandRunResultView;

    open spec fn view(&self) -> CommandRunResultView {
        CommandRunResultView { exit_status: self.exit_status, output: opt_text(self.output) }
    }
}

/// Views of an optional command result.
pub open spec fn opt_run_result(o: Option<CommandRunResult>) -> Option<CommandRunResultView> {
    match o {
        Some(r) => Some(r@),
        None => None,
    }
}

/// How the value of a tool result is to be shown.
#[derive(Debug, Clone, Copy, PartialEq, Eq, Structural)]
pub enum ToolResultValueType {
    Markdown,
    Json,
}

/// Result of a generic tool.
#[derive(Debug, Clone, PartialEq)]
pub struct ToolResult {
    pub value_type: ToolResultValueType,
    pub value: serde_json::Value,
}

/// A unified diff that is still to be rendered: the path that its header
/// names, and the text before and after.
#[derive(Debug, Clone, PartialEq)]
pub struct UnifiedDiff {
    pub path: String,
    pub old_text: String,
    pub new_text: String,
}

/// View of [`UnifiedDiff`]: every string is the sequence of its characters.
pub struct UnifiedDiffView {
    pub path: Seq<char>,
    pub old_text: Seq<char>,
    pub new_text: Seq<char>,
}

impl View for UnifiedDiff {
    type V = UnifiedDiffView;

    open spec fn view(&self) -> UnifiedDiffView {
        UnifiedDiffView { path: self.path@, old_text: self.old_text@, new_text: self.new_text@ }
    }
}

/// One change to a file.
#[derive(Debug, Clone, PartialEq)]
pub enum FileChange {
    Write { content: String },
    Delete,
    Edit { unified_diff: UnifiedDiff, has_line_numbers: bool },
}

/// View of [`FileChange`]: every string is the sequence of its characters.
pub enum FileChangeView {
    Write { content: Seq<char> },
    Delete,
    Edit { unified_diff: UnifiedDiffView, has_line_numbers: bool },
}

impl View for FileChange {
    type V = FileChangeView;

    open spec fn view(&self) -> FileChangeView {
        match self {
            FileChange::Write { content } => FileChangeView::Write { content: content@ },
            FileChange::Delete => FileChangeView::Delete,
            FileChange::Edit { unified_diff, has_line_numbers } => FileChangeView::Edit {
                unified_diff: unified_diff@,
                has_line_numbers: *has_line_numbers,
            },
        }
    }
}

/// Views of a list of changes.
pub open spec fn change_views(s: Seq<FileChange>) -> Seq<FileChangeView> {
    s.map_values(|c: FileChange| c@)
}

/// What a tool call does, as the conversation shows it.
#[derive(Debug, Clone, PartialEq)]
pub enum ActionType {
    FileRead { path: String },
    FileEdit { path: String, changes: Vec<FileChange> },
    CommandRun { command: String, result: Option<CommandRunResult> },
    Search { query: String },
    WebFetch { url: String },
    Tool { tool_name: String, arguments: Option<serde_json::Value>, result: Option<ToolResult> },
    Other { description: String },
}

/// View of [`ActionType`]: every string is the sequence of its characters.
pub enum ActionTypeView {
    FileRead { path: Seq<char> },
    FileEdit { path: Seq<char>, changes: Seq<FileChangeView> },
    CommandRun { command: Seq<char>, result: Option<CommandRunResultView> },
    Search { query: Seq<char> },
    WebFetch { url: Seq<char> },
    Tool {
        tool_name: Seq<char>,
        arguments: Option<serde_json::Value>,
        result: Option<ToolResult>,
    },
    Other { description: Seq<char> },
}

impl View for ActionType {
    type V = ActionTypeView;

    open spec fn view(&self) -> ActionTypeView {
        match self {
            ActionType::FileRead { path } => ActionTypeView::FileRead { path: path@ },
            ActionType::FileEdit { path, changes } => ActionTypeView::FileEdit {
                path: path@,
                changes: change_views(changes@),
            },
            ActionType::CommandRun { command, result } => ActionTypeView::CommandRun {
                command: command@,
                result: opt_run_result(*result),
            },
            ActionType::Search { query } => ActionTypeView::Search { query: query@ },
            ActionType::WebFetch { url } => ActionTypeView::WebFetch { url: url@ },
            ActionType::Tool { tool_name, arguments, result } => ActionTypeView::Tool {
                tool_name: tool_name@,
                arguments: *arguments,
                result: *result,
            },
            ActionType::Other { description } => ActionTypeView::Other {
                description: description@,
            },
        }
    }
}

/// Kind of a conversation entry.
#[derive(Debug, Clone, PartialEq)]
pub enum NormalizedEntryType {
    AssistantMessage,
    Thinking,
    SystemMessage,
    ErrorMessage,
    ToolUse { tool_name: String, action_type: ActionType, status: ToolStatus },
}

/// View of [`NormalizedEntryType`]: every string is the sequence of its characters.
pub enum NormalizedEntryTypeView {
    AssistantMessage,
    Thinking,
    SystemMessage,
    ErrorMessage,
    ToolUse { tool_name: Seq<char>, action_type: ActionTypeView, status: ToolStatus },
}

impl View for NormalizedEntryType {
    type V = NormalizedEntryTypeView;

    open spec fn view(&self) -> NormalizedEntryTypeView {
        match self {
            NormalizedEntryType::AssistantMessage => NormalizedEntryTypeView::AssistantMessage,
            NormalizedEntryType::Thinking => NormalizedEntryTypeView::Thinking,
            NormalizedEntryType::SystemMessage => NormalizedEntryTypeView::SystemMessage,
            NormalizedEntryType::ErrorMessage => NormalizedEntryTypeView::ErrorMessage,
            NormalizedEntryType::ToolUse { tool_name, action_type, status } => {
                NormalizedEntryTypeView::ToolUse {
                    tool_name: tool_name@,
                    action_type: action_type@,
                    status: *status,
                }
            },
        }
    }
}

/// One entry of the conversation.
#[derive(Debug, Clone, PartialEq)]
pub struct NormalizedEntry {
    pub timestamp: Option<String>,
    pub entry_type: NormalizedEntryType,
    pub content: String,
    pub metadata: Option<serde_json::Value>,
}

/// View of [`NormalizedEntry`]: every string is the sequence of its characters.
pub struct NormalizedEntryView {
    pub timestamp: Option<Seq<char>>,
    pub entry_type: NormalizedEntryTypeView,
    pub content: Seq<char>,
    pub metadata: Option<serde_json::Value>,
}

impl View for NormalizedEntry {
    type V = NormalizedEntryView;

    open spec fn view(&self) -> NormalizedEntryView {
        NormalizedEntryView {
            timestamp: opt_text(self.timestamp),
            entry_type: self.entry_type@,
            content: self.content@,
            metadata: self.metadata,
        }
    }
}

/// The entry of the given kind and content, without timestamp or metadata.
pub open spec fn plain_entry(entry_type: NormalizedEntryTypeView, content: Seq<char>)
    -> NormalizedEntryView {
    NormalizedEntryView { timestamp: None, entry_type, content, metadata: None }
}

impl NormalizedEntry {
    /// The entry of the given kind and content, without timestamp or metadata.
    pub fn plain(entry_type: NormalizedEntryType, content: String) -> (r: NormalizedEntry)
        ensures
            r@ == plain_entry(entry_type@, content@),
    {
        NormalizedEntry { timestamp: None, entry_type, content, metadata: None }
    }
}

/// A change to the conversation.
#[derive(Debug, Clone, PartialEq)]
pub enum ConversationPatch {
    /// Adds an entry at an index that no entry has yet.
    Add { index: usize, entry: NormalizedEntry },
    /// Replaces the entry at an index that is in use.
    Replace { index: usize, entry: NormalizedEntry },
}

/// View of [`ConversationPatch`]: every string is the sequence of its characters.
pub enum ConversationPatchView {
    Add { index: nat, entry: NormalizedEntryView },
    Replace { index: nat, entry: NormalizedEntryView },
}

impl View for ConversationPatch {
    type V = ConversationPatchView;

    open spec fn view(&self) -> ConversationPatchView {
        match self {
            ConversationPatch::Add { index, entry } => ConversationPatchView::Add {
                index: *index as nat,
                entry: entry@,
            },
            ConversationPatch::Replace { index, entry } => ConversationPatchView::Replace {
                index: *index as nat,
                entry: entry@,
            },
        }
    }
}

impl ConversationPatchView {
    /// The index that the patch writes.
    pub open spec fn index(self) -> nat {
        match self {
            ConversationPatchView::Add { index, .. } => index,
            ConversationPatchView::Replace { index, .. } => index,
        }
    }
}

impl ConversationPatch {
    /// The patch that adds `entry` at `index`.
    pub fn add_normalized_entry(index: usize, entry: NormalizedEntry) -> (r: ConversationPatch)
        ensures
            r@ == (ConversationPatchView::Add { index: index as nat, entry: entry@ }),
    {
        ConversationPatch::Add { index, entry }
    }

    /// The patch that replaces the entry at `index` by `entry`.
    pub fn replace(index: usize, entry: NormalizedEntry) -> (r: ConversationPatch)
        ensures
            r@ == (ConversationPatchView::Replace { index: index as nat, entry: entry@ }),
    {
        ConversationPatch::Replace { index, entry }
    }
}

/// What the normalizer hands to the message store for one event.
#[derive(Debug, Clone, PartialEq)]
pub enum Emission {
    /// The session id, announced once.
    SessionId(String),
    /// A change to the conversation.
    Patch(ConversationPatch),
}

/// View of [`Emission`]: every string is the sequence of its characters.
pub enum EmissionView {
    SessionId(Seq<char>),
    Patch(ConversationPatchView),
}

impl View for Emission {
    type V = EmissionView;

    open spec fn view(&self) -> EmissionView {
        match self {
            Emission::SessionId(id) => EmissionView::SessionId(id@),
            Emission::Patch(p) => EmissionView::Patch(p@),
        }
    }
}

/// Views of an optional emission.
pub open spec fn opt_emission(o: Option<Emission>) -> Option<EmissionView> {
    match o {
        Some(e) => Some(e@),
        None => None,
    }
}

/// Views of a list of emissions.
pub open spec fn emission_views(s: Seq<Emission>) -> Seq<EmissionView> {
    s.map_values(|e: Emission| e@)
}

/// Source of conversation indices: each index is handed out once, in
/// increasing order. Every writer of one conversation draws from the same
/// provider.
#[derive(Debug)]
pub struct EntryIndexProvider {
    next: usize,
}

impl View for EntryIndexProvider {
    type V = nat;

    /// The index that is handed out next.
    closed spec fn view(&self) -> nat {
        self.next as nat
    }
}

impl EntryIndexProvider {
    /// A provider whose first index is `first`.
    pub fn start_from(first: usize) -> (r: EntryIndexProvider)
        ensures
            r@ == first,
    {
        EntryIndexProvider { next: first }
    }

    /// A provider whose first index is 0.
    pub fn new() -> (r: EntryIndexProvider)
        ensures
            r@ == 0,
    {
        EntryIndexProvider { next: 0 }
    }

    /// The index that `next` would hand out.
    pub fn current(&self) -> (r: usize)
        ensures
            r == self@,
    {
        self.next
    }

    /// Whether an index is left to hand out.
    pub fn has_next(&self) -> (r: bool)
        ensures
            r == (self@ < usize::MAX),
    {
        self.next < usize::MAX
    }

    /// Hands out the next index. Successive calls return strictly increasing
    /// indices.
    pub fn next(&mut self) -> (r: usize)
        requires
            old(self)@ < usize::MAX,
        ensures
            r == old(self)@,
            final(self)@ == old(self)@ + 1,
    {
        let r = self.next;
        self.next = r + 1;
        r
    }
}

} // verus!
