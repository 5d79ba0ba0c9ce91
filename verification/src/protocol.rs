//! The protocol events that the normalizer consumes, as plain values.
//!
//! Each type holds what the normalizer reads of the corresponding protocol
//! message. Its view replaces every string by its characters; the contracts of
//! the library are stated over these views. Structured payloads
//! (`raw_input`, `raw_output`) are carried as JSON values.

use crate::text::opt_text;
use vstd::prelude::*;

verus! {

/// Category of a tool call.
#[derive(Debug, Clone, Copy, PartialEq, Eq, Structural)]
pub enum ToolKind {
    Read,
    Edit,
    Delete,
    Move,
    Search,
    Execute,
    Think,
    Fetch,
    SwitchMode,
    Other,
}

impl Default for ToolKind {
    /// `Other` stands for "not specified".
    fn default() -> (r: Self)
        ensures
            r == ToolKind::Other,
    {
        ToolKind::Other
    }
}

/// Execution status of a tool call.
#[derive(Debug, Clone, Copy, PartialEq, Eq, Structural)]
pub enum ToolCallStatus {
    Pending,
    InProgress,
    Completed,
    Failed,
}

impl Default for ToolCallStatus {
    /// `Pending` stands for "not specified".
    fn default() -> (r: Self)
        ensures
            r == ToolCallStatus::Pending,
    {
        ToolCallStatus::Pending
    }
}

/// A block of content; only text blocks carry what the normalizer reads.
#[derive(Debug, PartialEq)]
pub enum ContentBlock {
    Text(String),
    Image,
    Audio,
    ResourceLink,
    Resource,
}

/// View of [`ContentBlock`]: every string is the sequence of its characters.
pub enum ContentBlockView {
    Text(Seq<char>),
    Image,
    Audio,
    ResourceLink,
    Resource,
}

impl View for ContentBlock {
    type V = ContentBlockView;

    open spec fn view(&self) -> ContentBlockView {
        match self {
            ContentBlock::Text(t) => ContentBlockView::Text(t@),
            ContentBlock::Image => ContentBlockView::Image,
            ContentBlock::Audio => ContentBlockView::Audio,
            ContentBlock::ResourceLink => ContentBlockView::ResourceLink,
            ContentBlock::Resource => ContentBlockView::Resource,
        }
    }
}

impl Clone for ContentBlock {
    fn clone(&self) -> (r: Self)
        ensures
            r@ == self@,
    {
        match self {
            ContentBlock::Text(t) => ContentBlock::Text(t.clone()),
            ContentBlock::Image => ContentBlock::Image,
            ContentBlock::Audio => ContentBlock::Audio,
            ContentBlock::ResourceLink => ContentBlock::ResourceLink,
            ContentBlock::Resource => ContentBlock::Resource,
        }
    }
}

/// A file modification: the text before (absent for a new file) and after.
/// The path is relative to the worktree; it may be empty.
#[derive(Debug, PartialEq)]
pub struct Diff {
    pub path: String,
    pub old_text: Option<String>,
    pub new_text: String,
}

/// View of [`Diff`]: every string is the sequence of its characters.
pub struct DiffView {
    pub path: Seq<char>,
    pub old_text: Option<Seq<char>>,
    pub new_text: Seq<char>,
}

impl View for Diff {
    type V = DiffView;

    open spec fn view(&self) -> DiffView {
        DiffView {
            path: self.path@,
            old_text: opt_text(self.old_text),
            new_text: self.new_text@,
        }
    }
}

impl Clone for Diff {
    fn clone(&self) -> (r: Self)
        ensures
            r@ == self@,
    {
        let old_text = match &self.old_text {
            Some(t) => Some(t.clone()),
            None => None,
        };
        Diff { path: self.path.clone(), old_text, new_text: self.new_text.clone() }
    }
}

/// Content produced by a tool call.
#[derive(Debug, PartialEq)]
pub enum ToolCallContent {
    Content { content: ContentBlock },
    Diff { diff: Diff },
    Terminal,
}

/// View of [`ToolCallContent`]: every string is the sequence of its characters.
pub enum ToolCallContentView {
    Content { content: ContentBlockView },
    Diff { diff: DiffView },
    Terminal,
}

impl View for ToolCallContent {
    type V = ToolCallContentView;

    open spec fn view(&self) -> ToolCallContentView {
        match self {
            ToolCallContent::Content { content } => ToolCallContentView::Content {
                content: content@,
            },
            ToolCallContent::Diff { diff } => ToolCallContentView::Diff { diff: diff@ },
            ToolCallContent::Terminal => ToolCallContentView::Terminal,
        }
    }
}

impl Clone for ToolCallContent {
    fn clone(&self) -> (r: Self)
        ensures
            r@ == self@,
    {
        match self {
            ToolCallContent::Content { content } => ToolCallContent::Content {
                content: content.clone(),
            },
            ToolCallContent::Diff { diff } => ToolCallContent::Diff { diff: diff.clone() },
            ToolCallContent::Terminal => ToolCallContent::Terminal,
        }
    }
}

/// Views of a list of content items.
pub open spec fn content_views(s: Seq<ToolCallContent>) -> Seq<ToolCallContentView> {
    s.map_values(|c: ToolCallContent| c@)
}

/// Copies a list of content items.
pub fn clone_content(v: &Vec<ToolCallContent>) -> (r: Vec<ToolCallContent>)
    ensures
        content_views(r@) == content_views(v@),
{
    let mut out: Vec<ToolCallContent> = Vec::new();
    let mut i: usize = 0;
    while i < v.len()
        invariant
            i <= v.len(),
            out.len() == i,
            forall|j: int| 0 <= j < i ==> out@[j]@ == v@[j]@,
        decreases v.len() - i,
    {
        out.push(v[i].clone());
        i = i + 1;
    }
    assert(content_views(out@) =~= content_views(v@));
    out
}

/// A file that a tool call touches. The path is relative to the worktree.
#[derive(Debug, PartialEq)]
pub struct ToolCallLocation {
    pub path: String,
}

impl View for ToolCallLocation {
    type V = Seq<char>;

    open spec fn view(&self) -> Seq<char> {
        self.path@
    }
}

impl Clone for ToolCallLocation {
    fn clone(&self) -> (r: Self)
        ensures
            r@ == self@,
    {
        ToolCallLocation { path: self.path.clone() }
    }
}

/// Paths of a list of locations.
pub open spec fn location_views(s: Seq<ToolCallLocation>) -> Seq<Seq<char>> {
    s.map_values(|l: ToolCallLocation| l@)
}

/// Copies a list of locations.
pub fn clone_locations(v: &Vec<ToolCallLocation>) -> (r: Vec<ToolCallLocation>)
    ensures
        location_views(r@) == location_views(v@),
{
    let mut out: Vec<ToolCallLocation> = Vec::new();
    let mut i: usize = 0;
    while i < v.len()
        invariant
            i <= v.len(),
            out.len() == i,
            forall|j: int| 0 <= j < i ==> out@[j]@ == v@[j]@,
        decreases v.len() - i,
    {
        out.push(v[i].clone());
        i = i + 1;
    }
    assert(location_views(out@) =~= location_views(v@));
    out
}

/// Copies an optional JSON value.
pub fn clone_value(v: &Option<serde_json::Value>) -> (r: Option<serde_json::Value>)
    ensures
        r == *v,
{
    match v {
        Some(x) => Some(x.clone()),
        None => None,
    }
}

/// A complete snapshot of a tool call.
#[derive(Debug, Clone, PartialEq)]
pub struct ToolCall {
    pub id: String,
    pub title: String,
    pub kind: ToolKind,
    pub status: ToolCallStatus,
    pub content: Vec<ToolCallContent>,
    pub locations: Vec<ToolCallLocation>,
    pub raw_input: Option<serde_json::Value>,
    pub raw_output: Option<serde_json::Value>,
}

/// View of [`ToolCall`]: every string is the sequence of its characters.
pub struct ToolCallView {
    pub id: Seq<char>,
    pub title: Seq<char>,
    pub kind: ToolKind,
    pub status: ToolCallStatus,
    pub content: Seq<ToolCallContentView>,
    pub locations: Seq<Seq<char>>,
    pub raw_input: Option<serde_json::Value>,
    pub raw_output: Option<serde_json::Value>,
}

impl View for ToolCall {
    type V = ToolCallView;

    open spec fn view(&self) -> ToolCallView {
        ToolCallView {
            id: self.id@,
            title: self.title@,
            kind: self.kind,
            status: self.status,
            content: content_views(self.content@),
            locations: location_views(self.locations@),
            raw_input: self.raw_input,
            raw_output: self.raw_output,
        }
    }
}

/// The fields of a tool call that an update may set.
#[derive(Debug, PartialEq)]
pub struct ToolCallUpdateFields {
    pub kind: Option<ToolKind>,
    pub status: Option<ToolCallStatus>,
    pub title: Option<String>,
    pub content: Option<Vec<ToolCallContent>>,
    pub locations: Option<Vec<ToolCallLocation>>,
    pub raw_input: Option<serde_json::Value>,
    pub raw_output: Option<serde_json::Value>,
}

/// View of [`ToolCallUpdateFields`]: every string is the sequence of its characters.
pub struct ToolCallUpdateFieldsView {
    pub kind: Option<ToolKind>,
    pub status: Option<ToolCallStatus>,
    pub title: Option<Seq<char>>,
    pub content: Option<Seq<ToolCallContentView>>,
    pub locations: Option<Seq<Seq<char>>>,
    pub raw_input: Option<serde_json::Value>,
    pub raw_output: Option<serde_json::Value>,
}

impl View for ToolCallUpdateFields {
    type V = ToolCallUpdateFieldsView;

    open spec fn view(&self) -> ToolCallUpdateFieldsView {
        ToolCallUpdateFieldsView {
            kind: self.kind,
            status: self.status,
            title: opt_text(self.title),
            content: match self.content {
                Some(c) => Some(content_views(c@)),
                None => None,
            },
            locations: match self.locations {
                Some(l) => Some(location_views(l@)),
                None => None,
            },
            raw_input: self.raw_input,
            raw_output: self.raw_output,
        }
    }
}

impl Clone for ToolCallUpdateFields {
    fn clone(&self) -> (r: Self)
        ensures
            r@ == self@,
    {
        ToolCallUpdateFields {
            kind: self.kind,
            status: self.status,
            title: match &self.title {
                Some(t) => Some(t.clone()),
                None => None,
            },
            content: match &self.content {
                Some(c) => Some(clone_content(c)),
                None => None,
            },
            locations: match &self.locations {
                Some(l) => Some(clone_locations(l)),
                None => None,
            },
            raw_input: clone_value(&self.raw_input),
            raw_output: clone_value(&self.raw_output),
        }
    }
}

/// A partial update of the tool call with the given id.
#[derive(Debug, PartialEq)]
pub struct ToolCallUpdate {
    pub id: String,
    pub fields: ToolCallUpdateFields,
}

/// View of [`ToolCallUpdate`]: every string is the sequence of its characters.
pub struct ToolCallUpdateView {
    pub id: Seq<char>,
    pub fields: ToolCallUpdateFieldsView,
}

impl View for ToolCallUpdate {
    type V = ToolCallUpdateView;

    open spec fn view(&self) -> ToolCallUpdateView {
        ToolCallUpdateView { id: self.id@, fields: self.fields@ }
    }
}

impl Clone for ToolCallUpdate {
    fn clone(&self) -> (r: Self)
        ensures
            r@ == self@,
    {
        ToolCallUpdate { id: self.id.clone(), fields: self.fields.clone() }
    }
}

/// Why an update could not be completed to a tool call.
#[derive(Debug, Clone, Copy, PartialEq, Eq, Structural)]
pub enum ToolCallError {
    /// The update carries no title.
    TitleRequired,
}

/// The tool call that an update stands for when it is the first message
/// about its id: the update's title is required, and every other field that
/// the update leaves out is empty or "not specified".
pub open spec fn tool_call_from_update(u: ToolCallUpdateView) -> Option<ToolCallView> {
    match u.fields.title {
        None => None,
        Some(title) => Some(
            ToolCallView {
                id: u.id,
                title,
                kind: match u.fields.kind {
                    Some(k) => k,
                    None => ToolKind::Other,
                },
                status: match u.fields.status {
                    Some(s) => s,
                    None => ToolCallStatus::Pending,
                },
                content: match u.fields.content {
                    Some(c) => c,
                    None => Seq::empty(),
                },
                locations: match u.fields.locations {
                    Some(l) => l,
                    None => Seq::empty(),
                },
                raw_input: u.fields.raw_input,
                raw_output: u.fields.raw_output,
            },
        ),
    }
}

impl ToolCall {
    /// Completes an update to a tool call; fails exactly when the update has
    /// no title.
    pub fn try_from(update: ToolCallUpdate) -> (r: Result<ToolCall, ToolCallError>)
        ensures
            match r {
                Ok(tc) => tool_call_from_update(update@) == Some(tc@),
                Err(e) => tool_call_from_update(update@) is None && e
                    == ToolCallError::TitleRequired,
            },
    {
        let ToolCallUpdate { id, fields } = update;
        let ToolCallUpdateFields { kind, status, title, content, locations, raw_input, raw_output } =
            fields;
        let title = match title {
            Some(t) => t,
            None => {
                return Err(ToolCallError::TitleRequired);
            },
        };
        let kind = match kind {
            Some(k) => k,
            None => ToolKind::default(),
        };
        let status = match status {
            Some(s) => s,
            None => ToolCallStatus::default(),
        };
        let content = match content {
            Some(c) => c,
            None => Vec::new(),
        };
        let locations = match locations {
            Some(l) => l,
            None => Vec::new(),
        };
        let tc = ToolCall { id, title, kind, status, content, locations, raw_input, raw_output };
        proof {
            assert(content_views(Seq::<ToolCallContent>::empty()) =~= Seq::empty());
            assert(location_views(Seq::<ToolCallLocation>::empty()) =~= Seq::empty());
        }
        Ok(tc)
    }
}

/// One step of a plan.
#[derive(Debug, Clone, PartialEq)]
pub struct PlanEntry {
    pub content: String,
}

impl View for PlanEntry {
    type V = Seq<char>;

    open spec fn view(&self) -> Seq<char> {
        self.content@
    }
}

/// An ordered list of plan steps.
#[derive(Debug, Clone, PartialEq)]
pub struct Plan {
    pub entries: Vec<PlanEntry>,
}

impl View for Plan {
    type V = Seq<Seq<char>>;

    open spec fn view(&self) -> Seq<Seq<char>> {
        self.entries@.map_values(|e: PlanEntry| e@)
    }
}

/// A command that the agent offers, by name.
#[derive(Debug, Clone, PartialEq)]
pub struct AvailableCommand {
    pub name: String,
}

impl View for AvailableCommand {
    type V = Seq<char>;

    open spec fn view(&self) -> Seq<char> {
        self.name@
    }
}

/// Names of a list of commands.
pub open spec fn command_views(s: Seq<AvailableCommand>) -> Seq<Seq<char>> {
    s.map_values(|c: AvailableCommand| c@)
}

/// A permission prompt; it embeds the tool call that asks for permission.
#[derive(Debug, Clone, PartialEq)]
pub struct RequestPermissionRequest {
    pub tool_call: ToolCallUpdate,
}

/// An event of a session, as it appears on one line of the session log.
#[derive(Debug, Clone, PartialEq)]
pub enum AcpEvent {
    User(String),
    SessionStart(String),
    Message(ContentBlock),
    Thought(ContentBlock),
    ToolCall(ToolCall),
    ToolUpdate(ToolCallUpdate),
    Plan(Plan),
    AvailableCommands(Vec<AvailableCommand>),
    CurrentMode(String),
    RequestPermission(RequestPermissionRequest),
    Error(String),
    Done(String),
    Other,
}

/// View of [`AcpEvent`]: every string is the sequence of its characters.
pub enum AcpEventView {
    User(Seq<char>),
    SessionStart(Seq<char>),
    Message(ContentBlockView),
    Thought(ContentBlockView),
    ToolCall(ToolCallView),
    ToolUpdate(ToolCallUpdateView),
    Plan(Seq<Seq<char>>),
    AvailableCommands(Seq<Seq<char>>),
    CurrentMode(Seq<char>),
    RequestPermission(ToolCallUpdateView),
    Error(Seq<char>),
    Done(Seq<char>),
    Other,
}

impl View for AcpEvent {
    type V = AcpEventView;

    open spec fn view(&self) -> AcpEventView {
        match self {
            AcpEvent::User(s) => AcpEventView::User(s@),
            AcpEvent::SessionStart(s) => AcpEventView::SessionStart(s@),
            AcpEvent::Message(c) => AcpEventView::Message(c@),
            AcpEvent::Thought(c) => AcpEventView::Thought(c@),
            AcpEvent::ToolCall(tc) => AcpEventView::ToolCall(tc@),
            AcpEvent::ToolUpdate(u) => AcpEventView::ToolUpdate(u@),
            AcpEvent::Plan(p) => AcpEventView::Plan(p@),
            AcpEvent::AvailableCommands(c) => AcpEventView::AvailableCommands(command_views(c@)),
            AcpEvent::CurrentMode(m) => AcpEventView::CurrentMode(m@),
            AcpEvent::RequestPermission(r) => AcpEventView::RequestPermission(r.tool_call@),
            AcpEvent::Error(m) => AcpEventView::Error(m@),
            AcpEvent::Done(r) => AcpEventView::Done(r@),
            AcpEvent::Other => AcpEventView::Other,
        }
    }
}

/// Views of a list of events.
pub open spec fn event_views(s: Seq<AcpEvent>) -> Seq<AcpEventView> {
    s.map_values(|e: AcpEvent| e@)
}

/// What a session notification reports.
#[derive(Debug, Clone, PartialEq)]
pub enum SessionUpdate {
    UserMessageChunk { content: ContentBlock },
    AgentMessageChunk { content: ContentBlock },
    AgentThoughtChunk { content: ContentBlock },
    ToolCall(ToolCall),
    ToolCallUpdate(ToolCallUpdate),
    Plan(Plan),
    AvailableCommandsUpdate { available_commands: Vec<AvailableCommand> },
    CurrentModeUpdate { current_mode_id: String },
}

/// A notification that the agent sends about a session.
#[derive(Debug, Clone, PartialEq)]
pub struct SessionNotification {
    pub session_id: String,
    pub update: SessionUpdate,
}

/// The event that a session update is logged as; an echo of the user's own
/// message is not logged.
pub open spec fn event_of_update(u: SessionUpdate) -> Option<AcpEventView> {
    match u {
        SessionUpdate::UserMessageChunk { content } => None,
        SessionUpdate::AgentMessageChunk { content } => Some(AcpEventView::Message(content@)),
        SessionUpdate::AgentThoughtChunk { content } => Some(AcpEventView::Thought(content@)),
        SessionUpdate::ToolCall(tc) => Some(AcpEventView::ToolCall(tc@)),
        SessionUpdate::ToolCallUpdate(u) => Some(AcpEventView::ToolUpdate(u@)),
        SessionUpdate::Plan(p) => Some(AcpEventView::Plan(p@)),
        SessionUpdate::AvailableCommandsUpdate { available_commands } => Some(
            AcpEventView::AvailableCommands(command_views(available_commands@)),
        ),
        SessionUpdate::CurrentModeUpdate { current_mode_id } => Some(
            AcpEventView::CurrentMode(current_mode_id@),
        ),
    }
}

impl AcpEvent {
    /// The event that a notification is logged as. Fails exactly for a chunk
    /// of the user's own message.
    pub fn try_from(notification: SessionNotification) -> (r: Result<AcpEvent, ()>)
        ensures
            match r {
                Ok(e) => event_of_update(notification.update) == Some(e@),
                Err(_) => event_of_update(notification.update) is None,
            },
    {
        let event = match notification.update {
            SessionUpdate::AgentMessageChunk { content } => AcpEvent::Message(content),
            SessionUpdate::AgentThoughtChunk { content } => AcpEvent::Thought(content),
            SessionUpdate::ToolCall(tc) => AcpEvent::ToolCall(tc),
            SessionUpdate::ToolCallUpdate(update) => AcpEvent::ToolUpdate(update),
            SessionUpdate::Plan(plan) => AcpEvent::Plan(plan),
            SessionUpdate::AvailableCommandsUpdate { available_commands } => {
                AcpEvent::AvailableCommands(available_commands)
            },
            SessionUpdate::CurrentModeUpdate { current_mode_id } => {
                AcpEvent::CurrentMode(current_mode_id)
            },
            SessionUpdate::UserMessageChunk { content } => {
                return Err(());
            },
        };
        Ok(event)
    }
}

} // verus!
