//! The record that accumulates what is known of one tool call, and its
//! rendering as a conversation entry.

use crate::decode::{
    fetch_url, opt_shell, read_fetch_url, read_search_query, search_query, shell_output,
    ShellOutput, ShellOutputView,
};
use crate::entry::{
    change_views, opt_run_result, plain_entry, ActionType, ActionTypeView, CommandExitStatus,
    CommandRunResult, CommandRunResultView, FileChange, FileChangeView, NormalizedEntry,
    NormalizedEntryType, NormalizedEntryTypeView, NormalizedEntryView, ToolResult,
    ToolResultValueType, ToolStatus, UnifiedDiff, UnifiedDiffView,
};
use crate::json::{
    json_object, json_parse, json_string, member_views, object_value, parse, string_value,
};
use crate::parser::{execute_command, AcpEventParser};
use crate::pattern::{find_first, regex_find};
use crate::protocol::{
    clone_content, content_views, ContentBlock, ContentBlockView, Diff, DiffView, ToolCall,
    ToolCallContent, ToolCallContentView, ToolCallStatus, ToolCallView, ToolKind,
};
use crate::text::{
    all_ascii_digits, all_digits_from, first_visible_is, last_index_of, opt_text, rfind_char,
    starts_with, to_chars, trim_start,
};
use vstd::prelude::*;

verus! {

/// What is known so far of one tool call.
#[derive(Debug, PartialEq)]
pub struct PartialToolCallData {
    /// Index of the conversation entry of this tool call.
    pub index: usize,
    pub id: String,
    pub kind: ToolKind,
    pub title: String,
    pub status: ToolCallStatus,
    /// The first file that the tool call touches, relative to the worktree.
    pub path: Option<String>,
    pub content: Vec<ToolCallContent>,
    pub raw_input: Option<serde_json::Value>,
    pub raw_output: Option<serde_json::Value>,
}

/// View of [`PartialToolCallData`]: every string is the sequence of its characters.
pub struct PartialToolCallView {
    pub index: nat,
    pub id: Seq<char>,
    pub kind: ToolKind,
    pub title: Seq<char>,
    pub status: ToolCallStatus,
    pub path: Option<Seq<char>>,
    pub content: Seq<ToolCallContentView>,
    pub raw_input: Option<serde_json::Value>,
    pub raw_output: Option<serde_json::Value>,
}

impl View for PartialToolCallData {
    type V = PartialToolCallView;

    open spec fn view(&self) -> PartialToolCallView {
        PartialToolCallView {
            index: self.index as nat,
            id: self.id@,
            kind: self.kind,
            title: self.title@,
            status: self.status,
            path: opt_text(self.path),
            content: content_views(self.content@),
            raw_input: self.raw_input,
            raw_output: self.raw_output,
        }
    }
}

/// The record of a tool call of which nothing is known yet.
pub open spec fn empty_record() -> PartialToolCallView {
    PartialToolCallView {
        index: 0,
        id: Seq::empty(),
        kind: ToolKind::Other,
        title: Seq::empty(),
        status: ToolCallStatus::Pending,
        path: None,
        content: Seq::empty(),
        raw_input: None,
        raw_output: None,
    }
}

/// The record `p` after the snapshot `tc` has been merged into it. A field
/// of the snapshot that is empty, absent or "not specified" leaves the
/// record's field as it is; the index is never touched.
pub open spec fn extended(p: PartialToolCallView, tc: ToolCallView) -> PartialToolCallView {
    PartialToolCallView {
        index: p.index,
        id: tc.id,
        kind: if tc.kind != ToolKind::Other {
            tc.kind
        } else {
            p.kind
        },
        title: if tc.title.len() > 0 {
            tc.title
        } else {
            p.title
        },
        status: if tc.status != ToolCallStatus::Pending {
            tc.status
        } else {
            p.status
        },
        path: if tc.locations.len() > 0 {
            Some(tc.locations[0])
        } else {
            p.path
        },
        content: if tc.content.len() > 0 {
            tc.content
        } else {
            p.content
        },
        raw_input: if tc.raw_input is Some {
            tc.raw_input
        } else {
            p.raw_input
        },
        raw_output: if tc.raw_output is Some {
            tc.raw_output
        } else {
            p.raw_output
        },
    }
}

impl Default for PartialToolCallData {
    fn default() -> (r: Self)
        ensures
            r@ == empty_record(),
    {
        let r = PartialToolCallData {
            index: 0,
            id: String::new(),
            kind: ToolKind::default(),
            title: String::new(),
            status: ToolCallStatus::default(),
            path: None,
            content: Vec::new(),
            raw_input: None,
            raw_output: None,
        };
        assert(content_views(r.content@) =~= Seq::empty());
        r
    }
}

impl PartialToolCallData {
    /// Merges a snapshot into the record.
    pub fn extend(&mut self, tc: &ToolCall)
        ensures
            final(self)@ == extended(old(self)@, tc@),
    {
        self.id = tc.id.clone();
        if tc.kind != ToolKind::default() {
            self.kind = tc.kind;
        }
        if !tc.title.as_str().is_empty() {
            self.title = tc.title.clone();
        }
        if tc.status != ToolCallStatus::default() {
            self.status = tc.status;
        }
        if tc.locations.len() > 0 {
            self.path = Some(tc.locations[0].path.clone());
        }
        if tc.content.len() > 0 {
            self.content = clone_content(&tc.content);
        }
        if let Some(v) = &tc.raw_input {
            self.raw_input = Some(v.clone());
        }
        if let Some(v) = &tc.raw_output {
            self.raw_output = Some(v.clone());
        }
    }

    /// A copy of the record.
    pub fn duplicate(&self) -> (r: PartialToolCallData)
        ensures
            r@ == self@,
    {
        PartialToolCallData {
            index: self.index,
            id: self.id.clone(),
            kind: self.kind,
            title: self.title.clone(),
            status: self.status,
            path: match &self.path {
                Some(p) => Some(p.clone()),
                None => None,
            },
            content: clone_content(&self.content),
            raw_input: match &self.raw_input {
                Some(v) => Some(v.clone()),
                None => None,
            },
            raw_output: match &self.raw_output {
                Some(v) => Some(v.clone()),
                None => None,
            },
        }
    }
}

/// The status that the conversation shows for a tool call's status.
pub open spec fn converted_status(status: ToolCallStatus) -> ToolStatus {
    match status {
        ToolCallStatus::Pending => ToolStatus::Created,
        ToolCallStatus::InProgress => ToolStatus::Created,
        ToolCallStatus::Completed => ToolStatus::Success,
        ToolCallStatus::Failed => ToolStatus::Failed,
    }
}

/// The status that the conversation shows for a tool call's status.
pub fn convert_tool_status(status: &ToolCallStatus) -> (r: ToolStatus)
    ensures
        r == converted_status(*status),
{
    match status {
        ToolCallStatus::Pending => ToolStatus::Created,
        ToolCallStatus::InProgress => ToolStatus::Created,
        ToolCallStatus::Completed => ToolStatus::Success,
        ToolCallStatus::Failed => ToolStatus::Failed,
    }
}

/// The name of the tool, where the id of a tool call is that name, a hyphen
/// and a run of ASCII digits (which may be empty).
pub open spec fn tool_name_from_id(id: Seq<char>) -> Option<Seq<char>> {
    match last_index_of(id, '-') {
        Some(i) => if all_ascii_digits(id.subrange(i + 1, id.len() as int)) {
            Some(id.take(i))
        } else {
            None
        },
        None => None,
    }
}

/// The name of the tool, read from the id of a tool call.
pub fn extract_tool_name_from_id(id: &str) -> (r: Option<String>)
    ensures
        opt_text(r) == tool_name_from_id(id@),
{
    let chars = to_chars(id);
    match rfind_char(&chars, '-') {
        Some(i) => {
            if all_digits_from(&chars, i + 1) {
                assert(chars@.take(i as int) =~= chars@.subrange(0, i as int));
                Some(id.substring_char(0, i).to_owned())
            } else {
                None
            }
        },
        None => None,
    }
}

/// `s`, with a line feed added unless it ends in one.
pub open spec fn with_newline(s: Seq<char>) -> Seq<char> {
    if s.len() > 0 && s.last() == '\n' {
        s
    } else {
        s.push('\n')
    }
}

/// The text blocks among `blocks`, joined in order, each closed by a line
/// feed unless the text so far ends in one.
pub open spec fn text_content(blocks: Seq<ToolCallContentView>) -> Seq<char>
    decreases blocks.len(),
{
    if blocks.len() == 0 {
        Seq::empty()
    } else {
        let before = text_content(blocks.drop_last());
        match blocks.last() {
            ToolCallContentView::Content { content: ContentBlockView::Text(t) } => with_newline(
                before + t,
            ),
            _ => before,
        }
    }
}

/// The joined text of `blocks`; `None` where there is none.
pub open spec fn collected_text(blocks: Seq<ToolCallContentView>) -> Option<Seq<char>> {
    if text_content(blocks).len() == 0 {
        None
    } else {
        Some(text_content(blocks))
    }
}

/// Joins the text blocks of a tool call's content.
pub fn collect_text_content(content: &Vec<ToolCallContent>) -> (r: Option<String>)
    ensures
        opt_text(r) == collected_text(content_views(content@)),
{
    let ghost blocks = content_views(content@);
    let mut out = String::new();
    let mut closed: bool = false;
    let mut any: bool = false;
    let mut i: usize = 0;
    while i < content.len()
        invariant
            i <= content.len(),
            blocks == content_views(content@),
            out@ == text_content(blocks.take(i as int)),
            closed == (out@.len() > 0 && out@.last() == '\n'),
            any == (out@.len() > 0),
        decreases content.len() - i,
    {
        proof {
            assert(blocks.take(i + 1).drop_last() =~= blocks.take(i as int));
            assert(blocks.take(i + 1).last() == content@[i as int]@);
        }
        match &content[i] {
            ToolCallContent::Content { content: ContentBlock::Text(t) } => {
                out.append(t.as_str());
                let n: usize = t.as_str().unicode_len();
                if n > 0 {
                    closed = t.as_str().get_char(n - 1) == '\n';
                }
                if !closed {
                    proof {
                        reveal_strlit("\n");
                        assert(out@ + "\n"@ =~= out@.push('\n'));
                    }
                    out.append("\n");
                    closed = true;
                }
                any = true;
            },
            _ => {},
        }
        i = i + 1;
    }
    assert(blocks.take(content.len() as int) =~= blocks);
    if any {
        Some(out)
    } else {
        None
    }
}

/// The pattern of a web address in running text.
pub open spec fn url_pattern() -> Seq<char> {
    "https?://[^\\s\"')]+"@
}

/// The first web address in `text`.
pub open spec fn first_url(text: Seq<char>) -> Option<Seq<char>> {
    regex_find(url_pattern(), text)
}

/// Finds the first web address in `text`.
pub fn extract_url_from_text(text: &str) -> (r: Option<String>)
    ensures
        opt_text(r) == first_url(text@),
{
    find_first("https?://[^\\s\"')]+", text)
}

/// The path of a record; empty where none is known.
pub open spec fn path_text(p: PartialToolCallView) -> Seq<char> {
    match p.path {
        Some(path) => path,
        None => Seq::empty(),
    }
}

/// The change that a diff block stands for. A block without old text writes
/// the file; any other block edits it, under the block's own path or, where
/// it has none, under `fallback`.
pub open spec fn change_of(diff: DiffView, fallback: Seq<char>) -> FileChangeView {
    let old_text = match diff.old_text {
        Some(t) => t,
        None => Seq::empty(),
    };
    if old_text.len() == 0 {
        FileChangeView::Write { content: diff.new_text }
    } else {
        FileChangeView::Edit {
            unified_diff: UnifiedDiffView {
                path: if diff.path.len() > 0 {
                    diff.path
                } else {
                    fallback
                },
                old_text,
                new_text: diff.new_text,
            },
            has_line_numbers: false,
        }
    }
}

/// The changes that the diff blocks among `blocks` stand for, in order.
pub open spec fn changes_of(blocks: Seq<ToolCallContentView>, fallback: Seq<char>) -> Seq<
    FileChangeView,
>
    decreases blocks.len(),
{
    if blocks.len() == 0 {
        Seq::empty()
    } else {
        let before = changes_of(blocks.drop_last(), fallback);
        match blocks.last() {
            ToolCallContentView::Diff { diff } => before.push(change_of(diff, fallback)),
            _ => before,
        }
    }
}

/// The path of a record; empty where none is known.
fn path_or_empty(tc: &PartialToolCallData) -> (r: String)
    ensures
        r@ == path_text(tc@),
{
    match &tc.path {
        Some(p) => p.clone(),
        None => String::new(),
    }
}

/// The change that a diff block stands for.
fn file_change(diff: &Diff, tc: &PartialToolCallData) -> (r: FileChange)
    ensures
        r@ == change_of(diff@, path_text(tc@)),
{
    let old_text = match &diff.old_text {
        Some(t) => t.clone(),
        None => String::new(),
    };
    if old_text.as_str().is_empty() {
        FileChange::Write { content: diff.new_text.clone() }
    } else {
        let path = if !diff.path.as_str().is_empty() {
            diff.path.clone()
        } else {
            path_or_empty(tc)
        };
        FileChange::Edit {
            unified_diff: UnifiedDiff { path, old_text, new_text: diff.new_text.clone() },
            has_line_numbers: false,
        }
    }
}

/// The file changes that a tool call's diff blocks stand for.
pub fn extract_file_changes(tc: &PartialToolCallData) -> (r: Vec<FileChange>)
    ensures
        change_views(r@) == changes_of(tc@.content, path_text(tc@)),
{
    let ghost blocks = tc@.content;
    let ghost fallback = path_text(tc@);
    let mut changes: Vec<FileChange> = Vec::new();
    let mut i: usize = 0;
    while i < tc.content.len()
        invariant
            i <= tc.content.len(),
            blocks == content_views(tc.content@),
            fallback == path_text(tc@),
            change_views(changes@) == changes_of(blocks.take(i as int), fallback),
        decreases tc.content.len() - i,
    {
        proof {
            assert(blocks.take(i + 1).drop_last() =~= blocks.take(i as int));
            assert(blocks.take(i + 1).last() == tc.content@[i as int]@);
        }
        match &tc.content[i] {
            ToolCallContent::Diff { diff } => {
                let change = file_change(diff, tc);
                proof {
                    assert(change_views(changes@.push(change)) =~= change_views(changes@).push(
                        change@,
                    ));
                }
                changes.push(change);
            },
            _ => {},
        }
        i = i + 1;
    }
    assert(blocks.take(tc.content.len() as int) =~= blocks);
    changes
}

/// The result of a command. `raw` is the shell report read from the tool's
/// raw output: absent where there is no raw output, `Some(None)` where the
/// raw output holds no report.
pub open spec fn command_result(raw: Option<Option<ShellOutputView>>, completed: bool) -> Option<
    CommandRunResultView,
> {
    match raw {
        Some(Some(out)) => Some(
            CommandRunResultView {
                exit_status: match out.exit_code {
                    Some(code) => Some(CommandExitStatus::ExitCode { code }),
                    None => if completed {
                        Some(CommandExitStatus::Success { success: true })
                    } else {
                        None
                    },
                },
                output: Some(
                    match out.stdout {
                        Some(s) => s,
                        None => match out.stderr {
                            Some(e) => e,
                            None => Seq::empty(),
                        },
                    },
                ),
            },
        ),
        _ => if completed {
            Some(
                CommandRunResultView {
                    exit_status: Some(CommandExitStatus::Success { success: true }),
                    output: None,
                },
            )
        } else {
            None
        },
    }
}

/// Views of the shell report read from a raw output.
pub open spec fn opt_opt_shell(raw: Option<Option<ShellOutput>>) -> Option<
    Option<ShellOutputView>,
> {
    match raw {
        Some(o) => Some(opt_shell(o)),
        None => None,
    }
}

/// The result of a command, from the shell report read from the tool's raw
/// output and from whether the tool call has completed.
pub fn command_run_result(raw: Option<Option<ShellOutput>>, completed: bool) -> (r: Option<
    CommandRunResult,
>)
    ensures
        opt_run_result(r) == command_result(opt_opt_shell(raw), completed),
{
    match raw {
        Some(Some(out)) => {
            let exit_status = match out.exit_code {
                Some(code) => Some(CommandExitStatus::ExitCode { code }),
                None => if completed {
                    Some(CommandExitStatus::Success { success: true })
                } else {
                    None
                },
            };
            let output = match out.stdout {
                Some(s) => s,
                None => match out.stderr {
                    Some(e) => e,
                    None => String::new(),
                },
            };
            Some(CommandRunResult { exit_status, output: Some(output) })
        },
        _ => if completed {
            Some(
                CommandRunResult {
                    exit_status: Some(CommandExitStatus::Success { success: true }),
                    output: None,
                },
            )
        } else {
            None
        },
    }
}

/// The result of a generic tool: its raw output where it has one, else its
/// joined text.
pub open spec fn tool_result(p: PartialToolCallView) -> Option<ToolResult> {
    match p.raw_output {
        Some(output) => Some(ToolResult { value_type: ToolResultValueType::Json, value: output }),
        None => text_result(p),
    }
}

/// The joined text of a tool call as a result.
pub open spec fn text_result(p: PartialToolCallView) -> Option<ToolResult> {
    match collected_text(p.content) {
        Some(text) => Some(
            ToolResult { value_type: ToolResultValueType::Markdown, value: json_string(text) },
        ),
        None => None,
    }
}

/// The name of a generic tool: read from the id, else the title.
pub open spec fn tool_name(p: PartialToolCallView) -> Seq<char> {
    match tool_name_from_id(p.id) {
        Some(name) => name,
        None => p.title,
    }
}

/// The arguments of a think tool: its title and, where it has any, its
/// joined text.
pub open spec fn think_arguments(p: PartialToolCallView) -> serde_json::Value {
    match collected_text(p.content) {
        Some(text) => json_object(
            seq![("title"@, json_string(p.title)), ("content"@, json_string(text))],
        ),
        None => json_object(seq![("title"@, json_string(p.title))]),
    }
}

/// The arguments of a generic tool: its raw input where it has one, else what
/// its title denotes where the title begins with a brace.
pub open spec fn tool_arguments(p: PartialToolCallView) -> Option<serde_json::Value> {
    match p.raw_input {
        Some(raw) => Some(raw),
        None => if trim_start(p.title).len() > 0 && trim_start(p.title)[0] == '{' {
            json_parse(p.title)
        } else {
            None
        },
    }
}

/// The query of a search: the `query` of the raw input, else the title.
pub open spec fn search_text(p: PartialToolCallView) -> Seq<char> {
    match p.raw_input {
        Some(raw) => match search_query(raw) {
            Some(q) => q,
            None => p.title,
        },
        None => p.title,
    }
}

/// The address of a fetch: the `url` of the raw input; where that is absent
/// or empty, the first address in the title; else empty.
pub open spec fn fetch_address(p: PartialToolCallView) -> Seq<char> {
    let given = match p.raw_input {
        Some(raw) => match fetch_url(raw) {
            Some(u) => u,
            None => Seq::empty(),
        },
        None => Seq::empty(),
    };
    if given.len() == 0 {
        match first_url(p.title) {
            Some(found) => found,
            None => given,
        }
    } else {
        given
    }
}

/// Whether the tool call reads many files at once.
pub open spec fn reads_many_files(p: PartialToolCallView) -> bool {
    "read_many_files"@.is_prefix_of(p.id)
}

/// What a tool call does, by its kind.
pub open spec fn action_type(p: PartialToolCallView) -> ActionTypeView {
    match p.kind {
        ToolKind::Read => if reads_many_files(p) {
            ActionTypeView::Tool {
                tool_name: "read_many_files"@,
                arguments: Some(json_string(p.title)),
                result: text_result(p),
            }
        } else {
            ActionTypeView::FileRead { path: path_text(p) }
        },
        ToolKind::Edit => ActionTypeView::FileEdit {
            path: path_text(p),
            changes: changes_of(p.content, path_text(p)),
        },
        ToolKind::Execute => ActionTypeView::CommandRun {
            command: execute_command(p.title),
            result: command_result(
                match p.raw_output {
                    Some(v) => Some(shell_output(v)),
                    None => None,
                },
                p.status == ToolCallStatus::Completed,
            ),
        },
        ToolKind::Delete => ActionTypeView::FileEdit {
            path: path_text(p),
            changes: seq![FileChangeView::Delete],
        },
        ToolKind::Search => ActionTypeView::Search { query: search_text(p) },
        ToolKind::Fetch => ActionTypeView::WebFetch { url: fetch_address(p) },
        ToolKind::Think => ActionTypeView::Tool {
            tool_name: tool_name(p),
            arguments: Some(think_arguments(p)),
            result: tool_result(p),
        },
        ToolKind::SwitchMode => ActionTypeView::Other { description: "switch_mode"@ },
        ToolKind::Other | ToolKind::Move => ActionTypeView::Tool {
            tool_name: tool_name(p),
            arguments: tool_arguments(p),
            result: tool_result(p),
        },
    }
}

/// The text that the conversation shows for a tool call.
pub open spec fn tool_content(p: PartialToolCallView) -> Seq<char> {
    match p.kind {
        ToolKind::Execute => execute_command(p.title),
        ToolKind::Think => "Saving memory"@,
        ToolKind::Other => {
            let name = match tool_name_from_id(p.id) {
                Some(name) => name,
                None => "tool"@,
            };
            if p.title.len() == 0 {
                name
            } else {
                name + ": "@ + p.title
            }
        },
        ToolKind::Read => if reads_many_files(p) {
            "Read files"@
        } else {
            p.title
        },
        _ => p.title,
    }
}

/// The conversation entry of a tool call.
pub open spec fn tool_entry(p: PartialToolCallView) -> NormalizedEntryView {
    plain_entry(
        NormalizedEntryTypeView::ToolUse {
            tool_name: p.title,
            action_type: action_type(p),
            status: converted_status(p.status),
        },
        tool_content(p),
    )
}

/// Whether the tool call reads many files at once.
fn is_read_many_files(tc: &PartialToolCallData) -> (r: bool)
    ensures
        r == reads_many_files(tc@),
{
    let id = to_chars(tc.id.as_str());
    let prefix = to_chars("read_many_files");
    starts_with(&id, &prefix)
}

/// The joined text of a tool call as a result.
fn markdown_result(tc: &PartialToolCallData) -> (r: Option<ToolResult>)
    ensures
        r == text_result(tc@),
{
    match collect_text_content(&tc.content) {
        Some(text) => Some(
            ToolResult { value_type: ToolResultValueType::Markdown, value: string_value(text) },
        ),
        None => None,
    }
}

/// The result of a generic tool.
fn generic_result(tc: &PartialToolCallData) -> (r: Option<ToolResult>)
    ensures
        r == tool_result(tc@),
{
    match &tc.raw_output {
        Some(output) => Some(
            ToolResult { value_type: ToolResultValueType::Json, value: output.clone() },
        ),
        None => markdown_result(tc),
    }
}

/// The name of a generic tool.
fn generic_name(tc: &PartialToolCallData) -> (r: String)
    ensures
        r@ == tool_name(tc@),
{
    match extract_tool_name_from_id(tc.id.as_str()) {
        Some(name) => name,
        None => tc.title.clone(),
    }
}

/// The arguments of a think tool.
fn build_think_arguments(tc: &PartialToolCallData) -> (r: serde_json::Value)
    ensures
        r == think_arguments(tc@),
{
    let mut members: Vec<(String, serde_json::Value)> = Vec::new();
    members.push(("title".to_owned(), string_value(tc.title.clone())));
    match collect_text_content(&tc.content) {
        Some(text) => {
            members.push(("content".to_owned(), string_value(text)));
            assert(member_views(members@) =~= seq![
                ("title"@, json_string(tc@.title)),
                ("content"@, json_string(text@)),
            ]);
        },
        None => {
            assert(member_views(members@) =~= seq![("title"@, json_string(tc@.title))]);
        },
    }
    object_value(members)
}

/// The arguments of a generic tool.
fn generic_arguments(tc: &PartialToolCallData) -> (r: Option<serde_json::Value>)
    ensures
        r == tool_arguments(tc@),
{
    match &tc.raw_input {
        Some(raw) => Some(raw.clone()),
        None => {
            let title = to_chars(tc.title.as_str());
            if first_visible_is(&title, '{') {
                parse(tc.title.as_str())
            } else {
                None
            }
        },
    }
}

/// The query of a search.
fn search_query_of(tc: &PartialToolCallData) -> (r: String)
    ensures
        r@ == search_text(tc@),
{
    let found = match &tc.raw_input {
        Some(raw) => read_search_query(raw),
        None => None,
    };
    match found {
        Some(q) => q,
        None => tc.title.clone(),
    }
}

/// The address of a fetch.
fn fetch_address_of(tc: &PartialToolCallData) -> (r: String)
    ensures
        r@ == fetch_address(tc@),
{
    let found = match &tc.raw_input {
        Some(raw) => read_fetch_url(raw),
        None => None,
    };
    let given = match found {
        Some(u) => u,
        None => String::new(),
    };
    if given.as_str().is_empty() {
        match extract_url_from_text(tc.title.as_str()) {
            Some(extracted) => extracted,
            None => given,
        }
    } else {
        given
    }
}

/// What a tool call does, by its kind.
pub fn map_to_action_type(tc: &PartialToolCallData) -> (r: ActionType)
    ensures
        r@ == action_type(tc@),
{
    match tc.kind {
        ToolKind::Read => {
            if is_read_many_files(tc) {
                ActionType::Tool {
                    tool_name: "read_many_files".to_owned(),
                    arguments: Some(string_value(tc.title.clone())),
                    result: markdown_result(tc),
                }
            } else {
                ActionType::FileRead { path: path_or_empty(tc) }
            }
        },
        ToolKind::Edit => {
            let changes = extract_file_changes(tc);
            ActionType::FileEdit { path: path_or_empty(tc), changes }
        },
        ToolKind::Execute => {
            let command = AcpEventParser::parse_execute_command(tc.title.as_str());
            let completed = tc.status == ToolCallStatus::Completed;
            let raw = match &tc.raw_output {
                Some(v) => Some(ShellOutput::from_value(v)),
                None => None,
            };
            let result = command_run_result(raw, completed);
            ActionType::CommandRun { command, result }
        },
        ToolKind::Delete => {
            let mut changes: Vec<FileChange> = Vec::new();
            changes.push(FileChange::Delete);
            assert(change_views(changes@) =~= seq![FileChangeView::Delete]);
            ActionType::FileEdit { path: path_or_empty(tc), changes }
        },
        ToolKind::Search => ActionType::Search { query: search_query_of(tc) },
        ToolKind::Fetch => ActionType::WebFetch { url: fetch_address_of(tc) },
        ToolKind::Think => ActionType::Tool {
            tool_name: generic_name(tc),
            arguments: Some(build_think_arguments(tc)),
            result: generic_result(tc),
        },
        ToolKind::SwitchMode => ActionType::Other { description: "switch_mode".to_owned() },
        ToolKind::Other | ToolKind::Move => ActionType::Tool {
            tool_name: generic_name(tc),
            arguments: generic_arguments(tc),
            result: generic_result(tc),
        },
    }
}

/// The text that the conversation shows for a tool call.
pub fn get_tool_content(tc: &PartialToolCallData) -> (r: String)
    ensures
        r@ == tool_content(tc@),
{
    match tc.kind {
        ToolKind::Execute => AcpEventParser::parse_execute_command(tc.title.as_str()),
        ToolKind::Think => "Saving memory".to_owned(),
        ToolKind::Other => {
            let name = match extract_tool_name_from_id(tc.id.as_str()) {
                Some(name) => name,
                None => "tool".to_owned(),
            };
            if tc.title.as_str().is_empty() {
                name
            } else {
                let mut text = name;
                text.append(": ");
                text.append(tc.title.as_str());
                text
            }
        },
        ToolKind::Read => {
            if is_read_many_files(tc) {
                "Read files".to_owned()
            } else {
                tc.title.clone()
            }
        },
        _ => tc.title.clone(),
    }
}

/// The conversation entry of a tool call.
pub fn tool_use_entry(tc: &PartialToolCallData) -> (r: NormalizedEntry)
    ensures
        r@ == tool_entry(tc@),
{
    let action_type = map_to_action_type(tc);
    let entry_type = NormalizedEntryType::ToolUse {
        tool_name: tc.title.clone(),
        action_type,
        status: convert_tool_status(&tc.status),
    };
    NormalizedEntry::plain(entry_type, get_tool_content(tc))
}

} // verus!
