//! The session bridge: the decisions of one prompt turn.
//!
//! The bridge is a state machine. Its caller performs the outside work
//! (opening the session store, talking to the agent, writing the log) and
//! reports each result as a [`BridgeEvent`]; the bridge answers with the
//! [`BridgeAction`]s to perform next, in order. [`bridge_step`] is the
//! transition function.

use crate::json::{
    json_as_str, json_object, json_string, json_text, member_views, object_value, string_value,
    to_text,
};
use crate::protocol::{AcpEvent, AcpEventView};
use crate::text::{opt_text, same_text};
use vstd::prelude::*;

verus! {

/// `Uuid::new_v4` of the `uuid` crate, written out by its `Display`: a random
/// identifier in hyphenated form, which has 36 characters. Two calls may
/// differ. The crate panics where the system has no source of random bytes.
#[verifier::external_body]
pub(crate) fn fresh_session_id() -> (r: String)
    ensures
        r@.len() == 36,
{
    uuid::Uuid::new_v4().to_string()
}

/// `ErrorCode::INTERNAL_ERROR` of the `agent_client_protocol` crate: the code
/// of an internal error, which is -32603.
#[verifier::external_body]
pub(crate) fn internal_error_code() -> (r: i32)
    ensures
        r == -32603,
{
    agent_client_protocol::ErrorCode::INTERNAL_ERROR.code
}

/// Where a prompt turn stands.
#[derive(Debug, Clone, Copy, PartialEq, Eq, Structural)]
pub enum BridgePhase {
    /// Nothing has been asked for yet.
    Created,
    /// The session store is being opened.
    OpeningStore,
    /// The agent is being initialized.
    Initializing,
    /// The transcript of the forked session is being read.
    ReadingHistory,
    /// The agent is creating its session.
    CreatingSession,
    /// The prompt of a forked session is being composed.
    ResumingPrompt,
    /// The prompt has been sent.
    Prompting,
    /// The turn is over.
    Finished,
}

/// How the prompt call ended.
#[derive(Debug, Clone, PartialEq)]
pub enum PromptOutcome {
    /// The agent answered; `stop_reason` is the serialized stop reason,
    /// absent where it could not be serialized.
    Stopped { stop_reason: Option<String> },
    /// The call failed with a protocol error.
    Failed { code: i32, data: Option<serde_json::Value>, message: String },
}

/// View of [`PromptOutcome`]: every string is the sequence of its characters.
pub enum PromptOutcomeView {
    Stopped { stop_reason: Option<Seq<char>> },
    Failed { code: i32, data: Option<serde_json::Value>, message: Seq<char> },
}

impl View for PromptOutcome {
    type V = PromptOutcomeView;

    open spec fn view(&self) -> PromptOutcomeView {
        match self {
            PromptOutcome::Stopped { stop_reason } => PromptOutcomeView::Stopped {
                stop_reason: opt_text(*stop_reason),
            },
            PromptOutcome::Failed { code, data, message } => PromptOutcomeView::Failed {
                code: *code,
                data: *data,
                message: message@,
            },
        }
    }
}

/// A result of outside work, reported to the bridge.
#[derive(Debug, Clone, PartialEq)]
pub enum BridgeEvent {
    /// The child runs and its streams are wired.
    Launched,
    /// The session store was opened, or could not be.
    StoreOpened { ok: bool },
    /// The agent answered `initialize`; the answer is not looked at.
    Initialized,
    /// The transcript of the forked session, if it could be read.
    HistoryRead { history: Option<String> },
    /// The agent's session id, or `None` where it created no session.
    SessionCreated { session_id: Option<String> },
    /// The prompt for a forked session, if the store could compose one.
    ResumePrompt { prompt: Option<String> },
    /// The prompt call returned.
    PromptFinished { outcome: PromptOutcome },
}

/// View of [`BridgeEvent`]: every string is the sequence of its characters.
pub enum BridgeEventView {
    Launched,
    StoreOpened { ok: bool },
    Initialized,
    HistoryRead { history: Option<Seq<char>> },
    SessionCreated { session_id: Option<Seq<char>> },
    ResumePrompt { prompt: Option<Seq<char>> },
    PromptFinished { outcome: PromptOutcomeView },
}

impl View for BridgeEvent {
    type V = BridgeEventView;

    open spec fn view(&self) -> BridgeEventView {
        match self {
            BridgeEvent::Launched => BridgeEventView::Launched,
            BridgeEvent::StoreOpened { ok } => BridgeEventView::StoreOpened { ok: *ok },
            BridgeEvent::Initialized => BridgeEventView::Initialized,
            BridgeEvent::HistoryRead { history } => BridgeEventView::HistoryRead {
                history: opt_text(*history),
            },
            BridgeEvent::SessionCreated { session_id } => BridgeEventView::SessionCreated {
                session_id: opt_text(*session_id),
            },
            BridgeEvent::ResumePrompt { prompt } => BridgeEventView::ResumePrompt {
                prompt: opt_text(*prompt),
            },
            BridgeEvent::PromptFinished { outcome } => BridgeEventView::PromptFinished {
                outcome: outcome@,
            },
        }
    }
}

/// Outside work that the bridge asks for.
#[derive(Debug, Clone, PartialEq)]
pub enum BridgeAction {
    /// Open the session store of the namespace.
    OpenStore { namespace: String },
    /// Note the user's prompt with the client.
    RecordUserPrompt { prompt: String },
    /// Send `initialize` with these client capabilities.
    Initialize { read_text_file: bool, write_text_file: bool, terminal: bool },
    /// Copy the transcript of `existing` to the session `new_id`.
    ForkSession { existing: String, new_id: String },
    /// Read the transcript of the session.
    ReadSession { session_id: String },
    /// Ask the agent for a new session, without servers, in the working
    /// directory, with the given `meta`.
    NewSession { meta: Option<serde_json::Value> },
    /// Compose the prompt that resumes the session.
    GenerateResumePrompt { session_id: String, prompt: String },
    /// Put the event on the log.
    Emit { event: AcpEvent },
    /// From now on, put every event of the agent on the log and append it to
    /// the session's file.
    StartForwarder { session_id: String },
    /// Append the line to the session's file.
    Persist { session_id: String, line: String },
    /// Send the prompt, as one text block, to the agent's session.
    SendPrompt { session_id: String, text: String },
    /// Tell the owner of the child that the turn is over.
    SignalExit,
    /// Tell the agent to cancel the session's work.
    Cancel { session_id: String },
    /// Drop the connection, stop the forwarding tasks and close the log.
    Shutdown,
}

/// View of [`BridgeAction`]: every string is the sequence of its characters.
pub enum BridgeActionView {
    OpenStore { namespace: Seq<char> },
    RecordUserPrompt { prompt: Seq<char> },
    Initialize { read_text_file: bool, write_text_file: bool, terminal: bool },
    ForkSession { existing: Seq<char>, new_id: Seq<char> },
    ReadSession { session_id: Seq<char> },
    NewSession { meta: Option<serde_json::Value> },
    GenerateResumePrompt { session_id: Seq<char>, prompt: Seq<char> },
    Emit { event: AcpEventView },
    StartForwarder { session_id: Seq<char> },
    Persist { session_id: Seq<char>, line: Seq<char> },
    SendPrompt { session_id: Seq<char>, text: Seq<char> },
    SignalExit,
    Cancel { session_id: Seq<char> },
    Shutdown,
}

impl View for BridgeAction {
    type V = BridgeActionView;

    open spec fn view(&self) -> BridgeActionView {
        match self {
            BridgeAction::OpenStore { namespace } => BridgeActionView::OpenStore {
                namespace: namespace@,
            },
            BridgeAction::RecordUserPrompt { prompt } => BridgeActionView::RecordUserPrompt {
                prompt: prompt@,
            },
            BridgeAction::Initialize { read_text_file, write_text_file, terminal } => {
                BridgeActionView::Initialize {
                    read_text_file: *read_text_file,
                    write_text_file: *write_text_file,
                    terminal: *terminal,
                }
            },
            BridgeAction::ForkSession { existing, new_id } => BridgeActionView::ForkSession {
                existing: existing@,
                new_id: new_id@,
            },
            BridgeAction::ReadSession { session_id } => BridgeActionView::ReadSession {
                session_id: session_id@,
            },
            BridgeAction::NewSession { meta } => BridgeActionView::NewSession { meta: *meta },
            BridgeAction::GenerateResumePrompt { session_id, prompt } => {
                BridgeActionView::GenerateResumePrompt { session_id: session_id@, prompt: prompt@ }
            },
            BridgeAction::Emit { event } => BridgeActionView::Emit { event: event@ },
            BridgeAction::StartForwarder { session_id } => BridgeActionView::StartForwarder {
                session_id: session_id@,
            },
            BridgeAction::Persist { session_id, line } => BridgeActionView::Persist {
                session_id: session_id@,
                line: line@,
            },
            BridgeAction::SendPrompt { session_id, text } => BridgeActionView::SendPrompt {
                session_id: session_id@,
                text: text@,
            },
            BridgeAction::SignalExit => BridgeActionView::SignalExit,
            BridgeAction::Cancel { session_id } => BridgeActionView::Cancel {
                session_id: session_id@,
            },
            BridgeAction::Shutdown => BridgeActionView::Shutdown,
        }
    }
}

/// Views of a list of actions.
pub open spec fn action_views(s: Seq<BridgeAction>) -> Seq<BridgeActionView> {
    s.map_values(|a: BridgeAction| a@)
}

/// State of the bridge.
pub struct BridgeView {
    pub phase: BridgePhase,
    pub namespace: Seq<char>,
    /// The session to fork, for a follow-up.
    pub existing_session: Option<Seq<char>>,
    /// The user's prompt.
    pub prompt: Seq<char>,
    /// The session id that the log shows; empty until it is known.
    pub ui_session_id: Seq<char>,
    /// The agent's session id; empty until it is known.
    pub acp_session_id: Seq<char>,
}

/// The bridge before anything has happened.
pub open spec fn initial_bridge(
    namespace: Seq<char>,
    existing_session: Option<Seq<char>>,
    prompt: Seq<char>,
) -> BridgeView {
    BridgeView {
        phase: BridgePhase::Created,
        namespace,
        existing_session,
        prompt,
        ui_session_id: Seq::empty(),
        acp_session_id: Seq::empty(),
    }
}

/// The `meta` of the request for a new session: the transcript of the forked
/// session under `history_jsonl`, where there is one.
pub open spec fn history_meta(history: Option<Seq<char>>) -> Option<serde_json::Value> {
    match history {
        Some(h) => Some(json_object(seq![("history_jsonl"@, json_string(h))])),
        None => None,
    }
}

/// The line that records the prompt in the session's file: the compact text
/// of an object with the prompt under `user`; empty where that has no text.
pub open spec fn user_record(prompt: Seq<char>) -> Seq<char> {
    match json_text(json_object(seq![("user"@, json_string(prompt))])) {
        Some(line) => line,
        None => Seq::empty(),
    }
}

/// The message that marks a failure as the agent's own shutdown.
pub open spec fn shutdown_notice() -> Seq<char> {
    "server shut down unexpectedly"@
}

/// Whether a failed prompt is the agent's own shutdown: an internal error
/// whose data is the shutdown notice.
pub open spec fn is_benign_shutdown(code: i32, data: Option<serde_json::Value>) -> bool {
    code == -32603 && match data {
        Some(d) => json_as_str(d) == Some(shutdown_notice()),
        None => false,
    }
}

/// What the end of the prompt call puts on the log: the stop reason on
/// success, nothing for the agent's own shutdown, the error otherwise.
pub open spec fn outcome_actions(outcome: PromptOutcomeView) -> Seq<BridgeActionView> {
    match outcome {
        PromptOutcomeView::Stopped { stop_reason } => seq![
            BridgeActionView::Emit {
                event: AcpEventView::Done(
                    match stop_reason {
                        Some(r) => r,
                        None => Seq::empty(),
                    },
                ),
            },
        ],
        PromptOutcomeView::Failed { code, data, message } => if is_benign_shutdown(code, data) {
            Seq::empty()
        } else {
            seq![BridgeActionView::Emit { event: AcpEventView::Error(message) }]
        },
    }
}

/// The start of the turn, once both session ids and the prompt to send are
/// known: the session id goes on the log, forwarding starts, the prompt is
/// recorded and sent.
pub open spec fn begin_turn(st: BridgeView, prompt_to_send: Seq<char>) -> (
    BridgeView,
    Seq<BridgeActionView>,
) {
    (
        BridgeView { phase: BridgePhase::Prompting, ..st },
        seq![
            BridgeActionView::Emit { event: AcpEventView::SessionStart(st.ui_session_id) },
            BridgeActionView::StartForwarder { session_id: st.ui_session_id },
            BridgeActionView::Persist {
                session_id: st.ui_session_id,
                line: user_record(prompt_to_send),
            },
            BridgeActionView::SendPrompt { session_id: st.acp_session_id, text: prompt_to_send },
        ],
    )
}

/// The end of the turn: what the outcome puts on the log, then the exit
/// signal, the cancellation and the shutdown.
pub open spec fn end_turn(st: BridgeView, outcome: PromptOutcomeView) -> (
    BridgeView,
    Seq<BridgeActionView>,
) {
    (
        BridgeView { phase: BridgePhase::Finished, ..st },
        outcome_actions(outcome) + seq![
            BridgeActionView::SignalExit,
            BridgeActionView::Cancel { session_id: st.acp_session_id },
            BridgeActionView::Shutdown,
        ],
    )
}

/// The transition function of the bridge. `minted` is the identifier that is
/// drawn for the session of a follow-up. An event that the phase does not
/// wait for changes nothing.
pub open spec fn bridge_step(st: BridgeView, event: BridgeEventView, minted: Seq<char>) -> (
    BridgeView,
    Seq<BridgeActionView>,
) {
    match (st.phase, event) {
        (BridgePhase::Created, BridgeEventView::Launched) => (
            BridgeView { phase: BridgePhase::OpeningStore, ..st },
            seq![BridgeActionView::OpenStore { namespace: st.namespace }],
        ),
        (BridgePhase::OpeningStore, BridgeEventView::StoreOpened { ok }) => if ok {
            (
                BridgeView { phase: BridgePhase::Initializing, ..st },
                seq![
                    BridgeActionView::RecordUserPrompt { prompt: st.prompt },
                    BridgeActionView::Initialize {
                        read_text_file: false,
                        write_text_file: false,
                        terminal: false,
                    },
                ],
            )
        } else {
            (BridgeView { phase: BridgePhase::Finished, ..st }, Seq::empty())
        },
        (BridgePhase::Initializing, BridgeEventView::Initialized) => match st.existing_session {
            Some(existing) => (
                BridgeView { phase: BridgePhase::ReadingHistory, ui_session_id: minted, ..st },
                seq![
                    BridgeActionView::ForkSession { existing, new_id: minted },
                    BridgeActionView::ReadSession { session_id: minted },
                ],
            ),
            None => (
                BridgeView { phase: BridgePhase::CreatingSession, ..st },
                seq![BridgeActionView::NewSession { meta: None }],
            ),
        },
        (BridgePhase::ReadingHistory, BridgeEventView::HistoryRead { history }) => (
            BridgeView { phase: BridgePhase::CreatingSession, ..st },
            seq![BridgeActionView::NewSession { meta: history_meta(history) }],
        ),
        (BridgePhase::CreatingSession, BridgeEventView::SessionCreated { session_id }) => {
            match session_id {
                None => (BridgeView { phase: BridgePhase::Finished, ..st }, Seq::empty()),
                Some(id) => match st.existing_session {
                    Some(_) => (
                        BridgeView {
                            phase: BridgePhase::ResumingPrompt,
                            acp_session_id: id,
                            ..st
                        },
                        seq![
                            BridgeActionView::GenerateResumePrompt {
                                session_id: st.ui_session_id,
                                prompt: st.prompt,
                            },
                        ],
                    ),
                    None => begin_turn(
                        BridgeView { ui_session_id: id, acp_session_id: id, ..st },
                        st.prompt,
                    ),
                },
            }
        },
        (BridgePhase::ResumingPrompt, BridgeEventView::ResumePrompt { prompt }) => begin_turn(
            st,
            match prompt {
                Some(p) => p,
                None => st.prompt,
            },
        ),
        (BridgePhase::Prompting, BridgeEventView::PromptFinished { outcome }) => end_turn(
            st,
            outcome,
        ),
        _ => (st, Seq::empty()),
    }
}

/// Whether a failed prompt is the agent's own shutdown.
pub fn check_benign_shutdown(code: i32, data: &Option<serde_json::Value>) -> (r: bool)
    ensures
        r == is_benign_shutdown(code, *data),
{
    if code != internal_error_code() {
        return false;
    }
    match data {
        Some(d) => match d.as_str() {
            Some(s) => same_text(s, "server shut down unexpectedly"),
            None => false,
        },
        None => false,
    }
}

/// Builds the `meta` of the request for a new session.
pub fn build_history_meta(history: Option<String>) -> (r: Option<serde_json::Value>)
    ensures
        r == history_meta(opt_text(history)),
{
    match history {
        Some(h) => {
            let mut members: Vec<(String, serde_json::Value)> = Vec::new();
            members.push(("history_jsonl".to_owned(), string_value(h)));
            assert(member_views(members@) =~= seq![("history_jsonl"@, json_string(h@))]);
            Some(object_value(members))
        },
        None => None,
    }
}

/// Writes the line that records the prompt in the session's file.
pub fn build_user_record(prompt: &str) -> (r: String)
    ensures
        r@ == user_record(prompt@),
{
    let mut members: Vec<(String, serde_json::Value)> = Vec::new();
    members.push(("user".to_owned(), string_value(prompt.to_owned())));
    assert(member_views(members@) =~= seq![("user"@, json_string(prompt@))]);
    let record = object_value(members);
    match to_text(&record) {
        Some(line) => line,
        None => String::new(),
    }
}

/// The session bridge.
pub struct SessionBridge {
    phase: BridgePhase,
    namespace: String,
    existing_session: Option<String>,
    prompt: String,
    ui_session_id: String,
    acp_session_id: String,
}

impl View for SessionBridge {
    type V = BridgeView;

    closed spec fn view(&self) -> BridgeView {
        BridgeView {
            phase: self.phase,
            namespace: self.namespace@,
            existing_session: opt_text(self.existing_session),
            prompt: self.prompt@,
            ui_session_id: self.ui_session_id@,
            acp_session_id: self.acp_session_id@,
        }
    }
}

impl SessionBridge {
    /// A bridge for one prompt turn: of a fresh session, or of a follow-up
    /// that forks `existing_session`.
    pub fn new(namespace: String, existing_session: Option<String>, prompt: String) -> (r:
        SessionBridge)
        ensures
            r@ == initial_bridge(namespace@, opt_text(existing_session), prompt@),
    {
        SessionBridge {
            phase: BridgePhase::Created,
            namespace,
            existing_session,
            prompt,
            ui_session_id: String::new(),
            acp_session_id: String::new(),
        }
    }

    /// Where the turn stands.
    pub fn phase(&self) -> (r: BridgePhase)
        ensures
            r == self@.phase,
    {
        self.phase
    }

    /// The session id that the log shows; empty until it is known.
    pub fn ui_session_id(&self) -> (r: &str)
        ensures
            r@ == self@.ui_session_id,
    {
        self.ui_session_id.as_str()
    }

    /// The agent's session id; empty until it is known.
    pub fn acp_session_id(&self) -> (r: &str)
        ensures
            r@ == self@.acp_session_id,
    {
        self.acp_session_id.as_str()
    }

    /// Starts the turn: moves to `Prompting` and returns the four actions
    /// that open it.
    fn begin(&mut self, prompt_to_send: String) -> (r: Vec<BridgeAction>)
        ensures
            (final(self)@, action_views(r@)) == begin_turn(old(self)@, prompt_to_send@),
    {
        self.phase = BridgePhase::Prompting;
        let mut actions: Vec<BridgeAction> = Vec::new();
        actions.push(
            BridgeAction::Emit { event: AcpEvent::SessionStart(self.ui_session_id.clone()) },
        );
        actions.push(BridgeAction::StartForwarder { session_id: self.ui_session_id.clone() });
        actions.push(
            BridgeAction::Persist {
                session_id: self.ui_session_id.clone(),
                line: build_user_record(prompt_to_send.as_str()),
            },
        );
        actions.push(
            BridgeAction::SendPrompt {
                session_id: self.acp_session_id.clone(),
                text: prompt_to_send,
            },
        );
        assert(action_views(actions@) =~= begin_turn(old(self)@, prompt_to_send@).1);
        actions
    }

    /// Ends the turn: moves to `Finished` and returns what the outcome puts
    /// on the log, followed by the exit signal, the cancellation and the
    /// shutdown.
    fn end(&mut self, outcome: PromptOutcome) -> (r: Vec<BridgeAction>)
        ensures
            (final(self)@, action_views(r@)) == end_turn(old(self)@, outcome@),
    {
        self.phase = BridgePhase::Finished;
        let mut actions: Vec<BridgeAction> = Vec::new();
        match outcome {
            PromptOutcome::Stopped { stop_reason } => {
                let reason = match stop_reason {
                    Some(r) => r,
                    None => String::new(),
                };
                actions.push(BridgeAction::Emit { event: AcpEvent::Done(reason) });
            },
            PromptOutcome::Failed { code, data, message } => {
                if !check_benign_shutdown(code, &data) {
                    actions.push(BridgeAction::Emit { event: AcpEvent::Error(message) });
                }
            },
        }
        actions.push(BridgeAction::SignalExit);
        actions.push(BridgeAction::Cancel { session_id: self.acp_session_id.clone() });
        actions.push(BridgeAction::Shutdown);
        assert(action_views(actions@) =~= end_turn(old(self)@, outcome@).1);
        actions
    }

    /// Takes one event, given the identifier to use for the session of a
    /// follow-up, and returns the actions to perform next, in order.
    pub fn step_with(&mut self, event: BridgeEvent, minted: String) -> (r: Vec<BridgeAction>)
        ensures
            (final(self)@, action_views(r@)) == bridge_step(old(self)@, event@, minted@),
    {
        let mut actions: Vec<BridgeAction> = Vec::new();
        assert(action_views(actions@) =~= Seq::empty());
        match (self.phase, event) {
            (BridgePhase::Created, BridgeEvent::Launched) => {
                self.phase = BridgePhase::OpeningStore;
                actions.push(BridgeAction::OpenStore { namespace: self.namespace.clone() });
                assert(action_views(actions@) =~= bridge_step(old(self)@, event@, minted@).1);
                actions
            },
            (BridgePhase::OpeningStore, BridgeEvent::StoreOpened { ok }) => {
                if ok {
                    self.phase = BridgePhase::Initializing;
                    actions.push(BridgeAction::RecordUserPrompt { prompt: self.prompt.clone() });
                    actions.push(
                        BridgeAction::Initialize {
                            read_text_file: false,
                            write_text_file: false,
                            terminal: false,
                        },
                    );
                    assert(action_views(actions@) =~= bridge_step(old(self)@, event@, minted@).1);
                } else {
                    self.phase = BridgePhase::Finished;
                }
                actions
            },
            (BridgePhase::Initializing, BridgeEvent::Initialized) => {
                match &self.existing_session {
                    Some(existing) => {
                        actions.push(
                            BridgeAction::ForkSession {
                                existing: existing.clone(),
                                new_id: minted.clone(),
                            },
                        );
                        actions.push(BridgeAction::ReadSession { session_id: minted.clone() });
                        self.phase = BridgePhase::ReadingHistory;
                        self.ui_session_id = minted;
                    },
                    None => {
                        actions.push(BridgeAction::NewSession { meta: None });
                        self.phase = BridgePhase::CreatingSession;
                    },
                }
                assert(action_views(actions@) =~= bridge_step(old(self)@, event@, minted@).1);
                actions
            },
            (BridgePhase::ReadingHistory, BridgeEvent::HistoryRead { history }) => {
                self.phase = BridgePhase::CreatingSession;
                actions.push(BridgeAction::NewSession { meta: build_history_meta(history) });
                assert(action_views(actions@) =~= bridge_step(old(self)@, event@, minted@).1);
                actions
            },
            (BridgePhase::CreatingSession, BridgeEvent::SessionCreated { session_id }) => {
                match session_id {
                    None => {
                        self.phase = BridgePhase::Finished;
                        actions
                    },
                    Some(id) => {
                        if self.existing_session.is_some() {
                            self.phase = BridgePhase::ResumingPrompt;
                            self.acp_session_id = id;
                            actions.push(
                                BridgeAction::GenerateResumePrompt {
                                    session_id: self.ui_session_id.clone(),
                                    prompt: self.prompt.clone(),
                                },
                            );
                            assert(action_views(actions@) =~= bridge_step(
                                old(self)@,
                                event@,
                                minted@,
                            ).1);
                            actions
                        } else {
                            self.ui_session_id = id.clone();
                            self.acp_session_id = id;
                            let prompt = self.prompt.clone();
                            self.begin(prompt)
                        }
                    },
                }
            },
            (BridgePhase::ResumingPrompt, BridgeEvent::ResumePrompt { prompt }) => {
                let prompt_to_send = match prompt {
                    Some(p) => p,
                    None => self.prompt.clone(),
                };
                self.begin(prompt_to_send)
            },
            (BridgePhase::Prompting, BridgeEvent::PromptFinished { outcome }) => self.end(outcome),
            _ => actions,
        }
    }

    /// Whether the next event makes the bridge draw a session identifier:
    /// the agent has been initialized for a follow-up.
    pub fn mints_session_id(&self, event: &BridgeEvent) -> (r: bool)
        ensures
            r == (self@.phase == BridgePhase::Initializing && event@ is Initialized
                && self@.existing_session is Some),
    {
        let waiting = self.phase == BridgePhase::Initializing;
        let initialized = match event {
            BridgeEvent::Initialized => true,
            _ => false,
        };
        waiting && initialized && self.existing_session.is_some()
    }

    /// Takes one event and returns the actions to perform next, in order.
    /// For a follow-up it draws a random identifier for the new session when
    /// the agent has been initialized.
    pub fn step(&mut self, event: BridgeEvent) -> (r: Vec<BridgeAction>)
        ensures
            exists|minted: Seq<char>|
                (final(self)@, action_views(r@)) == #[trigger] bridge_step(
                    old(self)@,
                    event@,
                    minted,
                ),
    {
        let minted = if self.mints_session_id(&event) {
            fresh_session_id()
        } else {
            String::new()
        };
        self.step_with(event, minted)
    }
}

} // verus!
