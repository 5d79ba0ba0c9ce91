//! The harness: which child to launch for an agent, and which bridge drives
//! its prompt turn.

use crate::bridge::{initial_bridge, SessionBridge};
use vstd::prelude::*;

verus! {

/// The namespace of session files that a harness uses by default.
pub open spec fn default_namespace() -> Seq<char> {
    "gemini_sessions"@
}

/// The child process to launch: a shell that runs the agent's command, killed
/// when its handle is dropped, with all three standard streams piped.
#[derive(Debug, Clone, PartialEq)]
pub struct ChildCommand {
    pub program: String,
    pub args: Vec<String>,
    pub env: Vec<(String, String)>,
    pub kill_on_drop: bool,
    pub piped_stdio: bool,
}

/// View of [`ChildCommand`]: every string is the sequence of its characters.
pub struct ChildCommandView {
    pub program: Seq<char>,
    pub args: Seq<Seq<char>>,
    pub env: Seq<(Seq<char>, Seq<char>)>,
    pub kill_on_drop: bool,
    pub piped_stdio: bool,
}

impl View for ChildCommand {
    type V = ChildCommandView;

    open spec fn view(&self) -> ChildCommandView {
        ChildCommandView {
            program: self.program@,
            args: self.args@.map_values(|a: String| a@),
            env: self.env@.map_values(|e: (String, String)| (e.0@, e.1@)),
            kill_on_drop: self.kill_on_drop,
            piped_stdio: self.piped_stdio,
        }
    }
}

/// The child for an agent's command: the shell, given its one flag and the
/// command, with Node's warnings switched off.
pub open spec fn child_command(shell: Seq<char>, shell_arg: Seq<char>, full_command: Seq<char>)
    -> ChildCommandView {
    ChildCommandView {
        program: shell,
        args: seq![shell_arg, full_command],
        env: seq![("NODE_NO_WARNINGS"@, "1"@)],
        kill_on_drop: true,
        piped_stdio: true,
    }
}

/// Harness for agents that speak the protocol; it differs between agents
/// only in the namespace of its session files.
#[derive(Debug)]
pub struct AcpAgentHarness {
    session_namespace: String,
}

impl View for AcpAgentHarness {
    type V = Seq<char>;

    /// The namespace of the harness's session files.
    closed spec fn view(&self) -> Seq<char> {
        self.session_namespace@
    }
}

impl Default for AcpAgentHarness {
    fn default() -> (r: Self)
        ensures
            r@ == default_namespace(),
    {
        Self::new()
    }
}

impl AcpAgentHarness {
    /// A harness with the default namespace.
    pub fn new() -> (r: Self)
        ensures
            r@ == default_namespace(),
    {
        Self { session_namespace: "gemini_sessions".to_owned() }
    }

    /// A harness with a namespace of its own.
    pub fn with_session_namespace(namespace: &str) -> (r: Self)
        ensures
            r@ == namespace@,
    {
        Self { session_namespace: namespace.to_owned() }
    }

    /// The namespace of the harness's session files.
    pub fn session_namespace(&self) -> (r: &str)
        ensures
            r@ == self@,
    {
        self.session_namespace.as_str()
    }

    /// The child to launch for the agent's command, under the given shell.
    pub fn child_command(&self, shell: &str, shell_arg: &str, full_command: String) -> (r:
        ChildCommand)
        ensures
            r@ == child_command(shell@, shell_arg@, full_command@),
    {
        let mut args: Vec<String> = Vec::new();
        args.push(shell_arg.to_owned());
        args.push(full_command);
        let mut env: Vec<(String, String)> = Vec::new();
        env.push(("NODE_NO_WARNINGS".to_owned(), "1".to_owned()));
        let r = ChildCommand {
            program: shell.to_owned(),
            args,
            env,
            kill_on_drop: true,
            piped_stdio: true,
        };
        assert(r@.args =~= seq![shell_arg@, full_command@]);
        assert(r@.env =~= seq![("NODE_NO_WARNINGS"@, "1"@)]);
        r
    }

    /// The bridge for the first prompt of a fresh session.
    pub fn bridge(&self, prompt: String) -> (r: SessionBridge)
        ensures
            r@ == initial_bridge(self@, None, prompt@),
    {
        SessionBridge::new(self.session_namespace.clone(), None, prompt)
    }

    /// The bridge for a follow-up prompt, which forks the given session.
    pub fn follow_up_bridge(&self, prompt: String, session_id: &str) -> (r: SessionBridge)
        ensures
            r@ == initial_bridge(self@, Some(session_id@), prompt@),
    {
        SessionBridge::new(self.session_namespace.clone(), Some(session_id.to_owned()), prompt)
    }
}

} // verus!
