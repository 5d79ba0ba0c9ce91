//! Reading the lines of the session log.

use crate::protocol::AcpEvent;
use crate::text::{before_first, find, to_chars, trim, trim_bounds};
use vstd::prelude::*;

verus! {

/// The command of an execute tool, recovered from its annotated title: the
/// part of the title before the first `" ("`, without surrounding whitespace.
pub open spec fn execute_command(title: Seq<char>) -> Seq<char> {
    trim(before_first(title, " ("@))
}

/// Reader of log lines.
pub struct AcpEventParser;

impl AcpEventParser {
    /// The text of a log line that is handed to the event decoder: the line
    /// without surrounding whitespace.
    pub fn trim_line(line: &str) -> (r: &str)
        ensures
            r@ == trim(line@),
    {
        let chars = to_chars(line);
        let (a, b) = trim_bounds(&chars, chars.len());
        assert(chars@.take(chars@.len() as int) =~= chars@);
        line.substring_char(a, b)
    }

    /// The command of an execute tool, recovered from the tool's title.
    pub fn parse_execute_command(title: &str) -> (r: String)
        ensures
            r@ == execute_command(title@),
    {
        let chars = to_chars(title);
        let separator = to_chars(" (");
        let end = match find(&chars, &separator) {
            Some(i) => i,
            None => chars.len(),
        };
        assert(chars@.take(chars@.len() as int) =~= chars@);
        let (a, b) = trim_bounds(&chars, end);
        title.substring_char(a, b).to_owned()
    }
}

/// What one line of the log amounts to.
#[derive(Debug, Clone, PartialEq)]
pub enum ParsedLine {
    SessionId(String),
    Event(AcpEvent),
    Error(String),
    Done,
}

} // verus!
