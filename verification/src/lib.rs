//! Harness and log normalizer for an agent subprocess that speaks the
//! Agent-Client-Protocol over its standard streams.
//!
//! The library holds the decisions; its caller does the input and output.
//!
//! - [`bridge`] decides the steps of one prompt turn: initialization, the
//!   fresh or forked session, the prompt, and the shutdown.
//! - [`normalize`] turns the events of the session log into patches of the
//!   conversation; [`tool_call`] accumulates tool calls and classifies them.
//! - [`protocol`] and [`entry`] hold the events that come in and the
//!   conversation entries that go out.
//! - [`parser`], [`text`], [`framing`], [`decode`], [`json`] and [`pattern`]
//!   read and write text, lines and JSON values.
//! - [`laws`] and [`bridge_laws`] state what holds of the normalizer and of
//!   the bridge for every input.

pub mod bridge;
pub mod bridge_laws;
pub mod decode;
pub mod entry;
pub mod framing;
pub mod harness;
pub mod json;
pub mod laws;
pub mod normalize;
pub mod parser;
pub mod pattern;
pub mod protocol;
pub mod text;
pub mod tool_call;

pub use bridge::SessionBridge;
pub use entry::EntryIndexProvider;
pub use harness::AcpAgentHarness;
pub use normalize::{normalize_logs, Normalizer};
pub use parser::{AcpEventParser, ParsedLine};
pub use protocol::AcpEvent;
