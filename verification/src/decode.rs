//! The record shapes that tools report in their raw JSON payloads.
//!
//! A record is read from a JSON object by field name, or from a JSON array
//! by position. Members that the record does not name are ignored in an
//! object; an array may not be longer than the record. An optional member may
//! be missing or `null`.

use crate::json::{
    field, json_array, json_as_i64, json_as_str, json_field, json_is_null, json_is_object,
};
use crate::text::opt_text;
use vstd::prelude::*;

verus! {

/// What a shell tool reports of a finished command.
#[derive(Debug, Clone, PartialEq)]
pub struct ShellOutput {
    pub exit_code: Option<i32>,
    pub stdout: Option<String>,
    pub stderr: Option<String>,
}

/// View of [`ShellOutput`]: every string is the sequence of its characters.
pub struct ShellOutputView {
    pub exit_code: Option<i32>,
    pub stdout: Option<Seq<char>>,
    pub stderr: Option<Seq<char>>,
}

impl View for ShellOutput {
    type V = ShellOutputView;

    open spec fn view(&self) -> ShellOutputView {
        ShellOutputView {
            exit_code: self.exit_code,
            stdout: opt_text(self.stdout),
            stderr: opt_text(self.stderr),
        }
    }
}

/// Views of an optional shell report.
pub open spec fn opt_shell(o: Option<ShellOutput>) -> Option<ShellOutputView> {
    match o {
        Some(s) => Some(s@),
        None => None,
    }
}

/// Whether a record of at most `fields` fields can be read from the value.
pub open spec fn is_record(v: serde_json::Value, fields: nat) -> bool {
    json_is_object(v) || match json_array(v) {
        Some(items) => items.len() <= fields,
        None => false,
    }
}

/// The member of a record that is called `key` and stands at position `pos`.
pub open spec fn member(v: serde_json::Value, key: Seq<char>, pos: int) -> Option<
    serde_json::Value,
> {
    if json_is_object(v) {
        json_field(v, key)
    } else {
        match json_array(v) {
            Some(items) => if 0 <= pos < items.len() {
                Some(items[pos])
            } else {
                None
            },
            None => None,
        }
    }
}

/// An optional 32-bit integer member; the outer `None` marks a member of
/// another type or out of range.
pub open spec fn optional_i32(m: Option<serde_json::Value>) -> Option<Option<i32>> {
    match m {
        None => Some(None),
        Some(x) => if json_is_null(x) {
            Some(None)
        } else {
            match json_as_i64(x) {
                Some(n) => if i32::MIN <= n <= i32::MAX {
                    Some(Some(n as i32))
                } else {
                    None
                },
                None => None,
            }
        },
    }
}

/// An optional string member; the outer `None` marks a member of another type.
pub open spec fn optional_string(m: Option<serde_json::Value>) -> Option<Option<Seq<char>>> {
    match m {
        None => Some(None),
        Some(x) => if json_is_null(x) {
            Some(None)
        } else {
            match json_as_str(x) {
                Some(s) => Some(Some(s)),
                None => None,
            }
        },
    }
}

/// A required string member.
pub open spec fn required_string(m: Option<serde_json::Value>) -> Option<Seq<char>> {
    match m {
        None => None,
        Some(x) => json_as_str(x),
    }
}

/// The shell report that a value holds: a record of the optional members
/// `exit_code`, `stdout` and `stderr`.
pub open spec fn shell_output(v: serde_json::Value) -> Option<ShellOutputView> {
    if !is_record(v, 3) {
        None
    } else {
        match (
            optional_i32(member(v, "exit_code"@, 0)),
            optional_string(member(v, "stdout"@, 1)),
            optional_string(member(v, "stderr"@, 2)),
        ) {
            (Some(exit_code), Some(stdout), Some(stderr)) => Some(
                ShellOutputView { exit_code, stdout, stderr },
            ),
            _ => None,
        }
    }
}

/// The query that a value holds: a record of the one required member `query`.
pub open spec fn search_query(v: serde_json::Value) -> Option<Seq<char>> {
    if !is_record(v, 1) {
        None
    } else {
        required_string(member(v, "query"@, 0))
    }
}

/// The address that a value holds: a record of the one required member `url`.
pub open spec fn fetch_url(v: serde_json::Value) -> Option<Seq<char>> {
    if !is_record(v, 1) {
        None
    } else {
        required_string(member(v, "url"@, 0))
    }
}

/// Whether a record of at most `fields` fields can be read from the value.
fn check_record(v: &serde_json::Value, fields: usize) -> (r: bool)
    ensures
        r == is_record(*v, fields as nat),
{
    if v.is_object() {
        true
    } else {
        match v.as_array() {
            Some(items) => items.len() <= fields,
            None => false,
        }
    }
}

/// The member of a record that is called `key` and stands at position `pos`.
fn read_member<'a>(v: &'a serde_json::Value, key: &str, pos: usize) -> (r: Option<
    &'a serde_json::Value,
>)
    ensures
        match r {
            Some(m) => member(*v, key@, pos as int) == Some(*m),
            None => member(*v, key@, pos as int) is None,
        },
{
    if v.is_object() {
        field(v, key)
    } else {
        match v.as_array() {
            Some(items) => if pos < items.len() {
                Some(&items[pos])
            } else {
                None
            },
            None => None,
        }
    }
}

/// Reads an optional 32-bit integer member.
fn read_optional_i32(m: Option<&serde_json::Value>) -> (r: Option<Option<i32>>)
    ensures
        r == optional_i32(
            match m {
                Some(x) => Some(*x),
                None => None,
            },
        ),
{
    match m {
        None => Some(None),
        Some(x) => {
            if x.is_null() {
                Some(None)
            } else {
                match x.as_i64() {
                    Some(n) => if -2147483648 <= n && n <= 2147483647 {
                        Some(Some(n as i32))
                    } else {
                        None
                    },
                    None => None,
                }
            }
        },
    }
}

/// Reads an optional string member.
fn read_optional_string(m: Option<&serde_json::Value>) -> (r: Option<Option<String>>)
    ensures
        match r {
            Some(o) => optional_string(
                match m {
                    Some(x) => Some(*x),
                    None => None,
                },
            ) == Some(opt_text(o)),
            None => optional_string(
                match m {
                    Some(x) => Some(*x),
                    None => None,
                },
            ) is None,
        },
{
    match m {
        None => Some(None),
        Some(x) => {
            if x.is_null() {
                Some(None)
            } else {
                match x.as_str() {
                    Some(s) => Some(Some(s.to_owned())),
                    None => None,
                }
            }
        },
    }
}

/// Reads a required string member.
fn read_required_string(m: Option<&serde_json::Value>) -> (r: Option<String>)
    ensures
        opt_text(r) == required_string(
            match m {
                Some(x) => Some(*x),
                None => None,
            },
        ),
{
    match m {
        None => None,
        Some(x) => match x.as_str() {
            Some(s) => Some(s.to_owned()),
            None => None,
        },
    }
}

impl ShellOutput {
    /// Reads a shell report from a value; `None` where the value does not
    /// hold one.
    pub fn from_value(v: &serde_json::Value) -> (r: Option<ShellOutput>)
        ensures
            opt_shell(r) == shell_output(*v),
    {
        if !check_record(v, 3) {
            return None;
        }
        let exit_code = match read_optional_i32(read_member(v, "exit_code", 0)) {
            Some(c) => c,
            None => {
                return None;
            },
        };
        let stdout = match read_optional_string(read_member(v, "stdout", 1)) {
            Some(s) => s,
            None => {
                return None;
            },
        };
        let stderr = match read_optional_string(read_member(v, "stderr", 2)) {
            Some(s) => s,
            None => {
                return None;
            },
        };
        Some(ShellOutput { exit_code, stdout, stderr })
    }
}

/// Reads the query of a search from a value; `None` where the value does not
/// hold one.
pub fn read_search_query(v: &serde_json::Value) -> (r: Option<String>)
    ensures
        opt_text(r) == search_query(*v),
{
    if !check_record(v, 1) {
        return None;
    }
    read_required_string(read_member(v, "query", 0))
}

/// Reads the address of a fetch from a value; `None` where the value does not
/// hold one.
pub fn read_fetch_url(v: &serde_json::Value) -> (r: Option<String>)
    ensures
        opt_text(r) == fetch_url(*v),
{
    if !check_record(v, 1) {
        return None;
    }
    read_required_string(read_member(v, "url", 0))
}

} // verus!
