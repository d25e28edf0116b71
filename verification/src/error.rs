//! Error hierarchy of the Tripo3D client.
//!
//!   Error
//!   ├── Request          transport, network and HTTP-status failures
//!   ├── Api              well-formed error responses (non-zero `code`)
//!   ├── Task             a task ended in `failed` / `cancelled` / `banned` / `expired`
//!   ├── Timeout          `wait_for_task` exceeded its timeout budget
//!   ├── InvalidArgument  a caller-supplied argument was rejected before any request
//!   ├── Io               local I/O failure
//!   └── Serde            JSON (de)serialisation failure

use vstd::prelude::*;

use vstd::string::*;

use crate::constants::task_status_name;
use crate::models::Task;
use crate::text::{decimal, decimal_string};

verus! {

/// Top-level error type of every fallible client operation.
#[derive(Debug)]
pub enum Error {
    /// Transport-level failure: network error, non-2xx status without a
    /// parseable `{code, message}` envelope, or a malformed response body.
    /// `indeterminate` is set when the server may already have acted on a
    /// request that is billed per submission, which was therefore not replayed.
    Request {
        message: String,
        status: Option<u16>,
        body: Option<String>,
        indeterminate: bool,
    },
    /// A well-formed `{ code, message, suggestion }` error envelope with a
    /// non-zero `code`.
    Api {
        code: i64,
        message: Option<String>,
        suggestion: Option<String>,
        status: Option<u16>,
    },
    /// A task reached a non-successful terminal state
    /// (`failed` / `cancelled` / `banned` / `expired`).
    Task { task: Box<Task> },
    /// `wait_for_task` exceeded the caller-supplied timeout.
    Timeout { task_id: String, timeout_ms: u64 },
    /// A caller-supplied argument was invalid (e.g. missing required field).
    InvalidArgument(String),
    /// Local I/O failure (e.g. reading a file to upload), by its message.
    Io(String),
    /// JSON (de)serialisation failure, by its message.
    Serde(String),
}

/// The result type of every fallible client operation.
pub type Result<T> = core::result::Result<T, Error>;

impl Error {
    /// An [`Error::InvalidArgument`] carrying `msg`.
    pub fn invalid_argument(msg: &str) -> (e: Self)
        ensures
            e matches Error::InvalidArgument(m) && m@ == msg@,
    {
        Error::InvalidArgument(msg.to_owned())
    }

    /// The task associated with an `Error::Task` variant, if any.
    pub fn task(&self) -> (t: Option<&Task>)
        ensures
            match self {
                Error::Task { task } => t == Some(&**task),
                _ => t is None,
            },
    {
        match self {
            Error::Task { task } => Some(&**task),
            _ => None,
        }
    }
}


/// The decimal notation of a signed number.
pub open spec fn signed_decimal(n: int) -> Seq<char> {
    if n < 0 {
        "-"@ + decimal((-n) as nat)
    } else {
        decimal(n as nat)
    }
}

/// `prefix` and the text, when there is one; nothing otherwise.
pub open spec fn optional_part(prefix: Seq<char>, text: Option<String>) -> Seq<char> {
    match text {
        Some(t) => prefix + t@,
        None => Seq::empty(),
    }
}

/// How an error reads.
pub open spec fn error_text(e: Error) -> Seq<char> {
    match e {
        Error::Request { message, status, .. } => "request error: "@ + message@ + match status {
            Some(s) => " (HTTP "@ + decimal(s as nat) + ")"@,
            None => Seq::empty(),
        },
        Error::Api { code, message, suggestion, .. } => "Tripo API error (code="@ + signed_decimal(
            code as int,
        ) + ")"@ + optional_part(": "@, message) + optional_part(" — "@, suggestion),
        Error::Task { task } => "task "@ + task.task_id@ + " ended with status \""@ + task_status_name(
            task.status,
        ) + "\""@ + optional_part(": "@, task.error_message),
        Error::Timeout { task_id, timeout_ms } => "timed out after "@ + decimal(timeout_ms as nat)
            + "ms waiting for task "@ + task_id@,
        Error::InvalidArgument(m) => "invalid argument: "@ + m@,
        Error::Io(m) => "I/O error: "@ + m@,
        Error::Serde(m) => "serialization error: "@ + m@,
    }
}

fn signed_decimal_string(n: i64) -> (s: String)
    ensures
        s@ == signed_decimal(n as int),
{
    if n < 0 {
        let m: u64 = (-(n as i128)) as u64;
        let mut s = String::from_str("-");
        let digits = decimal_string(m);
        s.append(digits.as_str());
        s
    } else {
        decimal_string(n as u64)
    }
}

fn append_optional(s: &mut String, prefix: &str, text: &Option<String>)
    ensures
        final(s)@ == old(s)@ + optional_part(prefix@, *text),
{
    match text {
        Some(t) => {
            s.append(prefix);
            s.append(t.as_str());
        },
        None => {
            assert(old(s)@ + optional_part(prefix@, *text) =~= old(s)@);
        },
    }
}

impl Error {
    /// How this error reads, as its `Display` writes it.
    pub fn describe(&self) -> (s: String)
        ensures
            s@ == error_text(*self),
    {
        match self {
            Error::Request { message, status, .. } => {
                let mut s = String::from_str("request error: ");
                s.append(message.as_str());
                if let Some(code) = status {
                    s.append(" (HTTP ");
                    let digits = decimal_string(*code as u64);
                    s.append(digits.as_str());
                    s.append(")");
                }
                s
            },
            Error::Api { code, message, suggestion, .. } => {
                let mut s = String::from_str("Tripo API error (code=");
                let digits = signed_decimal_string(*code);
                s.append(digits.as_str());
                s.append(")");
                append_optional(&mut s, ": ", message);
                append_optional(&mut s, " — ", suggestion);
                s
            },
            Error::Task { task } => {
                let mut s = String::from_str("task ");
                s.append(task.task_id.as_str());
                s.append(" ended with status \"");
                s.append(task.status.as_str());
                s.append("\"");
                append_optional(&mut s, ": ", &task.error_message);
                s
            },
            Error::Timeout { task_id, timeout_ms } => {
                let mut s = String::from_str("timed out after ");
                let digits = decimal_string(*timeout_ms);
                s.append(digits.as_str());
                s.append("ms waiting for task ");
                s.append(task_id.as_str());
                s
            },
            Error::InvalidArgument(m) => {
                let mut s = String::from_str("invalid argument: ");
                s.append(m.as_str());
                s
            },
            Error::Io(m) => {
                let mut s = String::from_str("I/O error: ");
                s.append(m.as_str());
                s
            },
            Error::Serde(m) => {
                let mut s = String::from_str("serialization error: ");
                s.append(m.as_str());
                s
            },
        }
    }
}

} // verus!
