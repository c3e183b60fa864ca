//! What the helper answers to a request, before it is put on the wire.

use vstd::prelude::*;

verus! {

/// The status of an answer that reports success.
pub const STATUS_OK: u16 = 200;

/// The status of an answer to a request that could not be understood, or
/// that asked for something the helper does not do.
pub const STATUS_BAD_REQUEST: u16 = 400;

/// The status of an answer that refuses an executable which is not on the
/// allow-list.
pub const STATUS_FORBIDDEN: u16 = 403;

/// The status of an answer that reports a failure on the helper's side.
pub const STATUS_SERVER_ERROR: u16 = 500;

/// The field under which a run result reports whether it succeeded.
pub const SUCCESS: &'static str = "success";

/// The field under which a run result reports the id of the new process.
pub const PID: &'static str = "pid";

/// The text that an answer carries when a request for a process's state
/// was not one.
pub const BAD_REQUEST_TEXT: &'static str = "Bad Request";

/// The result of a request to start an executable.
#[derive(Clone, Copy, Debug, PartialEq, Eq)]
pub struct RunResponse {
    /// Whether a process was started.
    pub success: bool,
    /// The id of the process that was started, if one was.
    pub pid: Option<u32>,
}

/// The result of a request for the state of a process.
#[derive(Clone, Copy, Debug, PartialEq, Eq)]
pub struct ProcessRunningResponse {
    /// Whether the process was found in the process table.
    pub process_is_running: bool,
}

/// The content of an answer.
#[derive(Clone, Copy, Debug, PartialEq, Eq)]
pub enum Payload {
    /// No content.
    Empty,
    /// The result of a request to start an executable, as a JSON object
    /// with the field [`SUCCESS`] and, where a process was started, the
    /// field [`PID`].
    Run(RunResponse),
    /// The result of a request for the state of a process, as a JSON
    /// object.
    ProcessRunning(ProcessRunningResponse),
    /// The JSON string [`BAD_REQUEST_TEXT`].
    BadRequestText,
}

/// An answer to a request: a status and a content.
#[derive(Clone, Copy, Debug, PartialEq, Eq)]
pub struct Reply {
    /// The HTTP status code.
    pub status: u16,
    /// What the body holds.
    pub payload: Payload,
}

impl Reply {
    /// The answer without content that carries `status`.
    pub open spec fn empty(status: u16) -> Reply {
        Reply { status, payload: Payload::Empty }
    }

    /// The answer that refuses an executable which is not on the
    /// allow-list.
    pub open spec fn forbidden() -> Reply {
        Reply {
            status: STATUS_FORBIDDEN,
            payload: Payload::Run(RunResponse { success: false, pid: None }),
        }
    }

    /// The answer that reports the process `pid` as started.
    pub open spec fn started(pid: u32) -> Reply {
        Reply {
            status: STATUS_OK,
            payload: Payload::Run(RunResponse { success: true, pid: Some(pid) }),
        }
    }

    /// The answer that reports that the executable could not be started.
    pub open spec fn spawn_failed() -> Reply {
        Reply {
            status: STATUS_SERVER_ERROR,
            payload: Payload::Run(RunResponse { success: false, pid: None }),
        }
    }

    /// The answer that reports whether a process is running.
    pub open spec fn process_state(running: bool) -> Reply {
        Reply {
            status: STATUS_OK,
            payload: Payload::ProcessRunning(ProcessRunningResponse { process_is_running: running }),
        }
    }

    /// The answer to a request for a process's state that was not one.
    pub open spec fn not_a_process_query() -> Reply {
        Reply { status: STATUS_BAD_REQUEST, payload: Payload::BadRequestText }
    }
}

} // verus!
