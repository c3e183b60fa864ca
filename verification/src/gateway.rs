//! The gateway through which a request may start an executable.
//!
//! A command arrives as one untrusted string. The gateway splits it,
//! reduces the executable to its normalised name and looks that name up in
//! the allow-list. Only then does it order a spawn; the program around the
//! library performs it and hands the outcome back.

use vstd::prelude::*;

use crate::allow_list::{allowed_executables, allowed_names};
use crate::command::{normalize_executable, normalized_name, segments_of, split_command};
use crate::registry::ProcessRegistry;
use crate::reply::{
    Payload, Reply, RunResponse, STATUS_BAD_REQUEST, STATUS_FORBIDDEN, STATUS_OK,
    STATUS_SERVER_ERROR,
};

verus! {

/// The body of a request to start an executable.
pub struct RunRequest {
    /// The command line: the executable, then its arguments.
    pub command: String,
}

/// What could be made of the body of a request to start an executable.
pub enum RunInput {
    /// The body could not be read.
    Unreadable,
    /// The body was read and is not a run request.
    Malformed,
    /// The body is this run request.
    Request(RunRequest),
}

/// What the gateway decides on a request to start an executable.
pub enum RunStep {
    /// Answer at once; nothing is started.
    Reply(Reply),
    /// Start `executable`, named exactly as the command named it, with
    /// `arguments`, and hand the outcome to [`conclude_run`].
    Spawn { executable: String, arguments: Vec<String> },
}

/// A [`RunStep`] with its texts as sequences of characters.
pub enum RunStepView {
    Reply(Reply),
    Spawn { executable: Seq<char>, arguments: Seq<Seq<char>> },
}

impl View for RunStep {
    type V = RunStepView;

    open spec fn view(&self) -> RunStepView {
        match self {
            RunStep::Reply(reply) => RunStepView::Reply(*reply),
            RunStep::Spawn { executable, arguments } => RunStepView::Spawn {
                executable: executable@,
                arguments: arguments.deep_view(),
            },
        }
    }
}

/// What a command line leads to: a refusal with status 400 if it has no
/// segment, a refusal with status 403 if the normalised name of its first
/// segment is not on the allow-list, and else the order to start the first
/// segment with the others as its arguments.
pub open spec fn command_decision(command: Seq<char>) -> RunStepView {
    let segments = segments_of(command);
    if segments.len() == 0 {
        RunStepView::Reply(Reply::empty(STATUS_BAD_REQUEST))
    } else if !allowed_names().contains(normalized_name(segments[0])) {
        RunStepView::Reply(Reply::forbidden())
    } else {
        RunStepView::Spawn { executable: segments[0], arguments: segments.skip(1) }
    }
}

/// What a request to start an executable leads to.
pub open spec fn run_decision(input: RunInput) -> RunStepView {
    match input {
        RunInput::Unreadable => RunStepView::Reply(Reply::empty(STATUS_SERVER_ERROR)),
        RunInput::Malformed => RunStepView::Reply(Reply::empty(STATUS_BAD_REQUEST)),
        RunInput::Request(request) => command_decision(request.command@),
    }
}

/// Decides on a request to start an executable. The allow-list is
/// consulted on every request that names an executable, and a spawn is
/// ordered only for a name that is on it.
pub fn plan_run(input: &RunInput) -> (step: RunStep)
    ensures
        step@ == run_decision(*input),
{
    match input {
        RunInput::Unreadable => RunStep::Reply(
            Reply { status: STATUS_SERVER_ERROR, payload: Payload::Empty },
        ),
        RunInput::Malformed => RunStep::Reply(
            Reply { status: STATUS_BAD_REQUEST, payload: Payload::Empty },
        ),
        RunInput::Request(request) => {
            let mut segments = split_command(request.command.as_str());
            if segments.len() == 0 {
                return RunStep::Reply(Reply { status: STATUS_BAD_REQUEST, payload: Payload::Empty });
            }
            let ghost all = segments.deep_view();
            let executable = segments.remove(0);
            assert(executable@ == all[0]);
            assert(segments.deep_view() =~= all.skip(1));
            let name = normalize_executable(executable.as_str());
            if !allowed_executables().contains(name.as_str()) {
                return RunStep::Reply(
                    Reply {
                        status: STATUS_FORBIDDEN,
                        payload: Payload::Run(RunResponse { success: false, pid: None }),
                    },
                );
            }
            RunStep::Spawn { executable, arguments: segments }
        },
    }
}

/// What the outcome of a spawn leads to: a new process is reported with
/// status 200 and joins the known processes; a failure is reported with
/// status 500 and leaves them as they were.
pub open spec fn spawn_conclusion(known: Set<u32>, spawned: Option<u32>) -> (Reply, Set<u32>) {
    match spawned {
        Some(pid) => (Reply::started(pid), known.insert(pid)),
        None => (Reply::spawn_failed(), known),
    }
}

/// Concludes a request after the spawn that [`plan_run`] ordered:
/// `spawned` is the id of the new process, or `None` if the executable
/// could not be started.
pub fn conclude_run(registry: &mut ProcessRegistry, spawned: Option<u32>) -> (reply: Reply)
    ensures
        (reply, final(registry)@) == spawn_conclusion(old(registry)@, spawned),
{
    match spawned {
        Some(pid) => {
            registry.record(pid);
            Reply {
                status: STATUS_OK,
                payload: Payload::Run(RunResponse { success: true, pid: Some(pid) }),
            }
        },
        None => Reply {
            status: STATUS_SERVER_ERROR,
            payload: Payload::Run(RunResponse { success: false, pid: None }),
        },
    }
}

/// Whether the gateway lets a request start `executable`: whether its
/// normalised name is on the allow-list.
pub open spec fn may_start(executable: Seq<char>) -> bool {
    allowed_names().contains(normalized_name(executable))
}

/// Serves a request to start an executable from beginning to end. `spawn`
/// starts a process without a window and with its output captured, and
/// returns its id, or `None` if it could not be started. Its precondition
/// need hold only of the executable and the arguments that the request
/// orders, and of nothing where the request is refused: so it is called
/// at most once, with exactly what was ordered, and never on a refusal.
/// The registry changes only by the id of a process that `spawn` started.
pub fn handle_run_request<F: FnOnce(String, Vec<String>) -> Option<u32>>(
    input: &RunInput,
    registry: &mut ProcessRegistry,
    spawn: F,
) -> (reply: Reply)
    requires
        run_decision(*input) matches RunStepView::Spawn { executable, arguments } ==> forall|
            e: String,
            a: Vec<String>,
        | e@ == executable && a.deep_view() == arguments ==> spawn.requires((e, a)),
    ensures
        (reply, final(registry)@) == run_reply(*input, old(registry)@, spawn_outcome(reply)),
        run_decision(*input) matches RunStepView::Spawn { executable, arguments } ==> spawned_by(
            spawn,
            executable,
            arguments,
            spawn_outcome(reply),
        ),
{
    match plan_run(input) {
        RunStep::Reply(reply) => reply,
        RunStep::Spawn { executable, arguments } => {
            let ghost ordered = (executable, arguments);
            let spawned = spawn(executable, arguments);
            assert(spawn.ensures(ordered, spawned));
            conclude_run(registry, spawned)
        },
    }
}

/// Whether `outcome` is what `spawn` returned, or may return, when it is
/// asked to start `executable` with `arguments`.
pub open spec fn spawned_by<F: FnOnce(String, Vec<String>) -> Option<u32>>(
    spawn: F,
    executable: Seq<char>,
    arguments: Seq<Seq<char>>,
    outcome: Option<u32>,
) -> bool {
    exists|order: (String, Vec<String>)|
        order.0@ == executable && order.1.deep_view() == arguments && #[trigger] spawn.ensures(
            order,
            outcome,
        )
}

/// The process that `reply` reports as started, if it reports one.
pub open spec fn spawn_outcome(reply: Reply) -> Option<u32> {
    match reply.payload {
        Payload::Run(RunResponse { success: true, pid: Some(pid) }) => Some(pid),
        _ => None,
    }
}

/// An executable whose normalised name is not on the allow-list is
/// refused with status 403, whatever its arguments: no spawn is ordered,
/// so no process is started and none joins the registry.
pub proof fn lemma_unlisted_executable_is_refused(
    request: RunRequest,
    known: Set<u32>,
    spawned: Option<u32>,
)
    requires
        segments_of(request.command@).len() > 0,
        !may_start(segments_of(request.command@)[0]),
    ensures
        run_decision(RunInput::Request(request)) == RunStepView::Reply(Reply::forbidden()),
        run_reply(RunInput::Request(request), known, spawned) == (Reply::forbidden(), known),
{
}

/// A spawn is ordered only for an executable that the allow-list admits,
/// and then for the very segments of the command: the executable as it
/// was written, and its arguments in their order.
pub proof fn lemma_spawn_only_if_allowed(input: RunInput)
    ensures
        run_decision(input) matches RunStepView::Spawn { executable, arguments } ==> {
            &&& input matches RunInput::Request(request)
            &&& may_start(executable)
            &&& seq![executable] + arguments == segments_of(request.command@)
        },
{
    if let RunInput::Request(request) = input {
        let segments = segments_of(request.command@);
        if segments.len() > 0 {
            assert(seq![segments[0]] + segments.skip(1) =~= segments);
        }
    }
}

/// The answers to a request to start an executable tell its four
/// outcomes apart: 200 reports a started process and names it, 403 an
/// executable that is not on the allow-list, 500 a failure of the helper,
/// and 400 a request that is not one.
pub proof fn lemma_run_outcomes_are_distinct(input: RunInput, known: Set<u32>, spawned: Option<u32>)
    ensures
        ({
            let reply = run_reply(input, known, spawned).0;
            &&& reply.status == STATUS_OK || reply.status == STATUS_BAD_REQUEST || reply.status
                == STATUS_FORBIDDEN || reply.status == STATUS_SERVER_ERROR
            &&& reply.status == STATUS_OK <==> run_decision(input) is Spawn && spawned is Some
            &&& reply.status == STATUS_OK ==> reply == Reply::started(spawned->0)
            &&& reply.status == STATUS_FORBIDDEN <==> run_decision(input) == RunStepView::Reply(
                Reply::forbidden(),
            )
            &&& reply.status != STATUS_OK ==> run_reply(input, known, spawned).1 == known
        }),
{
}

/// The answer to a request and the known processes after it, where
/// `spawned` is what a spawn brings if one is ordered.
pub open spec fn run_reply(input: RunInput, known: Set<u32>, spawned: Option<u32>) -> (
    Reply,
    Set<u32>,
) {
    match run_decision(input) {
        RunStepView::Reply(refusal) => (refusal, known),
        RunStepView::Spawn { .. } => spawn_conclusion(known, spawned),
    }
}

} // verus!
