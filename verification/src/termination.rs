//! Stopping a process that the helper started.
//!
//! A request names the process by its id. The helper stops only what it
//! started itself: the id must be in the registry at the moment the
//! termination is attempted, or the operating system is not asked at all.

use vstd::prelude::*;
use vstd::string::StringExecFns;

use crate::query::{find_first, first_value, parse_url_query, pid_or_zero, read_pid, url_query_pairs};
use crate::registry::ProcessRegistry;
use crate::reply::{Payload, Reply, STATUS_BAD_REQUEST, STATUS_OK};

verus! {

/// The absolute URL as which the URL of a request is read.
pub open spec fn local_url(url: Seq<char>) -> Seq<char> {
    "http://localhost"@ + url
}

/// The process that decoded parameters ask to stop: the first `pid` among
/// them, read as a number, and 0 where it is no number. Nothing where the
/// URL could not be read or holds no `pid`.
pub open spec fn stop_target(pairs: Option<Seq<(Seq<char>, Seq<char>)>>) -> Option<u32> {
    match pairs {
        Some(found) => match first_value(found, "pid"@) {
            Some(value) => Some(pid_or_zero(Some(value))),
            None => None,
        },
        None => None,
    }
}

/// The process that the URL of a request asks to stop.
pub open spec fn requested_stop(url: Seq<char>) -> Option<u32> {
    stop_target(url_query_pairs(local_url(url)))
}

/// Reads off decoded parameters which process they ask to stop.
pub fn target_from_pairs(pairs: &Option<Vec<(String, String)>>) -> (target: Option<u32>)
    ensures
        target == stop_target(pairs.deep_view()),
{
    match pairs {
        Some(found) => {
            let value = find_first(found, "pid");
            match value {
                Some(_) => Some(read_pid(value)),
                None => None,
            }
        },
        None => None,
    }
}

/// Reads off the URL of a request which process it asks to stop.
pub fn stop_request_target(url: &str) -> (target: Option<u32>)
    ensures
        target == requested_stop(url@),
{
    let mut full = "http://localhost".to_owned();
    full.append(url);
    let pairs = parse_url_query(full.as_str());
    target_from_pairs(&pairs)
}

/// Stops the process `pid` if the helper started it. `terminate` asks the
/// operating system to end a process by force and says whether it did. It
/// is called only if `pid` is in the registry, which the caller keeps
/// borrowed, and so unchanged, until the call is over; a process that is
/// not in the registry is refused without a call.
pub fn stop<F: FnOnce(u32) -> bool>(registry: &ProcessRegistry, pid: u32, terminate: F) -> (stopped:
    bool)
    requires
        registry@.contains(pid) ==> terminate.requires((pid,)),
    ensures
        !registry@.contains(pid) ==> !stopped,
        registry@.contains(pid) ==> terminate.ensures((pid,), stopped),
{
    if registry.contains(pid) {
        terminate(pid)
    } else {
        false
    }
}

/// The answer to a request to stop `target`, where `terminated` is what
/// the operating system reports if it is asked: empty, with status 200 if
/// the process is known and was ended, and with status 400 in every other
/// case.
pub open spec fn stop_reply(known: Set<u32>, target: Option<u32>, terminated: bool) -> Reply {
    match target {
        Some(pid) => if known.contains(pid) && terminated {
            Reply::empty(STATUS_OK)
        } else {
            Reply::empty(STATUS_BAD_REQUEST)
        },
        None => Reply::empty(STATUS_BAD_REQUEST),
    }
}

/// Serves a request to stop a process. The precondition of `terminate`
/// need hold only of the process that the request names, and only if that
/// process is in the registry: so it is called at most once, on no other
/// process, and not at all where the request is refused. What it returned
/// decides between status 200 and status 400, as [`stop_reply`] says.
pub fn handle_stop_process_request<F: FnOnce(u32) -> bool>(
    url: &str,
    registry: &ProcessRegistry,
    terminate: F,
) -> (reply: Reply)
    requires
        requested_stop(url@) matches Some(pid) ==> (registry@.contains(pid)
            ==> terminate.requires((pid,))),
    ensures
        reply == stop_reply(registry@, requested_stop(url@), reply.status == STATUS_OK),
        requested_stop(url@) matches Some(pid) ==> (registry@.contains(pid) ==> terminate.ensures(
            (pid,),
            reply.status == STATUS_OK,
        )),
{
    match stop_request_target(url) {
        Some(pid) => {
            if stop(registry, pid, terminate) {
                Reply { status: STATUS_OK, payload: Payload::Empty }
            } else {
                Reply { status: STATUS_BAD_REQUEST, payload: Payload::Empty }
            }
        },
        None => Reply { status: STATUS_BAD_REQUEST, payload: Payload::Empty },
    }
}

/// A process that is not in the registry is never stopped: whatever the
/// request says and whatever the operating system would do with that
/// process, the answer has status 400.
pub proof fn lemma_unregistered_process_is_refused(
    known: Set<u32>,
    target: Option<u32>,
    terminated: bool,
)
    requires
        target matches Some(pid) ==> !known.contains(pid),
    ensures
        stop_reply(known, target, terminated) == Reply::empty(STATUS_BAD_REQUEST),
{
}

} // verus!
