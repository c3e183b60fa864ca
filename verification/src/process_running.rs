//! Answering whether a process is running.

use vstd::prelude::*;

use crate::query::{find_last, form_pairs, last_value, parse_form, pid_or_zero, read_pid};
use crate::reply::{Payload, ProcessRunningResponse, Reply, STATUS_BAD_REQUEST, STATUS_OK};
use crate::text::{after_first, same_text, starts_with, text_after_first};

verus! {

/// Whether a request asks for the state of a process: a `GET` whose URL
/// begins with `/process_running`.
pub open spec fn is_process_running_query(method: Seq<char>, url: Seq<char>) -> bool {
    method == "GET"@ && "/process_running"@.is_prefix_of(url)
}

/// The process that a set of decoded parameters asks about: the last
/// `pid` among them, read as a number; 0 where there is none or it is no
/// number.
pub open spec fn pid_in(pairs: Seq<(Seq<char>, Seq<char>)>) -> u32 {
    pid_or_zero(last_value(pairs, "pid"@))
}

/// The process that the URL of a request asks about: what its
/// parameters, everything behind the first `?`, say.
pub open spec fn requested_pid(url: Seq<char>) -> u32 {
    pid_in(form_pairs(after_first(url, '?')))
}

/// Reads off decoded parameters which process they ask about.
pub fn pid_from_pairs(pairs: &Vec<(String, String)>) -> (pid: u32)
    ensures
        pid == pid_in(pairs.deep_view()),
{
    read_pid(find_last(pairs, "pid"))
}

/// Whether `reply` reports a process as running.
pub open spec fn reported_state(reply: Reply) -> bool {
    reply.payload matches Payload::ProcessRunning(response) && response.process_is_running
}

/// Answers a request for the state of a process. `is_process_running_fn`
/// looks the process up. Its precondition need hold only of the process
/// that the URL asks about, and only for a request that is such a query:
/// so it is called on no other process, and not at all for any other
/// request, which is answered with status 400.
pub fn handle_process_running_request<F: Fn(u32) -> bool>(
    method: &str,
    url: &str,
    is_process_running_fn: F,
) -> (reply: Reply)
    requires
        is_process_running_query(method@, url@) ==> is_process_running_fn.requires(
            (requested_pid(url@),),
        ),
    ensures
        is_process_running_query(method@, url@) ==> reply == Reply::process_state(
            reported_state(reply),
        ),
        is_process_running_query(method@, url@) ==> is_process_running_fn.ensures(
            (requested_pid(url@),),
            reported_state(reply),
        ),
        !is_process_running_query(method@, url@) ==> reply == Reply::not_a_process_query(),
{
    if same_text(method, "GET") && starts_with(url, "/process_running") {
        let query = text_after_first(url, '?');
        let pairs = parse_form(query.as_str());
        let pid = pid_from_pairs(&pairs);
        let running = is_process_running_fn(pid);
        Reply {
            status: STATUS_OK,
            payload: Payload::ProcessRunning(ProcessRunningResponse { process_is_running: running }),
        }
    } else {
        Reply { status: STATUS_BAD_REQUEST, payload: Payload::BadRequestText }
    }
}

} // verus!
