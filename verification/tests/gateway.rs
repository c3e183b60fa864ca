use darktide_local_server::allow_list::allowed_executables;
use darktide_local_server::gateway::{
    conclude_run, handle_run_request, plan_run, RunInput, RunRequest, RunStep,
};
use darktide_local_server::registry::ProcessRegistry;
use darktide_local_server::reply::{Payload, Reply, RunResponse};
use darktide_local_server::termination::handle_stop_process_request;

fn request(command: &str) -> RunInput {
    RunInput::Request(RunRequest { command: command.to_string() })
}

fn refusal(status: u16) -> Reply {
    Reply { status, payload: Payload::Run(RunResponse { success: false, pid: None }) }
}

#[test]
fn allow_list_holds_the_player() {
    let list = allowed_executables();
    assert!(list.contains("ffplay_dt"));
    assert!(!list.contains("cmd"));
    assert!(!list.contains("ffplay_dt.exe"));
    assert!(!list.contains("FFPLAY_DT"));
    assert!(!list.contains(""));
}

#[test]
fn allowed_command_orders_a_spawn() {
    match plan_run(&request("ffplay_dt.exe -i test.mp4")) {
        RunStep::Spawn { executable, arguments } => {
            assert_eq!(executable, "ffplay_dt.exe");
            assert_eq!(arguments, vec!["-i", "test.mp4"]);
        }
        RunStep::Reply(reply) => panic!("refused with {}", reply.status),
    }
}

#[test]
fn spawn_keeps_the_executable_as_written() {
    match plan_run(&request("C:\\Tools\\FFplay_DT.EXE \"a b\"")) {
        RunStep::Spawn { executable, arguments } => {
            assert_eq!(executable, "C:\\Tools\\FFplay_DT.EXE");
            assert_eq!(arguments, vec!["\"a b\""]);
        }
        RunStep::Reply(reply) => panic!("refused with {}", reply.status),
    }
}

#[test]
fn scenario_run_allowed_then_stop() {
    let mut registry = ProcessRegistry::new();
    let mut seen: Option<(String, Vec<String>)> = None;
    let reply = handle_run_request(
        &request("ffplay_dt.exe -i test.mp4"),
        &mut registry,
        |executable, arguments| {
            seen = Some((executable, arguments));
            Some(4242)
        },
    );
    assert_eq!(
        reply,
        Reply { status: 200, payload: Payload::Run(RunResponse { success: true, pid: Some(4242) }) }
    );
    assert_eq!(
        seen,
        Some(("ffplay_dt.exe".to_string(), vec!["-i".to_string(), "test.mp4".to_string()]))
    );
    assert!(registry.contains(4242));

    let mut stopped: Vec<u32> = Vec::new();
    let reply = handle_stop_process_request("/stop_process?pid=4242", &registry, |pid| {
        stopped.push(pid);
        true
    });
    assert_eq!(reply, Reply { status: 200, payload: Payload::Empty });
    assert_eq!(stopped, vec![4242]);
}

#[test]
fn scenario_run_not_allowed() {
    let mut registry = ProcessRegistry::new();
    let mut called = false;
    let reply = handle_run_request(&request("cmd.exe /c calc"), &mut registry, |_, _| {
        called = true;
        Some(7)
    });
    assert_eq!(reply, refusal(403));
    assert!(!called);
    assert!(!registry.contains(7));
}

#[test]
fn unlisted_names_are_refused() {
    for command in [
        "cmd",
        "ffplay",
        "ffplay_dt.bat",
        "ffplay_dt.exe.exe",
        "ffplay_dt/",
        "\"ffplay_dt\"",
        "\"ffplay_dt.exe\" x",
        "ffplay_dt.exe\\..\\cmd.exe",
    ] {
        let mut registry = ProcessRegistry::new();
        let reply = handle_run_request(&request(command), &mut registry, |_, _| Some(1));
        assert_eq!(reply, refusal(403), "{}", command);
        assert!(!registry.contains(1));
    }
}

#[test]
fn empty_command_is_a_bad_request() {
    let mut registry = ProcessRegistry::new();
    for command in ["", "   "] {
        let reply = handle_run_request(&request(command), &mut registry, |_, _| Some(1));
        assert_eq!(reply, Reply { status: 400, payload: Payload::Empty });
    }
    assert!(!registry.contains(1));
}

#[test]
fn malformed_body_is_a_bad_request() {
    let mut registry = ProcessRegistry::new();
    let reply = handle_run_request(&RunInput::Malformed, &mut registry, |_, _| Some(1));
    assert_eq!(reply, Reply { status: 400, payload: Payload::Empty });
    assert!(!registry.contains(1));
}

#[test]
fn unreadable_body_is_a_server_error() {
    let mut registry = ProcessRegistry::new();
    let reply = handle_run_request(&RunInput::Unreadable, &mut registry, |_, _| Some(1));
    assert_eq!(reply, Reply { status: 500, payload: Payload::Empty });
    assert!(!registry.contains(1));
}

#[test]
fn failed_spawn_is_reported_and_not_recorded() {
    let mut registry = ProcessRegistry::new();
    registry.record(9);
    let reply = handle_run_request(&request("ffplay_dt"), &mut registry, |_, _| None);
    assert_eq!(reply, refusal(500));
    assert!(registry.contains(9));
}

#[test]
fn conclude_run_records_the_process() {
    let mut registry = ProcessRegistry::new();
    let reply = conclude_run(&mut registry, Some(31));
    assert_eq!(
        reply,
        Reply { status: 200, payload: Payload::Run(RunResponse { success: true, pid: Some(31) }) }
    );
    assert!(registry.contains(31));
    assert!(!registry.contains(32));
    let reply = conclude_run(&mut registry, None);
    assert_eq!(reply, refusal(500));
    assert!(registry.contains(31));
}
