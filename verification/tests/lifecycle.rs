use darktide_local_server::config::{effective_port, Config, CONFIG_NAME, DEFAULT_PORT};
use darktide_local_server::dispatch::{route, Route};
use darktide_local_server::instance::{
    acquired, classify_lock_attempt, startup_decision, LockAttempt, Startup, ERROR_ALREADY_EXISTS,
    MUTEX_NAME,
};
use darktide_local_server::processes::{is_darktide_running, may_be_running, ProcessEntry};
use darktide_local_server::watchdog::{
    scan_for_parent, scan_of, watchdog_step, Scan, WatchdogAction, WatchdogState,
};

#[test]
fn scenario_parent_exits_while_idle() {
    let mut state = WatchdogState::Running;
    let mut exits = 0;
    for scan in [Scan::Present, Scan::Present, Scan::Absent] {
        let (next, action) = watchdog_step(state, scan);
        state = next;
        if let WatchdogAction::Exit { code } = action {
            assert_eq!(code, 1);
            exits += 1;
        }
    }
    assert_eq!(state, WatchdogState::Terminating);
    assert_eq!(exits, 1);
}

#[test]
fn watchdog_waits_one_second_while_the_game_runs() {
    assert_eq!(
        watchdog_step(WatchdogState::Running, Scan::Present),
        (WatchdogState::Running, WatchdogAction::Wait { seconds: 1 })
    );
}

#[test]
fn failed_scan_does_not_end_the_helper() {
    let mut state = WatchdogState::Running;
    for _ in 0..5 {
        let (next, action) = watchdog_step(state, Scan::Failed);
        assert_eq!(action, WatchdogAction::Wait { seconds: 1 });
        state = next;
    }
    assert_eq!(state, WatchdogState::Running);
}

#[test]
fn terminating_is_final() {
    for scan in [Scan::Present, Scan::Absent, Scan::Failed] {
        assert_eq!(
            watchdog_step(WatchdogState::Terminating, scan),
            (WatchdogState::Terminating, WatchdogAction::Exit { code: 1 })
        );
    }
}

#[test]
fn scan_of_looks_for_the_game_by_name() {
    let with_game = vec![
        ProcessEntry { pid: 1, name: "init".to_string() },
        ProcessEntry { pid: 2, name: "Darktide.exe".to_string() },
    ];
    let without = vec![ProcessEntry { pid: 2, name: "darktide.exe".to_string() }];
    assert_eq!(scan_of(&with_game), Scan::Present);
    assert_eq!(scan_of(&without), Scan::Absent);
}

#[test]
fn a_view_without_entries_is_a_failed_scan() {
    assert_eq!(scan_of(&vec![]), Scan::Failed);
    assert_eq!(
        watchdog_step(WatchdogState::Running, scan_of(&vec![])),
        (WatchdogState::Running, WatchdogAction::Wait { seconds: 1 })
    );
}

#[test]
fn the_game_counts_as_gone_only_after_a_clean_scan() {
    let helper = || ProcessEntry { pid: 7, name: "helper.exe".to_string() };
    let game = || ProcessEntry { pid: 8, name: "Darktide.exe".to_string() };
    assert!(may_be_running(&vec![], "Darktide.exe"));
    assert!(may_be_running(&vec![game()], "Darktide.exe"));
    assert!(may_be_running(&vec![helper(), game()], "Darktide.exe"));
    assert!(!may_be_running(&vec![helper()], "Darktide.exe"));
}

#[test]
fn a_real_scan_returns() {
    let scan = scan_for_parent();
    assert!(matches!(scan, Scan::Present | Scan::Absent | Scan::Failed));
    let _ = is_darktide_running();
}

#[test]
fn scenario_two_instances_start_together() {
    let first = classify_lock_attempt(false, 0);
    let second = classify_lock_attempt(false, ERROR_ALREADY_EXISTS);
    assert_eq!(startup_decision(first), Startup::Serve);
    assert_eq!(startup_decision(second), Startup::ExitQuietly);
}

#[test]
fn lock_attempt_is_read_from_handle_and_error() {
    assert_eq!(classify_lock_attempt(false, 0), LockAttempt::Created);
    assert_eq!(classify_lock_attempt(false, 5), LockAttempt::Created);
    assert_eq!(classify_lock_attempt(false, 183), LockAttempt::AlreadyHeld);
    assert_eq!(classify_lock_attempt(true, 0), LockAttempt::Failed);
    assert_eq!(classify_lock_attempt(true, 5), LockAttempt::Failed);
    assert_eq!(classify_lock_attempt(true, 183), LockAttempt::Failed);
}

#[test]
fn only_a_created_lock_is_held() {
    assert!(acquired(LockAttempt::Created));
    assert!(!acquired(LockAttempt::AlreadyHeld));
    assert!(!acquired(LockAttempt::Failed));
    assert_eq!(startup_decision(LockAttempt::Failed), Startup::ExitQuietly);
}

#[test]
fn names_are_fixed() {
    assert_eq!(MUTEX_NAME, "Global\\DarktideLocalServerMutex");
    assert_eq!(CONFIG_NAME, "config.json");
    assert_eq!(DEFAULT_PORT, 41012);
}

#[test]
fn port_falls_back_to_the_default() {
    assert_eq!(effective_port(None), 41012);
    assert_eq!(effective_port(Some(Config { port: None })), 41012);
    assert_eq!(effective_port(Some(Config::default())), 41012);
    assert_eq!(effective_port(Some(Config { port: Some(8080) })), 8080);
    assert_eq!(effective_port(Some(Config { port: Some(0) })), 0);
    assert_eq!(Config { port: Some(65535) }.port_or_default(), 65535);
    assert_eq!(Config::default(), Config { port: None });
}

#[test]
fn routes_follow_the_table() {
    assert_eq!(route("GET", "/shutdown"), Route::Shutdown);
    assert_eq!(route("GET", "/process_running?pid=1"), Route::ProcessRunning);
    assert_eq!(route("GET", "/stop_process?pid=1"), Route::StopProcess);
    assert_eq!(route("GET", "/image?path=a.png"), Route::Image);
    assert_eq!(route("GET", "/dds_image?path=a.dds"), Route::DdsImage);
    assert_eq!(route("POST", "/run"), Route::Run);
}

#[test]
fn shutdown_is_matched_exactly_and_the_others_by_prefix() {
    assert_eq!(route("GET", "/shutdown?now"), Route::Unmatched);
    assert_eq!(route("GET", "/shutdown/"), Route::Unmatched);
    assert_eq!(route("GET", "/images"), Route::Image);
    assert_eq!(route("GET", "/stop_processes"), Route::StopProcess);
    assert_eq!(route("POST", "/runner"), Route::Run);
}

#[test]
fn unmatched_requests_have_no_route() {
    assert_eq!(route("GET", "/run"), Route::Unmatched);
    assert_eq!(route("POST", "/shutdown"), Route::Unmatched);
    assert_eq!(route("POST", "/stop_process?pid=1"), Route::Unmatched);
    assert_eq!(route("PUT", "/run"), Route::Unmatched);
    assert_eq!(route("get", "/shutdown"), Route::Unmatched);
    assert_eq!(route("GET", "/"), Route::Unmatched);
    assert_eq!(route("GET", ""), Route::Unmatched);
    assert_eq!(route("", "/run"), Route::Unmatched);
}

#[test]
fn shutdown_is_routed_every_time() {
    for _ in 0..3 {
        assert_eq!(route("GET", "/shutdown"), Route::Shutdown);
    }
}
