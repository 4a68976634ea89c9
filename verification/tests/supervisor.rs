use process_supervisor::supervisor::{
    finish_stop, start_status_code, stop_status_code, Handle, StartError, Status, StopError,
    StopOutcome, Supervisor,
};

fn test_handle(pid: u64) -> Handle {
    Handle {
        pid,
        command: "/usr/local/bin/mediamtx".to_string(),
        args: vec!["/etc/mediamtx/mediamtx.yml".to_string()],
        launched_at: 1_700_000_000,
    }
}

#[test]
fn new_supervisor_is_idle() {
    let sup = Supervisor::new();
    assert_eq!(sup.status(), Status::Idle);
}

#[test]
fn full_lifecycle_scenario() {
    let mut sup = Supervisor::new();

    // First start succeeds and reports the spawned process's identifier.
    assert!(sup.check_start().is_ok());
    let r = sup.finish_start(Ok(test_handle(1234)));
    assert_eq!(r, Ok(1234));
    assert_eq!(sup.status(), Status::Running);

    // Second start is rejected before any spawn; status unchanged.
    assert_eq!(sup.check_start(), Err(StartError::AlreadyRunning));
    assert_eq!(sup.status(), Status::Running);

    // Stop succeeds; status becomes Idle.
    let taken = sup.begin_stop().expect("a handle should be running");
    assert_eq!(taken.pid, 1234);
    assert_eq!(finish_stop(Ok(()), true), Ok(StopOutcome::Stopped));
    assert_eq!(sup.status(), Status::Idle);

    // Second stop fails: nothing is running.
    assert_eq!(sup.begin_stop(), Err(StopError::NotRunning));
    assert_eq!(sup.status(), Status::Idle);
}

#[test]
fn start_while_running_is_rejected_and_changes_nothing() {
    let mut sup = Supervisor::new();
    sup.finish_start(Ok(test_handle(7))).unwrap();

    // Even a recorded spawn outcome is rejected while running.
    let r = sup.finish_start(Ok(test_handle(8)));
    assert_eq!(r, Err(StartError::AlreadyRunning));
    assert_eq!(sup.status(), Status::Running);

    // The first handle is still the one in the slot.
    let taken = sup.begin_stop().unwrap();
    assert_eq!(taken.pid, 7);
}

#[test]
fn spawn_failure_leaves_supervisor_idle() {
    let mut sup = Supervisor::new();
    assert!(sup.check_start().is_ok());
    let r = sup.finish_start(Err("No such file or directory".to_string()));
    assert_eq!(
        r,
        Err(StartError::SpawnFailed(
            "No such file or directory".to_string()
        ))
    );
    assert_eq!(sup.status(), Status::Idle);

    // A failed start leaves the supervisor able to accept further calls.
    let r2 = sup.finish_start(Ok(test_handle(99)));
    assert_eq!(r2, Ok(99));
    assert_eq!(sup.status(), Status::Running);
}

#[test]
fn stop_while_idle_fails_with_not_running() {
    let mut sup = Supervisor::new();
    assert_eq!(sup.begin_stop(), Err(StopError::NotRunning));
    assert_eq!(sup.status(), Status::Idle);
}

#[test]
fn stop_with_failed_cleanup_sweep_is_a_warning() {
    let mut sup = Supervisor::new();
    sup.finish_start(Ok(test_handle(55))).unwrap();
    let _taken = sup.begin_stop().unwrap();
    // The kill succeeded but the best-effort sweep reported a non-zero exit.
    assert_eq!(
        finish_stop(Ok(()), false),
        Ok(StopOutcome::StoppedWithCleanupWarning)
    );
    // The process still counts as stopped.
    assert_eq!(sup.status(), Status::Idle);
}

#[test]
fn stop_whose_kill_fails_still_discards_the_handle() {
    let mut sup = Supervisor::new();
    sup.finish_start(Ok(test_handle(21))).unwrap();
    let _taken = sup.begin_stop().unwrap();
    let r = finish_stop(Err("permission denied".to_string()), true);
    assert_eq!(r, Err(StopError::StopFailed("permission denied".to_string())));
    // Discard-on-attempt: the supervisor reports Idle and accepts a new start.
    assert_eq!(sup.status(), Status::Idle);
    assert_eq!(sup.finish_start(Ok(test_handle(22))), Ok(22));
}

#[test]
fn http_status_codes_tell_conflicts_from_failures() {
    assert_eq!(start_status_code(&Ok(1234)), 200);
    assert_eq!(start_status_code(&Err(StartError::AlreadyRunning)), 409);
    assert_eq!(
        start_status_code(&Err(StartError::SpawnFailed("boom".to_string()))),
        500
    );
    assert_eq!(stop_status_code(&Ok(StopOutcome::Stopped)), 200);
    assert_eq!(
        stop_status_code(&Ok(StopOutcome::StoppedWithCleanupWarning)),
        500
    );
    assert_eq!(stop_status_code(&Err(StopError::NotRunning)), 409);
    assert_eq!(
        stop_status_code(&Err(StopError::StopFailed("boom".to_string()))),
        500
    );
}

#[test]
fn racing_starts_exactly_one_succeeds() {
    // Three starts serialized by the lock against one idle supervisor.
    let mut sup = Supervisor::new();
    let mut successes = 0;
    let mut already_running = 0;
    for pid in [301, 302, 303] {
        match sup.check_start() {
            Ok(()) => {
                sup.finish_start(Ok(test_handle(pid))).unwrap();
                successes += 1;
            }
            Err(StartError::AlreadyRunning) => already_running += 1,
            Err(e) => panic!("unexpected error: {:?}", e),
        }
    }
    assert_eq!(successes, 1);
    assert_eq!(already_running, 2);
    assert_eq!(sup.status(), Status::Running);
    assert_eq!(sup.begin_stop().unwrap().pid, 301);
}
