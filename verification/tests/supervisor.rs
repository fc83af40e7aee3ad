use harper_desktop::supervisor::{
    backoff_delay, HighlighterService, RestartState, Supervision, Toggle, HEALTHY_UPTIME, SECOND,
};

const START: u64 = 1_000 * SECOND;

#[test]
fn backoff_doubles_up_to_a_minute_and_a_bit() {
    assert_eq!(backoff_delay(0), SECOND);
    assert_eq!(backoff_delay(1), 2 * SECOND);
    assert_eq!(backoff_delay(3), 8 * SECOND);
    assert_eq!(backoff_delay(6), 64 * SECOND);
    assert_eq!(backoff_delay(7), 64 * SECOND);
    assert_eq!(backoff_delay(u32::MAX), 64 * SECOND);
}

#[test]
fn a_dead_highlighter_is_restarted_with_backoff() {
    let mut state = RestartState::default();
    assert_eq!(state.supervise(true, false, START), Supervision::Restart);
    assert_eq!(state.attempts, 1);
    assert_eq!(state.next_attempt_at, Some(START + 2 * SECOND));
    assert_eq!(state.supervise(true, false, START + SECOND), Supervision::Wait);
    assert_eq!(state.supervise(true, false, START + 2 * SECOND), Supervision::Restart);
    assert_eq!(state.next_attempt_at, Some(START + 6 * SECOND));
}

#[test]
fn a_deliberately_stopped_highlighter_stays_stopped() {
    let mut state = RestartState::default();
    assert_eq!(state.supervise(false, false, START), Supervision::Wait);
    assert_eq!(state, RestartState::default());
}

#[test]
fn backoff_is_forgiven_only_after_a_healthy_uptime() {
    let mut state = RestartState::default();
    state.supervise(true, false, START);
    state.restarted(START);
    assert_eq!(state.supervise(true, true, START + HEALTHY_UPTIME - 1), Supervision::Wait);
    assert_eq!(state.attempts, 1);
    assert_eq!(state.supervise(true, true, START + HEALTHY_UPTIME), Supervision::Wait);
    assert_eq!(state, RestartState::default());
}

#[test]
fn starting_spawns_a_worker_only_when_none_is_live() {
    let mut service = HighlighterService::new();
    assert!(!service.is_running());
    assert!(service.start());
    service.spawned();
    assert!(service.is_running());
    assert!(!service.start());
    assert!(service.should_run);
}

#[test]
fn a_stopped_service_is_not_restarted() {
    let mut service = HighlighterService::new();
    service.start();
    service.spawned();
    assert!(service.is_running());
    assert!(!service.stop());
    assert!(!service.is_running());
    assert!(!service.should_run);
    assert!(!service.stop());
    assert_eq!(service.ensure_running(START), Supervision::Wait);
    assert_eq!(service.ensure_running(START + 600 * SECOND), Supervision::Wait);
    assert_eq!(service.restart, RestartState::default());
}

#[test]
fn a_worker_that_exited_is_reaped_and_restarted() {
    let mut service = HighlighterService::new();
    service.start();
    service.spawned();
    assert!(!service.reap_finished_worker(false));
    assert_eq!(service.ensure_running(START), Supervision::Wait);
    assert!(service.reap_finished_worker(true));
    assert!(!service.is_running());
    assert_eq!(service.ensure_running(START), Supervision::Restart);
    service.restarted(START);
    assert!(service.is_running());
    assert_eq!(service.restart.last_start, Some(START));
    assert_eq!(service.restart.attempts, 1);
    assert!(service.reap_finished_worker(true));
    assert_eq!(service.ensure_running(START + SECOND), Supervision::Wait);
    assert_eq!(service.ensure_running(START + 2 * SECOND), Supervision::Restart);
}

#[test]
fn toggling_flips_the_service() {
    let mut service = HighlighterService::new();
    assert_eq!(service.toggle(), Toggle::SpawnWorker);
    assert!(service.should_run);
    service.spawned();
    assert_eq!(service.toggle(), Toggle::StopWorker);
    assert!(!service.should_run);
    assert!(!service.is_running());
    assert_eq!(service.toggle(), Toggle::SpawnWorker);
}
