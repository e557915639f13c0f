use telemy::supervisor::{process_seen, ConnectionState, ConnectionSupervisor};

#[test]
fn starts_disconnected_and_connects_on_success() {
    let mut sup = ConnectionSupervisor::new(false, 2000, 2000);
    assert!(!sup.is_connected());
    assert_eq!(sup.state, ConnectionState::Disconnected);

    assert!(sup.should_attempt(0));
    sup.begin_attempt(0);
    sup.finish_attempt(true);
    assert!(sup.is_connected());
}

#[test]
fn read_failure_disconnects_for_the_next_cycle() {
    let mut sup = ConnectionSupervisor::new(false, 2000, 2000);
    sup.begin_attempt(0);
    sup.finish_attempt(true);
    assert!(sup.is_connected());

    sup.record_read_failure();
    assert!(!sup.is_connected());
    assert_eq!(sup.state, ConnectionState::Disconnected);
    // The next cycle is eligible to reconnect once the cooldown allows.
    assert!(sup.should_attempt(2000));
}

#[test]
fn failed_attempts_are_separated_by_the_cooldown() {
    let mut sup = ConnectionSupervisor::new(false, 2000, 2000);
    assert!(sup.should_attempt(100));
    sup.begin_attempt(100);
    sup.finish_attempt(false);

    // However fast the loop ticks, no attempt before 100 + 2000.
    assert!(!sup.should_attempt(100));
    assert!(!sup.should_attempt(1000));
    assert!(!sup.should_attempt(2099));
    assert!(sup.should_attempt(2100));
}

#[test]
fn process_checks_follow_their_own_interval() {
    let mut sup = ConnectionSupervisor::new(true, 2000, 2000);
    assert!(sup.should_check_process(0));
    sup.record_process_check(0, false);
    assert!(!sup.should_check_process(1999));
    assert!(sup.should_check_process(2000));
}

#[test]
fn attempts_skipped_while_process_not_running() {
    let mut sup = ConnectionSupervisor::new(true, 2000, 2000);
    sup.record_process_check(0, false);
    assert!(!sup.should_attempt(0));
    assert!(!sup.should_attempt(10_000));

    sup.record_process_check(2000, true);
    assert!(sup.should_attempt(2000));
}

#[test]
fn process_name_matching_ignores_case() {
    let names = vec!["systemd".to_string(), "OBS64.EXE".to_string()];
    assert!(process_seen(&names, "obs64.exe"));
    assert!(process_seen(&names, "SYSTEMD"));
    assert!(!process_seen(&names, "obs32.exe"));
    assert!(!process_seen(&Vec::new(), "obs64.exe"));
}

#[test]
fn auto_detect_off_presumes_the_process_running() {
    let sup = ConnectionSupervisor::new(false, 2000, 2000);
    assert!(!sup.should_check_process(10_000));
    assert!(sup.should_attempt(0));
}
