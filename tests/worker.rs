use emacs_pool::worker::{new_worker_name, ready_marker, shows_marker, worker_name, Worker, WorkerState, SETTLE_DELAY_MS};

#[test]
fn worker_name_is_prefixed_decimal() {
    assert_eq!(worker_name(0), "pool-0");
    assert_eq!(worker_name(123456), "pool-123456");
    assert_eq!(worker_name(u32::MAX), "pool-4294967295");
}

#[test]
fn fresh_name_is_one_line_of_digits() {
    let name = new_worker_name();
    assert!(name.starts_with("pool-"));
    let digits = &name["pool-".len()..];
    assert!(!digits.is_empty());
    assert!(digits.chars().all(|c| c.is_ascii_digit()));
    assert!(digits.len() == 1 || !digits.starts_with('0'));
}

#[test]
fn marker_seen_in_line() {
    let line = Some(String::from("info: Starting Emacs daemon. (pid 10)"));
    assert!(shows_marker(&line, ready_marker()));
}

#[test]
fn marker_absent_from_line() {
    let line = Some(String::from("Loading init file..."));
    assert!(!shows_marker(&line, ready_marker()));
}

#[test]
fn end_of_stream_reads_as_empty_line() {
    assert!(!shows_marker(&None, ready_marker()));
    assert!(shows_marker(&None, ""));
}

#[test]
fn settle_delay_is_half_a_second() {
    assert_eq!(SETTLE_DELAY_MS, 500);
}

#[test]
fn worker_lifecycle_runs_in_order() {
    let mut w = Worker::new(String::from("pool-5"), 77u32);
    assert_eq!(w.current_state(), WorkerState::Starting);
    assert_eq!(w.name(), "pool-5");
    w.mark_ready();
    assert_eq!(w.current_state(), WorkerState::Ready);
    w.assign();
    assert_eq!(w.current_state(), WorkerState::Assigned);
    let handle = w.shutdown();
    assert_eq!(handle, 77);
    assert_eq!(w.current_state(), WorkerState::ShuttingDown);
    w.mark_terminated();
    assert_eq!(w.current_state(), WorkerState::Terminated);
    assert_eq!(w.name(), "pool-5");
}

#[test]
fn starting_worker_can_be_shut_down() {
    let mut w = Worker::new(String::from("pool-6"), 3u32);
    assert_eq!(w.shutdown(), 3);
    assert_eq!(w.current_state(), WorkerState::ShuttingDown);
}
