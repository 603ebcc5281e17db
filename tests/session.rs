use emacs_pool::session::{Session, SessionAction, SessionPhase};
use emacs_pool::worker::{worker_name, Worker, WorkerState};

fn assigned_session(n: u32) -> Session<u32> {
    let mut w = Worker::new(worker_name(n), n);
    w.mark_ready();
    w.assign();
    Session::new(w)
}

#[test]
fn handshake_carries_worker_id() {
    let s = assigned_session(42);
    assert_eq!(s.handshake(), "pool-42\n");
    assert_eq!(s.current_phase(), SessionPhase::Greeting);
}

#[test]
fn failed_handshake_skips_reading() {
    let mut s = assigned_session(8);
    assert_eq!(s.after_write(false), SessionAction::Shutdown);
    assert_eq!(s.current_phase(), SessionPhase::Closing);
    assert_eq!(s.shut_down(), 8);
    assert_eq!(s.current_phase(), SessionPhase::Closed);
}

#[test]
fn data_keeps_session_reading() {
    let mut s = assigned_session(1);
    assert_eq!(s.after_write(true), SessionAction::Read);
    assert_eq!(s.after_read(Some(80)), SessionAction::Read);
    assert_eq!(s.after_read(Some(1)), SessionAction::Read);
    assert_eq!(s.current_phase(), SessionPhase::Listening);
}

#[test]
fn empty_read_ends_session() {
    let mut s = assigned_session(2);
    s.after_write(true);
    assert_eq!(s.after_read(Some(0)), SessionAction::Shutdown);
    assert_eq!(s.current_phase(), SessionPhase::Closing);
}

#[test]
fn read_error_ends_session() {
    let mut s = assigned_session(3);
    s.after_write(true);
    assert_eq!(s.after_read(None), SessionAction::Shutdown);
    assert_eq!(s.current_phase(), SessionPhase::Closing);
}

#[test]
fn disconnect_shuts_down_the_handed_out_worker() {
    let mut s = assigned_session(77);
    let line = s.handshake();
    s.after_write(true);
    s.after_read(Some(0));
    let handle = s.shut_down();
    assert_eq!(handle, 77);
    s.reaped();
    assert_eq!(s.current_phase(), SessionPhase::Closed);
    assert_eq!(line.trim_end_matches('\n'), s.worker_name());
    assert_eq!(line.lines().next().unwrap(), "pool-77");
}

#[test]
fn ready_worker_can_open_session() {
    let mut w = Worker::new(worker_name(5), 5u32);
    w.mark_ready();
    assert_eq!(w.current_state(), WorkerState::Ready);
    let s = Session::new(w);
    assert_eq!(s.worker_name(), "pool-5");
}
