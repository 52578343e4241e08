use init::watcher::{ActivationWatcher, WatcherState};
use init::worker::{reply_for, Worker};

#[test]
fn watcher_walks_bound_armed_fired() {
    let mut w = ActivationWatcher::new();
    assert_eq!(w.state(), WatcherState::Unbound);
    w.socket_bound();
    assert_eq!(w.state(), WatcherState::Bound);
    w.poll_registered();
    assert_eq!(w.state(), WatcherState::Armed);
    assert!(w.on_event(true));
    assert_eq!(w.state(), WatcherState::Fired);
}

#[test]
fn no_spawn_before_connection_attempt() {
    let mut w = ActivationWatcher::new();
    // Events before the watcher is armed never spawn.
    assert!(!w.on_event(true));
    w.socket_bound();
    assert!(!w.on_event(true));
    w.poll_registered();
    // Armed, but no pending connection: still no spawn.
    assert!(!w.on_event(false));
    assert!(!w.on_event(false));
    assert_eq!(w.state(), WatcherState::Armed);
    // The first connection attempt spawns.
    assert!(w.on_event(true));
}

#[test]
fn fired_watcher_never_spawns_again() {
    let mut w = ActivationWatcher::new();
    w.socket_bound();
    w.poll_registered();
    assert!(w.on_event(true));
    // One-shot: later connection attempts are the service's own business.
    assert!(!w.on_event(true));
    assert!(!w.on_event(true));
    assert!(!w.on_event(false));
    assert_eq!(w.state(), WatcherState::Fired);
}

#[test]
fn reply_identifies_responding_service() {
    let mut worker = Worker::new(String::from("A"));
    let reply = worker.on_read(b"Hello".len()).unwrap();
    assert_eq!(reply, "Answer from A");
    assert!(reply.contains("A"));
    assert!(!worker.is_finished());
}

#[test]
fn zero_length_read_terminates_worker() {
    let mut worker = Worker::new(String::from("B"));
    assert_eq!(worker.on_read(9), Some(String::from("Answer from B")));
    assert_eq!(worker.on_read(0), None);
    assert!(worker.is_finished());
}

#[test]
fn read_error_and_failed_write_terminate_worker() {
    let mut worker = Worker::new(String::from("C"));
    worker.on_read_error();
    assert!(worker.is_finished());

    let mut other = Worker::new(String::from("C"));
    other.on_read(4).unwrap();
    other.on_write_result(true);
    assert!(!other.is_finished());
    other.on_write_result(false);
    assert!(other.is_finished());
}

#[test]
fn independent_connections_get_independent_correct_replies() {
    // Two clients of the same activated service, each with its own worker.
    let mut first = Worker::new(String::from("A"));
    let mut second = Worker::new(String::from("A"));
    let r1 = first.on_read(5).unwrap();
    let r2 = second.on_read(5).unwrap();
    assert_eq!(r1, "Answer from A");
    assert_eq!(r2, "Answer from A");
    // A worker of another service never answers for A.
    let mut b = Worker::new(String::from("B"));
    assert_eq!(b.on_read(5).unwrap(), "Answer from B");
    assert_eq!(reply_for("A"), "Answer from A");
}
