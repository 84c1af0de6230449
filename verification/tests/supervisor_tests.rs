use airo_wingman::types::Failure;
use airo_wingman::{start, Signal, Supervisor, Task, CHANNEL_CAPACITY};

#[test]
fn start_brings_up_the_four_tasks_in_order() {
    let plan = start(Ok(())).unwrap();
    assert_eq!(
        plan,
        vec![Task::ChainListener, Task::HttpServer, Task::ExecutionEngine, Task::BidEngine]
    );
    assert_eq!(CHANNEL_CAPACITY, 128);
}

#[test]
fn start_fails_when_the_chain_cannot_be_reached() {
    match start(Err(Failure::Outside("connection refused".to_string()))) {
        Err(Failure::Outside(words)) => assert_eq!(words, "connection refused"),
        other => panic!("unexpected {:?}", other),
    }
}

#[test]
fn failed_critical_task_cancels_before_wait_is_over() {
    let mut supervisor = Supervisor::new();
    assert!(supervisor.spawn());
    assert!(supervisor.spawn());
    supervisor.close();
    assert!(!supervisor.wait());
    assert!(!supervisor.is_cancelled());
    let handed_on = supervisor.critical_task(Err(Failure::Outside("boom".to_string())));
    assert!(matches!(handed_on, Err(Failure::Outside(ref words)) if words == "boom"));
    assert!(supervisor.is_cancelled());
    assert!(!supervisor.wait());
    assert!(supervisor.critical_task(Ok(())).is_ok());
    assert!(supervisor.wait());
    assert!(supervisor.is_cancelled());
}

#[test]
fn clean_returns_do_not_cancel() {
    let mut supervisor = Supervisor::new();
    assert!(supervisor.spawn());
    supervisor.close();
    assert!(supervisor.critical_task(Ok(())).is_ok());
    assert!(supervisor.wait());
    assert!(!supervisor.is_cancelled());
}

#[test]
fn signals_cancel() {
    let mut supervisor = Supervisor::new();
    supervisor.shutdown_signal(Signal::Interrupt);
    assert!(supervisor.is_cancelled());
    let mut supervisor = Supervisor::new();
    supervisor.shutdown_signal(Signal::Terminate);
    assert!(supervisor.is_cancelled());
}

#[test]
fn closed_supervisor_takes_no_task() {
    let mut supervisor = Supervisor::new();
    supervisor.close();
    assert!(!supervisor.spawn());
    assert_eq!(supervisor.running, 0);
    assert!(supervisor.wait());
}
