use better_exit::coordinator::{Coordinator, Decision, TerminateReason};
use better_exit::listener::ExitListener;

#[test]
fn two_listeners_one_stalls_forced_after_timeout() {
    // Timeout of 5.0s (here: milliseconds), two listeners registered at t=0,
    // shutdown requested at t=1.0s, only one acknowledges.
    let mut c = Coordinator::new(Some(5000));
    let l1 = c.register(ExitListener::new(Some("Process")));
    let l2 = c.register(ExitListener::new(Some("Worker")));
    assert_ne!(l1, l2);
    c.request_shutdown(1000);
    c.acknowledge(l2);

    let before = c.tick(5900);
    assert_eq!(before.decision, Decision::Continue);
    assert_eq!(before.diagnostics, Vec::new());

    let after = c.tick(6100);
    assert_eq!(after.decision, Decision::Terminate(TerminateReason::Forced));
    assert_eq!(after.diagnostics, vec![Some("Process")]);
}

#[test]
fn no_timeout_waits_indefinitely() {
    // One anonymous listener that never acknowledges: a thousand ticks, all
    // `Continue`.
    let mut c = Coordinator::new(None);
    c.register(ExitListener::new(None));
    c.request_shutdown(0);
    for i in 0..1000u64 {
        let out = c.tick(i * 1_000_000);
        assert_eq!(out.decision, Decision::Continue);
        assert_eq!(out.diagnostics, Vec::new());
    }
}

#[test]
fn zero_listeners_terminate_clean_immediately() {
    let mut c = Coordinator::new(Some(5000));
    c.request_shutdown(42);
    let out = c.tick(42);
    assert_eq!(out.decision, Decision::Terminate(TerminateReason::Clean));
    assert_eq!(out.diagnostics, Vec::new());
}

#[test]
fn repeated_requests_latch_the_first_time() {
    let mut c = Coordinator::new(Some(5000));
    c.register(ExitListener::new(Some("slow")));
    c.request_shutdown(1000);
    c.request_shutdown(3000);
    c.request_shutdown(4000);
    assert_eq!(c.shutdown_requested_at(), Some(1000));
    // The deadline runs from the first call: 6050 is past 1000 + 5000, even
    // though it is well within 3000 + 5000.
    let out = c.tick(6050);
    assert_eq!(out.decision, Decision::Terminate(TerminateReason::Forced));
}

#[test]
fn late_registration_is_still_counted() {
    let mut c = Coordinator::new(None);
    c.request_shutdown(10);
    let id = c.register(ExitListener::new(Some("late")));
    let waiting = c.tick(11);
    assert_eq!(waiting.decision, Decision::Continue);
    c.acknowledge(id);
    let done = c.tick(12);
    assert_eq!(done.decision, Decision::Terminate(TerminateReason::Clean));
}

#[test]
fn all_acknowledged_before_deadline_is_clean() {
    let mut c = Coordinator::new(Some(5000));
    let a = c.register(ExitListener::new(Some("a")));
    let b = c.register(ExitListener::new(Some("b")));
    c.request_shutdown(0);
    c.acknowledge(a);
    let waiting = c.tick(1000);
    assert_eq!(waiting.decision, Decision::Continue);
    c.acknowledge(b);
    let done = c.tick(2000);
    assert_eq!(done.decision, Decision::Terminate(TerminateReason::Clean));
    assert_eq!(done.diagnostics, Vec::new());
}

#[test]
fn before_any_request_every_tick_continues() {
    let mut c = Coordinator::new(Some(1));
    c.register(ExitListener::new(Some("x")));
    let out = c.tick(1_000_000);
    assert_eq!(out.decision, Decision::Continue);
    assert!(!c.is_terminated());
}

#[test]
fn forced_termination_reports_each_stalled_listener_once() {
    let mut c = Coordinator::new(Some(100));
    c.register(ExitListener::new(Some("first")));
    let ok = c.register(ExitListener::new(Some("ok")));
    c.register(ExitListener::new(None));
    c.request_shutdown(0);
    c.acknowledge(ok);
    let waiting = c.tick(100);
    assert_eq!(waiting.decision, Decision::Continue);
    let forced = c.tick(101);
    assert_eq!(forced.decision, Decision::Terminate(TerminateReason::Forced));
    assert_eq!(forced.diagnostics, vec![Some("first"), None]);
}

#[test]
fn terminate_is_latched_and_diagnostics_are_not_repeated() {
    let mut c = Coordinator::new(Some(100));
    c.register(ExitListener::new(Some("stuck")));
    c.request_shutdown(0);
    let first = c.tick(500);
    assert_eq!(first.decision, Decision::Terminate(TerminateReason::Forced));
    assert_eq!(first.diagnostics, vec![Some("stuck")]);
    assert!(c.is_terminated());
    for i in 0..10u64 {
        let again = c.tick(500 + i);
        assert_eq!(again.decision, Decision::Terminate(TerminateReason::Forced));
        assert_eq!(again.diagnostics, Vec::new());
    }
}

#[test]
fn clean_decision_is_latched_even_if_listeners_arrive_later() {
    let mut c = Coordinator::new(None);
    c.request_shutdown(0);
    let out = c.tick(1);
    assert_eq!(out.decision, Decision::Terminate(TerminateReason::Clean));
    c.register(ExitListener::new(Some("too late")));
    let again = c.tick(2);
    assert_eq!(again.decision, Decision::Terminate(TerminateReason::Clean));
    assert_eq!(again.diagnostics, Vec::new());
}

#[test]
fn timeout_boundary_is_strict() {
    let mut c = Coordinator::new(Some(5000));
    c.register(ExitListener::new(Some("edge")));
    c.request_shutdown(1000);
    // Exactly at the deadline the listener still has its chance.
    let at = c.tick(6000);
    assert_eq!(at.decision, Decision::Continue);
    let past = c.tick(6001);
    assert_eq!(past.decision, Decision::Terminate(TerminateReason::Forced));
}

#[test]
fn acknowledge_with_unknown_identity_is_a_no_op() {
    let mut c = Coordinator::new(None);
    let id = c.register(ExitListener::new(Some("only")));
    c.acknowledge(id + 7);
    c.request_shutdown(0);
    let out = c.tick(1);
    assert_eq!(out.decision, Decision::Continue);
    c.acknowledge(id);
    let out = c.tick(2);
    assert_eq!(out.decision, Decision::Terminate(TerminateReason::Clean));
}

#[test]
fn acknowledge_through_coordinator_is_idempotent() {
    let mut c = Coordinator::new(None);
    let id = c.register(ExitListener::new(Some("once")));
    c.acknowledge(id);
    c.acknowledge(id);
    c.request_shutdown(5);
    let out = c.tick(6);
    assert_eq!(out.decision, Decision::Terminate(TerminateReason::Clean));
}

#[test]
fn observers_report_the_configuration() {
    let mut c = Coordinator::new(Some(250));
    assert_eq!(c.timeout(), Some(250));
    assert_eq!(c.shutdown_requested_at(), None);
    assert_eq!(c.listener_count(), 0);
    assert!(!c.is_terminated());
    c.register(ExitListener::new(None));
    c.register(ExitListener::new(Some("n")));
    assert_eq!(c.listener_count(), 2);
    c.request_shutdown(9);
    assert_eq!(c.shutdown_requested_at(), Some(9));
}
