use better_exit::listener::ExitListener;

#[test]
fn new_listener_is_unacknowledged() {
    let l = ExitListener::new(Some("worker"));
    assert!(!l.is_acknowledged());
    assert_eq!(l.label(), Some("worker"));
}

#[test]
fn acknowledge_sets_the_flag() {
    let mut l = ExitListener::new(None);
    assert!(!l.is_acknowledged());
    l.acknowledge();
    assert!(l.is_acknowledged());
}

#[test]
fn acknowledge_twice_is_a_no_op() {
    let mut l = ExitListener::new(Some("db"));
    l.acknowledge();
    l.acknowledge();
    assert!(l.is_acknowledged());
    assert_eq!(l.label(), Some("db"));
}

#[test]
fn display_label_uses_the_label() {
    let l = ExitListener::new(Some("Process"));
    assert_eq!(l.display_label(), "Process");
}

#[test]
fn display_label_marks_anonymous_listeners() {
    let l = ExitListener::new(None);
    assert_eq!(l.display_label(), "(anonymous)");
}
