use crowforge::WindowEvent;

#[test]
fn close_request_is_terminal() {
    assert!(WindowEvent::CloseRequested.is_terminal());
}

#[test]
fn destroyed_is_terminal() {
    assert!(WindowEvent::Destroyed.is_terminal());
}

#[test]
fn other_is_not_terminal() {
    assert!(!WindowEvent::Other.is_terminal());
}

#[test]
fn events_compare_by_kind() {
    assert_eq!(WindowEvent::CloseRequested, WindowEvent::CloseRequested);
    assert_ne!(WindowEvent::CloseRequested, WindowEvent::Destroyed);
    assert_ne!(WindowEvent::Destroyed, WindowEvent::Other);
    let copy = WindowEvent::Destroyed;
    let again = copy;
    assert_eq!(copy, again);
}
