use winsrv::signal::{ShutdownSignal, SignalError};

#[test]
fn fresh_signal_is_down_and_open() {
    let signal = ShutdownSignal::new();
    assert!(!signal.is_raised());
    assert!(!signal.is_closed());
}

#[test]
fn notify_raises_the_signal() {
    let mut signal = ShutdownSignal::new();
    assert_eq!(signal.notify(), Ok(()));
    assert!(signal.is_raised());
    assert!(!signal.is_closed());
}

#[test]
fn reading_twice_gives_the_same() {
    let mut signal = ShutdownSignal::new();
    assert!(!signal.is_raised());
    assert!(!signal.is_raised());
    signal.notify().unwrap();
    assert!(signal.is_raised());
    assert!(signal.is_raised());
}

#[test]
fn a_second_notification_is_harmless() {
    let mut signal = ShutdownSignal::new();
    assert_eq!(signal.notify(), Ok(()));
    assert_eq!(signal.notify(), Ok(()));
    assert_eq!(signal.notify(), Ok(()));
    assert!(signal.is_raised());
}

#[test]
fn a_closed_signal_refuses_notification() {
    let mut signal = ShutdownSignal::new();
    signal.close();
    assert!(signal.is_closed());
    assert_eq!(signal.notify(), Err(SignalError::Closed));
    assert!(!signal.is_raised());
}

#[test]
fn closing_keeps_a_raised_signal_raised() {
    let mut signal = ShutdownSignal::new();
    signal.notify().unwrap();
    signal.close();
    assert!(signal.is_raised());
    assert!(signal.is_closed());
    assert_eq!(signal.notify(), Err(SignalError::Closed));
    assert!(signal.is_raised());
}
