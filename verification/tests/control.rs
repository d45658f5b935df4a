use winsrv::control::{handle_control, ControlEvent, HandlerResult, Reaction, Relay};
use winsrv::signal::{ShutdownSignal, SignalError};

#[test]
fn control_codes_are_read() {
    assert_eq!(ControlEvent::from_raw(1), ControlEvent::Stop);
    assert_eq!(ControlEvent::from_raw(4), ControlEvent::Interrogate);
    assert_eq!(ControlEvent::from_raw(0), ControlEvent::Other(0));
    assert_eq!(ControlEvent::from_raw(2), ControlEvent::Other(2));
    assert_eq!(ControlEvent::from_raw(5), ControlEvent::Other(5));
    assert_eq!(ControlEvent::from_raw(u32::MAX), ControlEvent::Other(u32::MAX));
}

#[test]
fn control_codes_are_written() {
    assert_eq!(ControlEvent::Stop.to_raw(), 1);
    assert_eq!(ControlEvent::Interrogate.to_raw(), 4);
    assert_eq!(ControlEvent::Other(200).to_raw(), 200);
}

#[test]
fn control_codes_round_trip() {
    for code in [0u32, 1, 2, 3, 4, 5, 15, 128, 255, 4096, u32::MAX] {
        assert_eq!(ControlEvent::from_raw(code).to_raw(), code);
    }
}

#[test]
fn handler_result_codes_match_the_service_manager() {
    assert_eq!(HandlerResult::Handled.to_raw(), 0);
    assert_eq!(HandlerResult::NotImplemented.to_raw(), 120);
}

#[test]
fn stop_raises_the_signal_and_is_handled() {
    let mut signal = ShutdownSignal::new();
    let reaction = handle_control(ControlEvent::Stop, &mut signal);
    assert_eq!(reaction, Reaction { result: HandlerResult::Handled, relay: Relay::Delivered });
    assert!(signal.is_raised());
}

#[test]
fn interrogate_only_changes_nothing() {
    let mut signal = ShutdownSignal::new();
    for _ in 0..10 {
        let reaction = handle_control(ControlEvent::Interrogate, &mut signal);
        assert_eq!(
            reaction,
            Reaction { result: HandlerResult::Handled, relay: Relay::NotAttempted }
        );
        assert_ne!(reaction.result, HandlerResult::NotImplemented);
        assert!(!signal.is_raised());
        assert!(!signal.is_closed());
    }
}

#[test]
fn unrecognized_code_is_not_implemented() {
    let mut signal = ShutdownSignal::new();
    for code in [0u32, 2, 3, 5, 11, 129, 0xdead] {
        let reaction = handle_control(ControlEvent::from_raw(code), &mut signal);
        assert_eq!(
            reaction,
            Reaction { result: HandlerResult::NotImplemented, relay: Relay::NotAttempted }
        );
        assert!(!signal.is_raised());
    }
}

#[test]
fn other_is_not_implemented_whatever_its_code() {
    let mut signal = ShutdownSignal::new();
    let reaction = handle_control(ControlEvent::Other(1), &mut signal);
    assert_eq!(reaction.result, HandlerResult::NotImplemented);
    assert!(!signal.is_raised());
}

#[test]
fn repeated_stops_equal_one() {
    let mut once = ShutdownSignal::new();
    handle_control(ControlEvent::Stop, &mut once);
    let mut many = ShutdownSignal::new();
    for _ in 0..7 {
        let reaction = handle_control(ControlEvent::Stop, &mut many);
        assert_eq!(reaction, Reaction { result: HandlerResult::Handled, relay: Relay::Delivered });
    }
    assert_eq!(many.is_raised(), once.is_raised());
    assert_eq!(many.is_closed(), once.is_closed());
}

#[test]
fn stop_on_a_closed_signal_is_still_handled() {
    let mut signal = ShutdownSignal::new();
    signal.close();
    let reaction = handle_control(ControlEvent::Stop, &mut signal);
    assert_eq!(
        reaction,
        Reaction { result: HandlerResult::Handled, relay: Relay::Failed(SignalError::Closed) }
    );
    assert!(!signal.is_raised());
}

#[test]
fn a_raised_signal_survives_every_request() {
    let mut signal = ShutdownSignal::new();
    handle_control(ControlEvent::Stop, &mut signal);
    for event in [ControlEvent::Interrogate, ControlEvent::Other(9), ControlEvent::Stop] {
        handle_control(event, &mut signal);
        assert!(signal.is_raised());
    }
}
