use winsrv::control::{handle_control, ControlEvent, HandlerResult};
use winsrv::controller::{Action, Event, ServiceController, ServiceError, Timing};
use winsrv::signal::ShutdownSignal;
use winsrv::status::{ServiceState, ServiceStatus};

/// What a scripted host saw during one run.
struct Record {
    /// The calls that the controller asked for, the registration first.
    actions: Vec<Action>,
    /// The answers of the control handler, in the order of the requests.
    answers: Vec<HandlerResult>,
    /// The result of the run, if it ended.
    result: Option<Result<(), ServiceError>>,
}

impl Record {
    fn states(&self) -> Vec<ServiceState> {
        let mut states = Vec::new();
        for action in &self.actions {
            if let Action::Report(status) = action {
                states.push(status.state);
            }
        }
        states
    }

    fn count(&self, wanted: fn(&Action) -> bool) -> usize {
        self.actions.iter().filter(|action| wanted(action)).count()
    }
}

fn is_work(action: &Action) -> bool {
    matches!(action, Action::Work)
}

fn is_sleep(action: &Action) -> bool {
    matches!(action, Action::Sleep(_))
}

fn is_exit(action: &Action) -> bool {
    matches!(action, Action::Exit(_))
}

fn is_register(action: &Action) -> bool {
    matches!(action, Action::Register)
}

/// Plays the host. Before the call of number `k` is made (the registration
/// has number 0), the requests of `requests[k]` are delivered to the control
/// handler. Every call succeeds unless its number is in `failing`. The run is
/// cut off after `limit` calls.
fn play(requests: &[Vec<ControlEvent>], failing: &[usize], limit: usize) -> Record {
    let timing = Timing { interval_ms: 5000, overhead_ms: 1000, wait_hint_ms: 6000 };
    let mut signal = ShutdownSignal::new();
    let mut controller = ServiceController::new(timing).unwrap();
    let mut record = Record { actions: Vec::new(), answers: Vec::new(), result: None };
    let mut action = controller.pending();
    for call in 0..limit {
        record.actions.push(action);
        if let Some(events) = requests.get(call) {
            for event in events {
                record.answers.push(handle_control(*event, &mut signal).result);
            }
        }
        let ok = !failing.contains(&call);
        let event = match action {
            Action::Register => if ok { Event::Registered } else { Event::RegistrationFailed },
            Action::Report(_) => if ok { Event::Reported } else { Event::ReportFailed },
            Action::Work => Event::WorkDone,
            Action::Sleep(_) => Event::Slept,
            Action::Exit(result) => {
                record.result = Some(result);
                return record;
            }
        };
        action = controller.step(event, &mut signal).unwrap();
    }
    record
}

fn full_order() -> Vec<ServiceState> {
    vec![ServiceState::Running, ServiceState::StopPending, ServiceState::Stopped]
}

#[test]
fn run_without_requests_never_leaves_the_loop() {
    let record = play(&[], &[], 200);
    assert_eq!(record.result, None);
    assert_eq!(record.states(), vec![ServiceState::Running]);
    assert_eq!(record.count(is_register), 1);
    assert_eq!(record.count(is_exit), 0);
    assert_eq!(record.count(is_work), 99);
    assert_eq!(record.count(is_sleep), 99);
}

#[test]
fn interrogate_only_keeps_the_loop_running() {
    let requests: Vec<Vec<ControlEvent>> = (0..50).map(|_| vec![ControlEvent::Interrogate]).collect();
    let record = play(&requests, &[], 100);
    assert_eq!(record.result, None);
    assert_eq!(record.states(), vec![ServiceState::Running]);
    assert_eq!(record.answers.len(), 50);
    assert!(record.answers.iter().all(|answer| *answer == HandlerResult::Handled));
    assert_eq!(record.count(is_work), 49);
}

#[test]
fn unrecognized_code_keeps_the_loop_running() {
    let requests: Vec<Vec<ControlEvent>> =
        (0..50u32).map(|k| vec![ControlEvent::from_raw(200 + k)]).collect();
    let record = play(&requests, &[], 100);
    assert_eq!(record.result, None);
    assert_eq!(record.states(), vec![ServiceState::Running]);
    assert!(record.answers.iter().all(|answer| *answer == HandlerResult::NotImplemented));
    assert_eq!(record.count(is_exit), 0);
}

#[test]
fn stop_right_after_running_is_reported_does_no_work() {
    // Call 0 registers, call 1 publishes the running state; the stop request
    // comes while that call is made, before the loop reads the signal.
    let record = play(&[vec![], vec![ControlEvent::Stop]], &[], 100);
    assert_eq!(record.result, Some(Ok(())));
    assert_eq!(record.count(is_work), 0);
    assert_eq!(record.count(is_sleep), 0);
    assert_eq!(record.states(), full_order());
    assert_eq!(
        record.actions,
        vec![
            Action::Register,
            Action::Report(ServiceStatus::of(ServiceState::Running, 6000)),
            Action::Report(ServiceStatus::of(ServiceState::StopPending, 6000)),
            Action::Report(ServiceStatus::of(ServiceState::Stopped, 6000)),
            Action::Exit(Ok(())),
        ]
    );
}

#[test]
fn status_order_holds_whenever_stop_arrives() {
    for arrival in 0..40 {
        let mut requests: Vec<Vec<ControlEvent>> = vec![Vec::new(); arrival];
        requests.push(vec![ControlEvent::Stop]);
        let record = play(&requests, &[], 200);
        assert_eq!(record.result, Some(Ok(())), "stop at call {}", arrival);
        assert_eq!(record.states(), full_order(), "stop at call {}", arrival);
        assert_eq!(record.count(is_register), 1);
        assert_eq!(record.count(is_exit), 1);
        match record.actions.last() {
            Some(Action::Exit(Ok(()))) => {}
            other => panic!("run ended with {:?}", other),
        }
    }
}

#[test]
fn stop_pending_and_stopped_need_a_stop() {
    for arrival in 2..20 {
        let mut requests: Vec<Vec<ControlEvent>> =
            vec![vec![ControlEvent::Interrogate, ControlEvent::Other(77)]; arrival];
        requests.push(vec![ControlEvent::Stop]);
        let record = play(&requests, &[], 200);
        // The calls made before the stop request hold no wind-down.
        for action in &record.actions[..=arrival] {
            match action {
                Action::Report(status) => assert_eq!(status.state, ServiceState::Running),
                Action::Exit(_) => panic!("left without a stop request"),
                _ => {}
            }
        }
        assert_eq!(record.states(), full_order());
    }
}

#[test]
fn many_stops_end_the_loop_once() {
    for copies in 1..6 {
        let mut requests: Vec<Vec<ControlEvent>> = vec![Vec::new(); 5];
        for _ in 0..4 {
            requests.push(vec![ControlEvent::Stop; copies]);
        }
        let record = play(&requests, &[], 200);
        assert_eq!(record.result, Some(Ok(())));
        assert_eq!(record.states(), full_order());
        assert_eq!(record.count(is_exit), 1);
        assert!(record.answers.iter().all(|answer| *answer == HandlerResult::Handled));
        let stopped = record
            .actions
            .iter()
            .filter(|action| matches!(action, Action::Report(s) if s.state == ServiceState::Stopped))
            .count();
        assert_eq!(stopped, 1);
    }
}

#[test]
fn no_work_after_the_stop_request() {
    for arrival in 2..30 {
        let mut requests: Vec<Vec<ControlEvent>> = vec![Vec::new(); arrival];
        requests.push(vec![ControlEvent::Stop]);
        let record = play(&requests, &[], 200);
        // The call of number `arrival` was asked for before the request;
        // nothing after it is work.
        for action in &record.actions[arrival + 1..] {
            assert!(!is_work(action), "work after a stop at call {}", arrival);
        }
        // And nothing after the stop-pending report is work.
        let seen = record
            .actions
            .iter()
            .position(|a| matches!(a, Action::Report(s) if s.state == ServiceState::StopPending))
            .unwrap();
        assert!(record.actions[seen..].iter().all(|action| !is_work(action)));
    }
}

#[test]
fn at_most_one_sleep_after_the_stop_request() {
    for arrival in 2..30 {
        let mut requests: Vec<Vec<ControlEvent>> = vec![Vec::new(); arrival];
        requests.push(vec![ControlEvent::Stop]);
        let record = play(&requests, &[], 200);
        // The request is delivered while call `arrival` is made, so a sleep
        // that ends after the request is that call or a later one.
        let sleeps = record.actions[arrival..].iter().filter(|action| is_sleep(action)).count();
        assert!(sleeps <= 1, "{} sleeps after a stop at call {}", sleeps, arrival);
    }
}

#[test]
fn four_calls_after_a_stop_end_the_run() {
    for arrival in 0..30 {
        let mut requests: Vec<Vec<ControlEvent>> = vec![Vec::new(); arrival];
        requests.push(vec![ControlEvent::Stop]);
        // Calls 0 .. arrival - 1 are complete when the request comes; four
        // more outcomes bring the exit.
        let record = play(&requests, &[], arrival + 5);
        assert_eq!(record.result, Some(Ok(())), "stop at call {}", arrival);
    }
}

#[test]
fn failed_registration_reports_nothing() {
    let record = play(&[vec![ControlEvent::Stop]], &[0], 100);
    assert_eq!(record.result, Some(Err(ServiceError::Registration)));
    assert_eq!(record.states(), Vec::<ServiceState>::new());
    assert_eq!(record.actions, vec![Action::Register, Action::Exit(Err(ServiceError::Registration))]);
}

#[test]
fn failed_running_report_ends_the_run() {
    let record = play(&[], &[1], 100);
    assert_eq!(record.result, Some(Err(ServiceError::Report)));
    assert_eq!(record.states(), vec![ServiceState::Running]);
    assert_eq!(record.count(is_work), 0);
}

#[test]
fn failed_late_reports_are_passed_over() {
    // Stop while the running state is published; calls 2 and 3 publish the
    // stop-pending and the stopped state and both fail.
    let record = play(&[vec![], vec![ControlEvent::Stop]], &[2, 3], 100);
    assert_eq!(record.result, Some(Ok(())));
    assert_eq!(record.states(), full_order());
}

#[test]
fn stop_after_the_exit_is_handled_and_changes_nothing() {
    let timing = Timing { interval_ms: 10, overhead_ms: 10, wait_hint_ms: 20 };
    let mut signal = ShutdownSignal::new();
    let mut controller = ServiceController::new(timing).unwrap();
    controller.step(Event::RegistrationFailed, &mut signal).unwrap();
    let reaction = handle_control(ControlEvent::Stop, &mut signal);
    assert_eq!(reaction.result, HandlerResult::Handled);
    assert!(!signal.is_raised());
    assert_eq!(controller.pending(), Action::Exit(Err(ServiceError::Registration)));
}
