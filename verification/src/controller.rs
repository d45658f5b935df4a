//! The service controller: a state machine that tells the host program which
//! call to make next, and learns from the host how the call went.
//!
//! The controller makes no call of its own. The host registers the control
//! handler, publishes status records, does the unit of work and sleeps; after
//! each of these it hands the outcome to [`ServiceController::step`] and gets
//! the next thing to do.

use vstd::prelude::*;
use crate::run::{after, Occurrence, World};
use crate::signal::{ShutdownSignal, SignalState};
use crate::status::{ServiceState, ServiceStatus};

verus! {

/// The pace of the work loop and the patience asked of the service manager,
/// in milliseconds.
#[derive(Clone, Copy, Debug, PartialEq, Eq)]
pub struct Timing {
    /// The sleep between two units of work. A stop request waits for the end
    /// of a sleep at the longest.
    pub interval_ms: u32,
    /// The time allowed for publishing a status record.
    pub overhead_ms: u32,
    /// The wait hint published with every status record.
    pub wait_hint_ms: u32,
}

impl Timing {
    /// Whether the wait hint covers one sleep and one status report, so that
    /// the service manager does not give up on a service that is about to
    /// see a stop request.
    pub open spec fn covered(self) -> bool {
        self.interval_ms + self.overhead_ms <= self.wait_hint_ms
    }

    /// Whether the wait hint covers one sleep and one status report.
    pub fn is_covered(&self) -> (ok: bool)
        ensures
            ok == self.covered(),
    {
        let needed: u64 = self.interval_ms as u64 + self.overhead_ms as u64;
        needed <= self.wait_hint_ms as u64
    }
}

/// Why a controller could not be made.
#[derive(Clone, Copy, Debug, PartialEq, Eq)]
pub enum TimingError {
    /// The wait hint is shorter than one sleep and one status report.
    HintTooShort,
}

/// Why a run of the service failed.
#[derive(Clone, Copy, Debug, PartialEq, Eq)]
pub enum ServiceError {
    /// The service manager refused to register the control handler.
    Registration,
    /// The service manager refused the status record of the running state.
    Report,
}

/// Where a run of the service stands: the call that the host is making.
#[derive(Clone, Copy, Debug, PartialEq, Eq)]
pub enum Stage {
    /// The control handler is being registered.
    Registering,
    /// The running state is being published.
    Announcing,
    /// The unit of work is being done.
    Working,
    /// The work loop sleeps.
    Sleeping,
    /// A stop was seen; the stop-pending state is being published.
    Stopping,
    /// The stopped state is being published.
    Finishing,
    /// The run is over, with this result.
    Exited(Result<(), ServiceError>),
}

/// What the host reports back to the controller.
#[derive(Clone, Copy, Debug, PartialEq, Eq)]
pub enum Event {
    /// The control handler is registered.
    Registered,
    /// The service manager refused the registration.
    RegistrationFailed,
    /// The status record was published.
    Reported,
    /// The service manager refused the status record.
    ReportFailed,
    /// The unit of work is done.
    WorkDone,
    /// The sleep is over.
    Slept,
}

/// What the controller asks the host to do.
#[derive(Clone, Copy, Debug, PartialEq, Eq)]
pub enum Action {
    /// Register the control handler with the service manager.
    Register,
    /// Publish this status record.
    Report(ServiceStatus),
    /// Do one unit of work.
    Work,
    /// Sleep for this many milliseconds.
    Sleep(u32),
    /// Leave, with this result.
    Exit(Result<(), ServiceError>),
}

/// Why the controller refused an event.
#[derive(Clone, Copy, Debug, PartialEq, Eq)]
pub enum StepError {
    /// The event does not answer the call that the host was asked to make.
    Unexpected,
    /// The run is over.
    Exited,
}

/// The stage that the work loop enters when it reads the shutdown signal: a
/// raised signal ends the loop before any further work.
pub open spec fn polled(signal: SignalState) -> Stage {
    if signal.raised {
        Stage::Stopping
    } else {
        Stage::Working
    }
}

/// The stage that follows `stage` when the host reports `event`, the shutdown
/// signal being in state `signal`; `None` where the event does not fit the
/// stage.
///
/// A failure to register, or to publish the running state, ends the run with
/// an error. A failure to publish the stop-pending or the stopped state
/// changes nothing: the run goes on to its end.
pub open spec fn next_stage(stage: Stage, event: Event, signal: SignalState) -> Option<Stage> {
    match (stage, event) {
        (Stage::Registering, Event::Registered) => Some(Stage::Announcing),
        (Stage::Registering, Event::RegistrationFailed) => Some(
            Stage::Exited(Err(ServiceError::Registration)),
        ),
        (Stage::Announcing, Event::Reported) => Some(polled(signal)),
        (Stage::Announcing, Event::ReportFailed) => Some(Stage::Exited(Err(ServiceError::Report))),
        (Stage::Working, Event::WorkDone) => Some(Stage::Sleeping),
        (Stage::Sleeping, Event::Slept) => Some(polled(signal)),
        (Stage::Stopping, Event::Reported) => Some(Stage::Finishing),
        (Stage::Stopping, Event::ReportFailed) => Some(Stage::Finishing),
        (Stage::Finishing, Event::Reported) => Some(Stage::Exited(Ok(()))),
        (Stage::Finishing, Event::ReportFailed) => Some(Stage::Exited(Ok(()))),
        _ => None,
    }
}

/// The call that the host makes in `stage`.
pub open spec fn action_of(stage: Stage, timing: Timing) -> Action {
    match stage {
        Stage::Registering => Action::Register,
        Stage::Announcing => Action::Report(
            ServiceStatus::snapshot(ServiceState::Running, timing.wait_hint_ms),
        ),
        Stage::Working => Action::Work,
        Stage::Sleeping => Action::Sleep(timing.interval_ms),
        Stage::Stopping => Action::Report(
            ServiceStatus::snapshot(ServiceState::StopPending, timing.wait_hint_ms),
        ),
        Stage::Finishing => Action::Report(
            ServiceStatus::snapshot(ServiceState::Stopped, timing.wait_hint_ms),
        ),
        Stage::Exited(result) => Action::Exit(result),
    }
}

/// The refusal that an event gets in `stage` when it does not fit.
pub open spec fn refusal(stage: Stage) -> StepError {
    if stage is Exited {
        StepError::Exited
    } else {
        StepError::Unexpected
    }
}

/// The shutdown signal after the controller has entered `stage`: the reading
/// side goes when the run is over.
pub open spec fn signal_on_entry(stage: Stage, signal: SignalState) -> SignalState {
    if stage is Exited {
        signal.shut()
    } else {
        signal
    }
}

/// What a controller holds.
pub struct ControllerState {
    /// The call that the host is making.
    pub stage: Stage,
    /// The timing that the controller was made with.
    pub timing: Timing,
}

/// The state machine of one run of the service.
#[derive(Debug)]
pub struct ServiceController {
    stage: Stage,
    timing: Timing,
}

impl View for ServiceController {
    type V = ControllerState;

    closed spec fn view(&self) -> ControllerState {
        ControllerState { stage: self.stage, timing: self.timing }
    }
}

impl ServiceController {
    /// Makes the controller of a new run. The first call that the host makes
    /// is the registration of the control handler.
    ///
    /// A timing whose wait hint does not cover one sleep and one status report
    /// is refused.
    pub fn new(timing: Timing) -> (made: Result<ServiceController, TimingError>)
        ensures
            match made {
                Ok(controller) => timing.covered() && controller@ == (ControllerState {
                    stage: Stage::Registering,
                    timing,
                }),
                Err(e) => !timing.covered() && e == TimingError::HintTooShort,
            },
    {
        if timing.is_covered() {
            Ok(ServiceController { stage: Stage::Registering, timing })
        } else {
            Err(TimingError::HintTooShort)
        }
    }

    /// The stage of the run.
    pub fn stage(&self) -> (stage: Stage)
        ensures
            stage == self@.stage,
    {
        self.stage
    }

    /// The timing that the controller was made with.
    pub fn timing(&self) -> (timing: Timing)
        ensures
            timing == self@.timing,
    {
        self.timing
    }

    /// The call that the host is to make now.
    pub fn pending(&self) -> (action: Action)
        ensures
            action == action_of(self@.stage, self@.timing),
    {
        let hint = self.timing.wait_hint_ms;
        match self.stage {
            Stage::Registering => Action::Register,
            Stage::Announcing => Action::Report(ServiceStatus::of(ServiceState::Running, hint)),
            Stage::Working => Action::Work,
            Stage::Sleeping => Action::Sleep(self.timing.interval_ms),
            Stage::Stopping => Action::Report(ServiceStatus::of(ServiceState::StopPending, hint)),
            Stage::Finishing => Action::Report(ServiceStatus::of(ServiceState::Stopped, hint)),
            Stage::Exited(result) => Action::Exit(result),
        }
    }

    /// Takes the outcome of the call that the host has made and says which
    /// call comes next.
    ///
    /// Where the work loop begins a new round, after the running state was
    /// published and after each sleep, the controller reads `signal`: a raised
    /// signal ends the loop at once, with no further work. When the run ends,
    /// the controller closes `signal`.
    ///
    /// An event that does not answer the pending call is refused and changes
    /// nothing.
    ///
    /// Controller and signal together move as one occurrence of a run does.
    pub fn step(&mut self, event: Event, signal: &mut ShutdownSignal) -> (next: Result<
        Action,
        StepError,
    >)
        ensures
            final(self)@.timing == old(self)@.timing,
            match next_stage(old(self)@.stage, event, old(signal)@) {
                Some(stage) => {
                    &&& final(self)@.stage == stage
                    &&& final(signal)@ == signal_on_entry(stage, old(signal)@)
                    &&& next == Ok::<Action, StepError>(action_of(stage, old(self)@.timing))
                },
                None => {
                    &&& final(self)@ == old(self)@
                    &&& final(signal)@ == old(signal)@
                    &&& next == Err::<Action, StepError>(refusal(old(self)@.stage))
                },
            },
            (World { stage: final(self)@.stage, signal: final(signal)@ }) == after(
                (World { stage: old(self)@.stage, signal: old(signal)@ }),
                Occurrence::Host(event),
            ),
    {
        let entered = match (self.stage, event) {
            (Stage::Registering, Event::Registered) => Stage::Announcing,
            (Stage::Registering, Event::RegistrationFailed) => Stage::Exited(
                Err(ServiceError::Registration),
            ),
            (Stage::Announcing, Event::Reported) => Self::poll(signal),
            (Stage::Announcing, Event::ReportFailed) => Stage::Exited(Err(ServiceError::Report)),
            (Stage::Working, Event::WorkDone) => Stage::Sleeping,
            (Stage::Sleeping, Event::Slept) => Self::poll(signal),
            (Stage::Stopping, Event::Reported) => Stage::Finishing,
            (Stage::Stopping, Event::ReportFailed) => Stage::Finishing,
            (Stage::Finishing, Event::Reported) => Stage::Exited(Ok(())),
            (Stage::Finishing, Event::ReportFailed) => Stage::Exited(Ok(())),
            (Stage::Exited(_), _) => {
                return Err(StepError::Exited);
            },
            _ => {
                return Err(StepError::Unexpected);
            },
        };
        match entered {
            Stage::Exited(_) => {
                signal.close();
            },
            _ => {},
        }
        self.stage = entered;
        Ok(self.pending())
    }

    /// Reads the shutdown signal at the top of a round of the work loop.
    fn poll(signal: &ShutdownSignal) -> (stage: Stage)
        ensures
            stage == polled(signal@),
    {
        if signal.is_raised() {
            Stage::Stopping
        } else {
            Stage::Working
        }
    }
}

} // verus!
