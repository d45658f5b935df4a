//! The control handler: what the service does with a request of the service
//! manager.

use vstd::prelude::*;
use crate::controller::Stage;
use crate::run::{after, Occurrence, World};
use crate::signal::{ShutdownSignal, SignalError, SignalState};

verus! {

/// A request that the service manager delivers to the control handler.
#[derive(Clone, Copy, Debug, PartialEq, Eq)]
pub enum ControlEvent {
    /// The service shall stop.
    Stop,
    /// The service shall confirm that it is alive.
    Interrogate,
    /// Any other request, with the service manager's code for it.
    Other(u32),
}

impl ControlEvent {
    /// The event that the service manager's code `code` stands for.
    pub open spec fn decoded(code: u32) -> ControlEvent {
        if code == 1 {
            ControlEvent::Stop
        } else if code == 4 {
            ControlEvent::Interrogate
        } else {
            ControlEvent::Other(code)
        }
    }

    /// The service manager's code for this event.
    pub open spec fn raw(self) -> u32 {
        match self {
            ControlEvent::Stop => 1,
            ControlEvent::Interrogate => 4,
            ControlEvent::Other(code) => code,
        }
    }

    /// Reads an event from the service manager's code.
    pub fn from_raw(code: u32) -> (event: ControlEvent)
        ensures
            event == ControlEvent::decoded(code),
    {
        if code == 1 {
            ControlEvent::Stop
        } else if code == 4 {
            ControlEvent::Interrogate
        } else {
            ControlEvent::Other(code)
        }
    }

    /// The service manager's code for this event.
    pub fn to_raw(self) -> (code: u32)
        ensures
            code == self.raw(),
    {
        match self {
            ControlEvent::Stop => 1,
            ControlEvent::Interrogate => 4,
            ControlEvent::Other(code) => code,
        }
    }
}

/// The control handler's answer to the service manager.
#[derive(Clone, Copy, Debug, PartialEq, Eq)]
pub enum HandlerResult {
    /// The request was taken.
    Handled,
    /// The service does not support the request.
    NotImplemented,
}

impl HandlerResult {
    /// The service manager's code for this answer.
    pub open spec fn raw(self) -> u32 {
        match self {
            HandlerResult::Handled => 0,
            HandlerResult::NotImplemented => 120,
        }
    }

    /// The service manager's code for this answer.
    pub fn to_raw(self) -> (code: u32)
        ensures
            code == self.raw(),
    {
        match self {
            HandlerResult::Handled => 0,
            HandlerResult::NotImplemented => 120,
        }
    }
}

/// What became of the stop notification while a request was handled.
#[derive(Clone, Copy, Debug, PartialEq, Eq)]
pub enum Relay {
    /// The request called for no notification.
    NotAttempted,
    /// The shutdown signal took the notification.
    Delivered,
    /// The shutdown signal refused the notification.
    Failed(SignalError),
}

/// The control handler's reaction to one request.
#[derive(Clone, Copy, Debug, PartialEq, Eq)]
pub struct Reaction {
    /// The answer for the service manager.
    pub result: HandlerResult,
    /// What became of the stop notification, for the host's log.
    pub relay: Relay,
}

/// The answer that a request gets: a stop request and a status query are
/// taken, every other request is not supported. The answer does not depend on
/// the shutdown signal.
pub open spec fn answer(event: ControlEvent) -> HandlerResult {
    match event {
        ControlEvent::Stop => HandlerResult::Handled,
        ControlEvent::Interrogate => HandlerResult::Handled,
        ControlEvent::Other(_) => HandlerResult::NotImplemented,
    }
}

/// What becomes of the stop notification when `event` is handled with the
/// shutdown signal in state `signal`.
pub open spec fn relay_of(event: ControlEvent, signal: SignalState) -> Relay {
    match event {
        ControlEvent::Stop => if signal.closed {
            Relay::Failed(SignalError::Closed)
        } else {
            Relay::Delivered
        },
        _ => Relay::NotAttempted,
    }
}

/// The shutdown signal after `event` was handled: only a stop request
/// touches it.
pub open spec fn signal_after(event: ControlEvent, signal: SignalState) -> SignalState {
    match event {
        ControlEvent::Stop => signal.notified(),
        _ => signal,
    }
}

/// The shutdown signal after `n` stop requests in a row.
pub open spec fn after_stops(signal: SignalState, n: nat) -> SignalState
    decreases n,
{
    if n == 0 {
        signal
    } else {
        signal_after(ControlEvent::Stop, after_stops(signal, (n - 1) as nat))
    }
}

/// Only the first stop request counts: any number of stop requests leaves the
/// shutdown signal as a single one does.
pub proof fn law_repeated_stop(signal: SignalState, n: nat)
    requires
        n >= 1,
    ensures
        after_stops(signal, n) == signal_after(ControlEvent::Stop, signal),
    decreases n,
{
    if n > 1 {
        law_repeated_stop(signal, (n - 1) as nat);
    } else {
        assert(after_stops(signal, 0) == signal);
    }
}

/// A raised signal stays raised, whatever is requested.
pub proof fn law_signal_stays_raised(signal: SignalState, event: ControlEvent)
    requires
        signal.raised,
    ensures
        signal_after(event, signal).raised,
{
}

/// Handles one request of the service manager.
///
/// A stop request is relayed to the shutdown signal and answered as taken,
/// whether or not the signal took it. A status query is answered as taken and
/// changes nothing. Any other request is answered as not supported and changes
/// nothing.
///
/// Whatever the controller's stage, controller and signal together move as one
/// occurrence of a run does.
pub fn handle_control(event: ControlEvent, signal: &mut ShutdownSignal) -> (reaction: Reaction)
    ensures
        reaction.result == answer(event),
        reaction.relay == relay_of(event, old(signal)@),
        final(signal)@ == signal_after(event, old(signal)@),
        forall|stage: Stage|
            (World { stage, signal: final(signal)@ }) == #[trigger] after(
                (World { stage, signal: old(signal)@ }),
                Occurrence::Control(event),
            ),
{
    match event {
        ControlEvent::Stop => {
            let relay = match signal.notify() {
                Ok(_) => Relay::Delivered,
                Err(e) => Relay::Failed(e),
            };
            Reaction { result: HandlerResult::Handled, relay }
        },
        ControlEvent::Interrogate => Reaction {
            result: HandlerResult::Handled,
            relay: Relay::NotAttempted,
        },
        ControlEvent::Other(_) => Reaction {
            result: HandlerResult::NotImplemented,
            relay: Relay::NotAttempted,
        },
    }
}

} // verus!
