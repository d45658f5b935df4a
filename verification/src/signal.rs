//! The one-shot stop notification that the control handler raises and the
//! work loop reads.

use vstd::prelude::*;

verus! {

/// What a shutdown signal holds.
pub struct SignalState {
    /// Whether a stop was notified.
    pub raised: bool,
    /// Whether the reading side is gone, so that nothing can be notified any
    /// more.
    pub closed: bool,
}

impl SignalState {
    /// The state of a signal that was just created.
    pub open spec fn fresh() -> SignalState {
        SignalState { raised: false, closed: false }
    }

    /// The state after an attempt to notify a stop: a closed signal takes no
    /// notification, an open one is raised from then on.
    pub open spec fn notified(self) -> SignalState {
        if self.closed {
            self
        } else {
            SignalState { raised: true, closed: false }
        }
    }

    /// The state after the reading side has gone.
    pub open spec fn shut(self) -> SignalState {
        SignalState { raised: self.raised, closed: true }
    }
}

/// Why a stop could not be notified.
#[derive(Clone, Copy, Debug, PartialEq, Eq)]
pub enum SignalError {
    /// The reading side of the signal is gone.
    Closed,
}

/// A stop notification that is raised at most once and never lowered.
///
/// The type is not synchronised: a host that shares it between the control
/// handler's thread and the work loop's thread guards it with a lock.
#[derive(Debug)]
pub struct ShutdownSignal {
    raised: bool,
    closed: bool,
}

impl View for ShutdownSignal {
    type V = SignalState;

    closed spec fn view(&self) -> SignalState {
        SignalState { raised: self.raised, closed: self.closed }
    }
}

impl ShutdownSignal {
    /// A signal that is neither raised nor closed.
    pub fn new() -> (signal: ShutdownSignal)
        ensures
            signal@ == SignalState::fresh(),
    {
        ShutdownSignal { raised: false, closed: false }
    }

    /// Notifies a stop. The call fails on a closed signal and changes nothing
    /// then; on an open one it succeeds, whether or not the signal was raised
    /// before.
    pub fn notify(&mut self) -> (sent: Result<(), SignalError>)
        ensures
            final(self)@ == old(self)@.notified(),
            sent is Err <==> old(self)@.closed,
            sent is Err ==> sent == Err::<(), SignalError>(SignalError::Closed),
    {
        if self.closed {
            Err(SignalError::Closed)
        } else {
            self.raised = true;
            Ok(())
        }
    }

    /// Whether a stop was notified. Reading changes nothing, so a raised
    /// signal reads as raised every time.
    pub fn is_raised(&self) -> (raised: bool)
        ensures
            raised == self@.raised,
    {
        self.raised
    }

    /// Whether the reading side is gone.
    pub fn is_closed(&self) -> (closed: bool)
        ensures
            closed == self@.closed,
    {
        self.closed
    }

    /// Gives up the reading side: every later notification fails.
    pub fn close(&mut self)
        ensures
            final(self)@ == old(self)@.shut(),
    {
        self.closed = true;
    }
}

} // verus!
