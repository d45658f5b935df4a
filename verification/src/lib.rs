//! Lifecycle core of an operating-system service.
//!
//! A service registers a control handler with the service manager, reports
//! that it is running, does a unit of periodic work between sleeps, and winds
//! down when the manager asks it to stop. The crate holds the decisions of
//! that lifecycle and leaves every operating-system call to the host program:
//!
//! * [`status`]: the status record published to the service manager;
//! * [`signal`]: the one-shot stop notification shared by the control handler
//!   and the work loop;
//! * [`control`]: the control handler's reaction to a control event;
//! * [`controller`]: the state machine that tells the host which call to make
//!   next;
//! * [`run`]: whole runs of handler and controller together, and the
//!   guarantees that hold of every run.

pub mod control;
pub mod controller;
pub mod run;
pub mod signal;
pub mod status;
