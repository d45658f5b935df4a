//! Whole runs of the service: the control handler and the controller acting on
//! one shutdown signal, in any interleaving, and what holds of every run.
//!
//! A run is a sequence of occurrences. Each occurrence is either a request
//! that the service manager delivers to the control handler, or an outcome
//! that the host reports to the controller. The two sides meet in the
//! shutdown signal only, so a run is the fold of [`after`] over the sequence,
//! starting from [`start`].

use vstd::prelude::*;
use crate::control::{signal_after, ControlEvent};
use crate::controller::{
    action_of, next_stage, signal_on_entry, Action, Event, ServiceError, Stage, Timing,
};
use crate::signal::SignalState;
use crate::status::{ServiceState, ServiceStatus};

verus! {

/// One thing that happens to the service.
pub enum Occurrence {
    /// The service manager delivers a request to the control handler.
    Control(ControlEvent),
    /// The host reports the outcome of a call to the controller.
    Host(Event),
}

/// The service between two occurrences.
pub struct World {
    /// The controller's stage.
    pub stage: Stage,
    /// The shutdown signal.
    pub signal: SignalState,
}

/// The service before anything has occurred.
pub open spec fn start() -> World {
    World { stage: Stage::Registering, signal: SignalState::fresh() }
}

/// The service after one more occurrence. A request reaches the shutdown
/// signal through the control handler; an outcome moves the controller, which
/// refuses it without any change where it does not fit.
pub open spec fn after(world: World, occurrence: Occurrence) -> World {
    match occurrence {
        Occurrence::Control(event) => World {
            stage: world.stage,
            signal: signal_after(event, world.signal),
        },
        Occurrence::Host(event) => match next_stage(world.stage, event, world.signal) {
            Some(stage) => World { stage, signal: signal_on_entry(stage, world.signal) },
            None => world,
        },
    }
}

/// The service after the first `n` occurrences of `run`.
pub open spec fn world_after(run: Seq<Occurrence>, n: nat) -> World
    recommends
        n <= run.len(),
    decreases n,
{
    if n == 0 {
        start()
    } else {
        after(world_after(run, (n - 1) as nat), run[n - 1])
    }
}

/// The service at the end of `run`.
pub open spec fn world_at_end(run: Seq<Occurrence>) -> World {
    world_after(run, run.len())
}

/// The stage that the controller enters at occurrence `i` of `run`, if that
/// occurrence is an outcome that the controller accepts.
pub open spec fn entered_at(run: Seq<Occurrence>, i: int) -> Option<Stage>
    recommends
        0 <= i < run.len(),
{
    let world = world_after(run, i as nat);
    match run[i] {
        Occurrence::Control(_) => None,
        Occurrence::Host(event) => next_stage(world.stage, event, world.signal),
    }
}

/// The state whose status record the host is asked to publish on entry to
/// `stage`, if any.
pub open spec fn announced(stage: Stage) -> Option<ServiceState> {
    match stage {
        Stage::Announcing => Some(ServiceState::Running),
        Stage::Stopping => Some(ServiceState::StopPending),
        Stage::Finishing => Some(ServiceState::Stopped),
        _ => None,
    }
}

/// The states that the host was asked to publish during the first `n`
/// occurrences of `run`, in order.
pub open spec fn reports_after(run: Seq<Occurrence>, n: nat) -> Seq<ServiceState>
    recommends
        n <= run.len(),
    decreases n,
{
    if n == 0 {
        Seq::empty()
    } else {
        let earlier = reports_after(run, (n - 1) as nat);
        match entered_at(run, n - 1) {
            Some(stage) => match announced(stage) {
                Some(state) => earlier.push(state),
                None => earlier,
            },
            None => earlier,
        }
    }
}

/// The states that the host was asked to publish during `run`, in order.
pub open spec fn reports(run: Seq<Occurrence>) -> Seq<ServiceState> {
    reports_after(run, run.len())
}

/// The order in which a service publishes its states.
pub open spec fn lifecycle_order() -> Seq<ServiceState> {
    seq![ServiceState::Running, ServiceState::StopPending, ServiceState::Stopped]
}

/// Whether a stop request is among the first `n` occurrences of `run`.
pub open spec fn stop_requested_before(run: Seq<Occurrence>, n: int) -> bool {
    exists|i: int|
        0 <= i < n && i < run.len() && #[trigger] run[i] == Occurrence::Control(ControlEvent::Stop)
}

/// How many of the occurrences `from .. to` of `run` are outcomes that the
/// controller accepts.
pub open spec fn accepted_between(run: Seq<Occurrence>, from: int, to: int) -> nat
    recommends
        0 <= from,
        to <= run.len(),
    decreases to - from,
{
    if to <= from {
        0
    } else {
        let earlier = accepted_between(run, from, to - 1);
        if entered_at(run, to - 1) is Some {
            earlier + 1
        } else {
            earlier
        }
    }
}

/// Whether a sleep of the work loop ends at occurrence `i` of `run`.
pub open spec fn sleep_ends_at(run: Seq<Occurrence>, i: int) -> bool
    recommends
        0 <= i < run.len(),
{
    world_after(run, i as nat).stage == Stage::Sleeping && run[i] == Occurrence::Host(Event::Slept)
}

/// How many sleeps of the work loop end at the occurrences `from .. to` of
/// `run`.
pub open spec fn sleeps_ended_between(run: Seq<Occurrence>, from: int, to: int) -> nat
    recommends
        0 <= from,
        to <= run.len(),
    decreases to - from,
{
    if to <= from {
        0
    } else {
        let earlier = sleeps_ended_between(run, from, to - 1);
        if sleep_ends_at(run, to - 1) {
            earlier + 1
        } else {
            earlier
        }
    }
}

/// How many states were published once the controller is in `stage`.
spec fn published(stage: Stage) -> nat {
    match stage {
        Stage::Registering => 0,
        Stage::Exited(Err(ServiceError::Registration)) => 0,
        Stage::Announcing => 1,
        Stage::Working => 1,
        Stage::Sleeping => 1,
        Stage::Exited(Err(ServiceError::Report)) => 1,
        Stage::Stopping => 2,
        Stage::Finishing => 3,
        Stage::Exited(Ok(_)) => 3,
    }
}

/// How far the controller has come: a number that no step lowers. The two
/// stages of the work loop share one number, every other stage has its own.
pub open spec fn progress(stage: Stage) -> nat {
    match stage {
        Stage::Registering => 0,
        Stage::Announcing => 1,
        Stage::Working => 2,
        Stage::Sleeping => 2,
        Stage::Stopping => 3,
        Stage::Finishing => 4,
        Stage::Exited(_) => 5,
    }
}

/// How many outcomes the controller accepts at the most before the run is
/// over, once a stop was requested while it was in `stage`.
pub open spec fn steps_left(stage: Stage) -> nat {
    match stage {
        Stage::Registering => 4,
        Stage::Announcing => 3,
        Stage::Working => 4,
        Stage::Sleeping => 3,
        Stage::Stopping => 2,
        Stage::Finishing => 1,
        Stage::Exited(_) => 0,
    }
}

/// How many sleeps can still end once a stop was requested while the
/// controller was in `stage`.
spec fn sleeps_left(stage: Stage) -> nat {
    match stage {
        Stage::Working => 1,
        Stage::Sleeping => 1,
        _ => 0,
    }
}

/// Whether the work loop is bound to end: the signal is raised or the run is
/// over.
spec fn draining(world: World) -> bool {
    world.signal.raised || world.stage is Exited
}

/// The host is asked to publish a status record exactly on entry to the
/// stages that [`announced`] names. The record is the snapshot of the state
/// named there, with the wait hint of the timing. Its accepted controls fit
/// its state, so the service manager has no cause to refuse it as malformed,
/// and it counts no checkpoint, so the checkpoints of a run never fall.
pub proof fn law_reports_match_actions(stage: Stage, timing: Timing)
    ensures
        match announced(stage) {
            Some(state) => action_of(stage, timing) == Action::Report(
                ServiceStatus::snapshot(state, timing.wait_hint_ms),
            ),
            None => !(action_of(stage, timing) is Report),
        },
        action_of(stage, timing) matches Action::Report(status) ==> status.consistent()
            && status.checkpoint == 0,
{
}

/// The signal is closed exactly when the run is over, and the states
/// published so far are the first ones of the lifecycle, as many as the stage
/// tells.
proof fn lemma_shape(run: Seq<Occurrence>, n: nat)
    requires
        n <= run.len(),
    ensures
        world_after(run, n).signal.closed == (world_after(run, n).stage is Exited),
        reports_after(run, n) == lifecycle_order().take(
            published(world_after(run, n).stage) as int,
        ),
    decreases n,
{
    if n == 0 {
        assert(reports_after(run, n) =~= lifecycle_order().take(0));
    } else {
        let m = (n - 1) as nat;
        lemma_shape(run, m);
        let before = world_after(run, m);
        let k = published(before.stage) as int;
        if k < 3 {
            assert(lifecycle_order().take(k).push(lifecycle_order()[k]) =~= lifecycle_order().take(
                k + 1,
            ));
        }
        assert(reports_after(run, n) =~= lifecycle_order().take(
            published(world_after(run, n).stage) as int,
        ));
    }
}

/// A raised signal tells of a stop request.
proof fn lemma_raised_was_requested(run: Seq<Occurrence>, n: nat)
    requires
        n <= run.len(),
        world_after(run, n).signal.raised,
    ensures
        stop_requested_before(run, n as int),
    decreases n,
{
    if n > 0 {
        let m = (n - 1) as nat;
        if run[m as int] == Occurrence::Control(ControlEvent::Stop) {
        } else {
            lemma_raised_was_requested(run, m);
            let i = choose|i: int|
                0 <= i < m && i < run.len() && #[trigger] run[i] == Occurrence::Control(
                    ControlEvent::Stop,
                );
            assert(run[i] == Occurrence::Control(ControlEvent::Stop));
        }
    }
}

/// Once the work loop is bound to end it stays so.
proof fn lemma_draining_lasts(run: Seq<Occurrence>, m: nat, n: nat)
    requires
        m <= n <= run.len(),
        draining(world_after(run, m)),
    ensures
        draining(world_after(run, n)),
    decreases n,
{
    if m < n {
        lemma_draining_lasts(run, m, (n - 1) as nat);
    }
}

/// A stop request binds the work loop to end.
proof fn lemma_stop_drains(run: Seq<Occurrence>, i: int, n: nat)
    requires
        0 <= i < n <= run.len(),
        run[i] == Occurrence::Control(ControlEvent::Stop),
    ensures
        draining(world_after(run, n)),
{
    lemma_shape(run, i as nat);
    assert(world_after(run, (i + 1) as nat) == after(world_after(run, i as nat), run[i]));
    lemma_draining_lasts(run, (i + 1) as nat, n);
}

/// The controller never goes back.
proof fn lemma_progress_grows(run: Seq<Occurrence>, m: nat, n: nat)
    requires
        m <= n <= run.len(),
    ensures
        progress(world_after(run, m).stage) <= progress(world_after(run, n).stage),
    decreases n,
{
    if m < n {
        lemma_progress_grows(run, m, (n - 1) as nat);
    }
}

/// While the work loop is bound to end, every accepted outcome brings the
/// end nearer.
proof fn lemma_countdown(run: Seq<Occurrence>, m: nat, n: nat)
    requires
        m <= n <= run.len(),
        draining(world_after(run, m)),
    ensures
        steps_left(world_after(run, n).stage) + accepted_between(run, m as int, n as int)
            <= steps_left(world_after(run, m).stage),
    decreases n,
{
    if m < n {
        lemma_countdown(run, m, (n - 1) as nat);
        lemma_draining_lasts(run, m, (n - 1) as nat);
    }
}

/// While the work loop is bound to end, one sleep can end and no more.
proof fn lemma_last_sleep(run: Seq<Occurrence>, m: nat, n: nat)
    requires
        m <= n <= run.len(),
        draining(world_after(run, m)),
    ensures
        sleeps_left(world_after(run, n).stage) + sleeps_ended_between(run, m as int, n as int)
            <= sleeps_left(world_after(run, m).stage),
    decreases n,
{
    if m < n {
        lemma_last_sleep(run, m, (n - 1) as nat);
        lemma_draining_lasts(run, m, (n - 1) as nat);
    }
}

/// The states of a service are published in the order of the lifecycle:
/// running first, then stop-pending, then stopped, none of them twice and none
/// passed over. Whatever is requested, and whenever, the states published
/// during a run are the first ones of that order.
///
/// So nothing follows the stopped state, and a run that ended in good order
/// has published all three.
pub proof fn law_status_order(run: Seq<Occurrence>)
    ensures
        reports(run).len() <= 3,
        reports(run) == lifecycle_order().take(reports(run).len() as int),
        reports(run).len() > 0 ==> reports(run)[0] == ServiceState::Running,
        forall|i: int|
            0 <= i < reports(run).len() - 1 ==> (#[trigger] reports(run)[i]).successor() == Some(
                reports(run)[i + 1],
            ),
        forall|i: int|
            0 <= i < reports(run).len() && (#[trigger] reports(run)[i]).terminal() ==> i
                == reports(run).len() - 1,
        world_at_end(run).stage == Stage::Exited(Ok(())) ==> reports(run) == lifecycle_order(),
        reports(run) == lifecycle_order() ==> world_at_end(run).stage == Stage::Finishing
            || world_at_end(run).stage == Stage::Exited(Ok(())),
{
    lemma_shape(run, run.len());
    let k = published(world_at_end(run).stage) as int;
    assert(lifecycle_order().len() == 3);
    assert(lifecycle_order().take(k).len() == k);
    assert(lifecycle_order().take(3) =~= lifecycle_order());
    match world_at_end(run).stage {
        Stage::Exited(Ok(unit)) => {
            assert(unit == ());
        },
        _ => {},
    }
}

/// The control handler is registered once: the controller asks for the
/// registration when it is made and never again.
pub proof fn law_registers_once(run: Seq<Occurrence>, j: int)
    requires
        0 <= j < run.len(),
    ensures
        entered_at(run, j) != Some(Stage::Registering),
{
}

/// Work is done while the service is known as running: when the controller
/// asks for a unit of work, the running state is the one state that was
/// published, and the last outcome to reach the controller was no failure.
pub proof fn law_work_while_running(run: Seq<Occurrence>, j: int)
    requires
        0 <= j < run.len(),
        entered_at(run, j) == Some(Stage::Working),
    ensures
        reports_after(run, (j + 1) as nat) == seq![ServiceState::Running],
        run[j] == Occurrence::Host(Event::Reported) || run[j] == Occurrence::Host(Event::Slept),
{
    lemma_shape(run, (j + 1) as nat);
    assert(lifecycle_order().take(1) =~= seq![ServiceState::Running]);
}

/// The work loop ends only on request: where the controller leaves the loop
/// to publish the stop-pending state, a stop request was delivered before.
pub proof fn law_stopping_needs_stop(run: Seq<Occurrence>, j: int)
    requires
        0 <= j < run.len(),
        entered_at(run, j) == Some(Stage::Stopping),
    ensures
        stop_requested_before(run, j),
{
    lemma_raised_was_requested(run, j as nat);
}

/// Nothing of the wind-down happens without a request: a run in which the
/// stop-pending or the stopped state is published, or which ends in good
/// order, holds a stop request. Without one, at most the running state is
/// published, and the run ends only by a failure at its start.
pub proof fn law_wind_down_needs_stop(run: Seq<Occurrence>)
    ensures
        reports(run).contains(ServiceState::StopPending) ==> stop_requested_before(
            run,
            run.len() as int,
        ),
        reports(run).contains(ServiceState::Stopped) ==> stop_requested_before(
            run,
            run.len() as int,
        ),
        world_at_end(run).stage == Stage::Exited(Ok(())) ==> stop_requested_before(
            run,
            run.len() as int,
        ),
        !stop_requested_before(run, run.len() as int) ==> reports(run).len() <= 1,
{
    if !stop_requested_before(run, run.len() as int) {
        let n = run.len();
        lemma_shape(run, n);
        lemma_quiet(run, n);
        let k = published(world_at_end(run).stage) as int;
        assert(lifecycle_order().len() == 3);
        assert(lifecycle_order().take(k).len() == k);
        match world_at_end(run).stage {
            Stage::Exited(Ok(unit)) => {
                assert(unit == ());
            },
            _ => {},
        }
        assert(forall|i: int|
            0 <= i < reports(run).len() ==> #[trigger] reports(run)[i] == ServiceState::Running);
    }
}

/// Before any stop request the signal is down and the controller has not
/// left the work loop.
proof fn lemma_quiet(run: Seq<Occurrence>, n: nat)
    requires
        n <= run.len(),
        !stop_requested_before(run, n as int),
    ensures
        !world_after(run, n).signal.raised,
        progress(world_after(run, n).stage) <= 2 || world_after(run, n).stage is Exited,
        world_after(run, n).stage != Stage::Exited(Ok(())),
    decreases n,
{
    if n > 0 {
        let m = (n - 1) as nat;
        assert(!stop_requested_before(run, m as int)) by {
            if stop_requested_before(run, m as int) {
                let i = choose|i: int|
                    0 <= i < m && i < run.len() && #[trigger] run[i] == Occurrence::Control(
                        ControlEvent::Stop,
                    );
                assert(run[i] == Occurrence::Control(ControlEvent::Stop));
            }
        }
        lemma_quiet(run, m);
        assert(run[m as int] != Occurrence::Control(ControlEvent::Stop));
    }
}

/// A stop request ends the run. Take a run in which a stop request is
/// delivered at `i`, and in which the controller accepts afterwards as many
/// outcomes as [`steps_left`] counts for its stage, four at the most. Then the
/// run is over; and unless it failed at its start, the stop-pending and the
/// stopped state were published after the running state.
pub proof fn law_stop_ends_run(run: Seq<Occurrence>, i: int)
    requires
        0 <= i < run.len(),
        run[i] == Occurrence::Control(ControlEvent::Stop),
        accepted_between(run, i + 1, run.len() as int) >= steps_left(
            world_after(run, i as nat).stage,
        ),
    ensures
        world_at_end(run).stage is Exited,
        world_at_end(run).stage matches Stage::Exited(Err(_)) || reports(run) == lifecycle_order(),
{
    lemma_stop_drains(run, i, (i + 1) as nat);
    lemma_countdown(run, (i + 1) as nat, run.len());
    law_status_order(run);
    match world_at_end(run).stage {
        Stage::Exited(Ok(unit)) => {
            assert(unit == ());
        },
        _ => {},
    }
}

/// No work follows a stop request: once a stop request was delivered, the
/// controller never asks for another unit of work.
pub proof fn law_no_work_after_stop(run: Seq<Occurrence>, i: int, j: int)
    requires
        0 <= i < j < run.len(),
        run[i] == Occurrence::Control(ControlEvent::Stop),
    ensures
        entered_at(run, j) != Some(Stage::Working),
{
    lemma_stop_drains(run, i, j as nat);
}

/// No work follows the sight of a stop: once the controller has read the
/// signal as raised and left the work loop, it never asks for another unit
/// of work.
pub proof fn law_no_work_after_sight(run: Seq<Occurrence>, i: int, j: int)
    requires
        0 <= i < j < run.len(),
        entered_at(run, i) == Some(Stage::Stopping),
    ensures
        entered_at(run, j) != Some(Stage::Working),
{
    lemma_draining_lasts(run, i as nat, j as nat);
}

/// The work loop is left once. However many stop requests are delivered,
/// the wind-down goes forward only: after the controller has left the work
/// loop, every stage that it enters lies further on than the one before. So
/// it leaves the loop once, asks for the stopped state once and ends once.
pub proof fn law_single_exit(run: Seq<Occurrence>, i: int, j: int)
    requires
        0 <= i < j < run.len(),
        entered_at(run, i) matches Some(stage) && progress(stage) >= progress(Stage::Stopping),
    ensures
        entered_at(run, j) matches Some(later) ==> progress(later) > progress(
            entered_at(run, i)->0,
        ),
        entered_at(run, i) matches Some(Stage::Exited(_)) ==> entered_at(run, j) is None,
{
    assert(world_after(run, (i + 1) as nat) == after(world_after(run, i as nat), run[i]));
    lemma_progress_grows(run, (i + 1) as nat, j as nat);
}

/// A stop request waits for one sleep at the longest: after a stop request
/// at most one sleep of the work loop ends, in the whole rest of the run. So
/// the time slept after the request is one interval at the most; and where
/// the timing is covered, that time and the time allowed for one status
/// report stay within the wait hint.
pub proof fn law_stop_waits_one_sleep(run: Seq<Occurrence>, i: int, timing: Timing)
    requires
        0 <= i < run.len(),
        run[i] == Occurrence::Control(ControlEvent::Stop),
    ensures
        sleeps_ended_between(run, i + 1, run.len() as int) <= 1,
        sleeps_ended_between(run, i + 1, run.len() as int) * timing.interval_ms
            <= timing.interval_ms,
        timing.covered() ==> sleeps_ended_between(run, i + 1, run.len() as int)
            * timing.interval_ms + timing.overhead_ms <= timing.wait_hint_ms,
{
    lemma_stop_drains(run, i, (i + 1) as nat);
    lemma_last_sleep(run, (i + 1) as nat, run.len());
    let sleeps = sleeps_ended_between(run, i + 1, run.len() as int);
    assert(sleeps == 0 || sleeps == 1);
}

} // verus!
