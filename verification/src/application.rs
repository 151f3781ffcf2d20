//! The cooperative schedule of the workers.
//!
//! An [`Application`] owns the context that every lifecycle call is handed
//! and the workers in the order in which they were registered, and decides
//! which lifecycle call comes next. It makes no call
//! itself: the caller performs the call that the schedule is waiting for and
//! reports how it ended, sleeps when the schedule idles, and so drives the
//! schedule one [`Event`] at a time.
//!
//! The order is fixed. Every worker is initialized, first to last, and the
//! first failure abandons the start. Then each tick lets every worker, first
//! to last, process its events and do its work; a failure there is reported
//! and the tick goes on. Once a stop was requested, the tick in progress is
//! completed and every worker is deinitialized, first to last, whatever the
//! earlier ones returned.

use vstd::prelude::*;

verus! {

/// The lifecycle calls of a worker.
#[derive(Debug, Clone, Copy, PartialEq, Eq, Structural)]
pub enum Phase {
    Initialize,
    ProcessEvents,
    DoWork,
    Deinitialize,
}

/// How a lifecycle call ended.
#[derive(Debug, Clone, Copy, PartialEq, Eq, Structural)]
pub enum Outcome {
    Succeeded,
    Failed,
}

/// What the schedule is waiting for.
#[derive(Debug, Clone, Copy, PartialEq, Eq, Structural)]
pub enum Stage {
    /// Workers are being registered; nothing has run yet.
    Assembling,
    /// This call is to be made on the worker at this position, and its
    /// outcome reported.
    Calling { worker: usize, phase: Phase },
    /// The tick is over: the rest of the period is to be waited out.
    Idling,
    /// Every worker was deinitialized. Nothing follows.
    Finished,
    /// The worker at this position failed to initialize. Nothing follows.
    Aborted { worker: usize },
}

/// Where a worker stands in its life.
#[derive(Debug, Clone, Copy, PartialEq, Eq, Structural)]
pub enum Lifecycle {
    /// Registered; `initialize` has not returned successfully yet.
    Uninitialized,
    /// `initialize` has returned successfully; the ticks have not begun.
    Initialized,
    /// The ticks have begun; `deinitialize` has not returned yet.
    Running,
    /// `deinitialize` has returned.
    Deinitialized,
}

/// What the caller reports to the schedule.
#[derive(Debug, Clone, Copy, PartialEq, Eq, Structural)]
pub enum Event {
    /// Registration is over; the workers are to be started.
    Start,
    /// The call that the schedule was waiting for has returned.
    Returned(Outcome),
    /// The wait at the end of a tick is over.
    Woke,
}

/// A failed lifecycle call, for the logger.
#[derive(Debug, Clone, Copy, PartialEq, Eq, Structural)]
pub struct Fault {
    pub worker: usize,
    pub phase: Phase,
}

/// The answer of the schedule to one event.
#[derive(Debug, Clone, Copy, PartialEq, Eq, Structural)]
pub struct Step {
    /// The failure to report, if the event was one.
    pub fault: Option<Fault>,
    /// What the schedule is waiting for now.
    pub stage: Stage,
}

/// The schedule as a mathematical value.
pub struct Schedule {
    /// The number of registered workers.
    pub workers: nat,
    /// What the schedule is waiting for.
    pub stage: Stage,
    /// Whether a stop was requested.
    pub stopping: bool,
}

/// Where the worker at position `worker` stands while the schedule is
/// waiting for `stage`.
pub open spec fn lifecycle_at(stage: Stage, worker: int) -> Lifecycle {
    match stage {
        Stage::Assembling => Lifecycle::Uninitialized,
        Stage::Calling { worker: current, phase: Phase::Initialize } => if worker < current {
            Lifecycle::Initialized
        } else {
            Lifecycle::Uninitialized
        },
        Stage::Aborted { worker: failed } => if worker < failed {
            Lifecycle::Initialized
        } else {
            Lifecycle::Uninitialized
        },
        Stage::Calling { worker: current, phase: Phase::Deinitialize } => if worker < current {
            Lifecycle::Deinitialized
        } else {
            Lifecycle::Running
        },
        Stage::Calling { .. } => Lifecycle::Running,
        Stage::Idling => Lifecycle::Running,
        Stage::Finished => Lifecycle::Deinitialized,
    }
}

/// The order of the stations of a life.
pub open spec fn rank(lifecycle: Lifecycle) -> int {
    match lifecycle {
        Lifecycle::Uninitialized => 0,
        Lifecycle::Initialized => 1,
        Lifecycle::Running => 2,
        Lifecycle::Deinitialized => 3,
    }
}

/// Whether the schedule waits for a call on a registered worker only. This
/// holds of a new application, and registering a worker, asking for a stop and
/// taking an event all keep it.
pub open spec fn sound(schedule: Schedule) -> bool {
    schedule.stage matches Stage::Calling { worker, .. } ==> worker < schedule.workers
}

/// The first call of a pass over the workers, or `otherwise` where there is
/// no worker to call.
pub open spec fn first_call(workers: nat, phase: Phase, otherwise: Stage) -> Stage {
    if workers > 0 {
        Stage::Calling { worker: 0, phase }
    } else {
        otherwise
    }
}

/// What follows the end of a tick, and the wait after it: the shutdown pass
/// once a stop was requested, the wait or the next tick otherwise.
pub open spec fn after_tick(workers: nat, stopping: bool, otherwise: Stage) -> Stage {
    if stopping {
        first_call(workers, Phase::Deinitialize, Stage::Finished)
    } else {
        otherwise
    }
}

/// What follows the return of `phase` on `worker` with `outcome`.
pub open spec fn after_call(
    workers: nat,
    stopping: bool,
    worker: usize,
    phase: Phase,
    outcome: Outcome,
) -> Stage {
    let last = worker + 1 >= workers;
    match phase {
        Phase::Initialize => if outcome == Outcome::Failed {
            Stage::Aborted { worker }
        } else if last {
            first_call(workers, Phase::ProcessEvents, Stage::Idling)
        } else {
            Stage::Calling { worker: (worker + 1) as usize, phase: Phase::Initialize }
        },
        Phase::ProcessEvents => Stage::Calling { worker, phase: Phase::DoWork },
        Phase::DoWork => if last {
            after_tick(workers, stopping, Stage::Idling)
        } else {
            Stage::Calling { worker: (worker + 1) as usize, phase: Phase::ProcessEvents }
        },
        Phase::Deinitialize => if last {
            Stage::Finished
        } else {
            Stage::Calling { worker: (worker + 1) as usize, phase: Phase::Deinitialize }
        },
    }
}

/// The stage that `event` leads to. An event that the stage is not waiting
/// for changes nothing.
pub open spec fn next_stage(schedule: Schedule, event: Event) -> Stage {
    match (schedule.stage, event) {
        (Stage::Assembling, Event::Start) => first_call(
            schedule.workers,
            Phase::Initialize,
            Stage::Idling,
        ),
        (Stage::Calling { worker, phase }, Event::Returned(outcome)) => after_call(
            schedule.workers,
            schedule.stopping,
            worker,
            phase,
            outcome,
        ),
        (Stage::Idling, Event::Woke) => after_tick(
            schedule.workers,
            schedule.stopping,
            first_call(schedule.workers, Phase::ProcessEvents, Stage::Idling),
        ),
        _ => schedule.stage,
    }
}

/// The failure that `event` reports, if it reports one.
pub open spec fn reported(schedule: Schedule, event: Event) -> Option<Fault> {
    match (schedule.stage, event) {
        (Stage::Calling { worker, phase }, Event::Returned(Outcome::Failed)) => Some(
            Fault { worker, phase },
        ),
        _ => None,
    }
}

/// The schedule after `event`.
pub open spec fn advanced(schedule: Schedule, event: Event) -> Schedule {
    Schedule {
        workers: schedule.workers,
        stage: next_stage(schedule, event),
        stopping: schedule.stopping,
    }
}

/// The schedule after the `events`, in order.
pub open spec fn run(schedule: Schedule, events: Seq<Event>) -> Schedule
    decreases events.len(),
{
    if events.len() == 0 {
        schedule
    } else {
        advanced(run(schedule, events.drop_last()), events.last())
    }
}

/// The reports that `outcomes` make, one return for each.
pub open spec fn reports(outcomes: Seq<Outcome>) -> Seq<Event> {
    Seq::new(outcomes.len(), |i: int| Event::Returned(outcomes[i]))
}

/// The call in position `k` of a tick: worker by worker, events before work.
pub open spec fn tick_call(k: nat) -> Stage {
    Stage::Calling {
        worker: (k / 2) as usize,
        phase: if k % 2 == 0 {
            Phase::ProcessEvents
        } else {
            Phase::DoWork
        },
    }
}

/// The time left to wait in a period of `interval_ms` of which `elapsed_ms`
/// were used; nothing where the tick overran its period.
pub open spec fn idle_time(interval_ms: u64, elapsed_ms: u64) -> u64 {
    if elapsed_ms < interval_ms {
        (interval_ms - elapsed_ms) as u64
    } else {
        0
    }
}

/// The owner of the shared context, of the workers and of their schedule.
/// The context is a bundle of capabilities, such as a handle on the store and
/// one on the logger; the application keeps it and never looks into it.
pub struct Application<C, W> {
    ctx: C,
    workers: Vec<W>,
    loop_interval_ms: u64,
    stage: Stage,
    stopping: bool,
}

impl<C, W> Application<C, W> {
    /// The shared context.
    pub closed spec fn context(&self) -> C {
        self.ctx
    }

    /// The workers, in the order of registration.
    pub closed spec fn workers(&self) -> Seq<W> {
        self.workers@
    }

    /// The period of a tick, in milliseconds.
    pub closed spec fn interval(&self) -> u64 {
        self.loop_interval_ms
    }

    /// What the schedule is waiting for.
    pub closed spec fn waiting_for(&self) -> Stage {
        self.stage
    }

    /// Whether a stop was requested.
    pub closed spec fn stopping(&self) -> bool {
        self.stopping
    }

    /// The schedule.
    pub open spec fn schedule(&self) -> Schedule {
        Schedule {
            workers: self.workers().len(),
            stage: self.waiting_for(),
            stopping: self.stopping(),
        }
    }

    /// An application around the context `ctx`, without workers, with a tick
    /// every `loop_interval_ms` milliseconds.
    pub fn new(ctx: C, loop_interval_ms: u64) -> (app: Self)
        ensures
            app.context() == ctx,
            app.workers() == Seq::<W>::empty(),
            app.interval() == loop_interval_ms,
            app.schedule() == (Schedule { workers: 0, stage: Stage::Assembling, stopping: false }),
    {
        Application {
            ctx,
            workers: Vec::new(),
            loop_interval_ms,
            stage: Stage::Assembling,
            stopping: false,
        }
    }

    /// Registers `worker` behind those registered before and returns its
    /// position. Once the application was started the set of workers is
    /// fixed, and the worker is handed back.
    pub fn add_worker(&mut self, worker: W) -> (position: Result<usize, W>)
        ensures
            final(self).context() == old(self).context(),
            final(self).interval() == old(self).interval(),
            final(self).schedule().stage == old(self).schedule().stage,
            final(self).schedule().stopping == old(self).schedule().stopping,
            match position {
                Ok(index) => {
                    &&& old(self).schedule().stage == Stage::Assembling
                    &&& index == old(self).workers().len()
                    &&& final(self).workers() == old(self).workers().push(worker)
                },
                Err(returned) => {
                    &&& old(self).schedule().stage != Stage::Assembling
                    &&& returned == worker
                    &&& final(self).workers() == old(self).workers()
                },
            },
    {
        match self.stage {
            Stage::Assembling => {
                let index = self.workers.len();
                self.workers.push(worker);
                Ok(index)
            },
            _ => Err(worker),
        }
    }

    /// The shared context, to hand to a lifecycle call.
    pub fn ctx(&self) -> (ctx: &C)
        ensures
            *ctx == self.context(),
    {
        &self.ctx
    }

    /// The number of registered workers.
    pub fn worker_count(&self) -> (count: usize)
        ensures
            count == self.workers().len(),
    {
        self.workers.len()
    }

    /// The worker at `position`, for the caller to make a call on.
    pub fn worker_mut(&mut self, position: usize) -> (worker: Option<&mut W>)
        ensures
            final(self).context() == old(self).context(),
            final(self).interval() == old(self).interval(),
            final(self).schedule() == old(self).schedule(),
            match worker {
                Some(found) => {
                    &&& position < old(self).workers().len()
                    &&& *found == old(self).workers()[position as int]
                    &&& final(self).workers() == old(self).workers().update(
                        position as int,
                        *final(found),
                    )
                },
                None => {
                    &&& position >= old(self).workers().len()
                    &&& final(self).workers() == old(self).workers()
                },
            },
    {
        if position < self.workers.len() {
            Some(&mut self.workers[position])
        } else {
            None
        }
    }

    /// What the schedule is waiting for.
    pub fn stage(&self) -> (stage: Stage)
        ensures
            stage == self.schedule().stage,
    {
        self.stage
    }

    /// Where the worker at `position` stands in its life; nothing where no
    /// worker is registered there.
    pub fn lifecycle(&self, position: usize) -> (lifecycle: Option<Lifecycle>)
        ensures
            lifecycle == if position < self.workers().len() {
                Some(lifecycle_at(self.schedule().stage, position as int))
            } else {
                None
            },
    {
        if position >= self.workers.len() {
            return None;
        }
        Some(
            match self.stage {
                Stage::Assembling => Lifecycle::Uninitialized,
                Stage::Calling { worker, phase } => match phase {
                    Phase::Initialize => if position < worker {
                        Lifecycle::Initialized
                    } else {
                        Lifecycle::Uninitialized
                    },
                    Phase::Deinitialize => if position < worker {
                        Lifecycle::Deinitialized
                    } else {
                        Lifecycle::Running
                    },
                    _ => Lifecycle::Running,
                },
                Stage::Aborted { worker } => if position < worker {
                    Lifecycle::Initialized
                } else {
                    Lifecycle::Uninitialized
                },
                Stage::Idling => Lifecycle::Running,
                Stage::Finished => Lifecycle::Deinitialized,
            },
        )
    }

    /// Asks for a shutdown. The tick in progress is completed first.
    pub fn request_stop(&mut self)
        ensures
            final(self).context() == old(self).context(),
            final(self).workers() == old(self).workers(),
            final(self).interval() == old(self).interval(),
            final(self).schedule() == (Schedule { stopping: true, ..old(self).schedule() }),
    {
        self.stopping = true;
    }

    /// The time to wait at the end of a tick that took `elapsed_ms`
    /// milliseconds.
    pub fn idle_ms(&self, elapsed_ms: u64) -> (wait: u64)
        ensures
            wait == idle_time(self.interval(), elapsed_ms),
    {
        if elapsed_ms < self.loop_interval_ms {
            self.loop_interval_ms - elapsed_ms
        } else {
            0
        }
    }

    /// Takes one event and answers with the failure to report, if any, and
    /// with what the schedule is waiting for next.
    pub fn step(&mut self, event: Event) -> (step: Step)
        ensures
            final(self).context() == old(self).context(),
            final(self).workers() == old(self).workers(),
            final(self).interval() == old(self).interval(),
            final(self).schedule() == advanced(old(self).schedule(), event),
            step.stage == next_stage(old(self).schedule(), event),
            step.fault == reported(old(self).schedule(), event),
    {
        let count = self.workers.len();
        let stage = match (self.stage, event) {
            (Stage::Assembling, Event::Start) => Self::first(
                count,
                Phase::Initialize,
                Stage::Idling,
            ),
            (Stage::Calling { worker, phase }, Event::Returned(outcome)) => {
                let last = count == 0 || worker >= count - 1;
                match phase {
                    Phase::Initialize => match outcome {
                        Outcome::Failed => Stage::Aborted { worker },
                        Outcome::Succeeded => if last {
                            Self::first(count, Phase::ProcessEvents, Stage::Idling)
                        } else {
                            Stage::Calling { worker: worker + 1, phase: Phase::Initialize }
                        },
                    },
                    Phase::ProcessEvents => Stage::Calling { worker, phase: Phase::DoWork },
                    Phase::DoWork => if last {
                        if self.stopping {
                            Self::first(count, Phase::Deinitialize, Stage::Finished)
                        } else {
                            Stage::Idling
                        }
                    } else {
                        Stage::Calling { worker: worker + 1, phase: Phase::ProcessEvents }
                    },
                    Phase::Deinitialize => if last {
                        Stage::Finished
                    } else {
                        Stage::Calling { worker: worker + 1, phase: Phase::Deinitialize }
                    },
                }
            },
            (Stage::Idling, Event::Woke) => if self.stopping {
                Self::first(count, Phase::Deinitialize, Stage::Finished)
            } else {
                Self::first(count, Phase::ProcessEvents, Stage::Idling)
            },
            _ => self.stage,
        };
        let fault = match (self.stage, event) {
            (Stage::Calling { worker, phase }, Event::Returned(Outcome::Failed)) => Some(
                Fault { worker, phase },
            ),
            _ => None,
        };
        self.stage = stage;
        Step { fault, stage }
    }

    fn first(count: usize, phase: Phase, otherwise: Stage) -> (stage: Stage)
        ensures
            stage == first_call(count as nat, phase, otherwise),
    {
        if count > 0 {
            Stage::Calling { worker: 0, phase }
        } else {
            otherwise
        }
    }
}

/// A life runs one way: whatever the event, no worker is taken back to a
/// station that it has left, and the schedule goes on waiting for a call on a
/// registered worker only.
pub proof fn lemma_life_runs_forward(schedule: Schedule, event: Event, worker: int)
    requires
        0 <= worker < schedule.workers <= usize::MAX,
        sound(schedule),
    ensures
        rank(lifecycle_at(schedule.stage, worker)) <= rank(
            lifecycle_at(next_stage(schedule, event), worker),
        ),
        sound(advanced(schedule, event)),
{
}

/// Tick order determinism. From the first call of a tick, the calls follow in
/// one fixed order, whatever the calls return: for each worker in the order
/// of registration, its events and then its work. After the last of them the
/// schedule idles, or turns to the shutdown once a stop was requested; and the
/// wake that ends the wait leads to the first call of the same tick again.
pub proof fn lemma_tick_order(schedule: Schedule, outcomes: Seq<Outcome>)
    requires
        0 < schedule.workers <= usize::MAX,
        schedule.stage == tick_call(0),
        outcomes.len() <= 2 * schedule.workers,
    ensures
        run(schedule, reports(outcomes)).workers == schedule.workers,
        run(schedule, reports(outcomes)).stopping == schedule.stopping,
        outcomes.len() < 2 * schedule.workers ==> run(schedule, reports(outcomes)).stage
            == tick_call(outcomes.len()),
        outcomes.len() == 2 * schedule.workers ==> run(schedule, reports(outcomes)).stage
            == after_tick(schedule.workers, schedule.stopping, Stage::Idling),
        outcomes.len() == 2 * schedule.workers && !schedule.stopping ==> advanced(
            run(schedule, reports(outcomes)),
            Event::Woke,
        ) == schedule,
    decreases outcomes.len(),
{
    if outcomes.len() > 0 {
        let earlier = outcomes.drop_last();
        lemma_tick_order(schedule, earlier);
        assert(reports(outcomes).drop_last() =~= reports(earlier));
    }
}

/// Fault isolation. What the calls of a tick return has no part in what is
/// called: after the same number of returns the schedule is the same, be they
/// failures or successes. A worker whose work fails therefore holds up neither
/// the workers behind it in that tick nor any worker in the ticks after it.
pub proof fn lemma_fault_isolation(schedule: Schedule, outcomes: Seq<Outcome>, others: Seq<Outcome>)
    requires
        0 < schedule.workers <= usize::MAX,
        schedule.stage == tick_call(0),
        outcomes.len() <= 2 * schedule.workers,
        others.len() == outcomes.len(),
    ensures
        run(schedule, reports(outcomes)) == run(schedule, reports(others)),
{
    lemma_tick_order(schedule, outcomes);
    lemma_tick_order(schedule, others);
}

} // verus!
