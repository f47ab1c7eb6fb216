use vstd::prelude::*;
use crate::executor::{ExecModel, Executor};

verus! {

/// Where the driver loop stands.
#[derive(Clone, Copy, PartialEq, Eq, Structural, Debug)]
pub enum Phase {
    /// The top-level computation is due for a poll.
    PollMain,
    /// The top-level computation is being polled.
    MainInFlight,
    /// A pass over the run queue is under way.
    Drain,
    /// A queued task is being polled.
    TaskInFlight,
    /// The top-level computation has completed.
    Finished,
}

/// What the driver asks its caller to do next.
#[derive(Debug)]
pub enum Action<T> {
    /// Poll the top-level computation, then report with `main_polled`.
    PollMain,
    /// Poll the task it carries, then report with `task_polled`.
    PollTask(T),
    /// The top-level computation has completed: hand its value back.
    Return,
}

/// The driver in the abstract: its phase, and how many more tasks the
/// current pass may poll.
pub struct DriverState {
    pub phase: Phase,
    pub remaining: nat,
}

impl DriverState {
    /// A poll has been handed out and not yet reported.
    pub open spec fn in_flight(self) -> bool {
        self.phase == Phase::MainInFlight || self.phase == Phase::TaskInFlight
    }
}

/// The end of a pass: the signal is set, then waited on, which takes it at
/// once; the top-level computation is polled again.
pub open spec fn end_pass<T>(e: ExecModel<T>) -> (DriverState, ExecModel<T>, Action<T>) {
    (
        DriverState { phase: Phase::MainInFlight, remaining: 0 },
        ExecModel { queue: e.queue, signaled: false },
        Action::PollMain,
    )
}

/// The driver's decision from a state in which no poll is in flight.
pub open spec fn step<T>(d: DriverState, e: ExecModel<T>) -> (DriverState, ExecModel<T>, Action<T>) {
    match d.phase {
        Phase::PollMain => (DriverState { phase: Phase::MainInFlight, remaining: 0 }, e, Action::PollMain),
        Phase::Drain => {
            if d.remaining > 0 && e.queue.popped < e.queue.pushed.len() {
                (
                    DriverState { phase: Phase::TaskInFlight, remaining: (d.remaining - 1) as nat },
                    ExecModel { queue: e.queue.pop().0, signaled: e.signaled },
                    Action::PollTask(e.queue.pushed[e.queue.popped as int]),
                )
            } else {
                end_pass(e)
            }
        },
        // `Finished`; the in-flight phases are excluded by `next`'s precondition.
        _ => (d, e, Action::Return),
    }
}

/// The state after the top-level computation reported: done, or a pass over
/// the tasks queued at this moment.
pub open spec fn after_main<T>(e: ExecModel<T>, ready: bool) -> DriverState {
    if ready {
        DriverState { phase: Phase::Finished, remaining: 0 }
    } else {
        DriverState { phase: Phase::Drain, remaining: e.queue.contents().len() }
    }
}

/// The state after a queued task reported: the pass goes on.
pub open spec fn after_task(d: DriverState) -> DriverState {
    DriverState { phase: Phase::Drain, remaining: d.remaining }
}

/// The state of a pass after up to `k` further task polls, each reported,
/// with nothing else touching the executor meanwhile.
pub open spec fn drain_steps<T>(d: DriverState, e: ExecModel<T>, k: nat) -> (DriverState, ExecModel<T>)
    decreases k,
{
    if k == 0 {
        (d, e)
    } else {
        let (d1, e1) = drain_steps(d, e, (k - 1) as nat);
        if d1.phase == Phase::Drain && step(d1, e1).2 is PollTask {
            (after_task(step(d1, e1).0), step(d1, e1).1)
        } else {
            (d1, e1)
        }
    }
}

/// The decisions of the drive loop that runs a top-level computation to
/// completion while polling the queued tasks. The caller performs each
/// action and reports the outcome of each poll.
pub struct Driver {
    phase: Phase,
    remaining: usize,
}

impl View for Driver {
    type V = DriverState;

    closed spec fn view(&self) -> DriverState {
        DriverState { phase: self.phase, remaining: self.remaining as nat }
    }
}

impl Driver {
    /// A driver whose first action polls the top-level computation.
    pub fn new() -> (r: Driver)
        ensures
            r@ == (DriverState { phase: Phase::PollMain, remaining: 0 }),
    {
        Driver { phase: Phase::PollMain, remaining: 0 }
    }

    /// The next action, taken while no poll is in flight.
    pub fn next<T>(&mut self, exec: &mut Executor<T>) -> (r: Action<T>)
        requires
            old(exec).wf(),
            !old(self)@.in_flight(),
        ensures
            final(exec).wf(),
            (final(self)@, final(exec)@, r) == step(old(self)@, old(exec)@),
    {
        match self.phase {
            Phase::PollMain => {
                self.phase = Phase::MainInFlight;
                self.remaining = 0;
                Action::PollMain
            },
            Phase::Drain => {
                if self.remaining > 0 {
                    match exec.pop_front() {
                        Some(t) => {
                            self.phase = Phase::TaskInFlight;
                            self.remaining = self.remaining - 1;
                            return Action::PollTask(t);
                        },
                        None => {},
                    }
                }
                self.end_pass(exec)
            },
            _ => Action::Return,
        }
    }

    fn end_pass<T>(&mut self, exec: &mut Executor<T>) -> (r: Action<T>)
        requires
            old(exec).wf(),
        ensures
            final(exec).wf(),
            (final(self)@, final(exec)@, r) == end_pass(old(exec)@),
    {
        exec.notify();
        let taken = exec.try_wait();
        assert(taken);
        self.phase = Phase::MainInFlight;
        self.remaining = 0;
        Action::PollMain
    }

    /// Reports the outcome of polling the top-level computation.
    pub fn main_polled<T>(&mut self, exec: &Executor<T>, ready: bool)
        requires
            exec.wf(),
            old(self)@.phase == Phase::MainInFlight,
        ensures
            final(self)@ == after_main(exec@, ready),
    {
        if ready {
            self.phase = Phase::Finished;
            self.remaining = 0;
        } else {
            self.phase = Phase::Drain;
            self.remaining = exec.queued();
        }
    }

    /// Reports that a queued task has been polled, whatever its outcome: a
    /// task that completed is not queued again, and one that is pending is
    /// queued again by its own wake.
    pub fn task_polled(&mut self)
        requires
            old(self)@.phase == Phase::TaskInFlight,
        ensures
            final(self)@ == after_task(old(self)@),
    {
        self.phase = Phase::Drain;
    }
}

} // verus!

verus! {

/// The driver hands back the top-level computation's value only once that
/// computation has completed: `Return` comes exactly from the finished
/// phase, only a ready report enters it, nothing leaves it, and once there
/// the driver neither polls nor touches the queue again.
pub proof fn lemma_returns_only_when_ready<T>(d: DriverState, e: ExecModel<T>, ready: bool)
    requires
        !d.in_flight(),
    ensures
        (step(d, e).2 is Return) <==> d.phase == Phase::Finished,
        d.phase == Phase::Finished ==> step(d, e) == (d, e, Action::<T>::Return),
        d.phase != Phase::Finished ==> step(d, e).0.phase != Phase::Finished,
        (after_main(e, ready).phase == Phase::Finished) <==> ready,
        after_task(d).phase != Phase::Finished,
{
}

/// Every step of a pass either polls a task and shortens what the pass may
/// still poll, or ends the pass by polling the top-level computation again,
/// whether or not anything woke it.
pub proof fn lemma_pass_step<T>(d: DriverState, e: ExecModel<T>)
    requires
        d.phase == Phase::Drain,
    ensures
        step(d, e).2 is PollTask ==> step(d, e).0.phase == Phase::TaskInFlight && after_task(
            step(d, e).0,
        ).remaining < d.remaining,
        !(step(d, e).2 is PollTask) ==> step(d, e).2 is PollMain && step(d, e).0.phase
            == Phase::MainInFlight,
        d.remaining == 0 ==> step(d, e).2 is PollMain,
{
}

/// A pass ends after at most as many task polls as it may make: from any
/// pass, once those polls are reported, the next step polls the top-level
/// computation. So a top-level computation that completes after finitely
/// many polls is polled to completion, whatever tasks it spawns.
pub proof fn lemma_pass_ends<T>(d: DriverState, e: ExecModel<T>)
    requires
        d.phase == Phase::Drain,
    ensures
        step(drain_steps(d, e, d.remaining).0, drain_steps(d, e, d.remaining).1).2 is PollMain,
{
    lemma_drain_steps(d, e, d.remaining);
}

proof fn lemma_drain_steps<T>(d: DriverState, e: ExecModel<T>, k: nat)
    requires
        d.phase == Phase::Drain,
        k <= d.remaining,
    ensures
        drain_steps(d, e, k).0.phase == Phase::Drain,
        drain_steps(d, e, k).0.remaining + k == d.remaining || !(step(
            drain_steps(d, e, k).0,
            drain_steps(d, e, k).1,
        ).2 is PollTask),
    decreases k,
{
    if k > 0 {
        lemma_drain_steps(d, e, (k - 1) as nat);
    }
}

/// At most one poll is in flight: a step hands out a poll exactly when it
/// enters an in-flight phase, and no step is taken until that poll is
/// reported.
pub proof fn lemma_one_poll_in_flight<T>(d: DriverState, e: ExecModel<T>)
    requires
        !d.in_flight(),
    ensures
        (step(d, e).2 is PollMain || step(d, e).2 is PollTask) <==> step(d, e).0.in_flight(),
        step(d, e).2 is PollMain <==> step(d, e).0.phase == Phase::MainInFlight,
        step(d, e).2 is PollTask <==> step(d, e).0.phase == Phase::TaskInFlight,
{
}

/// The task a pass polls is always the one at the front of the queue, and a
/// pass may poll every task queued when the top-level computation reported
/// pending, those it spawned included.
pub proof fn lemma_polls_front<T>(d: DriverState, e: ExecModel<T>)
    requires
        e.queue.wf(),
        d.phase == Phase::Drain,
    ensures
        step(d, e).2 is PollTask ==> Some(step(d, e).2->PollTask_0) == e.queue.pop().1 && step(d, e).1.queue
            == e.queue.pop().0,
        after_main(e, false).remaining == e.queue.contents().len(),
{
}

} // verus!
