use vstd::prelude::*;
use crate::queue::{lemma_fifo, QueueModel, RunQueue};
use crate::signal::SignalReactor;

verus! {

/// The shared scheduler state in the abstract: the run queue and the
/// suspension signal.
pub struct ExecModel<T> {
    pub queue: QueueModel<T>,
    pub signaled: bool,
}

impl<T> ExecModel<T> {
    /// What both spawning and waking do: queue the task at the back, then
    /// signal.
    pub open spec fn enqueue(self, t: T) -> ExecModel<T> {
        ExecModel { queue: self.queue.push(t), signaled: true }
    }
}

/// The process-wide part of the scheduler: the runnable queue and the
/// suspension signal, owned by one object instead of global singletons.
pub struct Executor<T> {
    queue: RunQueue<T>,
    signal: SignalReactor,
}

impl<T> View for Executor<T> {
    type V = ExecModel<T>;

    closed spec fn view(&self) -> ExecModel<T> {
        ExecModel { queue: self.queue@, signaled: self.signal@ }
    }
}

impl<T> Executor<T> {
    pub closed spec fn wf(&self) -> bool {
        self.queue.wf()
    }

    /// A well-formed executor has a well-formed queue model.
    pub proof fn lemma_model_wf(&self)
        requires
            self.wf(),
        ensures
            self@.queue.wf(),
    {
        self.queue.lemma_model_wf();
    }

    /// An executor with nothing queued and no signal pending.
    pub fn new() -> (r: Executor<T>)
        ensures
            r.wf(),
            r@.queue.pushed == Seq::<T>::empty(),
            r@.queue.popped == 0,
            !r@.signaled,
    {
        Executor { queue: RunQueue::new(), signal: SignalReactor::new() }
    }

    /// The number of tasks waiting to be polled.
    pub fn queued(&self) -> (r: usize)
        requires
            self.wf(),
        ensures
            r == self@.queue.contents().len(),
    {
        self.queue.len()
    }

    /// Wakes a task: queues it again at the back and sets the signal. Waking
    /// a task that is already queued queues it a second time.
    pub fn wake(&mut self, task: T)
        requires
            old(self).wf(),
        ensures
            final(self).wf(),
            final(self)@ == old(self)@.enqueue(task),
            final(self)@.queue.contents() == old(self)@.queue.contents().push(task),
    {
        proof {
            self.lemma_model_wf();
            lemma_enqueue_appends(self@, task);
        }
        self.queue.push_back(task);
        self.signal.notify();
    }

    /// Sets the signal without queueing anything.
    pub fn notify(&mut self)
        requires
            old(self).wf(),
        ensures
            final(self).wf(),
            final(self)@ == (ExecModel { queue: old(self)@.queue, signaled: true }),
    {
        self.signal.notify();
    }

    /// Takes the task at the front of the queue, if any.
    pub fn pop_front(&mut self) -> (r: Option<T>)
        requires
            old(self).wf(),
        ensures
            final(self).wf(),
            final(self)@.signaled == old(self)@.signaled,
            (final(self)@.queue, r) == old(self)@.queue.pop(),
    {
        self.queue.pop_front()
    }

    /// One attempt at waiting on the signal: reports whether it was set and
    /// leaves it cleared.
    pub fn try_wait(&mut self) -> (r: bool)
        requires
            old(self).wf(),
        ensures
            final(self).wf(),
            r == old(self)@.signaled,
            final(self)@ == (ExecModel { queue: old(self)@.queue, signaled: false }),
    {
        self.signal.try_wait()
    }
}

/// Registers a new task: it is queued at the back as runnable and the signal
/// is set, so that the driver polls it on its next pass.
pub fn spawn<T>(exec: &mut Executor<T>, task: T)
    requires
        old(exec).wf(),
    ensures
        final(exec).wf(),
        final(exec)@ == old(exec)@.enqueue(task),
        final(exec)@.queue.contents() == old(exec)@.queue.contents().push(task),
{
    proof {
        exec.lemma_model_wf();
        lemma_enqueue_appends(exec@, task);
    }
    exec.queue.push_back(task);
    exec.signal.notify();
}

} // verus!

verus! {

/// The number of times `t` waits in the queue.
pub open spec fn times_queued<T>(e: ExecModel<T>, t: T) -> nat {
    e.queue.contents().to_multiset().count(t)
}

/// Each wake queues the task once more: two wakes before the next poll
/// queue it twice, so it is polled twice and not more; and a wake after a
/// pending poll makes it runnable again.
pub proof fn lemma_wake_twice<T>(e: ExecModel<T>, t: T)
    requires
        e.queue.wf(),
    ensures
        times_queued(e.enqueue(t), t) == times_queued(e, t) + 1,
        times_queued(e.enqueue(t).enqueue(t), t) == times_queued(e, t) + 2,
        e.enqueue(t).queue.contents().contains(t),
        e.enqueue(t).signaled,
{
    broadcast use vstd::seq_lib::group_to_multiset_ensures;

    assert(e.queue.push(t).contents() =~= e.queue.contents().push(t));
    assert(e.queue.push(t).push(t).contents() =~= e.queue.contents().push(t).push(t));
    assert(e.queue.push(t).contents().last() == t);
}

/// Spawning or waking queues the task once, at the back, without limit:
/// the queue grows by exactly one.
pub proof fn lemma_enqueue_appends<T>(e: ExecModel<T>, t: T)
    requires
        e.queue.wf(),
    ensures
        e.enqueue(t).queue.wf(),
        e.enqueue(t).queue.contents() == e.queue.contents().push(t),
        e.enqueue(t).queue.contents().len() == e.queue.contents().len() + 1,
        times_queued(e, t) == 0 ==> times_queued(e.enqueue(t), t) == 1,
{
    broadcast use vstd::seq_lib::group_to_multiset_ensures;

    assert(e.queue.push(t).contents() =~= e.queue.contents().push(t));
}

/// Of two tasks spawned one after the other, the first is handed out
/// first: whatever is pushed or popped meanwhile, it leaves by the pop made
/// when `popped` has grown by the number queued before it, the second by
/// the pop after that.
pub proof fn lemma_spawn_order<T>(e: ExecModel<T>, a: T, b: T, later: QueueModel<T>)
    requires
        e.queue.wf(),
        e.enqueue(a).enqueue(b).queue.leads_to(later),
    ensures
        later.popped == e.queue.popped + e.queue.contents().len() ==> later.pop().1 == Some(a),
        later.popped == e.queue.popped + e.queue.contents().len() + 1 ==> later.pop().1 == Some(b),
{
    let n = e.queue.contents().len() as int;
    let q = e.enqueue(a).enqueue(b).queue;
    assert(q.contents() =~= e.queue.contents().push(a).push(b));
    lemma_fifo(q, later, n, n + 1);
}

/// A pop removes exactly one queued entry of the task it hands out.
pub proof fn lemma_pop_takes_one<T>(q: QueueModel<T>)
    requires
        q.wf(),
    ensures
        q.pop().1 is Some ==> q.pop().0.contents().to_multiset().count(q.pop().1->Some_0)
            == q.contents().to_multiset().count(q.pop().1->Some_0) - 1,
        q.pop().1 is None ==> q.contents().len() == 0,
{
    broadcast use vstd::seq_lib::group_to_multiset_ensures;

    if q.pop().1 is Some {
        assert(q.pop().0.contents() =~= q.contents().remove(0));
    }
}

/// A task is handed out by pops at most as many times as it was queued.
pub proof fn lemma_polls_bounded<T>(q: QueueModel<T>, t: T)
    requires
        q.wf(),
    ensures
        q.pushed.take(q.popped as int).to_multiset().count(t) <= q.pushed.to_multiset().count(t),
        q.pushed.take(q.popped as int).to_multiset().count(t) + q.contents().to_multiset().count(t)
            == q.pushed.to_multiset().count(t),
{
    broadcast use vstd::seq_lib::lemma_multiset_commutative;

    assert(q.pushed =~= q.pushed.take(q.popped as int) + q.contents());
}

} // verus!
