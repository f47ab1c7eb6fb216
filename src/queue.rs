use vstd::prelude::*;
use std::collections::VecDeque;

verus! {

/// The run queue in the abstract: everything ever pushed, in order, and how
/// many of those have been popped. What is queued now is the part not yet
/// popped.
pub struct QueueModel<T> {
    pub pushed: Seq<T>,
    pub popped: nat,
}

impl<T> QueueModel<T> {
    pub open spec fn wf(self) -> bool {
        self.popped <= self.pushed.len()
    }

    /// The tasks waiting in the queue, front first.
    pub open spec fn contents(self) -> Seq<T> {
        self.pushed.skip(self.popped as int)
    }

    pub open spec fn push(self, t: T) -> QueueModel<T> {
        QueueModel { pushed: self.pushed.push(t), popped: self.popped }
    }

    /// Takes the front task, if any.
    pub open spec fn pop(self) -> (QueueModel<T>, Option<T>) {
        if self.popped < self.pushed.len() {
            (QueueModel { pushed: self.pushed, popped: self.popped + 1 }, Some(self.pushed[self.popped as int]))
        } else {
            (self, None)
        }
    }

    /// `later` is a state that pushes and pops can lead to from `self`.
    pub open spec fn leads_to(self, later: QueueModel<T>) -> bool {
        &&& later.wf()
        &&& self.pushed.len() <= later.pushed.len()
        &&& later.pushed.take(self.pushed.len() as int) == self.pushed
        &&& self.popped <= later.popped
    }
}

/// A first-in first-out queue of runnable tasks, without a bound.
pub struct RunQueue<T> {
    items: VecDeque<T>,
    pushed: Ghost<Seq<T>>,
    popped: Ghost<nat>,
}

impl<T> View for RunQueue<T> {
    type V = QueueModel<T>;

    closed spec fn view(&self) -> QueueModel<T> {
        QueueModel { pushed: self.pushed@, popped: self.popped@ }
    }
}

impl<T> RunQueue<T> {
    pub closed spec fn wf(&self) -> bool {
        &&& self@.wf()
        &&& self.items@ == self@.contents()
    }

    /// A well-formed queue has a well-formed model.
    pub proof fn lemma_model_wf(&self)
        requires
            self.wf(),
        ensures
            self@.wf(),
    {
    }

    /// An empty queue with no history.
    pub fn new() -> (r: RunQueue<T>)
        ensures
            r.wf(),
            r@.pushed == Seq::<T>::empty(),
            r@.popped == 0,
    {
        let r = RunQueue { items: VecDeque::new(), pushed: Ghost(Seq::empty()), popped: Ghost(0) };
        assert(r.items@ =~= r@.contents());
        r
    }

    pub fn len(&self) -> (r: usize)
        requires
            self.wf(),
        ensures
            r == self@.contents().len(),
    {
        self.items.len()
    }

    pub fn push_back(&mut self, t: T)
        requires
            old(self).wf(),
        ensures
            final(self).wf(),
            final(self)@ == old(self)@.push(t),
    {
        self.items.push_back(t);
        self.pushed = Ghost(self.pushed@.push(t));
        assert(self.items@ =~= self@.contents());
    }

    pub fn pop_front(&mut self) -> (r: Option<T>)
        requires
            old(self).wf(),
        ensures
            final(self).wf(),
            (final(self)@, r) == old(self)@.pop(),
    {
        let r = self.items.pop_front();
        if r.is_some() {
            self.popped = Ghost(self.popped@ + 1);
            assert(self.items@ =~= self@.contents());
        }
        r
    }
}

} // verus!

verus! {

/// Pushes and pops only move a queue forward.
pub proof fn lemma_leads_to_step<T>(q: QueueModel<T>, later: QueueModel<T>, t: T)
    requires
        q.leads_to(later),
    ensures
        q.leads_to(later.push(t)),
        q.leads_to(later.pop().0),
{
    assert(later.push(t).pushed.take(q.pushed.len() as int) =~= q.pushed);
}

/// First in, first out: whatever is pushed or popped meanwhile, the task at
/// position `i` of the queue is the one handed out by the pop made when
/// `popped` has grown by `i`. So of two tasks queued at the start of a pass,
/// the one ahead leaves first.
pub proof fn lemma_fifo<T>(q: QueueModel<T>, later: QueueModel<T>, i: int, j: int)
    requires
        q.wf(),
        q.leads_to(later),
        0 <= i < j < q.contents().len(),
    ensures
        later.popped == q.popped + i ==> later.pop().1 == Some(q.contents()[i]),
        later.popped == q.popped + j ==> later.pop().1 == Some(q.contents()[j]),
{
    assert(later.pushed[q.popped + i] == later.pushed.take(q.pushed.len() as int)[q.popped + i]);
    assert(later.pushed[q.popped + j] == later.pushed.take(q.pushed.len() as int)[q.popped + j]);
}

} // verus!
