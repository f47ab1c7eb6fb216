use vstd::prelude::*;

verus! {

/// What a poll of a delay tells its caller.
#[derive(Clone, Copy, PartialEq, Eq, Structural, Debug)]
pub enum DelayPoll {
    /// Not yet due, first poll: record the waker and arrange for it to be
    /// woken once the delay is over.
    Register,
    /// Not yet due; the waker is already recorded.
    Pending,
    /// Due: the delay has completed.
    Ready,
}

/// A delay in the abstract: when it started, how long it lasts, whether a
/// waker has been recorded and whether it has completed. Times are in any
/// one monotonic unit.
pub struct DelayState {
    pub start: nat,
    pub duration: nat,
    pub registered: bool,
    pub finished: bool,
}

impl DelayState {
    pub open spec fn deadline(self) -> nat {
        self.start + self.duration
    }
}

/// The outcome of polling a delay that has not completed, at time `now`.
pub open spec fn poll_delay(d: DelayState, now: nat) -> (DelayState, DelayPoll) {
    if now >= d.deadline() {
        (DelayState { finished: true, ..d }, DelayPoll::Ready)
    } else if !d.registered {
        (DelayState { registered: true, ..d }, DelayPoll::Register)
    } else {
        (d, DelayPoll::Pending)
    }
}

/// A suspension that completes once a given duration has passed since it
/// was made.
#[derive(Clone, Debug)]
pub struct Delay {
    start: u64,
    duration: u64,
    registered: bool,
    finished: bool,
}

impl View for Delay {
    type V = DelayState;

    closed spec fn view(&self) -> DelayState {
        DelayState {
            start: self.start as nat,
            duration: self.duration as nat,
            registered: self.registered,
            finished: self.finished,
        }
    }
}

impl Delay {
    pub closed spec fn wf(&self) -> bool {
        self.start + self.duration <= u64::MAX
    }

    /// A delay of `duration` starting at `start`.
    pub fn new(start: u64, duration: u64) -> (r: Delay)
        requires
            start + duration <= u64::MAX,
        ensures
            r.wf(),
            r@ == (DelayState { start: start as nat, duration: duration as nat, registered: false, finished: false }),
    {
        Delay { start, duration, registered: false, finished: false }
    }

    /// The time at which the delay is due.
    pub fn deadline(&self) -> (r: u64)
        requires
            self.wf(),
        ensures
            r == self@.deadline(),
    {
        self.start + self.duration
    }

    /// How long is left at time `now`: nothing once the delay is due.
    pub fn remaining(&self, now: u64) -> (r: u64)
        requires
            self.wf(),
        ensures
            r == if now >= self@.deadline() { 0 } else { self@.deadline() - now },
    {
        let deadline = self.deadline();
        if now >= deadline {
            0
        } else {
            deadline - now
        }
    }

    pub fn is_finished(&self) -> (r: bool)
        ensures
            r == self@.finished,
    {
        self.finished
    }

    /// Polls the delay at time `now`. Polling one that has completed is the
    /// caller's error.
    pub fn poll(&mut self, now: u64) -> (r: DelayPoll)
        requires
            old(self).wf(),
            !old(self)@.finished,
        ensures
            final(self).wf(),
            (final(self)@, r) == poll_delay(old(self)@, now as nat),
    {
        if now >= self.deadline() {
            self.finished = true;
            DelayPoll::Ready
        } else if !self.registered {
            self.registered = true;
            DelayPoll::Register
        } else {
            DelayPoll::Pending
        }
    }
}

/// A delay never completes early: a poll that reports it ready is made no
/// earlier than its start plus its duration.
pub proof fn lemma_delay_not_early(d: DelayState, now: nat)
    ensures
        poll_delay(d, now).1 == DelayPoll::Ready <==> now >= d.start + d.duration,
{
}

/// The waker is recorded at most once: only the first poll before the
/// deadline asks for it, and later polls never ask again.
pub proof fn lemma_delay_registers_once(d: DelayState, now: nat)
    ensures
        d.registered ==> poll_delay(d, now).1 != DelayPoll::Register,
        d.registered ==> poll_delay(d, now).0.registered,
        poll_delay(d, now).1 == DelayPoll::Register ==> !d.registered && poll_delay(d, now).0.registered,
{
}

} // verus!
