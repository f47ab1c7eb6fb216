use minimum_async_rt::delay::{Delay, DelayPoll};
use minimum_async_rt::driver::{Action, Driver};
use minimum_async_rt::executor::{spawn, Executor};
use minimum_async_rt::queue::RunQueue;
use minimum_async_rt::signal::SignalReactor;
use std::collections::VecDeque;

#[test]
fn signal_starts_clear() {
    let mut s = SignalReactor::new();
    assert!(!s.try_wait());
}

#[test]
fn signal_notifications_coalesce() {
    let mut s = SignalReactor::new();
    s.notify();
    s.notify();
    assert!(s.try_wait());
    assert!(!s.try_wait());
}

#[test]
fn queue_is_first_in_first_out() {
    let mut q: RunQueue<u32> = RunQueue::new();
    q.push_back(1);
    q.push_back(2);
    assert_eq!(q.pop_front(), Some(1));
    q.push_back(3);
    assert_eq!(q.len(), 2);
    assert_eq!(q.pop_front(), Some(2));
    assert_eq!(q.pop_front(), Some(3));
    assert_eq!(q.pop_front(), None);
}

#[test]
fn spawn_queues_and_signals() {
    let mut e: Executor<u32> = Executor::new();
    assert_eq!(e.queued(), 0);
    assert!(!e.try_wait());
    spawn(&mut e, 7);
    assert_eq!(e.queued(), 1);
    assert!(e.try_wait());
    assert_eq!(e.pop_front(), Some(7));
}

#[test]
fn waking_twice_queues_twice() {
    let mut e: Executor<u32> = Executor::new();
    e.wake(5);
    e.wake(5);
    assert_eq!(e.queued(), 2);
    assert_eq!(e.pop_front(), Some(5));
    assert_eq!(e.pop_front(), Some(5));
    assert_eq!(e.pop_front(), None);
}

#[test]
fn driver_returns_at_once_when_main_is_ready() {
    let mut e: Executor<u32> = Executor::new();
    let mut d = Driver::new();
    assert!(matches!(d.next(&mut e), Action::PollMain));
    d.main_polled(&e, true);
    assert!(matches!(d.next(&mut e), Action::Return));
}

#[test]
fn driver_polls_tasks_in_queue_order() {
    let mut e: Executor<u32> = Executor::new();
    spawn(&mut e, 1);
    spawn(&mut e, 2);
    let mut d = Driver::new();
    assert!(matches!(d.next(&mut e), Action::PollMain));
    d.main_polled(&e, false);
    assert!(matches!(d.next(&mut e), Action::PollTask(1)));
    d.task_polled();
    assert!(matches!(d.next(&mut e), Action::PollTask(2)));
    d.task_polled();
    // The pass is over and tasks were polled: the top-level computation is next.
    assert!(matches!(d.next(&mut e), Action::PollMain));
}

#[test]
fn self_waking_task_does_not_starve_main() {
    let mut e: Executor<u32> = Executor::new();
    spawn(&mut e, 9);
    let mut d = Driver::new();
    assert!(matches!(d.next(&mut e), Action::PollMain));
    d.main_polled(&e, false);
    assert!(matches!(d.next(&mut e), Action::PollTask(9)));
    // The task wakes itself while being polled.
    e.wake(9);
    d.task_polled();
    assert!(matches!(d.next(&mut e), Action::PollMain));
    d.main_polled(&e, false);
    assert!(matches!(d.next(&mut e), Action::PollTask(9)));
}

#[test]
fn driver_polls_main_after_every_pass() {
    let mut e: Executor<u32> = Executor::new();
    let mut d = Driver::new();
    assert!(matches!(d.next(&mut e), Action::PollMain));
    d.main_polled(&e, false);
    // An empty pass, with nothing woken: the top-level computation is polled again.
    assert!(matches!(d.next(&mut e), Action::PollMain));
    d.main_polled(&e, false);
    assert!(matches!(d.next(&mut e), Action::PollMain));
    assert!(!e.try_wait());
    e.wake(4);
    d.main_polled(&e, false);
    assert!(matches!(d.next(&mut e), Action::PollTask(4)));
}

#[test]
fn finished_driver_leaves_queue_alone() {
    let mut e: Executor<u32> = Executor::new();
    let mut d = Driver::new();
    assert!(matches!(d.next(&mut e), Action::PollMain));
    spawn(&mut e, 3);
    d.main_polled(&e, true);
    assert!(matches!(d.next(&mut e), Action::Return));
    assert!(matches!(d.next(&mut e), Action::Return));
    assert_eq!(e.queued(), 1);
}

#[test]
fn task_spawned_during_main_poll_is_in_next_pass() {
    let mut e: Executor<u32> = Executor::new();
    spawn(&mut e, 1);
    let mut d = Driver::new();
    assert!(matches!(d.next(&mut e), Action::PollMain));
    spawn(&mut e, 2);
    d.main_polled(&e, false);
    assert!(matches!(d.next(&mut e), Action::PollTask(1)));
    d.task_polled();
    assert!(matches!(d.next(&mut e), Action::PollTask(2)));
    d.task_polled();
    assert!(matches!(d.next(&mut e), Action::PollMain));
}

#[test]
fn delay_is_not_ready_early() {
    let mut t = Delay::new(10, 3);
    assert_eq!(t.deadline(), 13);
    assert_eq!(t.poll(10), DelayPoll::Register);
    assert_eq!(t.poll(12), DelayPoll::Pending);
    assert!(!t.is_finished());
    assert_eq!(t.poll(13), DelayPoll::Ready);
    assert!(t.is_finished());
}

#[test]
fn delay_remaining_counts_down() {
    let t = Delay::new(100, 50);
    assert_eq!(t.remaining(100), 50);
    assert_eq!(t.remaining(120), 30);
    assert_eq!(t.remaining(150), 0);
    assert_eq!(t.remaining(400), 0);
}

#[test]
fn zero_delay_is_ready_on_first_poll() {
    let mut t = Delay::new(5, 0);
    assert_eq!(t.poll(5), DelayPoll::Ready);
}

#[test]
fn delay_at_largest_time() {
    let mut t = Delay::new(u64::MAX - 1, 1);
    assert_eq!(t.deadline(), u64::MAX);
    assert_eq!(t.poll(u64::MAX - 1), DelayPoll::Register);
    assert_eq!(t.poll(u64::MAX), DelayPoll::Ready);
}

// Three tasks share a channel with a top-level computation that receives
// three times: one sends at once, one after a delay of 3, one after a delay
// of 0. Time is simulated: it moves on by one at each poll of the top-level
// computation.
#[test]
fn three_senders_scenario() {
    let mut e: Executor<usize> = Executor::new();
    let mut channel: VecDeque<char> = VecDeque::new();
    let mut received: Vec<char> = Vec::new();
    let mut now: u64 = 0;
    let mut delays: Vec<Option<Delay>> = vec![None, Some(Delay::new(0, 3)), Some(Delay::new(0, 0))];
    let sends = ['X', 'Y', 'Z'];
    let mut done = [false, false, false];
    let mut timers: Vec<(u64, usize)> = Vec::new();
    spawn(&mut e, 0);
    spawn(&mut e, 1);
    spawn(&mut e, 2);
    let mut d = Driver::new();
    let mut returned_at: Option<u64> = None;
    let mut steps = 0;
    while returned_at.is_none() && steps < 1000 {
        steps += 1;
        match d.next(&mut e) {
            Action::PollMain => {
                // Time moves on between iterations of the drive loop.
                now += 1;
                let due: Vec<usize> = timers.iter().filter(|(at, _)| *at <= now).map(|(_, i)| *i).collect();
                timers.retain(|(at, _)| *at > now);
                for i in due {
                    e.wake(i);
                }
                while let Some(v) = channel.pop_front() {
                    received.push(v);
                }
                d.main_polled(&e, received.len() == 3);
            }
            Action::PollTask(i) => {
                assert!(!done[i]);
                let ready = match delays[i].as_mut() {
                    None => true,
                    Some(t) => match t.poll(now) {
                        DelayPoll::Ready => true,
                        DelayPoll::Register => {
                            timers.push((t.deadline(), i));
                            false
                        }
                        DelayPoll::Pending => false,
                    },
                };
                if ready {
                    channel.push_back(sends[i]);
                    done[i] = true;
                }
                d.task_polled();
            }
            Action::Return => returned_at = Some(now),
        }
    }
    assert_eq!(received.len(), 3);
    let y = received.iter().position(|c| *c == 'Y').unwrap();
    let x = received.iter().position(|c| *c == 'X').unwrap();
    let z = received.iter().position(|c| *c == 'Z').unwrap();
    assert!(x < y && z < y);
    assert!(returned_at.unwrap() >= 3);
}
