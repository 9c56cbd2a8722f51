use std::collections::VecDeque;
use suika::delay::{Delay, DelayPhase};
use suika::executor::{PollError, PollOutcome, SimpleAsync, Step, Task, TaskState};

const MS: u64 = 1_000_000;

/// A computation that awaits its delays one after the other, then reports.
struct Program {
    delays: Vec<u64>,
    next: usize,
    current: Option<Delay>,
    done_at: Option<u64>,
}

/// Drives an executor on a simulated clock: timers fire in deadline order,
/// and the clock jumps to the next deadline whenever nothing is ready.
struct Sim {
    exec: SimpleAsync,
    programs: Vec<Program>,
    timers: Vec<(u64, usize)>,
    now: u64,
    polls: usize,
    completions: Vec<usize>,
}

impl Sim {
    fn new() -> Sim {
        Sim {
            exec: SimpleAsync::new(),
            programs: Vec::new(),
            timers: Vec::new(),
            now: 0,
            polls: 0,
            completions: Vec::new(),
        }
    }

    fn spawn(&mut self, delays: Vec<u64>) -> usize {
        let id = self.exec.spawn();
        assert_eq!(id, self.programs.len());
        self.programs.push(Program { delays, next: 0, current: None, done_at: None });
        id
    }

    fn advance(&mut self, id: usize) -> PollOutcome {
        let now = self.now;
        let p = &mut self.programs[id];
        loop {
            if p.current.is_none() {
                if p.next == p.delays.len() {
                    p.done_at = Some(now);
                    return PollOutcome::Ready;
                }
                p.current = Some(Delay::new(now, p.delays[p.next]));
                p.next += 1;
            }
            let d = p.current.as_mut().unwrap();
            let r = d.poll(now).unwrap();
            if r.arm_timer {
                self.timers.push((d.when, id));
            }
            if !r.ready {
                return PollOutcome::Pending;
            }
            p.current = None;
        }
    }

    fn run(&mut self) {
        loop {
            match self.exec.next_step() {
                Step::Stop => break,
                Step::Poll(id) => {
                    self.polls += 1;
                    let outcome = self.advance(id);
                    assert_eq!(self.exec.complete_poll(id, outcome), Ok(()));
                    if outcome == PollOutcome::Ready {
                        self.completions.push(id);
                    }
                }
                Step::Idle => {
                    if self.timers.is_empty() {
                        if self.exec.active_tasks() == 0 {
                            self.exec.stop();
                            continue;
                        }
                        panic!("a task waits with no timer to wake it");
                    }
                    self.timers.sort();
                    let (when, id) = self.timers.remove(0);
                    if when > self.now {
                        self.now = when;
                    }
                    self.exec.wake(id);
                }
            }
        }
    }
}

#[test]
fn test_simple_async_no_tasks() {
    let mut exec = SimpleAsync::new();
    exec.stop();
    assert_eq!(exec.next_step(), Step::Stop);
    assert_eq!(exec.task_count(), 0);
}

#[test]
fn test_simple_async_multiple_tasks() {
    let mut sim = Sim::new();
    for i in 0..5u64 {
        sim.spawn(vec![50 * i * MS]);
    }
    sim.run();
    let mut results = sim.completions.clone();
    results.sort();
    assert_eq!(results, vec![0, 1, 2, 3, 4]);
    assert_eq!(sim.exec.active_tasks(), 0);
}

#[test]
fn test_simple_async_nested_delays() {
    let mut sim = Sim::new();
    let id = sim.spawn(vec![100 * MS, 100 * MS]);
    sim.run();
    assert_eq!(sim.completions, vec![id]);
    assert!(sim.programs[id].done_at.unwrap() >= 200 * MS);
}

#[test]
fn test_task_poll() {
    let mut tasks: Vec<Task> = Vec::new();
    let mut queue: VecDeque<usize> = VecDeque::new();
    let id = Task::spawn(&mut tasks, &mut queue);
    assert_eq!(id, 0);
    assert_eq!(queue, VecDeque::from(vec![0]));
    let t = &mut tasks[0];
    assert_eq!(t.state, TaskState::Queued);
    assert_eq!(t.begin_poll(), Ok(()));
    assert_eq!(t.poll(PollOutcome::Pending), Ok(false));
    assert_eq!(t.state, TaskState::Waiting);
    assert!(t.wake());
    assert_eq!(t.state, TaskState::Queued);
    assert_eq!(t.begin_poll(), Ok(()));
    assert!(!t.wake());
    assert_eq!(t.state, TaskState::RunningWoken);
    assert_eq!(t.poll(PollOutcome::Pending), Ok(true));
    assert_eq!(t.state, TaskState::Queued);
    assert_eq!(t.begin_poll(), Ok(()));
    assert_eq!(t.poll(PollOutcome::Ready), Ok(false));
    assert_eq!(t.state, TaskState::Completed);
}

#[test]
fn test_delay_function_short_delay() {
    let start = 7 * MS;
    let mut d = Delay::new(start, MS);
    let first = d.poll(start).unwrap();
    assert!(first.arm_timer);
    assert!(!first.ready);
    let r = d.poll(start + MS - 1).unwrap();
    assert!(!r.arm_timer);
    assert!(!r.ready);
    let r = d.poll(start + MS).unwrap();
    assert!(r.ready);
    assert!(d.is_ready());
}

#[test]
fn test_delay_function_long_delay() {
    let start = 0;
    let mut d = Delay::new(start, 500 * MS);
    let mut now = start;
    loop {
        let r = d.poll(now).unwrap();
        if r.ready {
            break;
        }
        now += 7 * MS;
    }
    assert!(now - start >= 500 * MS);
    assert_eq!(now, 504 * MS);
}

#[test]
fn delay_past_deadline_ready_at_first_poll() {
    let mut d = Delay::new(10, 0);
    let r = d.poll(10).unwrap();
    assert!(r.arm_timer);
    assert!(r.ready);
    assert_eq!(d.phase, DelayPhase::Ready);
    assert_eq!(d.poll(11), Err(PollError::AlreadyCompleted));
    assert_eq!(d.phase, DelayPhase::Ready);
}

#[test]
fn stop_is_idempotent() {
    let mut exec = SimpleAsync::new();
    exec.stop();
    exec.stop();
    assert!(exec.is_stop_requested());
    let id = exec.spawn();
    assert_eq!(exec.next_step(), Step::Stop);
    assert_eq!(exec.task_state(id), Some(TaskState::Queued));
    exec.stop();
    assert_eq!(exec.next_step(), Step::Stop);
}

#[test]
fn double_poll_is_refused() {
    let mut exec = SimpleAsync::new();
    let a = exec.spawn();
    let b = exec.spawn();
    assert_eq!(exec.active_tasks(), 2);
    assert_eq!(exec.next_step(), Step::Poll(a));
    assert_eq!(exec.complete_poll(a, PollOutcome::Ready), Ok(()));
    assert_eq!(exec.active_tasks(), 1);
    assert_eq!(
        exec.complete_poll(a, PollOutcome::Ready),
        Err(PollError::AlreadyCompleted)
    );
    assert_eq!(exec.active_tasks(), 1);
    assert_eq!(exec.complete_poll(b, PollOutcome::Ready), Err(PollError::NotRunning));
    assert_eq!(exec.complete_poll(9, PollOutcome::Ready), Err(PollError::UnknownTask));
    exec.wake(a);
    assert_eq!(exec.task_state(a), Some(TaskState::Completed));
    assert_eq!(exec.next_step(), Step::Poll(b));
    assert_eq!(exec.next_step(), Step::Idle);
}

#[test]
fn wake_during_poll_requeues_once() {
    let mut exec = SimpleAsync::new();
    let a = exec.spawn();
    assert_eq!(exec.next_step(), Step::Poll(a));
    exec.wake(a);
    exec.wake(a);
    assert_eq!(exec.next_step(), Step::Idle);
    assert_eq!(exec.complete_poll(a, PollOutcome::Pending), Ok(()));
    assert_eq!(exec.next_step(), Step::Poll(a));
    assert_eq!(exec.next_step(), Step::Idle);
    assert_eq!(exec.complete_poll(a, PollOutcome::Pending), Ok(()));
    assert_eq!(exec.task_state(a), Some(TaskState::Waiting));
    assert_eq!(exec.next_step(), Step::Idle);
    exec.wake(a);
    assert_eq!(exec.next_step(), Step::Poll(a));
}

#[test]
fn completion_count_returns_to_zero() {
    let mut sim = Sim::new();
    for i in 0..20u64 {
        sim.spawn(vec![(i % 3) * MS, (i % 5) * MS]);
    }
    assert_eq!(sim.exec.active_tasks(), 20);
    sim.run();
    assert_eq!(sim.exec.active_tasks(), 0);
    assert_eq!(sim.completions.len(), 20);
    assert!(sim.polls <= 60);
}
