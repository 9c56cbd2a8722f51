//! The decision core of the cooperative executor.
//!
//! Tasks live in an arena and are named by their index. The ready queue holds
//! the indices of the tasks that are due for a poll. Each task moves through a
//! small state machine that rules out double scheduling, lost wakeups and any
//! poll after completion; the run loop asks `next_step` what to do and reports
//! each poll's outcome back through `complete_poll`.
//!
//! A task that stays pending goes back to the queue only through its wake
//! handle, never right after the poll that left it pending, so a suspended
//! task costs no polls until something wakes it. A wake that arrives while
//! the task is being polled is remembered and honoured when the poll ends.
use vstd::prelude::*;
use std::collections::VecDeque;

verus! {

/// Where a task stands in its life cycle.
#[derive(PartialEq, Eq, Structural, Clone, Copy, Debug)]
pub enum TaskState {
    /// In the ready queue, waiting for its next poll.
    Queued,
    /// Being polled by the run loop.
    Running,
    /// Being polled, and woken while the poll was in flight.
    RunningWoken,
    /// Suspended until its wake handle is invoked.
    Waiting,
    /// Resolved; never to be polled again.
    Completed,
}

/// What one step of advancing a computation reported.
#[derive(PartialEq, Eq, Structural, Clone, Copy, Debug)]
pub enum PollOutcome {
    Ready,
    Pending,
}

/// A violated scheduling invariant: the run loop's own contract was broken.
#[derive(PartialEq, Eq, Structural, Clone, Copy, Debug)]
pub enum PollError {
    /// The task has already resolved.
    AlreadyCompleted,
    /// The task is not being polled at present.
    NotRunning,
    /// No task has this index.
    UnknownTask,
}

/// What the run loop does next.
#[derive(PartialEq, Eq, Structural, Clone, Copy, Debug)]
pub enum Step {
    /// A stop was requested: leave the loop.
    Stop,
    /// Poll the task with this index once; its outcome goes back through
    /// `complete_poll`.
    Poll(usize),
    /// Nothing is ready: yield the thread and ask again.
    Idle,
}

/// One entry of the task arena.
#[derive(PartialEq, Eq, Structural, Clone, Copy, Debug)]
pub struct Task {
    pub id: usize,
    pub state: TaskState,
}

/// The state of a task after a poll of it ended with `outcome`.
pub open spec fn state_after_poll(s: TaskState, outcome: PollOutcome) -> TaskState {
    match outcome {
        PollOutcome::Ready => TaskState::Completed,
        PollOutcome::Pending => if s == TaskState::RunningWoken {
            TaskState::Queued
        } else {
            TaskState::Waiting
        },
    }
}

/// The state of a task after its wake handle was invoked.
pub open spec fn state_after_wake(s: TaskState) -> TaskState {
    match s {
        TaskState::Waiting => TaskState::Queued,
        TaskState::Running => TaskState::RunningWoken,
        _ => s,
    }
}

pub open spec fn is_running(s: TaskState) -> bool {
    s == TaskState::Running || s == TaskState::RunningWoken
}

impl Task {
    /// Wraps a new computation as the next entry of `tasks` and schedules it
    /// at once. Returns its index.
    pub fn spawn(tasks: &mut Vec<Task>, queue: &mut VecDeque<usize>) -> (id: usize)
        requires
            old(tasks)@.len() < usize::MAX,
        ensures
            id == old(tasks)@.len(),
            final(tasks)@ == old(tasks)@.push(Task { id, state: TaskState::Queued }),
            final(queue)@ == old(queue)@.push(id),
    {
        let id = tasks.len();
        tasks.push(Task { id, state: TaskState::Queued });
        queue.push_back(id);
        id
    }

    /// Takes the task out of the ready queue's hands: its poll begins.
    pub fn begin_poll(&mut self) -> (r: Result<(), PollError>)
        ensures
            old(self).state == TaskState::Queued ==> r is Ok && final(self).state
                == TaskState::Running,
            old(self).state == TaskState::Completed ==> r == Err::<(), PollError>(
                PollError::AlreadyCompleted,
            ),
            old(self).state != TaskState::Queued && old(self).state != TaskState::Completed
                ==> r == Err::<(), PollError>(PollError::NotRunning),
            r is Err ==> *final(self) == *old(self),
            final(self).id == old(self).id,
    {
        match self.state {
            TaskState::Queued => {
                self.state = TaskState::Running;
                Ok(())
            },
            TaskState::Completed => Err(PollError::AlreadyCompleted),
            _ => Err(PollError::NotRunning),
        }
    }

    /// Ends a poll that reported `outcome`. Returns whether the task must go
    /// back to the ready queue, which is so only when it was woken while the
    /// poll was in flight and the computation is still pending.
    pub fn poll(&mut self, outcome: PollOutcome) -> (r: Result<bool, PollError>)
        ensures
            is_running(old(self).state) ==> r == Ok::<bool, PollError>(
                outcome == PollOutcome::Pending && old(self).state == TaskState::RunningWoken,
            ) && final(self).state == state_after_poll(old(self).state, outcome),
            old(self).state == TaskState::Completed ==> r == Err::<bool, PollError>(
                PollError::AlreadyCompleted,
            ),
            !is_running(old(self).state) && old(self).state != TaskState::Completed ==> r
                == Err::<bool, PollError>(PollError::NotRunning),
            r is Err ==> *final(self) == *old(self),
            final(self).id == old(self).id,
    {
        match self.state {
            TaskState::Running | TaskState::RunningWoken => {
                let woken = self.state == TaskState::RunningWoken;
                match outcome {
                    PollOutcome::Ready => {
                        self.state = TaskState::Completed;
                        Ok(false)
                    },
                    PollOutcome::Pending => {
                        if woken {
                            self.state = TaskState::Queued;
                        } else {
                            self.state = TaskState::Waiting;
                        }
                        Ok(woken)
                    },
                }
            },
            TaskState::Completed => Err(PollError::AlreadyCompleted),
            _ => Err(PollError::NotRunning),
        }
    }

    /// Records an invocation of the task's wake handle. Returns whether the
    /// task must be pushed onto the ready queue now.
    pub fn wake(&mut self) -> (push: bool)
        ensures
            final(self).state == state_after_wake(old(self).state),
            push == (old(self).state == TaskState::Waiting),
            final(self).id == old(self).id,
    {
        match self.state {
            TaskState::Waiting => {
                self.state = TaskState::Queued;
                true
            },
            TaskState::Running => {
                self.state = TaskState::RunningWoken;
                false
            },
            _ => false,
        }
    }
}

/// The abstract state of an executor.
pub ghost struct ExecutorView {
    /// The state of each task ever spawned, by index.
    pub tasks: Seq<TaskState>,
    /// The ready queue, front first.
    pub queue: Seq<usize>,
    /// Tasks spawned and not yet resolved.
    pub active_tasks: nat,
    /// Whether a stop was requested.
    pub stop_requested: bool,
}

/// A single-consumer cooperative executor: the task arena, the ready queue,
/// the count of active tasks and the stop signal.
pub struct SimpleAsync {
    tasks: Vec<Task>,
    queue: VecDeque<usize>,
    active_tasks: usize,
    stop_requested: bool,
}

impl View for SimpleAsync {
    type V = ExecutorView;

    closed spec fn view(&self) -> ExecutorView {
        ExecutorView {
            tasks: self.tasks@.map_values(|t: Task| t.state),
            queue: self.queue@,
            active_tasks: self.active_tasks as nat,
            stop_requested: self.stop_requested,
        }
    }
}

/// Number of entries of `tasks` that have not resolved.
pub open spec fn unresolved_count(tasks: Seq<TaskState>) -> nat
    decreases tasks.len(),
{
    if tasks.len() == 0 {
        0
    } else {
        unresolved_count(tasks.drop_last()) + if tasks.last() == TaskState::Completed {
            0nat
        } else {
            1nat
        }
    }
}

/// The invariant of the abstract state: the queue holds, once each, exactly
/// the queued tasks, and the active count is the number of unresolved tasks.
pub open spec fn view_wf(v: ExecutorView) -> bool {
    &&& queue_wf(v.tasks, v.queue)
    &&& v.active_tasks == unresolved_count(v.tasks)
}

proof fn lemma_unresolved_push(tasks: Seq<TaskState>, t: TaskState)
    ensures
        unresolved_count(tasks.push(t)) == unresolved_count(tasks) + if t
            == TaskState::Completed {
            0nat
        } else {
            1nat
        },
{
    assert(tasks.push(t).drop_last() =~= tasks);
}

proof fn lemma_unresolved_update(tasks: Seq<TaskState>, i: int, t: TaskState)
    requires
        0 <= i < tasks.len(),
    ensures
        unresolved_count(tasks.update(i, t)) + (if tasks[i] == TaskState::Completed {
            0nat
        } else {
            1nat
        }) == unresolved_count(tasks) + (if t == TaskState::Completed {
            0nat
        } else {
            1nat
        }),
    decreases tasks.len(),
{
    if i == tasks.len() - 1 {
        assert(tasks.update(i, t).drop_last() =~= tasks.drop_last());
    } else {
        lemma_unresolved_update(tasks.drop_last(), i, t);
        assert(tasks.update(i, t).drop_last() =~= tasks.drop_last().update(i, t));
    }
}

proof fn lemma_unresolved_bound(tasks: Seq<TaskState>)
    ensures
        unresolved_count(tasks) <= tasks.len(),
    decreases tasks.len(),
{
    if tasks.len() > 0 {
        lemma_unresolved_bound(tasks.drop_last());
    }
}

/// With every task resolved, none is unresolved.
proof fn lemma_unresolved_none(tasks: Seq<TaskState>)
    requires
        forall|i: int| 0 <= i < tasks.len() ==> tasks[i] == TaskState::Completed,
    ensures
        unresolved_count(tasks) == 0,
    decreases tasks.len(),
{
    if tasks.len() > 0 {
        lemma_unresolved_none(tasks.drop_last());
    }
}

/// The queue clauses of the invariant.
pub open spec fn queue_wf(tasks: Seq<TaskState>, queue: Seq<usize>) -> bool {
    &&& tasks.len() <= usize::MAX
    &&& queue.no_duplicates()
    &&& forall|k: int| 0 <= k < queue.len() ==> #[trigger] queue[k] < tasks.len()
    &&& forall|i: int|
        0 <= i < tasks.len() ==> (#[trigger] tasks[i] == TaskState::Queued <==> queue.contains(
            i as usize,
        ))
}

/// Setting a task that is not queued to `s`, and pushing it exactly when `s`
/// is the queued state, keeps the queue clauses.
proof fn lemma_queue_set(
    tasks: Seq<TaskState>,
    queue: Seq<usize>,
    id: usize,
    s: TaskState,
    push: bool,
)
    requires
        queue_wf(tasks, queue),
        id < tasks.len(),
        tasks[id as int] != TaskState::Queued,
        push == (s == TaskState::Queued),
    ensures
        queue_wf(tasks.update(id as int, s), if push { queue.push(id) } else { queue }),
{
    let t = tasks.update(id as int, s);
    let q = if push { queue.push(id) } else { queue };
    assert(!queue.contains(id));
    assert forall|i: int| 0 <= i < t.len() implies (#[trigger] t[i] == TaskState::Queued
        <==> q.contains(i as usize)) by {
        if queue.contains(i as usize) {
            let k = choose|k: int| 0 <= k < queue.len() && queue[k] == i as usize;
            assert(q[k] == i as usize);
        }
        if q.contains(i as usize) {
            let k = choose|k: int| 0 <= k < q.len() && q[k] == i as usize;
            if k < queue.len() {
                assert(queue[k] == i as usize);
            }
        }
        if push && i == id {
            assert(q[q.len() - 1] == i as usize);
        }
    }
    assert forall|a: int, b: int|
        0 <= a < q.len() && 0 <= b < q.len() && a != b implies q[a] != q[b] by {
        if a < queue.len() && b < queue.len() {
            assert(queue[a] != queue[b]);
        } else if a < queue.len() {
            assert(queue.contains(q[a]));
        } else if b < queue.len() {
            assert(queue.contains(q[b]));
        }
    }
}

/// Taking the front of the queue and marking it running keeps the queue
/// clauses.
proof fn lemma_queue_pop(tasks: Seq<TaskState>, queue: Seq<usize>)
    requires
        queue_wf(tasks, queue),
        queue.len() > 0,
    ensures
        queue_wf(tasks.update(queue[0] as int, TaskState::Running), queue.drop_first()),
        tasks[queue[0] as int] == TaskState::Queued,
{
    let id = queue[0];
    let t = tasks.update(id as int, TaskState::Running);
    let q = queue.drop_first();
    assert(queue.contains(id));
    assert forall|i: int| 0 <= i < t.len() implies (#[trigger] t[i] == TaskState::Queued
        <==> q.contains(i as usize)) by {
        if q.contains(i as usize) {
            let k = choose|k: int| 0 <= k < q.len() && q[k] == i as usize;
            assert(queue[k + 1] == i as usize);
            assert(queue[0] != queue[k + 1]);
        }
        if i != id && queue.contains(i as usize) {
            let k = choose|k: int| 0 <= k < queue.len() && queue[k] == i as usize;
            assert(k != 0);
            assert(q[k - 1] == i as usize);
        }
    }
    assert forall|a: int, b: int|
        0 <= a < q.len() && 0 <= b < q.len() && a != b implies q[a] != q[b] by {
        assert(queue[a + 1] != queue[b + 1]);
    }
}

/// A fresh executor: no task, nothing queued, no stop requested.
pub open spec fn initial_view() -> ExecutorView {
    ExecutorView {
        tasks: Seq::empty(),
        queue: Seq::empty(),
        active_tasks: 0,
        stop_requested: false,
    }
}

/// The state after a new computation was spawned.
pub open spec fn spawn_view(v: ExecutorView) -> ExecutorView {
    ExecutorView {
        tasks: v.tasks.push(TaskState::Queued),
        queue: v.queue.push(v.tasks.len() as usize),
        active_tasks: v.active_tasks + 1,
        ..v
    }
}

/// The state after a stop was requested.
pub open spec fn stop_view(v: ExecutorView) -> ExecutorView {
    ExecutorView { stop_requested: true, ..v }
}

/// The step the run loop takes in state `v`.
pub open spec fn step_of(v: ExecutorView) -> Step {
    if v.stop_requested {
        Step::Stop
    } else if v.queue.len() > 0 {
        Step::Poll(v.queue[0])
    } else {
        Step::Idle
    }
}

/// The state after the run loop took its step in state `v`.
pub open spec fn after_step(v: ExecutorView) -> ExecutorView {
    if !v.stop_requested && v.queue.len() > 0 {
        ExecutorView {
            tasks: v.tasks.update(v.queue[0] as int, TaskState::Running),
            queue: v.queue.drop_first(),
            ..v
        }
    } else {
        v
    }
}

/// The result of reporting `outcome` for a poll of task `id` in state `v`.
pub open spec fn complete_result(v: ExecutorView, id: usize) -> Result<(), PollError> {
    if id >= v.tasks.len() {
        Err(PollError::UnknownTask)
    } else if v.tasks[id as int] == TaskState::Completed {
        Err(PollError::AlreadyCompleted)
    } else if !is_running(v.tasks[id as int]) {
        Err(PollError::NotRunning)
    } else {
        Ok(())
    }
}

/// The state after `outcome` was reported for a poll of task `id`.
pub open spec fn complete_view(v: ExecutorView, id: usize, outcome: PollOutcome) -> ExecutorView {
    if complete_result(v, id) is Err {
        v
    } else {
        let s = v.tasks[id as int];
        ExecutorView {
            tasks: v.tasks.update(id as int, state_after_poll(s, outcome)),
            queue: if outcome == PollOutcome::Pending && s == TaskState::RunningWoken {
                v.queue.push(id)
            } else {
                v.queue
            },
            active_tasks: if outcome == PollOutcome::Ready {
                (v.active_tasks - 1) as nat
            } else {
                v.active_tasks
            },
            ..v
        }
    }
}

/// The state after the wake handle of task `id` was invoked.
pub open spec fn wake_view(v: ExecutorView, id: usize) -> ExecutorView {
    if id >= v.tasks.len() {
        v
    } else {
        let s = v.tasks[id as int];
        ExecutorView {
            tasks: v.tasks.update(id as int, state_after_wake(s)),
            queue: if s == TaskState::Waiting {
                v.queue.push(id)
            } else {
                v.queue
            },
            ..v
        }
    }
}

/// An executor that is asked to stop before its run loop starts leaves the
/// loop at the first step, without polling anything.
pub proof fn lemma_stop_before_run()
    ensures
        step_of(stop_view(initial_view())) == Step::Stop,
        after_step(stop_view(initial_view())) == stop_view(initial_view()),
{
}

/// Asking for a stop twice is asking once, and once a stop was asked for the
/// run loop's next step is to leave, whatever is queued; spawning, waking and
/// reporting polls never withdraw the request.
pub proof fn lemma_stop_idempotent(v: ExecutorView, id: usize, outcome: PollOutcome)
    ensures
        stop_view(stop_view(v)) == stop_view(v),
        step_of(stop_view(v)) == Step::Stop,
        after_step(stop_view(v)) == stop_view(v),
        spawn_view(stop_view(v)).stop_requested,
        wake_view(stop_view(v), id).stop_requested,
        complete_view(stop_view(v), id, outcome).stop_requested,
{
}

/// Once every spawned task has resolved, the active-task count is zero.
pub proof fn lemma_all_resolved_no_active(v: ExecutorView)
    requires
        view_wf(v),
        forall|i: int| 0 <= i < v.tasks.len() ==> v.tasks[i] == TaskState::Completed,
    ensures
        v.active_tasks == 0,
{
    lemma_unresolved_none(v.tasks);
}

/// Reporting a poll of a task that has already resolved is refused as a
/// broken invariant, and leaves the state, the active count included, as it
/// was.
pub proof fn lemma_double_poll_refused(v: ExecutorView, id: usize, outcome: PollOutcome)
    requires
        id < v.tasks.len(),
        v.tasks[id as int] == TaskState::Completed,
    ensures
        complete_result(v, id) == Err::<(), PollError>(PollError::AlreadyCompleted),
        complete_view(v, id, outcome) == v,
        complete_view(v, id, outcome).active_tasks == v.active_tasks,
{
}


impl SimpleAsync {
    /// The executor's own invariant: its abstract state is well formed and
    /// each task knows its index.
    pub closed spec fn wf(&self) -> bool {
        &&& view_wf(self@)
        &&& forall|i: int| 0 <= i < self.tasks@.len() ==> #[trigger] self.tasks@[i].id == i
    }

    /// A fresh executor with no task and no stop requested.
    pub fn new() -> (r: SimpleAsync)
        ensures
            r.wf(),
            r@ == initial_view(),
    {
        let r = SimpleAsync {
            tasks: Vec::new(),
            queue: VecDeque::new(),
            active_tasks: 0,
            stop_requested: false,
        };
        assert(r@.tasks =~= Seq::<TaskState>::empty());
        r
    }

    /// Spawns a new computation: counts it as active, then schedules it.
    /// Returns the index that names it from now on.
    pub fn spawn(&mut self) -> (id: usize)
        requires
            old(self).wf(),
            old(self)@.tasks.len() < usize::MAX,
        ensures
            final(self).wf(),
            final(self)@ == spawn_view(old(self)@),
            id == old(self)@.tasks.len(),
    {
        proof {
            lemma_unresolved_bound(self@.tasks);
        }
        let ghost v0 = self@;
        self.active_tasks = self.active_tasks + 1;
        let id = Task::spawn(&mut self.tasks, &mut self.queue);
        proof {
            let v = self@;
            let w = spawn_view(v0);
            assert(v.tasks =~= w.tasks);
            lemma_unresolved_push(v0.tasks, TaskState::Queued);
            assert forall|i: int| 0 <= i < v.tasks.len() implies (#[trigger] v.tasks[i]
                == TaskState::Queued <==> v.queue.contains(i as usize)) by {
                if i < v0.tasks.len() {
                    assert(v0.tasks[i] == v.tasks[i]);
                    if v0.queue.contains(i as usize) {
                        let k = choose|k: int| 0 <= k < v0.queue.len() && v0.queue[k] == i as usize;
                        assert(v.queue[k] == i as usize);
                    }
                    if v.queue.contains(i as usize) {
                        let k = choose|k: int| 0 <= k < v.queue.len() && v.queue[k] == i as usize;
                        if k < v0.queue.len() {
                            assert(v0.queue[k] == i as usize);
                        }
                    }
                } else {
                    assert(v.queue[v.queue.len() - 1] == i as usize);
                }
            }
            assert(!v0.queue.contains(id)) by {
                if v0.queue.contains(id) {
                    let k = choose|k: int| 0 <= k < v0.queue.len() && v0.queue[k] == id;
                    assert(v0.queue[k] < v0.tasks.len());
                }
            }
            assert(v.queue.no_duplicates()) by {
                assert forall|a: int, b: int|
                    0 <= a < v.queue.len() && 0 <= b < v.queue.len() && a != b implies v.queue[a]
                    != v.queue[b] by {
                    if a < v0.queue.len() && b < v0.queue.len() {
                        assert(v0.queue[a] != v0.queue[b]);
                    } else if a < v0.queue.len() {
                        assert(v0.queue.contains(v.queue[a]));
                    } else if b < v0.queue.len() {
                        assert(v0.queue.contains(v.queue[b]));
                    }
                }
            }
        }
        id
    }

    /// Requests a stop. The run loop leaves at its next step; asking again
    /// changes nothing.
    pub fn stop(&mut self)
        requires
            old(self).wf(),
        ensures
            final(self).wf(),
            final(self)@ == stop_view(old(self)@),
    {
        self.stop_requested = true;
    }

    /// Whether a stop was requested.
    pub fn is_stop_requested(&self) -> (r: bool)
        ensures
            r == self@.stop_requested,
    {
        self.stop_requested
    }

    /// The number of tasks spawned and not yet resolved.
    pub fn active_tasks(&self) -> (r: usize)
        ensures
            r == self@.active_tasks,
    {
        self.active_tasks
    }

    /// The number of tasks ever spawned.
    pub fn task_count(&self) -> (r: usize)
        ensures
            r == self@.tasks.len(),
    {
        self.tasks.len()
    }

    /// The state of task `id`, if there is such a task.
    pub fn task_state(&self, id: usize) -> (r: Option<TaskState>)
        ensures
            id < self@.tasks.len() ==> r == Some(self@.tasks[id as int]),
            id >= self@.tasks.len() ==> r is None,
    {
        if id < self.tasks.len() {
            Some(self.tasks[id].state)
        } else {
            None
        }
    }

    /// The run loop's next step: leave when a stop was requested; else take
    /// the front of the ready queue and begin its poll; else idle.
    pub fn next_step(&mut self) -> (step: Step)
        requires
            old(self).wf(),
        ensures
            final(self).wf(),
            step == step_of(old(self)@),
            final(self)@ == after_step(old(self)@),
    {
        if self.stop_requested {
            return Step::Stop;
        }
        let ghost v0 = self@;
        match self.queue.pop_front() {
            Some(id) => {
                proof {
                    lemma_queue_pop(v0.tasks, v0.queue);
                    lemma_unresolved_update(v0.tasks, id as int, TaskState::Running);
                }
                let mut t = self.tasks[id];
                let _ = t.begin_poll();
                self.tasks.set(id, t);
                proof {
                    assert(self@.tasks =~= v0.tasks.update(id as int, TaskState::Running));
                    assert(self@.queue =~= v0.queue.drop_first());
                }
                Step::Poll(id)
            },
            None => Step::Idle,
        }
    }

    /// Reports that a poll of task `id` ended with `outcome`. A resolved task
    /// leaves the active count; a pending one waits for its wake handle, or
    /// goes back to the queue at once if that was invoked during the poll.
    /// Reporting for a task that is not being polled, above all one that has
    /// already resolved, is refused and changes nothing.
    pub fn complete_poll(&mut self, id: usize, outcome: PollOutcome) -> (r: Result<(), PollError>)
        requires
            old(self).wf(),
        ensures
            final(self).wf(),
            r == complete_result(old(self)@, id),
            final(self)@ == complete_view(old(self)@, id, outcome),
    {
        if id >= self.tasks.len() {
            return Err(PollError::UnknownTask);
        }
        let ghost v0 = self@;
        let mut t = self.tasks[id];
        let s = t.state;
        match t.poll(outcome) {
            Err(e) => Err(e),
            Ok(requeue) => {
                proof {
                    lemma_queue_set(v0.tasks, v0.queue, id, state_after_poll(s, outcome), requeue);
                    lemma_unresolved_update(v0.tasks, id as int, state_after_poll(s, outcome));
                }
                self.tasks.set(id, t);
                if outcome == PollOutcome::Ready {
                    self.active_tasks = self.active_tasks - 1;
                }
                if requeue {
                    self.queue.push_back(id);
                }
                proof {
                    assert(self@.tasks =~= v0.tasks.update(id as int, state_after_poll(s, outcome)));
                }
                Ok(())
            },
        }
    }

    /// Records an invocation of the wake handle of task `id`: a waiting task
    /// is queued again, a task being polled is marked to be queued when its
    /// poll ends, and any other task, a resolved one among them, is left as
    /// it is.
    pub fn wake(&mut self, id: usize)
        requires
            old(self).wf(),
        ensures
            final(self).wf(),
            final(self)@ == wake_view(old(self)@, id),
    {
        if id >= self.tasks.len() {
            return;
        }
        let ghost v0 = self@;
        let mut t = self.tasks[id];
        let s = t.state;
        let push = t.wake();
        proof {
            if s != TaskState::Queued {
                lemma_queue_set(v0.tasks, v0.queue, id, state_after_wake(s), push);
            }
            lemma_unresolved_update(v0.tasks, id as int, state_after_wake(s));
        }
        self.tasks.set(id, t);
        if push {
            self.queue.push_back(id);
        }
        proof {
            assert(self@.tasks =~= v0.tasks.update(id as int, state_after_wake(s)));
            assert(self@.queue =~= wake_view(v0, id).queue);
        }
    }
}

} // verus!
