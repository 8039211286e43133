use vstd::prelude::*;
use std::collections::VecDeque;
use crate::task::{cost, load, Task, TaskType, CPU_CONSUMPTION, IDLE_WAIT_MS, IO_CONSUMPTION, MAX_CPU, MAX_WORKERS};
use crate::slots::{all_idle, count_kind, idle_slots, lemma_count_bounds, lemma_count_idle, lemma_count_update};
use crate::worker::{Dispatch, Worker};
use crate::monitor::Usage;

verus! {

/// While fewer CPU-bound tasks than this run, a waiting CPU-bound task goes
/// first.
pub const CPU_TASK_TARGET: i32 = 2;

/// While fewer IO-bound tasks than this run, a waiting IO-bound task may be
/// taken when no CPU-bound task is.
pub const IO_TASK_TARGET: i32 = 3;

/// The abstract state of a pool that keeps CPU-bound and IO-bound tasks in
/// separate queues.
pub struct BalancedView {
    /// Every CPU-bound task ever added, in the order it was added.
    pub cpu_history: Seq<Task>,
    /// How many of them have been handed to a worker.
    pub cpu_started: int,
    /// Every IO-bound task ever added, in the order it was added.
    pub io_history: Seq<Task>,
    /// How many of them have been handed to a worker.
    pub io_started: int,
    /// The task each worker runs, by worker number; `None` for an idle
    /// worker.
    pub slots: Seq<Option<Task>>,
    /// How many tasks have been finished.
    pub tasks_done: int,
}

/// Every task in `s` is of kind `kind`.
pub open spec fn all_of_kind(s: Seq<Task>, kind: TaskType) -> bool {
    forall|i: int| 0 <= i < s.len() ==> (#[trigger] s[i]).task == kind
}

impl BalancedView {
    /// The CPU-bound tasks that wait, first in line first.
    pub open spec fn cpu_queue(self) -> Seq<Task> {
        self.cpu_history.skip(self.cpu_started)
    }

    /// The IO-bound tasks that wait, first in line first.
    pub open spec fn io_queue(self) -> Seq<Task> {
        self.io_history.skip(self.io_started)
    }

    /// How many tasks of kind `kind` run.
    pub open spec fn running(self, kind: TaskType) -> int {
        count_kind(self.slots, kind)
    }

    /// How many CPU-bound tasks run.
    pub open spec fn running_cpu(self) -> int {
        self.running(TaskType::CPU)
    }

    /// How many IO-bound tasks run.
    pub open spec fn running_io(self) -> int {
        self.running(TaskType::IO)
    }

    /// The CPU share taken by the running tasks.
    pub open spec fn cpu(self) -> int {
        load(self.running_cpu(), self.running_io())
    }

    /// The number of busy workers.
    pub open spec fn workers(self) -> int {
        self.running_cpu() + self.running_io()
    }

    /// Worker `index` exists and runs nothing.
    pub open spec fn idle(self, index: int) -> bool {
        0 <= index < MAX_WORKERS && self.slots[index] is None
    }

    /// The number of tasks ever added.
    pub open spec fn submitted(self) -> int {
        (self.cpu_history.len() + self.io_history.len()) as int
    }

    /// What every reachable state satisfies: each queue holds tasks of its
    /// own kind, there is one slot per worker, the running tasks fit the
    /// budget, and every task added is either waiting, running or done.
    pub open spec fn valid(self) -> bool {
        &&& 0 <= self.cpu_started <= self.cpu_history.len()
        &&& 0 <= self.io_started <= self.io_history.len()
        &&& self.submitted() <= i32::MAX
        &&& all_of_kind(self.cpu_history, TaskType::CPU)
        &&& all_of_kind(self.io_history, TaskType::IO)
        &&& self.slots.len() == MAX_WORKERS
        &&& 0 <= self.tasks_done
        &&& self.cpu() <= MAX_CPU
        &&& self.cpu_started + self.io_started == self.workers() + self.tasks_done
    }

    /// The state after `task` joins the back of the queue of its kind.
    pub open spec fn added(self, task: Task) -> BalancedView {
        match task.task {
            TaskType::CPU => BalancedView { cpu_history: self.cpu_history.push(task), ..self },
            TaskType::IO => BalancedView { io_history: self.io_history.push(task), ..self },
        }
    }

    /// The state after worker `index` took `task`, the first waiting task of
    /// its kind.
    pub open spec fn started_one(self, index: int, task: Task) -> BalancedView {
        match task.task {
            TaskType::CPU => BalancedView {
                cpu_started: self.cpu_started + 1,
                slots: self.slots.update(index, Some(task)),
                ..self
            },
            TaskType::IO => BalancedView {
                io_started: self.io_started + 1,
                slots: self.slots.update(index, Some(task)),
                ..self
            },
        }
    }

    /// The state after worker `index` finished its task.
    pub open spec fn finished(self, index: int) -> BalancedView {
        BalancedView { tasks_done: self.tasks_done + 1, slots: self.slots.update(index, None), ..self }
    }

    /// The task a worker would take: the first CPU-bound task while fewer
    /// than `CPU_TASK_TARGET` of them run; else the first IO-bound task
    /// while fewer than `IO_TASK_TARGET` of them run; else the first
    /// IO-bound task if no CPU-bound task waits or runs; else none.
    pub open spec fn pick(self) -> Option<Task> {
        if self.running_cpu() < CPU_TASK_TARGET && self.cpu_queue().len() > 0 {
            Some(self.cpu_queue()[0])
        } else if self.running_io() < IO_TASK_TARGET && self.io_queue().len() > 0 {
            Some(self.io_queue()[0])
        } else if self.cpu_queue().len() == 0 && self.running_cpu() == 0
            && self.io_queue().len() > 0 {
            Some(self.io_queue()[0])
        } else {
            None
        }
    }

    /// What worker `index`, done queuing or not (`done_queuing`), is told,
    /// and the state after it: it stops once every task is queued and both
    /// queues are empty; it idles when there is nothing to pick; it runs the
    /// picked task if its share fits the budget; otherwise the task stays
    /// first in its queue and the worker backs off for four milliseconds per
    /// worker number.
    pub open spec fn dispatch(self, done_queuing: bool, index: int) -> (BalancedView, Dispatch) {
        if done_queuing && self.cpu_queue().len() == 0 && self.io_queue().len() == 0 {
            (self, Dispatch::Stop)
        } else {
            match self.pick() {
                None => (self, Dispatch::Idle(IDLE_WAIT_MS)),
                Some(next) => if self.cpu() + cost(next.task) <= MAX_CPU {
                    (self.started_one(index, next), Dispatch::Run(next))
                } else {
                    (self, Dispatch::Retry((4 * index) as u64))
                },
            }
        }
    }
}

/// A pool that keeps CPU-bound and IO-bound tasks apart and mixes them:
/// it favours running two CPU-bound tasks, then up to three IO-bound ones,
/// and runs more IO-bound tasks only when no CPU-bound task is around.
pub struct TaskPool1 {
    cpu_tasks: VecDeque<Task>,
    io_tasks: VecDeque<Task>,
    cpu_consumption: i32,
    worker_count: i32,
    tasks_done: i32,
    active_cpu: i32,
    active_io: i32,
    submitted: i32,
    slots: Vec<Option<Task>>,
    cpu_history: Ghost<Seq<Task>>,
    io_history: Ghost<Seq<Task>>,
}

impl View for TaskPool1 {
    type V = BalancedView;

    closed spec fn view(&self) -> BalancedView {
        BalancedView {
            cpu_history: self.cpu_history@,
            cpu_started: self.cpu_history@.len() - self.cpu_tasks@.len(),
            io_history: self.io_history@,
            io_started: self.io_history@.len() - self.io_tasks@.len(),
            slots: self.slots@,
            tasks_done: self.tasks_done as int,
        }
    }
}

impl TaskPool1 {
    /// The pool's fields agree with its abstract state, and that state is
    /// valid.
    pub closed spec fn wf(&self) -> bool {
        &&& self@.valid()
        &&& self.cpu_tasks@ == self@.cpu_queue()
        &&& self.io_tasks@ == self@.io_queue()
        &&& self.submitted == self@.submitted()
        &&& self.active_cpu == self@.running_cpu()
        &&& self.active_io == self@.running_io()
        &&& self.cpu_consumption == self@.cpu()
        &&& self.worker_count == self@.workers()
    }

    /// A well-formed pool has a valid abstract state.
    pub proof fn lemma_valid(&self)
        requires
            self.wf(),
        ensures
            self@.valid(),
    {
    }

    /// An empty pool: nothing added, no worker busy.
    pub fn new() -> (pool: TaskPool1)
        ensures
            pool.wf(),
            pool@.valid(),
            pool@.cpu_history == Seq::<Task>::empty(),
            pool@.io_history == Seq::<Task>::empty(),
            pool@.cpu_started == 0,
            pool@.io_started == 0,
            pool@.slots.len() == MAX_WORKERS,
            all_idle(pool@.slots),
            pool@.tasks_done == 0,
    {
        let slots = idle_slots();
        proof {
            lemma_count_idle(slots@);
        }
        let pool = TaskPool1 {
            cpu_tasks: VecDeque::new(),
            io_tasks: VecDeque::new(),
            cpu_consumption: 0,
            worker_count: 0,
            tasks_done: 0,
            active_cpu: 0,
            active_io: 0,
            submitted: 0,
            slots,
            cpu_history: Ghost(Seq::empty()),
            io_history: Ghost(Seq::empty()),
        };
        proof {
            assert(pool.cpu_history@.skip(0) =~= Seq::<Task>::empty());
            assert(pool.io_history@.skip(0) =~= Seq::<Task>::empty());
        }
        pool
    }

    /// Puts `task` at the back of the queue of its kind.
    pub fn add(&mut self, task: Task)
        requires
            old(self).wf(),
            old(self)@.submitted() < i32::MAX,
        ensures
            final(self).wf(),
            final(self)@.valid(),
            final(self)@ == old(self)@.added(task),
            task.task == TaskType::CPU ==> {
                &&& final(self)@.cpu_queue() == old(self)@.cpu_queue().push(task)
                &&& final(self)@.io_queue() == old(self)@.io_queue()
            },
            task.task == TaskType::IO ==> {
                &&& final(self)@.io_queue() == old(self)@.io_queue().push(task)
                &&& final(self)@.cpu_queue() == old(self)@.cpu_queue()
            },
    {
        let ghost before = self@;
        self.submitted = self.submitted + 1;
        match task.task {
            TaskType::CPU => {
                self.cpu_tasks.push_back(task);
                proof {
                    self.cpu_history = Ghost(self.cpu_history@.push(task));
                    assert(self.cpu_tasks@ =~= self.cpu_history@.skip(before.cpu_started));
                    lemma_push_keeps_kind(before.cpu_history, task);
                }
            },
            TaskType::IO => {
                self.io_tasks.push_back(task);
                proof {
                    self.io_history = Ghost(self.io_history@.push(task));
                    assert(self.io_tasks@ =~= self.io_history@.skip(before.io_started));
                    lemma_push_keeps_kind(before.io_history, task);
                }
            },
        }
        assert(self@ =~= before.added(task));
    }

    /// Tells `worker`, which runs nothing, what to do next; when it hands
    /// out a task, the worker is marked busy with it and the task's CPU
    /// share is charged.
    pub fn dispatch(&mut self, worker: &Worker) -> (d: Dispatch)
        requires
            old(self).wf(),
            worker.wf(),
            old(self)@.idle(worker.index_spec()),
        ensures
            final(self).wf(),
            final(self)@.valid(),
            (final(self)@, d) == old(self)@.dispatch(worker.done_queuing_spec(), worker.index_spec()),
    {
        let cpu_empty = self.cpu_tasks.len() == 0;
        let io_empty = self.io_tasks.len() == 0;
        if worker.done_queuing() && cpu_empty && io_empty {
            return Dispatch::Stop;
        }
        let kind;
        if self.active_cpu < CPU_TASK_TARGET && !cpu_empty {
            kind = TaskType::CPU;
        } else if self.active_io < IO_TASK_TARGET && !io_empty {
            kind = TaskType::IO;
        } else if cpu_empty && self.active_cpu == 0 && !io_empty {
            kind = TaskType::IO;
        } else {
            return Dispatch::Idle(IDLE_WAIT_MS);
        }
        let next = match kind {
            TaskType::CPU => self.cpu_tasks[0],
            TaskType::IO => self.io_tasks[0],
        };
        assert(self@.pick() == Some(next));
        let needed = next.cpu_needed();
        if self.cpu_consumption + needed <= MAX_CPU {
            let ghost before = self@;
            let index = worker.index();
            proof {
                lemma_count_update(before.slots, index as int, Some(next), TaskType::CPU);
                lemma_count_update(before.slots, index as int, Some(next), TaskType::IO);
                lemma_count_bounds(before.slots);
                lemma_queue_kinds(before);
            }
            match kind {
                TaskType::CPU => {
                    let taken = self.cpu_tasks.pop_front();
                    assert(taken == Some(next));
                    self.active_cpu = self.active_cpu + 1;
                },
                TaskType::IO => {
                    let taken = self.io_tasks.pop_front();
                    assert(taken == Some(next));
                    self.active_io = self.active_io + 1;
                },
            }
            self.slots.set(index as usize, Some(next));
            self.cpu_consumption = self.cpu_consumption + needed;
            self.worker_count = self.worker_count + 1;
            proof {
                assert(self.cpu_tasks@ =~= self@.cpu_queue());
                assert(self.io_tasks@ =~= self@.io_queue());
                assert(self@ == before.started_one(index as int, next));
            }
            Dispatch::Run(next)
        } else {
            Dispatch::Retry(worker.backoff_ms())
        }
    }

    /// Worker `worker` has finished its task: the worker is idle again, the
    /// task's share is given back, and it counts as done. Returns the task.
    pub fn finish(&mut self, worker: &Worker) -> (task: Task)
        requires
            old(self).wf(),
            worker.wf(),
            old(self)@.slots[worker.index_spec()] is Some,
        ensures
            final(self).wf(),
            final(self)@.valid(),
            final(self)@ == old(self)@.finished(worker.index_spec()),
            Some(task) == old(self)@.slots[worker.index_spec()],
    {
        let ghost before = self@;
        let index = worker.index();
        let task = self.slots[index as usize].unwrap();
        proof {
            lemma_count_update(before.slots, index as int, None, TaskType::CPU);
            lemma_count_update(before.slots, index as int, None, TaskType::IO);
            lemma_count_bounds(before.slots.update(index as int, None));
        }
        let needed = task.cpu_needed();
        self.slots.set(index as usize, None);
        self.tasks_done = self.tasks_done + 1;
        self.cpu_consumption = self.cpu_consumption - needed;
        self.worker_count = self.worker_count - 1;
        match task.task {
            TaskType::CPU => { self.active_cpu = self.active_cpu - 1; },
            TaskType::IO => { self.active_io = self.active_io - 1; },
        }
        proof {
            assert(self@ == before.finished(index as int));
        }
        task
    }

    /// A snapshot of the CPU share in use, the busy workers and the tasks
    /// finished.
    pub fn usage(&self) -> (u: Usage)
        requires
            self.wf(),
        ensures
            u.wf(),
            u.cpu == self@.cpu(),
            u.workers == self@.workers(),
            u.tasks_done == self@.tasks_done,
    {
        proof {
            lemma_count_bounds(self@.slots);
        }
        Usage { cpu: self.cpu_consumption, workers: self.worker_count, tasks_done: self.tasks_done }
    }

    /// The task worker `index` runs, if any.
    pub fn task_of(&self, index: i32) -> (t: Option<Task>)
        requires
            self.wf(),
            0 <= index < MAX_WORKERS,
        ensures
            t == self@.slots[index as int],
    {
        self.slots[index as usize]
    }

    /// How many tasks of kind `kind` run.
    pub fn running(&self, kind: TaskType) -> (n: i32)
        requires
            self.wf(),
        ensures
            n == self@.running(kind),
    {
        match kind {
            TaskType::CPU => self.active_cpu,
            TaskType::IO => self.active_io,
        }
    }

    /// How many tasks were ever added.
    pub fn submitted(&self) -> (n: i32)
        requires
            self.wf(),
        ensures
            n == self@.submitted(),
    {
        self.submitted
    }

    /// How many tasks wait.
    pub fn queued(&self) -> (n: usize)
        requires
            self.wf(),
        ensures
            n == self@.cpu_queue().len() + self@.io_queue().len(),
    {
        self.cpu_tasks.len() + self.io_tasks.len()
    }
}

/// Appending a task of the sequence's own kind keeps it of one kind.
proof fn lemma_push_keeps_kind(s: Seq<Task>, task: Task)
    requires
        all_of_kind(s, task.task),
    ensures
        all_of_kind(s.push(task), task.task),
{
    assert forall|i: int| 0 <= i < s.push(task).len() implies (#[trigger] s.push(task)[i]).task
        == task.task by {
        if i < s.len() {
            assert(s.push(task)[i] == s[i]);
        }
    }
}

/// In a valid state each queue holds only tasks of its own kind.
proof fn lemma_queue_kinds(s: BalancedView)
    requires
        s.valid(),
    ensures
        all_of_kind(s.cpu_queue(), TaskType::CPU),
        all_of_kind(s.io_queue(), TaskType::IO),
{
    assert forall|i: int| 0 <= i < s.cpu_queue().len() implies (#[trigger] s.cpu_queue()[i]).task
        == TaskType::CPU by {
        assert(s.cpu_queue()[i] == s.cpu_history[s.cpu_started + i]);
    }
    assert forall|i: int| 0 <= i < s.io_queue().len() implies (#[trigger] s.io_queue()[i]).task
        == TaskType::IO by {
        assert(s.io_queue()[i] == s.io_history[s.io_started + i]);
    }
}

/// The limits are never exceeded: in every valid state the CPU share in use
/// lies in `0..=MAX_CPU`, at most `MAX_WORKERS` workers are busy, each with
/// one task, and at most `MAX_CPU / CPU_CONSUMPTION` CPU-bound tasks run.
pub proof fn lemma_balanced_budget(s: BalancedView)
    requires
        s.valid(),
    ensures
        0 <= s.cpu() <= MAX_CPU,
        0 <= s.workers() <= MAX_WORKERS,
        0 <= s.running_cpu() <= MAX_CPU / CPU_CONSUMPTION,
        0 <= s.running_io(),
{
    lemma_count_bounds(s.slots);
}

/// No task is lost or counted twice, and no task waits in the queue of the
/// other kind.
pub proof fn lemma_balanced_conservation(s: BalancedView)
    requires
        s.valid(),
    ensures
        s.submitted() == s.cpu_queue().len() + s.io_queue().len() + s.workers() + s.tasks_done,
        all_of_kind(s.cpu_queue(), TaskType::CPU),
        all_of_kind(s.io_queue(), TaskType::IO),
{
    lemma_queue_kinds(s);
}

/// Every operation keeps a valid state valid: adding a task of either kind
/// while the count of tasks fits an `i32` (so each queue still holds only
/// its own kind), dispatching to an idle worker, and finishing the task of
/// a busy one.
pub proof fn lemma_balanced_steps_keep_valid(s: BalancedView, task: Task, done_queuing: bool, index: int)
    requires
        s.valid(),
    ensures
        s.submitted() < i32::MAX ==> s.added(task).valid(),
        s.idle(index) ==> s.dispatch(done_queuing, index).0.valid(),
        0 <= index < MAX_WORKERS && s.slots[index] is Some ==> s.finished(index).valid(),
{
    lemma_count_bounds(s.slots);
    match task.task {
        TaskType::CPU => lemma_push_keeps_kind(s.cpu_history, task),
        TaskType::IO => lemma_push_keeps_kind(s.io_history, task),
    }
    if s.idle(index) {
        match s.pick() {
            Some(next) => {
                lemma_count_update(s.slots, index, Some(next), TaskType::CPU);
                lemma_count_update(s.slots, index, Some(next), TaskType::IO);
                lemma_queue_kinds(s);
            },
            None => {},
        }
    }
    if 0 <= index < MAX_WORKERS && s.slots[index] is Some {
        lemma_count_update(s.slots, index, None, TaskType::CPU);
        lemma_count_update(s.slots, index, None, TaskType::IO);
        lemma_count_bounds(s.slots.update(index, None));
    }
}

/// Within each kind, tasks are handed out in the order they were added: a
/// task handed out is the earliest added task of its kind not handed out
/// yet, only the queue of its kind loses it, from its front, and the worker
/// holds it.
pub proof fn lemma_balanced_submission_order(s: BalancedView, done_queuing: bool, index: int, task: Task)
    requires
        s.valid(),
        s.idle(index),
        s.dispatch(done_queuing, index).1 == Dispatch::Run(task),
    ensures
        ({
            let after = s.dispatch(done_queuing, index).0;
            &&& after.cpu_history == s.cpu_history
            &&& after.io_history == s.io_history
            &&& after.slots[index] == Some(task)
            &&& task.task == TaskType::CPU ==> {
                &&& task == s.cpu_history[s.cpu_started]
                &&& after.cpu_queue() == s.cpu_queue().drop_first()
                &&& after.io_queue() == s.io_queue()
            }
            &&& task.task == TaskType::IO ==> {
                &&& task == s.io_history[s.io_started]
                &&& after.io_queue() == s.io_queue().drop_first()
                &&& after.cpu_queue() == s.cpu_queue()
            }
        }),
{
    lemma_queue_kinds(s);
    let after = s.dispatch(done_queuing, index).0;
    if task.task == TaskType::CPU {
        assert(s.cpu_queue().len() > 0 && task == s.cpu_queue()[0]) by {
            if !(s.running_cpu() < CPU_TASK_TARGET && s.cpu_queue().len() > 0) {
                assert(s.io_queue()[0].task == TaskType::IO);
            }
        }
        assert(after.cpu_queue() =~= s.cpu_queue().drop_first());
    } else {
        assert(s.io_queue().len() > 0 && task == s.io_queue()[0]) by {
            if s.running_cpu() < CPU_TASK_TARGET && s.cpu_queue().len() > 0 {
                assert(s.cpu_queue()[0].task == TaskType::CPU);
            }
        }
        assert(after.io_queue() =~= s.io_queue().drop_first());
    }
}

/// Finishing a task gives back exactly what handing it out took: the
/// worker is idle again, the running tasks, the share in use and the busy
/// workers are what they were, and one more task is done.
pub proof fn lemma_balanced_finish_undoes_start(s: BalancedView, done_queuing: bool, index: int, task: Task)
    requires
        s.valid(),
        s.idle(index),
        s.dispatch(done_queuing, index).1 == Dispatch::Run(task),
    ensures
        ({
            let after = s.dispatch(done_queuing, index).0.finished(index);
            &&& after.slots == s.slots
            &&& after.cpu() == s.cpu()
            &&& after.workers() == s.workers()
            &&& after.tasks_done == s.tasks_done + 1
            &&& after.cpu_started + after.io_started == s.cpu_started + s.io_started + 1
        }),
{
    lemma_queue_kinds(s);
    let after = s.dispatch(done_queuing, index).0.finished(index);
    assert(after.slots =~= s.slots);
    if s.running_cpu() < CPU_TASK_TARGET && s.cpu_queue().len() > 0 {
        assert(s.cpu_queue()[0].task == TaskType::CPU);
    } else if s.io_queue().len() > 0 {
        assert(s.io_queue()[0].task == TaskType::IO);
    }
}

/// CPU-bound work comes first: while fewer than `CPU_TASK_TARGET` CPU-bound
/// tasks run and one waits, a worker is never handed an IO-bound task: it
/// gets the first CPU-bound task, or backs off when that task does not fit.
pub proof fn lemma_balanced_cpu_first(s: BalancedView, done_queuing: bool, index: int)
    requires
        s.valid(),
        s.running_cpu() < CPU_TASK_TARGET,
        s.cpu_queue().len() > 0,
    ensures
        s.dispatch(done_queuing, index).1 == Dispatch::Run(s.cpu_queue()[0])
            || s.dispatch(done_queuing, index).1 == Dispatch::Retry((4 * index) as u64),
        s.cpu() + CPU_CONSUMPTION <= MAX_CPU ==> s.dispatch(done_queuing, index).1
            == Dispatch::Run(s.cpu_queue()[0]),
{
    lemma_queue_kinds(s);
}

/// IO-bound work beyond `IO_TASK_TARGET` running tasks starts only when no
/// CPU-bound task waits or runs.
pub proof fn lemma_balanced_io_cap(s: BalancedView, done_queuing: bool, index: int, task: Task)
    requires
        s.valid(),
        s.dispatch(done_queuing, index).1 == Dispatch::Run(task),
        task.task == TaskType::IO,
        s.running_io() >= IO_TASK_TARGET,
    ensures
        s.cpu_queue().len() == 0,
        s.running_cpu() == 0,
{
    lemma_queue_kinds(s);
    if s.running_cpu() < CPU_TASK_TARGET && s.cpu_queue().len() > 0 {
        assert(s.cpu_queue()[0].task == TaskType::CPU);
    }
}

/// A pool with no busy worker never leaves waiting tasks behind: it hands
/// out a task, the first CPU-bound one if any waits, to any worker.
pub proof fn lemma_balanced_progress(s: BalancedView, done_queuing: bool, index: int)
    requires
        s.valid(),
        s.idle(index),
        s.workers() == 0,
        s.cpu_queue().len() + s.io_queue().len() > 0,
    ensures
        s.dispatch(done_queuing, index).1 is Run,
        s.cpu_queue().len() > 0 ==> s.dispatch(done_queuing, index).1 == Dispatch::Run(s.cpu_queue()[0]),
        s.cpu_queue().len() == 0 ==> s.dispatch(done_queuing, index).1 == Dispatch::Run(s.io_queue()[0]),
{
    lemma_queue_kinds(s);
    lemma_count_bounds(s.slots);
    if s.cpu_queue().len() > 0 {
        assert(s.cpu_queue()[0].task == TaskType::CPU);
    } else {
        assert(s.io_queue()[0].task == TaskType::IO);
    }
}

/// A worker is told to stop exactly when it is done queuing and both
/// queues are empty; a back-off or an idle wait leaves the pool as it was.
pub proof fn lemma_balanced_waits_change_nothing(s: BalancedView, done_queuing: bool, index: int)
    requires
        s.valid(),
    ensures
        (s.dispatch(done_queuing, index).1 == Dispatch::Stop)
            <==> (done_queuing && s.cpu_queue().len() == 0 && s.io_queue().len() == 0),
        !(s.dispatch(done_queuing, index).1 is Run) ==> s.dispatch(done_queuing, index).0 == s,
{
}

/// What a dispatch to an idle worker does, for every valid state, told by
/// which tasks wait and run:
/// - it stops exactly when the worker is done queuing and no task waits;
/// - while fewer than `CPU_TASK_TARGET` CPU-bound tasks run and one waits,
///   the worker gets the first CPU-bound task if its share fits, and backs
///   off for four milliseconds per worker number otherwise;
/// - otherwise, while fewer than `IO_TASK_TARGET` IO-bound tasks run and one
///   waits, the worker gets the first IO-bound task if its share fits,
///   however many CPU-bound tasks run, and backs off otherwise;
/// - otherwise it idles for `IDLE_WAIT_MS`, unless no CPU-bound task waits
///   or runs and an IO-bound one waits: then the worker gets it if its share
///   fits, however many IO-bound tasks run, and backs off otherwise.
/// A task handed out is held by the worker, its share is added to the share
/// in use, and one more worker is busy; nothing else changes the pool.
pub proof fn lemma_balanced_dispatch_outcome(s: BalancedView, done_queuing: bool, index: int)
    requires
        s.valid(),
        s.idle(index),
    ensures
        ({
            let cpu_waits = s.cpu_queue().len() > 0;
            let io_waits = s.io_queue().len() > 0;
            let cpu_turn = s.running_cpu() < CPU_TASK_TARGET && cpu_waits;
            let io_turn = !cpu_turn && s.running_io() < IO_TASK_TARGET && io_waits;
            let io_free = !cpu_turn && !io_turn && !cpu_waits && s.running_cpu() == 0 && io_waits;
            let out = s.dispatch(done_queuing, index);
            let back_off = (s, Dispatch::Retry((4 * index) as u64));
            &&& (out.1 == Dispatch::Stop) <==> (done_queuing && !cpu_waits && !io_waits)
            &&& out.1 == Dispatch::Stop ==> out.0 == s
            &&& !(done_queuing && !cpu_waits && !io_waits) ==> {
                &&& cpu_turn && s.cpu() + CPU_CONSUMPTION <= MAX_CPU
                    ==> out.1 == Dispatch::Run(s.cpu_queue()[0])
                &&& cpu_turn && s.cpu() + CPU_CONSUMPTION > MAX_CPU ==> out == back_off
                &&& (io_turn || io_free) && s.cpu() + IO_CONSUMPTION <= MAX_CPU
                    ==> out.1 == Dispatch::Run(s.io_queue()[0])
                &&& (io_turn || io_free) && s.cpu() + IO_CONSUMPTION > MAX_CPU ==> out == back_off
                &&& !cpu_turn && !io_turn && !io_free ==> out == (s, Dispatch::Idle(IDLE_WAIT_MS))
            }
            &&& out.1 is Run ==> {
                &&& out.0.slots[index] == Some(out.1->Run_0)
                &&& out.0.cpu() == s.cpu() + cost(out.1->Run_0.task)
                &&& out.0.workers() == s.workers() + 1
                &&& out.0.tasks_done == s.tasks_done
                &&& out.0.cpu_history == s.cpu_history
                &&& out.0.io_history == s.io_history
            }
        }),
{
    lemma_queue_kinds(s);
    if s.cpu_queue().len() > 0 {
        assert(s.cpu_queue()[0].task == TaskType::CPU);
    }
    if s.io_queue().len() > 0 {
        assert(s.io_queue()[0].task == TaskType::IO);
    }
    match s.pick() {
        Some(next) => {
            lemma_count_update(s.slots, index, Some(next), TaskType::CPU);
            lemma_count_update(s.slots, index, Some(next), TaskType::IO);
        },
        None => {},
    }
}

/// IO-bound work is not held back by a single running CPU-bound task: when
/// no CPU-bound task is picked (none waits, or `CPU_TASK_TARGET` already
/// run), fewer than `IO_TASK_TARGET` IO-bound tasks run, one waits and its
/// share fits, an idle worker gets it, however many CPU-bound tasks run.
pub proof fn lemma_balanced_io_second(s: BalancedView, done_queuing: bool, index: int)
    requires
        s.valid(),
        s.idle(index),
        s.cpu_queue().len() == 0 || s.running_cpu() >= CPU_TASK_TARGET,
        s.running_io() < IO_TASK_TARGET,
        s.io_queue().len() > 0,
        s.cpu() + IO_CONSUMPTION <= MAX_CPU,
    ensures
        s.dispatch(done_queuing, index).1 == Dispatch::Run(s.io_queue()[0]),
{
    lemma_balanced_dispatch_outcome(s, done_queuing, index);
}

/// With no CPU-bound task waiting or running, IO-bound tasks are not capped:
/// a waiting IO-bound task whose share fits goes to an idle worker, however
/// many IO-bound tasks run.
pub proof fn lemma_balanced_io_when_no_cpu(s: BalancedView, done_queuing: bool, index: int)
    requires
        s.valid(),
        s.idle(index),
        s.cpu_queue().len() == 0,
        s.running_cpu() == 0,
        s.io_queue().len() > 0,
        s.cpu() + IO_CONSUMPTION <= MAX_CPU,
    ensures
        s.dispatch(done_queuing, index).1 == Dispatch::Run(s.io_queue()[0]),
{
    lemma_balanced_dispatch_outcome(s, done_queuing, index);
}

} // verus!
