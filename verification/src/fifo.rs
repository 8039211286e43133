use vstd::prelude::*;
use std::collections::VecDeque;
use crate::task::{cost, load, Task, TaskType, CPU_CONSUMPTION, IDLE_WAIT_MS, MAX_CPU, MAX_WORKERS};
use crate::slots::{all_idle, count_kind, idle_slots, lemma_count_bounds, lemma_count_idle, lemma_count_update};
use crate::worker::{Dispatch, Worker};
use crate::monitor::Usage;

verus! {

/// The abstract state of a first-come, first-served pool.
pub struct FifoView {
    /// Every task ever added, in the order it was added.
    pub history: Seq<Task>,
    /// How many of them have been handed to a worker.
    pub started: int,
    /// The task each worker runs, by worker number; `None` for an idle
    /// worker.
    pub slots: Seq<Option<Task>>,
    /// How many tasks have been finished.
    pub tasks_done: int,
}

impl FifoView {
    /// The tasks that wait, first in line first: those added and not yet
    /// handed out.
    pub open spec fn queue(self) -> Seq<Task> {
        self.history.skip(self.started)
    }

    /// How many tasks of kind `kind` run.
    pub open spec fn running(self, kind: TaskType) -> int {
        count_kind(self.slots, kind)
    }

    /// How many CPU-bound tasks run.
    pub open spec fn running_cpu(self) -> int {
        self.running(TaskType::CPU)
    }

    /// How many IO-bound tasks run.
    pub open spec fn running_io(self) -> int {
        self.running(TaskType::IO)
    }

    /// The CPU share taken by the running tasks.
    pub open spec fn cpu(self) -> int {
        load(self.running_cpu(), self.running_io())
    }

    /// The number of busy workers.
    pub open spec fn workers(self) -> int {
        self.running_cpu() + self.running_io()
    }

    /// Worker `index` exists and runs nothing.
    pub open spec fn idle(self, index: int) -> bool {
        0 <= index < MAX_WORKERS && self.slots[index] is None
    }

    /// What every reachable state satisfies: there is one slot per worker,
    /// the running tasks fit the budget, and every task added is either
    /// waiting, running or done.
    pub open spec fn valid(self) -> bool {
        &&& 0 <= self.started <= self.history.len() <= i32::MAX
        &&& self.slots.len() == MAX_WORKERS
        &&& 0 <= self.tasks_done
        &&& self.cpu() <= MAX_CPU
        &&& self.started == self.workers() + self.tasks_done
    }

    /// The state after `task` joins the back of the queue.
    pub open spec fn added(self, task: Task) -> FifoView {
        FifoView { history: self.history.push(task), ..self }
    }

    /// The state after worker `index` took `task`, the next task in line.
    pub open spec fn started_one(self, index: int, task: Task) -> FifoView {
        FifoView { started: self.started + 1, slots: self.slots.update(index, Some(task)), ..self }
    }

    /// The state after worker `index` finished its task.
    pub open spec fn finished(self, index: int) -> FifoView {
        FifoView { tasks_done: self.tasks_done + 1, slots: self.slots.update(index, None), ..self }
    }

    /// What worker `index`, done queuing or not (`done_queuing`), is told,
    /// and the state after it: it stops once every task is queued and none
    /// waits; it idles while none waits; it runs the first task in line if
    /// that task's share fits the budget; otherwise the task stays first and
    /// the worker backs off for four milliseconds per worker number.
    pub open spec fn dispatch(self, done_queuing: bool, index: int) -> (FifoView, Dispatch) {
        if self.queue().len() == 0 {
            if done_queuing {
                (self, Dispatch::Stop)
            } else {
                (self, Dispatch::Idle(IDLE_WAIT_MS))
            }
        } else {
            let next = self.queue()[0];
            if self.cpu() + cost(next.task) <= MAX_CPU {
                (self.started_one(index, next), Dispatch::Run(next))
            } else {
                (self, Dispatch::Retry((4 * index) as u64))
            }
        }
    }
}

/// A pool whose workers take tasks strictly in the order they were added.
pub struct TaskPool {
    tasks: VecDeque<Task>,
    cpu_consumption: i32,
    worker_count: i32,
    tasks_done: i32,
    running_cpu: i32,
    running_io: i32,
    submitted: i32,
    slots: Vec<Option<Task>>,
    history: Ghost<Seq<Task>>,
}

impl View for TaskPool {
    type V = FifoView;

    closed spec fn view(&self) -> FifoView {
        FifoView {
            history: self.history@,
            started: self.history@.len() - self.tasks@.len(),
            slots: self.slots@,
            tasks_done: self.tasks_done as int,
        }
    }
}

impl TaskPool {
    /// The pool's fields agree with its abstract state, and that state is
    /// valid.
    pub closed spec fn wf(&self) -> bool {
        &&& self@.valid()
        &&& self.tasks@ == self@.queue()
        &&& self.submitted == self.history@.len()
        &&& self.running_cpu == self@.running_cpu()
        &&& self.running_io == self@.running_io()
        &&& self.cpu_consumption == self@.cpu()
        &&& self.worker_count == self@.workers()
    }

    /// A well-formed pool has a valid abstract state.
    pub proof fn lemma_valid(&self)
        requires
            self.wf(),
        ensures
            self@.valid(),
    {
    }

    /// An empty pool: nothing added, no worker busy.
    pub fn new() -> (pool: TaskPool)
        ensures
            pool.wf(),
            pool@.valid(),
            pool@.history == Seq::<Task>::empty(),
            pool@.started == 0,
            pool@.slots.len() == MAX_WORKERS,
            all_idle(pool@.slots),
            pool@.tasks_done == 0,
    {
        let slots = idle_slots();
        proof {
            lemma_count_idle(slots@);
        }
        let pool = TaskPool {
            tasks: VecDeque::new(),
            cpu_consumption: 0,
            worker_count: 0,
            tasks_done: 0,
            running_cpu: 0,
            running_io: 0,
            submitted: 0,
            slots,
            history: Ghost(Seq::empty()),
        };
        proof {
            assert(pool.history@.skip(0) =~= Seq::<Task>::empty());
        }
        pool
    }

    /// Puts `task` at the back of the queue.
    pub fn add(&mut self, task: Task)
        requires
            old(self).wf(),
            old(self)@.history.len() < i32::MAX,
        ensures
            final(self).wf(),
            final(self)@.valid(),
            final(self)@ == old(self)@.added(task),
            final(self)@.queue() == old(self)@.queue().push(task),
    {
        self.tasks.push_back(task);
        self.submitted = self.submitted + 1;
        proof {
            let old_hist = self.history@;
            let started = old_hist.len() - old(self).tasks@.len();
            self.history = Ghost(old_hist.push(task));
            assert(self.tasks@ =~= self.history@.skip(started));
        }
    }

    /// Tells `worker`, which runs nothing, what to do next; when it hands
    /// out a task, the worker is marked busy with it and the task's CPU
    /// share is charged.
    pub fn dispatch(&mut self, worker: &Worker) -> (d: Dispatch)
        requires
            old(self).wf(),
            worker.wf(),
            old(self)@.idle(worker.index_spec()),
        ensures
            final(self).wf(),
            final(self)@.valid(),
            (final(self)@, d) == old(self)@.dispatch(worker.done_queuing_spec(), worker.index_spec()),
    {
        if self.tasks.len() == 0 {
            if worker.done_queuing() {
                return Dispatch::Stop;
            } else {
                return Dispatch::Idle(IDLE_WAIT_MS);
            }
        }
        let next = self.tasks[0];
        let needed = next.cpu_needed();
        if self.cpu_consumption + needed <= MAX_CPU {
            let ghost before = self@;
            let index = worker.index();
            proof {
                lemma_count_update(before.slots, index as int, Some(next), TaskType::CPU);
                lemma_count_update(before.slots, index as int, Some(next), TaskType::IO);
                lemma_count_bounds(before.slots);
            }
            let taken = self.tasks.pop_front();
            assert(taken == Some(next));
            self.slots.set(index as usize, Some(next));
            self.cpu_consumption = self.cpu_consumption + needed;
            self.worker_count = self.worker_count + 1;
            match next.task {
                TaskType::CPU => { self.running_cpu = self.running_cpu + 1; },
                TaskType::IO => { self.running_io = self.running_io + 1; },
            }
            proof {
                assert(self.tasks@ =~= self@.queue());
                assert(self@ == before.started_one(index as int, next));
            }
            Dispatch::Run(next)
        } else {
            Dispatch::Retry(worker.backoff_ms())
        }
    }

    /// Worker `worker` has finished its task: the worker is idle again, the
    /// task's share is given back, and it counts as done. Returns the task.
    pub fn finish(&mut self, worker: &Worker) -> (task: Task)
        requires
            old(self).wf(),
            worker.wf(),
            old(self)@.slots[worker.index_spec()] is Some,
        ensures
            final(self).wf(),
            final(self)@.valid(),
            final(self)@ == old(self)@.finished(worker.index_spec()),
            Some(task) == old(self)@.slots[worker.index_spec()],
    {
        let ghost before = self@;
        let index = worker.index();
        let task = self.slots[index as usize].unwrap();
        proof {
            lemma_count_update(before.slots, index as int, None, TaskType::CPU);
            lemma_count_update(before.slots, index as int, None, TaskType::IO);
            lemma_count_bounds(before.slots.update(index as int, None));
        }
        let needed = task.cpu_needed();
        self.slots.set(index as usize, None);
        self.tasks_done = self.tasks_done + 1;
        self.cpu_consumption = self.cpu_consumption - needed;
        self.worker_count = self.worker_count - 1;
        match task.task {
            TaskType::CPU => { self.running_cpu = self.running_cpu - 1; },
            TaskType::IO => { self.running_io = self.running_io - 1; },
        }
        proof {
            assert(self@ == before.finished(index as int));
        }
        task
    }

    /// A snapshot of the CPU share in use, the busy workers and the tasks
    /// finished.
    pub fn usage(&self) -> (u: Usage)
        requires
            self.wf(),
        ensures
            u.wf(),
            u.cpu == self@.cpu(),
            u.workers == self@.workers(),
            u.tasks_done == self@.tasks_done,
    {
        proof {
            lemma_count_bounds(self@.slots);
        }
        Usage { cpu: self.cpu_consumption, workers: self.worker_count, tasks_done: self.tasks_done }
    }

    /// The task worker `index` runs, if any.
    pub fn task_of(&self, index: i32) -> (t: Option<Task>)
        requires
            self.wf(),
            0 <= index < MAX_WORKERS,
        ensures
            t == self@.slots[index as int],
    {
        self.slots[index as usize]
    }

    /// How many tasks of kind `kind` run.
    pub fn running(&self, kind: TaskType) -> (n: i32)
        requires
            self.wf(),
        ensures
            n == self@.running(kind),
    {
        match kind {
            TaskType::CPU => self.running_cpu,
            TaskType::IO => self.running_io,
        }
    }

    /// How many tasks were ever added.
    pub fn submitted(&self) -> (n: i32)
        requires
            self.wf(),
        ensures
            n == self@.history.len(),
    {
        self.submitted
    }

    /// How many tasks wait.
    pub fn queued(&self) -> (n: usize)
        requires
            self.wf(),
        ensures
            n == self@.queue().len(),
    {
        self.tasks.len()
    }
}

/// The limits are never exceeded: in every valid state the CPU share in use
/// lies in `0..=MAX_CPU`, at most `MAX_WORKERS` workers are busy, each with
/// one task, and at most `MAX_CPU / CPU_CONSUMPTION` CPU-bound tasks run.
pub proof fn lemma_fifo_budget(s: FifoView)
    requires
        s.valid(),
    ensures
        0 <= s.cpu() <= MAX_CPU,
        0 <= s.workers() <= MAX_WORKERS,
        0 <= s.running_cpu() <= MAX_CPU / CPU_CONSUMPTION,
        0 <= s.running_io(),
{
    lemma_count_bounds(s.slots);
}

/// No task is lost or counted twice: every task added is waiting, running
/// or done.
pub proof fn lemma_fifo_conservation(s: FifoView)
    requires
        s.valid(),
    ensures
        s.history.len() == s.queue().len() + s.workers() + s.tasks_done,
{
}

/// Every operation keeps a valid state valid: adding a task while the
/// count of tasks fits an `i32`, dispatching to an idle worker, and
/// finishing the task of a busy one.
pub proof fn lemma_fifo_steps_keep_valid(s: FifoView, task: Task, done_queuing: bool, index: int)
    requires
        s.valid(),
    ensures
        s.history.len() < i32::MAX ==> s.added(task).valid(),
        s.idle(index) ==> s.dispatch(done_queuing, index).0.valid(),
        0 <= index < MAX_WORKERS && s.slots[index] is Some ==> s.finished(index).valid(),
{
    lemma_count_bounds(s.slots);
    if s.idle(index) && s.queue().len() > 0 {
        let next = s.queue()[0];
        lemma_count_update(s.slots, index, Some(next), TaskType::CPU);
        lemma_count_update(s.slots, index, Some(next), TaskType::IO);
    }
    if 0 <= index < MAX_WORKERS && s.slots[index] is Some {
        lemma_count_update(s.slots, index, None, TaskType::CPU);
        lemma_count_update(s.slots, index, None, TaskType::IO);
        lemma_count_bounds(s.slots.update(index, None));
    }
}

/// Tasks are handed out in the order they were added: a task handed out is
/// the earliest added that was not handed out yet, the queue then loses
/// exactly that task from its front, and the worker holds it.
pub proof fn lemma_fifo_submission_order(s: FifoView, done_queuing: bool, index: int)
    requires
        s.valid(),
        s.idle(index),
        s.dispatch(done_queuing, index).1 is Run,
    ensures
        s.dispatch(done_queuing, index).1 == Dispatch::Run(s.history[s.started]),
        s.dispatch(done_queuing, index).0.started == s.started + 1,
        s.dispatch(done_queuing, index).0.queue() == s.queue().drop_first(),
        s.dispatch(done_queuing, index).0.history == s.history,
        s.dispatch(done_queuing, index).0.slots[index] == Some(s.history[s.started]),
{
    assert(s.dispatch(done_queuing, index).0.queue() =~= s.queue().drop_first());
}

/// Finishing a task gives back exactly what handing it out took: the
/// worker is idle again, the running tasks, the share in use and the busy
/// workers are what they were, and one more task is done.
pub proof fn lemma_fifo_finish_undoes_start(s: FifoView, done_queuing: bool, index: int, task: Task)
    requires
        s.valid(),
        s.idle(index),
        s.dispatch(done_queuing, index).1 == Dispatch::Run(task),
    ensures
        ({
            let after = s.dispatch(done_queuing, index).0.finished(index);
            &&& after.slots == s.slots
            &&& after.cpu() == s.cpu()
            &&& after.workers() == s.workers()
            &&& after.tasks_done == s.tasks_done + 1
            &&& after.history == s.history
            &&& after.started == s.started + 1
        }),
{
    let after = s.dispatch(done_queuing, index).0.finished(index);
    assert(after.slots =~= s.slots);
}

/// A pool with no busy worker never leaves a waiting task behind: it hands
/// out the first task in line to any worker.
pub proof fn lemma_fifo_progress(s: FifoView, done_queuing: bool, index: int)
    requires
        s.valid(),
        s.idle(index),
        s.workers() == 0,
        s.queue().len() > 0,
    ensures
        s.dispatch(done_queuing, index).1 == Dispatch::Run(s.queue()[0]),
{
    lemma_count_bounds(s.slots);
}

/// A worker is told to stop exactly when it is done queuing and no task
/// waits; a back-off or an idle wait leaves the pool as it was, and a
/// back-off comes only when the first task in line does not fit.
pub proof fn lemma_fifo_waits_change_nothing(s: FifoView, done_queuing: bool, index: int)
    requires
        s.valid(),
    ensures
        (s.dispatch(done_queuing, index).1 == Dispatch::Stop)
            <==> (done_queuing && s.queue().len() == 0),
        !(s.dispatch(done_queuing, index).1 is Run) ==> s.dispatch(done_queuing, index).0 == s,
        s.dispatch(done_queuing, index).1 is Retry ==> {
            &&& s.queue().len() > 0
            &&& s.cpu() + cost(s.queue()[0].task) > MAX_CPU
        },
{
}

/// What a dispatch to an idle worker does, for every valid state: with no
/// task waiting, the worker stops if it is done queuing and idles for
/// `IDLE_WAIT_MS` otherwise; with a task waiting whose share fits the budget
/// (the budget may be filled exactly), the worker gets that first task, the
/// worker holds it, the share in use grows by its cost and one more worker
/// is busy, however many already are; with a first task that does not fit,
/// the worker backs off for four milliseconds per worker number. Only a
/// handed-out task changes the pool.
pub proof fn lemma_fifo_dispatch_outcome(s: FifoView, done_queuing: bool, index: int)
    requires
        s.valid(),
        s.idle(index),
    ensures
        s.queue().len() == 0 && done_queuing ==> s.dispatch(done_queuing, index) == (s, Dispatch::Stop),
        s.queue().len() == 0 && !done_queuing ==> s.dispatch(done_queuing, index)
            == (s, Dispatch::Idle(IDLE_WAIT_MS)),
        s.queue().len() > 0 && s.cpu() + cost(s.queue()[0].task) <= MAX_CPU ==> {
            let after = s.dispatch(done_queuing, index).0;
            &&& s.dispatch(done_queuing, index).1 == Dispatch::Run(s.queue()[0])
            &&& after.queue() == s.queue().drop_first()
            &&& after.slots[index] == Some(s.queue()[0])
            &&& after.cpu() == s.cpu() + cost(s.queue()[0].task)
            &&& after.workers() == s.workers() + 1
            &&& after.tasks_done == s.tasks_done
            &&& after.history == s.history
        },
        s.queue().len() > 0 && s.cpu() + cost(s.queue()[0].task) > MAX_CPU ==> s.dispatch(
            done_queuing,
            index,
        ) == (s, Dispatch::Retry((4 * index) as u64)),
{
    if s.queue().len() > 0 && s.cpu() + cost(s.queue()[0].task) <= MAX_CPU {
        let next = s.queue()[0];
        let after = s.dispatch(done_queuing, index).0;
        lemma_count_update(s.slots, index, Some(next), TaskType::CPU);
        lemma_count_update(s.slots, index, Some(next), TaskType::IO);
        assert(after.queue() =~= s.queue().drop_first());
    }
}

} // verus!
