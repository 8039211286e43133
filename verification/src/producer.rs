use vstd::prelude::*;
use rand::rngs::ThreadRng;
use rand::RngExt;
use crate::task::{Task, TaskType};

verus! {

/// How many tasks a run produces.
pub const TOTAL_TASKS: i32 = 1000;

/// The share of IO-bound tasks among those produced, in percent.
pub const PERCENT_IO: i32 = 70;

/// How long the producer waits between two tasks, in milliseconds.
pub const SEND_INTERVAL_MS: u64 = 20;

#[verifier::external_type_specification]
#[verifier::external_body]
pub struct ExThreadRng(ThreadRng);

/// Calls `rand::rng`, which hands out this thread's random generator.
/// Nothing is claimed of the generator.
#[verifier::external_body]
fn thread_rng() -> ThreadRng {
    rand::rng()
}

/// Calls `RngExt::random_range` on the range `low..high`. Its source
/// returns a value in that range and panics only when the range is empty,
/// which `requires` rules out. Which value comes out is left open: it rests
/// on chance.
#[verifier::external_body]
fn random_in_range(rng: &mut ThreadRng, low: i32, high: i32) -> (r: i32)
    requires
        low < high,
    ensures
        low <= r < high,
{
    rng.random_range(low..high)
}

/// The kind a task gets from a draw in `0..100`: IO-bound when the draw is
/// below `percent_io`, CPU-bound otherwise.
pub open spec fn kind_for_draw(draw: int, percent_io: int) -> TaskType {
    if draw < percent_io {
        TaskType::IO
    } else {
        TaskType::CPU
    }
}

/// The task numbered `id` whose kind the draw `draw` decided.
pub fn task_for_draw(id: i32, draw: i32, percent_io: i32) -> (t: Task)
    ensures
        t.id == id,
        t.task == kind_for_draw(draw as int, percent_io as int),
        (t.task == TaskType::IO) <==> draw < percent_io,
{
    if draw < percent_io {
        Task { task: TaskType::IO, id }
    } else {
        Task { task: TaskType::CPU, id }
    }
}

/// The producer: it numbers tasks from zero up to a total and draws the
/// kind of each at random, with a given share of IO-bound tasks.
pub struct Producer {
    rng: ThreadRng,
    next_id: i32,
    total: i32,
    percent_io: i32,
    io_count: i32,
    last_draw: i32,
}

impl Producer {
    /// The number the next task gets.
    pub closed spec fn next_id_spec(&self) -> int {
        self.next_id as int
    }

    /// How many tasks this producer makes in all.
    pub closed spec fn total_spec(&self) -> int {
        self.total as int
    }

    /// The share of IO-bound tasks, in percent.
    pub closed spec fn percent_io_spec(&self) -> int {
        self.percent_io as int
    }

    /// The draw that decided the kind of the last task produced (0 before
    /// the first).
    pub closed spec fn last_draw_spec(&self) -> int {
        self.last_draw as int
    }

    /// How many IO-bound tasks were produced so far.
    pub closed spec fn io_count_spec(&self) -> int {
        self.io_count as int
    }

    /// The counters are in range: the next number is at most the total and
    /// the IO-bound tasks are at most those produced.
    pub open spec fn wf(&self) -> bool {
        &&& 0 <= self.next_id_spec() <= self.total_spec()
        &&& 0 <= self.io_count_spec() <= self.next_id_spec()
    }

    /// A producer of `total` tasks (none when `total` is negative) of which
    /// about `percent_io` percent are IO-bound, with this thread's random
    /// generator.
    pub fn new(total: i32, percent_io: i32) -> (p: Producer)
        ensures
            p.wf(),
            p.next_id_spec() == 0,
            p.total_spec() == if total < 0 { 0 } else { total as int },
            p.percent_io_spec() == percent_io,
            p.io_count_spec() == 0,
    {
        let total = if total < 0 { 0 } else { total };
        Producer { rng: thread_rng(), next_id: 0, total, percent_io, io_count: 0, last_draw: 0 }
    }

    /// The task that the draw `draw` makes, or `None` once `total` tasks
    /// were made: it gets the next number, and it is IO-bound exactly when
    /// `draw` is below the IO share. The draw is recorded as the last one.
    pub fn next_task_for_draw(&mut self, draw: i32) -> (t: Option<Task>)
        requires
            old(self).wf(),
        ensures
            final(self).wf(),
            final(self).total_spec() == old(self).total_spec(),
            final(self).percent_io_spec() == old(self).percent_io_spec(),
            old(self).next_id_spec() == old(self).total_spec() ==> {
                &&& t is None
                &&& final(self).next_id_spec() == old(self).next_id_spec()
                &&& final(self).io_count_spec() == old(self).io_count_spec()
                &&& final(self).last_draw_spec() == old(self).last_draw_spec()
            },
            old(self).next_id_spec() < old(self).total_spec() ==> {
                &&& t is Some
                &&& t->0.id == old(self).next_id_spec()
                &&& (t->0.task == TaskType::IO) <==> draw < old(self).percent_io_spec()
                &&& final(self).last_draw_spec() == draw
                &&& final(self).next_id_spec() == old(self).next_id_spec() + 1
                &&& final(self).io_count_spec() == old(self).io_count_spec()
                    + if draw < old(self).percent_io_spec() { 1int } else { 0int }
            },
    {
        if self.next_id == self.total {
            return None;
        }
        let task = task_for_draw(self.next_id, draw, self.percent_io);
        if task.task == TaskType::IO {
            self.io_count = self.io_count + 1;
        }
        self.next_id = self.next_id + 1;
        self.last_draw = draw;
        Some(task)
    }

    /// The next task, or `None` once `total` tasks were made. The task gets
    /// the next number; its kind is decided by a fresh random draw in
    /// `0..100`, recorded as the last draw: IO-bound exactly when that draw
    /// is below the IO share. So it is always IO-bound when the share is 100
    /// or more and always CPU-bound when the share is 0 or less.
    pub fn next_task(&mut self) -> (t: Option<Task>)
        requires
            old(self).wf(),
        ensures
            final(self).wf(),
            final(self).total_spec() == old(self).total_spec(),
            final(self).percent_io_spec() == old(self).percent_io_spec(),
            old(self).next_id_spec() == old(self).total_spec() ==> {
                &&& t is None
                &&& final(self).next_id_spec() == old(self).next_id_spec()
                &&& final(self).io_count_spec() == old(self).io_count_spec()
                &&& final(self).last_draw_spec() == old(self).last_draw_spec()
            },
            old(self).next_id_spec() < old(self).total_spec() ==> {
                &&& t is Some
                &&& t->0.id == old(self).next_id_spec()
                &&& 0 <= final(self).last_draw_spec() < 100
                &&& (t->0.task == TaskType::IO) <==> final(self).last_draw_spec()
                    < old(self).percent_io_spec()
                &&& t->0.task == kind_for_draw(final(self).last_draw_spec(), old(self).percent_io_spec())
                &&& exists|draw: int| 0 <= draw < 100
                    && t->0.task == #[trigger] kind_for_draw(draw, old(self).percent_io_spec())
                &&& old(self).percent_io_spec() >= 100 ==> t->0.task == TaskType::IO
                &&& old(self).percent_io_spec() <= 0 ==> t->0.task == TaskType::CPU
                &&& final(self).next_id_spec() == old(self).next_id_spec() + 1
                &&& final(self).io_count_spec() == old(self).io_count_spec()
                    + if t->0.task == TaskType::IO { 1int } else { 0int }
            },
    {
        if self.next_id == self.total {
            return None;
        }
        let draw = random_in_range(&mut self.rng, 0, 100);
        self.next_task_for_draw(draw)
    }

    /// The draw that decided the kind of the last task produced.
    pub fn last_draw(&self) -> (d: i32)
        ensures
            d == self.last_draw_spec(),
    {
        self.last_draw
    }

    /// How many tasks were produced so far.
    pub fn produced(&self) -> (n: i32)
        ensures
            n == self.next_id_spec(),
    {
        self.next_id
    }

    /// How many IO-bound tasks were produced so far.
    pub fn io_count(&self) -> (n: i32)
        ensures
            n == self.io_count_spec(),
    {
        self.io_count
    }

    /// How many CPU-bound tasks were produced so far.
    pub fn cpu_count(&self) -> (n: i32)
        requires
            self.wf(),
        ensures
            n == self.next_id_spec() - self.io_count_spec(),
    {
        self.next_id - self.io_count
    }
}

} // verus!
