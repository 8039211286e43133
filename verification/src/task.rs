use vstd::prelude::*;

verus! {

/// The CPU budget of the whole pool, in percent.
pub const MAX_CPU: i32 = 100;

/// The number of workers that a pool runs.
pub const MAX_WORKERS: i32 = 8;

/// The CPU share that a running CPU-bound task takes.
pub const CPU_CONSUMPTION: i32 = 35;

/// The CPU share that a running IO-bound task takes.
pub const IO_CONSUMPTION: i32 = 10;

/// The value the producer sends to each worker once every task is queued.
pub const TERMINATION_SIGNAL: i32 = -1;

/// How long a task keeps its worker busy, in milliseconds.
pub const WORK_MS: u64 = 200;

/// How long a worker waits when it found nothing to take, in milliseconds.
pub const IDLE_WAIT_MS: u64 = 10;

/// The kind of a task.
#[derive(Clone, Copy, Debug, PartialEq, Eq, Structural)]
pub enum TaskType {
    IO,
    CPU,
}

/// A unit of work: its kind and the number the producer gave it.
#[derive(Clone, Copy, Debug, PartialEq, Eq, Structural)]
pub struct Task {
    pub task: TaskType,
    pub id: i32,
}

/// The CPU share that a running task of kind `kind` takes.
pub open spec fn cost(kind: TaskType) -> int {
    match kind {
        TaskType::IO => IO_CONSUMPTION as int,
        TaskType::CPU => CPU_CONSUMPTION as int,
    }
}

/// The CPU load of `running_cpu` CPU-bound and `running_io` IO-bound tasks.
pub open spec fn load(running_cpu: int, running_io: int) -> int {
    CPU_CONSUMPTION * running_cpu + IO_CONSUMPTION * running_io
}

impl Task {
    /// The CPU share that a task of this kind takes while it runs.
    pub fn cpu_needed(&self) -> (n: i32)
        ensures
            n == cost(self.task),
    {
        match self.task {
            TaskType::CPU => CPU_CONSUMPTION,
            TaskType::IO => IO_CONSUMPTION,
        }
    }
}

} // verus!
