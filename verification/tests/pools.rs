use task_dispatcher::balanced::TaskPool1;
use task_dispatcher::fifo::TaskPool;
use task_dispatcher::task::{Task, TaskType, MAX_CPU, MAX_WORKERS};
use task_dispatcher::worker::{Dispatch, Poll, Worker};

fn cpu(id: i32) -> Task {
    Task { task: TaskType::CPU, id }
}

fn io(id: i32) -> Task {
    Task { task: TaskType::IO, id }
}

fn workers() -> Vec<Worker> {
    (0..MAX_WORKERS).map(Worker::new).collect()
}

#[test]
fn cpu_needed_by_kind() {
    assert_eq!(cpu(0).cpu_needed(), 35);
    assert_eq!(io(0).cpu_needed(), 10);
}

#[test]
fn worker_observes_signals() {
    let mut w = Worker::new(2);
    assert!(w.listening());
    assert!(w.observe(Poll::Empty));
    assert!(!w.done_queuing());
    assert!(w.observe(Poll::Received(5)));
    assert!(!w.done_queuing());
    assert!(w.observe(Poll::Received(-1)));
    assert!(w.done_queuing());
    assert!(!w.listening());
    assert!(w.observe(Poll::Received(7)));
    assert!(w.done_queuing());
    assert_eq!(w.index(), 2);
}

#[test]
fn worker_gives_up_on_disconnect() {
    let mut w = Worker::new(0);
    assert!(!w.observe(Poll::Disconnected));
    assert!(!w.done_queuing());
}

#[test]
fn worker_backoff_is_four_ms_per_index() {
    assert_eq!(Worker::new(0).backoff_ms(), 0);
    assert_eq!(Worker::new(3).backoff_ms(), 12);
    assert_eq!(Worker::new(MAX_WORKERS - 1).backoff_ms(), 28);
}

#[test]
fn fifo_new_pool_is_empty() {
    let p = TaskPool::new();
    let u = p.usage();
    assert_eq!((u.cpu, u.workers, u.tasks_done), (0, 0, 0));
    assert_eq!(p.queued(), 0);
    assert_eq!(p.submitted(), 0);
    for i in 0..MAX_WORKERS {
        assert_eq!(p.task_of(i), None);
    }
}

#[test]
fn fifo_hands_out_in_order_of_adding() {
    let mut p = TaskPool::new();
    p.add(io(0));
    p.add(cpu(1));
    p.add(io(2));
    assert_eq!(p.submitted(), 3);
    let ws = workers();
    assert_eq!(p.dispatch(&ws[0]), Dispatch::Run(io(0)));
    assert_eq!(p.dispatch(&ws[1]), Dispatch::Run(cpu(1)));
    assert_eq!(p.dispatch(&ws[2]), Dispatch::Run(io(2)));
    assert_eq!(p.task_of(1), Some(cpu(1)));
    let u = p.usage();
    assert_eq!((u.cpu, u.workers, u.tasks_done), (55, 3, 0));
    assert_eq!(p.queued(), 0);
}

#[test]
fn fifo_head_of_line_waits_for_budget() {
    let mut p = TaskPool::new();
    p.add(cpu(0));
    p.add(cpu(1));
    p.add(cpu(2));
    p.add(io(3));
    let ws = workers();
    assert_eq!(p.dispatch(&ws[0]), Dispatch::Run(cpu(0)));
    assert_eq!(p.dispatch(&ws[1]), Dispatch::Run(cpu(1)));
    // 70 + 35 > 100: the third CPU task stays first, even though the IO task
    // behind it would fit.
    assert_eq!(p.dispatch(&ws[5]), Dispatch::Retry(20));
    assert_eq!(p.queued(), 2);
    assert_eq!(p.usage().cpu, 70);
    assert_eq!(p.finish(&ws[0]), cpu(0));
    assert_eq!(p.usage().tasks_done, 1);
    assert_eq!(p.dispatch(&ws[5]), Dispatch::Run(cpu(2)));
    assert_eq!(p.dispatch(&ws[0]), Dispatch::Run(io(3)));
    assert_eq!(p.usage().cpu, 80);
    assert!(p.usage().cpu <= MAX_CPU);
}

#[test]
fn fifo_finish_undoes_start() {
    let mut p = TaskPool::new();
    p.add(cpu(0));
    let w = Worker::new(4);
    let before = p.usage();
    let d = p.dispatch(&w);
    assert_eq!(d, Dispatch::Run(cpu(0)));
    assert_eq!(p.running(TaskType::CPU), 1);
    assert_eq!(p.task_of(4), Some(cpu(0)));
    assert_eq!(p.finish(&w), cpu(0));
    let after = p.usage();
    assert_eq!((after.cpu, after.workers), (before.cpu, before.workers));
    assert_eq!(after.tasks_done, before.tasks_done + 1);
    assert_eq!(p.running(TaskType::CPU), 0);
    assert_eq!(p.task_of(4), None);
}

#[test]
fn fifo_idles_then_stops() {
    let mut p = TaskPool::new();
    let mut w = Worker::new(4);
    assert_eq!(p.dispatch(&w), Dispatch::Idle(10));
    p.add(io(0));
    w.observe(Poll::Received(-1));
    // Done queuing, but a task still waits: it is run first.
    assert_eq!(p.dispatch(&w), Dispatch::Run(io(0)));
    p.finish(&w);
    assert_eq!(p.dispatch(&w), Dispatch::Stop);
}

#[test]
fn fifo_eight_workers_run_at_most_eight_tasks() {
    let mut p = TaskPool::new();
    for i in 0..12 {
        p.add(io(i));
    }
    let ws = workers();
    for i in 0..MAX_WORKERS {
        assert_eq!(p.dispatch(&ws[i as usize]), Dispatch::Run(io(i)));
    }
    let u = p.usage();
    assert_eq!((u.cpu, u.workers), (80, MAX_WORKERS));
    assert_eq!(p.queued(), 4);
    p.finish(&ws[3]);
    assert_eq!(p.dispatch(&ws[3]), Dispatch::Run(io(8)));
    assert_eq!(p.usage().workers, MAX_WORKERS);
}

#[test]
fn optimized_new_pool_is_empty() {
    let p = TaskPool1::new();
    let u = p.usage();
    assert_eq!((u.cpu, u.workers, u.tasks_done), (0, 0, 0));
    assert_eq!(p.queued(), 0);
    assert_eq!(p.task_of(7), None);
}

#[test]
fn optimized_prefers_cpu_tasks() {
    let mut p = TaskPool1::new();
    p.add(io(0));
    p.add(io(1));
    p.add(cpu(2));
    p.add(cpu(3));
    p.add(cpu(4));
    let ws = workers();
    assert_eq!(p.dispatch(&ws[0]), Dispatch::Run(cpu(2)));
    assert_eq!(p.dispatch(&ws[1]), Dispatch::Run(cpu(3)));
    // Two CPU tasks run: now IO tasks, in order.
    assert_eq!(p.dispatch(&ws[2]), Dispatch::Run(io(0)));
    assert_eq!(p.dispatch(&ws[3]), Dispatch::Run(io(1)));
    // A third CPU task waits, two run: nothing more to take.
    assert_eq!(p.dispatch(&ws[4]), Dispatch::Idle(10));
    assert_eq!(p.running(TaskType::CPU), 2);
    assert_eq!(p.running(TaskType::IO), 2);
    assert_eq!(p.finish(&ws[0]), cpu(2));
    assert_eq!(p.dispatch(&ws[4]), Dispatch::Run(cpu(4)));
}

#[test]
fn optimized_caps_io_while_cpu_around() {
    let mut p = TaskPool1::new();
    p.add(cpu(0));
    p.add(cpu(1));
    for i in 2..7 {
        p.add(io(i));
    }
    let ws = workers();
    assert_eq!(p.dispatch(&ws[0]), Dispatch::Run(cpu(0)));
    assert_eq!(p.dispatch(&ws[1]), Dispatch::Run(cpu(1)));
    assert_eq!(p.dispatch(&ws[2]), Dispatch::Run(io(2)));
    assert_eq!(p.dispatch(&ws[3]), Dispatch::Run(io(3)));
    assert_eq!(p.dispatch(&ws[4]), Dispatch::Run(io(4)));
    // Three IO tasks and CPU tasks run: the fourth IO task waits.
    assert_eq!(p.dispatch(&ws[5]), Dispatch::Idle(10));
    p.finish(&ws[0]);
    assert_eq!(p.dispatch(&ws[5]), Dispatch::Idle(10));
    p.finish(&ws[1]);
    // No CPU task waits or runs any more: more IO tasks may start.
    assert_eq!(p.dispatch(&ws[5]), Dispatch::Run(io(5)));
    assert_eq!(p.dispatch(&ws[0]), Dispatch::Run(io(6)));
    let u = p.usage();
    assert_eq!((u.cpu, u.workers, u.tasks_done), (50, 5, 2));
}

#[test]
fn optimized_backs_off_when_cpu_task_does_not_fit() {
    let mut p = TaskPool1::new();
    for i in 0..7 {
        p.add(io(i));
    }
    let ws = workers();
    for i in 0..7 {
        assert_eq!(p.dispatch(&ws[i as usize]), Dispatch::Run(io(i)));
    }
    p.add(cpu(7));
    assert_eq!(p.dispatch(&ws[7]), Dispatch::Retry(28));
    assert_eq!(p.queued(), 1);
    assert_eq!(p.finish(&ws[0]), io(0));
    assert_eq!(p.dispatch(&ws[7]), Dispatch::Run(cpu(7)));
    assert_eq!(p.usage().cpu, 95);
    assert_eq!(p.usage().workers, 7);
}

#[test]
fn optimized_stops_only_when_both_queues_empty() {
    let mut p = TaskPool1::new();
    let mut w = Worker::new(1);
    w.observe(Poll::Received(-1));
    p.add(io(0));
    assert_eq!(p.dispatch(&w), Dispatch::Run(io(0)));
    p.finish(&w);
    assert_eq!(p.dispatch(&w), Dispatch::Stop);
    let fresh = Worker::new(1);
    assert_eq!(p.dispatch(&fresh), Dispatch::Idle(10));
    assert_eq!(p.submitted(), 1);
}
