use task_dispatcher::mode::Mode;
use task_dispatcher::monitor::{Monitor, Usage};
use task_dispatcher::producer::{task_for_draw, Producer, PERCENT_IO, TOTAL_TASKS};
use task_dispatcher::task::TaskType;

#[test]
fn menu_choices() {
    assert_eq!(Mode::from_choice(1), Some(Mode::Fifo));
    assert_eq!(Mode::from_choice(2), Some(Mode::Optimized));
    assert_eq!(Mode::from_choice(3), None);
    assert_eq!(Mode::from_choice(0), None);
    assert_eq!(Mode::from_choice(-1), None);
}

#[test]
fn monitor_stamps_and_sums() {
    let mut m = Monitor::new();
    assert_eq!(m.samples(), 0);
    let a = Usage { cpu: 45, workers: 2, tasks_done: 0 };
    let b = Usage { cpu: 100, workers: 4, tasks_done: 3 };
    let c = Usage { cpu: 0, workers: 0, tasks_done: 9 };
    assert_eq!(m.record(a), 0);
    assert_eq!(m.record(b), 10);
    assert_eq!(m.record(c), 20);
    assert_eq!(m.samples(), 3);
    assert_eq!(m.cpu_total(), 145);
    assert_eq!(m.worker_total(), 6);
}

#[test]
fn draw_decides_kind() {
    let t = task_for_draw(7, 69, 70);
    assert_eq!(t.task, TaskType::IO);
    assert_eq!(t.id, 7);
    assert_eq!(task_for_draw(8, 70, 70).task, TaskType::CPU);
    assert_eq!(task_for_draw(9, 0, 70).task, TaskType::IO);
    assert_eq!(task_for_draw(10, 99, 70).task, TaskType::CPU);
    assert_eq!(task_for_draw(11, 0, 0).task, TaskType::CPU);
}

#[test]
fn producer_numbers_tasks_and_stops() {
    let mut p = Producer::new(5, 50);
    for i in 0..5 {
        let t = p.next_task().unwrap();
        assert_eq!(t.id, i);
    }
    assert_eq!(p.next_task(), None);
    assert_eq!(p.produced(), 5);
    assert_eq!(p.io_count() + p.cpu_count(), 5);
}

#[test]
fn producer_with_negative_total_makes_nothing() {
    let mut p = Producer::new(-3, 70);
    assert_eq!(p.next_task(), None);
    assert_eq!(p.produced(), 0);
}

#[test]
fn producer_share_extremes() {
    let mut all_io = Producer::new(50, 100);
    while let Some(t) = all_io.next_task() {
        assert_eq!(t.task, TaskType::IO);
    }
    assert_eq!(all_io.io_count(), 50);
    let mut all_cpu = Producer::new(50, 0);
    while let Some(t) = all_cpu.next_task() {
        assert_eq!(t.task, TaskType::CPU);
    }
    assert_eq!(all_cpu.cpu_count(), 50);
}

#[test]
fn producer_draws_both_kinds() {
    let mut p = Producer::new(TOTAL_TASKS, PERCENT_IO);
    while p.next_task().is_some() {}
    assert_eq!(p.produced(), 1000);
    let io = p.io_count();
    assert!(io > 550 && io < 850, "io count {}", io);
    assert_eq!(p.cpu_count(), 1000 - io);
}
