# task_dispatcher

A concurrent task dispatcher: a producer queues IO-bound and CPU-bound tasks,
eight workers take them under a shared CPU budget of 100, and a monitor samples
the pool every 10 ms. Two pools are offered: `TaskPool`, which serves one queue
strictly first come, first served, and `TaskPool1`, which keeps the two kinds
apart and favours two CPU-bound tasks, then up to three IO-bound ones.

- `src/` is the verified library: the pools' dispatch and bookkeeping
  (`fifo.rs`, `balanced.rs`), the worker's reaction to the producer's signal
  (`worker.rs`), the producer's choice of task kinds (`producer.rs`, over the
  `rand` crate), the monitor's totals (`monitor.rs`) and the menu (`mode.rs`).
- `app/main.rs` is the program: it reads the menu choice, runs the threads,
  the channel and the locks, sleeps, and prints.
- `tests/` exercises the library on concrete runs.
