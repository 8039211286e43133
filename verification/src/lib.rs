//! A concurrent task dispatcher: a pool of workers draws IO-bound and
//! CPU-bound tasks from a queue under a shared CPU budget.
//!
//! The library holds the dispatcher's decisions and its bookkeeping, each
//! with a contract: what a worker does on a signal from the producer, which
//! task a pool hands to a worker and what it charges for it, how a finished
//! task gives its share back, how the producer picks the kind of each task,
//! and what the monitor accumulates. Threads, locks, channels, sleeping and
//! printing are left to the program around it.
pub mod task;
pub mod worker;
pub mod slots;
pub mod fifo;
pub mod balanced;
pub mod monitor;
pub mod producer;
pub mod mode;
