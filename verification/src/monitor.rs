use vstd::prelude::*;
use crate::task::{IO_CONSUMPTION, MAX_CPU, MAX_WORKERS};

verus! {

/// How often the monitor samples the pool, in milliseconds.
pub const SAMPLE_INTERVAL_MS: u64 = 10;

/// A snapshot of a pool: the CPU share in use, the busy workers and the
/// tasks finished so far.
#[derive(Clone, Copy, Debug, PartialEq, Eq, Structural)]
pub struct Usage {
    pub cpu: i32,
    pub workers: i32,
    pub tasks_done: i32,
}

impl Usage {
    /// What every snapshot of a pool satisfies: the share is within the
    /// budget, at most `MAX_WORKERS` workers are busy, and each busy worker
    /// holds at least the share of an IO-bound task.
    pub open spec fn wf(&self) -> bool {
        &&& 0 <= self.cpu <= MAX_CPU
        &&& 0 <= self.workers <= MAX_WORKERS
        &&& IO_CONSUMPTION * self.workers <= self.cpu
        &&& 0 <= self.tasks_done
    }
}

/// The sum of the CPU shares of the snapshots in `s`.
pub open spec fn cpu_sum(s: Seq<Usage>) -> int
    decreases s.len(),
{
    if s.len() == 0 {
        0
    } else {
        cpu_sum(s.drop_last()) + s.last().cpu
    }
}

/// The sum of the busy workers of the snapshots in `s`.
pub open spec fn workers_sum(s: Seq<Usage>) -> int
    decreases s.len(),
{
    if s.len() == 0 {
        0
    } else {
        workers_sum(s.drop_last()) + s.last().workers
    }
}

/// The monitor's totals never exceed what the snapshots allow: the CPU
/// total is at most `MAX_CPU` per snapshot and the worker total at most
/// `MAX_WORKERS` per snapshot, so the averages lie within those limits.
pub proof fn lemma_totals_bounded(s: Seq<Usage>)
    requires
        forall|i: int| 0 <= i < s.len() ==> (#[trigger] s[i]).wf(),
    ensures
        0 <= cpu_sum(s) <= MAX_CPU * s.len(),
        0 <= workers_sum(s) <= MAX_WORKERS * s.len(),
    decreases s.len(),
{
    if s.len() > 0 {
        let prefix = s.drop_last();
        assert forall|i: int| 0 <= i < prefix.len() implies (#[trigger] prefix[i]).wf() by {
            assert(prefix[i] == s[i]);
        }
        lemma_totals_bounded(prefix);
        assert(s.last() == s[s.len() - 1]);
    }
}

/// The monitor's record of a run: every snapshot it took, summed up.
pub struct Monitor {
    cpu_total: u64,
    worker_total: u64,
    samples: u64,
    time_ms: u64,
    taken: Ghost<Seq<Usage>>,
}

impl View for Monitor {
    type V = Seq<Usage>;

    /// The snapshots recorded so far, oldest first.
    closed spec fn view(&self) -> Seq<Usage> {
        self.taken@
    }
}

impl Monitor {
    /// The totals agree with the snapshots recorded.
    pub closed spec fn wf(&self) -> bool {
        &&& forall|i: int| 0 <= i < self.taken@.len() ==> (#[trigger] self.taken@[i]).wf()
        &&& self.taken@.len() <= u32::MAX
        &&& self.samples == self.taken@.len()
        &&& self.cpu_total == cpu_sum(self.taken@)
        &&& self.worker_total == workers_sum(self.taken@)
        &&& self.time_ms == SAMPLE_INTERVAL_MS * self.taken@.len()
    }

    /// A monitor that has recorded nothing, at time zero.
    pub fn new() -> (m: Monitor)
        ensures
            m.wf(),
            m@ == Seq::<Usage>::empty(),
    {
        Monitor { cpu_total: 0, worker_total: 0, samples: 0, time_ms: 0, taken: Ghost(Seq::empty()) }
    }

    /// Records one snapshot and returns the time it is stamped with: the
    /// sampling interval times the number of snapshots taken before it.
    pub fn record(&mut self, usage: Usage) -> (stamp: u64)
        requires
            old(self).wf(),
            usage.wf(),
            old(self)@.len() < u32::MAX,
        ensures
            final(self).wf(),
            final(self)@ == old(self)@.push(usage),
            stamp == SAMPLE_INTERVAL_MS * old(self)@.len(),
    {
        let stamp = self.time_ms;
        proof {
            lemma_totals_bounded(self.taken@);
        }
        self.cpu_total = self.cpu_total + usage.cpu as u64;
        self.worker_total = self.worker_total + usage.workers as u64;
        self.samples = self.samples + 1;
        self.time_ms = self.time_ms + SAMPLE_INTERVAL_MS;
        proof {
            let before = self.taken@;
            self.taken = Ghost(before.push(usage));
            assert(self.taken@.drop_last() =~= before);
        }
        stamp
    }

    /// The number of snapshots recorded.
    pub fn samples(&self) -> (n: u64)
        requires
            self.wf(),
        ensures
            n == self@.len(),
    {
        self.samples
    }

    /// The sum of the CPU shares recorded.
    pub fn cpu_total(&self) -> (n: u64)
        requires
            self.wf(),
        ensures
            n == cpu_sum(self@),
    {
        self.cpu_total
    }

    /// The sum of the busy workers recorded.
    pub fn worker_total(&self) -> (n: u64)
        requires
            self.wf(),
        ensures
            n == workers_sum(self@),
    {
        self.worker_total
    }
}

} // verus!
