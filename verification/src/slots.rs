use vstd::prelude::*;
use crate::task::{Task, TaskType, MAX_WORKERS};

verus! {

/// 1 when `slot` holds a task of kind `kind`, 0 otherwise.
pub open spec fn holds(slot: Option<Task>, kind: TaskType) -> int {
    match slot {
        Some(t) => if t.task == kind { 1int } else { 0int },
        None => 0int,
    }
}

/// How many of the workers' slots hold a task of kind `kind`.
pub open spec fn count_kind(slots: Seq<Option<Task>>, kind: TaskType) -> int
    decreases slots.len(),
{
    if slots.len() == 0 {
        0
    } else {
        count_kind(slots.drop_last(), kind) + holds(slots.last(), kind)
    }
}

/// Every slot is empty: no worker holds a task.
pub open spec fn all_idle(slots: Seq<Option<Task>>) -> bool {
    forall|i: int| 0 <= i < slots.len() ==> (#[trigger] slots[i]) is None
}

/// The counts of CPU-bound and IO-bound tasks held are non-negative and
/// together at most the number of slots: one task per worker.
pub proof fn lemma_count_bounds(slots: Seq<Option<Task>>)
    ensures
        0 <= count_kind(slots, TaskType::CPU),
        0 <= count_kind(slots, TaskType::IO),
        count_kind(slots, TaskType::CPU) + count_kind(slots, TaskType::IO) <= slots.len(),
    decreases slots.len(),
{
    if slots.len() > 0 {
        lemma_count_bounds(slots.drop_last());
    }
}

/// Slots that are all empty hold no task of either kind.
pub proof fn lemma_count_idle(slots: Seq<Option<Task>>)
    requires
        all_idle(slots),
    ensures
        count_kind(slots, TaskType::CPU) == 0,
        count_kind(slots, TaskType::IO) == 0,
    decreases slots.len(),
{
    if slots.len() > 0 {
        let prefix = slots.drop_last();
        assert forall|i: int| 0 <= i < prefix.len() implies (#[trigger] prefix[i]) is None by {
            assert(prefix[i] == slots[i]);
        }
        lemma_count_idle(prefix);
        assert(slots.last() == slots[slots.len() - 1]);
    }
}

/// Replacing one slot changes each count by what the slot held before and
/// holds after.
pub proof fn lemma_count_update(slots: Seq<Option<Task>>, i: int, slot: Option<Task>, kind: TaskType)
    requires
        0 <= i < slots.len(),
    ensures
        count_kind(slots.update(i, slot), kind) == count_kind(slots, kind) - holds(slots[i], kind)
            + holds(slot, kind),
    decreases slots.len(),
{
    let updated = slots.update(i, slot);
    if i == slots.len() - 1 {
        assert(updated.drop_last() =~= slots.drop_last());
    } else {
        assert(updated.drop_last() =~= slots.drop_last().update(i, slot));
        lemma_count_update(slots.drop_last(), i, slot, kind);
    }
}

/// One empty slot for each of the `MAX_WORKERS` workers.
pub fn idle_slots() -> (slots: Vec<Option<Task>>)
    ensures
        slots@.len() == MAX_WORKERS,
        all_idle(slots@),
{
    let mut slots: Vec<Option<Task>> = Vec::new();
    let mut i: i32 = 0;
    while i < MAX_WORKERS
        invariant
            0 <= i <= MAX_WORKERS,
            slots@.len() == i,
            all_idle(slots@),
        decreases MAX_WORKERS - i,
    {
        slots.push(None);
        i = i + 1;
    }
    slots
}

} // verus!
