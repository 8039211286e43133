use vstd::prelude::*;

verus! {

/// Which pool a run uses.
#[derive(Clone, Copy, Debug, PartialEq, Eq, Structural)]
pub enum Mode {
    /// One queue, served strictly first come, first served.
    Fifo,
    /// Separate queues for CPU-bound and IO-bound tasks, mixed on dispatch.
    Optimized,
}

impl Mode {
    /// The mode chosen by the number typed at the menu: 1 for the
    /// first-come, first-served pool, 2 for the optimized one, and none for
    /// any other number.
    pub fn from_choice(choice: i32) -> (m: Option<Mode>)
        ensures
            choice == 1 ==> m == Some(Mode::Fifo),
            choice == 2 ==> m == Some(Mode::Optimized),
            choice != 1 && choice != 2 ==> m is None,
    {
        if choice == 1 {
            Some(Mode::Fifo)
        } else if choice == 2 {
            Some(Mode::Optimized)
        } else {
            None
        }
    }
}

} // verus!
