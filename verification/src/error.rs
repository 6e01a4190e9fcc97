use vstd::prelude::*;

verus! {

/// What can go wrong in a round of the batch engine.
#[derive(Clone, Copy, Debug, PartialEq, Eq, Structural)]
pub enum BatchError {
    /// The action submitted for `slot_index` is not in the action space.
    InvalidAction { slot_index: usize, action: i32 },
    /// An operation of the simulator in `slot_index` failed.
    SlotFault { slot_index: usize },
    /// Work was submitted after the engine had been shut down.
    PoolClosed,
    /// The batch of actions does not hold one action per slot.
    ShapeMismatch { expected: usize, actual: usize },
    /// A bounded wait for a round's reports ran out.
    Timeout,
}

} // verus!
