//! Outcomes of the polls that the drivers of this crate's state machines make.

use vstd::prelude::*;

verus! {

/// What polling a future or a service's readiness gave.
#[derive(Clone, Copy, Debug, PartialEq, Eq, Structural)]
pub enum Progress {
    /// Not finished yet; the task will be notified.
    NotReady,
    /// Finished successfully (for a future, with its item).
    Ready,
    /// Finished with an error.
    Failed,
}

/// What polling the receiving end of a channel gave.
#[derive(Clone, Copy, Debug, PartialEq, Eq, Structural)]
pub enum Recv {
    /// No message yet.
    Empty,
    /// A message arrived.
    Item,
    /// Every sender is gone (or the channel failed): no message will come.
    Closed,
}

} // verus!
