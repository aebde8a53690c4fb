//! Verified core of a proxy's service stack: request buffering, routing with a
//! bounded route table, pre-emptive (hedged) retries over a rotating latency
//! window, and the stack combinators that assemble services per target.
//!
//! The futures and channels that carry requests live with the caller; this
//! crate decides what each step of those futures does.

pub mod buffer;
pub mod clock;
pub mod hedge;
pub mod progress;
pub mod router;
pub mod stack;
pub mod tower_fn;
