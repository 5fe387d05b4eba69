//! Event-driven runtime core of a terminal text viewer.
//!
//! The library holds the verified heart of the application: the cursor
//! arithmetic, the text buffer with its derived line count, the event
//! queue with its FIFO delivery guarantee, the terminal session guard
//! with its idempotent release, and the application loop's transition
//! function. The asynchronous wiring (timer, input stream, drawing)
//! lives outside, feeding plain events into these functions.

pub mod buffer;
pub mod cursor;
pub mod event;
pub mod guard;
pub mod state;
pub mod torm;

use vstd::prelude::*;

verus! {

/// Errors the runtime core can report.
#[derive(Debug, Clone, Copy, PartialEq, Eq, Structural)]
pub enum TormError {
    /// The event queue's producer side is gone and no events remain:
    /// the consumer can never be woken again.
    QueueClosed,
}

} // verus!
