//! The interaction state the application loop mutates.

use crate::buffer::Buffer;
use crate::cursor::Cursor;
use vstd::prelude::*;

verus! {

/// The state used throughout the application: one buffer and the exit
/// flag. The exit flag only ever moves from `false` to `true`; it is
/// never reset.
#[derive(Debug)]
pub struct State {
    pub test_buffer: Buffer,

    /// Exit state.
    pub exit: bool,
}

impl Default for State {
    /// A fresh state: an empty buffer, not exiting.
    fn default() -> (s: Self)
        ensures
            !s.exit,
            s.test_buffer.content@ == Seq::<char>::empty(),
            s.test_buffer.line_count == 0,
            s.test_buffer.cursor == (Cursor { col: 0, line: 0 }),
            s.test_buffer.wf(),
    {
        Self { test_buffer: Buffer::new(), exit: false }
    }
}

impl State {
    /// A fresh state around an already loaded buffer, not exiting.
    /// Loading the buffer happens before this point; a failed load
    /// never reaches it.
    pub fn new(test_buffer: Buffer) -> (s: Self)
        ensures
            s.test_buffer == test_buffer,
            !s.exit,
    {
        Self { test_buffer, exit: false }
    }
}

} // verus!
