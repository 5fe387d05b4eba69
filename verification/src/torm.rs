//! The application loop's transition function: from interaction state
//! and event to the next state and the action the outside world must
//! perform.

use crate::buffer::Buffer;
use crate::cursor::{Cursor, Direction, spec_move};
use crate::event::{Key, TormEvent};
use crate::guard::{TerminalGuard, spec_release};
use crate::state::State;
use vstd::prelude::*;

verus! {

/// What the application loop must do to the outside world after a
/// step: repaint, move the terminal's visible cursor, restore the
/// terminal, or nothing.
#[derive(Debug, Clone, Copy, PartialEq, Eq, Structural)]
pub enum Action {
    /// Draw the current state and show the cursor.
    Render,

    /// Move the terminal's visible cursor to these coordinates.
    PlaceCursor { col: u16, line: u16 },

    /// Perform the terminal restore now; the guard hands this out at
    /// most once.
    Restore,

    /// Nothing to do.
    Idle,
}

/// The fixed, non-configurable binding table from key to navigation
/// direction: each direction has its arrow key and one letter key.
pub open spec fn spec_key_direction(key: Key) -> Option<Direction> {
    match key {
        Key::Up | Key::Char('k') => Some(Direction::Up),
        Key::Down | Key::Char('j') => Some(Direction::Down),
        Key::Left | Key::Char('h') => Some(Direction::Left),
        Key::Right | Key::Char('l') => Some(Direction::Right),
        _ => None,
    }
}

/// Looks a key up in the navigation binding table.
pub fn key_direction(key: Key) -> (d: Option<Direction>)
    ensures
        d == spec_key_direction(key),
{
    match key {
        Key::Up | Key::Char('k') => Some(Direction::Up),
        Key::Down | Key::Char('j') => Some(Direction::Down),
        Key::Left | Key::Char('h') => Some(Direction::Left),
        Key::Right | Key::Char('l') => Some(Direction::Right),
        _ => None,
    }
}

/// The application core: the interaction state together with the
/// terminal session guard. The terminal handle itself and the event
/// plumbing live with the caller, which performs each returned
/// [`Action`].
#[derive(Debug)]
pub struct Torm {
    /// Interaction state.
    pub state: State,

    /// Terminal session guard.
    pub guard: TerminalGuard,
}

/// When a step is free of overflow: moving down or right is only
/// allowed while the coordinate is below `u16::MAX`, the one machine
/// limit on the otherwise unbounded cursor. A step on an exited core
/// touches nothing and is always allowed.
pub open spec fn step_enabled(s: Torm, event: TormEvent) -> bool {
    s.state.exit || match event {
        TormEvent::KeyPress { code, .. } => match spec_key_direction(code) {
            Some(Direction::Down) => s.state.test_buffer.cursor.line < u16::MAX,
            Some(Direction::Right) => s.state.test_buffer.cursor.col < u16::MAX,
            _ => true,
        },
        _ => true,
    }
}

/// The whole transition table of the application loop.
///
/// Once exited, every event leaves the core untouched and asks for
/// nothing. While running: a tick asks for a render; the escape key
/// releases the session guard, asks for the restore exactly when one
/// was still owed, and sets the exit flag; a navigation key moves the
/// cursor one unit and asks the terminal cursor to follow; every
/// other key and every mouse click changes nothing.
pub open spec fn spec_step(s: Torm, event: TormEvent) -> (Torm, Action) {
    if s.state.exit {
        (s, Action::Idle)
    } else {
        match event {
            TormEvent::Tick => (s, Action::Render),
            TormEvent::KeyPress { code, .. } => {
                if code == Key::Esc {
                    (
                        Torm {
                            state: State { test_buffer: s.state.test_buffer, exit: true },
                            guard: spec_release(s.guard),
                        },
                        if s.guard.engaged {
                            Action::Restore
                        } else {
                            Action::Idle
                        },
                    )
                } else {
                    match spec_key_direction(code) {
                        Some(d) => {
                            let c = spec_move(s.state.test_buffer.cursor, d);
                            (
                                Torm {
                                    state: State {
                                        test_buffer: Buffer {
                                            cursor: c,
                                            content: s.state.test_buffer.content,
                                            line_count: s.state.test_buffer.line_count,
                                        },
                                        exit: false,
                                    },
                                    guard: s.guard,
                                },
                                Action::PlaceCursor { col: c.col, line: c.line },
                            )
                        },
                        None => (s, Action::Idle),
                    }
                }
            },
            TormEvent::MouseClick { .. } => (s, Action::Idle),
        }
    }
}

/// Exit terminality: once the exit flag is set, a step mutates
/// nothing and dispatches no further action, whatever event arrives.
pub proof fn lemma_exit_is_terminal(s: Torm, event: TormEvent)
    requires
        s.state.exit,
    ensures
        spec_step(s, event) == (s, Action::Idle),
{
}

/// The exit flag is monotonic: no step ever clears it.
pub proof fn lemma_exit_monotonic(s: Torm, event: TormEvent)
    requires
        s.state.exit,
    ensures
        spec_step(s, event).0.state.exit,
{
}

impl Torm {
    /// Assembles the core around an already loaded state, taking
    /// ownership of the raw-terminal session. The caller has put the
    /// terminal into raw mode before this and owes a restore from
    /// here on.
    pub fn new(state: State) -> (t: Self)
        ensures
            t.state == state,
            t.guard.engaged,
    {
        Self { state, guard: TerminalGuard::acquire() }
    }

    /// Dispatches one event: mutates the state exactly as the
    /// transition table says and returns the action the caller must
    /// perform.
    pub fn step(&mut self, event: TormEvent) -> (a: Action)
        requires
            step_enabled(*old(self), event),
        ensures
            (*final(self), a) == spec_step(*old(self), event),
    {
        if self.state.exit {
            return Action::Idle;
        }
        match event {
            TormEvent::Tick => Action::Render,
            TormEvent::KeyPress { code, modifiers: _ } => {
                if code == Key::Esc {
                    let restore_now = self.guard.release();
                    self.state.exit = true;
                    if restore_now {
                        Action::Restore
                    } else {
                        Action::Idle
                    }
                } else {
                    match key_direction(code) {
                        Some(Direction::Up) => {
                            self.state.test_buffer.cursor.move_up(1);
                            let c = self.state.test_buffer.cursor;
                            Action::PlaceCursor { col: c.col, line: c.line }
                        },
                        Some(Direction::Down) => {
                            self.state.test_buffer.cursor.move_down(1);
                            let c = self.state.test_buffer.cursor;
                            Action::PlaceCursor { col: c.col, line: c.line }
                        },
                        Some(Direction::Left) => {
                            self.state.test_buffer.cursor.move_left(1);
                            let c = self.state.test_buffer.cursor;
                            Action::PlaceCursor { col: c.col, line: c.line }
                        },
                        Some(Direction::Right) => {
                            self.state.test_buffer.cursor.move_right(1);
                            let c = self.state.test_buffer.cursor;
                            Action::PlaceCursor { col: c.col, line: c.line }
                        },
                        None => Action::Idle,
                    }
                }
            },
            TormEvent::MouseClick { .. } => Action::Idle,
        }
    }
}

} // verus!
