//! Events, the input-normalization rules of the event source
//! multiplexer, and the FIFO event queue.

use crate::TormError;
use std::collections::VecDeque;
use vstd::prelude::*;

verus! {

/// A mouse button.
#[derive(Debug, Clone, Copy, PartialEq, Eq, Structural)]
pub enum MouseButton {
    Left,
    Right,
    Middle,
}

/// The modifier keys held during a key press.
#[derive(Debug, Clone, Copy, PartialEq, Eq, Structural)]
pub struct Modifiers {
    pub shift: bool,
    pub control: bool,
    pub alt: bool,
}

/// A key code, reduced to the keys the application distinguishes.
/// Every key that is neither the escape key, an arrow key nor a
/// printable character arrives as `Other`.
#[derive(Debug, Clone, Copy, PartialEq, Eq, Structural)]
pub enum Key {
    Esc,
    Up,
    Down,
    Left,
    Right,
    Char(char),
    Other,
}

/// An application event: the closed set of variants the queue conveys.
#[derive(Debug, Clone, Copy, PartialEq, Eq, Structural)]
pub enum TormEvent {
    /// Terminal render / update, emitted on the configured interval.
    Tick,

    /// Keyboard press, carrying the key code and its modifiers.
    KeyPress { code: Key, modifiers: Modifiers },

    /// Mouse button pressed down, carrying where and which button.
    MouseClick { column: u16, row: u16, button: MouseButton },
}

/// The phase of a physical key event.
#[derive(Debug, Clone, Copy, PartialEq, Eq, Structural)]
pub enum KeyPhase {
    Press,
    Repeat,
    Release,
}

/// The phase of a raw mouse event.
#[derive(Debug, Clone, Copy, PartialEq, Eq, Structural)]
pub enum MousePhase {
    Down(MouseButton),
    Up(MouseButton),
    Drag(MouseButton),
    Moved,
    Scroll,
}

/// A raw terminal input, as the OS input stream reports it.
#[derive(Debug, Clone, Copy, PartialEq, Eq, Structural)]
pub enum RawInput {
    Key { code: Key, modifiers: Modifiers, phase: KeyPhase },
    Mouse { phase: MousePhase, column: u16, row: u16 },
    Resize { columns: u16, rows: u16 },
    Other,
}

/// The multiplexer's filter: which raw inputs become events.
///
/// Only the pressed phase of a key and the button-down phase of a
/// mouse event are forwarded; key repeats and releases, mouse motion
/// and button-up, resizes and everything else are silently dropped.
pub open spec fn spec_normalize(raw: RawInput) -> Option<TormEvent> {
    match raw {
        RawInput::Key { code, modifiers, phase } => {
            if phase == KeyPhase::Press {
                Some(TormEvent::KeyPress { code, modifiers })
            } else {
                None
            }
        },
        RawInput::Mouse { phase, column, row } => match phase {
            MousePhase::Down(button) => Some(TormEvent::MouseClick { column, row, button }),
            _ => None,
        },
        RawInput::Resize { .. } => None,
        RawInput::Other => None,
    }
}

/// Normalizes one raw terminal input into at most one event.
pub fn normalize(raw: RawInput) -> (e: Option<TormEvent>)
    ensures
        e == spec_normalize(raw),
{
    match raw {
        RawInput::Key { code, modifiers, phase } => {
            if phase == KeyPhase::Press {
                Some(TormEvent::KeyPress { code, modifiers })
            } else {
                None
            }
        },
        RawInput::Mouse { phase, column, row } => match phase {
            MousePhase::Down(button) => Some(TormEvent::MouseClick { column, row, button }),
            _ => None,
        },
        RawInput::Resize { .. } => None,
        RawInput::Other => None,
    }
}

/// The tick period in whole milliseconds for a frames-per-second
/// setting: one second divided by the rate, truncated. A rate of zero
/// is a programming error, not a recoverable one.
pub fn tick_interval_millis(fps: u64) -> (ms: u64)
    requires
        fps > 0,
    ensures
        ms == 1000u64 / fps,
{
    1000 / fps
}

/// The ordered, unbounded, single-consumer event queue connecting the
/// event source multiplexer to the application loop.
///
/// `pending` holds the sent-but-not-yet-received events, oldest first.
/// `closed` records that the producer side is gone; closing the queue
/// is the sole cancellation signal, and events sent before the close
/// can still be drained after it.
pub struct EventQueue {
    pub pending: VecDeque<TormEvent>,
    pub closed: bool,
}

/// The pending sequence after a whole burst of sends, oldest first.
pub open spec fn spec_after_sends(pending: Seq<TormEvent>, sent: Seq<TormEvent>) -> Seq<TormEvent>
    decreases sent.len(),
{
    if sent.len() == 0 {
        pending
    } else {
        spec_after_sends(pending.push(sent[0]), sent.drop_first())
    }
}

/// FIFO delivery: however a burst of sends is interleaved with what
/// was already pending, the queue afterwards holds the old events and
/// then the new ones, each group in its send order — and since
/// `next` always takes the front, the consumer observes every event
/// in exactly the order it was sent. Starting from an empty queue the
/// pending sequence is the sent sequence itself.
pub proof fn lemma_fifo_delivery(pending: Seq<TormEvent>, sent: Seq<TormEvent>)
    ensures
        spec_after_sends(pending, sent) == pending + sent,
        spec_after_sends(Seq::<TormEvent>::empty(), sent) == sent,
    decreases sent.len(),
{
    if sent.len() == 0 {
        assert(spec_after_sends(pending, sent) =~= pending + sent);
        assert(spec_after_sends(Seq::<TormEvent>::empty(), sent) =~= sent);
    } else {
        lemma_fifo_delivery(pending.push(sent[0]), sent.drop_first());
        assert(pending.push(sent[0]) + sent.drop_first() =~= pending + sent);
        lemma_fifo_delivery(Seq::<TormEvent>::empty().push(sent[0]), sent.drop_first());
        assert(Seq::<TormEvent>::empty().push(sent[0]) + sent.drop_first() =~= sent);
    }
}

impl EventQueue {
    /// Creates an empty, open queue.
    pub fn new() -> (q: EventQueue)
        ensures
            q.pending@ == Seq::<TormEvent>::empty(),
            !q.closed,
    {
        EventQueue { pending: VecDeque::new(), closed: false }
    }

    /// How many events are pending.
    pub fn len(&self) -> (n: usize)
        ensures
            n == self.pending@.len(),
    {
        self.pending.len()
    }

    /// Whether the producer side is gone.
    pub fn is_closed(&self) -> (c: bool)
        ensures
            c == self.closed,
    {
        self.closed
    }

    /// Sends one event: appended at the back, never blocking, never
    /// failing while the queue is open. On a closed queue nothing
    /// changes and the send reports failure.
    pub fn send(&mut self, event: TormEvent) -> (ok: bool)
        ensures
            !old(self).closed ==> {
                &&& ok
                &&& final(self).pending@ == old(self).pending@.push(event)
                &&& !final(self).closed
            },
            old(self).closed ==> !ok && *final(self) == *old(self),
    {
        if self.closed {
            false
        } else {
            self.pending.push_back(event);
            true
        }
    }

    /// Closes the queue: the cancellation signal. Events already
    /// pending stay and can still be received.
    pub fn close(&mut self)
        ensures
            final(self).closed,
            final(self).pending@ == old(self).pending@,
    {
        self.closed = true;
    }

    /// Receives the next event, in the order sent.
    ///
    /// The consumer resumes only once an event is pending or the queue
    /// is closed, which the precondition records. With an event
    /// pending, the front one — the oldest — is handed out; on a
    /// drained, closed queue the end-of-stream condition is reported
    /// as an error.
    pub fn next(&mut self) -> (r: Result<TormEvent, TormError>)
        requires
            old(self).pending@.len() > 0 || old(self).closed,
        ensures
            old(self).pending@.len() > 0 ==> {
                &&& r == Ok::<TormEvent, TormError>(old(self).pending@[0])
                &&& final(self).pending@ == old(self).pending@.drop_first()
                &&& final(self).closed == old(self).closed
            },
            old(self).pending@.len() == 0 ==> {
                &&& r == Err::<TormEvent, TormError>(TormError::QueueClosed)
                &&& *final(self) == *old(self)
            },
    {
        if self.pending.len() == 0 {
            Err(TormError::QueueClosed)
        } else {
            match self.pending.pop_front() {
                Some(event) => {
                    proof {
                        assert(self.pending@ =~= old(self).pending@.drop_first());
                    }
                    Ok(event)
                },
                None => Err(TormError::QueueClosed),
            }
        }
    }
}

} // verus!
