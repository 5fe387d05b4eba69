//! The text buffer: loaded content, its derived line count, and an
//! embedded cursor.

use crate::cursor::Cursor;
use vstd::prelude::*;
use vstd::string::StrSliceExecFns;

verus! {

/// The number of line breaks in a text: how many newline characters
/// it holds. Splitting the text by newlines yields exactly one more
/// piece than this.
pub open spec fn line_breaks(s: Seq<char>) -> nat
    decreases s.len(),
{
    if s.len() == 0 {
        0
    } else {
        line_breaks(s.drop_last()) + if s.last() == '\n' {
            1nat
        } else {
            0nat
        }
    }
}

/// Counts the line breaks of a text.
pub fn count_line_breaks(s: &str) -> (n: usize)
    ensures
        n == line_breaks(s@),
{
    let len = s.unicode_len();
    let mut n: usize = 0;
    let mut i: usize = 0;
    while i < len
        invariant
            i <= len,
            n <= i,
            len == s@.len(),
            n == line_breaks(s@.take(i as int)),
        decreases len - i,
    {
        let c = s.get_char(i);
        proof {
            assert(s@.take(i + 1 as int).drop_last() =~= s@.take(i as int));
            assert(s@.take(i + 1 as int).last() == s@[i as int]);
        }
        if c == '\n' {
            n = n + 1;
        }
        i = i + 1;
    }
    proof {
        assert(s@.take(len as int) =~= s@);
    }
    n
}

/// A text buffer.
///
/// The line count is computed once, when the content is loaded, and
/// is not incrementally maintained: mutating the content through
/// `content_mut` afterwards leaves it stale, and nothing in this core
/// does so.
#[derive(Debug)]
pub struct Buffer {
    /// Buffer cursor.
    pub cursor: Cursor,

    /// Buffer text content.
    pub content: String,

    /// The line count of the content: the number of line breaks, so
    /// it starts at 0 for an empty text.
    pub line_count: usize,
}

impl Buffer {
    /// The buffer's line count matches its content.
    pub open spec fn wf(self) -> bool {
        self.line_count == line_breaks(self.content@)
    }
}

impl Default for Buffer {
    /// An empty buffer: no content, no line breaks, cursor at the
    /// origin.
    fn default() -> (b: Self)
        ensures
            b.content@ == Seq::<char>::empty(),
            b.line_count == 0,
            b.cursor == (Cursor { col: 0, line: 0 }),
            b.wf(),
    {
        Self { cursor: Cursor::new(), content: String::new(), line_count: 0 }
    }
}

impl Buffer {
    /// Creates an empty buffer.
    pub fn new() -> (b: Self)
        ensures
            b.content@ == Seq::<char>::empty(),
            b.line_count == 0,
            b.cursor == (Cursor { col: 0, line: 0 }),
            b.wf(),
    {
        Self::default()
    }

    /// Creates a buffer from loaded text: the content is stored
    /// whole, the line count is derived from it once, and the cursor
    /// starts at the origin. Construction from text cannot fail; a
    /// failed file read must abort before this point, so no partially
    /// constructed buffer ever exists.
    pub fn from_content(content: String) -> (b: Self)
        ensures
            b.content == content,
            b.line_count == line_breaks(content@),
            b.cursor == (Cursor { col: 0, line: 0 }),
            b.wf(),
    {
        let line_count = count_line_breaks(content.as_str());
        Self { cursor: Cursor::new(), content, line_count }
    }

    /// Gets a reference to this buffer's cursor.
    pub fn cursor(&self) -> (c: &Cursor)
        ensures
            *c == self.cursor,
    {
        &self.cursor
    }

    /// Gets a mutable reference to this buffer's cursor.
    pub fn cursor_mut(&mut self) -> (c: &mut Cursor)
        ensures
            *c == old(self).cursor,
            final(self).cursor == *final(c),
            final(self).content == old(self).content,
            final(self).line_count == old(self).line_count,
    {
        &mut self.cursor
    }

    /// Gets a reference to this buffer's content.
    pub fn content(&self) -> (c: &String)
        ensures
            *c == self.content,
    {
        &self.content
    }

    /// Gets a mutable reference to this buffer's content. The stored
    /// line count is not recomputed on mutation.
    pub fn content_mut(&mut self) -> (c: &mut String)
        ensures
            *c == old(self).content,
            final(self).content == *final(c),
            final(self).cursor == old(self).cursor,
            final(self).line_count == old(self).line_count,
    {
        &mut self.content
    }

    /// Gets the line count of the content of this buffer.
    pub fn line_count(&self) -> (n: usize)
        ensures
            n == self.line_count,
    {
        self.line_count
    }

    /// Gets a mutable reference to the line count of this buffer.
    pub fn line_count_mut(&mut self) -> (n: &mut usize)
        ensures
            *n == old(self).line_count,
            final(self).line_count == *final(n),
            final(self).cursor == old(self).cursor,
            final(self).content == old(self).content,
    {
        &mut self.line_count
    }
}

} // verus!
