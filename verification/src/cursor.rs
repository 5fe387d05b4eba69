//! The cursor: two screen coordinates with clamped downward movement.

use ratatui::layout::Position;
use vstd::prelude::*;

verus! {

/// ratatui's screen position: a plain pair of public `u16`
/// coordinates, declared here so contracts can speak of its fields.
#[verifier::external_type_specification]
pub struct ExPosition(Position);

/// Relies on ratatui's `Position::new`, which stores exactly the two
/// coordinates it is given as `x` and `y`.
pub assume_specification[ Position::new ](x: u16, y: u16) -> (p: Position)
    ensures
        p.x == x,
        p.y == y,
;

/// A cursor in a buffer, as a pair of screen coordinates.
///
/// Neither counter can go below zero: a decrement that would do so is
/// a no-op, not a wrap or an error. No upper bound is enforced by the
/// type itself; the consuming renderer clamps to the viewport.
#[derive(Debug, Clone, Copy, PartialEq, Eq, Structural)]
pub struct Cursor {
    /// The current column of the cursor (a screen coordinate).
    pub col: u16,

    /// The current line of the cursor (a screen coordinate).
    pub line: u16,
}

/// The four directions a navigation key can map to.
#[derive(Debug, Clone, Copy, PartialEq, Eq, Structural)]
pub enum Direction {
    Up,
    Down,
    Left,
    Right,
}

/// What one `move_up` does to a cursor: the line drops by `count`,
/// unless that would go below zero, in which case nothing changes.
pub open spec fn spec_move_up(c: Cursor, count: u16) -> Cursor {
    if count <= c.line {
        Cursor { col: c.col, line: (c.line - count) as u16 }
    } else {
        c
    }
}

/// What one `move_left` does to a cursor: the column drops by `count`,
/// unless that would go below zero, in which case nothing changes.
pub open spec fn spec_move_left(c: Cursor, count: u16) -> Cursor {
    if count <= c.col {
        Cursor { col: (c.col - count) as u16, line: c.line }
    } else {
        c
    }
}

/// A single one-unit move in the given direction, with the same
/// clamping as the exec moves. Downward and rightward moves assume the
/// coordinate is below `u16::MAX`, as their exec counterparts require.
pub open spec fn spec_move(c: Cursor, d: Direction) -> Cursor {
    match d {
        Direction::Up => spec_move_up(c, 1),
        Direction::Down => Cursor { col: c.col, line: (c.line + 1) as u16 },
        Direction::Left => spec_move_left(c, 1),
        Direction::Right => Cursor { col: (c.col + 1) as u16, line: c.line },
    }
}

/// The cursor after a whole sequence of one-unit moves, first move first.
pub open spec fn spec_apply_moves(c: Cursor, moves: Seq<Direction>) -> Cursor
    decreases moves.len(),
{
    if moves.len() == 0 {
        c
    } else {
        spec_apply_moves(spec_move(c, moves[0]), moves.drop_first())
    }
}

/// Cursor clamping: however many up or left moves are applied to a
/// cursor at the origin, it stays exactly at the origin — the
/// coordinates never go below zero and never wrap.
pub proof fn lemma_up_left_moves_stay_at_origin(moves: Seq<Direction>)
    requires
        forall|i: int|
            0 <= i < moves.len() ==> moves[i] == Direction::Up || moves[i] == Direction::Left,
    ensures
        spec_apply_moves(Cursor { col: 0, line: 0 }, moves) == (Cursor { col: 0, line: 0 }),
    decreases moves.len(),
{
    if moves.len() > 0 {
        assert(moves[0] == Direction::Up || moves[0] == Direction::Left);
        assert(spec_move(Cursor { col: 0, line: 0 }, moves[0]) == (Cursor { col: 0, line: 0 }));
        assert(forall|i: int|
            0 <= i < moves.drop_first().len() ==> moves.drop_first()[i] == Direction::Up
                || moves.drop_first()[i] == Direction::Left);
        lemma_up_left_moves_stay_at_origin(moves.drop_first());
    }
}

impl Default for Cursor {
    /// A fresh cursor sits at the origin.
    fn default() -> (c: Self)
        ensures
            c == (Cursor { col: 0, line: 0 }),
    {
        Cursor { col: 0, line: 0 }
    }
}

impl Cursor {
    /// Creates a cursor at the origin.
    pub fn new() -> (c: Self)
        ensures
            c == (Cursor { col: 0, line: 0 }),
    {
        Self::default()
    }

    /// Sets the column of the cursor.
    pub fn set_col(&mut self, col: u16)
        ensures
            *final(self) == (Cursor { col, line: old(self).line }),
    {
        self.col = col;
    }

    /// Gets the current column of the cursor.
    pub fn col(&self) -> (c: u16)
        ensures
            c == self.col,
    {
        self.col
    }

    /// Sets the line of the cursor.
    pub fn set_line(&mut self, line: u16)
        ensures
            *final(self) == (Cursor { col: old(self).col, line }),
    {
        self.line = line;
    }

    /// Gets the current line of the cursor.
    pub fn line(&self) -> (l: u16)
        ensures
            l == self.line,
    {
        self.line
    }

    /// Gets the current column and line of the cursor as a
    /// `ratatui::layout::Position`, column as `x` and line as `y`.
    pub fn position(&self) -> (p: Position)
        ensures
            p.x == self.col,
            p.y == self.line,
    {
        let col = self.col();
        let line = self.line();

        Position::new(col, line)
    }

    /// Moves the line up by `count`. A move that would take the line
    /// below zero leaves the cursor unchanged.
    pub fn move_up(&mut self, count: u16)
        ensures
            *final(self) == spec_move_up(*old(self), count),
            final(self).col == old(self).col,
    {
        if count <= self.line {
            self.line = self.line - count;
        }
    }

    /// Moves the line down by `count`.
    pub fn move_down(&mut self, count: u16)
        requires
            old(self).line + count <= u16::MAX,
        ensures
            *final(self) == (Cursor { col: old(self).col, line: (old(self).line + count) as u16 }),
    {
        self.line = self.line + count;
    }

    /// Moves the column to the left by `count`. A move that would take
    /// the column below zero leaves the cursor unchanged.
    pub fn move_left(&mut self, count: u16)
        ensures
            *final(self) == spec_move_left(*old(self), count),
            final(self).line == old(self).line,
    {
        if count <= self.col {
            self.col = self.col - count;
        }
    }

    /// Moves the column to the right by `count`.
    pub fn move_right(&mut self, count: u16)
        requires
            old(self).col + count <= u16::MAX,
        ensures
            *final(self) == (Cursor { col: (old(self).col + count) as u16, line: old(self).line }),
    {
        self.col = self.col + count;
    }
}

} // verus!
