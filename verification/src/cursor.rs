//! The cursor: a row of the buffer and a column of that row, and the motions
//! that place it.

use crate::buffer::{line_len, line_text, LineBuffer};
use crate::word::{
    next_word_start, prev_word_start, space_mask, whitespace_mask, word_back, word_forward,
};
use vstd::prelude::*;

verus! {

/// `x`, or the nearer end of `lo..=hi` where `x` lies outside of it.
pub open spec fn clamp(x: int, lo: int, hi: int) -> int {
    if x < lo {
        lo
    } else if x > hi {
        hi
    } else {
        x
    }
}

/// The index of the last line; 0 for a buffer without lines.
pub open spec fn last_row(lines: Seq<Seq<char>>) -> int {
    if lines.len() == 0 {
        0
    } else {
        lines.len() - 1
    }
}

/// A cursor position as a pair of numbers.
pub struct CursorModel {
    pub row: int,
    pub col: int,
}

impl CursorModel {
    /// The cursor stands on a line of the buffer, on one of its characters or
    /// right after the last one. On a buffer without lines it stands at the
    /// origin.
    pub open spec fn wf(self, lines: Seq<Seq<char>>) -> bool {
        &&& 0 <= self.row <= last_row(lines)
        &&& 0 <= self.col <= line_len(lines, self.row)
    }

    /// One column to the left, stopping at the head of the line.
    pub open spec fn left(self, lines: Seq<Seq<char>>) -> CursorModel {
        CursorModel { row: self.row, col: clamp(self.col - 1, 0, line_len(lines, self.row)) }
    }

    /// One column to the right, stopping just past the last character of the line.
    pub open spec fn right(self, lines: Seq<Seq<char>>) -> CursorModel {
        CursorModel { row: self.row, col: clamp(self.col + 1, 0, line_len(lines, self.row)) }
    }

    /// The same column of `row`, or the end of that line where it is shorter.
    pub open spec fn onto_row(self, row: int, lines: Seq<Seq<char>>) -> CursorModel {
        CursorModel {
            row,
            col: if self.col > line_len(lines, row) {
                line_len(lines, row)
            } else {
                self.col
            },
        }
    }

    /// One row up, stopping at the first line.
    pub open spec fn up(self, lines: Seq<Seq<char>>) -> CursorModel {
        self.onto_row(clamp(self.row - 1, 0, last_row(lines)), lines)
    }

    /// One row down, stopping at the last line.
    pub open spec fn down(self, lines: Seq<Seq<char>>) -> CursorModel {
        self.onto_row(clamp(self.row + 1, 0, last_row(lines)), lines)
    }

    /// To the start of the next word of the line, or to the end of the line
    /// where no further word begins. Words are parted by white space.
    pub open spec fn word_forward(self, lines: Seq<Seq<char>>) -> CursorModel {
        CursorModel {
            row: self.row,
            col: next_word_start(space_mask(line_text(lines, self.row)), self.col),
        }
    }

    /// To the start of the word before the cursor, or to the head of the line
    /// where no word begins before it. Words are parted by white space.
    pub open spec fn word_back(self, lines: Seq<Seq<char>>) -> CursorModel {
        CursorModel {
            row: self.row,
            col: prev_word_start(space_mask(line_text(lines, self.row)), self.col),
        }
    }

    /// To the head of the line.
    pub open spec fn line_head(self) -> CursorModel {
        CursorModel { row: self.row, col: 0 }
    }

    /// Just past the last character of the line.
    pub open spec fn line_end(self, lines: Seq<Seq<char>>) -> CursorModel {
        CursorModel { row: self.row, col: line_len(lines, self.row) }
    }

    /// To the head of the first line.
    pub open spec fn buffer_top(self) -> CursorModel {
        CursorModel { row: 0, col: 0 }
    }

    /// To the head of the last line.
    pub open spec fn buffer_bottom(self, lines: Seq<Seq<char>>) -> CursorModel {
        CursorModel { row: last_row(lines), col: 0 }
    }
}

/// Where the cursor stands: `row` counts the lines of the buffer from 0, `col`
/// the characters of that line from 0.
#[derive(Clone, Copy, Debug, PartialEq, Eq)]
pub struct CursorPosition {
    pub row: usize,
    pub col: usize,
}

impl View for CursorPosition {
    type V = CursorModel;

    open spec fn view(&self) -> CursorModel {
        CursorModel { row: self.row as int, col: self.col as int }
    }
}

/// The index of the last line of `buffer`; 0 where it has no line.
fn last_row_of(buffer: &LineBuffer) -> (row: usize)
    ensures
        row == last_row(buffer@),
{
    let count = buffer.len();
    if count == 0 {
        0
    } else {
        count - 1
    }
}

impl CursorPosition {
    /// The head of the first line.
    pub fn origin() -> (cursor: CursorPosition)
        ensures
            cursor@ == (CursorModel { row: 0, col: 0 }),
    {
        CursorPosition { row: 0, col: 0 }
    }

    /// Whether the cursor stands inside `buffer`.
    pub fn is_within(&self, buffer: &LineBuffer) -> (within: bool)
        ensures
            within == self@.wf(buffer@),
    {
        self.row <= last_row_of(buffer) && self.col <= buffer.line_len(self.row)
    }

    /// Moves one column to the left.
    pub fn left(self, buffer: &LineBuffer) -> (moved: CursorPosition)
        ensures
            moved@ == self@.left(buffer@),
    {
        let len = buffer.line_len(self.row);
        let col = if self.col == 0 {
            0
        } else if self.col - 1 > len {
            len
        } else {
            self.col - 1
        };
        CursorPosition { row: self.row, col }
    }

    /// Moves one column to the right.
    pub fn right(self, buffer: &LineBuffer) -> (moved: CursorPosition)
        ensures
            moved@ == self@.right(buffer@),
    {
        let len = buffer.line_len(self.row);
        let col = if self.col < len {
            self.col + 1
        } else {
            len
        };
        CursorPosition { row: self.row, col }
    }

    /// Moves to `row` and keeps the column as far as that line reaches.
    fn onto_row(self, row: usize, buffer: &LineBuffer) -> (moved: CursorPosition)
        ensures
            moved@ == self@.onto_row(row as int, buffer@),
    {
        let len = buffer.line_len(row);
        let col = if self.col > len {
            len
        } else {
            self.col
        };
        CursorPosition { row, col }
    }

    /// Moves one row up.
    pub fn up(self, buffer: &LineBuffer) -> (moved: CursorPosition)
        ensures
            moved@ == self@.up(buffer@),
    {
        let last = last_row_of(buffer);
        let row = if self.row == 0 {
            0
        } else if self.row - 1 > last {
            last
        } else {
            self.row - 1
        };
        self.onto_row(row, buffer)
    }

    /// Moves one row down.
    pub fn down(self, buffer: &LineBuffer) -> (moved: CursorPosition)
        ensures
            moved@ == self@.down(buffer@),
    {
        let last = last_row_of(buffer);
        let row = if self.row < last {
            self.row + 1
        } else {
            last
        };
        self.onto_row(row, buffer)
    }

    /// Moves to the start of the next word of the line.
    pub fn word_forward(self, buffer: &LineBuffer) -> (moved: CursorPosition)
        ensures
            moved@ == self@.word_forward(buffer@),
    {
        let spaces = match buffer.line_at(self.row) {
            Some(line) => whitespace_mask(line),
            None => Vec::new(),
        };
        assert(spaces@ =~= space_mask(line_text(buffer@, self.row as int)));
        CursorPosition { row: self.row, col: word_forward(&spaces, self.col) }
    }

    /// Moves to the start of the word before the cursor.
    pub fn word_back(self, buffer: &LineBuffer) -> (moved: CursorPosition)
        ensures
            moved@ == self@.word_back(buffer@),
    {
        let spaces = match buffer.line_at(self.row) {
            Some(line) => whitespace_mask(line),
            None => Vec::new(),
        };
        assert(spaces@ =~= space_mask(line_text(buffer@, self.row as int)));
        CursorPosition { row: self.row, col: word_back(&spaces, self.col) }
    }

    /// Moves to the head of the line.
    pub fn line_head(self) -> (moved: CursorPosition)
        ensures
            moved@ == self@.line_head(),
    {
        CursorPosition { row: self.row, col: 0 }
    }

    /// Moves just past the last character of the line.
    pub fn line_end(self, buffer: &LineBuffer) -> (moved: CursorPosition)
        ensures
            moved@ == self@.line_end(buffer@),
    {
        CursorPosition { row: self.row, col: buffer.line_len(self.row) }
    }

    /// Moves to the head of the first line.
    pub fn buffer_top(self) -> (moved: CursorPosition)
        ensures
            moved@ == self@.buffer_top(),
    {
        CursorPosition { row: 0, col: 0 }
    }

    /// Moves to the head of the last line.
    pub fn buffer_bottom(self, buffer: &LineBuffer) -> (moved: CursorPosition)
        ensures
            moved@ == self@.buffer_bottom(buffer@),
    {
        CursorPosition { row: last_row_of(buffer), col: 0 }
    }
}

} // verus!
