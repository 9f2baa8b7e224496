//! The viewport: the window of rows and columns that is on screen.

use crate::cursor::{clamp, CursorModel, CursorPosition};
use vstd::prelude::*;

verus! {

/// A viewport as four numbers.
pub struct ViewportModel {
    pub top_row: int,
    pub x_offset: int,
    pub height: int,
    pub width: int,
}

impl ViewportModel {
    /// The window has at least one row and one column, and its first row is
    /// a line of a buffer of `count` lines (row 0 where the buffer has none).
    pub open spec fn wf(self, count: int) -> bool {
        &&& 0 <= self.top_row <= if count > 0 {
            count - 1
        } else {
            0
        }
        &&& 0 <= self.x_offset
        &&& 1 <= self.height
        &&& 1 <= self.width
    }

    /// The last row that a scroll command may bring to the top: the one that
    /// puts the last line at the bottom of the window, or row 0 where the
    /// whole buffer fits in the window.
    pub open spec fn max_top(self, count: int) -> int {
        if count > self.height {
            count - self.height
        } else {
            0
        }
    }

    /// The window moved by `delta` rows, downward where `delta` is positive,
    /// and then brought back between row 0 and `max_top`.
    pub open spec fn scrolled(self, delta: int, count: int) -> ViewportModel {
        ViewportModel { top_row: clamp(self.top_row + delta, 0, self.max_top(count)), ..self }
    }

    /// Whether `row` is one of the rows in the window.
    pub open spec fn shows_row(self, row: int) -> bool {
        self.top_row <= row < self.top_row + self.height
    }

    /// The window moved by as little as brings `row` into it: up to `row`
    /// where that row is above the window, down until `row` is its last row
    /// where it is below, and not at all where `row` is in the window already.
    pub open spec fn follow(self, row: int) -> ViewportModel {
        ViewportModel {
            top_row: if row < self.top_row {
                row
            } else if row >= self.top_row + self.height {
                row - self.height + 1
            } else {
                self.top_row
            },
            ..self
        }
    }

    /// Whether `col` is one of the columns in the window.
    pub open spec fn shows_col(self, col: int) -> bool {
        self.x_offset <= col < self.x_offset + self.width
    }

    /// The cell of the window that the cursor is on, as a row and a column
    /// counted from the window's top left; `None` for a cursor outside the
    /// window.
    pub open spec fn cell_of(self, cursor: CursorModel) -> Option<(int, int)> {
        if self.shows_row(cursor.row) && self.shows_col(cursor.col) {
            Some((cursor.row - self.top_row, cursor.col - self.x_offset))
        } else {
            None
        }
    }

    /// The same window with another size.
    pub open spec fn resized(self, height: int, width: int) -> ViewportModel {
        ViewportModel { height, width, ..self }
    }
}

/// The window on screen: `top_row` is the first visible line, `x_offset` the
/// first visible column, `height` and `width` the numbers of visible rows and
/// columns.
#[derive(Clone, Copy, Debug, PartialEq, Eq)]
pub struct ViewportState {
    pub top_row: usize,
    pub x_offset: usize,
    pub height: usize,
    pub width: usize,
}

impl View for ViewportState {
    type V = ViewportModel;

    open spec fn view(&self) -> ViewportModel {
        ViewportModel {
            top_row: self.top_row as int,
            x_offset: self.x_offset as int,
            height: self.height as int,
            width: self.width as int,
        }
    }
}

impl ViewportState {
    /// A window of the given size at the top left of the buffer, or `None`
    /// for a size without rows or without columns.
    pub fn new(height: usize, width: usize) -> (viewport: Option<ViewportState>)
        ensures
            match viewport {
                Some(viewport) => height >= 1 && width >= 1 && viewport@ == (ViewportModel {
                    top_row: 0,
                    x_offset: 0,
                    height: height as int,
                    width: width as int,
                }),
                None => height == 0 || width == 0,
            },
    {
        if height >= 1 && width >= 1 {
            Some(ViewportState { top_row: 0, x_offset: 0, height, width })
        } else {
            None
        }
    }

    /// Whether the viewport is well formed over a buffer of `count` lines.
    pub fn is_valid(&self, count: usize) -> (valid: bool)
        ensures
            valid == self@.wf(count as int),
    {
        (self.top_row < count || self.top_row == 0) && self.height >= 1 && self.width >= 1
    }

    /// The same window with the size that the screen has now, or `None` for a
    /// size without rows or without columns.
    pub fn resized(self, height: usize, width: usize) -> (viewport: Option<ViewportState>)
        ensures
            match viewport {
                Some(viewport) => height >= 1 && width >= 1 && viewport@ == self@.resized(
                    height as int,
                    width as int,
                ),
                None => height == 0 || width == 0,
            },
    {
        if height >= 1 && width >= 1 {
            Some(
                ViewportState { top_row: self.top_row, x_offset: self.x_offset, height, width },
            )
        } else {
            None
        }
    }

    /// The last row that a scroll command may bring to the top of the window
    /// over a buffer of `count` lines.
    pub fn max_top(&self, count: usize) -> (top: usize)
        ensures
            top == self@.max_top(count as int),
    {
        if count > self.height {
            count - self.height
        } else {
            0
        }
    }

    /// Scrolls down by `rows` over a buffer of `count` lines.
    pub fn scroll_down(self, rows: usize, count: usize) -> (scrolled: ViewportState)
        ensures
            scrolled@ == self@.scrolled(rows as int, count as int),
    {
        let max_top = self.max_top(count);
        let top_row = if self.top_row >= max_top {
            max_top
        } else if rows >= max_top - self.top_row {
            max_top
        } else {
            self.top_row + rows
        };
        ViewportState { top_row, ..self }
    }

    /// Scrolls up by `rows` over a buffer of `count` lines.
    pub fn scroll_up(self, rows: usize, count: usize) -> (scrolled: ViewportState)
        ensures
            scrolled@ == self@.scrolled(-(rows as int), count as int),
    {
        let max_top = self.max_top(count);
        let top_row = if rows >= self.top_row {
            0
        } else if self.top_row - rows > max_top {
            max_top
        } else {
            self.top_row - rows
        };
        ViewportState { top_row, ..self }
    }

    /// Where in the window the cursor is to be drawn, if it is in the window.
    pub fn cell_of(&self, cursor: &CursorPosition) -> (cell: Option<(usize, usize)>)
        ensures
            match cell {
                Some((row, col)) => self@.cell_of(cursor@) == Some((row as int, col as int)),
                None => self@.cell_of(cursor@).is_none(),
            },
    {
        if cursor.row >= self.top_row && cursor.row - self.top_row < self.height && cursor.col
            >= self.x_offset && cursor.col - self.x_offset < self.width {
            Some((cursor.row - self.top_row, cursor.col - self.x_offset))
        } else {
            None
        }
    }

    /// Moves the window by as little as brings `row` into it.
    pub fn follow(self, row: usize) -> (moved: ViewportState)
        requires
            self.height >= 1,
        ensures
            moved@ == self@.follow(row as int),
    {
        let top_row = if row < self.top_row {
            row
        } else if row - self.top_row >= self.height {
            row - self.height + 1
        } else {
            self.top_row
        };
        ViewportState { top_row, ..self }
    }
}

} // verus!
