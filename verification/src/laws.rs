//! What holds of navigation whatever the buffer, the state and the commands.

use crate::buffer::{line_len, line_text};
use crate::command::Command;
use crate::cursor::CursorModel;
use crate::navigator::{execute, run, ActionModel};
use crate::viewport::ViewportModel;
use crate::word::{lemma_next_word_start, lemma_prev_word_start, space_mask};
use vstd::prelude::*;

verus! {

/// No command leads out of bounds: from a cursor inside the buffer and a well
/// formed viewport, every command that goes on leaves the cursor inside the
/// buffer and the viewport well formed.
pub proof fn lemma_execute_stays_in_bounds(
    command: Command,
    cursor: CursorModel,
    viewport: ViewportModel,
    lines: Seq<Seq<char>>,
)
    requires
        cursor.wf(lines),
        viewport.wf(lines.len() as int),
    ensures
        execute(command, cursor, viewport, lines).wf(lines),
{
    let spaces = space_mask(line_text(lines, cursor.row));
    assert(spaces.len() == line_len(lines, cursor.row));
    lemma_next_word_start(spaces, cursor.col);
    lemma_prev_word_start(spaces, cursor.col);
}

/// No sequence of commands leads out of bounds.
pub proof fn lemma_run_stays_in_bounds(
    commands: Seq<Command>,
    cursor: CursorModel,
    viewport: ViewportModel,
    lines: Seq<Seq<char>>,
)
    requires
        cursor.wf(lines),
        viewport.wf(lines.len() as int),
    ensures
        run(commands, cursor, viewport, lines).wf(lines),
    decreases commands.len(),
{
    if commands.len() > 0 {
        lemma_run_stays_in_bounds(commands.drop_last(), cursor, viewport, lines);
        match run(commands.drop_last(), cursor, viewport, lines) {
            ActionModel::Continue(c, v) => {
                lemma_execute_stays_in_bounds(commands.last(), c, v, lines);
            },
            ActionModel::Quit => {},
        }
    }
}

/// Going to the head of the line, to the top of the buffer or to its bottom
/// a second time changes nothing.
pub proof fn lemma_repeat_changes_nothing(
    command: Command,
    cursor: CursorModel,
    viewport: ViewportModel,
    lines: Seq<Seq<char>>,
)
    requires
        command == Command::LineHead || command == Command::BufferTop || command
            == Command::BufferBottom,
        viewport.height >= 1,
    ensures
        execute(command, cursor, viewport, lines).followed_by(command, lines) == execute(
            command,
            cursor,
            viewport,
            lines,
        ),
{
}

/// After every command that places the cursor, the cursor's row is in the
/// window.
pub proof fn lemma_viewport_follows_cursor(
    command: Command,
    cursor: CursorModel,
    viewport: ViewportModel,
    lines: Seq<Seq<char>>,
)
    requires
        command.is_cursor_move(),
        viewport.height >= 1,
    ensures
        execute(command, cursor, viewport, lines) matches ActionModel::Continue(c, v)
            && v.shows_row(c.row),
{
}

/// A scroll command leaves the cursor where it is, and brings the window to
/// a row from which it does not reach past the last line, or to row 0.
pub proof fn lemma_scroll_keeps_cursor(
    command: Command,
    cursor: CursorModel,
    viewport: ViewportModel,
    lines: Seq<Seq<char>>,
)
    requires
        command.is_scroll(),
    ensures
        execute(command, cursor, viewport, lines) matches ActionModel::Continue(c, v) && c
            == cursor && 0 <= v.top_row <= viewport.max_top(lines.len() as int),
{
}

/// No command changes the size of the window or its first column.
pub proof fn lemma_commands_keep_window_size(
    command: Command,
    cursor: CursorModel,
    viewport: ViewportModel,
    lines: Seq<Seq<char>>,
)
    ensures
        execute(command, cursor, viewport, lines) matches ActionModel::Continue(_, v) ==> v == (
        ViewportModel { top_row: v.top_row, ..viewport }),
{
}

/// On a buffer of one line, moving the cursor up or down changes nothing, and
/// scrolling down by a page leaves the window at the top.
pub proof fn lemma_single_line(cursor: CursorModel, viewport: ViewportModel, lines: Seq<Seq<char>>)
    requires
        lines.len() == 1,
        cursor.wf(lines),
        viewport.wf(lines.len() as int),
    ensures
        execute(Command::CursorDown, cursor, viewport, lines) == ActionModel::Continue(
            cursor,
            viewport,
        ),
        execute(Command::CursorUp, cursor, viewport, lines) == ActionModel::Continue(
            cursor,
            viewport,
        ),
        execute(Command::ScrollPageDown, cursor, viewport, lines) matches ActionModel::Continue(
            c,
            v,
        ) && c == cursor && v == viewport && v.top_row == 0,
{
}

/// One column to the right and one back to the left returns the cursor to
/// where it was, from every column but the one just past the last character of
/// a line that is not empty.
pub proof fn lemma_right_then_left(
    cursor: CursorModel,
    viewport: ViewportModel,
    lines: Seq<Seq<char>>,
)
    requires
        cursor.wf(lines),
        cursor.col < line_len(lines, cursor.row) || line_len(lines, cursor.row) == 0,
    ensures
        execute(Command::CursorRight, cursor, viewport, lines).followed_by(
            Command::CursorLeft,
            lines,
        ) matches ActionModel::Continue(c, _) && c == cursor,
{
}

/// Just past the last character of a line, moving right leaves the cursor where
/// it is.
pub proof fn lemma_right_at_line_end(
    cursor: CursorModel,
    viewport: ViewportModel,
    lines: Seq<Seq<char>>,
)
    requires
        cursor.wf(lines),
        cursor.col == line_len(lines, cursor.row),
    ensures
        execute(Command::CursorRight, cursor, viewport, lines) matches ActionModel::Continue(c, _)
            && c == cursor,
{
}

} // verus!
