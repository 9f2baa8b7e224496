//! The navigation controller: what one command, or one key press, makes of
//! the cursor and the viewport.

use crate::buffer::LineBuffer;
use crate::command::{binding, command_for, Command, KeyEvent};
use crate::cursor::{CursorModel, CursorPosition};
use crate::laws::lemma_execute_stays_in_bounds;
use crate::viewport::{ViewportModel, ViewportState};
use vstd::prelude::*;

verus! {

/// What a command leads to, over the models of cursor and viewport.
pub enum ActionModel {
    Continue(CursorModel, ViewportModel),
    Quit,
}

impl ActionModel {
    /// Where the session goes on, the cursor stands inside the buffer and
    /// the viewport is well formed over it.
    pub open spec fn wf(self, lines: Seq<Seq<char>>) -> bool {
        match self {
            ActionModel::Continue(cursor, viewport) => cursor.wf(lines) && viewport.wf(
                lines.len() as int,
            ),
            ActionModel::Quit => true,
        }
    }

    /// What `command` makes of this outcome: its effect on the cursor and
    /// viewport that the session goes on with, and nothing once the session
    /// has ended.
    pub open spec fn followed_by(self, command: Command, lines: Seq<Seq<char>>) -> ActionModel {
        match self {
            ActionModel::Continue(cursor, viewport) => execute(command, cursor, viewport, lines),
            ActionModel::Quit => ActionModel::Quit,
        }
    }
}

/// The outcome of a command that placed the cursor: the cursor where it was
/// placed, and the viewport moved so far as to show the cursor's row.
pub open spec fn placed(cursor: CursorModel, viewport: ViewportModel) -> ActionModel {
    ActionModel::Continue(cursor, viewport.follow(cursor.row))
}

/// The outcome of a command that scrolled by `delta` rows: the cursor as it
/// was, and the viewport moved within the buffer.
pub open spec fn scrolled(
    cursor: CursorModel,
    viewport: ViewportModel,
    delta: int,
    lines: Seq<Seq<char>>,
) -> ActionModel {
    ActionModel::Continue(cursor, viewport.scrolled(delta, lines.len() as int))
}

/// The effect of `command` on a cursor and a viewport over the lines of a
/// buffer.
pub open spec fn execute(
    command: Command,
    cursor: CursorModel,
    viewport: ViewportModel,
    lines: Seq<Seq<char>>,
) -> ActionModel {
    match command {
        Command::Quit => ActionModel::Quit,
        Command::CursorLeft => placed(cursor.left(lines), viewport),
        Command::CursorRight => placed(cursor.right(lines), viewport),
        Command::CursorUp => placed(cursor.up(lines), viewport),
        Command::CursorDown => placed(cursor.down(lines), viewport),
        Command::WordForward => placed(cursor.word_forward(lines), viewport),
        Command::WordBack => placed(cursor.word_back(lines), viewport),
        Command::LineHead => placed(cursor.line_head(), viewport),
        Command::LineEnd => placed(cursor.line_end(lines), viewport),
        Command::BufferTop => placed(cursor.buffer_top(), viewport),
        Command::BufferBottom => placed(cursor.buffer_bottom(lines), viewport),
        Command::ScrollLineDown => scrolled(cursor, viewport, 1, lines),
        Command::ScrollLineUp => scrolled(cursor, viewport, -1, lines),
        Command::ScrollHalfPageDown => scrolled(cursor, viewport, viewport.height / 2, lines),
        Command::ScrollHalfPageUp => scrolled(cursor, viewport, -(viewport.height / 2), lines),
        Command::ScrollPageDown => scrolled(cursor, viewport, viewport.height, lines),
        Command::ScrollPageUp => scrolled(cursor, viewport, -viewport.height, lines),
    }
}

/// The effect of a key press: that of the command bound to it, and none at
/// all for a key press that is bound to nothing.
pub open spec fn transition(
    event: KeyEvent,
    cursor: CursorModel,
    viewport: ViewportModel,
    lines: Seq<Seq<char>>,
) -> ActionModel {
    match binding(event) {
        Some(command) => execute(command, cursor, viewport, lines),
        None => ActionModel::Continue(cursor, viewport),
    }
}

/// The effect of a sequence of commands, carried out in order from the given
/// cursor and viewport.
pub open spec fn run(
    commands: Seq<Command>,
    cursor: CursorModel,
    viewport: ViewportModel,
    lines: Seq<Seq<char>>,
) -> ActionModel
    decreases commands.len(),
{
    if commands.len() == 0 {
        ActionModel::Continue(cursor, viewport)
    } else {
        run(commands.drop_last(), cursor, viewport, lines).followed_by(commands.last(), lines)
    }
}

/// What the host does after a key press: go on with a new cursor and
/// viewport, or leave.
#[derive(Clone, Copy, Debug, PartialEq, Eq)]
pub enum NavAction {
    Continue(CursorPosition, ViewportState),
    Quit,
}

impl View for NavAction {
    type V = ActionModel;

    open spec fn view(&self) -> ActionModel {
        match *self {
            NavAction::Continue(cursor, viewport) => ActionModel::Continue(cursor@, viewport@),
            NavAction::Quit => ActionModel::Quit,
        }
    }
}

/// The state that navigation works on: where the cursor stands and what the
/// window shows.
#[derive(Clone, Copy, Debug, PartialEq, Eq)]
pub struct Navigator {
    pub cursor: CursorPosition,
    pub viewport: ViewportState,
}

impl Navigator {
    /// The cursor stands inside the buffer and the viewport is well formed
    /// over it.
    pub open spec fn wf(&self, lines: Seq<Seq<char>>) -> bool {
        &&& self.cursor@.wf(lines)
        &&& self.viewport@.wf(lines.len() as int)
    }

    /// The state at the start of a session: cursor and window at the top left
    /// of the buffer, which is well formed over every buffer. `None` for a
    /// window without rows or without columns.
    pub fn new(height: usize, width: usize) -> (navigator: Option<Navigator>)
        ensures
            match navigator {
                Some(navigator) => {
                    &&& height >= 1 && width >= 1
                    &&& navigator.cursor@ == (CursorModel { row: 0, col: 0 })
                    &&& navigator.viewport@ == (ViewportModel {
                        top_row: 0,
                        x_offset: 0,
                        height: height as int,
                        width: width as int,
                    })
                    &&& forall|lines: Seq<Seq<char>>| #[trigger] navigator.wf(lines)
                },
                None => height == 0 || width == 0,
            },
    {
        match ViewportState::new(height, width) {
            Some(viewport) => Some(Navigator { cursor: CursorPosition::origin(), viewport }),
            None => None,
        }
    }

    /// Whether the state is well formed over `buffer`.
    pub fn is_valid(&self, buffer: &LineBuffer) -> (valid: bool)
        ensures
            valid == self.wf(buffer@),
    {
        self.cursor.is_within(buffer) && self.viewport.is_valid(buffer.len())
    }

    /// Goes on with the cursor at `cursor` and the window moved to show it.
    fn place(&self, cursor: CursorPosition) -> (action: NavAction)
        requires
            self.viewport.height >= 1,
        ensures
            action@ == placed(cursor@, self.viewport@),
    {
        NavAction::Continue(cursor, self.viewport.follow(cursor.row))
    }

    /// Carries out `command` over the lines of `buffer`.
    pub fn execute(&self, command: Command, buffer: &LineBuffer) -> (action: NavAction)
        requires
            self.viewport.height >= 1,
        ensures
            action@ == execute(command, self.cursor@, self.viewport@, buffer@),
            self.wf(buffer@) ==> action@.wf(buffer@),
    {
        proof {
            if self.wf(buffer@) {
                lemma_execute_stays_in_bounds(command, self.cursor@, self.viewport@, buffer@);
            }
        }
        let cursor = self.cursor;
        let viewport = self.viewport;
        let count = buffer.len();
        match command {
            Command::Quit => NavAction::Quit,
            Command::CursorLeft => self.place(cursor.left(buffer)),
            Command::CursorRight => self.place(cursor.right(buffer)),
            Command::CursorUp => self.place(cursor.up(buffer)),
            Command::CursorDown => self.place(cursor.down(buffer)),
            Command::WordForward => self.place(cursor.word_forward(buffer)),
            Command::WordBack => self.place(cursor.word_back(buffer)),
            Command::LineHead => self.place(cursor.line_head()),
            Command::LineEnd => self.place(cursor.line_end(buffer)),
            Command::BufferTop => self.place(cursor.buffer_top()),
            Command::BufferBottom => self.place(cursor.buffer_bottom(buffer)),
            Command::ScrollLineDown => NavAction::Continue(cursor, viewport.scroll_down(1, count)),
            Command::ScrollLineUp => NavAction::Continue(cursor, viewport.scroll_up(1, count)),
            Command::ScrollHalfPageDown => NavAction::Continue(
                cursor,
                viewport.scroll_down(viewport.height / 2, count),
            ),
            Command::ScrollHalfPageUp => NavAction::Continue(
                cursor,
                viewport.scroll_up(viewport.height / 2, count),
            ),
            Command::ScrollPageDown => NavAction::Continue(
                cursor,
                viewport.scroll_down(viewport.height, count),
            ),
            Command::ScrollPageUp => NavAction::Continue(
                cursor,
                viewport.scroll_up(viewport.height, count),
            ),
        }
    }

    /// Answers one key press: carries out the command bound to it, and goes
    /// on unchanged where it is bound to nothing.
    pub fn apply(&self, event: &KeyEvent, buffer: &LineBuffer) -> (action: NavAction)
        requires
            self.viewport.height >= 1,
        ensures
            action@ == transition(*event, self.cursor@, self.viewport@, buffer@),
            self.wf(buffer@) ==> action@.wf(buffer@),
    {
        match command_for(event) {
            Some(command) => self.execute(command, buffer),
            None => NavAction::Continue(self.cursor, self.viewport),
        }
    }
}

} // verus!
