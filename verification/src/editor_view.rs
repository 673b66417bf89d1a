//! The orchestrating component: buffer + cursor location + viewport.
//!
//! Commands move the text-space cursor (never the viewport directly);
//! the viewport then reacts with two independent one-dimensional clamps
//! that bring the cursor's screen position back into view.  Rendering
//! reads the buffer through the viewport and emits one string per screen
//! row.

use crate::buffer::{buffer_model_of, Buffer};
use crate::command::{Direction, EditorCommand};
use crate::line::{col_span, push_char, sat_cap, visible_cols, FragModel, Line};
use crate::location::Location;
use crate::position::{Position, Size};
use crate::text::lines_of;
use vstd::prelude::*;
use vstd::string::StrSliceExecFns;
use vstd::string::StringExecFns;

verus! {

// ---------------------------------------------------------------------
// Text-space movement, as mathematics.
// ---------------------------------------------------------------------

/// Subtraction clamped at zero, mirroring `usize::saturating_sub`.
pub open spec fn sat_sub(a: int, b: int) -> int {
    if a - b < 0 {
        0
    } else {
        a - b
    }
}

/// The grapheme count of line `line` of the buffer, or zero where no
/// such line exists.
pub open spec fn line_len_at(buf: Seq<Seq<FragModel>>, line: int) -> int {
    if 0 <= line < buf.len() {
        buf[line].len() as int
    } else {
        0
    }
}

/// The largest line index the cursor may rest on: the last line of the
/// buffer, or line zero for an empty buffer.
pub open spec fn last_line(buf: Seq<Seq<FragModel>>) -> int {
    if buf.len() == 0 {
        0
    } else {
        buf.len() - 1
    }
}

/// A text location the movement commands can produce: the line does not
/// pass the buffer's last line and the grapheme index does not pass the
/// line's grapheme count (one past the last grapheme is valid).
pub open spec fn loc_valid(buf: Seq<Seq<FragModel>>, line: int, index: int) -> bool {
    &&& 0 <= line <= last_line(buf)
    &&& 0 <= index <= line_len_at(buf, line)
}

/// The grapheme index after a vertical move: clamped to the new line's
/// grapheme count, so that landing on a shorter line never leaves the
/// cursor past its end.
pub open spec fn snap_index(buf: Seq<Seq<FragModel>>, line: int, index: int) -> int {
    vstd::math::min(index, line_len_at(buf, line))
}

/// Moving up by `delta` lines: the line saturates at zero, then the
/// grapheme index snaps to the new line.
pub open spec fn move_up_spec(buf: Seq<Seq<FragModel>>, line: int, index: int, delta: int) -> (
    int,
    int,
) {
    let l = sat_sub(line, delta);
    (l, snap_index(buf, l, index))
}

/// Moving down by `delta` lines: the line grows (saturating at the
/// machine word), the grapheme index snaps to the line so reached, and
/// the line then clamps to the buffer's last line.
pub open spec fn move_down_spec(buf: Seq<Seq<FragModel>>, line: int, index: int, delta: int) -> (
    int,
    int,
) {
    let l1 = sat_cap(line + delta);
    let idx = snap_index(buf, l1, index);
    (vstd::math::min(l1, last_line(buf)), idx)
}

/// Moving left by one grapheme; at the start of a line the cursor wraps
/// to the end of the previous line (at the top, to this line's end).
pub open spec fn move_left_spec(buf: Seq<Seq<FragModel>>, line: int, index: int) -> (int, int) {
    if index > 0 {
        (line, index - 1)
    } else {
        let l = sat_sub(line, 1);
        (l, line_len_at(buf, l))
    }
}

/// Moving right by one grapheme; at the end of a line the cursor wraps
/// to the start of the next line (clamped to the buffer's last line).
pub open spec fn move_right_spec(buf: Seq<Seq<FragModel>>, line: int, index: int) -> (int, int) {
    if index < line_len_at(buf, line) {
        (line, index + 1)
    } else {
        (vstd::math::min(sat_cap(line + 1), last_line(buf)), 0)
    }
}

/// The location a movement command produces.  Page movements use one
/// screen height minus one as their stride; Home and End jump to the
/// start and to one past the last grapheme of the current line.
pub open spec fn move_spec(
    buf: Seq<Seq<FragModel>>,
    line: int,
    index: int,
    dir: Direction,
    height: int,
) -> (int, int) {
    match dir {
        Direction::Up => move_up_spec(buf, line, index, 1),
        Direction::Down => move_down_spec(buf, line, index, 1),
        Direction::PageUp => move_up_spec(buf, line, index, sat_sub(height, 1)),
        Direction::PageDown => move_down_spec(buf, line, index, sat_sub(height, 1)),
        Direction::Left => move_left_spec(buf, line, index),
        Direction::Right => move_right_spec(buf, line, index),
        Direction::Home => (line, 0),
        Direction::End => (line, line_len_at(buf, line)),
    }
}

// ---------------------------------------------------------------------
// Screen-space: cursor position and viewport clamping.
// ---------------------------------------------------------------------

/// The display column of a text location: the summed display width of
/// the graphemes before the cursor, or zero past the end of the buffer.
pub open spec fn caret_col(buf: Seq<Seq<FragModel>>, line: int, index: int) -> int {
    if 0 <= line < buf.len() {
        col_span(buf[line], 0, index)
    } else {
        0
    }
}

/// One-dimensional viewport clamp: scroll back to reveal a target before
/// the offset, forward to put a target at the last visible cell, and
/// stay put when the target is already visible.
pub open spec fn scroll_1d(offset: int, to: int, extent: int) -> int {
    if to < offset {
        to
    } else if to - offset >= extent {
        sat_cap(sat_sub(to, extent) + 1)
    } else {
        offset
    }
}

/// Whether the one-dimensional clamp fires (and so marks the screen for
/// redraw).
pub open spec fn scroll_hit(offset: int, to: int, extent: int) -> bool {
    to < offset || to - offset >= extent
}

// ---------------------------------------------------------------------
// What the renderer shows.
// ---------------------------------------------------------------------

/// A run of `n` copies of one character.
pub open spec fn char_repeat(c: char, n: int) -> Seq<char> {
    Seq::new(
        if n < 0 {
            0
        } else {
            n as nat
        },
        |i: int| c,
    )
}

/// The welcome banner row an empty buffer shows at one third of the
/// screen height: a tilde, centering spaces, and the name-and-version
/// message truncated to the screen width.
pub open spec fn welcome_row_spec(width: int) -> Seq<char> {
    let full = "Welcome to ledit -- Version 0.1.0"@;
    let msg = if width < full.len() {
        full.take(width)
    } else {
        full
    };
    let padding = if width > msg.len() + 2 {
        (width - msg.len()) / 2 - 1
    } else {
        0
    };
    seq!['~'] + char_repeat(' ', padding) + msg
}

/// The text the renderer shows on screen row `row`: the visible
/// display-column slice of the buffer line there; past the end of an
/// empty buffer, the welcome banner at one third of the screen height;
/// past the end of the buffer otherwise, a tilde placeholder.
pub open spec fn row_text(v: EditorView, row: int) -> Seq<char> {
    let tr = sat_cap(row + v.scroll_offset.row as int);
    if tr < v.buffer@.len() {
        visible_cols(
            v.buffer@[tr],
            v.scroll_offset.col as int,
            sat_cap(v.scroll_offset.col as int + v.size.width as int),
        )
    } else if v.buffer@.len() == 0 && tr == v.size.height as int / 3 {
        welcome_row_spec(v.size.width as int)
    } else {
        seq!['~']
    }
}

/// Builds the welcome banner row for the given screen width.
fn build_welcome_row(width: usize) -> (r: String)
    ensures
        r@ == welcome_row_spec(width as int),
{
    let full = "Welcome to ledit -- Version 0.1.0";
    proof {
        reveal_strlit("Welcome to ledit -- Version 0.1.0");
        reveal_strlit("~");
    }
    let full_len = full.unicode_len();
    let msg: &str = if width < full_len {
        full.substring_char(0, width)
    } else {
        full
    };
    let msg_len = if width < full_len {
        width
    } else {
        full_len
    };
    proof {
        assert(full@.subrange(0, width as int) =~= full@.take(width as int));
        assert(msg@.len() == msg_len);
    }
    let padding: usize = if width > msg_len + 2 {
        (width - msg_len) / 2 - 1
    } else {
        0
    };
    let mut r = String::new();
    r.append("~");
    proof {
        assert(r@ =~= seq!['~'] + char_repeat(' ', 0));
    }
    let mut i: usize = 0;
    while i < padding
        invariant
            0 <= i <= padding,
            r@ == seq!['~'] + char_repeat(' ', i as int),
        decreases padding - i,
    {
        push_char(&mut r, ' ');
        proof {
            assert(r@ =~= seq!['~'] + char_repeat(' ', i + 1));
        }
        i += 1;
    }
    r.append(msg);
    proof {
        assert(r@ =~= welcome_row_spec(width as int));
    }
    r
}

// ---------------------------------------------------------------------
// The view.
// ---------------------------------------------------------------------

/// The orchestrator of buffer, cursor and viewport: the only component
/// with mutable cross-cutting state.
pub struct EditorView {
    /// The document's lines; populated once by `load_text`.
    pub buffer: Buffer,
    /// Whether the next `render` call must repaint.
    pub needs_redraw: bool,
    /// The terminal size, adopted from resize commands.
    pub size: Size,
    /// The text-space cursor.
    pub location: Location,
    /// The text-space coordinate of the screen's top-left cell.
    pub scroll_offset: Position,
}

/// The state a movement command leaves the view in: the cursor moves as
/// `move_spec` says, both viewport coordinates clamp to the cursor's new
/// screen position, a redraw is pending iff one was before or either
/// clamp fired, and buffer and size are untouched.
pub open spec fn move_post(v0: EditorView, v1: EditorView, dir: Direction) -> bool {
    let buf = v0.buffer@;
    let moved = move_spec(
        buf,
        v0.location.line as int,
        v0.location.index as int,
        dir,
        v0.size.height as int,
    );
    let col = caret_col(buf, moved.0, moved.1);
    &&& v1.location.line as int == moved.0
    &&& v1.location.index as int == moved.1
    &&& v1.scroll_offset.row as int == scroll_1d(
        v0.scroll_offset.row as int,
        moved.0,
        v0.size.height as int,
    )
    &&& v1.scroll_offset.col as int == scroll_1d(
        v0.scroll_offset.col as int,
        col,
        v0.size.width as int,
    )
    &&& v1.needs_redraw == (v0.needs_redraw || scroll_hit(
        v0.scroll_offset.row as int,
        moved.0,
        v0.size.height as int,
    ) || scroll_hit(v0.scroll_offset.col as int, col, v0.size.width as int))
    &&& v1.buffer == v0.buffer
    &&& v1.size == v0.size
}

/// The state a resize command leaves the view in: the new size is
/// adopted, the cursor stays, both viewport coordinates clamp to the
/// cursor's screen position under the new size, and a redraw is pending.
pub open spec fn resize_post(v0: EditorView, v1: EditorView, size: Size) -> bool {
    let buf = v0.buffer@;
    let line = v0.location.line as int;
    let col = caret_col(buf, line, v0.location.index as int);
    &&& v1.size == size
    &&& v1.location == v0.location
    &&& v1.buffer == v0.buffer
    &&& v1.scroll_offset.row as int == scroll_1d(
        v0.scroll_offset.row as int,
        line,
        size.height as int,
    )
    &&& v1.scroll_offset.col as int == scroll_1d(
        v0.scroll_offset.col as int,
        col,
        size.width as int,
    )
    &&& v1.needs_redraw == true
}

impl EditorView {
    /// Applies one decoded command.  Movement goes to the cursor and the
    /// viewport reacts; a resize adopts the size and re-clamps; quitting
    /// is the outer loop's business and leaves the view untouched.
    pub fn handle_command(&mut self, cmd: EditorCommand)
        ensures
            match cmd {
                EditorCommand::MoveCursor(dir) => move_post(*old(self), *final(self), dir),
                EditorCommand::Resize(size) => resize_post(*old(self), *final(self), size),
                EditorCommand::Quit => *final(self) == *old(self),
            },
            loc_valid(
                old(self).buffer@,
                old(self).location.line as int,
                old(self).location.index as int,
            ) ==> loc_valid(
                final(self).buffer@,
                final(self).location.line as int,
                final(self).location.index as int,
            ),
    {
        match cmd {
            EditorCommand::MoveCursor(dir) => self.move_location(dir),
            EditorCommand::Resize(size) => self.resize(size),
            EditorCommand::Quit => {},
        }
        proof {
            if let EditorCommand::MoveCursor(dir) = cmd {
                if loc_valid(
                    old(self).buffer@,
                    old(self).location.line as int,
                    old(self).location.index as int,
                ) {
                    lemma_move_keeps_location_valid(
                        old(self).buffer@,
                        old(self).location.line as int,
                        old(self).location.index as int,
                        dir,
                        old(self).size.height as int,
                    );
                }
            }
        }
    }

    /// Adopts a new terminal size, re-clamps the viewport to the cursor
    /// and marks the screen for redraw.
    pub fn resize(&mut self, size: Size)
        ensures
            resize_post(*old(self), *final(self), size),
    {
        self.size = size;
        self.scroll_location_to_view();
        self.needs_redraw = true;
    }

    /// Moves the cursor as the direction commands, then brings it back
    /// into view.
    pub fn move_location(&mut self, dir: Direction)
        ensures
            move_post(*old(self), *final(self), dir),
    {
        match dir {
            Direction::Up => self.move_up(1),
            Direction::Down => self.move_down(1),
            Direction::Left => self.move_left(),
            Direction::Right => self.move_right(),
            Direction::PageUp => {
                let delta = self.size.height.saturating_sub(1);
                self.move_up(delta);
            },
            Direction::PageDown => {
                let delta = self.size.height.saturating_sub(1);
                self.move_down(delta);
            },
            Direction::Home => self.move_to_sol(),
            Direction::End => self.move_to_eol(),
        }
        self.scroll_location_to_view();
    }

    /// Moves the cursor up `delta` lines, snapping the grapheme index to
    /// the new line.
    fn move_up(&mut self, delta: usize)
        ensures
            (final(self).location.line as int, final(self).location.index as int) == move_up_spec(
                old(self).buffer@,
                old(self).location.line as int,
                old(self).location.index as int,
                delta as int,
            ),
            final(self).buffer == old(self).buffer,
            final(self).size == old(self).size,
            final(self).scroll_offset == old(self).scroll_offset,
            final(self).needs_redraw == old(self).needs_redraw,
    {
        self.location.line = self.location.line.saturating_sub(delta);
        self.snap_cursor_to_grapheme();
    }

    /// Moves the cursor down `delta` lines, snapping the grapheme index
    /// and clamping the line to the buffer's last line.
    fn move_down(&mut self, delta: usize)
        ensures
            (final(self).location.line as int, final(self).location.index as int) == move_down_spec(
                old(self).buffer@,
                old(self).location.line as int,
                old(self).location.index as int,
                delta as int,
            ),
            final(self).buffer == old(self).buffer,
            final(self).size == old(self).size,
            final(self).scroll_offset == old(self).scroll_offset,
            final(self).needs_redraw == old(self).needs_redraw,
    {
        self.location.line = self.location.line.saturating_add(delta);
        self.snap_cursor_to_grapheme();
        self.snap_cursor_to_line();
    }

    /// Moves the cursor one grapheme to the left, wrapping to the end of
    /// the previous line at a line start.
    fn move_left(&mut self)
        ensures
            (final(self).location.line as int, final(self).location.index as int) == move_left_spec(
                old(self).buffer@,
                old(self).location.line as int,
                old(self).location.index as int,
            ),
            final(self).buffer == old(self).buffer,
            final(self).size == old(self).size,
            final(self).scroll_offset == old(self).scroll_offset,
            final(self).needs_redraw == old(self).needs_redraw,
    {
        if self.location.index > 0 {
            self.location.index = self.location.index - 1;
        } else {
            self.move_up(1);
            self.move_to_eol();
        }
    }

    /// Moves the cursor one grapheme to the right, wrapping to the start
    /// of the next line at a line end.
    fn move_right(&mut self)
        ensures
            (final(self).location.line as int, final(self).location.index as int) == move_right_spec(
                old(self).buffer@,
                old(self).location.line as int,
                old(self).location.index as int,
            ),
            final(self).buffer == old(self).buffer,
            final(self).size == old(self).size,
            final(self).scroll_offset == old(self).scroll_offset,
            final(self).needs_redraw == old(self).needs_redraw,
    {
        let line_len = if self.location.line < self.buffer.lines.len() {
            self.buffer.lines[self.location.line].len()
        } else {
            0
        };
        if self.location.index < line_len {
            self.location.index = self.location.index + 1;
        } else {
            self.move_down(1);
            self.move_to_sol();
        }
    }

    /// Puts the cursor one past the last grapheme of the current line.
    fn move_to_eol(&mut self)
        ensures
            final(self).location.index as int == line_len_at(
                old(self).buffer@,
                old(self).location.line as int,
            ),
            final(self).location.line == old(self).location.line,
            final(self).buffer == old(self).buffer,
            final(self).size == old(self).size,
            final(self).scroll_offset == old(self).scroll_offset,
            final(self).needs_redraw == old(self).needs_redraw,
    {
        self.location.index = if self.location.line < self.buffer.lines.len() {
            self.buffer.lines[self.location.line].len()
        } else {
            0
        };
    }

    /// Puts the cursor at the start of the current line.
    fn move_to_sol(&mut self)
        ensures
            final(self).location.index == 0,
            final(self).location.line == old(self).location.line,
            final(self).buffer == old(self).buffer,
            final(self).size == old(self).size,
            final(self).scroll_offset == old(self).scroll_offset,
            final(self).needs_redraw == old(self).needs_redraw,
    {
        self.location.index = 0;
    }

    /// Clamps the grapheme index to the current line's grapheme count.
    fn snap_cursor_to_grapheme(&mut self)
        ensures
            final(self).location.index as int == snap_index(
                old(self).buffer@,
                old(self).location.line as int,
                old(self).location.index as int,
            ),
            final(self).location.line == old(self).location.line,
            final(self).buffer == old(self).buffer,
            final(self).size == old(self).size,
            final(self).scroll_offset == old(self).scroll_offset,
            final(self).needs_redraw == old(self).needs_redraw,
    {
        if self.location.line < self.buffer.lines.len() {
            let len = self.buffer.lines[self.location.line].len();
            if self.location.index > len {
                self.location.index = len;
            }
        } else {
            self.location.index = 0;
        }
    }

    /// Clamps the line to the buffer's last line.
    fn snap_cursor_to_line(&mut self)
        ensures
            final(self).location.line as int == vstd::math::min(
                old(self).location.line as int,
                last_line(old(self).buffer@),
            ),
            final(self).location.index == old(self).location.index,
            final(self).buffer == old(self).buffer,
            final(self).size == old(self).size,
            final(self).scroll_offset == old(self).scroll_offset,
            final(self).needs_redraw == old(self).needs_redraw,
    {
        let max_line = self.buffer.line_count().saturating_sub(1);
        if self.location.line > max_line {
            self.location.line = max_line;
        }
    }

    /// Scrolls the viewport row to reveal text row `to`.
    fn scroll_line_to_view(&mut self, to: usize)
        ensures
            final(self).scroll_offset.row as int == scroll_1d(
                old(self).scroll_offset.row as int,
                to as int,
                old(self).size.height as int,
            ),
            final(self).needs_redraw == (old(self).needs_redraw || scroll_hit(
                old(self).scroll_offset.row as int,
                to as int,
                old(self).size.height as int,
            )),
            final(self).scroll_offset.col == old(self).scroll_offset.col,
            final(self).location == old(self).location,
            final(self).buffer == old(self).buffer,
            final(self).size == old(self).size,
    {
        let height = self.size.height;
        if to < self.scroll_offset.row {
            self.scroll_offset.row = to;
            self.needs_redraw = true;
        } else if to - self.scroll_offset.row >= height {
            self.scroll_offset.row = to.saturating_sub(height).saturating_add(1);
            self.needs_redraw = true;
        }
    }

    /// Scrolls the viewport column to reveal display column `to`.
    fn scroll_col_to_view(&mut self, to: usize)
        ensures
            final(self).scroll_offset.col as int == scroll_1d(
                old(self).scroll_offset.col as int,
                to as int,
                old(self).size.width as int,
            ),
            final(self).needs_redraw == (old(self).needs_redraw || scroll_hit(
                old(self).scroll_offset.col as int,
                to as int,
                old(self).size.width as int,
            )),
            final(self).scroll_offset.row == old(self).scroll_offset.row,
            final(self).location == old(self).location,
            final(self).buffer == old(self).buffer,
            final(self).size == old(self).size,
    {
        let width = self.size.width;
        if to < self.scroll_offset.col {
            self.scroll_offset.col = to;
            self.needs_redraw = true;
        } else if to - self.scroll_offset.col >= width {
            self.scroll_offset.col = to.saturating_sub(width).saturating_add(1);
            self.needs_redraw = true;
        }
    }

    /// The cursor's text-space screen position: the row is the line
    /// index (one screen row per text row), the column is the summed
    /// display width of the graphemes before the cursor.
    fn location_to_position(&self) -> (r: Position)
        ensures
            r.row == self.location.line,
            r.col as int == caret_col(
                self.buffer@,
                self.location.line as int,
                self.location.index as int,
            ),
    {
        let row = self.location.line;
        let col = if row < self.buffer.lines.len() {
            self.buffer.lines[row].width(0..self.location.index)
        } else {
            0
        };
        Position { col, row }
    }

    /// Brings the cursor's screen position back into the viewport: two
    /// independent one-dimensional clamps, row then column.  After the
    /// call the cursor's text-space row and column lie within
    /// `[viewport, viewport + extent)` whenever the extent is positive.
    pub fn scroll_location_to_view(&mut self)
        ensures
            ({
                let line = old(self).location.line as int;
                let col = caret_col(
                    old(self).buffer@,
                    line,
                    old(self).location.index as int,
                );
                let height = old(self).size.height as int;
                let width = old(self).size.width as int;
                &&& final(self).scroll_offset.row as int == scroll_1d(
                    old(self).scroll_offset.row as int,
                    line,
                    height,
                )
                &&& final(self).scroll_offset.col as int == scroll_1d(
                    old(self).scroll_offset.col as int,
                    col,
                    width,
                )
                &&& final(self).needs_redraw == (old(self).needs_redraw || scroll_hit(
                    old(self).scroll_offset.row as int,
                    line,
                    height,
                ) || scroll_hit(old(self).scroll_offset.col as int, col, width))
                &&& height >= 1 ==> final(self).scroll_offset.row as int <= line < final(self).scroll_offset.row
                    as int + height
                &&& width >= 1 ==> final(self).scroll_offset.col as int <= col < final(self).scroll_offset.col
                    as int + width
            }),
            final(self).location == old(self).location,
            final(self).buffer == old(self).buffer,
            final(self).size == old(self).size,
    {
        let pos = self.location_to_position();
        self.scroll_line_to_view(pos.row);
        self.scroll_col_to_view(pos.col);
        proof {
            if old(self).size.height as int >= 1 {
                lemma_scroll_brings_into_view(
                    old(self).scroll_offset.row as int,
                    old(self).location.line as int,
                    old(self).size.height as int,
                );
            }
            if old(self).size.width as int >= 1 {
                lemma_scroll_brings_into_view(
                    old(self).scroll_offset.col as int,
                    caret_col(
                        old(self).buffer@,
                        old(self).location.line as int,
                        old(self).location.index as int,
                    ),
                    old(self).size.width as int,
                );
            }
        }
    }

    /// Renders the visible rows: a no-op (empty result) while no redraw
    /// is pending, otherwise one string per screen row, top to bottom,
    /// after which the pending flag is clear.  A pure function of the
    /// current state: repeated calls while the flag is down show nothing
    /// new.
    pub fn render(&mut self) -> (rows: Vec<String>)
        ensures
            final(self).needs_redraw == false,
            final(self).buffer == old(self).buffer,
            final(self).size == old(self).size,
            final(self).location == old(self).location,
            final(self).scroll_offset == old(self).scroll_offset,
            rows@.len() == if old(self).needs_redraw {
                old(self).size.height as int
            } else {
                0
            },
            forall|r: int|
                0 <= r < rows@.len() ==> (#[trigger] rows@[r])@ == row_text(*old(self), r),
    {
        let mut rows: Vec<String> = Vec::new();
        if !self.needs_redraw {
            return rows;
        }
        let height = self.size.height;
        let mut row: usize = 0;
        while row < height
            invariant
                *self == *old(self),
                self.needs_redraw == true,
                0 <= row <= height,
                height == self.size.height,
                rows@.len() == row as int,
                forall|j: int| 0 <= j < row ==> (#[trigger] rows@[j])@ == row_text(*self, j),
            decreases height - row,
        {
            let line_num = row.saturating_add(self.scroll_offset.row);
            if line_num < self.buffer.lines.len() {
                let left = self.scroll_offset.col;
                let right = left.saturating_add(self.size.width);
                let txt = self.buffer.lines[line_num].get(left..right);
                proof {
                    assert(self.buffer@[line_num as int] == self.buffer.lines@[line_num as int]@);
                }
                rows.push(txt);
            } else if self.buffer.is_empty() && line_num == height / 3 {
                let w = build_welcome_row(self.size.width);
                rows.push(w);
            } else {
                let mut t = String::new();
                proof {
                    reveal_strlit("~");
                }
                t.append("~");
                proof {
                    assert(t@ =~= seq!['~']);
                }
                rows.push(t);
            }
            row += 1;
        }
        self.needs_redraw = false;
        rows
    }

    /// Appends the lines of a text to the buffer, one buffer line per
    /// input text line, and marks the screen for redraw if anything was
    /// added.  Cursor, viewport and size are untouched.
    pub fn load_text(&mut self, contents: &str)
        ensures
            final(self).buffer@ == old(self).buffer@ + buffer_model_of(contents@),
            final(self).needs_redraw == (old(self).needs_redraw || buffer_model_of(
                contents@,
            ).len() > 0),
            final(self).location == old(self).location,
            final(self).scroll_offset == old(self).scroll_offset,
            final(self).size == old(self).size,
    {
        let lines = lines_of(contents);
        let ghost model = buffer_model_of(contents@);
        proof {
            assert(old(self).buffer@ + model.take(0) =~= old(self).buffer@);
        }
        let mut i: usize = 0;
        while i < lines.len()
            invariant
                0 <= i <= lines@.len(),
                lines@.map_values(|l: String| l@) == crate::text::split_lines(contents@),
                model == buffer_model_of(contents@),
                lines@.len() == model.len(),
                self.buffer@ == old(self).buffer@ + model.take(i as int),
                self.needs_redraw == (old(self).needs_redraw || i > 0),
                self.location == old(self).location,
                self.scroll_offset == old(self).scroll_offset,
                self.size == old(self).size,
            decreases lines@.len() - i,
        {
            let ln = Line::from_str(lines[i].as_str());
            proof {
                assert(lines@[i as int]@ == crate::text::split_lines(contents@)[i as int]);
                assert(ln@ == model[i as int]);
            }
            let ghost prev = self.buffer@;
            self.buffer.lines.push(ln);
            self.needs_redraw = true;
            proof {
                assert(self.buffer@ =~= prev + seq![ln@]);
                assert(prev + seq![model[i as int]] =~= old(self).buffer@ + model.take(i + 1));
            }
            i += 1;
        }
        proof {
            assert(model.take(model.len() as int) =~= model);
        }
    }

    /// The screen position at which the terminal cursor is drawn: the
    /// cursor's text-space position minus the scroll offset, clamped at
    /// zero in each component.
    pub fn get_cursor_position(&self) -> (r: Position)
        ensures
            r.row as int == sat_sub(self.location.line as int, self.scroll_offset.row as int),
            r.col as int == sat_sub(
                caret_col(self.buffer@, self.location.line as int, self.location.index as int),
                self.scroll_offset.col as int,
            ),
    {
        self.location_to_position().saturating_sub(&self.scroll_offset)
    }
}

impl Default for EditorView {
    /// A fresh view: empty buffer, cursor and viewport at the origin, a
    /// zero screen size awaiting the first resize, and a pending redraw.
    fn default() -> (r: Self)
        ensures
            r.buffer@ == Seq::<Seq<FragModel>>::empty(),
            r.needs_redraw == true,
            r.size.height == 0 && r.size.width == 0,
            r.location.line == 0 && r.location.index == 0,
            r.scroll_offset.col == 0 && r.scroll_offset.row == 0,
    {
        EditorView {
            buffer: Buffer::default(),
            needs_redraw: true,
            size: Size::default(),
            location: Location::default(),
            scroll_offset: Position::default(),
        }
    }
}

// ---------------------------------------------------------------------
// Laws about movement and scrolling.
// ---------------------------------------------------------------------

/// Law: the one-dimensional viewport clamp brings its target into the
/// visible extent: when the extent is positive, after the clamp the
/// target lies within `[offset, offset + extent)`.
pub proof fn lemma_scroll_brings_into_view(offset: int, to: int, extent: int)
    requires
        0 <= offset,
        0 <= to <= usize::MAX as int,
        extent >= 1,
    ensures
        scroll_1d(offset, to, extent) <= to < scroll_1d(offset, to, extent) + extent,
{
}

/// Law: every movement command keeps the cursor inside the buffer: from
/// a valid location it reaches a valid location, on any buffer and any
/// screen height.  Together with `move_post` this bounds every location
/// a sequence of commands can produce from the origin.
pub proof fn lemma_move_keeps_location_valid(
    buf: Seq<Seq<FragModel>>,
    line: int,
    index: int,
    dir: Direction,
    height: int,
)
    requires
        loc_valid(buf, line, index),
    ensures
        loc_valid(buf, move_spec(buf, line, index, dir, height).0, move_spec(
            buf,
            line,
            index,
            dir,
            height,
        ).1),
{
}

} // verus!
