//! Tests for cursor movement, viewport scrolling and rendering.

use ledit::{Direction, EditorCommand, EditorView, Location, Position, Size};

fn view_with(text: &str, width: usize, height: usize) -> EditorView {
    let mut v = EditorView::default();
    v.load_text(text);
    v.handle_command(EditorCommand::Resize(Size { height, width }));
    v
}

fn move_cursor(v: &mut EditorView, dir: Direction, times: usize) {
    for _ in 0..times {
        v.handle_command(EditorCommand::MoveCursor(dir));
    }
}

#[test]
fn load_text_counts_lines() {
    let mut v = EditorView::default();
    v.load_text("one\ntwo\nthree");
    assert_eq!(v.buffer.line_count(), 3);
    assert!(!v.buffer.is_empty());
}

#[test]
fn load_empty_text_leaves_buffer_empty() {
    let mut v = EditorView::default();
    v.load_text("");
    assert_eq!(v.buffer.line_count(), 0);
    assert!(v.buffer.is_empty());
}

#[test]
fn trailing_newline_opens_no_extra_line() {
    let mut v = EditorView::default();
    v.load_text("a\nb\n");
    assert_eq!(v.buffer.line_count(), 2);
}

#[test]
fn carriage_return_before_newline_is_stripped() {
    let mut v = EditorView::default();
    v.load_text("ab\r\ncd");
    assert_eq!(v.buffer.line_count(), 2);
    assert_eq!(v.buffer.lines[0].len(), 2);
    assert_eq!(v.buffer.lines[0].get(0..2), "ab");
}

#[test]
fn end_home_and_right_on_one_line() {
    // one line of five half-width graphemes, cursor starts at index 0
    let mut v = view_with("héllo", 80, 24);
    assert_eq!(v.location, Location { line: 0, index: 0 });
    v.handle_command(EditorCommand::MoveCursor(Direction::End));
    assert_eq!(v.location.index, 5);
    v.handle_command(EditorCommand::MoveCursor(Direction::Home));
    assert_eq!(v.location.index, 0);
    move_cursor(&mut v, Direction::Right, 5);
    assert_eq!(v.location.index, 5);
}

#[test]
fn down_scrolls_viewport_to_keep_cursor_visible() {
    // viewport height 10, 20-line buffer, 15 steps down from line 0
    let mut text = String::new();
    for i in 0..20 {
        text.push_str(&format!("line {i}\n"));
    }
    let mut v = view_with(&text, 80, 10);
    move_cursor(&mut v, Direction::Down, 15);
    assert_eq!(v.location.line, 15);
    assert_eq!(v.scroll_offset.row, 6);
    assert!(v.scroll_offset.row <= v.location.line);
    assert!(v.location.line < v.scroll_offset.row + 10);
    assert_eq!(v.get_cursor_position(), Position { col: 0, row: 9 });
}

#[test]
fn down_stops_at_last_line() {
    let mut v = view_with("a\nb\nc", 80, 24);
    move_cursor(&mut v, Direction::Down, 100);
    assert_eq!(v.location.line, 2);
}

#[test]
fn up_stops_at_first_line() {
    let mut v = view_with("a\nb\nc", 80, 24);
    move_cursor(&mut v, Direction::Up, 3);
    assert_eq!(v.location, Location { line: 0, index: 0 });
}

#[test]
fn vertical_move_snaps_index_to_shorter_line() {
    let mut v = view_with("longest\nab", 80, 24);
    v.handle_command(EditorCommand::MoveCursor(Direction::End));
    assert_eq!(v.location.index, 7);
    v.handle_command(EditorCommand::MoveCursor(Direction::Down));
    assert_eq!(v.location, Location { line: 1, index: 2 });
}

#[test]
fn left_wraps_to_end_of_previous_line() {
    let mut v = view_with("abc\nde", 80, 24);
    v.handle_command(EditorCommand::MoveCursor(Direction::Down));
    assert_eq!(v.location, Location { line: 1, index: 0 });
    v.handle_command(EditorCommand::MoveCursor(Direction::Left));
    assert_eq!(v.location, Location { line: 0, index: 3 });
}

#[test]
fn right_wraps_to_start_of_next_line() {
    let mut v = view_with("abc\nde", 80, 24);
    move_cursor(&mut v, Direction::Right, 3);
    assert_eq!(v.location, Location { line: 0, index: 3 });
    v.handle_command(EditorCommand::MoveCursor(Direction::Right));
    assert_eq!(v.location, Location { line: 1, index: 0 });
}

#[test]
fn movement_on_empty_buffer_keeps_origin() {
    let mut v = view_with("", 80, 24);
    move_cursor(&mut v, Direction::Down, 2);
    move_cursor(&mut v, Direction::Right, 2);
    move_cursor(&mut v, Direction::Left, 2);
    move_cursor(&mut v, Direction::Up, 2);
    v.handle_command(EditorCommand::MoveCursor(Direction::End));
    assert_eq!(v.location, Location { line: 0, index: 0 });
    assert_eq!(v.get_cursor_position(), Position { col: 0, row: 0 });
}

#[test]
fn page_down_moves_by_height_minus_one() {
    let mut text = String::new();
    for i in 0..30 {
        text.push_str(&format!("l{i}\n"));
    }
    let mut v = view_with(&text, 80, 10);
    v.handle_command(EditorCommand::MoveCursor(Direction::PageDown));
    assert_eq!(v.location.line, 9);
    v.handle_command(EditorCommand::MoveCursor(Direction::PageUp));
    assert_eq!(v.location.line, 0);
}

#[test]
fn cursor_column_counts_display_width() {
    // the CJK char is two columns wide, so index 1 sits at column 2
    let mut v = view_with("你abc", 80, 24);
    v.handle_command(EditorCommand::MoveCursor(Direction::Right));
    assert_eq!(v.location.index, 1);
    assert_eq!(v.get_cursor_position(), Position { col: 2, row: 0 });
}

#[test]
fn horizontal_scroll_follows_cursor() {
    let mut v = view_with("abcdefghij", 5, 10);
    v.handle_command(EditorCommand::MoveCursor(Direction::End));
    // cursor at column 10, viewport width 5: offset becomes 10 - 5 + 1
    assert_eq!(v.scroll_offset.col, 6);
    assert_eq!(v.get_cursor_position(), Position { col: 4, row: 0 });
    v.handle_command(EditorCommand::MoveCursor(Direction::Home));
    assert_eq!(v.scroll_offset.col, 0);
}

#[test]
fn render_emits_one_string_per_row() {
    let mut v = view_with("abc\nde", 10, 5);
    let rows = v.render();
    assert_eq!(rows.len(), 5);
    assert_eq!(rows[0], "abc");
    assert_eq!(rows[1], "de");
    assert_eq!(rows[2], "~");
    assert_eq!(rows[3], "~");
    assert_eq!(rows[4], "~");
}

#[test]
fn render_is_a_no_op_without_pending_redraw() {
    let mut v = view_with("abc", 10, 5);
    let first = v.render();
    assert_eq!(first.len(), 5);
    let second = v.render();
    assert!(second.is_empty());
}

#[test]
fn moving_within_view_needs_no_repaint() {
    let mut v = view_with("abc\nde", 10, 5);
    let _ = v.render();
    v.handle_command(EditorCommand::MoveCursor(Direction::Right));
    assert!(v.render().is_empty());
}

#[test]
fn scrolling_marks_redraw_pending() {
    let mut text = String::new();
    for i in 0..20 {
        text.push_str(&format!("l{i}\n"));
    }
    let mut v = view_with(&text, 80, 5);
    let _ = v.render();
    move_cursor(&mut v, Direction::Down, 7);
    let rows = v.render();
    assert_eq!(rows.len(), 5);
    assert_eq!(rows[0], "l3");
    assert_eq!(rows[4], "l7");
}

#[test]
fn render_clips_lines_to_viewport_columns() {
    let mut v = view_with("abcdefghij\n你abc", 4, 3);
    let rows = v.render();
    assert_eq!(rows[0], "abcd");
    // the wide char fills columns 0..2, then 'a' and 'b'
    assert_eq!(rows[1], "你ab");
    assert_eq!(rows[2], "~");
}

#[test]
fn render_shows_ellipsis_for_straddling_wide_char() {
    let mut v = view_with("你abc", 4, 2);
    // scroll one column right: the wide char straddles the left edge
    v.handle_command(EditorCommand::MoveCursor(Direction::End));
    assert_eq!(v.scroll_offset.col, 2);
    let rows = v.render();
    assert_eq!(rows[0], "abc");
    let mut v2 = view_with("a你bc", 2, 2);
    let rows2 = v2.render();
    // the wide char straddles the right edge of the two-column viewport
    assert_eq!(rows2[0], "a⋯");
}

#[test]
fn render_slices_by_display_columns_not_grapheme_count() {
    // two graphemes spanning four display columns all fit a width-4 view
    let mut v = view_with("你你", 4, 1);
    let rows = v.render();
    assert_eq!(rows[0], "你你");
}

#[test]
fn empty_buffer_shows_welcome_banner() {
    let mut v = view_with("", 40, 9);
    let rows = v.render();
    assert_eq!(rows.len(), 9);
    // one third of the height, with the message centered behind a tilde
    assert_eq!(rows[3], "~  Welcome to ledit -- Version 0.1.0");
    assert_eq!(rows[0], "~");
    assert_eq!(rows[8], "~");
}

#[test]
fn welcome_banner_is_truncated_to_narrow_screens() {
    let mut v = view_with("", 30, 3);
    let rows = v.render();
    assert_eq!(rows[1], "~Welcome to ledit -- Version 0.");
}

#[test]
fn nonempty_buffer_shows_no_banner() {
    let mut v = view_with("x", 40, 9);
    let rows = v.render();
    assert_eq!(rows[0], "x");
    assert_eq!(rows[3], "~");
}

#[test]
fn resize_reclamps_viewport() {
    let mut text = String::new();
    for i in 0..20 {
        text.push_str(&format!("l{i}\n"));
    }
    let mut v = view_with(&text, 80, 10);
    move_cursor(&mut v, Direction::Down, 15);
    assert_eq!(v.scroll_offset.row, 6);
    v.handle_command(EditorCommand::Resize(Size { height: 5, width: 80 }));
    // cursor line 15 must fit into the five visible rows
    assert_eq!(v.scroll_offset.row, 11);
    assert!(v.scroll_offset.row <= 15 && 15 < v.scroll_offset.row + 5);
}

#[test]
fn quit_command_changes_nothing() {
    let mut v = view_with("abc", 10, 5);
    let before = (v.location, v.scroll_offset);
    v.handle_command(EditorCommand::Quit);
    assert_eq!((v.location, v.scroll_offset), before);
}

#[test]
fn location_sub_saturates() {
    let a = Location { line: 5, index: 2 };
    let b = Location { line: 3, index: 7 };
    assert_eq!(a.sub(&b), Location { line: 2, index: 0 });
}

#[test]
fn position_saturating_sub_saturates() {
    let a = Position { col: 1, row: 9 };
    let b = Position { col: 4, row: 2 };
    assert_eq!(a.saturating_sub(&b), Position { col: 0, row: 7 });
}
