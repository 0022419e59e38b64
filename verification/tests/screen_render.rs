use hecto::Editor;
use hecto::InputEvent;
use hecto::KeyCode;
use hecto::KeyPress;
use hecto::Position;
use hecto::Size;
use hecto::TermCommand;
use hecto::screen::welcome_row;

fn row_strings(cmds: &[TermCommand]) -> Vec<String> {
    let mut rows: Vec<String> = Vec::new();
    for cmd in cmds {
        match cmd {
            TermCommand::ClearLine => rows.push(String::new()),
            TermCommand::Print(s) if s != "\r\n" => {
                rows.last_mut().unwrap().push_str(s);
            }
            _ => {}
        }
    }
    rows
}

#[test]
fn welcome_row_truncates_wide_message_to_width() {
    let row = welcome_row("demo editor -- version 0.1", 20);
    assert_eq!(row.len(), 20);
    assert_eq!(row, "~demo editor -- vers");
}

#[test]
fn welcome_row_centers_narrow_message() {
    // padding = (9 - 3) / 2 = 3, one space fewer after the marker
    assert_eq!(welcome_row("abc", 9), "~  abc");
    // message exactly as wide as the terminal: cut to the width
    assert_eq!(welcome_row("abc", 3), "~ab");
    // a width of zero leaves nothing
    assert_eq!(welcome_row("abc", 0), "");
}

#[test]
fn welcome_row_never_exceeds_width() {
    let messages = ["", "a", "hello", "demo editor -- version 0.1"];
    for msg in messages {
        for width in 0..40 {
            let row = welcome_row(msg, width);
            assert!(row.len() <= width);
            if msg.len() >= width {
                assert_eq!(row.len(), width);
            }
        }
    }
}

#[test]
fn frame_of_height_nine_puts_welcome_at_row_three() {
    let e = Editor::default();
    let cmds = e.refresh_screen(Size { width: 40, height: 9 });
    let rows = row_strings(&cmds);
    assert_eq!(rows.len(), 9);
    for (i, row) in rows.iter().enumerate() {
        if i == 3 {
            assert_eq!(row, "~    hecto editor -- version 0.1.0");
        } else {
            assert_eq!(row, "~");
        }
    }
}

#[test]
fn frame_has_separator_after_every_row_but_the_last() {
    let e = Editor::default();
    let height = 4;
    let cmds = e.refresh_screen(Size { width: 10, height });
    // one Hide up front, then per row: ClearLine, Print(content), Print("\r\n")
    // except after the last row, then MoveCursorTo, Show, Flush
    assert_eq!(cmds.len(), 1 + 3 * height - 1 + 3);
    assert_eq!(cmds[0], TermCommand::HideCursor);
    for r in 0..height {
        assert_eq!(cmds[1 + 3 * r], TermCommand::ClearLine);
        assert!(matches!(cmds[1 + 3 * r + 1], TermCommand::Print(_)));
        if r + 1 < height {
            assert_eq!(
                cmds[1 + 3 * r + 2],
                TermCommand::Print(String::from("\r\n"))
            );
        }
    }
    let tail = cmds.len() - 3;
    assert_eq!(cmds[tail], TermCommand::MoveCursorTo(Position { x: 0, y: 0 }));
    assert_eq!(cmds[tail + 1], TermCommand::ShowCursor);
    assert_eq!(cmds[tail + 2], TermCommand::Flush);
}

#[test]
fn frame_of_height_one_is_the_welcome_row_alone() {
    let e = Editor::default();
    let cmds = e.refresh_screen(Size { width: 3, height: 1 });
    let rows = row_strings(&cmds);
    assert_eq!(rows, vec![String::from("~he")]);
    // no separator anywhere
    assert!(!cmds.contains(&TermCommand::Print(String::from("\r\n"))));
}

#[test]
fn frame_of_height_zero_draws_no_rows() {
    let e = Editor::default();
    let cmds = e.refresh_screen(Size { width: 10, height: 0 });
    assert_eq!(
        cmds,
        vec![
            TermCommand::HideCursor,
            TermCommand::MoveCursorTo(Position { x: 0, y: 0 }),
            TermCommand::ShowCursor,
            TermCommand::Flush,
        ]
    );
}

#[test]
fn frame_repositions_cursor_where_it_stands() {
    let size = Size { width: 8, height: 5 };
    let mut e = Editor::default();
    e.evaluate_event(
        &InputEvent::Key(KeyPress { code: KeyCode::Char('l'), control_only: false }),
        size,
    );
    e.evaluate_event(
        &InputEvent::Key(KeyPress { code: KeyCode::Char('j'), control_only: false }),
        size,
    );
    let cmds = e.refresh_screen(size);
    assert!(cmds.contains(&TermCommand::MoveCursorTo(Position { x: 1, y: 1 })));
}

#[test]
fn quitting_frame_is_the_shutdown_frame() {
    let size = Size { width: 8, height: 5 };
    let mut e = Editor::default();
    e.evaluate_event(
        &InputEvent::Key(KeyPress { code: KeyCode::Char('q'), control_only: true }),
        size,
    );
    let cmds = e.refresh_screen(size);
    assert_eq!(
        cmds,
        vec![
            TermCommand::HideCursor,
            TermCommand::ClearScreen,
            TermCommand::Print(String::from("Goodbye.\r\n")),
            TermCommand::ShowCursor,
            TermCommand::Flush,
        ]
    );
}

#[test]
fn draw_rows_alone_matches_the_frame_rows() {
    let size = Size { width: 12, height: 2 };
    let cmds = Editor::draw_rows(size);
    assert_eq!(
        cmds,
        vec![
            TermCommand::ClearLine,
            TermCommand::Print(Editor::draw_welcome_message(12)),
            TermCommand::Print(String::from("\r\n")),
            TermCommand::ClearLine,
            TermCommand::Print(Editor::draw_empty_row()),
        ]
    );
    assert_eq!(Editor::draw_empty_row(), "~");
}
