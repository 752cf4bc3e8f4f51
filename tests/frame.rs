use kilo_core::{EditorContents, Output, Size, TerminalError};

fn count_markers(s: &str) -> usize {
    s.chars().filter(|c| *c == '~').count()
}

#[test]
fn draw_rows_three_rows() {
    let mut out = Output::new(Size { columns: 80, rows: 3 });
    out.draw_rows();
    assert_eq!(out.frame(), "~\r\n~\r\n~");
}

#[test]
fn draw_rows_zero_rows_is_empty() {
    let mut out = Output::new(Size { columns: 0, rows: 0 });
    out.draw_rows();
    assert_eq!(out.frame(), "");
}

#[test]
fn draw_rows_one_row_has_no_line_break() {
    let mut out = Output::new(Size { columns: 10, rows: 1 });
    out.draw_rows();
    assert_eq!(out.frame(), "~");
}

#[test]
fn frame_holds_one_marker_per_row() {
    for rows in [0usize, 1, 2, 24, 100] {
        let mut out = Output::new(Size { columns: 80, rows });
        out.refresh_screen();
        let frame = out.frame().to_string();
        assert_eq!(count_markers(&frame), rows);
        assert_eq!(frame.matches("\r\n").count(), rows.saturating_sub(1));
    }
}

#[test]
fn refresh_screen_exact_bytes() {
    let mut out = Output::new(Size { columns: 80, rows: 2 });
    out.refresh_screen();
    assert_eq!(out.frame(), "\x1b[2J\x1b[1;1H~\r\n~\x1b[1;1H");
}

#[test]
fn refresh_screen_empty_screen_is_valid() {
    let mut out = Output::new(Size { columns: 0, rows: 0 });
    out.refresh_screen();
    assert_eq!(out.frame(), "\x1b[2J\x1b[1;1H\x1b[1;1H");
    assert_eq!(out.flush(true), Ok(()));
    assert_eq!(out.frame(), "");
}

#[test]
fn flush_empty_buffer_succeeds() {
    let mut buf = EditorContents::new();
    assert_eq!(buf.as_str().len(), 0);
    assert_eq!(buf.flush(true), Ok(()));
    assert_eq!(buf.as_str(), "");
}

#[test]
fn flush_rejected_keeps_content() {
    let mut buf = EditorContents::new();
    buf.push_str("abc");
    assert_eq!(buf.flush(false), Err(TerminalError::Io));
    assert_eq!(buf.as_str(), "abc");
    assert_eq!(buf.flush(true), Ok(()));
    assert_eq!(buf.as_str(), "");
}

#[test]
fn appends_go_out_whole_in_one_flush() {
    let mut buf = EditorContents::new();
    buf.push_str("\x1b[2J");
    buf.push('~');
    buf.push_str("\x1b[1;1H");
    assert_eq!(buf.as_str(), "\x1b[2J~\x1b[1;1H");
    assert_eq!(buf.flush(true), Ok(()));
    buf.push_str("next");
    assert_eq!(buf.as_str(), "next");
}

#[test]
fn write_accepts_utf8() {
    let mut buf = EditorContents::new();
    buf.push('a');
    assert_eq!(buf.write("é\x1b[K".as_bytes()), Ok(5));
    assert_eq!(buf.as_str(), "aé\x1b[K");
}

#[test]
fn write_refuses_invalid_utf8() {
    let mut buf = EditorContents::new();
    buf.push_str("ok");
    assert_eq!(buf.write(&[0x61, 0xff, 0x62]), Err(TerminalError::Io));
    assert_eq!(buf.as_str(), "ok");
}

#[test]
fn write_empty_is_zero() {
    let mut buf = EditorContents::new();
    assert_eq!(buf.write(&[]), Ok(0));
    assert_eq!(buf.as_str(), "");
}
