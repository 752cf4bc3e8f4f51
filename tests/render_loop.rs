use kilo_core::{
    Editor, InputEvent, KeyCode, KeyEvent, KeyEventKind, Modifiers, Reader, SessionConfig,
    Size, TerminalAction, TerminalError, TerminalSession,
};

fn plain(c: char) -> KeyEvent {
    KeyEvent { code: KeyCode::Char(c), modifiers: Modifiers::none() }
}

fn full_config() -> SessionConfig {
    SessionConfig { bracketed_paste: true, focus_change: true, mouse_capture: true }
}

#[test]
fn scenario_a_then_q_renders_two_frames() {
    let mut editor = Editor::new(Size { columns: 80, rows: 24 }, KeyEvent::default_quit());
    let mut frames: Vec<String> = Vec::new();
    let keys = [plain('a'), plain('q')];
    let mut k = 0;
    while editor.is_running() {
        editor.refresh_screen();
        frames.push(editor.frame().to_string());
        assert_eq!(editor.flush(true), Ok(()));
        assert_eq!(editor.frame(), "");
        let go_on = editor.process(&keys[k]);
        k += 1;
        assert_eq!(go_on, editor.is_running());
    }
    assert_eq!(frames.len(), 2);
    for f in &frames {
        assert_eq!(f.chars().filter(|c| *c == '~').count(), 24);
    }
    assert!(!editor.is_running());
}

#[test]
fn scenario_io_error_on_third_flush() {
    let mut session = TerminalSession::new(full_config());
    for a in session.begin() {
        session.record(a);
    }
    let mut editor = Editor::new(Size { columns: 80, rows: 24 }, KeyEvent::default_quit());
    let mut good_frames = 0;
    let mut flushes = 0;
    let outcome: Result<(), TerminalError> = loop {
        editor.refresh_screen();
        flushes += 1;
        if let Err(e) = editor.flush(flushes != 3) {
            break Err(e);
        }
        good_frames += 1;
        editor.process(&plain('x'));
    };
    assert_eq!(outcome, Err(TerminalError::Io));
    assert_eq!(good_frames, 2);
    let shutdown = session.end();
    assert!(shutdown.contains(&TerminalAction::DisableRawMode));
    assert!(shutdown.contains(&TerminalAction::LeaveAlternateScreen));
    assert!(!session.raw_mode_enabled());
    assert!(!session.alternate_screen_active());
}

#[test]
fn non_quit_keys_keep_running_and_empty_after_flush() {
    let mut editor = Editor::new(Size { columns: 5, rows: 3 }, KeyEvent::default_quit());
    let keys = [
        plain('a'),
        KeyEvent { code: KeyCode::Esc, modifiers: Modifiers::none() },
        KeyEvent { code: KeyCode::Up, modifiers: Modifiers::none() },
        plain('Q'),
        KeyEvent { code: KeyCode::F(1), modifiers: Modifiers::none() },
    ];
    for key in keys.iter() {
        editor.refresh_screen();
        assert_eq!(editor.flush(true), Ok(()));
        assert_eq!(editor.frame(), "");
        assert!(editor.process(key));
        assert!(editor.is_running());
    }
}

#[test]
fn quit_key_ignores_extra_modifiers() {
    let mut editor = Editor::new(Size { columns: 5, rows: 3 }, KeyEvent::default_quit());
    let ctrl_q = KeyEvent {
        code: KeyCode::Char('q'),
        modifiers: Modifiers { control: true, alt: false, shift: false },
    };
    assert!(!editor.process(&ctrl_q));
    assert!(!editor.is_running());
}

#[test]
fn configured_quit_key_needs_its_modifier() {
    let quit = KeyEvent {
        code: KeyCode::Char('x'),
        modifiers: Modifiers { control: true, alt: false, shift: false },
    };
    let mut editor = Editor::new(Size { columns: 5, rows: 3 }, quit);
    assert!(editor.process(&plain('x')));
    assert!(editor.process(&plain('q')));
    assert!(!editor.process(&quit));
}

#[test]
fn stopped_loop_stays_stopped() {
    let mut editor = Editor::new(Size { columns: 5, rows: 3 }, KeyEvent::default_quit());
    assert!(!editor.process(&plain('q')));
    assert!(!editor.process(&plain('a')));
    assert!(!editor.is_running());
}

#[test]
fn rejected_flush_reports_io_and_keeps_frame() {
    let mut editor = Editor::new(Size { columns: 5, rows: 1 }, KeyEvent::default_quit());
    editor.refresh_screen();
    let frame = editor.frame().to_string();
    assert_eq!(editor.flush(false), Err(TerminalError::Io));
    assert_eq!(editor.frame(), frame);
    assert!(editor.is_running());
}

#[test]
fn reader_keeps_only_key_presses() {
    let reader = Reader::new();
    let a = plain('a');
    assert_eq!(reader.key_press(&InputEvent::Key(a, KeyEventKind::Press)), Some(a));
    assert_eq!(reader.key_press(&InputEvent::Key(a, KeyEventKind::Repeat)), Some(a));
    assert_eq!(reader.key_press(&InputEvent::Key(a, KeyEventKind::Release)), None);
    assert_eq!(reader.key_press(&InputEvent::Mouse), None);
    assert_eq!(reader.key_press(&InputEvent::FocusGained), None);
    assert_eq!(reader.key_press(&InputEvent::FocusLost), None);
    assert_eq!(reader.key_press(&InputEvent::Paste), None);
    assert_eq!(reader.key_press(&InputEvent::Resize(80, 24)), None);
}

#[test]
fn reader_skips_until_first_key() {
    let reader = Reader::new();
    let events = [
        InputEvent::Mouse,
        InputEvent::FocusLost,
        InputEvent::Paste,
        InputEvent::Key(plain('z'), KeyEventKind::Press),
        InputEvent::Key(plain('y'), KeyEventKind::Press),
    ];
    let first = events.iter().find_map(|e| reader.key_press(e));
    assert_eq!(first, Some(plain('z')));
}

#[test]
fn session_begin_order_full() {
    let session = TerminalSession::new(full_config());
    assert_eq!(
        session.begin(),
        vec![
            TerminalAction::EnterAlternateScreen,
            TerminalAction::EnableRawMode,
            TerminalAction::EnableBracketedPaste,
            TerminalAction::EnableFocusChange,
            TerminalAction::EnableMouseCapture,
        ]
    );
}

#[test]
fn session_begin_order_minimal() {
    let config = SessionConfig { bracketed_paste: false, focus_change: false, mouse_capture: false };
    let session = TerminalSession::new(config);
    assert_eq!(
        session.begin(),
        vec![TerminalAction::EnterAlternateScreen, TerminalAction::EnableRawMode]
    );
}

#[test]
fn session_end_reverses_begin() {
    let mut session = TerminalSession::new(full_config());
    for a in session.begin() {
        session.record(a);
    }
    assert!(session.raw_mode_enabled());
    assert!(session.alternate_screen_active());
    assert!(session.begin().is_empty());
    assert_eq!(
        session.end(),
        vec![
            TerminalAction::DisableMouseCapture,
            TerminalAction::DisableFocusChange,
            TerminalAction::DisableBracketedPaste,
            TerminalAction::DisableRawMode,
            TerminalAction::LeaveAlternateScreen,
            TerminalAction::ClearScreen,
        ]
    );
}

#[test]
fn session_end_twice_is_noop() {
    let mut session = TerminalSession::new(full_config());
    for a in session.begin() {
        session.record(a);
    }
    assert!(!session.end().is_empty());
    let state = session.current();
    assert!(session.end().is_empty());
    assert_eq!(session.current(), state);
}

#[test]
fn session_end_without_begin_is_noop() {
    let mut session = TerminalSession::new(full_config());
    let state = session.current();
    assert!(session.end().is_empty());
    assert_eq!(session.current(), state);
    assert!(!session.raw_mode_enabled());
}

#[test]
fn session_end_after_partial_begin() {
    let mut session = TerminalSession::new(full_config());
    let plan = session.begin();
    session.record(plan[0]);
    assert_eq!(
        session.end(),
        vec![TerminalAction::LeaveAlternateScreen, TerminalAction::ClearScreen]
    );
}
