//! The substrate of a terminal program: a terminal session that is always
//! restored, a frame buffer that is written to the terminal in one piece, a
//! filter over input events, and the decisions of the render loop.
//!
//! Everything that touches the terminal device itself (the write of a frame,
//! the blocking read of an event, the switch of terminal modes) is left to the
//! caller: the library decides what to write and what to do next, the caller
//! performs it and reports the outcome back.

mod ansi;
mod contents;
mod editor;
mod keys;
mod output;
mod session;

pub use ansi::{
    clear_all_chars, decimal, digit_char, home_chars, lemma_home_chars, move_to_chars, ESC,
};
pub use contents::{after_appends, lemma_appends_flushed_whole, EditorContents, TerminalError};
pub use editor::{lemma_non_quit_keys_keep_running, next_state, Editor, LoopModel, LoopState};
pub use keys::{
    key_press_of, key_triggers, triggers, InputEvent, KeyCode, KeyEvent, KeyEventKind, Modifiers,
    Reader,
};
pub use output::{
    fill_count, frame_chars, lemma_frame_fill_markers, rows_chars, Output, Size, FILL_MARKER,
};
pub use session::{
    apply, apply_all, lemma_end_idempotent, lemma_end_reverses_begin, shutdown_plan,
    startup_plan, step_if, undo, untouched, SessionConfig, SessionState, TerminalAction,
    TerminalSession,
};
