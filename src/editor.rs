use vstd::prelude::*;
use crate::contents::TerminalError;
use crate::keys::{key_triggers, triggers, KeyEvent, Reader};
use crate::output::{frame_chars, Output, Size};

verus! {

/// The two states of the render loop.
#[derive(Clone, Copy, Debug, PartialEq, Eq, Structural)]
pub enum LoopState {
    Running,
    Stopped,
}

/// The state after a key: the loop stops on the quit key and stays stopped.
pub open spec fn next_state(state: LoopState, quit_key: KeyEvent, key: KeyEvent) -> LoopState {
    if state == LoopState::Running && !triggers(quit_key, key) {
        LoopState::Running
    } else {
        LoopState::Stopped
    }
}

/// What the render loop is, seen from outside.
pub struct LoopModel {
    pub state: LoopState,
    pub pending: Seq<char>,
    pub size: Size,
    pub quit_key: KeyEvent,
}

impl LoopModel {
    /// After a frame has been composed.
    pub open spec fn composed(self) -> LoopModel {
        LoopModel { pending: self.pending + frame_chars(self.size.rows as nat), ..self }
    }

    /// After a flush that the terminal accepted.
    pub open spec fn flushed(self) -> LoopModel {
        LoopModel { pending: Seq::empty(), ..self }
    }

    /// After the decision on a key.
    pub open spec fn after_key(self, key: KeyEvent) -> LoopModel {
        LoopModel { state: next_state(self.state, self.quit_key, key), ..self }
    }

    /// One iteration: compose, flush with success, decide on `key`.
    pub open spec fn iteration(self, key: KeyEvent) -> LoopModel {
        self.composed().flushed().after_key(key)
    }

    /// The iterations over `keys`, in order.
    pub open spec fn run_keys(self, keys: Seq<KeyEvent>) -> LoopModel
        decreases keys.len(),
    {
        if keys.len() == 0 {
            self
        } else {
            self.run_keys(keys.drop_last()).iteration(keys.last())
        }
    }
}

/// The render loop: composes a frame, has it flushed, and decides on each key
/// whether to go on. The caller performs the write of each frame and the read
/// of each key, strictly in turn.
pub struct Editor {
    reader: Reader,
    output: Output,
    quit_key: KeyEvent,
    state: LoopState,
}

impl View for Editor {
    type V = LoopModel;

    closed spec fn view(&self) -> LoopModel {
        LoopModel {
            state: self.state,
            pending: self.output.pending(),
            size: self.output.size(),
            quit_key: self.quit_key,
        }
    }
}

impl Editor {
    /// A running loop for a screen of the given size, which stops on
    /// `quit_key`.
    pub fn new(window_size: Size, quit_key: KeyEvent) -> (r: Editor)
        ensures
            r@ == (LoopModel {
                state: LoopState::Running,
                pending: Seq::empty(),
                size: window_size,
                quit_key,
            }),
    {
        Editor { reader: Reader::new(), output: Output::new(window_size), quit_key, state: LoopState::Running }
    }

    /// The input filter that the caller reads keys through.
    pub fn reader(&self) -> (r: &Reader) {
        &self.reader
    }

    /// Whether the loop goes on.
    pub fn is_running(&self) -> (r: bool)
        ensures
            r == (self@.state == LoopState::Running),
    {
        self.state == LoopState::Running
    }

    /// Composes the next frame into the buffer.
    pub fn refresh_screen(&mut self)
        ensures
            final(self)@ == old(self)@.composed(),
    {
        self.output.refresh_screen();
    }

    /// The composed content, to be written to the terminal in one write.
    pub fn frame(&self) -> (r: &str)
        ensures
            r@ == self@.pending,
    {
        self.output.frame()
    }

    /// Settles the flush of the frame: `accepted` tells whether the terminal
    /// took all of `frame()`. A rejected write is an error for the caller; the
    /// frame then stays in the buffer.
    pub fn flush(&mut self, accepted: bool) -> (r: Result<(), TerminalError>)
        ensures
            accepted ==> r is Ok && final(self)@ == old(self)@.flushed(),
            !accepted ==> r == Err::<(), TerminalError>(TerminalError::Io) && final(self)@
                == old(self)@,
    {
        self.output.flush(accepted)
    }

    /// Decides on a key read after the flush: the loop stops on the quit key.
    /// The result tells whether it goes on.
    pub fn process(&mut self, key: &KeyEvent) -> (r: bool)
        ensures
            final(self)@ == old(self)@.after_key(*key),
            r == (final(self)@.state == LoopState::Running),
    {
        if self.state == LoopState::Running && !key_triggers(&self.quit_key, key) {
            true
        } else {
            self.state = LoopState::Stopped;
            false
        }
    }
}

/// On keys none of which is the quit key, a running loop stays running, and
/// after each iteration nothing is left pending: each frame went out whole in
/// its flush.
pub proof fn lemma_non_quit_keys_keep_running(m: LoopModel, keys: Seq<KeyEvent>)
    requires
        m.state == LoopState::Running,
        forall|i: int| 0 <= i < keys.len() ==> !triggers(m.quit_key, #[trigger] keys[i]),
    ensures
        forall|n: int|
            0 <= n <= keys.len() ==> (#[trigger] m.run_keys(keys.take(n))).state
                == LoopState::Running,
        forall|n: int|
            0 < n <= keys.len() ==> (#[trigger] m.run_keys(keys.take(n))).pending == Seq::<
                char,
            >::empty(),
        forall|n: int|
            0 <= n <= keys.len() ==> (#[trigger] m.run_keys(keys.take(n))).quit_key == m.quit_key,
    decreases keys.len(),
{
    if keys.len() > 0 {
        let prefix = keys.drop_last();
        lemma_non_quit_keys_keep_running(m, prefix);
        assert forall|n: int| 0 <= n <= keys.len() implies {
            &&& (#[trigger] m.run_keys(keys.take(n))).state == LoopState::Running
            &&& n > 0 ==> m.run_keys(keys.take(n)).pending == Seq::<char>::empty()
            &&& m.run_keys(keys.take(n)).quit_key == m.quit_key
        } by {
            if n < keys.len() {
                assert(keys.take(n) =~= prefix.take(n));
            } else {
                assert(keys.take(n) =~= keys);
                assert(prefix.take(prefix.len() as int) =~= prefix);
                let before = m.run_keys(prefix.take(prefix.len() as int));
                assert(before.state == LoopState::Running && before.quit_key == m.quit_key);
                assert(!triggers(m.quit_key, keys[keys.len() - 1]));
                assert(m.run_keys(keys) == before.iteration(keys.last()));
            }
        }
    } else {
        assert(keys.take(0) =~= keys);
    }
}

} // verus!
