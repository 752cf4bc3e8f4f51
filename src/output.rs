use vstd::prelude::*;
use crate::ansi::{clear_all_chars, clear_all_sequence, home_chars, lemma_home_chars, move_to_sequence};
use crate::contents::{EditorContents, TerminalError};

verus! {

/// The size of the screen, in character cells.
#[derive(Clone, Copy, Debug, PartialEq, Eq, Structural)]
pub struct Size {
    pub columns: usize,
    pub rows: usize,
}

/// The fill marker drawn at the start of each screen line.
pub const FILL_MARKER: char = '~';

/// The rows of an empty screen: one fill marker per row, with a line break
/// (`\r\n`) between consecutive markers and none after the last.
pub open spec fn rows_chars(rows: nat) -> Seq<char>
    decreases rows,
{
    if rows == 0 {
        Seq::empty()
    } else if rows == 1 {
        seq![FILL_MARKER]
    } else {
        rows_chars((rows - 1) as nat) + seq!['\r', '\n', FILL_MARKER]
    }
}

/// One whole frame: clear the screen, go home, draw the rows, go home.
pub open spec fn frame_chars(rows: nat) -> Seq<char> {
    clear_all_chars() + home_chars() + rows_chars(rows) + home_chars()
}

/// How many fill markers `s` holds.
pub open spec fn fill_count(s: Seq<char>) -> nat {
    s.filter(|c: char| c == FILL_MARKER).len()
}

proof fn lemma_fill_count_add(a: Seq<char>, b: Seq<char>)
    ensures
        fill_count(a + b) == fill_count(a) + fill_count(b),
{
    Seq::filter_distributes_over_add(a, b, |c: char| c == FILL_MARKER);
}

proof fn lemma_no_fill(s: Seq<char>)
    requires
        forall|i: int| 0 <= i < s.len() ==> s[i] != FILL_MARKER,
    ensures
        fill_count(s) == 0,
{
    s.lemma_all_neg_filter_empty(|c: char| c == FILL_MARKER);
}

/// The layout of the rows: marker `k` stands at index `3k`, and each marker
/// but the last is followed by `\r\n`; there is nothing else.
proof fn lemma_rows_layout(rows: nat)
    ensures
        rows_chars(rows).len() == if rows == 0 { 0 } else { 3 * rows - 2 },
        forall|k: int| 0 <= k < rows ==> #[trigger] rows_chars(rows)[3 * k] == FILL_MARKER,
        forall|k: int|
            0 <= k < rows - 1 ==> #[trigger] rows_chars(rows)[3 * k + 1] == '\r' && rows_chars(
                rows,
            )[3 * k + 2] == '\n',
        fill_count(rows_chars(rows)) == rows,
    decreases rows,
{
    if rows == 1 {
        assert(fill_count(seq![FILL_MARKER]) == 1) by {
            Seq::<char>::empty().lemma_filter_len_push(|c: char| c == FILL_MARKER, FILL_MARKER);
            assert(Seq::<char>::empty().push(FILL_MARKER) =~= seq![FILL_MARKER]);
            Seq::<char>::empty().lemma_all_neg_filter_empty(|c: char| c == FILL_MARKER);
        };
    } else if rows > 1 {
        let prev = rows_chars((rows - 1) as nat);
        lemma_rows_layout((rows - 1) as nat);
        lemma_fill_count_add(prev, seq!['\r', '\n', FILL_MARKER]);
        let tail = seq!['\r', '\n'];
        lemma_no_fill(tail);
        tail.lemma_filter_len_push(|c: char| c == FILL_MARKER, FILL_MARKER);
        assert(tail.push(FILL_MARKER) =~= seq!['\r', '\n', FILL_MARKER]);
        assert forall|k: int| 0 <= k < rows implies #[trigger] rows_chars(rows)[3 * k]
            == FILL_MARKER by {
            if k < rows - 1 {
                assert(rows_chars(rows)[3 * k] == prev[3 * k]);
            }
        }
        assert forall|k: int| 0 <= k < rows - 1 implies #[trigger] rows_chars(rows)[3 * k + 1]
            == '\r' && rows_chars(rows)[3 * k + 2] == '\n' by {
            if k < rows - 2 {
                assert(rows_chars(rows)[3 * k + 1] == prev[3 * k + 1]);
                assert(rows_chars(rows)[3 * k + 2] == prev[3 * k + 2]);
            }
        }
    } else {
        Seq::<char>::empty().lemma_all_neg_filter_empty(|c: char| c == FILL_MARKER);
    }
}

/// A frame for a screen of `rows` rows holds exactly `rows` fill markers. Its
/// rows part starts each marker at index `3k`, puts a line break (`\r\n`)
/// after every marker but the last, and holds nothing else.
pub proof fn lemma_frame_fill_markers(rows: nat)
    ensures
        fill_count(frame_chars(rows)) == rows,
        rows_chars(rows).len() == if rows == 0 { 0 } else { 3 * rows - 2 },
        forall|k: int| 0 <= k < rows ==> #[trigger] rows_chars(rows)[3 * k] == FILL_MARKER,
        forall|k: int|
            0 <= k < rows - 1 ==> #[trigger] rows_chars(rows)[3 * k + 1] == '\r' && rows_chars(
                rows,
            )[3 * k + 2] == '\n',
{
    lemma_rows_layout(rows);
    lemma_home_chars();
    lemma_no_fill(clear_all_chars());
    lemma_no_fill(home_chars());
    lemma_fill_count_add(clear_all_chars(), home_chars());
    lemma_fill_count_add(clear_all_chars() + home_chars(), rows_chars(rows));
    lemma_fill_count_add(clear_all_chars() + home_chars() + rows_chars(rows), home_chars());
}

/// Draws frames of a fixed screen size into a frame buffer.
pub struct Output {
    window_size: Size,
    editor_contents: EditorContents,
}

impl Output {
    /// An output for a screen of the given size, with an empty buffer.
    pub fn new(window_size: Size) -> (r: Output)
        ensures
            r.size() == window_size,
            r.pending() == Seq::<char>::empty(),
    {
        Output { window_size, editor_contents: EditorContents::new() }
    }

    /// The screen size.
    pub closed spec fn size(&self) -> Size {
        self.window_size
    }

    /// The content that waits for the next flush.
    pub closed spec fn pending(&self) -> Seq<char> {
        self.editor_contents@
    }

    /// Appends the rows of an empty screen.
    pub fn draw_rows(&mut self)
        ensures
            final(self).size() == old(self).size(),
            final(self).pending() == old(self).pending() + rows_chars(
                old(self).size().rows as nat,
            ),
    {
        let screen_rows = self.window_size.rows;
        let mut i: usize = 0;
        while i < screen_rows
            invariant
                i <= screen_rows,
                screen_rows == self.window_size.rows,
                self.window_size == old(self).window_size,
                self.editor_contents@ == old(self).editor_contents@ + rows_chars(i as nat),
            decreases screen_rows - i,
        {
            if i > 0 {
                self.editor_contents.push_str("\r\n");
            }
            self.editor_contents.push(FILL_MARKER);
            proof {
                reveal_strlit("\r\n");
            }
            assert(self.editor_contents@ =~= old(self).editor_contents@ + rows_chars(
                (i + 1) as nat,
            ));
            i = i + 1;
        }
    }

    /// Composes one whole frame after what is pending: clear the screen and go
    /// home, draw the rows, go home again. Nothing is written here; the frame
    /// waits in the buffer for `flush`.
    pub fn refresh_screen(&mut self)
        ensures
            final(self).size() == old(self).size(),
            final(self).pending() == old(self).pending() + frame_chars(
                old(self).size().rows as nat,
            ),
    {
        let clear = clear_all_sequence();
        self.editor_contents.push_str(clear.as_str());
        let home = move_to_sequence(0, 0);
        self.editor_contents.push_str(home.as_str());
        self.draw_rows();
        self.editor_contents.push_str(home.as_str());
        assert(self.editor_contents@ =~= old(self).editor_contents@ + frame_chars(
            self.window_size.rows as nat,
        ));
    }

    /// The pending content, as it is to be written to the terminal.
    pub fn frame(&self) -> (r: &str)
        ensures
            r@ == self.pending(),
    {
        self.editor_contents.as_str()
    }

    /// Settles the flush of the pending content (see `EditorContents::flush`).
    pub fn flush(&mut self, accepted: bool) -> (r: Result<(), TerminalError>)
        ensures
            final(self).size() == old(self).size(),
            accepted ==> r is Ok && final(self).pending() == Seq::<char>::empty(),
            !accepted ==> r == Err::<(), TerminalError>(TerminalError::Io)
                && final(self).pending() == old(self).pending(),
    {
        self.editor_contents.flush(accepted)
    }
}

} // verus!
