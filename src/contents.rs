use vstd::prelude::*;
use vstd::string::StringSliceAdditionalSpecFns;
use vstd::utf8::{decode_utf8, encode_utf8, valid_utf8};

verus! {

/// The errors of the terminal substrate.
#[derive(Clone, Copy, Debug, PartialEq, Eq, Structural)]
pub enum TerminalError {
    /// A switch of terminal mode or screen was rejected by the platform.
    Session,
    /// A read from or write to the terminal device failed or was rejected.
    Io,
}

pub assume_specification[ String::push ](s: &mut String, ch: char)
    ensures
        final(s)@ == old(s)@.push(ch),
;

pub assume_specification[ String::push_str ](s: &mut String, string: &str)
    ensures
        final(s)@ == old(s)@ + string@,
;

/// Relies on `std::str::from_utf8`: it accepts exactly the valid UTF-8 byte
/// sequences, and the accepted text holds the same bytes.
#[verifier::external_body]
fn str_from_utf8(buf: &[u8]) -> (r: Option<&str>)
    ensures
        r.is_some() <==> valid_utf8(buf@),
        r matches Some(s) ==> s.spec_bytes() == buf@,
{
    std::str::from_utf8(buf).ok()
}

/// The content of one frame, accumulated by appends and written to the
/// terminal in one piece by `flush`.
pub struct EditorContents {
    content: String,
}

impl View for EditorContents {
    type V = Seq<char>;

    closed spec fn view(&self) -> Seq<char> {
        self.content@
    }
}

impl EditorContents {
    /// An empty buffer.
    pub fn new() -> (r: EditorContents)
        ensures
            r@ == Seq::<char>::empty(),
    {
        EditorContents { content: String::new() }
    }

    /// Appends one character.
    pub fn push(&mut self, ch: char)
        ensures
            final(self)@ == old(self)@.push(ch),
    {
        self.content.push(ch)
    }

    /// Appends a string.
    pub fn push_str(&mut self, string: &str)
        ensures
            final(self)@ == old(self)@ + string@,
    {
        self.content.push_str(string)
    }

    /// Appends the text that `buf` encodes in UTF-8, and answers the number of
    /// bytes taken. Bytes that are not valid UTF-8 are refused whole, and the
    /// buffer is left as it was.
    pub fn write(&mut self, buf: &[u8]) -> (r: Result<usize, TerminalError>)
        ensures
            valid_utf8(buf@) ==> r == Ok::<usize, TerminalError>(buf@.len() as usize)
                && final(self)@ == old(self)@ + decode_utf8(buf@),
            !valid_utf8(buf@) ==> r == Err::<usize, TerminalError>(TerminalError::Io)
                && final(self)@ == old(self)@,
    {
        match str_from_utf8(buf) {
            Some(s) => {
                proof {
                    vstd::utf8::encode_utf8_decode_utf8(s@);
                }
                self.content.push_str(s);
                Ok(buf.len())
            },
            None => Err(TerminalError::Io),
        }
    }

    /// The pending content, as it is to be written to the terminal.
    pub fn as_str(&self) -> (r: &str)
        ensures
            r@ == self@,
    {
        self.content.as_str()
    }

    /// Settles a flush: `accepted` tells whether the terminal took the whole
    /// of `as_str()` in one write. On success the buffer is emptied; on a
    /// rejected write the content stays for the caller to retry or abandon.
    pub fn flush(&mut self, accepted: bool) -> (r: Result<(), TerminalError>)
        ensures
            accepted ==> r is Ok && final(self)@ == Seq::<char>::empty(),
            !accepted ==> r == Err::<(), TerminalError>(TerminalError::Io)
                && final(self)@ == old(self)@,
    {
        if accepted {
            self.content = String::new();
            Ok(())
        } else {
            Err(TerminalError::Io)
        }
    }
}

/// The content after `pieces` have been appended to `pending`, in order.
pub open spec fn after_appends(pending: Seq<char>, pieces: Seq<Seq<char>>) -> Seq<char>
    decreases pieces.len(),
{
    if pieces.len() == 0 {
        pending
    } else {
        after_appends(pending, pieces.drop_last()) + pieces.last()
    }
}

/// Appends are never split: in the content that the next flush writes, each
/// piece appended since the last flush stands whole, right after what was
/// there before it was appended, and what was pending before stays in front.
pub proof fn lemma_appends_flushed_whole(pending: Seq<char>, pieces: Seq<Seq<char>>)
    ensures
        after_appends(pending, pieces).len() >= pending.len(),
        after_appends(pending, pieces).take(pending.len() as int) == pending,
        forall|i: int|
            #![trigger pieces[i]]
            0 <= i < pieces.len() ==> {
                let start = after_appends(pending, pieces.take(i)).len() as int;
                after_appends(pending, pieces).subrange(start, start + pieces[i].len())
                    == pieces[i]
            },
    decreases pieces.len(),
{
    if pieces.len() > 0 {
        let prefix = pieces.drop_last();
        lemma_appends_flushed_whole(pending, prefix);
        let before = after_appends(pending, prefix);
        let all = after_appends(pending, pieces);
        assert(all == before + pieces.last());
        assert(all.take(pending.len() as int) =~= before.take(pending.len() as int));
        assert forall|i: int| #![trigger pieces[i]] 0 <= i < pieces.len() implies {
            let start = after_appends(pending, pieces.take(i)).len() as int;
            all.subrange(start, start + pieces[i].len()) == pieces[i]
        } by {
            if i < pieces.len() - 1 {
                assert(pieces.take(i) =~= prefix.take(i));
                assert(prefix[i] == pieces[i]);
                let start = after_appends(pending, prefix.take(i)).len() as int;
                assert(before.subrange(start, start + prefix[i].len()) == prefix[i]);
                lemma_prefix_bound(pending, prefix, i);
                assert(all.subrange(start, start + pieces[i].len()) =~= before.subrange(
                    start,
                    start + pieces[i].len(),
                ));
            } else {
                assert(pieces.take(i) =~= prefix);
                assert(all.subrange(before.len() as int, (before.len() + pieces[i].len()) as int)
                    =~= pieces[i]);
            }
        }
    }
}

/// A piece appended before the last one ends within what the earlier pieces
/// built.
proof fn lemma_prefix_bound(pending: Seq<char>, pieces: Seq<Seq<char>>, i: int)
    requires
        0 <= i < pieces.len(),
    ensures
        after_appends(pending, pieces.take(i)).len() + pieces[i].len() <= after_appends(
            pending,
            pieces,
        ).len(),
    decreases pieces.len(),
{
    let prefix = pieces.drop_last();
    if i < pieces.len() - 1 {
        lemma_prefix_bound(pending, prefix, i);
        assert(pieces.take(i) =~= prefix.take(i));
    } else {
        assert(pieces.take(i) =~= prefix);
    }
}

} // verus!
