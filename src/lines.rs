//! Turning a helper's diagnostic byte stream into logical lines.
//!
//! A line ends at a line feed or at a carriage return, each on its own, so
//! the carriage-return redraws of progress meters give one line per update.
//! Adjacent separators give no empty lines, and bytes left unterminated at
//! the end of the stream (or when reading fails) form one last line.

use vstd::prelude::*;
use crate::split::{is_separator, pieces, scan, separates, views, Separators};

verus! {

/// Decodes lines from a stream fed one byte at a time.
pub struct LineDecoder {
    pending: Vec<u8>,
}

impl LineDecoder {
    /// The bytes of the line being read that no separator has ended yet.
    pub closed spec fn pending_bytes(&self) -> Seq<u8> {
        self.pending@
    }

    pub fn new() -> (r: LineDecoder)
        ensures
            r.pending_bytes() == Seq::<u8>::empty(),
    {
        LineDecoder { pending: Vec::new() }
    }

    /// Takes the next byte of the stream; returns the line that it ends, if any.
    pub fn feed(&mut self, b: u8) -> (r: Option<Vec<u8>>)
        ensures
            is_separator(Separators::LineBreaks, b) ==> final(self).pending_bytes()
                == Seq::<u8>::empty(),
            is_separator(Separators::LineBreaks, b) && old(self).pending_bytes().len() > 0
                ==> r is Some && r->0@ == old(self).pending_bytes(),
            is_separator(Separators::LineBreaks, b) && old(self).pending_bytes().len() == 0
                ==> r is None,
            !is_separator(Separators::LineBreaks, b) ==> r is None
                && final(self).pending_bytes() == old(self).pending_bytes().push(b),
    {
        if separates(Separators::LineBreaks, b) {
            if self.pending.len() > 0 {
                let mut line: Vec<u8> = Vec::new();
                core::mem::swap(&mut line, &mut self.pending);
                Some(line)
            } else {
                None
            }
        } else {
            self.pending.push(b);
            None
        }
    }

    /// Ends the stream: returns the unterminated last line, if any.
    pub fn finish(&mut self) -> (r: Option<Vec<u8>>)
        ensures
            final(self).pending_bytes() == Seq::<u8>::empty(),
            old(self).pending_bytes().len() > 0 ==> r is Some && r->0@ == old(self).pending_bytes(),
            old(self).pending_bytes().len() == 0 ==> r is None,
    {
        if self.pending.len() > 0 {
            let mut line: Vec<u8> = Vec::new();
            core::mem::swap(&mut line, &mut self.pending);
            Some(line)
        } else {
            None
        }
    }
}

/// The logical lines of a whole stream, in order.
pub fn decode_lines(bytes: &[u8]) -> (r: Vec<Vec<u8>>)
    ensures
        views(r@) == pieces(Separators::LineBreaks, bytes@),
{
    let mut decoder = LineDecoder::new();
    let mut out: Vec<Vec<u8>> = Vec::new();
    let mut i: usize = 0;
    while i < bytes.len()
        invariant
            i <= bytes@.len(),
            (views(out@), decoder.pending_bytes()) == scan(
                Separators::LineBreaks,
                bytes@.subrange(0, i as int),
            ),
        decreases bytes.len() - i,
    {
        proof {
            assert(bytes@.subrange(0, i + 1).drop_last() =~= bytes@.subrange(0, i as int));
        }
        let ghost before = out@;
        match decoder.feed(bytes[i]) {
            Some(line) => {
                out.push(line);
                proof {
                    assert(views(out@) =~= views(before).push(out@.last()@));
                }
            },
            None => {},
        }
        i = i + 1;
    }
    proof {
        assert(bytes@.subrange(0, bytes@.len() as int) =~= bytes@);
    }
    let ghost before = out@;
    match decoder.finish() {
        Some(line) => {
            out.push(line);
            proof {
                assert(views(out@) =~= views(before).push(out@.last()@));
            }
        },
        None => {},
    }
    out
}

} // verus!
