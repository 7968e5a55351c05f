//! The last lines a helper printed, kept for error reports.

use vstd::prelude::*;
use crate::split::{copy_all, views};

verus! {

/// How many lines a tail holds before the oldest is dropped.
pub const TAIL_CAPACITY: usize = 200;

/// The last `n` entries of `s`, or all of them when there are fewer.
pub open spec fn keep_last(s: Seq<Seq<u8>>, n: nat) -> Seq<Seq<u8>> {
    if s.len() > n {
        s.subrange(s.len() - n, s.len() as int)
    } else {
        s
    }
}

/// `needle` occurs in `hay` as a contiguous run.
pub open spec fn occurs_in(needle: Seq<u8>, hay: Seq<u8>) -> bool {
    exists|k: int| 0 <= k && k + needle.len() <= hay.len() && #[trigger] hay.subrange(k, k + needle.len()) == needle
}

/// A bounded first-in first-out record of diagnostic lines.
pub struct DiagnosticTail {
    lines: Vec<Vec<u8>>,
}

impl View for DiagnosticTail {
    type V = Seq<Seq<u8>>;

    closed spec fn view(&self) -> Seq<Seq<u8>> {
        views(self.lines@)
    }
}

/// Whether `needle` occurs in `hay`.
pub fn occurs(needle: &[u8], hay: &[u8]) -> (r: bool)
    ensures
        r == occurs_in(needle@, hay@),
{
    if needle.len() > hay.len() {
        return false;
    }
    if needle.len() == 0 {
        assert(hay@.subrange(0, 0 + needle@.len() as int) =~= needle@);
        return true;
    }
    let mut k: usize = 0;
    while needle.len() <= hay.len() - k
        invariant
            1 <= needle@.len() <= hay@.len(),
            k <= hay@.len(),
            forall|j: int| 0 <= j < k ==> #[trigger] hay@.subrange(j, j + needle@.len()) != needle@,
        decreases hay.len() - k,
    {
        if crate::device::bytes_equal(&hay[k..k + needle.len()], needle) {
            return true;
        }
        k = k + 1;
    }
    proof {
        if occurs_in(needle@, hay@) {
            let j = choose|j: int| 0 <= j && j + needle@.len() <= hay@.len() && #[trigger] hay@.subrange(j, j + needle@.len()) == needle@;
            assert(hay@.subrange(j, j + needle@.len()) != needle@);
        }
    }
    false
}

impl DiagnosticTail {
    pub closed spec fn wf(&self) -> bool {
        self.lines@.len() <= TAIL_CAPACITY
    }

    pub fn new() -> (r: DiagnosticTail)
        ensures
            r.wf(),
            r@ == Seq::<Seq<u8>>::empty(),
    {
        let r = DiagnosticTail { lines: Vec::new() };
        assert(r@ =~= Seq::<Seq<u8>>::empty());
        r
    }

    pub fn len(&self) -> (r: usize)
        ensures
            r == self@.len(),
    {
        self.lines.len()
    }

    /// Appends a line, dropping the oldest once the tail is full.
    pub fn push(&mut self, line: Vec<u8>)
        requires
            old(self).wf(),
        ensures
            final(self).wf(),
            final(self)@ == keep_last(old(self)@.push(line@), TAIL_CAPACITY as nat),
    {
        let ghost before = self.lines@;
        let ghost l = line@;
        self.lines.push(line);
        assert(views(self.lines@) =~= views(before).push(l));
        if self.lines.len() > TAIL_CAPACITY {
            let ghost full = self.lines@;
            let _ = self.lines.remove(0);
            assert(views(self.lines@) =~= views(full).subrange(1, views(full).len() as int));
        }
    }

    /// Copies of the last `n` lines, oldest first.
    pub fn last_lines(&self, n: usize) -> (r: Vec<Vec<u8>>)
        ensures
            views(r@) == keep_last(self@, n as nat),
    {
        let start: usize = if self.lines.len() > n { self.lines.len() - n } else { 0 };
        let mut r: Vec<Vec<u8>> = Vec::new();
        let mut i: usize = start;
        while i < self.lines.len()
            invariant
                start <= i <= self.lines@.len(),
                start == (if self.lines@.len() > n { self.lines@.len() - n } else { 0 }),
                views(r@) == views(self.lines@).subrange(start as int, i as int),
            decreases self.lines.len() - i,
        {
            let ghost before = r@;
            let line = copy_all(self.lines[i].as_slice());
            let ghost lv = line@;
            r.push(line);
            assert(views(r@) =~= views(before).push(lv));
            i = i + 1;
            assert(views(self.lines@).subrange(start as int, i as int) =~= views(
                self.lines@,
            ).subrange(start as int, i - 1).push(views(self.lines@)[i - 1]));
        }
        assert(views(self.lines@).subrange(0, self.lines@.len() as int) =~= views(self.lines@));
        r
    }

    /// Whether some line holds `needle`.
    pub fn any_line_holds(&self, needle: &[u8]) -> (r: bool)
        ensures
            r == exists|i: int| 0 <= i < self@.len() && occurs_in(needle@, #[trigger] self@[i]),
    {
        let mut i: usize = 0;
        while i < self.lines.len()
            invariant
                i <= self.lines@.len(),
                forall|j: int| 0 <= j < i ==> !occurs_in(needle@, #[trigger] views(self.lines@)[j]),
            decreases self.lines.len() - i,
        {
            if occurs(needle, self.lines[i].as_slice()) {
                assert(self@[i as int] == self.lines@[i as int]@);
                return true;
            }
            assert(views(self.lines@)[i as int] == self.lines@[i as int]@);
            i = i + 1;
        }
        false
    }
}

} // verus!
