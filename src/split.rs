//! Splitting a byte stream into non-empty pieces at separator bytes.

use vstd::prelude::*;

verus! {

/// Which bytes end a piece.
#[derive(Clone, Copy, Debug, PartialEq, Eq)]
pub enum Separators {
    /// Line feed or carriage return, each on its own.
    LineBreaks,
    /// Line feed only.
    Newline,
    /// ASCII whitespace: space, tab, line feed, vertical tab, form feed, carriage return.
    Whitespace,
}

pub open spec fn is_separator(kind: Separators, b: u8) -> bool {
    match kind {
        Separators::LineBreaks => b == 10 || b == 13,
        Separators::Newline => b == 10,
        Separators::Whitespace => b == 32 || (9 <= b && b <= 13),
    }
}

pub fn separates(kind: Separators, b: u8) -> (r: bool)
    ensures
        r == is_separator(kind, b),
{
    match kind {
        Separators::LineBreaks => b == 10 || b == 13,
        Separators::Newline => b == 10,
        Separators::Whitespace => b == 32 || (9 <= b && b <= 13),
    }
}

/// The pieces completed so far and the bytes still pending, after reading `s`.
pub open spec fn scan(kind: Separators, s: Seq<u8>) -> (Seq<Seq<u8>>, Seq<u8>)
    decreases s.len(),
{
    if s.len() == 0 {
        (Seq::empty(), Seq::empty())
    } else {
        let (done, pending) = scan(kind, s.drop_last());
        let b = s.last();
        if is_separator(kind, b) {
            if pending.len() > 0 {
                (done.push(pending), Seq::empty())
            } else {
                (done, pending)
            }
        } else {
            (done, pending.push(b))
        }
    }
}

/// The non-empty maximal runs of non-separator bytes of `s`, in order.
pub open spec fn pieces(kind: Separators, s: Seq<u8>) -> Seq<Seq<u8>> {
    let (done, pending) = scan(kind, s);
    if pending.len() > 0 {
        done.push(pending)
    } else {
        done
    }
}

/// The byte strings held by a vector of byte vectors.
pub open spec fn views(v: Seq<Vec<u8>>) -> Seq<Seq<u8>> {
    v.map_values(|x: Vec<u8>| x@)
}

/// Whether `a b c` encodes a three-byte Unicode whitespace character:
/// U+1680, U+2000 to U+200A, U+2028, U+2029, U+202F, U+205F or U+3000.
pub open spec fn is_wide_space(a: u8, b: u8, c: u8) -> bool {
    (a == 0xE1u8 && b == 0x9Au8 && c == 0x80u8) || (a == 0xE2u8 && b == 0x80u8 && ((0x80u8 <= c
        && c <= 0x8Au8) || c == 0xA8u8 || c == 0xA9u8 || c == 0xAFu8)) || (a == 0xE2u8 && b
        == 0x81u8 && c == 0x9Fu8) || (a == 0xE3u8 && b == 0x80u8 && c == 0x80u8)
}

/// The length in bytes of the UTF-8 encoded Unicode whitespace character
/// that starts at `i` in `s`, or 0 when none does. Besides ASCII
/// whitespace these are U+0085 and U+00A0 (two bytes) and the
/// three-byte ones of `is_wide_space`.
pub open spec fn space_width(s: Seq<u8>, i: int) -> nat {
    if 0 <= i < s.len() {
        if is_separator(Separators::Whitespace, s[i]) {
            1
        } else if s[i] == 0xC2u8 && i + 1 < s.len() && (s[i + 1] == 0x85u8 || s[i + 1] == 0xA0u8) {
            2
        } else if i + 2 < s.len() && is_wide_space(s[i], s[i + 1], s[i + 2]) {
            3
        } else {
            0
        }
    } else {
        0
    }
}

/// Byte `j` of `s` belongs to an encoded Unicode whitespace character.
pub open spec fn in_space(s: Seq<u8>, j: int) -> bool {
    space_width(s, j) >= 1 || space_width(s, j - 1) >= 2 || space_width(s, j - 2) >= 3
}

/// `s` with every byte of every Unicode whitespace character replaced by
/// an ASCII space; all other bytes stay where they are.
pub open spec fn spaces_blanked(s: Seq<u8>) -> Seq<u8> {
    Seq::new(s.len(), |j: int| if in_space(s, j) { 32u8 } else { s[j] })
}

fn space_width_at(s: &[u8], i: usize) -> (r: usize)
    requires
        i < s@.len(),
    ensures
        r == space_width(s@, i as int),
{
    let b = s[i];
    if separates(Separators::Whitespace, b) {
        1
    } else if b == 0xC2 && i + 1 < s.len() && (s[i + 1] == 0x85 || s[i + 1] == 0xA0) {
        2
    } else if s.len() - i > 2 {
        let (x, y, z) = (s[i], s[i + 1], s[i + 2]);
        if (x == 0xE1 && y == 0x9A && z == 0x80) || (x == 0xE2 && y == 0x80 && ((0x80 <= z && z
            <= 0x8A) || z == 0xA8 || z == 0xA9 || z == 0xAF)) || (x == 0xE2 && y == 0x81 && z
            == 0x9F) || (x == 0xE3 && y == 0x80 && z == 0x80) {
            3
        } else {
            0
        }
    } else {
        0
    }
}

/// Replaces every byte of every Unicode whitespace character by a space.
pub fn blank_spaces(s: &[u8]) -> (r: Vec<u8>)
    ensures
        r@ == spaces_blanked(s@),
{
    let mut r: Vec<u8> = Vec::new();
    let mut j: usize = 0;
    while j < s.len()
        invariant
            j <= s@.len(),
            r@ == spaces_blanked(s@).subrange(0, j as int),
        decreases s.len() - j,
    {
        let inside = space_width_at(s, j) >= 1 || (j >= 1 && space_width_at(s, j - 1) >= 2) || (j
            >= 2 && space_width_at(s, j - 2) >= 3);
        assert(inside == in_space(s@, j as int));
        r.push(if inside { 32u8 } else { s[j] });
        j = j + 1;
        assert(r@ =~= spaces_blanked(s@).subrange(0, j as int));
    }
    assert(r@ =~= spaces_blanked(s@));
    r
}

/// Copies `s[lo..hi]` into a new vector.
pub fn copy_range(s: &[u8], lo: usize, hi: usize) -> (r: Vec<u8>)
    requires
        lo <= hi <= s@.len(),
    ensures
        r@ == s@.subrange(lo as int, hi as int),
{
    let mut r: Vec<u8> = Vec::new();
    let mut i: usize = lo;
    while i < hi
        invariant
            lo <= i <= hi <= s@.len(),
            r@ == s@.subrange(lo as int, i as int),
        decreases hi - i,
    {
        r.push(s[i]);
        i = i + 1;
        proof {
            assert(r@ =~= s@.subrange(lo as int, i as int));
        }
    }
    r
}

/// Copies `s` into a new vector.
pub fn copy_all(s: &[u8]) -> (r: Vec<u8>)
    ensures
        r@ == s@,
{
    let r = copy_range(s, 0, s.len());
    assert(s@.subrange(0, s@.len() as int) =~= s@);
    r
}

/// Splits `s` into the non-empty runs between separator bytes.
pub fn split_pieces(kind: Separators, s: &[u8]) -> (r: Vec<Vec<u8>>)
    ensures
        views(r@) == pieces(kind, s@),
{
    let mut done: Vec<Vec<u8>> = Vec::new();
    let mut pending: Vec<u8> = Vec::new();
    let mut i: usize = 0;
    while i < s.len()
        invariant
            i <= s@.len(),
            (views(done@), pending@) == scan(kind, s@.subrange(0, i as int)),
        decreases s.len() - i,
    {
        let b = s[i];
        proof {
            assert(s@.subrange(0, i + 1).drop_last() =~= s@.subrange(0, i as int));
        }
        if separates(kind, b) {
            if pending.len() > 0 {
                let ghost before = done@;
                let piece = pending;
                pending = Vec::new();
                done.push(piece);
                proof {
                    assert(views(done@) =~= views(before).push(piece@));
                }
            }
        } else {
            pending.push(b);
        }
        i = i + 1;
    }
    proof {
        assert(s@.subrange(0, s@.len() as int) =~= s@);
    }
    if pending.len() > 0 {
        let ghost before = done@;
        let ghost last = pending@;
        done.push(pending);
        proof {
            assert(views(done@) =~= views(before).push(last));
        }
    }
    done
}

} // verus!
