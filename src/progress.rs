//! Progress records and the line grammars that helpers report progress in.
//!
//! Flash and erase helpers print the cumulative byte count as the first
//! whitespace-delimited token of a line. The format helper prints
//! `PERCENT <n>` and `MSG <text>` lines.

use vstd::prelude::*;
use crate::device::{has_prefix, is_digit};
use crate::split::{
    blank_spaces, is_separator, pieces, separates, spaces_blanked, split_pieces, views, Separators,
};

verus! {

/// Bytes written to the device so far during a flash.
#[derive(Clone, Copy, Debug, PartialEq, Eq)]
pub struct FlashProgress {
    pub bytes_written: u64,
    pub total_bytes: Option<u64>,
}

/// Bytes processed so far during an erase.
#[derive(Clone, Copy, Debug, PartialEq, Eq)]
pub struct EraseProgress {
    pub bytes_processed: u64,
    pub total_bytes: Option<u64>,
}

/// Completion percentage of a format, with an optional status message.
#[derive(Clone, Debug)]
pub struct FormatProgress {
    pub percent: u8,
    pub message: Option<String>,
}

/// The value of a run of decimal digits.
pub open spec fn digits_value(s: Seq<u8>) -> nat
    decreases s.len(),
{
    if s.len() == 0 {
        0
    } else {
        digits_value(s.drop_last()) * 10 + (s.last() - 48) as nat
    }
}

pub open spec fn all_digits(s: Seq<u8>) -> bool {
    forall|i: int| 0 <= i < s.len() ==> is_digit(#[trigger] s[i])
}

/// `s` without one leading `+`.
pub open spec fn unsigned_digits(s: Seq<u8>) -> Seq<u8> {
    if s.len() > 0 && s[0] == 43u8 {
        s.drop_first()
    } else {
        s
    }
}

/// The unsigned integer that `s` spells (an optional `+`, then one or more
/// decimal digits), if it is at most `max`.
pub open spec fn parsed_unsigned(s: Seq<u8>, max: nat) -> Option<nat> {
    let d = unsigned_digits(s);
    if d.len() > 0 && all_digits(d) && digits_value(d) <= max {
        Some(digits_value(d))
    } else {
        None
    }
}

proof fn lemma_prefix_value_le(s: Seq<u8>, j: int)
    requires
        0 <= j <= s.len(),
        all_digits(s),
    ensures
        digits_value(s.subrange(0, j)) <= digits_value(s),
    decreases s.len(),
{
    if j < s.len() {
        let t = s.drop_last();
        assert(t.subrange(0, j) =~= s.subrange(0, j));
        assert(all_digits(t)) by {
            assert forall|i: int| 0 <= i < t.len() implies is_digit(#[trigger] t[i]) by {
                assert(t[i] == s[i]);
            }
        }
        lemma_prefix_value_le(t, j);
    } else {
        assert(s.subrange(0, j) =~= s);
    }
}

/// Parses an unsigned decimal integer no larger than `max`.
pub fn parse_unsigned(s: &[u8], max: u64) -> (r: Option<u64>)
    ensures
        match r {
            Some(v) => parsed_unsigned(s@, max as nat) == Some(v as nat),
            None => parsed_unsigned(s@, max as nat) is None,
        },
{
    let start: usize = if s.len() > 0 && s[0] == 43 { 1 } else { 0 };
    let ghost d = unsigned_digits(s@);
    assert(d =~= s@.subrange(start as int, s@.len() as int));
    if start >= s.len() {
        return None;
    }
    let mut acc: u64 = 0;
    let mut i: usize = start;
    while i < s.len()
        invariant
            start <= i <= s@.len(),
            d == s@.subrange(start as int, s@.len() as int),
            d == unsigned_digits(s@),
            all_digits(d.subrange(0, i - start)),
            acc as nat == digits_value(d.subrange(0, i - start)),
            acc <= max,
        decreases s.len() - i,
    {
        let b = s[i];
        let ghost k = i - start;
        proof {
            assert(d.subrange(0, k + 1).drop_last() =~= d.subrange(0, k));
            assert(d[k] == b);
        }
        if b < 48 || b > 57 {
            assert(!is_digit(d[k]));
            assert(!all_digits(d));
            return None;
        }
        let dig: u64 = (b - 48) as u64;
        if dig > max || acc > (max - dig) / 10 {
            proof {
                assert(all_digits(d.subrange(0, k + 1))) by {
                    assert forall|j: int| 0 <= j < k + 1 implies is_digit(
                        #[trigger] d.subrange(0, k + 1)[j],
                    ) by {
                        if j < k {
                            assert(d.subrange(0, k + 1)[j] == d.subrange(0, k)[j]);
                        }
                    }
                }
                assert(acc * 10 + dig > max) by (nonlinear_arith)
                    requires
                        dig > max || acc > (max - dig) / 10,
                ;
                assert(d.subrange(0, k + 1).last() == b);
                assert(digits_value(d.subrange(0, k + 1)) == acc * 10 + dig);
                if all_digits(d) {
                    lemma_prefix_value_le(d, k + 1);
                }
                assert(parsed_unsigned(s@, max as nat) is None);
            }
            return None;
        }
        assert(acc * 10 + dig <= max) by (nonlinear_arith)
            requires
                dig <= max,
                acc <= (max - dig) / 10,
        ;
        acc = acc * 10 + dig;
        i = i + 1;
        proof {
            assert(all_digits(d.subrange(0, i - start))) by {
                assert forall|j: int| 0 <= j < i - start implies is_digit(
                    #[trigger] d.subrange(0, i - start)[j],
                ) by {
                    if j < k {
                        assert(d.subrange(0, i - start)[j] == d.subrange(0, k)[j]);
                    }
                }
            }
        }
    }
    assert(d.subrange(0, i - start) =~= d);
    Some(acc)
}

/// The byte count that a flash or erase progress line reports: its first
/// token delimited by Unicode whitespace, read as an unsigned 64-bit integer.
pub open spec fn byte_count_of(line: Seq<u8>) -> Option<nat> {
    let t = pieces(Separators::Whitespace, spaces_blanked(line));
    if t.len() > 0 {
        parsed_unsigned(t[0], u64::MAX as nat)
    } else {
        None
    }
}

/// Reads the byte count of a flash or erase progress line, if it has one.
pub fn parse_byte_count(line: &[u8]) -> (r: Option<u64>)
    ensures
        match r {
            Some(v) => byte_count_of(line@) == Some(v as nat),
            None => byte_count_of(line@) is None,
        },
{
    let blanked = blank_spaces(line);
    let tokens = split_pieces(Separators::Whitespace, blanked.as_slice());
    if tokens.len() == 0 {
        return None;
    }
    assert(views(tokens@)[0] == tokens@[0]@);
    parse_unsigned(tokens[0].as_slice(), u64::MAX)
}

/// `s` without leading ASCII whitespace.
pub open spec fn trim_start(s: Seq<u8>) -> Seq<u8>
    decreases s.len(),
{
    if s.len() > 0 && is_separator(Separators::Whitespace, s[0]) {
        trim_start(s.drop_first())
    } else {
        s
    }
}

/// `s` without trailing ASCII whitespace.
pub open spec fn trim_end(s: Seq<u8>) -> Seq<u8>
    decreases s.len(),
{
    if s.len() > 0 && is_separator(Separators::Whitespace, s.last()) {
        trim_end(s.drop_last())
    } else {
        s
    }
}

pub open spec fn trim(s: Seq<u8>) -> Seq<u8> {
    trim_end(trim_start(s))
}

/// Where `trim(s)` starts in `s`.
pub open spec fn trim_lo(s: Seq<u8>) -> int {
    s.len() - trim_start(s).len()
}

/// Where `trim(s)` ends in `s`.
pub open spec fn trim_hi(s: Seq<u8>) -> int {
    trim_lo(s) + trim(s).len()
}

/// `line` without surrounding Unicode whitespace.
pub open spec fn trimmed_line(line: Seq<u8>) -> Seq<u8> {
    let n = spaces_blanked(line);
    line.subrange(trim_lo(n), trim_hi(n))
}

/// `"PERCENT "`
pub open spec fn percent_tag() -> Seq<u8> {
    seq![80u8, 69, 82, 67, 69, 78, 84, 32]
}

/// `"MSG "`
pub open spec fn message_tag() -> Seq<u8> {
    seq![77u8, 83, 71, 32]
}

/// An unsigned decimal integer (an optional `+`, then one or more digits),
/// capped at 100.
pub open spec fn capped_percent(s: Seq<u8>) -> Option<nat> {
    let d = unsigned_digits(s);
    if d.len() > 0 && all_digits(d) {
        Some(if digits_value(d) > 100 {
            100
        } else {
            digits_value(d)
        })
    } else {
        None
    }
}

/// The percentage that a format progress line sets: after `PERCENT `, the
/// first token read as an unsigned decimal integer, capped at 100. The line
/// is trimmed of, and its tokens separated by, Unicode whitespace.
pub open spec fn percent_of(line: Seq<u8>) -> Option<nat> {
    let n = spaces_blanked(line);
    if has_prefix(trimmed_line(line), percent_tag()) {
        let t = pieces(Separators::Whitespace, n.subrange(trim_lo(n) + 8, trim_hi(n)));
        let tok = if t.len() > 0 {
            t[0]
        } else {
            Seq::<u8>::empty()
        };
        capped_percent(tok)
    } else {
        None
    }
}

/// Reads an unsigned decimal integer of any length, capped at 100.
pub fn parse_percent(s: &[u8]) -> (r: Option<u8>)
    ensures
        match r {
            Some(v) => capped_percent(s@) == Some(v as nat),
            None => capped_percent(s@) is None,
        },
{
    let start: usize = if s.len() > 0 && s[0] == 43 { 1 } else { 0 };
    let ghost d = unsigned_digits(s@);
    assert(d =~= s@.subrange(start as int, s@.len() as int));
    if start >= s.len() {
        return None;
    }
    let mut acc: u64 = 0;
    let mut i: usize = start;
    while i < s.len()
        invariant
            start <= i <= s@.len(),
            d == s@.subrange(start as int, s@.len() as int),
            d == unsigned_digits(s@),
            all_digits(d.subrange(0, i - start)),
            acc <= 100,
            acc as nat == (if digits_value(d.subrange(0, i - start)) > 100 {
                100
            } else {
                digits_value(d.subrange(0, i - start))
            }),
        decreases s.len() - i,
    {
        let b = s[i];
        let ghost k = i - start;
        let ghost v = digits_value(d.subrange(0, k));
        proof {
            assert(d.subrange(0, k + 1).drop_last() =~= d.subrange(0, k));
            assert(d[k] == b);
        }
        if b < 48 || b > 57 {
            assert(!is_digit(d[k]));
            assert(!all_digits(d));
            return None;
        }
        let dig: u64 = (b - 48) as u64;
        let ghost a0 = acc;
        let t = acc * 10 + dig;
        acc = if t > 100 { 100 } else { t };
        i = i + 1;
        proof {
            assert(d.subrange(0, k + 1).last() == b);
            assert(digits_value(d.subrange(0, k + 1)) == v * 10 + dig);
            assert((if v * 10 + dig > 100 { 100 } else { v * 10 + dig }) == acc as nat) by (nonlinear_arith)
                requires
                    v >= 0,
                    dig <= 9,
                    a0 == (if v > 100 { 100 } else { v }),
                    t == a0 * 10 + dig,
                    acc == (if t > 100 { 100 } else { t }),
            ;
            assert(all_digits(d.subrange(0, i - start))) by {
                assert forall|j: int| 0 <= j < i - start implies is_digit(
                    #[trigger] d.subrange(0, i - start)[j],
                ) by {
                    if j < k {
                        assert(d.subrange(0, i - start)[j] == d.subrange(0, k)[j]);
                    }
                }
            }
        }
    }
    assert(d.subrange(0, i - start) =~= d);
    Some(acc as u8)
}

/// The status text that a format progress line carries after `MSG `.
pub open spec fn message_of(line: Seq<u8>) -> Option<Seq<u8>> {
    let l = trimmed_line(line);
    if !has_prefix(l, percent_tag()) && has_prefix(l, message_tag()) {
        Some(l.subrange(4, l.len() as int))
    } else {
        None
    }
}

/// What a format progress line reports.
#[derive(Clone, Debug)]
pub enum FormatLine {
    Percent(u8),
    Message(Vec<u8>),
}

/// The bounds of `s` without surrounding ASCII whitespace.
fn trimmed_bounds(s: &[u8]) -> (r: (usize, usize))
    ensures
        r.0 <= r.1 <= s@.len(),
        s@.subrange(r.0 as int, r.1 as int) == trim(s@),
        r.0 == trim_lo(s@),
        r.1 == trim_hi(s@),
{
    let mut lo: usize = 0;
    assert(s@.subrange(0, s@.len() as int) =~= s@);
    while lo < s.len() && separates(Separators::Whitespace, s[lo])
        invariant
            lo <= s@.len(),
            trim_start(s@) == trim_start(s@.subrange(lo as int, s@.len() as int)),
        decreases s.len() - lo,
    {
        assert(s@.subrange(lo as int, s@.len() as int).drop_first() =~= s@.subrange(
            lo + 1,
            s@.len() as int,
        ));
        lo = lo + 1;
    }
    let mut hi: usize = s.len();
    while hi > lo && separates(Separators::Whitespace, s[hi - 1])
        invariant
            lo <= hi <= s@.len(),
            trim(s@) == trim_end(s@.subrange(lo as int, hi as int)),
        decreases hi,
    {
        assert(s@.subrange(lo as int, hi as int).drop_last() =~= s@.subrange(lo as int, hi - 1));
        hi = hi - 1;
    }
    (lo, hi)
}

/// Reads a format progress line.
pub fn parse_format_line(line: &[u8]) -> (r: Option<FormatLine>)
    ensures
        match r {
            Some(FormatLine::Percent(p)) => percent_of(line@) == Some(p as nat),
            Some(FormatLine::Message(m)) => message_of(line@) == Some(m@),
            None => percent_of(line@) is None && message_of(line@) is None,
        },
{
    let blanked = blank_spaces(line);
    let (lo, hi) = trimmed_bounds(blanked.as_slice());
    let l = &line[lo..hi];
    assert(l@ == trimmed_line(line@));
    let percent: [u8; 8] = [80u8, 69, 82, 67, 69, 78, 84, 32];
    let message: [u8; 4] = [77u8, 83, 71, 32];
    assert(percent@ =~= percent_tag());
    assert(message@ =~= message_tag());
    if crate::device::starts_with(l, &percent) {
        let tokens = split_pieces(Separators::Whitespace, &blanked.as_slice()[lo + 8..hi]);
        let parsed = if tokens.len() > 0 {
            assert(views(tokens@)[0] == tokens@[0]@);
            parse_percent(tokens[0].as_slice())
        } else {
            let empty: [u8; 0] = [];
            assert(empty@ =~= Seq::<u8>::empty());
            parse_percent(&empty)
        };
        match parsed {
            Some(p) => Some(FormatLine::Percent(p)),
            None => None,
        }
    } else if crate::device::starts_with(l, &message) {
        Some(FormatLine::Message(crate::split::copy_range(l, 4, l.len())))
    } else {
        None
    }
}

} // verus!
