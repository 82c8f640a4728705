//! Tab-separated text as the user dictionaries store it: lines, the fields of a line, and counts.
use vstd::prelude::*;

use crate::text::{is_white_space_char, trim_end, trim_start, trimmed};

verus! {

/// The position of the first `c` in `s` at or after `from`, or `s.len()` when there is none.
pub open spec fn find_char(s: Seq<char>, c: char, from: int) -> int
    decreases s.len() - from,
{
    if from < 0 || from >= s.len() {
        s.len() as int
    } else if s[from] == c {
        from
    } else {
        find_char(s, c, from + 1)
    }
}

/// The text of the line that starts at `start` and whose line feed (or the end of `s`) is at `end`:
/// a carriage return before the line feed is not part of it.
pub open spec fn line_at(s: Seq<char>, start: int, end: int) -> Seq<char> {
    if end < s.len() && start < end && s[end - 1] == '\r' {
        s.subrange(start, end - 1)
    } else {
        s.subrange(start, end)
    }
}

/// The lines of `s` from position `start` on, as `str::lines` splits them: at line feeds, each
/// with the carriage return before its line feed removed; a final line feed ends the last line
/// and starts no empty one.
pub open spec fn lines_from(s: Seq<char>, start: int) -> Seq<Seq<char>>
    decreases s.len() + 1 - start,
    via lines_from_decreases
{
    if start < 0 || start >= s.len() {
        Seq::empty()
    } else {
        seq![line_at(s, start, find_char(s, '\n', start))] + lines_from(
            s,
            find_char(s, '\n', start) + 1,
        )
    }
}

#[via_fn]
proof fn lines_from_decreases(s: Seq<char>, start: int) {
    if 0 <= start < s.len() {
        lemma_find_char_bounds(s, '\n', start);
    }
}

/// The lines of `s`.
pub open spec fn lines(s: Seq<char>) -> Seq<Seq<char>> {
    lines_from(s, 0)
}

/// The text before the first tab of `line` (all of it when there is no tab).
pub open spec fn first_field(line: Seq<char>) -> Seq<char> {
    line.take(find_char(line, '\t', 0))
}

/// Whether `c` is an ASCII decimal digit.
pub open spec fn is_digit(c: char) -> bool {
    '0' <= c && c <= '9'
}

/// The number that the decimal digits `s` spell.
pub open spec fn digits_value(s: Seq<char>) -> int
    decreases s.len(),
{
    if s.len() == 0 {
        0
    } else {
        digits_value(s.drop_last()) * 10 + (s.last() as int - 48)
    }
}

/// `s` without one leading plus sign.
pub open spec fn unsigned_digits(s: Seq<char>) -> Seq<char> {
    if s.len() > 0 && s[0] == '+' {
        s.drop_first()
    } else {
        s
    }
}

/// What `u32::from_str` gives for `s`: an optional plus sign, then at least one decimal digit
/// and nothing else, the value not above `u32::MAX`.
pub open spec fn parsed_u32(s: Seq<char>) -> Option<u32> {
    let d = unsigned_digits(s);
    if d.len() > 0 && (forall|i: int| 0 <= i < d.len() ==> is_digit(#[trigger] d[i]))
        && digits_value(d) <= u32::MAX {
        Some(digits_value(d) as u32)
    } else {
        None
    }
}

/// The texts of the ranges `ranges` of `s`.
pub open spec fn range_texts(s: Seq<char>, ranges: Seq<(usize, usize)>) -> Seq<Seq<char>> {
    ranges.map_values(|p: (usize, usize)| s.subrange(p.0 as int, p.1 as int))
}

/// Whether every range of `ranges` lies within `s`.
pub open spec fn ranges_within(s: Seq<char>, ranges: Seq<(usize, usize)>) -> bool {
    forall|k: int| 0 <= k < ranges.len() ==> #[trigger] ranges[k].0 <= ranges[k].1 <= s.len()
}

/// `find_char` stays between its start and the end of the sequence.
pub proof fn lemma_find_char_bounds(s: Seq<char>, c: char, from: int)
    requires
        0 <= from <= s.len(),
    ensures
        from <= find_char(s, c, from) <= s.len(),
    decreases s.len() - from,
{
    if from < s.len() && s[from] != c {
        lemma_find_char_bounds(s, c, from + 1);
    }
}

/// `find_char` from `from` is `t` when no `c` stands in `[from, t)` and `t` holds one or is the end.
pub proof fn lemma_find_char_at(s: Seq<char>, c: char, from: int, t: int)
    requires
        0 <= from <= t <= s.len(),
        forall|j: int| from <= j < t ==> s[j] != c,
        t == s.len() || s[t] == c,
    ensures
        find_char(s, c, from) == t,
    decreases t - from,
{
    if from < t {
        lemma_find_char_at(s, c, from + 1, t);
    }
}

proof fn lemma_lines_from_with_line_feed(s: Seq<char>, start: int)
    requires
        0 <= start < s.len(),
        s.last() != '\n',
        s.last() != '\r',
    ensures
        lines_from(s.push('\n'), start) == lines_from(s, start),
    decreases s.len() - start,
{
    let t = s.push('\n');
    let end = find_char(s, '\n', start);
    lemma_find_char_bounds(s, '\n', start);
    assert forall|j: int| start <= j < end implies t[j] != '\n' by {
        if s[j] == '\n' {
            lemma_first_found(s, '\n', start, j);
        }
    }
    if end < s.len() {
        lemma_find_char_found(s, '\n', start);
        assert(t[end] == s[end]);
    }
    lemma_find_char_at(t, '\n', start, end);
    assert(line_at(t, start, end) =~= line_at(s, start, end));
    if end < s.len() {
        assert(end + 1 < s.len());
        lemma_lines_from_with_line_feed(s, end + 1);
    } else {
        assert(lines_from(t, end + 1) =~= Seq::<Seq<char>>::empty());
        assert(lines_from(s, end + 1) =~= Seq::<Seq<char>>::empty());
    }
    assert(lines_from(t, start) == seq![line_at(t, start, end)] + lines_from(t, end + 1));
    assert(lines_from(s, start) == seq![line_at(s, start, end)] + lines_from(s, end + 1));
}

proof fn lemma_lines_from_with_crlf(s: Seq<char>, start: int)
    requires
        0 <= start < s.len(),
        s.last() != '\n',
    ensures
        lines_from(s.push('\r').push('\n'), start) == lines_from(s, start),
    decreases s.len() - start,
{
    let t = s.push('\r').push('\n');
    let end = find_char(s, '\n', start);
    lemma_find_char_bounds(s, '\n', start);
    assert forall|j: int| start <= j < end implies t[j] != '\n' by {
        if s[j] == '\n' {
            lemma_first_found(s, '\n', start, j);
        }
    }
    if end < s.len() {
        lemma_find_char_found(s, '\n', start);
        assert(t[end] == s[end]);
        lemma_find_char_at(t, '\n', start, end);
        assert(line_at(t, start, end) =~= line_at(s, start, end));
        assert(end + 1 < s.len());
        lemma_lines_from_with_crlf(s, end + 1);
        assert(lines_from(t, start) == seq![line_at(t, start, end)] + lines_from(t, end + 1));
        assert(lines_from(s, start) == seq![line_at(s, start, end)] + lines_from(s, end + 1));
    } else {
        assert(t[end] == '\r');
        lemma_find_char_at(t, '\n', start, end + 1);
        assert(line_at(t, start, end + 1) =~= line_at(s, start, end));
        assert(lines_from(t, end + 2) =~= Seq::<Seq<char>>::empty());
        assert(lines_from(s, end + 1) =~= Seq::<Seq<char>>::empty());
        assert(lines_from(t, start) == seq![line_at(t, start, end + 1)] + lines_from(t, end + 2));
        assert(lines_from(s, start) == seq![line_at(s, start, end)] + lines_from(s, end + 1));
    }
}

proof fn lemma_first_found(s: Seq<char>, c: char, from: int, j: int)
    requires
        0 <= from <= j < s.len(),
        s[j] == c,
    ensures
        find_char(s, c, from) <= j,
    decreases j - from,
{
    if s[from] != c {
        lemma_first_found(s, c, from + 1, j);
    }
}

proof fn lemma_find_char_found(s: Seq<char>, c: char, from: int)
    requires
        0 <= from <= s.len(),
        find_char(s, c, from) < s.len(),
    ensures
        s[find_char(s, c, from)] == c,
    decreases s.len() - from,
{
    if from < s.len() && s[from] != c {
        lemma_find_char_found(s, c, from + 1);
    }
}

/// A final line feed ends the last line and starts no empty one: a text that does not already end
/// with a line ending has the same lines with a line feed added.
pub proof fn lemma_final_line_feed_adds_no_line(s: Seq<char>)
    requires
        s.len() > 0,
        s.last() != '\n',
        s.last() != '\r',
    ensures
        lines(s.push('\n')) == lines(s),
{
    lemma_lines_from_with_line_feed(s, 0);
}

/// The same for a final carriage return and line feed: a text that does not already end with a
/// line feed has the same lines with `\r\n` added.
pub proof fn lemma_final_crlf_adds_no_line(s: Seq<char>)
    requires
        s.len() > 0,
        s.last() != '\n',
    ensures
        lines(s.push('\r').push('\n')) == lines(s),
{
    lemma_lines_from_with_crlf(s, 0);
}

/// The ranges of the lines of `s`, without their line endings.
pub fn line_ranges(s: &Vec<char>) -> (r: Vec<(usize, usize)>)
    ensures
        ranges_within(s@, r@),
        range_texts(s@, r@) == lines(s@),
{
    let n = s.len();
    let mut r: Vec<(usize, usize)> = Vec::new();
    let mut start: usize = 0;
    let mut i: usize = 0;
    while i < n
        invariant
            n == s.len(),
            start <= i <= n,
            forall|j: int| start <= j < i ==> s@[j] != '\n',
            ranges_within(s@, r@),
            lines(s@) == range_texts(s@, r@) + lines_from(s@, start as int),
        decreases n - i,
    {
        if s[i] == '\n' {
            proof {
                lemma_find_char_at(s@, '\n', start as int, i as int);
            }
            let end = if i > start && s[i - 1] == '\r' {
                i - 1
            } else {
                i
            };
            let ghost before = r@;
            r.push((start, end));
            proof {
                assert(forall|k: int| 0 <= k < before.len() ==> r@[k] == before[k]);
                assert(r@[before.len() as int] == (start, end));
                assert forall|k: int| 0 <= k < r@.len() implies #[trigger] r@[k].0 <= r@[k].1
                    <= s@.len() by {
                    if k < before.len() {
                        assert(r@[k] == before[k]);
                    }
                }
                assert(s@.subrange(start as int, end as int) == line_at(s@, start as int, i as int));
                assert(range_texts(s@, r@) =~= range_texts(s@, before).push(
                    line_at(s@, start as int, i as int),
                ));
                assert(lines(s@) =~= range_texts(s@, r@) + lines_from(s@, i + 1));
            }
            start = i + 1;
        }
        i = i + 1;
    }
    if start < n {
        proof {
            lemma_find_char_at(s@, '\n', start as int, n as int);
        }
        let ghost before = r@;
        r.push((start, n));
        proof {
            assert(forall|k: int| 0 <= k < before.len() ==> r@[k] == before[k]);
            assert(ranges_within(s@, r@));
            assert(range_texts(s@, r@) =~= range_texts(s@, before).push(
                line_at(s@, start as int, n as int),
            ));
            assert(lines_from(s@, n + 1) =~= Seq::<Seq<char>>::empty());
        }
    }
    proof {
        assert(lines(s@) =~= range_texts(s@, r@));
    }
    r
}

/// The position of the first `c` in `s[from..to]`, or `to` when there is none.
pub fn find_in(s: &Vec<char>, c: char, from: usize, to: usize) -> (t: usize)
    requires
        from <= to <= s.len(),
    ensures
        from <= t <= to,
        t - from == find_char(s@.subrange(from as int, to as int), c, 0),
{
    let mut t = from;
    while t < to && s[t] != c
        invariant
            from <= t <= to <= s.len(),
            forall|j: int| from <= j < t ==> s@[j] != c,
        decreases to - t,
    {
        t = t + 1;
    }
    proof {
        let sub = s@.subrange(from as int, to as int);
        assert(forall|j: int| 0 <= j < t - from ==> sub[j] == s@[from + j]);
        lemma_find_char_at(sub, c, 0, t - from);
    }
    t
}

/// The range of `s[from..to]` without its leading and trailing white space.
pub fn trim_range(s: &Vec<char>, from: usize, to: usize) -> (r: (usize, usize))
    requires
        from <= to <= s.len(),
    ensures
        from <= r.0 <= r.1 <= to,
        s@.subrange(r.0 as int, r.1 as int) == trimmed(s@.subrange(from as int, to as int)),
{
    let mut a = from;
    while a < to && is_white_space_char(s[a])
        invariant
            from <= a <= to <= s.len(),
            trim_start(s@.subrange(from as int, to as int)) == trim_start(
                s@.subrange(a as int, to as int),
            ),
        decreases to - a,
    {
        assert(s@.subrange(a as int, to as int).drop_first() =~= s@.subrange(a + 1, to as int));
        a = a + 1;
    }
    let mut b = to;
    while b > a && is_white_space_char(s[b - 1])
        invariant
            from <= a <= b <= to <= s.len(),
            trim_end(s@.subrange(a as int, to as int)) == trim_end(s@.subrange(a as int, b as int)),
        decreases b - a,
    {
        assert(s@.subrange(a as int, b as int).drop_last() =~= s@.subrange(a as int, b - 1));
        b = b - 1;
    }
    (a, b)
}

/// What `u32::from_str` gives for `s[from..to]`.
pub fn parse_u32(s: &Vec<char>, from: usize, to: usize) -> (r: Option<u32>)
    requires
        from <= to <= s.len(),
    ensures
        r == parsed_u32(s@.subrange(from as int, to as int)),
{
    let ghost whole = s@.subrange(from as int, to as int);
    let mut i = from;
    if i < to && s[i] == '+' {
        i = i + 1;
    }
    assert(unsigned_digits(whole) =~= s@.subrange(i as int, to as int));
    if i == to {
        return None;
    }
    let start = i;
    let mut value: u64 = 0;
    while i < to
        invariant
            from <= start <= i <= to <= s.len(),
            whole == s@.subrange(from as int, to as int),
            unsigned_digits(whole) == s@.subrange(start as int, to as int),
            forall|j: int| start <= j < i ==> is_digit(#[trigger] s@[j]),
            value == if digits_value(s@.subrange(start as int, i as int)) < 0x1_0000_0000 {
                digits_value(s@.subrange(start as int, i as int))
            } else {
                0x1_0000_0000
            },
        decreases to - i,
    {
        let c = s[i];
        if !('0' <= c && c <= '9') {
            assert(!is_digit(unsigned_digits(whole)[i - start]));
            return None;
        }
        let digit = (c as u32 - 48) as u64;
        assert(s@.subrange(start as int, i + 1).drop_last() =~= s@.subrange(start as int, i as int));
        if value >= 0x1_0000_0000 {
            value = 0x1_0000_0000;
        } else {
            let next = value * 10 + digit;
            value = if next > 0x1_0000_0000 {
                0x1_0000_0000
            } else {
                next
            };
        }
        i = i + 1;
    }
    assert(s@.subrange(start as int, to as int) =~= s@.subrange(start as int, i as int));
    if value <= 0xffff_ffff {
        Some(value as u32)
    } else {
        None
    }
}

} // verus!
