//! The names the transcript polisher must keep as written: the user's custom phrases, the words
//! the user coined, and the words the user commits most often.
use vstd::prelude::*;

use crate::text::{chars_of, lemma_trimmed_idempotent, string_from, trimmed};
use crate::tsv::{
    find_in, first_field, line_ranges, lines, parse_u32, parsed_u32, range_texts, ranges_within,
    trim_range, find_char,
};

verus! {

/// The longest hotword, in characters.
pub const MAX_WORD: usize = 20;

/// The most hotwords handed to the polisher.
pub const MAX_WORDS: usize = 60;

/// A custom phrase of the user's dictionary: `text` is typed by `code`.
#[derive(Clone, Debug)]
pub struct CustomPhrase {
    pub code: String,
    pub text: String,
    pub position: u32,
    pub enabled: bool,
}

/// Whether `char::is_alphanumeric` holds of `c` (the Unicode `Alphabetic` or `Numeric` property).
pub uninterp spec fn is_alphanumeric_char(c: char) -> bool;

/// `char::is_alphanumeric`: whether the character is alphabetic or numeric in Unicode's tables.
pub assume_specification[ char::is_alphanumeric ](c: char) -> (r: bool)
    ensures
        r == is_alphanumeric_char(c),
;

/// Whether the trimmed candidate `w` can be a hotword: not empty, at most `MAX_WORD` characters,
/// and at least one letter or digit in it.
pub open spec fn acceptable(w: Seq<char>) -> bool {
    &&& 0 < w.len() <= MAX_WORD
    &&& exists|i: int| 0 <= i < w.len() && is_alphanumeric_char(#[trigger] w[i])
}

/// The hotwords after `candidate` was offered to `words`: its trimmed text is added when it is
/// acceptable and not there yet.
pub open spec fn offered(words: Seq<Seq<char>>, candidate: Seq<char>) -> Seq<Seq<char>> {
    let w = trimmed(candidate);
    if acceptable(w) && !words.contains(w) {
        words.push(w)
    } else {
        words
    }
}

/// The hotwords gathered from `candidates`, offered in order.
pub open spec fn gathered(candidates: Seq<Seq<char>>) -> Seq<Seq<char>>
    decreases candidates.len(),
{
    if candidates.len() == 0 {
        Seq::empty()
    } else {
        offered(gathered(candidates.drop_last()), candidates.last())
    }
}

/// The first `MAX_WORDS` of `words`.
pub open spec fn capped(words: Seq<Seq<char>>) -> Seq<Seq<char>> {
    if words.len() <= MAX_WORDS {
        words
    } else {
        words.take(MAX_WORDS as int)
    }
}

/// A line of the frequency file as a word and its count: the text before the first tab, and what
/// follows it parsed as a count once trimmed; `None` for a line without a tab or count.
pub open spec fn counted(line: Seq<char>) -> Option<(Seq<char>, u32)> {
    let t = find_char(line, '\t', 0);
    if t < line.len() {
        match parsed_u32(trimmed(line.skip(t + 1))) {
            Some(n) => Some((line.take(t), n)),
            None => None,
        }
    } else {
        None
    }
}

/// The counted lines of `ls`, in order.
pub open spec fn counted_entries(ls: Seq<Seq<char>>) -> Seq<(Seq<char>, u32)>
    decreases ls.len(),
{
    if ls.len() == 0 {
        Seq::empty()
    } else {
        let before = counted_entries(ls.drop_last());
        match counted(ls.last()) {
            Some(e) => before.push(e),
            None => before,
        }
    }
}

/// `sorted` with `e` placed after every entry whose count is at least `e`'s.
pub open spec fn insert_by_count<A>(sorted: Seq<(A, u32)>, e: (A, u32)) -> Seq<(A, u32)>
    decreases sorted.len(),
{
    if sorted.len() == 0 {
        seq![e]
    } else if sorted.last().1 >= e.1 {
        sorted.push(e)
    } else {
        insert_by_count(sorted.drop_last(), e).push(sorted.last())
    }
}

/// `entries` ordered by count, highest first; entries with equal counts keep their order.
pub open spec fn by_count<A>(entries: Seq<(A, u32)>) -> Seq<(A, u32)>
    decreases entries.len(),
{
    if entries.len() == 0 {
        Seq::empty()
    } else {
        insert_by_count(by_count(entries.drop_last()), entries.last())
    }
}

/// The words of the frequency file, most often committed first.
pub open spec fn ranked_words(frequency: Seq<char>) -> Seq<Seq<char>> {
    by_count(counted_entries(lines(frequency))).map_values(|e: (Seq<char>, u32)| e.0)
}

/// The candidates in the order they are offered: the custom phrases, the first field of each line
/// of the coined-words file, then the words of the frequency file by count.
pub open spec fn hotword_candidates(
    phrases: Seq<Seq<char>>,
    user_words: Option<Seq<char>>,
    frequency: Option<Seq<char>>,
) -> Seq<Seq<char>> {
    phrases + match user_words {
        Some(c) => lines(c).map_values(|l: Seq<char>| first_field(l)),
        None => Seq::empty(),
    } + match frequency {
        Some(c) => ranked_words(c),
        None => Seq::empty(),
    }
}

/// The hotwords for the given phrases and file contents.
pub open spec fn hotwords(
    phrases: Seq<Seq<char>>,
    user_words: Option<Seq<char>>,
    frequency: Option<Seq<char>>,
) -> Seq<Seq<char>> {
    capped(gathered(hotword_candidates(phrases, user_words, frequency)))
}

/// The texts of `phrases`.
pub open spec fn phrase_texts(phrases: Seq<CustomPhrase>) -> Seq<Seq<char>> {
    phrases.map_values(|p: CustomPhrase| p.text@)
}

/// The text of an optional string slice.
pub open spec fn opt_str(o: Option<&str>) -> Option<Seq<char>> {
    match o {
        Some(s) => Some(s@),
        None => None,
    }
}

/// The texts of `words`.
pub open spec fn word_texts(words: Seq<Vec<char>>) -> Seq<Seq<char>> {
    words.map_values(|w: Vec<char>| w@)
}

/// Offering one more candidate is one step of `gathered`.
proof fn lemma_gathered_push(candidates: Seq<Seq<char>>, x: Seq<char>)
    ensures
        gathered(candidates.push(x)) == offered(gathered(candidates), x),
{
    assert(candidates.push(x).drop_last() =~= candidates);
}

/// Once `MAX_WORDS` hotwords are gathered, no later candidate changes the capped list.
proof fn lemma_capped_offered(words: Seq<Seq<char>>, x: Seq<char>)
    ensures
        capped(words).len() < MAX_WORDS ==> capped(words) == words,
        capped(words).len() >= MAX_WORDS ==> capped(offered(words, x)) == capped(words),
{
    if words.len() >= MAX_WORDS {
        assert(offered(words, x).take(MAX_WORDS as int) =~= words.take(MAX_WORDS as int));
        if words.len() == MAX_WORDS {
            assert(words.take(MAX_WORDS as int) =~= words);
        }
    }
}

/// Whether `a` holds exactly the characters `s[from..to]`.
fn same_text(a: &Vec<char>, s: &Vec<char>, from: usize, to: usize) -> (r: bool)
    requires
        from <= to <= s.len(),
    ensures
        r == (a@ == s@.subrange(from as int, to as int)),
{
    if a.len() != to - from {
        return false;
    }
    let mut k: usize = 0;
    while k < a.len()
        invariant
            a.len() == to - from,
            from <= to <= s.len(),
            k <= a.len(),
            forall|j: int| 0 <= j < k ==> a@[j] == s@[from + j],
        decreases a.len() - k,
    {
        if a[k] != s[from + k] {
            assert(a@[k as int] != s@.subrange(from as int, to as int)[k as int]);
            return false;
        }
        k = k + 1;
    }
    assert(a@ =~= s@.subrange(from as int, to as int));
    true
}

/// Whether some character of `s[from..to]` is alphanumeric.
fn any_alphanumeric(s: &Vec<char>, from: usize, to: usize) -> (r: bool)
    requires
        from <= to <= s.len(),
    ensures
        r == exists|i: int|
            0 <= i < to - from && is_alphanumeric_char(
                #[trigger] s@.subrange(from as int, to as int)[i],
            ),
{
    let mut k = from;
    while k < to
        invariant
            from <= k <= to <= s.len(),
            forall|j: int|
                0 <= j < k - from ==> !is_alphanumeric_char(
                    #[trigger] s@.subrange(from as int, to as int)[j],
                ),
        decreases to - k,
    {
        if s[k].is_alphanumeric() {
            assert(s@.subrange(from as int, to as int)[k - from] == s@[k as int]);
            return true;
        }
        assert(s@.subrange(from as int, to as int)[k - from] == s@[k as int]);
        k = k + 1;
    }
    false
}

/// The characters `s[from..to]`.
fn chars_between(s: &Vec<char>, from: usize, to: usize) -> (r: Vec<char>)
    requires
        from <= to <= s.len(),
    ensures
        r@ == s@.subrange(from as int, to as int),
{
    let mut r: Vec<char> = Vec::new();
    let mut k = from;
    while k < to
        invariant
            from <= k <= to <= s.len(),
            r@ == s@.subrange(from as int, k as int),
        decreases to - k,
    {
        r.push(s[k]);
        assert(r@ =~= s@.subrange(from as int, k + 1));
        k = k + 1;
    }
    r
}

/// Offers the candidate `s[from..to]` to `words`.
fn offer(words: &mut Vec<Vec<char>>, s: &Vec<char>, from: usize, to: usize)
    requires
        from <= to <= s.len(),
    ensures
        word_texts(final(words)@) == offered(
            word_texts(old(words)@),
            s@.subrange(from as int, to as int),
        ),
{
    let ghost w = trimmed(s@.subrange(from as int, to as int));
    let (a, b) = trim_range(s, from, to);
    if a == b || b - a > MAX_WORD {
        return;
    }
    if !any_alphanumeric(s, a, b) {
        return;
    }
    let mut k: usize = 0;
    while k < words.len()
        invariant
            k <= words.len(),
            words@ == old(words)@,
            from <= to <= s.len(),
            w == trimmed(s@.subrange(from as int, to as int)),
            w == s@.subrange(a as int, b as int),
            a <= b <= s.len(),
            forall|j: int| 0 <= j < k ==> word_texts(words@)[j] != w,
        decreases words.len() - k,
    {
        if same_text(&words[k], s, a, b) {
            assert(word_texts(words@)[k as int] == w);
            assert(word_texts(words@).contains(w));
            return;
        }
        k = k + 1;
    }
    let ghost before = words@;
    words.push(chars_between(s, a, b));
    assert(word_texts(words@) =~= word_texts(before).push(w));
}

/// Offers `s[from..to]` to the gathered hotwords, but only while fewer than `MAX_WORDS` are there:
/// later candidates could not reach the capped list.
fn offer_capped(
    words: &mut Vec<Vec<char>>,
    s: &Vec<char>,
    from: usize,
    to: usize,
    Ghost(done): Ghost<Seq<Seq<char>>>,
)
    requires
        from <= to <= s.len(),
        word_texts(old(words)@) == capped(gathered(done)),
    ensures
        word_texts(final(words)@) == capped(
            gathered(done.push(s@.subrange(from as int, to as int))),
        ),
{
    let ghost x = s@.subrange(from as int, to as int);
    proof {
        lemma_gathered_push(done, x);
        lemma_capped_offered(gathered(done), x);
    }
    if words.len() < MAX_WORDS {
        offer(words, s, from, to);
    }
}

/// Offers the texts of `ranges` of `s`, in order.
fn offer_ranges(
    words: &mut Vec<Vec<char>>,
    s: &Vec<char>,
    ranges: &Vec<(usize, usize)>,
    Ghost(done): Ghost<Seq<Seq<char>>>,
)
    requires
        ranges_within(s@, ranges@),
        word_texts(old(words)@) == capped(gathered(done)),
    ensures
        word_texts(final(words)@) == capped(gathered(done + range_texts(s@, ranges@))),
{
    let mut k: usize = 0;
    while k < ranges.len()
        invariant
            k <= ranges.len(),
            ranges_within(s@, ranges@),
            word_texts(words@) == capped(
                gathered(done + range_texts(s@, ranges@).take(k as int)),
            ),
        decreases ranges.len() - k,
    {
        let (from, to) = ranges[k];
        assert(ranges@[k as int].0 <= ranges@[k as int].1 <= s@.len());
        let ghost before = done + range_texts(s@, ranges@).take(k as int);
        offer_capped(words, s, from, to, Ghost(before));
        assert(before.push(s@.subrange(from as int, to as int)) =~= done + range_texts(
            s@,
            ranges@,
        ).take(k + 1));
        k = k + 1;
    }
    assert(range_texts(s@, ranges@).take(k as int) =~= range_texts(s@, ranges@));
}

/// Offers the text of each custom phrase, in order.
fn offer_phrases(
    words: &mut Vec<Vec<char>>,
    phrases: &[CustomPhrase],
    Ghost(done): Ghost<Seq<Seq<char>>>,
)
    requires
        word_texts(old(words)@) == capped(gathered(done)),
    ensures
        word_texts(final(words)@) == capped(gathered(done + phrase_texts(phrases@))),
{
    let mut i: usize = 0;
    while i < phrases.len()
        invariant
            i <= phrases.len(),
            word_texts(words@) == capped(gathered(done + phrase_texts(phrases@).take(i as int))),
        decreases phrases.len() - i,
    {
        let chars = chars_of(phrases[i].text.as_str());
        let ghost before = done + phrase_texts(phrases@).take(i as int);
        offer_capped(words, &chars, 0, chars.len(), Ghost(before));
        assert(chars@.subrange(0, chars@.len() as int) =~= phrase_texts(phrases@)[i as int]);
        assert(before.push(phrase_texts(phrases@)[i as int]) =~= done + phrase_texts(phrases@).take(
            i + 1,
        ));
        i = i + 1;
    }
    assert(phrase_texts(phrases@).take(i as int) =~= phrase_texts(phrases@));
}

/// The ranges of the first fields of the lines of `s`.
fn first_field_ranges(s: &Vec<char>) -> (r: Vec<(usize, usize)>)
    ensures
        ranges_within(s@, r@),
        range_texts(s@, r@) == lines(s@).map_values(|l: Seq<char>| first_field(l)),
{
    let ranges = line_ranges(s);
    let mut r: Vec<(usize, usize)> = Vec::new();
    let mut k: usize = 0;
    while k < ranges.len()
        invariant
            k <= ranges.len(),
            r@.len() == k,
            ranges_within(s@, ranges@),
            range_texts(s@, ranges@) == lines(s@),
            ranges_within(s@, r@),
            forall|j: int|
                0 <= j < k ==> range_texts(s@, r@)[j] == #[trigger] first_field(lines(s@)[j]),
        decreases ranges.len() - k,
    {
        let (from, to) = ranges[k];
        assert(ranges@[k as int].0 <= ranges@[k as int].1 <= s@.len());
        let t = find_in(s, '\t', from, to);
        let ghost line = s@.subrange(from as int, to as int);
        assert(line == lines(s@)[k as int]);
        assert(line.take(t - from) =~= s@.subrange(from as int, t as int));
        let ghost before = r@;
        r.push((from, t));
        assert forall|j: int| 0 <= j < r@.len() implies #[trigger] r@[j].0 <= r@[j].1 <= s@.len() by {
            if j < before.len() {
                assert(r@[j] == before[j]);
            }
        }
        assert forall|j: int| 0 <= j < k + 1 implies range_texts(s@, r@)[j] == #[trigger] first_field(
            lines(s@)[j],
        ) by {
            if j < k {
                assert(r@[j] == before[j]);
                assert(range_texts(s@, r@)[j] == range_texts(s@, before)[j]);
            }
        }
        k = k + 1;
    }
    assert(range_texts(s@, r@) =~= lines(s@).map_values(|l: Seq<char>| first_field(l)));
    r
}

/// A frequency entry over `s` (the range of its word, and its count) as the word and its count.
pub open spec fn entry_text(s: Seq<char>) -> spec_fn(((usize, usize), u32)) -> (Seq<char>, u32) {
    |e: ((usize, usize), u32)| (s.subrange(e.0.0 as int, e.0.1 as int), e.1)
}

/// Whether the word range of every entry of `entries` lies within `s`.
pub open spec fn entries_within(s: Seq<char>, entries: Seq<((usize, usize), u32)>) -> bool {
    forall|k: int| 0 <= k < entries.len() ==> #[trigger] entries[k].0.0 <= entries[k].0.1 <= s.len()
}

/// Placing by count commutes with a map that keeps the counts.
proof fn lemma_insert_by_count_map<A, B>(
    sorted: Seq<(A, u32)>,
    e: (A, u32),
    f: spec_fn((A, u32)) -> (B, u32),
)
    requires
        forall|x: (A, u32)| #[trigger] f(x).1 == x.1,
    ensures
        insert_by_count(sorted.map_values(f), f(e)) == insert_by_count(sorted, e).map_values(f),
    decreases sorted.len(),
{
    if sorted.len() == 0 {
        assert(insert_by_count(sorted.map_values(f), f(e)) =~= insert_by_count(sorted, e).map_values(f));
    } else {
        let m = sorted.map_values(f);
        assert(m.last() == f(sorted.last()));
        assert(m.drop_last() =~= sorted.drop_last().map_values(f));
        if sorted.last().1 >= e.1 {
            assert(insert_by_count(m, f(e)) =~= insert_by_count(sorted, e).map_values(f));
        } else {
            lemma_insert_by_count_map(sorted.drop_last(), e, f);
            assert(insert_by_count(m, f(e)) =~= insert_by_count(sorted, e).map_values(f));
        }
    }
}

/// Ordering by count commutes with a map that keeps the counts.
proof fn lemma_by_count_map<A, B>(entries: Seq<(A, u32)>, f: spec_fn((A, u32)) -> (B, u32))
    requires
        forall|x: (A, u32)| #[trigger] f(x).1 == x.1,
    ensures
        by_count(entries.map_values(f)) == by_count(entries).map_values(f),
    decreases entries.len(),
{
    if entries.len() == 0 {
        assert(by_count(entries.map_values(f)) =~= by_count(entries).map_values(f));
    } else {
        let m = entries.map_values(f);
        assert(m.drop_last() =~= entries.drop_last().map_values(f));
        lemma_by_count_map(entries.drop_last(), f);
        lemma_insert_by_count_map(by_count(entries.drop_last()), entries.last(), f);
    }
}

/// Placing by count keeps a property that every entry and the new one have.
proof fn lemma_insert_by_count_keeps<A>(
    sorted: Seq<(A, u32)>,
    e: (A, u32),
    p: spec_fn((A, u32)) -> bool,
)
    requires
        forall|k: int| 0 <= k < sorted.len() ==> #[trigger] p(sorted[k]),
        p(e),
    ensures
        insert_by_count(sorted, e).len() == sorted.len() + 1,
        forall|k: int|
            0 <= k < insert_by_count(sorted, e).len() ==> #[trigger] p(insert_by_count(sorted, e)[k]),
    decreases sorted.len(),
{
    if sorted.len() > 0 && sorted.last().1 < e.1 {
        let rest = sorted.drop_last();
        assert(forall|k: int| 0 <= k < rest.len() ==> rest[k] == sorted[k]);
        lemma_insert_by_count_keeps(rest, e, p);
        assert(p(sorted[sorted.len() - 1]));
    }
}

/// Ordering by count keeps a property that every entry has.
proof fn lemma_by_count_keeps<A>(entries: Seq<(A, u32)>, p: spec_fn((A, u32)) -> bool)
    requires
        forall|k: int| 0 <= k < entries.len() ==> #[trigger] p(entries[k]),
    ensures
        by_count(entries).len() == entries.len(),
        forall|k: int| 0 <= k < by_count(entries).len() ==> #[trigger] p(by_count(entries)[k]),
    decreases entries.len(),
{
    if entries.len() > 0 {
        let rest = entries.drop_last();
        assert(forall|k: int| 0 <= k < rest.len() ==> rest[k] == entries[k]);
        lemma_by_count_keeps(rest, p);
        assert(p(entries[entries.len() - 1]));
        lemma_insert_by_count_keeps(by_count(rest), entries.last(), p);
    }
}

/// Places `e` in `sorted` after every entry whose count is at least `e`'s.
fn insert_entry(sorted: &mut Vec<((usize, usize), u32)>, e: ((usize, usize), u32))
    ensures
        final(sorted)@ == insert_by_count(old(sorted)@, e),
{
    let mut j = sorted.len();
    assert(sorted@.take(j as int) =~= sorted@);
    assert(sorted@.skip(j as int) =~= Seq::<((usize, usize), u32)>::empty());
    while j > 0 && sorted[j - 1].1 < e.1
        invariant
            j <= sorted.len(),
            sorted@ == old(sorted)@,
            insert_by_count(sorted@, e) == insert_by_count(sorted@.take(j as int), e) + sorted@.skip(
                j as int,
            ),
        decreases j,
    {
        assert(sorted@.take(j as int).drop_last() =~= sorted@.take(j - 1));
        assert(insert_by_count(sorted@.take(j - 1), e).push(sorted@[j - 1]) + sorted@.skip(j as int)
            =~= insert_by_count(sorted@.take(j - 1), e) + sorted@.skip(j - 1));
        j = j - 1;
    }
    assert(insert_by_count(sorted@.take(j as int), e) =~= sorted@.take(j as int).push(e));
    sorted.insert(j, e);
    assert(sorted@ =~= old(sorted)@.take(j as int).push(e) + old(sorted)@.skip(j as int));
}

/// The word ranges of the counted lines of `s`, ordered by count, highest first.
fn ranked_ranges(s: &Vec<char>) -> (r: Vec<(usize, usize)>)
    ensures
        ranges_within(s@, r@),
        range_texts(s@, r@) == ranked_words(s@),
{
    let ranges = line_ranges(s);
    let mut sorted: Vec<((usize, usize), u32)> = Vec::new();
    let ghost mut entries: Seq<((usize, usize), u32)> = Seq::empty();
    let mut k: usize = 0;
    while k < ranges.len()
        invariant
            k <= ranges.len(),
            ranges_within(s@, ranges@),
            range_texts(s@, ranges@) == lines(s@),
            entries_within(s@, entries),
            counted_entries(range_texts(s@, ranges@).take(k as int)) == entries.map_values(
                entry_text(s@),
            ),
            sorted@ == by_count(entries),
        decreases ranges.len() - k,
    {
        let (from, to) = ranges[k];
        assert(ranges@[k as int].0 <= ranges@[k as int].1 <= s@.len());
        let ghost line = s@.subrange(from as int, to as int);
        let ghost texts = range_texts(s@, ranges@);
        assert(line == texts[k as int]);
        assert(texts.take(k + 1).drop_last() =~= texts.take(k as int));
        let t = find_in(s, '\t', from, to);
        if t < to {
            let (a, b) = trim_range(s, t + 1, to);
            assert(line.skip(t - from + 1) =~= s@.subrange(t + 1, to as int));
            assert(line.take(t - from) =~= s@.subrange(from as int, t as int));
            match parse_u32(s, a, b) {
                Some(n) => {
                    let e = ((from, t), n);
                    insert_entry(&mut sorted, e);
                    proof {
                        let before = entries;
                        entries = entries.push(e);
                        assert(entries.drop_last() =~= before);
                        assert(entries.map_values(entry_text(s@)) =~= before.map_values(
                            entry_text(s@),
                        ).push(entry_text(s@)(e)));
                        assert forall|j: int| 0 <= j < entries.len() implies #[trigger] entries[j].0.0
                            <= entries[j].0.1 <= s@.len() by {
                            if j < before.len() {
                                assert(entries[j] == before[j]);
                            }
                        }
                    }
                },
                None => {},
            }
        }
        k = k + 1;
    }
    assert(range_texts(s@, ranges@).take(k as int) =~= range_texts(s@, ranges@));
    proof {
        lemma_by_count_map(entries, entry_text(s@));
        let within = |e: ((usize, usize), u32)| e.0.0 <= e.0.1 <= s@.len();
        assert(forall|j: int| 0 <= j < entries.len() ==> #[trigger] within(entries[j]));
        lemma_by_count_keeps(entries, within);
        assert forall|j: int| 0 <= j < sorted@.len() implies #[trigger] sorted@[j].0.0
            <= sorted@[j].0.1 <= s@.len() by {
            assert(within(sorted@[j]));
        }
    }
    let mut r: Vec<(usize, usize)> = Vec::new();
    let mut i: usize = 0;
    while i < sorted.len()
        invariant
            i <= sorted.len(),
            r@.len() == i,
            forall|j: int| 0 <= j < sorted@.len() ==> #[trigger] sorted@[j].0.0 <= sorted@[j].0.1 <= s@.len(),
            forall|j: int| 0 <= j < i ==> #[trigger] r@[j] == sorted@[j].0,
        decreases sorted.len() - i,
    {
        r.push(sorted[i].0);
        i = i + 1;
    }
    assert(ranges_within(s@, r@));
    assert(range_texts(s@, r@) =~= ranked_words(s@));
    r
}

/// The hotwords the polisher keeps as written: the trimmed texts of `custom_phrases`, of the first
/// field of each line of the coined-words file `user_words`, and of the words of the frequency file
/// `frequency` by count (highest first), in that order; each at most `MAX_WORD` characters with a
/// letter or digit in it, each once, at most `MAX_WORDS` of them. A file that could not be read is
/// `None`.
pub fn collect(
    user_words: Option<&str>,
    frequency: Option<&str>,
    custom_phrases: &[CustomPhrase],
) -> (r: Vec<String>)
    ensures
        r@.map_values(|w: String| w@) == hotwords(
            phrase_texts(custom_phrases@),
            opt_str(user_words),
            opt_str(frequency),
        ),
{
    let mut words: Vec<Vec<char>> = Vec::new();
    let ghost phrases = phrase_texts(custom_phrases@);
    assert(word_texts(words@) =~= capped(gathered(Seq::empty())));
    offer_phrases(&mut words, custom_phrases, Ghost(Seq::empty()));
    assert(Seq::<Seq<char>>::empty() + phrases =~= phrases);
    let ghost coined = match user_words {
        Some(c) => lines(c@).map_values(|l: Seq<char>| first_field(l)),
        None => Seq::empty(),
    };
    if let Some(content) = user_words {
        let chars = chars_of(content);
        let ranges = first_field_ranges(&chars);
        offer_ranges(&mut words, &chars, &ranges, Ghost(phrases));
    } else {
        assert(phrases + coined =~= phrases);
    }
    let ghost ranked = match frequency {
        Some(c) => ranked_words(c@),
        None => Seq::empty(),
    };
    if let Some(content) = frequency {
        let chars = chars_of(content);
        let ranges = ranked_ranges(&chars);
        offer_ranges(&mut words, &chars, &ranges, Ghost(phrases + coined));
    } else {
        assert(phrases + coined + ranked =~= phrases + coined);
    }
    let mut r: Vec<String> = Vec::new();
    let mut i: usize = 0;
    while i < words.len()
        invariant
            i <= words.len(),
            r@.len() == i,
            forall|j: int| 0 <= j < i ==> #[trigger] r@[j]@ == words@[j]@,
        decreases words.len() - i,
    {
        r.push(string_from(&words[i], 0, words[i].len()));
        assert(words@[i as int]@.subrange(0, words@[i as int]@.len() as int) =~= words@[i as int]@);
        i = i + 1;
    }
    assert(r@.map_values(|w: String| w@) =~= word_texts(words@));
    r
}

/// Whether `s` is ordered by count, highest first.
pub open spec fn sorted_by_count<A>(s: Seq<(A, u32)>) -> bool {
    forall|i: int, j: int| 0 <= i < j < s.len() ==> #[trigger] s[i].1 >= #[trigger] s[j].1
}

/// Whether `words` are acceptable hotwords without white space at either end, each once.
pub open spec fn well_formed_hotwords(words: Seq<Seq<char>>) -> bool {
    &&& forall|i: int| 0 <= i < words.len() ==> acceptable(#[trigger] words[i])
    &&& forall|i: int| 0 <= i < words.len() ==> trimmed(#[trigger] words[i]) == words[i]
    &&& forall|i: int, j: int| 0 <= i < j < words.len() ==> #[trigger] words[i] != #[trigger] words[j]
}

proof fn lemma_gathered_well_formed(candidates: Seq<Seq<char>>)
    ensures
        well_formed_hotwords(gathered(candidates)),
    decreases candidates.len(),
{
    if candidates.len() > 0 {
        let before = gathered(candidates.drop_last());
        lemma_gathered_well_formed(candidates.drop_last());
        let w = trimmed(candidates.last());
        lemma_trimmed_idempotent(candidates.last());
        if acceptable(w) && !before.contains(w) {
            let after = before.push(w);
            assert forall|i: int, j: int| 0 <= i < j < after.len() implies #[trigger] after[i]
                != #[trigger] after[j] by {
                if j == before.len() {
                    assert(after[i] == before[i]);
                    assert(before.contains(before[i]));
                } else {
                    assert(after[i] == before[i] && after[j] == before[j]);
                }
            }
            assert forall|i: int| 0 <= i < after.len() implies acceptable(#[trigger] after[i]) by {
                if i < before.len() {
                    assert(after[i] == before[i]);
                }
            }
            assert forall|i: int| 0 <= i < after.len() implies trimmed(#[trigger] after[i])
                == after[i] by {
                if i < before.len() {
                    assert(after[i] == before[i]);
                }
            }
        }
    }
}

proof fn lemma_gathered_prefix(first: Seq<Seq<char>>, rest: Seq<Seq<char>>)
    ensures
        gathered(first).len() <= gathered(first + rest).len(),
        gathered(first + rest).take(gathered(first).len() as int) == gathered(first),
    decreases rest.len(),
{
    if rest.len() == 0 {
        assert(first + rest =~= first);
        assert(gathered(first).take(gathered(first).len() as int) =~= gathered(first));
    } else {
        let shorter = rest.drop_last();
        lemma_gathered_prefix(first, shorter);
        assert((first + rest).drop_last() =~= first + shorter);
        let g = gathered(first + shorter);
        let n = gathered(first).len() as int;
        assert(offered(g, rest.last()).take(n) =~= g.take(n));
    }
}

/// The hotwords are acceptable (not empty, at most `MAX_WORD` characters, a letter or digit in
/// them), carry no white space at either end, each occurs once, and there are at most `MAX_WORDS`
/// of them.
pub proof fn lemma_hotwords_well_formed(
    phrases: Seq<Seq<char>>,
    user_words: Option<Seq<char>>,
    frequency: Option<Seq<char>>,
)
    ensures
        hotwords(phrases, user_words, frequency).len() <= MAX_WORDS,
        well_formed_hotwords(hotwords(phrases, user_words, frequency)),
{
    let g = gathered(hotword_candidates(phrases, user_words, frequency));
    lemma_gathered_well_formed(hotword_candidates(phrases, user_words, frequency));
    let h = capped(g);
    assert forall|i: int| 0 <= i < h.len() implies #[trigger] h[i] == g[i] by {}
}

/// The custom phrases have priority: the hotwords begin with those gathered from the phrases alone.
pub proof fn lemma_phrases_come_first(
    phrases: Seq<Seq<char>>,
    user_words: Option<Seq<char>>,
    frequency: Option<Seq<char>>,
)
    ensures
        capped(gathered(phrases)).len() <= hotwords(phrases, user_words, frequency).len(),
        hotwords(phrases, user_words, frequency).take(capped(gathered(phrases)).len() as int)
            == capped(gathered(phrases)),
{
    let candidates = hotword_candidates(phrases, user_words, frequency);
    let rest = candidates.subrange(phrases.len() as int, candidates.len() as int);
    assert(phrases + rest =~= candidates);
    lemma_gathered_prefix(phrases, rest);
    let g1 = gathered(phrases);
    let g = gathered(candidates);
    let n = capped(g1).len() as int;
    assert(capped(g).take(n) =~= capped(g1));
}

proof fn lemma_insert_by_count_orders<A>(sorted: Seq<(A, u32)>, e: (A, u32))
    requires
        sorted_by_count(sorted),
    ensures
        sorted_by_count(insert_by_count(sorted, e)),
        insert_by_count(sorted, e).to_multiset() == sorted.to_multiset().insert(e),
    decreases sorted.len(),
{
    broadcast use vstd::seq_lib::group_to_multiset_ensures;
    broadcast use vstd::multiset::group_multiset_axioms;

    if sorted.len() == 0 {
        assert(insert_by_count(sorted, e) =~= sorted.push(e));
    } else if sorted.last().1 >= e.1 {
        let r = sorted.push(e);
        assert forall|i: int, j: int| 0 <= i < j < r.len() implies #[trigger] r[i].1
            >= #[trigger] r[j].1 by {
            assert(r[i] == sorted[i]);
            if j < sorted.len() {
                assert(r[j] == sorted[j]);
            } else if i < sorted.len() - 1 {
                assert(sorted[i].1 >= sorted[sorted.len() - 1].1);
            }
        }
    } else {
        let rest = sorted.drop_last();
        let last = sorted.last();
        assert(sorted_by_count(rest)) by {
            assert forall|i: int, j: int| 0 <= i < j < rest.len() implies #[trigger] rest[i].1
                >= #[trigger] rest[j].1 by {
                assert(rest[i] == sorted[i] && rest[j] == sorted[j]);
            }
        }
        lemma_insert_by_count_orders(rest, e);
        let inner = insert_by_count(rest, e);
        let above = |x: (A, u32)| x.1 >= last.1;
        assert forall|k: int| 0 <= k < rest.len() implies #[trigger] above(rest[k]) by {
            assert(rest[k] == sorted[k]);
            assert(sorted[k].1 >= sorted[sorted.len() - 1].1);
        }
        lemma_insert_by_count_keeps(rest, e, above);
        let r = inner.push(last);
        assert forall|i: int, j: int| 0 <= i < j < r.len() implies #[trigger] r[i].1
            >= #[trigger] r[j].1 by {
            assert(r[i] == inner[i]);
            if j < inner.len() {
                assert(r[j] == inner[j]);
            } else {
                assert(above(inner[i]));
            }
        }
        assert(sorted =~= rest.push(last));
        assert(r.to_multiset() =~= sorted.to_multiset().insert(e));
    }
}

/// Ordering by count puts higher counts first and keeps every entry: the result is a permutation
/// of the entries.
pub proof fn lemma_by_count_orders<A>(entries: Seq<(A, u32)>)
    ensures
        sorted_by_count(by_count(entries)),
        by_count(entries).to_multiset() == entries.to_multiset(),
    decreases entries.len(),
{
    broadcast use vstd::seq_lib::group_to_multiset_ensures;

    if entries.len() > 0 {
        let rest = entries.drop_last();
        lemma_by_count_orders(rest);
        lemma_insert_by_count_orders(by_count(rest), entries.last());
        assert(entries =~= rest.push(entries.last()));
    }
}

} // verus!
