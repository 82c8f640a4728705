//! Logic of the settings window: the list of microphones offered, and when the edits of the
//! transcript polisher's address and model are written back.
use vstd::prelude::*;

use crate::protocol::VoiceTrigger;
use crate::text::{chars_of, is_blank, string_from, trimmed};
use crate::tsf::voice_key::elapsed_since;

verus! {

/// What `str::to_lowercase` gives for a text (Unicode's lowercase mapping, character by
/// character, with the final-sigma rule).
pub uninterp spec fn lowercase_of(s: Seq<char>) -> Seq<char>;

/// `str::to_lowercase`: the lowercase form of `s`.
#[verifier::external_body]
fn lowercase(s: &str) -> (r: String)
    ensures
        r@ == lowercase_of(s@),
{
    s.to_lowercase()
}

/// Whether `a` comes no later than `b` in the order of strings (character by character, by code
/// point, a prefix first).
pub open spec fn text_le(a: Seq<char>, b: Seq<char>) -> bool
    decreases a.len(),
{
    if a.len() == 0 {
        true
    } else if b.len() == 0 {
        false
    } else if a[0] != b[0] {
        a[0] < b[0]
    } else {
        text_le(a.drop_first(), b.drop_first())
    }
}

/// `sorted` with `name` placed after every name whose lowercase form is not after its own.
pub open spec fn insert_by_lowercase(sorted: Seq<Seq<char>>, name: Seq<char>) -> Seq<Seq<char>>
    decreases sorted.len(),
{
    if sorted.len() == 0 {
        seq![name]
    } else if text_le(lowercase_of(sorted.last()), lowercase_of(name)) {
        sorted.push(name)
    } else {
        insert_by_lowercase(sorted.drop_last(), name).push(sorted.last())
    }
}

/// `names` ordered by their lowercase forms; names with equal lowercase forms keep their order.
pub open spec fn by_lowercase(names: Seq<Seq<char>>) -> Seq<Seq<char>>
    decreases names.len(),
{
    if names.len() == 0 {
        Seq::empty()
    } else {
        insert_by_lowercase(by_lowercase(names.drop_last()), names.last())
    }
}

/// `names` without a name equal to the one before it.
pub open spec fn deduped(names: Seq<Seq<char>>) -> Seq<Seq<char>>
    decreases names.len(),
{
    if names.len() == 0 {
        Seq::empty()
    } else {
        let before = deduped(names.drop_last());
        if before.len() > 0 && before.last() == names.last() {
            before
        } else {
            before.push(names.last())
        }
    }
}

/// The names that are not blank once trimmed.
pub open spec fn non_blank(names: Seq<Seq<char>>) -> Seq<Seq<char>>
    decreases names.len(),
{
    if names.len() == 0 {
        Seq::empty()
    } else if trimmed(names.last()).len() == 0 {
        non_blank(names.drop_last())
    } else {
        non_blank(names.drop_last()).push(names.last())
    }
}

/// The microphones offered: the named input devices without blank names, ordered by their
/// lowercase names, without repeats next to each other.
pub open spec fn device_choices(names: Seq<Seq<char>>) -> Seq<Seq<char>> {
    deduped(by_lowercase(non_blank(names)))
}

/// The texts of `v`.
pub open spec fn string_texts(v: Seq<String>) -> Seq<Seq<char>> {
    v.map_values(|s: String| s@)
}

/// A name with its lowercase form, as sorted.
pub open spec fn keyed_names(v: Seq<(Vec<char>, Vec<char>)>) -> Seq<Seq<char>> {
    v.map_values(|p: (Vec<char>, Vec<char>)| p.1@)
}

/// Whether `a` comes no later than `b` in the order of strings.
fn chars_le(a: &Vec<char>, b: &Vec<char>) -> (r: bool)
    ensures
        r == text_le(a@, b@),
{
    let mut i: usize = 0;
    assert(a@.skip(0) =~= a@);
    assert(b@.skip(0) =~= b@);
    while i < a.len() && i < b.len() && a[i] == b[i]
        invariant
            i <= a.len(),
            i <= b.len(),
            text_le(a@, b@) == text_le(a@.skip(i as int), b@.skip(i as int)),
        decreases a.len() - i,
    {
        assert(a@.skip(i as int).drop_first() =~= a@.skip(i + 1));
        assert(b@.skip(i as int).drop_first() =~= b@.skip(i + 1));
        i = i + 1;
    }
    if i == a.len() {
        true
    } else if i == b.len() {
        false
    } else {
        a[i] < b[i]
    }
}

/// Places `entry` after every entry whose lowercase form is not after its own.
fn insert_keyed(sorted: &mut Vec<(Vec<char>, Vec<char>)>, entry: (Vec<char>, Vec<char>))
    requires
        entry.0@ == lowercase_of(entry.1@),
        forall|k: int| 0 <= k < old(sorted)@.len() ==> #[trigger] old(sorted)@[k].0@ == lowercase_of(
            old(sorted)@[k].1@,
        ),
    ensures
        keyed_names(final(sorted)@) == insert_by_lowercase(keyed_names(old(sorted)@), entry.1@),
        forall|k: int| 0 <= k < final(sorted)@.len() ==> #[trigger] final(sorted)@[k].0@ == lowercase_of(
            final(sorted)@[k].1@,
        ),
{
    let ghost names = keyed_names(sorted@);
    let ghost name = entry.1@;
    let mut j = sorted.len();
    assert(names.take(j as int) =~= names);
    assert(names.skip(j as int) =~= Seq::<Seq<char>>::empty());
    while j > 0 && !chars_le(&sorted[j - 1].0, &entry.0)
        invariant
            j <= sorted.len(),
            sorted@ == old(sorted)@,
            names == keyed_names(sorted@),
            name == entry.1@,
            entry.0@ == lowercase_of(entry.1@),
            forall|k: int| 0 <= k < sorted@.len() ==> #[trigger] sorted@[k].0@ == lowercase_of(
                sorted@[k].1@,
            ),
            insert_by_lowercase(names, name) == insert_by_lowercase(names.take(j as int), name)
                + names.skip(j as int),
        decreases j,
    {
        assert(names.take(j as int).drop_last() =~= names.take(j - 1));
        assert(names[j - 1] == sorted@[j - 1].1@);
        assert(insert_by_lowercase(names.take(j - 1), name).push(names[j - 1]) + names.skip(
            j as int,
        ) =~= insert_by_lowercase(names.take(j - 1), name) + names.skip(j - 1));
        j = j - 1;
    }
    proof {
        if j > 0 {
            assert(names[j - 1] == sorted@[j - 1].1@);
        }
        assert(insert_by_lowercase(names.take(j as int), name) =~= names.take(j as int).push(name));
    }
    let ghost before = sorted@;
    sorted.insert(j, entry);
    assert(keyed_names(sorted@) =~= names.take(j as int).push(name) + names.skip(j as int));
    assert forall|k: int| 0 <= k < sorted@.len() implies #[trigger] sorted@[k].0@ == lowercase_of(
        sorted@[k].1@,
    ) by {
        if k < j {
            assert(sorted@[k] == before[k]);
        } else if k > j {
            assert(sorted@[k] == before[k - 1]);
        }
    }
}

/// The microphones to offer, from the names the audio host listed: blank names are left out, the
/// rest ordered by their lowercase forms (equal forms keep their order), and a name equal to the
/// one before it is dropped.
pub fn device_list(names: &Vec<String>) -> (r: Vec<String>)
    ensures
        string_texts(r@) == device_choices(string_texts(names@)),
{
    let mut sorted: Vec<(Vec<char>, Vec<char>)> = Vec::new();
    let ghost mut kept: Seq<Seq<char>> = Seq::empty();
    let mut i: usize = 0;
    while i < names.len()
        invariant
            i <= names.len(),
            kept == non_blank(string_texts(names@).take(i as int)),
            keyed_names(sorted@) == by_lowercase(kept),
            forall|k: int| 0 <= k < sorted@.len() ==> #[trigger] sorted@[k].0@ == lowercase_of(
                sorted@[k].1@,
            ),
        decreases names.len() - i,
    {
        let name = names[i].as_str();
        assert(string_texts(names@).take(i + 1).drop_last() =~= string_texts(names@).take(i as int));
        if !is_blank(name) {
            let key = chars_of(lowercase(name).as_str());
            insert_keyed(&mut sorted, (key, chars_of(name)));
            proof {
                let before = kept;
                kept = kept.push(name@);
                assert(kept.drop_last() =~= before);
            }
        }
        i = i + 1;
    }
    assert(string_texts(names@).take(i as int) =~= string_texts(names@));
    let mut r: Vec<String> = Vec::new();
    let mut last: Option<usize> = None;
    let mut k: usize = 0;
    while k < sorted.len()
        invariant
            k <= sorted.len(),
            string_texts(r@) == deduped(keyed_names(sorted@).take(k as int)),
            match last {
                Some(j) => j < k && r@.len() > 0 && r@.last()@ == sorted@[j as int].1@,
                None => k == 0 && r@.len() == 0,
            },
        decreases sorted.len() - k,
    {
        let ghost names_k = keyed_names(sorted@).take(k as int);
        assert(keyed_names(sorted@).take(k + 1).drop_last() =~= names_k);
        let repeated = match last {
            Some(j) => same_chars(&sorted[j].1, &sorted[k].1),
            None => false,
        };
        if !repeated {
            let ghost before = r@;
            r.push(string_from(&sorted[k].1, 0, sorted[k].1.len()));
            assert(sorted@[k as int].1@.subrange(0, sorted@[k as int].1@.len() as int)
                =~= sorted@[k as int].1@);
            assert(string_texts(r@) =~= string_texts(before).push(sorted@[k as int].1@));
            last = Some(k);
        }
        k = k + 1;
    }
    assert(keyed_names(sorted@).take(k as int) =~= keyed_names(sorted@));
    r
}

/// Whether `a` and `b` hold the same characters.
fn same_chars(a: &Vec<char>, b: &Vec<char>) -> (r: bool)
    ensures
        r == (a@ == b@),
{
    if a.len() != b.len() {
        return false;
    }
    let mut i: usize = 0;
    while i < a.len()
        invariant
            a.len() == b.len(),
            i <= a.len(),
            forall|j: int| 0 <= j < i ==> a@[j] == b@[j],
        decreases a.len() - i,
    {
        if a[i] != b[i] {
            return false;
        }
        i = i + 1;
    }
    assert(a@ =~= b@);
    true
}

/// How long the polisher's fields must rest before their edits are written back: 500 ms, in
/// nanoseconds.
pub const POLISH_FLUSH_DELAY_NS: u128 = 500_000_000;

/// Whether edits of the polisher's fields are written back now: only when there are edits, and
/// then when forced (the field lost focus, the page is left) or when the last edit is at least
/// [`POLISH_FLUSH_DELAY_NS`] old (`elapsed`, in nanoseconds).
pub open spec fn flush_due_spec(dirty: bool, force: bool, elapsed: u128) -> bool {
    dirty && (force || elapsed >= POLISH_FLUSH_DELAY_NS)
}

/// Whether edits of the polisher's fields are written back now.
pub fn flush_due(dirty: bool, force: bool, elapsed: u128) -> (r: bool)
    ensures
        r == flush_due_spec(dirty, force, elapsed),
{
    dirty && (force || elapsed >= POLISH_FLUSH_DELAY_NS)
}

/// The edit buffers of the polisher's address and model: typing is collected and written back
/// once it rests, so that not every character restarts the voice worker.
pub struct PolishDraft {
    pub url: String,
    pub model: String,
    /// When the fields were last edited (nanoseconds of a monotonic clock), while the edits are
    /// not written back.
    pub dirty_since: Option<u64>,
}

impl PolishDraft {
    /// Whether there are edits not yet written back.
    pub open spec fn dirty(&self) -> bool {
        self.dirty_since is Some
    }

    /// Buffers holding the saved values, with nothing to write back.
    pub fn new(url: String, model: String) -> (r: Self)
        ensures
            r.url == url,
            r.model == model,
            !r.dirty(),
    {
        PolishDraft { url, model, dirty_since: None }
    }

    /// Whether there are edits not yet written back.
    pub fn is_dirty(&self) -> (r: bool)
        ensures
            r == self.dirty(),
    {
        self.dirty_since.is_some()
    }

    /// Notes that a field was edited at `now` (nanoseconds of a monotonic clock).
    pub fn edited(&mut self, now: u64)
        ensures
            final(self).dirty_since == Some(now),
            final(self).url == old(self).url,
            final(self).model == old(self).model,
    {
        self.dirty_since = Some(now);
    }

    /// The values to write back at `now`, trimmed, if the edits are due: there are edits, and the
    /// write is forced or the last edit is at least [`POLISH_FLUSH_DELAY_NS`] old.
    pub fn due_values(&self, force: bool, now: u64) -> (r: Option<(String, String)>)
        ensures
            r is Some == flush_due_spec(
                self.dirty(),
                force,
                match self.dirty_since {
                    Some(since) => elapsed_since(since, now),
                    None => 0,
                },
            ),
            r matches Some(v) ==> v.0@ == trimmed(self.url@) && v.1@ == trimmed(self.model@),
    {
        let elapsed: u128 = match self.dirty_since {
            Some(since) => if now >= since {
                (now - since) as u128
            } else {
                0
            },
            None => 0,
        };
        if flush_due(self.dirty_since.is_some(), force, elapsed) {
            Some((String::from_str(self.url.as_str().trim()), String::from_str(self.model.as_str().trim())))
        } else {
            None
        }
    }

    /// Notes that the values were written back.
    pub fn written(&mut self)
        ensures
            !final(self).dirty(),
            final(self).url == old(self).url,
            final(self).model == old(self).model,
    {
        self.dirty_since = None;
    }
}

/// The option of a drop-down that is shown as selected: the first whose stored value is
/// `current`, or the first option when the configuration holds none of them.
pub fn option_index(values: &Vec<&str>, current: &str) -> (r: usize)
    ensures
        (exists|i: int| 0 <= i < values@.len() && values@[i]@ == current@) ==> (r < values@.len()
            && values@[r as int]@ == current@ && forall|j: int| 0 <= j < r ==> values@[j]@ != current@),
        !(exists|i: int| 0 <= i < values@.len() && values@[i]@ == current@) ==> r == 0,
{
    let wanted = chars_of(current);
    let mut i: usize = 0;
    while i < values.len()
        invariant
            i <= values@.len(),
            wanted@ == current@,
            forall|j: int| 0 <= j < i ==> values@[j]@ != current@,
        decreases values.len() - i,
    {
        let candidate = chars_of(values[i]);
        if same_chars(&candidate, &wanted) {
            return i;
        }
        i = i + 1;
    }
    0
}

/// The row of the voice shortcut drop-down that shows `trigger`: right Alt, right Ctrl, Caps Lock,
/// Scroll Lock, off.
pub fn voice_key_index(trigger: VoiceTrigger) -> (r: usize)
    ensures
        r == match trigger {
            VoiceTrigger::RightAlt => 0usize,
            VoiceTrigger::RightCtrl => 1usize,
            VoiceTrigger::CapsLock => 2usize,
            VoiceTrigger::ScrollLock => 3usize,
            VoiceTrigger::Off => 4usize,
        },
{
    match trigger {
        VoiceTrigger::RightAlt => 0,
        VoiceTrigger::RightCtrl => 1,
        VoiceTrigger::CapsLock => 2,
        VoiceTrigger::ScrollLock => 3,
        VoiceTrigger::Off => 4,
    }
}

/// Whether `names` are ordered by their lowercase forms.
pub open spec fn sorted_by_lowercase(names: Seq<Seq<char>>) -> bool {
    forall|i: int, j: int|
        0 <= i < j < names.len() ==> text_le(
            lowercase_of(#[trigger] names[i]),
            lowercase_of(#[trigger] names[j]),
        )
}

proof fn lemma_text_le_total(a: Seq<char>, b: Seq<char>)
    ensures
        text_le(a, b) || text_le(b, a),
    decreases a.len(),
{
    if a.len() > 0 && b.len() > 0 {
        if a[0] == b[0] {
            lemma_text_le_total(a.drop_first(), b.drop_first());
        }
    }
}

proof fn lemma_text_le_transitive(a: Seq<char>, b: Seq<char>, c: Seq<char>)
    requires
        text_le(a, b),
        text_le(b, c),
    ensures
        text_le(a, c),
    decreases a.len(),
{
    if a.len() > 0 && b.len() > 0 && c.len() > 0 && a[0] == b[0] && b[0] == c[0] {
        lemma_text_le_transitive(a.drop_first(), b.drop_first(), c.drop_first());
    }
}

proof fn lemma_insert_by_lowercase_keeps(
    sorted: Seq<Seq<char>>,
    name: Seq<char>,
    p: spec_fn(Seq<char>) -> bool,
)
    requires
        forall|k: int| 0 <= k < sorted.len() ==> #[trigger] p(sorted[k]),
        p(name),
    ensures
        forall|k: int|
            0 <= k < insert_by_lowercase(sorted, name).len() ==> #[trigger] p(
                insert_by_lowercase(sorted, name)[k],
            ),
    decreases sorted.len(),
{
    if sorted.len() == 0 {
        assert(insert_by_lowercase(sorted, name) =~= seq![name]);
    } else if text_le(lowercase_of(sorted.last()), lowercase_of(name)) {
        let r = sorted.push(name);
        assert forall|k: int| 0 <= k < r.len() implies #[trigger] p(r[k]) by {
            if k < sorted.len() {
                assert(r[k] == sorted[k]);
            }
        }
    } else {
        let rest = sorted.drop_last();
        assert(forall|k: int| 0 <= k < rest.len() ==> rest[k] == sorted[k]);
        lemma_insert_by_lowercase_keeps(rest, name, p);
        assert(p(sorted[sorted.len() - 1]));
        let inner = insert_by_lowercase(rest, name);
        let r = inner.push(sorted.last());
        assert forall|k: int| 0 <= k < r.len() implies #[trigger] p(r[k]) by {
            if k < inner.len() {
                assert(r[k] == inner[k]);
            }
        }
    }
}

proof fn lemma_insert_by_lowercase_sorted(sorted: Seq<Seq<char>>, name: Seq<char>)
    requires
        sorted_by_lowercase(sorted),
    ensures
        sorted_by_lowercase(insert_by_lowercase(sorted, name)),
    decreases sorted.len(),
{
    if sorted.len() == 0 {
    } else {
        let last = sorted.last();
        if text_le(lowercase_of(last), lowercase_of(name)) {
            let r = sorted.push(name);
            assert forall|i: int, j: int| 0 <= i < j < r.len() implies text_le(
                lowercase_of(#[trigger] r[i]),
                lowercase_of(#[trigger] r[j]),
            ) by {
                assert(r[i] == sorted[i]);
                if j < sorted.len() {
                    assert(r[j] == sorted[j]);
                } else if i < sorted.len() - 1 {
                    assert(text_le(lowercase_of(sorted[i]), lowercase_of(sorted[sorted.len() - 1])));
                    lemma_text_le_transitive(
                        lowercase_of(sorted[i]),
                        lowercase_of(last),
                        lowercase_of(name),
                    );
                }
            }
        } else {
            lemma_text_le_total(lowercase_of(last), lowercase_of(name));
            let rest = sorted.drop_last();
            assert(sorted_by_lowercase(rest)) by {
                assert forall|i: int, j: int| 0 <= i < j < rest.len() implies text_le(
                    lowercase_of(#[trigger] rest[i]),
                    lowercase_of(#[trigger] rest[j]),
                ) by {
                    assert(rest[i] == sorted[i] && rest[j] == sorted[j]);
                }
            }
            lemma_insert_by_lowercase_sorted(rest, name);
            let inner = insert_by_lowercase(rest, name);
            let below = |x: Seq<char>| text_le(lowercase_of(x), lowercase_of(last));
            assert forall|k: int| 0 <= k < rest.len() implies #[trigger] below(rest[k]) by {
                assert(rest[k] == sorted[k]);
                assert(text_le(lowercase_of(sorted[k]), lowercase_of(sorted[sorted.len() - 1])));
            }
            lemma_insert_by_lowercase_keeps(rest, name, below);
            let r = inner.push(last);
            assert forall|i: int, j: int| 0 <= i < j < r.len() implies text_le(
                lowercase_of(#[trigger] r[i]),
                lowercase_of(#[trigger] r[j]),
            ) by {
                assert(r[i] == inner[i]);
                if j < inner.len() {
                    assert(r[j] == inner[j]);
                } else {
                    assert(below(inner[i]));
                }
            }
        }
    }
}

proof fn lemma_by_lowercase_sorted(names: Seq<Seq<char>>)
    ensures
        sorted_by_lowercase(by_lowercase(names)),
    decreases names.len(),
{
    if names.len() > 0 {
        lemma_by_lowercase_sorted(names.drop_last());
        lemma_insert_by_lowercase_sorted(by_lowercase(names.drop_last()), names.last());
    }
}

proof fn lemma_deduped_keeps(names: Seq<Seq<char>>, p: spec_fn(Seq<char>) -> bool)
    requires
        forall|k: int| 0 <= k < names.len() ==> #[trigger] p(names[k]),
    ensures
        forall|k: int| 0 <= k < deduped(names).len() ==> #[trigger] p(deduped(names)[k]),
    decreases names.len(),
{
    if names.len() > 0 {
        let rest = names.drop_last();
        assert(forall|k: int| 0 <= k < rest.len() ==> rest[k] == names[k]);
        lemma_deduped_keeps(rest, p);
        assert(p(names[names.len() - 1]));
        let d = deduped(rest);
        let r = d.push(names.last());
        assert forall|k: int| 0 <= k < r.len() implies #[trigger] p(r[k]) by {
            if k < d.len() {
                assert(r[k] == d[k]);
            }
        }
    }
}

proof fn lemma_deduped_sorted(names: Seq<Seq<char>>)
    requires
        sorted_by_lowercase(names),
    ensures
        sorted_by_lowercase(deduped(names)),
        forall|i: int| 0 <= i < deduped(names).len() - 1 ==> #[trigger] deduped(names)[i] != deduped(names)[i + 1],
    decreases names.len(),
{
    if names.len() > 0 {
        let rest = names.drop_last();
        let last = names.last();
        assert(sorted_by_lowercase(rest)) by {
            assert forall|i: int, j: int| 0 <= i < j < rest.len() implies text_le(
                lowercase_of(#[trigger] rest[i]),
                lowercase_of(#[trigger] rest[j]),
            ) by {
                assert(rest[i] == names[i] && rest[j] == names[j]);
            }
        }
        lemma_deduped_sorted(rest);
        let d = deduped(rest);
        let below = |x: Seq<char>| text_le(lowercase_of(x), lowercase_of(last));
        assert forall|k: int| 0 <= k < rest.len() implies #[trigger] below(rest[k]) by {
            assert(rest[k] == names[k]);
            assert(text_le(lowercase_of(names[k]), lowercase_of(names[names.len() - 1])));
        }
        lemma_deduped_keeps(rest, below);
        if !(d.len() > 0 && d.last() == last) {
            let r = d.push(last);
            assert forall|i: int, j: int| 0 <= i < j < r.len() implies text_le(
                lowercase_of(#[trigger] r[i]),
                lowercase_of(#[trigger] r[j]),
            ) by {
                assert(r[i] == d[i]);
                if j < d.len() {
                    assert(r[j] == d[j]);
                } else {
                    assert(below(d[i]));
                }
            }
            assert forall|i: int| 0 <= i < r.len() - 1 implies #[trigger] r[i] != r[i + 1] by {
                if i < d.len() - 1 {
                    assert(r[i] == d[i] && r[i + 1] == d[i + 1]);
                }
            }
        }
    }
}

/// The microphones offered are ordered by their lowercase names, and no name follows an equal
/// one.
pub proof fn lemma_device_choices_ordered(names: Seq<Seq<char>>)
    ensures
        sorted_by_lowercase(device_choices(names)),
        forall|i: int|
            0 <= i < device_choices(names).len() - 1 ==> #[trigger] device_choices(names)[i]
                != device_choices(names)[i + 1],
{
    lemma_by_lowercase_sorted(non_blank(names));
    lemma_deduped_sorted(by_lowercase(non_blank(names)));
}

} // verus!
