//! One row of the candidate window: its number, the candidate, and the annotation after it
//! (the reading, then each sense of its foreign-language gloss with furigana).
use vstd::prelude::*;

use crate::text::{decimal, decimal_string};

verus! {

/// What a candidate is.
#[derive(Clone, Copy, Debug, PartialEq, Eq, Structural)]
pub enum CandidateKind {
    /// A dictionary word or phrase.
    Word,
    /// A whole sentence put together from the pinyin.
    Sentence,
}

/// A piece of a sense's text with the reading of its kanji, if any.
#[derive(Clone, Debug)]
pub struct Segment {
    pub text: String,
    pub reading: Option<String>,
}

/// One sense of a candidate's foreign-language gloss.
#[derive(Clone, Debug)]
pub struct Sense {
    pub part_of_speech: Option<String>,
    /// The sense was added recently and is highlighted.
    pub fresh: bool,
    pub furigana: Vec<Segment>,
}

/// A candidate as the window shows it.
#[derive(Clone, Debug)]
pub struct Candidate {
    pub text: String,
    pub reading: Option<String>,
    /// The senses of the candidate's foreign-language gloss, if it has one.
    pub translation: Option<Vec<Sense>>,
    pub kind: CandidateKind,
}

/// How a piece of annotation is drawn.
#[derive(Clone, Copy, Debug, PartialEq, Eq, Structural)]
pub enum Tone {
    Faint,
    Gloss,
    Fresh,
}

/// A row of the candidate window.
#[derive(Debug)]
pub struct Row {
    /// The number typed to pick the candidate.
    pub index: String,
    pub text: String,
    pub annotation: Vec<(String, Tone)>,
    pub cloud: bool,
    pub sentence: bool,
}

/// A piece of annotation as text.
pub type Piece = (Seq<char>, Tone);

/// The pieces of a segment: its text in `tone`, then its reading in brackets.
pub open spec fn segment_pieces(segment: Segment, tone: Tone) -> Seq<Piece> {
    seq![(segment.text@, tone)] + match segment.reading {
        Some(r) => seq![("("@ + r@ + ")"@, Tone::Faint)],
        None => Seq::empty(),
    }
}

/// The pieces of the segments `segments` in `tone`.
pub open spec fn segments_pieces(segments: Seq<Segment>, tone: Tone) -> Seq<Piece>
    decreases segments.len(),
{
    if segments.len() == 0 {
        Seq::empty()
    } else {
        segments_pieces(segments.drop_last(), tone) + segment_pieces(segments.last(), tone)
    }
}

/// The tone of a sense's text.
pub open spec fn sense_tone(sense: Sense) -> Tone {
    if sense.fresh {
        Tone::Fresh
    } else {
        Tone::Gloss
    }
}

/// The pieces of a sense: a separator when something comes before it, its part of speech, then its
/// segments.
pub open spec fn sense_pieces(sense: Sense, separated: bool) -> Seq<Piece> {
    (if separated {
        seq![(" · "@, Tone::Faint)]
    } else {
        Seq::empty()
    }) + match sense.part_of_speech {
        Some(p) => seq![(p@ + " "@, Tone::Faint)],
        None => Seq::empty(),
    } + segments_pieces(sense.furigana@, sense_tone(sense))
}

/// The pieces of `senses`; the first one is separated when `after_reading`.
pub open spec fn senses_pieces(senses: Seq<Sense>, after_reading: bool) -> Seq<Piece>
    decreases senses.len(),
{
    if senses.len() == 0 {
        Seq::empty()
    } else {
        senses_pieces(senses.drop_last(), after_reading) + sense_pieces(
            senses.last(),
            after_reading || senses.len() > 1,
        )
    }
}

/// The annotation of a candidate: its reading, then the senses of its gloss, separated by
/// a faint dot.
pub open spec fn annotation_of(candidate: Candidate) -> Seq<Piece> {
    (match candidate.reading {
        Some(r) => seq![(r@, Tone::Gloss)],
        None => Seq::empty(),
    }) + match candidate.translation {
        Some(senses) => senses_pieces(senses@, candidate.reading is Some),
        None => Seq::empty(),
    }
}

/// The pieces of an annotation under construction.
pub open spec fn pieces(annotation: Seq<(String, Tone)>) -> Seq<Piece> {
    annotation.map_values(|p: (String, Tone)| (p.0@, p.1))
}

/// Appends `piece` to the annotation.
fn push_piece(annotation: &mut Vec<(String, Tone)>, text: String, tone: Tone)
    ensures
        pieces(final(annotation)@) == pieces(old(annotation)@).push((text@, tone)),
{
    let ghost before = annotation@;
    annotation.push((text, tone));
    assert(pieces(annotation@) =~= pieces(before).push((text@, tone)));
}

/// Appends the pieces of `segments` in `tone`.
fn push_segments(annotation: &mut Vec<(String, Tone)>, segments: &Vec<Segment>, tone: Tone)
    ensures
        pieces(final(annotation)@) == pieces(old(annotation)@) + segments_pieces(segments@, tone),
{
    let mut i: usize = 0;
    while i < segments.len()
        invariant
            i <= segments.len(),
            pieces(annotation@) == pieces(old(annotation)@) + segments_pieces(
                segments@.take(i as int),
                tone,
            ),
        decreases segments.len() - i,
    {
        let segment = &segments[i];
        let ghost before = pieces(annotation@);
        push_piece(annotation, segment.text.clone(), tone);
        let ghost after_text = pieces(annotation@);
        match &segment.reading {
            Some(reading) => {
                let mut text = String::from_str("(");
                text.append(reading.as_str());
                text.append(")");
                proof {
                    reveal_strlit("(");
                    reveal_strlit(")");
                }
                push_piece(annotation, text, Tone::Faint);
            },
            None => {},
        }
        assert(segments@.take(i + 1).drop_last() =~= segments@.take(i as int));
        assert(pieces(annotation@) =~= pieces(old(annotation)@) + segments_pieces(
            segments@.take(i + 1),
            tone,
        ));
        i = i + 1;
    }
    assert(segments@.take(i as int) =~= segments@);
}

/// Appends the pieces of `senses`; the first one is separated when `after_reading`.
fn push_senses(annotation: &mut Vec<(String, Tone)>, senses: &Vec<Sense>, after_reading: bool)
    ensures
        pieces(final(annotation)@) == pieces(old(annotation)@) + senses_pieces(
            senses@,
            after_reading,
        ),
{
    let mut i: usize = 0;
    while i < senses.len()
        invariant
            i <= senses.len(),
            pieces(annotation@) == pieces(old(annotation)@) + senses_pieces(
                senses@.take(i as int),
                after_reading,
            ),
        decreases senses.len() - i,
    {
        let sense = &senses[i];
        let ghost start = pieces(annotation@);
        if i > 0 || after_reading {
            proof {
                reveal_strlit(" · ");
            }
            push_piece(annotation, String::from_str(" · "), Tone::Faint);
        }
        match &sense.part_of_speech {
            Some(p) => {
                let mut text = p.clone();
                proof {
                    reveal_strlit(" ");
                }
                text.append(" ");
                push_piece(annotation, text, Tone::Faint);
            },
            None => {},
        }
        let tone = if sense.fresh {
            Tone::Fresh
        } else {
            Tone::Gloss
        };
        push_segments(annotation, &sense.furigana, tone);
        assert(senses@.take(i + 1).drop_last() =~= senses@.take(i as int));
        assert(pieces(annotation@) =~= pieces(old(annotation)@) + senses_pieces(
            senses@.take(i + 1),
            after_reading,
        ));
        i = i + 1;
    }
    assert(senses@.take(i as int) =~= senses@);
}

/// The row for the candidate at `position` of the page (counting from 0): numbered from 1, the
/// candidate's text, its annotation, and whether it is a sentence.
pub fn from_candidate(position: usize, candidate: &Candidate) -> (r: Row)
    requires
        position < usize::MAX,
    ensures
        r.index@ == decimal(position as nat + 1),
        r.text@ == candidate.text@,
        pieces(r.annotation@) == annotation_of(*candidate),
        !r.cloud,
        r.sentence == (candidate.kind == CandidateKind::Sentence),
{
    let mut annotation: Vec<(String, Tone)> = Vec::new();
    assert(pieces(annotation@) =~= Seq::<Piece>::empty());
    match &candidate.reading {
        Some(reading) => {
            push_piece(&mut annotation, reading.clone(), Tone::Gloss);
        },
        None => {},
    }
    match &candidate.translation {
        Some(senses) => {
            push_senses(&mut annotation, senses, candidate.reading.is_some());
        },
        None => {},
    }
    assert(pieces(annotation@) =~= annotation_of(*candidate));
    Row {
        index: decimal_string((position + 1) as u64),
        text: candidate.text.clone(),
        annotation,
        cloud: false,
        sentence: candidate.kind == CandidateKind::Sentence,
    }
}

} // verus!
