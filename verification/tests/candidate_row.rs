use qingjian_windows::ui::row::{from_candidate, Candidate, CandidateKind, Segment, Sense, Tone};

fn candidate(text: &str, reading: Option<&str>, translation: Option<Vec<Sense>>) -> Candidate {
    Candidate {
        text: text.to_owned(),
        reading: reading.map(str::to_owned),
        translation,
        kind: CandidateKind::Word,
    }
}

fn segment(text: &str, reading: Option<&str>) -> Segment {
    Segment {
        text: text.to_owned(),
        reading: reading.map(str::to_owned),
    }
}

fn pieces(row: &qingjian_windows::ui::row::Row) -> Vec<(&str, Tone)> {
    row.annotation
        .iter()
        .map(|(text, tone)| (text.as_str(), *tone))
        .collect()
}

#[test]
fn plain_candidate_is_numbered_from_one() {
    let row = from_candidate(0, &candidate("你好", None, None));
    assert_eq!(row.index, "1");
    assert_eq!(row.text, "你好");
    assert!(row.annotation.is_empty());
    assert!(!row.cloud);
    assert!(!row.sentence);
    assert_eq!(from_candidate(9, &candidate("x", None, None)).index, "10");
}

#[test]
fn sentence_candidates_are_marked() {
    let mut sentence = candidate("今天天气很好", None, None);
    sentence.kind = CandidateKind::Sentence;
    assert!(from_candidate(0, &sentence).sentence);
}

#[test]
fn reading_comes_first_then_senses_after_a_dot() {
    let senses = vec![
        Sense {
            part_of_speech: Some("n.".to_owned()),
            fresh: false,
            furigana: vec![segment("日本", Some("にほん")), segment("語", None)],
        },
        Sense {
            part_of_speech: None,
            fresh: true,
            furigana: vec![segment("ニホンゴ", None)],
        },
    ];
    let row = from_candidate(2, &candidate("日语", Some("rì yǔ"), Some(senses)));
    assert_eq!(row.index, "3");
    assert_eq!(
        pieces(&row),
        vec![
            ("rì yǔ", Tone::Gloss),
            (" · ", Tone::Faint),
            ("n. ", Tone::Faint),
            ("日本", Tone::Gloss),
            ("(にほん)", Tone::Faint),
            ("語", Tone::Gloss),
            (" · ", Tone::Faint),
            ("ニホンゴ", Tone::Fresh),
        ]
    );
}

#[test]
fn first_sense_without_reading_has_no_separator() {
    let senses = vec![Sense {
        part_of_speech: None,
        fresh: false,
        furigana: vec![segment("hello", None)],
    }];
    let row = from_candidate(0, &candidate("你好", None, Some(senses)));
    assert_eq!(pieces(&row), vec![("hello", Tone::Gloss)]);
}
