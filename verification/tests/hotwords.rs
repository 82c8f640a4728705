use qingjian_windows::voice::hotwords::{collect, CustomPhrase, MAX_WORD, MAX_WORDS};

fn word(text: &str) -> CustomPhrase {
    CustomPhrase {
        code: "aa".into(),
        text: text.to_owned(),
        position: 1,
        enabled: true,
    }
}

#[test]
fn merges_sources_dedupes_and_caps() {
    let user_words = "你好世界科技\tihao\n";
    let frequency = "王经理\t12\n你好\t4\n";

    let collected = collect(
        Some(user_words),
        Some(frequency),
        &[word("你好世界科技"), word("自造短句扩展")],
    );
    assert_eq!(collected.first().map(String::as_str), Some("你好世界科技"));
    assert!(collected.contains(&"王经理".to_owned()));
    assert!(collected.iter().all(|item| item.chars().count() <= 20));
    assert!(collected.len() <= 60);
}

#[test]
fn skips_punctuation_only_entries() {
    let collected = collect(None, None, &[word("："), word("目标")]);
    assert_eq!(collected, vec!["目标".to_owned()]);
}

#[test]
fn phrases_then_coined_words_then_frequency_order() {
    let collected = collect(
        Some("你好世界科技\tihao\n"),
        Some("王经理\t12\n你好\t4\n"),
        &[word("你好世界科技"), word("自造短句扩展")],
    );
    assert_eq!(collected, vec!["你好世界科技", "自造短句扩展", "王经理", "你好"]);
}

#[test]
fn frequency_words_come_by_count_and_ties_keep_file_order() {
    let collected = collect(None, Some("a\t1\nb\t3\nc\t2\nd\t3\n"), &[]);
    assert_eq!(collected, vec!["b", "d", "c", "a"]);
}

#[test]
fn counts_are_trimmed_and_must_parse() {
    let frequency = "plus\t+5\nspaced\t 7 \nnegative\t-1\nhuge\t4294967296\nmax\t4294967295\nnotab 9\nempty\t\n";
    let collected = collect(None, Some(frequency), &[]);
    assert_eq!(collected, vec!["max", "spaced", "plus"]);
}

#[test]
fn words_are_trimmed_and_crlf_lines_are_split() {
    let collected = collect(Some("  alpha \r\nbeta\tb\r\n\r\n gamma"), None, &[word("  hi  ")]);
    assert_eq!(collected, vec!["hi", "alpha", "beta", "gamma"]);
}

#[test]
fn duplicates_and_overlong_words_are_dropped() {
    let long = "a".repeat(MAX_WORD + 1);
    let exact = "b".repeat(MAX_WORD);
    let collected = collect(
        None,
        None,
        &[word("x1"), word(&long), word("x1"), word(" x1 "), word(&exact), word("   ")],
    );
    assert_eq!(collected, vec!["x1".to_owned(), exact]);
}

#[test]
fn at_most_max_words_are_kept() {
    let mut frequency = String::new();
    for i in 0..100 {
        frequency.push_str(&format!("w{}\t{}\n", i, 1000 - i));
    }
    let collected = collect(None, Some(&frequency), &[]);
    assert_eq!(collected.len(), MAX_WORDS);
    assert_eq!(collected.first().map(String::as_str), Some("w0"));
    assert_eq!(collected.last().map(String::as_str), Some("w59"));
}

#[test]
fn final_line_endings_add_no_entry() {
    let plain = collect(Some("alpha\tx\nbeta"), Some("w\t2\nv\t1"), &[]);
    assert_eq!(collect(Some("alpha\tx\nbeta\n"), Some("w\t2\nv\t1\n"), &[]), plain);
    assert_eq!(collect(Some("alpha\tx\r\nbeta\r\n"), Some("w\t2\r\nv\t1\r\n"), &[]), plain);
    assert_eq!(plain, vec!["alpha", "beta", "w", "v"]);
}
