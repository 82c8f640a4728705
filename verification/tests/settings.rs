use qingjian_windows::protocol::VoiceTrigger;
use qingjian_windows::settings::{
    device_list, flush_due, option_index, voice_key_index, PolishDraft, POLISH_FLUSH_DELAY_NS,
};

fn names(items: &[&str]) -> Vec<String> {
    items.iter().map(|item| (*item).to_owned()).collect()
}

#[test]
fn devices_are_sorted_case_insensitively_without_blank_names() {
    let listed = names(&["USB Mic", "  ", "array microphone", "Headset", ""]);
    assert_eq!(
        device_list(&listed),
        names(&["array microphone", "Headset", "USB Mic"])
    );
}

#[test]
fn repeated_device_names_are_listed_once() {
    let listed = names(&["Mic", "Line In", "Mic"]);
    assert_eq!(device_list(&listed), names(&["Line In", "Mic"]));
}

#[test]
fn equal_lowercase_names_keep_their_order() {
    let listed = names(&["mic", "Mic", "MIC"]);
    assert_eq!(device_list(&listed), names(&["mic", "Mic", "MIC"]));
}

#[test]
fn no_devices_give_an_empty_list() {
    assert!(device_list(&Vec::new()).is_empty());
}

#[test]
fn polish_edits_flush_after_the_pause_or_when_forced() {
    assert!(!flush_due(false, true, 10_000_000_000));
    assert!(flush_due(true, true, 0));
    assert!(!flush_due(true, false, POLISH_FLUSH_DELAY_NS - 1));
    assert!(flush_due(true, false, POLISH_FLUSH_DELAY_NS));
}

#[test]
fn polish_draft_writes_trimmed_values_once() {
    let mut draft = PolishDraft::new("http://a".to_owned(), "m".to_owned());
    let now: u64 = 10_000_000_000;
    assert!(draft.due_values(true, now).is_none());
    draft.url = "  http://localhost:1234  ".to_owned();
    draft.model = " qwen ".to_owned();
    draft.edited(now);
    assert!(draft.is_dirty());
    assert!(draft.due_values(false, now).is_none());
    assert!(draft.due_values(false, now + 499_999_999).is_none());
    let trimmed = Some(("http://localhost:1234".to_owned(), "qwen".to_owned()));
    assert_eq!(draft.due_values(false, now + 500_000_000), trimmed);
    assert_eq!(draft.due_values(true, now), trimmed);
    draft.written();
    assert!(!draft.is_dirty());
    assert!(draft.due_values(true, now + 1_000_000_000).is_none());
}

#[test]
fn drop_downs_select_the_stored_option_or_the_first() {
    let values = vec!["", "xiaohe", "ziranma", "microsoft", "sogou"];
    assert_eq!(option_index(&values, "ziranma"), 2);
    assert_eq!(option_index(&values, ""), 0);
    assert_eq!(option_index(&values, "unknown"), 0);
    assert_eq!(voice_key_index(VoiceTrigger::RightAlt), 0);
    assert_eq!(voice_key_index(VoiceTrigger::ScrollLock), 3);
    assert_eq!(voice_key_index(VoiceTrigger::Off), 4);
}
