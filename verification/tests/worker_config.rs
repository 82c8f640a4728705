use std::path::Path;

use qingjian_windows::dispatch::reload::{ConfigReload, VoiceReloadStep};
use qingjian_windows::protocol::{VoiceState, VoiceTrigger};
use qingjian_windows::voice::error::{recoverable, VoiceBackendError};
use qingjian_windows::voice::worker::{
    bundled_paths, failure_snapshot, interval, loading_snapshot, worker_config_with, BundledFiles, PolishLevel,
    VoiceConfig,
};

fn voice_config() -> VoiceConfig {
    VoiceConfig {
        enabled: true,
        model: "models/sensevoice.onnx".to_owned(),
        tokens: "models/tokens.txt".to_owned(),
        language: "zh".to_owned(),
        input_device: "  ".to_owned(),
        auto_stop_ms: 1_200,
        punctuation_model: String::new(),
        punctuation: true,
        hr_lexicon: String::new(),
        hr_rule_fsts: "/custom/replace.fst".to_owned(),
        hr: false,
        polish_url: "  http://localhost:1234//  ".to_owned(),
        polish_model: "qwen".to_owned(),
        polish_level: PolishLevel(2),
    }
}

fn joined(root: &str, rest: &str) -> String {
    Path::new(root).join(rest).display().to_string()
}

#[test]
fn worker_configuration_resolves_paths_and_switches() {
    let root = "/opt/qingjian";
    let files = BundledFiles {
        punctuation_model: true,
        hr_lexicon: true,
        hr_rule_fsts: true,
    };
    let hotwords = vec!["王经理".to_owned(), "你好".to_owned()];
    let config = worker_config_with(root, &voice_config(), &hotwords, files);
    assert_eq!(config.model, joined(root, "models/sensevoice.onnx"));
    assert_eq!(config.tokens, joined(root, "models/tokens.txt"));
    assert_eq!(config.language, "zh");
    assert_eq!(config.input_device, None);
    assert_eq!(config.auto_stop_ms, 1_200);
    assert_eq!(
        config.punctuation_model,
        Some(joined(root, "data\\voice\\punctuation\\model.int8.onnx"))
    );
    assert_eq!(config.polish, Some(PolishLevel(2)));
    assert_eq!(config.polish_url.as_deref(), Some("http://localhost:1234"));
    assert_eq!(config.polish_model.as_deref(), Some("qwen"));
    assert_eq!(config.hotwords.as_deref(), Some("王经理\n你好"));
    assert_eq!(config.hr_lexicon, None);
    assert_eq!(config.hr_rule_fsts.as_deref(), Some("/custom/replace.fst"));
}

#[test]
fn polishing_needs_level_address_and_model() {
    let files = BundledFiles {
        punctuation_model: false,
        hr_lexicon: false,
        hr_rule_fsts: false,
    };
    let mut config = voice_config();
    config.polish_model = " ".to_owned();
    let worker = worker_config_with("/opt/qingjian", &config, &Vec::new(), files);
    assert_eq!(worker.polish, None);
    assert_eq!(worker.polish_model, None);
    assert_eq!(worker.hotwords, None);
    assert_eq!(worker.punctuation_model, None);
    let mut config = voice_config();
    config.polish_level = PolishLevel(0);
    let worker = worker_config_with("/opt/qingjian", &config, &Vec::new(), files);
    assert_eq!(worker.polish, None);
    assert_eq!(worker.polish_url.as_deref(), Some("http://localhost:1234"));
}

#[test]
fn snapshots_are_polled_quickly_only_while_busy() {
    assert_eq!(interval(VoiceState::Recording), 40);
    assert_eq!(interval(VoiceState::Ready), 40);
    assert_eq!(interval(VoiceState::Idle), 500);
    assert_eq!(interval(VoiceState::Loading), 500);
    let failed = failure_snapshot("语音工作进程已退出，请重试");
    assert_eq!(failed.state, VoiceState::Failed);
    assert_eq!(failed.message.as_deref(), Some("语音工作进程已退出，请重试"));
    assert_eq!(loading_snapshot().state, VoiceState::Loading);
}

#[test]
fn backend_errors_have_messages_and_refusals_are_final() {
    assert_eq!(
        VoiceBackendError::Io("broken pipe".into()).message(),
        "voice worker I/O: broken pipe"
    );
    assert_eq!(VoiceBackendError::Closed.message(), "voice worker closed");
    assert_eq!(
        VoiceBackendError::Rejected("no model".into()).message(),
        "voice worker rejected request: no model"
    );
    assert!(recoverable(&VoiceBackendError::Closed));
    assert!(recoverable(&VoiceBackendError::Protocol("bad frame".into())));
    assert!(!recoverable(&VoiceBackendError::Rejected("no".into())));
}

#[test]
fn configuration_file_is_looked_at_once_per_interval_and_only_changes_count() {
    let mut reload = ConfigReload::new(0, Some(10), voice_config(), VoiceTrigger::RightAlt);
    assert!(!reload.check_due(500));
    assert!(reload.check_due(1_000));
    assert!(!reload.check_due(1_500));
    assert!(!reload.mtime_changed(Some(10)));
    assert!(reload.mtime_changed(Some(11)));
    assert!(!reload.mtime_changed(Some(11)));
    assert!(reload.mtime_changed(None));
}

#[test]
fn voice_settings_restart_the_worker_only_when_they_change() {
    let mut reload = ConfigReload::new(0, None, voice_config(), VoiceTrigger::RightAlt);
    assert_eq!(
        reload.voice_step(voice_config(), VoiceTrigger::RightAlt, true),
        VoiceReloadStep::Unchanged
    );
    assert_eq!(
        reload.voice_step(voice_config(), VoiceTrigger::RightCtrl, true),
        VoiceReloadStep::Spawn
    );
    assert_eq!(
        reload.voice_step(voice_config(), VoiceTrigger::RightCtrl, true),
        VoiceReloadStep::Unchanged
    );
    assert_eq!(
        reload.voice_step(voice_config(), VoiceTrigger::Off, true),
        VoiceReloadStep::Off
    );
    let mut disabled = voice_config();
    disabled.enabled = false;
    assert_eq!(
        reload.voice_step(disabled, VoiceTrigger::RightAlt, true),
        VoiceReloadStep::Off
    );
    assert_eq!(
        reload.voice_step(voice_config(), VoiceTrigger::RightAlt, false),
        VoiceReloadStep::MissingWorker
    );
}

#[test]
fn bundled_resources_lie_below_the_root() {
    let root = "/opt/qingjian";
    let (punctuation, lexicon, rules) = bundled_paths(root);
    assert_eq!(punctuation, joined(root, "data\\voice\\punctuation\\model.int8.onnx"));
    assert_eq!(lexicon, joined(root, "data\\voice\\hr\\lexicon.txt"));
    assert_eq!(rules, joined(root, "data\\voice\\hr\\replace.fst"));
}
