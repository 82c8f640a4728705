//! The configuration handed to the voice worker process, the pace at which its state is polled,
//! and the snapshot published when it is gone.
use vstd::prelude::*;

use crate::protocol::{opt_view, texts, VoiceState, WorkerSnapshot};
use crate::paths::{is_absolute, join_path, joined_path, path_is_absolute};
use crate::text::{
    is_blank, is_white_space, join_lines, joined_lines, lemma_trimmed_empty_iff_white, trim_end_by,
    trim_end_char, trimmed,
};

verus! {

/// How much the language model may edit a transcript; level 0 is off.
#[derive(Clone, Copy, Debug, PartialEq, Eq, Structural)]
pub struct PolishLevel(pub u8);

/// The user's `[voice]` settings.
#[derive(Debug)]
pub struct VoiceConfig {
    pub enabled: bool,
    pub model: String,
    pub tokens: String,
    pub language: String,
    pub input_device: String,
    pub auto_stop_ms: u64,
    pub punctuation_model: String,
    pub punctuation: bool,
    pub hr_lexicon: String,
    pub hr_rule_fsts: String,
    pub hr: bool,
    pub polish_url: String,
    pub polish_model: String,
    pub polish_level: PolishLevel,
}

/// The `[voice]` settings as values.
pub struct VoiceConfigView {
    pub enabled: bool,
    pub model: Seq<char>,
    pub tokens: Seq<char>,
    pub language: Seq<char>,
    pub input_device: Seq<char>,
    pub auto_stop_ms: u64,
    pub punctuation_model: Seq<char>,
    pub punctuation: bool,
    pub hr_lexicon: Seq<char>,
    pub hr_rule_fsts: Seq<char>,
    pub hr: bool,
    pub polish_url: Seq<char>,
    pub polish_model: Seq<char>,
    pub polish_level: PolishLevel,
}

impl View for VoiceConfig {
    type V = VoiceConfigView;

    open spec fn view(&self) -> VoiceConfigView {
        VoiceConfigView {
            enabled: self.enabled,
            model: self.model@,
            tokens: self.tokens@,
            language: self.language@,
            input_device: self.input_device@,
            auto_stop_ms: self.auto_stop_ms,
            punctuation_model: self.punctuation_model@,
            punctuation: self.punctuation,
            hr_lexicon: self.hr_lexicon@,
            hr_rule_fsts: self.hr_rule_fsts@,
            hr: self.hr,
            polish_url: self.polish_url@,
            polish_model: self.polish_model@,
            polish_level: self.polish_level,
        }
    }
}

/// The immutable configuration a worker receives once after it starts.
#[derive(Debug)]
pub struct WorkerConfig {
    pub model: String,
    pub tokens: String,
    pub language: String,
    pub input_device: Option<String>,
    pub auto_stop_ms: u64,
    pub punctuation_model: Option<String>,
    pub polish: Option<PolishLevel>,
    pub polish_url: Option<String>,
    pub polish_model: Option<String>,
    pub hotwords: Option<String>,
    pub hr_lexicon: Option<String>,
    pub hr_rule_fsts: Option<String>,
}

/// The worker configuration as values.
pub struct WorkerConfigView {
    pub model: Seq<char>,
    pub tokens: Seq<char>,
    pub language: Seq<char>,
    pub input_device: Option<Seq<char>>,
    pub auto_stop_ms: u64,
    pub punctuation_model: Option<Seq<char>>,
    pub polish: Option<PolishLevel>,
    pub polish_url: Option<Seq<char>>,
    pub polish_model: Option<Seq<char>>,
    pub hotwords: Option<Seq<char>>,
    pub hr_lexicon: Option<Seq<char>>,
    pub hr_rule_fsts: Option<Seq<char>>,
}

impl View for WorkerConfig {
    type V = WorkerConfigView;

    open spec fn view(&self) -> WorkerConfigView {
        WorkerConfigView {
            model: self.model@,
            tokens: self.tokens@,
            language: self.language@,
            input_device: opt_view(self.input_device),
            auto_stop_ms: self.auto_stop_ms,
            punctuation_model: opt_view(self.punctuation_model),
            polish: self.polish,
            polish_url: opt_view(self.polish_url),
            polish_model: opt_view(self.polish_model),
            hotwords: opt_view(self.hotwords),
            hr_lexicon: opt_view(self.hr_lexicon),
            hr_rule_fsts: opt_view(self.hr_rule_fsts),
        }
    }
}

/// Which bundled resources exist below the install root.
#[derive(Clone, Copy, Debug, PartialEq, Eq, Structural)]
pub struct BundledFiles {
    pub punctuation_model: bool,
    pub hr_lexicon: bool,
    pub hr_rule_fsts: bool,
}

/// The bundled punctuation model, relative to the install root.
pub open spec fn punctuation_model_rel() -> Seq<char> {
    "data\\voice\\punctuation\\model.int8.onnx"@
}

/// The bundled homophone lexicon, relative to the install root.
pub open spec fn hr_lexicon_rel() -> Seq<char> {
    "data\\voice\\hr\\lexicon.txt"@
}

/// The bundled homophone replacement rules, relative to the install root.
pub open spec fn hr_rule_fsts_rel() -> Seq<char> {
    "data\\voice\\hr\\replace.fst"@
}

/// A configured path: absolute as it is, relative below the install root.
pub open spec fn resolved(root: Seq<char>, value: Seq<char>) -> Seq<char> {
    if path_is_absolute(value) {
        value
    } else {
        joined_path(root, value)
    }
}

/// An optional resource: an explicit path wins; otherwise, when the switch is on, the bundled file
/// if it exists.
pub open spec fn optional_resource(
    root: Seq<char>,
    explicit: Seq<char>,
    enabled: bool,
    bundled: Seq<char>,
    present: bool,
) -> Option<Seq<char>> {
    if trimmed(explicit).len() != 0 {
        Some(resolved(root, explicit))
    } else if enabled && present {
        Some(joined_path(root, bundled))
    } else {
        None
    }
}

/// The worker configuration for `config` installed below `root`, with `hotwords` as the list of
/// names polishing must keep and `files` telling which bundled resources exist.
pub open spec fn worker_config_spec(
    root: Seq<char>,
    config: VoiceConfigView,
    hotwords: Seq<Seq<char>>,
    files: BundledFiles,
) -> WorkerConfigView {
    let url_set = trimmed(config.polish_url).len() != 0;
    let model_set = trimmed(config.polish_model).len() != 0;
    WorkerConfigView {
        model: resolved(root, config.model),
        tokens: resolved(root, config.tokens),
        language: config.language,
        input_device: if trimmed(config.input_device).len() != 0 {
            Some(config.input_device)
        } else {
            None
        },
        auto_stop_ms: config.auto_stop_ms,
        punctuation_model: optional_resource(
            root,
            config.punctuation_model,
            config.punctuation,
            punctuation_model_rel(),
            files.punctuation_model,
        ),
        polish: if config.polish_level != PolishLevel(0) && url_set && model_set {
            Some(config.polish_level)
        } else {
            None
        },
        polish_url: if url_set {
            Some(trim_end_by(trimmed(config.polish_url), |c: char| c == '/'))
        } else {
            None
        },
        polish_model: if model_set {
            Some(config.polish_model)
        } else {
            None
        },
        hotwords: if hotwords.len() == 0 {
            None
        } else {
            Some(joined_lines(hotwords))
        },
        hr_lexicon: optional_resource(
            root,
            config.hr_lexicon,
            config.hr,
            hr_lexicon_rel(),
            files.hr_lexicon,
        ),
        hr_rule_fsts: optional_resource(
            root,
            config.hr_rule_fsts,
            config.hr,
            hr_rule_fsts_rel(),
            files.hr_rule_fsts,
        ),
    }
}

fn resolve(root: &str, value: &str) -> (r: String)
    ensures
        r@ == resolved(root@, value@),
{
    if is_absolute(value) {
        String::from_str(value)
    } else {
        join_path(root, value)
    }
}

fn resource(root: &str, explicit: &str, enabled: bool, bundled: &str, present: bool) -> (r: Option<
    String,
>)
    ensures
        opt_view(r) == optional_resource(root@, explicit@, enabled, bundled@, present),
{
    if !is_blank(explicit) {
        Some(resolve(root, explicit))
    } else if enabled && present {
        Some(join_path(root, bundled))
    } else {
        None
    }
}

fn copy_string(s: &String) -> (r: String)
    ensures
        r@ == s@,
{
    s.clone()
}

/// The microphone the user picked reaches the worker exactly as written; only a setting made of
/// white space alone (or nothing) leaves the worker on the default device.
pub proof fn lemma_input_device_kept(
    root: Seq<char>,
    config: VoiceConfigView,
    hotwords: Seq<Seq<char>>,
    files: BundledFiles,
)
    ensures
        (exists|i: int| 0 <= i < config.input_device.len() && !is_white_space(
            #[trigger] config.input_device[i],
        )) ==> worker_config_spec(root, config, hotwords, files).input_device == Some(
            config.input_device,
        ),
        (forall|i: int| 0 <= i < config.input_device.len() ==> is_white_space(
            #[trigger] config.input_device[i],
        )) ==> worker_config_spec(root, config, hotwords, files).input_device is None,
{
    lemma_trimmed_empty_iff_white(config.input_device);
}

/// The worker configuration for `config` below `root`, given which bundled files exist.
pub fn worker_config_with(
    root: &str,
    config: &VoiceConfig,
    hotwords: &Vec<String>,
    files: BundledFiles,
) -> (r: WorkerConfig)
    ensures
        r@ == worker_config_spec(root@, config@, texts(hotwords@), files),
{
    let url_set = !is_blank(config.polish_url.as_str());
    let model_set = !is_blank(config.polish_model.as_str());
    proof {
        reveal_strlit("data\\voice\\punctuation\\model.int8.onnx");
        reveal_strlit("data\\voice\\hr\\lexicon.txt");
        reveal_strlit("data\\voice\\hr\\replace.fst");
    }
    WorkerConfig {
        model: resolve(root, config.model.as_str()),
        tokens: resolve(root, config.tokens.as_str()),
        language: copy_string(&config.language),
        input_device: if !is_blank(config.input_device.as_str()) {
            Some(copy_string(&config.input_device))
        } else {
            None
        },
        auto_stop_ms: config.auto_stop_ms,
        punctuation_model: resource(
            root,
            config.punctuation_model.as_str(),
            config.punctuation,
            "data\\voice\\punctuation\\model.int8.onnx",
            files.punctuation_model,
        ),
        polish: if config.polish_level.0 != 0 && url_set && model_set {
            Some(config.polish_level)
        } else {
            None
        },
        polish_url: if url_set {
            Some(trim_end_char(config.polish_url.as_str().trim(), '/'))
        } else {
            None
        },
        polish_model: if model_set {
            Some(copy_string(&config.polish_model))
        } else {
            None
        },
        hotwords: if hotwords.len() == 0 {
            None
        } else {
            Some(join_lines(hotwords))
        },
        hr_lexicon: resource(
            root,
            config.hr_lexicon.as_str(),
            config.hr,
            "data\\voice\\hr\\lexicon.txt",
            files.hr_lexicon,
        ),
        hr_rule_fsts: resource(
            root,
            config.hr_rule_fsts.as_str(),
            config.hr,
            "data\\voice\\hr\\replace.fst",
            files.hr_rule_fsts,
        ),
    }
}

/// Where the bundled resources lie below `root`: the punctuation model, the homophone lexicon and
/// the homophone rules, in that order. Whether each file exists is read from the disk by the
/// caller and handed to [`worker_config_with`] as [`BundledFiles`].
pub fn bundled_paths(root: &str) -> (r: (String, String, String))
    ensures
        r.0@ == joined_path(root@, punctuation_model_rel()),
        r.1@ == joined_path(root@, hr_lexicon_rel()),
        r.2@ == joined_path(root@, hr_rule_fsts_rel()),
{
    proof {
        reveal_strlit("data\\voice\\punctuation\\model.int8.onnx");
        reveal_strlit("data\\voice\\hr\\lexicon.txt");
        reveal_strlit("data\\voice\\hr\\replace.fst");
    }
    (
        join_path(root, "data\\voice\\punctuation\\model.int8.onnx"),
        join_path(root, "data\\voice\\hr\\lexicon.txt"),
        join_path(root, "data\\voice\\hr\\replace.fst"),
    )
}

/// How often the worker thread refreshes the snapshot, in milliseconds: quickly while something is
/// under way, slowly while only watching that the process is alive.
pub open spec fn poll_interval_ms(state: VoiceState) -> u64 {
    match state {
        VoiceState::Recording | VoiceState::Recognizing | VoiceState::Polishing
        | VoiceState::Ready => 40,
        _ => 500,
    }
}

/// The snapshot refresh interval for `state`, in milliseconds.
pub fn interval(state: VoiceState) -> (r: u64)
    ensures
        r == poll_interval_ms(state),
{
    match state {
        VoiceState::Recording | VoiceState::Recognizing | VoiceState::Polishing
        | VoiceState::Ready => 40,
        _ => 500,
    }
}

/// The snapshot published when the worker process is gone or cannot start: a failure with a
/// reason, so that an old "recording" cannot pull the coordinator back.
pub fn failure_snapshot(message: &str) -> (r: WorkerSnapshot)
    ensures
        r.state == VoiceState::Failed,
        r.request is None,
        r.level == 0,
        r.partial is None,
        r.text is None,
        r.message matches Some(m) && m@ == message@,
{
    WorkerSnapshot {
        state: VoiceState::Failed,
        request: None,
        level: 0,
        partial: None,
        text: None,
        message: Some(String::from_str(message)),
    }
}

/// The snapshot published when a fresh worker process is loading its model.
pub fn loading_snapshot() -> (r: WorkerSnapshot)
    ensures
        r.state == VoiceState::Loading,
        r.request is None,
        r.level == 0,
        r.partial is None,
        r.text is None,
        r.message is None,
{
    WorkerSnapshot {
        state: VoiceState::Loading,
        request: None,
        level: 0,
        partial: None,
        text: None,
        message: None,
    }
}

} // verus!
