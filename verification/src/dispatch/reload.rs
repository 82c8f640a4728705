//! Hot reload of `config.toml`: when idle the router looks at the file's modification time at most
//! once a second, and a changed voice configuration restarts the voice worker.
use vstd::prelude::*;

use crate::protocol::{trigger_key, VoiceTrigger};
use crate::voice::worker::{VoiceConfig, VoiceConfigView};

verus! {

/// The shortest interval between two looks at the configuration file, in milliseconds.
pub const CONFIG_POLL_INTERVAL_MS: u64 = 1000;

/// What the reload keeps between polls.
pub struct ReloadModel {
    pub last_check: u64,
    pub last_mtime: Option<i128>,
    pub applied_voice: VoiceConfigView,
    pub applied_trigger: VoiceTrigger,
}

/// Whether a look at the file is due at `now`.
pub open spec fn check_due(m: ReloadModel, now: u64) -> bool {
    now - m.last_check >= CONFIG_POLL_INTERVAL_MS
}

/// The state after the look at `now` was decided.
pub open spec fn checked(m: ReloadModel, now: u64) -> ReloadModel {
    if check_due(m, now) {
        ReloadModel { last_check: now, ..m }
    } else {
        m
    }
}

/// The state after seeing the modification time `mtime` (nanoseconds from the Unix epoch, `None`
/// when it could not be read). A bad file is not re-read every second: its time is kept too.
pub open spec fn mtime_seen(m: ReloadModel, mtime: Option<i128>) -> ReloadModel {
    ReloadModel { last_mtime: mtime, ..m }
}

/// What to do with voice input after a configuration change. Every step but `Unchanged` begins
/// by disabling the running voice input; a failed spawn is reported as "语音工作进程启动失败".
#[derive(Clone, Copy, Debug, PartialEq, Eq, Structural)]
pub enum VoiceReloadStep {
    /// Neither the voice settings nor the shortcut changed: leave voice input alone.
    Unchanged,
    /// Voice input is now off (disabled, or no shortcut): it stays disabled.
    Off,
    /// Voice input is wanted but the worker executable is unknown: report "找不到语音工作进程".
    MissingWorker,
    /// Start a worker with the new settings.
    Spawn,
}

/// The voice step for the new settings `voice`, `enabled` and `trigger`; `worker_known` says where
/// the worker executable is.
pub open spec fn voice_step(
    m: ReloadModel,
    voice: VoiceConfigView,
    trigger: VoiceTrigger,
    worker_known: bool,
) -> VoiceReloadStep {
    if voice == m.applied_voice && trigger == m.applied_trigger {
        VoiceReloadStep::Unchanged
    } else if !voice.enabled || trigger_key(trigger) is None {
        VoiceReloadStep::Off
    } else if !worker_known {
        VoiceReloadStep::MissingWorker
    } else {
        VoiceReloadStep::Spawn
    }
}

/// The state after the voice step: a change is remembered as applied.
pub open spec fn voice_applied(
    m: ReloadModel,
    voice: VoiceConfigView,
    trigger: VoiceTrigger,
) -> ReloadModel {
    ReloadModel { applied_voice: voice, applied_trigger: trigger, ..m }
}

/// Hot-reload state of the configuration file.
pub struct ConfigReload {
    last_check: u64,
    last_mtime: Option<i128>,
    applied_voice: VoiceConfig,
    applied_trigger: VoiceTrigger,
}

impl View for ConfigReload {
    type V = ReloadModel;

    closed spec fn view(&self) -> ReloadModel {
        ReloadModel {
            last_check: self.last_check,
            last_mtime: self.last_mtime,
            applied_voice: self.applied_voice@,
            applied_trigger: self.applied_trigger,
        }
    }
}

fn same_string(a: &String, b: &String) -> (r: bool)
    ensures
        r == (a@ == b@),
{
    *a == *b
}

/// Whether two voice configurations are equal.
pub fn same_voice_config(a: &VoiceConfig, b: &VoiceConfig) -> (r: bool)
    ensures
        r == (a@ == b@),
{
    let same = a.enabled == b.enabled && same_string(&a.model, &b.model) && same_string(
        &a.tokens,
        &b.tokens,
    ) && same_string(&a.language, &b.language) && same_string(&a.input_device, &b.input_device)
        && a.auto_stop_ms == b.auto_stop_ms && same_string(
        &a.punctuation_model,
        &b.punctuation_model,
    ) && a.punctuation == b.punctuation && same_string(&a.hr_lexicon, &b.hr_lexicon)
        && same_string(&a.hr_rule_fsts, &b.hr_rule_fsts) && a.hr == b.hr && same_string(
        &a.polish_url,
        &b.polish_url,
    ) && same_string(&a.polish_model, &b.polish_model) && a.polish_level.0 == b.polish_level.0;
    proof {
        if same {
            assert(a@ =~= b@);
        }
    }
    same
}

impl ConfigReload {
    /// Starts watching at `now`, with the file's modification time `mtime` and the voice settings
    /// that are in force.
    pub fn new(now: u64, mtime: Option<i128>, voice: VoiceConfig, trigger: VoiceTrigger) -> (r:
        Self)
        ensures
            r@ == (ReloadModel {
                last_check: now,
                last_mtime: mtime,
                applied_voice: voice@,
                applied_trigger: trigger,
            }),
    {
        ConfigReload { last_check: now, last_mtime: mtime, applied_voice: voice, applied_trigger: trigger }
    }

    /// Whether to look at the file now; a look is due at most once per interval.
    pub fn check_due(&mut self, now: u64) -> (r: bool)
        ensures
            r == check_due(old(self)@, now),
            final(self)@ == checked(old(self)@, now),
    {
        let due = now >= self.last_check && now - self.last_check >= CONFIG_POLL_INTERVAL_MS;
        if due {
            self.last_check = now;
        }
        due
    }

    /// Whether the file changed, given its modification time now; the time is remembered either way.
    pub fn mtime_changed(&mut self, mtime: Option<i128>) -> (r: bool)
        ensures
            r == (mtime != old(self)@.last_mtime),
            final(self)@ == mtime_seen(old(self)@, mtime),
    {
        let changed = match (mtime, self.last_mtime) {
            (Some(a), Some(b)) => a != b,
            (None, None) => false,
            _ => true,
        };
        self.last_mtime = mtime;
        changed
    }

    /// The voice step for new settings; a change is remembered as applied.
    pub fn voice_step(
        &mut self,
        voice: VoiceConfig,
        trigger: VoiceTrigger,
        worker_known: bool,
    ) -> (r: VoiceReloadStep)
        ensures
            r == voice_step(old(self)@, voice@, trigger, worker_known),
            r == VoiceReloadStep::Unchanged ==> final(self)@ == old(self)@,
            r != VoiceReloadStep::Unchanged ==> final(self)@ == voice_applied(
                old(self)@,
                voice@,
                trigger,
            ),
    {
        if same_voice_config(&voice, &self.applied_voice) && trigger == self.applied_trigger {
            return VoiceReloadStep::Unchanged;
        }
        let enabled = voice.enabled;
        self.applied_voice = voice;
        self.applied_trigger = trigger;
        if !enabled || trigger.virtual_key().is_none() {
            VoiceReloadStep::Off
        } else if !worker_known {
            VoiceReloadStep::MissingWorker
        } else {
            VoiceReloadStep::Spawn
        }
    }
}

/// The file is looked at no more than once per interval: right after a look, the next is not due
/// until the interval has passed.
pub proof fn lemma_throttled(m: ReloadModel, now: u64, later: u64)
    requires
        check_due(m, now),
        later >= now,
        later - now < CONFIG_POLL_INTERVAL_MS,
    ensures
        !check_due(checked(m, now), later),
{
}

/// Once a modification time has been seen, seeing it again is no change: a file that does not
/// parse is not re-read every second.
pub proof fn lemma_same_mtime_is_no_change(m: ReloadModel, mtime: Option<i128>)
    ensures
        mtime_seen(m, mtime).last_mtime == mtime,
{
}

/// Applying the same voice settings twice restarts the worker at most once.
pub proof fn lemma_voice_restart_once(
    m: ReloadModel,
    voice: VoiceConfigView,
    trigger: VoiceTrigger,
    worker_known: bool,
)
    ensures
        voice_step(voice_applied(m, voice, trigger), voice, trigger, worker_known)
            == VoiceReloadStep::Unchanged,
{
}

} // verus!
