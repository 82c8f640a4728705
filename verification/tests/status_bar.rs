use qingjian_windows::dispatch::model::{ConfigWrite, StatusEvent};
use qingjian_windows::dispatch::router::{Router, RouterConfig, StatusCommand};
use qingjian_windows::protocol::{ColorScheme, SessionId, VoiceState, VoiceTrigger, WorkerSnapshot};
use qingjian_windows::voice::backend::VoiceBackend;
use qingjian_windows::voice::coordinator::VoiceCoordinator;
use qingjian_windows::voice::error::VoiceBackendError;

const SESSION: SessionId = SessionId(1);

struct NoWorker;

impl VoiceBackend for NoWorker {
    fn start(&mut self, _request: u64) -> Result<(), VoiceBackendError> {
        Err(VoiceBackendError::Closed)
    }

    fn stop(&mut self, _request: u64) -> Result<(), VoiceBackendError> {
        Err(VoiceBackendError::Closed)
    }

    fn cancel(&mut self, _request: u64) -> Result<(), VoiceBackendError> {
        Err(VoiceBackendError::Closed)
    }

    fn snapshot(&mut self) -> Result<WorkerSnapshot, VoiceBackendError> {
        Err(VoiceBackendError::Closed)
    }
}

fn config() -> RouterConfig {
    RouterConfig {
        preedit_in_window: true,
        color_scheme: ColorScheme(0),
        font: String::new(),
        full_width: true,
        english_full_width: false,
        status_enabled: false,
        shuangpin: None,
        status_pos: None,
    }
}

fn router_with(config: RouterConfig) -> Router<NoWorker> {
    Router::new(config, VoiceCoordinator::new(0))
}

/// The label a status bar shows for a command, `None` when it is hidden.
fn label(command: &StatusCommand) -> Option<String> {
    match command {
        StatusCommand::Show(view) => Some(match (view.english, &view.scheme) {
            (true, _) => "英".to_owned(),
            (false, Some(scheme)) => format!("中 · {scheme}"),
            (false, None) => "中".to_owned(),
        }),
        StatusCommand::Hide => None,
    }
}

fn assert_default_voice(router: &mut Router<NoWorker>) {
    let voice = router.sync_voice(SESSION, 0);
    assert!(!voice.enabled);
    assert_eq!(voice.trigger, VoiceTrigger::Off);
    assert_eq!(voice.state, VoiceState::Disabled);
    assert_eq!(voice.level, 0);
    assert!(voice.partial.is_none());
    assert!(voice.delivery.is_none());
    assert!(voice.message.is_none());
}

#[test]
fn status_bar_mode_click_is_handed_to_dll_via_sync_mode() {
    let mut router = router_with(RouterConfig {
        status_enabled: true,
        ..config()
    });
    let mut calls = Vec::new();
    calls.push(label(&router.handle_mode_changed(SESSION, false)));

    let outcome = router.handle_status_event(StatusEvent::ToggleMode);
    calls.push(label(outcome.status.as_ref().unwrap()));
    assert_eq!(calls.last(), Some(&Some("英".to_owned())));
    assert_eq!(router.take_pending_mode(SESSION), Some(true));
    assert_default_voice(&mut router);
    assert_eq!(router.take_pending_mode(SESSION), None);
    assert_default_voice(&mut router);
}

#[test]
fn status_bar_follows_mode_when_enabled() {
    let mut router = router_with(RouterConfig {
        status_enabled: true,
        ..config()
    });
    let mut calls = Vec::new();
    calls.push(label(&router.handle_mode_changed(SESSION, false)));
    calls.push(label(&router.handle_mode_changed(SESSION, true)));
    router.forget_status_session(SESSION);
    assert_eq!(calls, vec![Some("中".to_owned()), Some("英".to_owned())]);

    calls.push(label(&router.handle_ime_switched()));
    assert_eq!(calls.last(), Some(&None));
}

#[test]
fn status_bar_passes_shuangpin_scheme_key_in_chinese() {
    let mut router = router_with(RouterConfig {
        status_enabled: true,
        shuangpin: Some("xiaohe".to_owned()),
        ..config()
    });
    let calls = vec![label(&router.handle_mode_changed(SESSION, false))];
    assert_eq!(calls, vec![Some("中 · xiaohe".to_owned())]);
}

#[test]
fn status_bar_stays_hidden_when_disabled() {
    let mut router = router_with(config());
    let calls = vec![label(&router.handle_mode_changed(SESSION, false))];
    assert_eq!(calls, vec![None]);
}

#[test]
fn pending_mode_goes_only_to_the_owner() {
    let mut router = router_with(RouterConfig {
        status_enabled: true,
        ..config()
    });
    router.handle_mode_changed(SESSION, false);
    router.handle_status_event(StatusEvent::ToggleMode);
    assert_eq!(router.take_pending_mode(SessionId(2)), None);
    // Another session reporting its mode takes the bar over and drops the click.
    router.handle_mode_changed(SessionId(2), false);
    assert_eq!(router.take_pending_mode(SESSION), None);
    assert_eq!(router.take_pending_mode(SessionId(2)), None);
}

#[test]
fn a_key_in_another_session_claims_the_bar() {
    let mut router = router_with(RouterConfig {
        status_enabled: true,
        ..config()
    });
    router.handle_mode_changed(SESSION, true);
    router.handle_status_event(StatusEvent::ToggleMode);
    router.claim_status_session(SessionId(5));
    assert_eq!(router.take_pending_mode(SESSION), None);
    assert_eq!(router.take_pending_mode(SessionId(5)), None);
}

#[test]
fn mode_click_before_any_mode_does_nothing() {
    let mut router = router_with(RouterConfig {
        status_enabled: true,
        ..config()
    });
    let outcome = router.handle_status_event(StatusEvent::ToggleMode);
    assert!(outcome.status.is_none());
    assert!(outcome.writes.is_empty());
    assert_eq!(router.take_pending_mode(SESSION), None);
}

#[test]
fn punctuation_click_flips_the_current_mode_setting() {
    let mut router = router_with(RouterConfig {
        status_enabled: true,
        ..config()
    });
    // No mode known yet: the Chinese setting is the one flipped.
    let outcome = router.handle_status_event(StatusEvent::TogglePunctuation);
    assert_eq!(outcome.writes, vec![ConfigWrite::FullWidth(false)]);
    assert!(!router.full_width_for(false));
    assert!(!router.full_width_for(true));

    router.handle_mode_changed(SESSION, true);
    let outcome = router.handle_status_event(StatusEvent::TogglePunctuation);
    assert_eq!(outcome.writes, vec![ConfigWrite::EnglishFullWidth(true)]);
    assert!(router.full_width_for(true));
    assert!(!router.full_width_for(false));
    match outcome.status {
        Some(StatusCommand::Show(view)) => {
            assert!(view.english);
            assert!(view.full_width);
        }
        other => panic!("expected the bar to be shown, got {other:?}"),
    }
}

#[test]
fn dragging_the_bar_writes_its_position() {
    let mut router = router_with(RouterConfig {
        status_enabled: true,
        ..config()
    });
    router.handle_mode_changed(SESSION, false);
    let outcome = router.handle_status_event(StatusEvent::Moved(-40, 900));
    assert_eq!(
        outcome.writes,
        vec![ConfigWrite::StatusX(-40), ConfigWrite::StatusY(900)]
    );
    match outcome.status {
        Some(StatusCommand::Show(view)) => assert_eq!(view.anchor, Some((-40, 900))),
        other => panic!("expected the bar to be shown, got {other:?}"),
    }
}
