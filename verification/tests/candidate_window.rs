use std::sync::{Arc, Mutex};

use qingjian_windows::dispatch::router::{Router, RouterConfig, WindowCommand};
use qingjian_windows::protocol::{
    ColorScheme, Frame, ScreenRect, SessionId, VoiceAction, VoiceState, VoiceTrigger,
    WorkerSnapshot,
};
use qingjian_windows::voice::backend::VoiceBackend;
use qingjian_windows::voice::error::VoiceBackendError;
use qingjian_windows::voice::coordinator::VoiceCoordinator;

const SESSION: SessionId = SessionId(1);

const RECT: ScreenRect = ScreenRect {
    left: 100,
    top: 100,
    right: 102,
    bottom: 120,
};

struct SharedWorker(Arc<Mutex<WorkerSnapshot>>);

impl VoiceBackend for SharedWorker {
    fn start(&mut self, request: u64) -> Result<(), VoiceBackendError> {
        *self.0.lock().unwrap() = WorkerSnapshot {
            state: VoiceState::Recording,
            request: Some(request),
            level: 420,
            ..WorkerSnapshot::idle()
        };
        Ok(())
    }

    fn stop(&mut self, request: u64) -> Result<(), VoiceBackendError> {
        let partial = self.0.lock().unwrap().partial.clone();
        *self.0.lock().unwrap() = WorkerSnapshot {
            state: VoiceState::Recognizing,
            request: Some(request),
            partial,
            ..WorkerSnapshot::idle()
        };
        Ok(())
    }

    fn cancel(&mut self, _request: u64) -> Result<(), VoiceBackendError> {
        *self.0.lock().unwrap() = WorkerSnapshot::idle();
        Ok(())
    }

    fn snapshot(&mut self) -> Result<WorkerSnapshot, VoiceBackendError> {
        Ok(self.0.lock().unwrap().clone())
    }
}

fn config(preedit_in_window: bool) -> RouterConfig {
    RouterConfig {
        preedit_in_window,
        color_scheme: ColorScheme(2),
        font: "微软雅黑".to_owned(),
        full_width: true,
        english_full_width: false,
        status_enabled: false,
        shuangpin: None,
        status_pos: None,
    }
}

fn router(preedit_in_window: bool) -> (Router<SharedWorker>, Arc<Mutex<WorkerSnapshot>>) {
    let worker = Arc::new(Mutex::new(WorkerSnapshot::idle()));
    let mut router = Router::new(config(preedit_in_window), VoiceCoordinator::new(0));
    router.set_focus(Some(SESSION));
    (router, worker)
}

fn nihao() -> Frame {
    Frame {
        preedit: "ni'hao".to_owned(),
        cursor: 6,
        candidates: vec!["你好".to_owned(), "拟好".to_owned()],
    }
}

#[test]
fn window_waits_for_the_caret_rectangle() {
    let (mut router, _) = router(true);
    let update = router.reconcile_candidates(&nihao(), 0);
    assert!(matches!(update.command, WindowCommand::Keep));
    assert!(!update.cleared);
}

#[test]
fn window_shows_the_frame_at_the_caret_and_does_not_redraw_it() {
    let (mut router, _) = router(true);
    let update = router.position_candidates(SESSION, RECT, &nihao(), 0);
    match update.command {
        WindowCommand::Show(frame, rect) => {
            assert_eq!(frame.preedit, "ni'hao");
            assert_eq!(frame.cursor, 6);
            assert_eq!(frame.candidates, vec!["你好".to_owned(), "拟好".to_owned()]);
            assert_eq!(rect, RECT);
        }
        other => panic!("expected the window to be shown, got {other:?}"),
    }
    let again = router.reconcile_candidates(&nihao(), 0);
    assert!(matches!(again.command, WindowCommand::Keep));
}

#[test]
fn inline_preedit_keeps_the_pinyin_out_of_the_window() {
    let (mut router, _) = router(false);
    let update = router.position_candidates(SESSION, RECT, &nihao(), 0);
    match update.command {
        WindowCommand::Show(frame, _) => {
            assert_eq!(frame.preedit, "");
            assert_eq!(frame.cursor, 0);
            assert!(frame.candidates.contains(&"你好".to_owned()));
        }
        other => panic!("expected the window to be shown, got {other:?}"),
    }
}

#[test]
fn pinyin_only_frame_closes_the_window_when_pinyin_is_inline() {
    let (mut router, _) = router(false);
    router.position_candidates(SESSION, RECT, &nihao(), 0);
    let only_pinyin = Frame {
        preedit: "n".to_owned(),
        cursor: 1,
        candidates: Vec::new(),
    };
    let update = router.reconcile_candidates(&only_pinyin, 0);
    assert!(update.cleared);
    assert!(matches!(update.command, WindowCommand::Hide));
}

#[test]
fn other_sessions_do_not_move_the_window() {
    let (mut router, _) = router(true);
    let update = router.position_candidates(SessionId(9), RECT, &nihao(), 0);
    assert!(matches!(update.command, WindowCommand::Keep));
}

#[test]
fn active_voice_panel_survives_late_hides() {
    let (mut router, worker) = router(true);
    router.configure_voice(VoiceTrigger::RightAlt, SharedWorker(worker.clone()), 0);
    router.handle_voice(SESSION, VoiceAction::Start, 0);
    let update = router.position_candidates(SESSION, RECT, &nihao(), 0);
    match update.command {
        WindowCommand::ShowVoice(view, rect) => {
            assert_eq!(view.state, VoiceState::Recording);
            assert_eq!(view.level, 420);
            assert_eq!(view.color_scheme, ColorScheme(2));
            assert_eq!(rect, RECT);
        }
        other => panic!("expected the voice panel, got {other:?}"),
    }
    assert!(matches!(router.hide_candidate_window(), WindowCommand::Keep));
    let empty = Frame {
        preedit: String::new(),
        cursor: 0,
        candidates: Vec::new(),
    };
    match router.reconcile_candidates(&empty, 0).command {
        WindowCommand::ShowVoice(view, _) => assert_eq!(view.state, VoiceState::Recording),
        other => panic!("expected the voice panel, got {other:?}"),
    }

    *worker.lock().unwrap() = WorkerSnapshot {
        state: VoiceState::Recording,
        request: Some(1),
        level: 760,
        partial: Some("正在实时转写".into()),
        ..WorkerSnapshot::idle()
    };
    match router.reconcile_candidates(&empty, 0).command {
        WindowCommand::ShowVoice(view, _) => {
            assert_eq!(view.text.as_deref(), Some("正在实时转写"));
            assert_eq!(view.level, 760);
        }
        other => panic!("expected the voice panel, got {other:?}"),
    }
}

#[test]
fn final_voice_message_shows_briefly_then_closes() {
    let (mut router, worker) = router(true);
    router.configure_voice(VoiceTrigger::RightAlt, SharedWorker(worker.clone()), 0);
    router.handle_voice(SESSION, VoiceAction::Start, 0);
    router.position_candidates(SESSION, RECT, &nihao(), 0);
    router.handle_voice(SESSION, VoiceAction::Stop, 0);
    *worker.lock().unwrap() = WorkerSnapshot {
        state: VoiceState::Idle,
        request: Some(1),
        message: Some("没有听清".into()),
        ..WorkerSnapshot::idle()
    };
    let empty = Frame {
        preedit: String::new(),
        cursor: 0,
        candidates: Vec::new(),
    };
    let sync = router.sync_voice(SESSION, 100);
    assert_eq!(sync.message.as_deref(), Some("没有听清"));
    match router.reconcile_voice(SESSION, &sync, 100) {
        WindowCommand::ShowVoice(view, _) => {
            assert_eq!(view.text.as_deref(), Some("没有听清"));
            assert_eq!(view.level, 0);
        }
        other => panic!("expected the notice, got {other:?}"),
    }
    let later = router.sync_voice(SESSION, 2_200);
    assert!(matches!(router.reconcile_voice(SESSION, &later, 2_200), WindowCommand::Hide));
    let update = router.reconcile_candidates(&empty, 2_300);
    assert!(update.cleared);
}

#[test]
fn font_change_redraws_and_reports_the_font() {
    let (mut router, _) = router(true);
    router.position_candidates(SESSION, RECT, &nihao(), 0);
    let applied = router.apply_config(
        RouterConfig {
            font: "霞鹜文楷".to_owned(),
            ..config(true)
        },
        &nihao(),
        0,
    );
    assert_eq!(applied.set_font.as_deref(), Some("霞鹜文楷"));
    match applied.window.map(|w| w.command) {
        Some(WindowCommand::Show(_, rect)) => assert_eq!(rect, RECT),
        other => panic!("expected a redraw, got {other:?}"),
    }
    let unchanged = router.apply_config(
        RouterConfig {
            font: "霞鹜文楷".to_owned(),
            ..config(true)
        },
        &nihao(),
        0,
    );
    assert!(unchanged.set_font.is_none());
    assert!(unchanged.window.is_none());
}

/// The window commands a candidate window received: the voice views it showed and how often it
/// was hidden.
#[derive(Default)]
struct Received {
    views: Vec<qingjian_windows::dispatch::router::VoiceView>,
    hides: usize,
}

impl Received {
    fn take(&mut self, command: WindowCommand) {
        match command {
            WindowCommand::ShowVoice(view, _) => self.views.push(view),
            WindowCommand::Hide => self.hides += 1,
            _ => {}
        }
    }

    fn last_state(&self) -> VoiceState {
        self.views.last().expect("a voice view was shown").state
    }
}

#[test]
fn voice_reuses_candidate_window_at_the_current_caret() {
    let (mut router, worker) = router(true);
    router.configure_voice(VoiceTrigger::RightAlt, SharedWorker(worker.clone()), 0);
    let mut sink = Received::default();
    let empty = Frame {
        preedit: String::new(),
        cursor: 0,
        candidates: Vec::new(),
    };
    let sync = |router: &mut Router<SharedWorker>, sink: &mut Received, now: u64| {
        let sync = router.sync_voice(SESSION, now);
        sink.take(router.reconcile_voice(SESSION, &sync, now));
        sync
    };

    router.handle_voice(SESSION, VoiceAction::Start, 0);
    let caret = ScreenRect {
        left: 300,
        top: 200,
        right: 302,
        bottom: 220,
    };
    sink.take(router.position_candidates(SESSION, caret, &empty, 0).command);
    let first = sink.views.last().cloned().unwrap();
    assert_eq!(first.state, VoiceState::Recording);
    assert_eq!(first.level, 420);

    // A late hide and an empty poll from the composition before voice input must not close it.
    let hides_before = sink.hides;
    sink.take(router.hide_candidate_window());
    assert_eq!(sink.hides, hides_before);
    sink.take(router.reconcile_candidates(&empty, 0).command);
    assert_eq!(sink.hides, hides_before);
    assert_eq!(sink.last_state(), VoiceState::Recording);

    *worker.lock().unwrap() = WorkerSnapshot {
        state: VoiceState::Recording,
        request: Some(1),
        level: 760,
        partial: Some("正在实时转写".into()),
        ..WorkerSnapshot::idle()
    };
    sync(&mut router, &mut sink, 10);
    let partial = sink.views.last().cloned().unwrap();
    assert_eq!(partial.text.as_deref(), Some("正在实时转写"));

    router.handle_voice(SESSION, VoiceAction::Stop, 20);
    sync(&mut router, &mut sink, 30);
    assert_eq!(sink.last_state(), VoiceState::Recognizing);

    *worker.lock().unwrap() = WorkerSnapshot {
        state: VoiceState::Ready,
        request: Some(1),
        partial: Some("最终文字".into()),
        text: Some("最终文字".into()),
        ..WorkerSnapshot::idle()
    };
    let ready = sync(&mut router, &mut sink, 40);
    let request = ready.delivery.expect("expected voice delivery").request;
    assert_eq!(sink.last_state(), VoiceState::Ready);

    router.ack_voice(SESSION, request, 50);
    sync(&mut router, &mut sink, 50);
    assert!(sink.hides > 0);

    // A late acknowledgement of the last round must not close the next round's panel.
    router.handle_voice(SESSION, VoiceAction::Start, 60);
    let caret = ScreenRect {
        left: 320,
        top: 210,
        right: 322,
        bottom: 230,
    };
    sink.take(router.position_candidates(SESSION, caret, &empty, 60).command);
    let hides_before = sink.hides;
    router.ack_voice(SESSION, request, 70);
    sync(&mut router, &mut sink, 70);
    assert_eq!(sink.hides, hides_before);
    assert_eq!(sink.last_state(), VoiceState::Recording);

    // Likewise a late commit of an ordinary composition only clears the pinyin.
    sink.take(router.reconcile_candidates(&empty, 80).command);
    assert_eq!(sink.hides, hides_before);
}
