use std::sync::{Arc, Mutex};

use qingjian_windows::protocol::{SessionId, VoiceAction, VoiceState, VoiceTrigger, WorkerSnapshot};
use qingjian_windows::voice::backend::VoiceBackend;
use qingjian_windows::voice::coordinator::{VoiceCoordinator, RECOGNITION_TIMEOUT_MS};
use qingjian_windows::voice::error::VoiceBackendError;

struct FakeBackend {
    snapshot: Arc<Mutex<WorkerSnapshot>>,
}

impl VoiceBackend for FakeBackend {
    fn start(&mut self, request: u64) -> Result<(), VoiceBackendError> {
        *self.snapshot.lock().unwrap() = WorkerSnapshot {
            state: VoiceState::Recording,
            request: Some(request),
            ..WorkerSnapshot::idle()
        };
        Ok(())
    }

    fn stop(&mut self, request: u64) -> Result<(), VoiceBackendError> {
        *self.snapshot.lock().unwrap() = WorkerSnapshot {
            state: VoiceState::Recognizing,
            request: Some(request),
            ..WorkerSnapshot::idle()
        };
        Ok(())
    }

    fn cancel(&mut self, _request: u64) -> Result<(), VoiceBackendError> {
        *self.snapshot.lock().unwrap() = WorkerSnapshot {
            state: VoiceState::Idle,
            ..WorkerSnapshot::idle()
        };
        Ok(())
    }

    fn snapshot(&mut self) -> Result<WorkerSnapshot, VoiceBackendError> {
        Ok(self.snapshot.lock().unwrap().clone())
    }
}

fn configured(shared: &Arc<Mutex<WorkerSnapshot>>) -> VoiceCoordinator<FakeBackend> {
    let mut voice = VoiceCoordinator::new(0);
    voice.configure(
        VoiceTrigger::RightAlt,
        FakeBackend {
            snapshot: shared.clone(),
        },
        0,
    );
    voice
}

#[test]
fn result_stays_bound_and_repeats_until_matching_ack() {
    let shared = Arc::new(Mutex::new(WorkerSnapshot::idle()));
    let first = SessionId(1);
    let other = SessionId(2);
    let mut voice = configured(&shared);

    voice.handle(first, VoiceAction::Start, 0);
    voice.handle(first, VoiceAction::Stop, 0);
    *shared.lock().unwrap() = WorkerSnapshot {
        state: VoiceState::Ready,
        request: Some(1),
        text: Some("测试文本".into()),
        ..WorkerSnapshot::idle()
    };

    assert!(voice.sync(other, 0).delivery.is_none());
    let delivery = voice.sync(first, 0).delivery.expect("绑定会话收到结果");
    assert_eq!(delivery.text, "测试文本");
    assert_eq!(voice.sync(first, 0).delivery, Some(delivery.clone()));

    voice.ack(other, delivery.request, 0);
    assert!(voice.sync(first, 0).delivery.is_some());
    voice.ack(first, delivery.request, 0);
    assert!(voice.sync(first, 0).delivery.is_none());
    assert_eq!(voice.sync(first, 0).state, VoiceState::Idle);
}

#[test]
fn cancel_drops_a_late_result() {
    let shared = Arc::new(Mutex::new(WorkerSnapshot::idle()));
    let session = SessionId(7);
    let mut voice = configured(&shared);
    voice.handle(session, VoiceAction::Start, 0);
    voice.cancel_for(session, 0);
    *shared.lock().unwrap() = WorkerSnapshot {
        state: VoiceState::Ready,
        request: Some(1),
        text: Some("不应交付".into()),
        ..WorkerSnapshot::idle()
    };
    assert!(voice.sync(session, 0).delivery.is_none());
}

struct LoadingBackend {
    calls: Arc<Mutex<Vec<&'static str>>>,
}

impl VoiceBackend for LoadingBackend {
    fn start(&mut self, _request: u64) -> Result<(), VoiceBackendError> {
        self.calls.lock().unwrap().push("start");
        Ok(())
    }

    fn stop(&mut self, _request: u64) -> Result<(), VoiceBackendError> {
        self.calls.lock().unwrap().push("stop");
        Ok(())
    }

    fn cancel(&mut self, _request: u64) -> Result<(), VoiceBackendError> {
        Ok(())
    }

    fn snapshot(&mut self) -> Result<WorkerSnapshot, VoiceBackendError> {
        Ok(WorkerSnapshot {
            state: VoiceState::Loading,
            ..WorkerSnapshot::idle()
        })
    }
}

#[test]
fn quick_release_is_not_lost_while_worker_is_loading() {
    let calls = Arc::new(Mutex::new(Vec::new()));
    let mut voice = VoiceCoordinator::new(0);
    voice.configure(
        VoiceTrigger::RightAlt,
        LoadingBackend {
            calls: calls.clone(),
        },
        0,
    );
    let session = SessionId(11);
    voice.handle(session, VoiceAction::Start, 0);
    assert_eq!(voice.sync(session, 0).state, VoiceState::Recording);
    voice.handle(session, VoiceAction::Stop, 0);
    assert_eq!(voice.sync(session, 0).state, VoiceState::Recognizing);
    assert_eq!(*calls.lock().unwrap(), vec!["start", "stop"]);
}

#[test]
fn empty_result_with_matching_request_returns_to_idle() {
    let shared = Arc::new(Mutex::new(WorkerSnapshot::idle()));
    let session = SessionId(12);
    let mut voice = configured(&shared);

    voice.handle(session, VoiceAction::Start, 0);
    voice.handle(session, VoiceAction::Stop, 0);
    *shared.lock().unwrap() = WorkerSnapshot {
        state: VoiceState::Idle,
        request: Some(1),
        message: Some("没有听清".into()),
        ..WorkerSnapshot::idle()
    };

    let sync = voice.sync(session, 0);
    assert_eq!(sync.state, VoiceState::Idle);
    assert_eq!(sync.message.as_deref(), Some("没有听清"));
    assert!(!voice.owns(session));

    voice.handle(session, VoiceAction::Start, 0);
    assert_eq!(voice.sync(session, 0).state, VoiceState::Recording);
}

#[test]
fn recognition_timeout_recovers_for_the_next_recording() {
    let shared = Arc::new(Mutex::new(WorkerSnapshot::idle()));
    let session = SessionId(13);
    let mut voice = configured(&shared);
    voice.handle(session, VoiceAction::Start, 0);
    voice.handle(session, VoiceAction::Stop, 0);
    let late = RECOGNITION_TIMEOUT_MS + 1;

    let timed_out = voice.sync(session, late);
    assert_eq!(timed_out.state, VoiceState::Failed);
    assert_eq!(timed_out.message.as_deref(), Some("识别超时，请重试"));

    voice.handle(session, VoiceAction::Start, late);
    assert_eq!(voice.sync(session, late).state, VoiceState::Recording);
}

#[test]
fn recognition_just_under_the_limit_keeps_waiting() {
    let shared = Arc::new(Mutex::new(WorkerSnapshot::idle()));
    let session = SessionId(14);
    let mut voice = configured(&shared);
    voice.handle(session, VoiceAction::Start, 10);
    voice.handle(session, VoiceAction::Stop, 20);
    let sync = voice.sync(session, 20 + RECOGNITION_TIMEOUT_MS - 1);
    assert_eq!(sync.state, VoiceState::Recognizing);
}

struct FailingBackend;

impl VoiceBackend for FailingBackend {
    fn start(&mut self, _request: u64) -> Result<(), VoiceBackendError> {
        Err(VoiceBackendError::Closed)
    }

    fn stop(&mut self, _request: u64) -> Result<(), VoiceBackendError> {
        Err(VoiceBackendError::Rejected("busy".into()))
    }

    fn cancel(&mut self, _request: u64) -> Result<(), VoiceBackendError> {
        Ok(())
    }

    fn snapshot(&mut self) -> Result<WorkerSnapshot, VoiceBackendError> {
        Err(VoiceBackendError::Io("broken pipe".into()))
    }
}

#[test]
fn backend_errors_become_failure_messages() {
    let session = SessionId(3);
    let mut voice = VoiceCoordinator::new(0);
    voice.configure(VoiceTrigger::RightCtrl, FailingBackend, 0);
    voice.handle(session, VoiceAction::Start, 0);
    assert_eq!(voice.state(), VoiceState::Failed);
    let sync = voice.sync(session, 0);
    assert_eq!(sync.state, VoiceState::Failed);
    assert_eq!(sync.message.as_deref(), Some("voice worker I/O: broken pipe"));
}

#[test]
fn disabled_coordinator_ignores_actions() {
    let shared = Arc::new(Mutex::new(WorkerSnapshot::idle()));
    let mut voice = VoiceCoordinator::new(0);
    voice.configure(
        VoiceTrigger::Off,
        FakeBackend {
            snapshot: shared.clone(),
        },
        0,
    );
    voice.handle(SessionId(1), VoiceAction::Start, 0);
    assert_eq!(voice.state(), VoiceState::Disabled);
    assert!(!voice.owns(SessionId(1)));
    let sync = voice.sync(SessionId(1), 0);
    assert!(!sync.enabled);
    assert_eq!(sync.trigger, VoiceTrigger::Off);
}

#[test]
fn failed_configuration_reports_its_message() {
    let mut voice: VoiceCoordinator<FakeBackend> = VoiceCoordinator::new(0);
    voice.configure_failure(VoiceTrigger::RightAlt, "找不到语音工作进程".into(), 5);
    let sync = voice.sync(SessionId(1), 5);
    assert_eq!(sync.state, VoiceState::Failed);
    assert_eq!(sync.message.as_deref(), Some("找不到语音工作进程"));
    voice.handle(SessionId(1), VoiceAction::Start, 6);
    assert_eq!(voice.state(), VoiceState::Failed);
    assert!(voice.owns(SessionId(1)));
    voice.disable(7);
    assert_eq!(voice.state(), VoiceState::Disabled);
    assert!(!voice.owns(SessionId(1)));
}

#[test]
fn only_the_owner_can_stop_or_cancel() {
    let shared = Arc::new(Mutex::new(WorkerSnapshot::idle()));
    let mut voice = configured(&shared);
    voice.handle(SessionId(1), VoiceAction::Start, 0);
    voice.handle(SessionId(2), VoiceAction::Stop, 0);
    assert_eq!(voice.state(), VoiceState::Recording);
    voice.handle(SessionId(2), VoiceAction::Cancel, 0);
    assert!(voice.owns(SessionId(1)));
    assert!(voice.is_active());
}

/// Records every request made of it; snapshots say the worker is idle and has taken nothing.
struct RecordingBackend {
    calls: Arc<Mutex<Vec<String>>>,
}

impl VoiceBackend for RecordingBackend {
    fn start(&mut self, request: u64) -> Result<(), VoiceBackendError> {
        self.calls.lock().unwrap().push(format!("start {request}"));
        Ok(())
    }

    fn stop(&mut self, request: u64) -> Result<(), VoiceBackendError> {
        self.calls.lock().unwrap().push(format!("stop {request}"));
        Ok(())
    }

    fn cancel(&mut self, request: u64) -> Result<(), VoiceBackendError> {
        self.calls.lock().unwrap().push(format!("cancel {request}"));
        Err(VoiceBackendError::Closed)
    }

    fn snapshot(&mut self) -> Result<WorkerSnapshot, VoiceBackendError> {
        self.calls.lock().unwrap().push("snapshot".to_owned());
        Ok(WorkerSnapshot::idle())
    }
}

#[test]
fn backend_is_asked_exactly_what_each_action_needs() {
    let calls = Arc::new(Mutex::new(Vec::new()));
    let mut voice = VoiceCoordinator::new(0);
    let session = SessionId(21);
    voice.handle(session, VoiceAction::Start, 0);
    voice.configure(
        VoiceTrigger::RightAlt,
        RecordingBackend {
            calls: calls.clone(),
        },
        0,
    );
    voice.handle(SessionId(22), VoiceAction::Stop, 0);
    voice.handle(session, VoiceAction::Start, 0);
    voice.handle(session, VoiceAction::Start, 0);
    voice.handle(session, VoiceAction::Stop, 10);
    voice.handle(session, VoiceAction::Cancel, 20);
    voice.cancel(30);
    voice.handle(session, VoiceAction::Start, 40);
    voice.handle(session, VoiceAction::Start, 50);
    voice.handle(session, VoiceAction::Stop, 60);
    let timed_out = voice.sync(session, 60 + RECOGNITION_TIMEOUT_MS);
    assert_eq!(timed_out.state, VoiceState::Failed);
    voice.handle(session, VoiceAction::Start, 70_000);
    voice.disable(80_000);
    voice.handle(session, VoiceAction::Start, 90_000);
    let _ = voice.sync(session, 90_000);
    assert_eq!(
        *calls.lock().unwrap(),
        vec![
            "start 1", "stop 1", "cancel 1", "start 2", "stop 2", "cancel 2", "start 3",
            "cancel 3",
        ]
    );
}

#[test]
fn answers_to_start_and_stop_decide_the_phase() {
    let shared = Arc::new(Mutex::new(WorkerSnapshot::idle()));
    let mut voice = configured(&shared);
    voice.apply_start(Ok(()), 5);
    assert_eq!(voice.state(), VoiceState::Recording);
    voice.apply_stop(Ok(()), 6);
    assert_eq!(voice.state(), VoiceState::Recognizing);
    voice.apply_start(Err(VoiceBackendError::Rejected("busy".into())), 7);
    assert_eq!(voice.state(), VoiceState::Failed);
    voice.apply_stop(Ok(()), 8);
    assert_eq!(voice.state(), VoiceState::Recognizing);
    voice.apply_stop(Err(VoiceBackendError::Closed), 9);
    assert_eq!(voice.state(), VoiceState::Failed);
}
