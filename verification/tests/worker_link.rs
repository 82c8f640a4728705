use qingjian_windows::protocol::{VoiceState, WorkerSnapshot};
use qingjian_windows::security::object_sddl;
use qingjian_windows::voice::error::VoiceBackendError;
use qingjian_windows::voice::link::{
    command_response, command_result, reply_result, serve_step, ChildStatus, LinkStep, ServeStep,
    WorkerLink, WorkerRequest, WorkerResponse,
};

fn snapshot(state: VoiceState) -> WorkerSnapshot {
    WorkerSnapshot {
        state,
        request: Some(4),
        level: 9,
        partial: None,
        text: None,
        message: None,
    }
}

#[test]
fn replies_become_results() {
    assert!(matches!(reply_result(None), Err(VoiceBackendError::Closed)));
    assert!(matches!(
        reply_result(Some(WorkerResponse::Error("no model".into()))),
        Err(VoiceBackendError::Rejected(message)) if message == "no model"
    ));
    assert!(matches!(
        reply_result(Some(WorkerResponse::Accepted)),
        Ok(WorkerResponse::Accepted)
    ));
}

#[test]
fn commands_want_an_acknowledgement() {
    assert!(command_result(Ok(WorkerResponse::Accepted)).is_ok());
    assert!(matches!(
        command_result(Ok(WorkerResponse::Snapshot(snapshot(VoiceState::Idle)))),
        Err(VoiceBackendError::Rejected(message)) if message == "unexpected snapshot response"
    ));
    assert!(matches!(
        command_result(Err(VoiceBackendError::Closed)),
        Err(VoiceBackendError::Closed)
    ));
}

#[test]
fn only_a_start_revives_a_broken_link() {
    let mut link = WorkerLink::new();
    assert_eq!(link.request_step(true, ChildStatus::Running), LinkStep::Send);
    assert_eq!(link.request_step(true, ChildStatus::Exited), LinkStep::Restart);
    assert_eq!(link.request_step(true, ChildStatus::Unknown), LinkStep::Fail);
    assert_eq!(link.request_step(false, ChildStatus::Exited), LinkStep::Send);
    let failed = link.failed();
    assert_eq!(failed.state, VoiceState::Failed);
    assert_eq!(failed.message.as_deref(), Some("语音工作进程已退出，请重试"));
    assert!(!link.can_send());
    assert_eq!(link.request_step(false, ChildStatus::Running), LinkStep::Skip);
    assert_eq!(link.request_step(true, ChildStatus::Running), LinkStep::Restart);
    let loading = link.restarted();
    assert_eq!(loading.state, VoiceState::Loading);
    assert!(loading.message.is_none());
    assert!(link.can_send());
}

#[test]
fn snapshot_replies_are_published_or_fail_the_link() {
    let mut link = WorkerLink::new();
    let published = link.snapshot_reply(Ok(WorkerResponse::Snapshot(snapshot(VoiceState::Recording))));
    assert_eq!(published.state, VoiceState::Recording);
    assert_eq!(published.level, 9);
    assert!(link.can_send());
    let failed = link.snapshot_reply(Ok(WorkerResponse::Accepted));
    assert_eq!(failed.state, VoiceState::Failed);
    assert!(!link.can_send());
}

#[test]
fn worker_refuses_commands_until_configured() {
    assert!(matches!(
        serve_step(false, WorkerRequest::Start { request: 1 }),
        ServeStep::Answer(WorkerResponse::Error(message)) if message == "worker is not configured"
    ));
    assert!(matches!(
        serve_step(false, WorkerRequest::Snapshot),
        ServeStep::Answer(WorkerResponse::Error(_))
    ));
    assert!(matches!(
        serve_step(true, WorkerRequest::Stop { request: 2 }),
        ServeStep::Forward(WorkerRequest::Stop { request: 2 })
    ));
    assert!(matches!(serve_step(false, WorkerRequest::Shutdown), ServeStep::Exit));
    assert!(matches!(command_response(Ok(())), WorkerResponse::Accepted));
    assert!(matches!(
        command_response(Err("busy".into())),
        WorkerResponse::Error(message) if message == "busy"
    ));
}

#[test]
fn object_sddl_names_the_user() {
    assert_eq!(
        object_sddl(Some("S-1-5-21-1-2-3-1001")).as_deref(),
        Some("D:(A;;GA;;;S-1-5-21-1-2-3-1001)(A;;GA;;;SY)S:(ML;;NW;;;ME)")
    );
    assert_eq!(object_sddl(None), None);
}
