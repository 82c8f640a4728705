use qingjian_windows::instance::{
    after_step_down, build_id, first_step, incumbent_is_fine, needs_incumbent_check, wait_millis,
    ClaimError, ClaimStep, ProcessContext,
};

fn context(session: u32, service_account: bool, elevated: bool, ui_access: bool) -> ProcessContext {
    ProcessContext {
        session,
        service_account,
        elevated,
        ui_access,
    }
}

/// FNV-1a over the pieces, as the build identity feeds them.
fn fnv(pieces: &[&[u8]]) -> String {
    let mut hash: u64 = 0xcbf2_9ce4_8422_2325;
    for piece in pieces {
        for byte in *piece {
            hash ^= u64::from(*byte);
            hash = hash.wrapping_mul(0x0100_0000_01b3);
        }
    }
    format!("{hash:016x}")
}

#[test]
fn services_session_and_service_accounts_are_refused() {
    assert_eq!(context(0, false, false, true).refusal(), Some("在服务会话（会话 0）里"));
    assert_eq!(context(1, true, false, true).refusal(), Some("以系统服务账号身份"));
    assert_eq!(context(1, false, true, false).refusal(), None);
}

#[test]
fn elevation_or_missing_ui_access_degrades() {
    assert!(context(1, false, true, true).degraded(false));
    assert!(context(1, false, false, false).degraded(true));
    assert!(!context(1, false, false, false).degraded(false));
    assert!(!context(1, false, false, true).degraded(true));
}

#[test]
fn incumbent_is_kept_only_when_same_build_and_not_worse() {
    let normal = context(1, false, false, true);
    let degraded = context(1, false, true, true);
    assert!(incumbent_is_fine(true, false, &normal, true));
    assert!(!incumbent_is_fine(true, true, &normal, true));
    assert!(incumbent_is_fine(true, true, &degraded, true));
    assert!(!incumbent_is_fine(false, false, &normal, true));
}

#[test]
fn claim_steps_follow_the_first_try() {
    assert!(!needs_incumbent_check(true, false));
    assert!(!needs_incumbent_check(false, true));
    assert!(needs_incumbent_check(false, false));
    assert_eq!(first_step(true, false, false), ClaimStep::Claimed);
    assert_eq!(first_step(false, false, true), ClaimStep::AlreadyRunning);
    assert_eq!(first_step(false, true, true), ClaimStep::RequestStepDown);
    assert_eq!(first_step(false, false, false), ClaimStep::RequestStepDown);
    assert_eq!(after_step_down(true), Ok(()));
    assert_eq!(after_step_down(false), Err(ClaimError::Timeout));
}

#[test]
fn wait_limit_saturates() {
    assert_eq!(wait_millis(3_000), 3_000);
    assert_eq!(wait_millis(u128::from(u32::MAX) + 1), u32::MAX);
}

#[test]
fn build_id_is_fnv1a_of_version_path_size_and_time() {
    assert_eq!(build_id(b"", None, None, None), "cbf29ce484222325");
    assert_eq!(build_id(b"a", None, None, None), "af63dc4c8601ec8c");
    let version = b"0.9.1";
    let path = b"C:\\Program Files\\Qingjian\\qingjian-server.exe";
    let len: u64 = 4_321_000;
    let nanos: u128 = 1_726_000_000_123_456_789;
    assert_eq!(
        build_id(version, Some(path), Some(len), Some(nanos)),
        fnv(&[version, path, &len.to_le_bytes(), &nanos.to_le_bytes()])
    );
    assert_eq!(
        build_id(version, Some(path), None, Some(nanos)),
        fnv(&[version, path])
    );
    assert_ne!(
        build_id(version, Some(path), Some(len), Some(nanos)),
        build_id(version, Some(path), Some(len + 1), Some(nanos))
    );
}
