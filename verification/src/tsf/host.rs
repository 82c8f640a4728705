//! Whether the application hosting the text service may launch the server: a server inherits its
//! launcher's token and environment, so elevated, service or services-session hosts do not launch one.
use vstd::prelude::*;

verus! {

/// Why a host with these facts must not launch the server; `session` is `None` when it could not
/// be queried.
pub open spec fn launch_refusal_of(session: Option<u32>, service: bool, elevated: bool) -> Option<
    Seq<char>,
> {
    if session is None || session == Some(0u32) {
        Some("宿主在服务会话里"@)
    } else if service {
        Some("宿主以系统服务账号运行"@)
    } else if elevated {
        Some("宿主是提权进程"@)
    } else {
        None
    }
}

/// Why this host must not launch the server, or `None` when it may.
pub fn launch_refusal(session: Option<u32>, service: bool, elevated: bool) -> (r: Option<
    &'static str,
>)
    ensures
        r matches Some(s) ==> launch_refusal_of(session, service, elevated) == Some(s@),
        r is None ==> launch_refusal_of(session, service, elevated) is None,
{
    match session {
        None => {
            return Some("宿主在服务会话里");
        },
        Some(0) => {
            return Some("宿主在服务会话里");
        },
        Some(_) => {},
    }
    if service {
        Some("宿主以系统服务账号运行")
    } else if elevated {
        Some("宿主是提权进程")
    } else {
        None
    }
}

/// Whether a `ShellExecute` return value means success: values above 32 are handles, the others
/// error codes.
pub fn shell_execute_succeeded(code: usize) -> (r: bool)
    ensures
        r == (code > 32),
{
    code > 32
}

} // verus!
