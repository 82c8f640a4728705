//! Single-instance rules of the server: whether this process may run at all, whether it runs in a
//! degraded context, whether a running incumbent should be replaced, and the build identity that
//! tells two builds apart.
use vstd::prelude::*;

use crate::text::{digit_char, hex_fixed, hex_string};

verus! {

/// The identity of the running process, as queried from its token. What could not be queried
/// counts as normal.
#[derive(Clone, Copy, Debug, PartialEq, Eq, Structural)]
pub struct ProcessContext {
    /// Logon session; 0 is the services session.
    pub session: u32,
    /// Runs as SYSTEM, LocalService or NetworkService.
    pub service_account: bool,
    /// The token was elevated on its own (UAC "run as administrator").
    pub elevated: bool,
    /// The token carries uiAccess.
    pub ui_access: bool,
}

/// Why a server in this context must not run at all.
pub open spec fn refusal_of(c: ProcessContext) -> Option<Seq<char>> {
    if c.session == 0 {
        Some("在服务会话（会话 0）里"@)
    } else if c.service_account {
        Some("以系统服务账号身份"@)
    } else {
        None
    }
}

/// Whether a server in this context runs, but not as it should: elevated, or built for uiAccess
/// without having it.
pub open spec fn degraded_in(c: ProcessContext, ui_access_build: bool) -> bool {
    c.elevated || (ui_access_build && !c.ui_access)
}

impl ProcessContext {
    /// Why this context must not run a server (it could not draw on the user's desktop and would
    /// read the system's configuration); `None` when it may.
    pub fn refusal(&self) -> (r: Option<&'static str>)
        ensures
            r matches Some(s) ==> refusal_of(*self) == Some(s@),
            r is None ==> refusal_of(*self) is None,
    {
        if self.session == 0 {
            Some("在服务会话（会话 0）里")
        } else if self.service_account {
            Some("以系统服务账号身份")
        } else {
            None
        }
    }

    /// Whether this context is degraded; `ui_access_build` says the executable was built with the
    /// uiAccess manifest. A degraded incumbent is replaced by a normal newcomer.
    pub fn degraded(&self, ui_access_build: bool) -> (r: bool)
        ensures
            r == degraded_in(*self, ui_access_build),
    {
        self.elevated || (ui_access_build && !self.ui_access)
    }
}

/// Whether the incumbent need not be replaced: it is the same build and not worse off than us.
pub open spec fn incumbent_fine_spec(
    same_build: bool,
    incumbent_degraded: bool,
    context: ProcessContext,
    ui_access_build: bool,
) -> bool {
    same_build && (!incumbent_degraded || degraded_in(context, ui_access_build))
}

/// Whether the incumbent need not be replaced; `same_build` says its build marker exists,
/// `incumbent_degraded` that its degraded marker exists.
pub fn incumbent_is_fine(
    same_build: bool,
    incumbent_degraded: bool,
    context: &ProcessContext,
    ui_access_build: bool,
) -> (r: bool)
    ensures
        r == incumbent_fine_spec(same_build, incumbent_degraded, *context, ui_access_build),
{
    same_build && (!incumbent_degraded || context.degraded(ui_access_build))
}

/// Why the single instance could not be claimed.
#[derive(Clone, Copy, Debug, PartialEq, Eq, Structural)]
pub enum ClaimError {
    /// A healthy server of the same build already runs: this process should quietly exit.
    AlreadyRunning,
    /// The incumbent was asked to step down but did not within the limit.
    Timeout,
    /// Creating or opening the mutex failed, with this error code.
    Mutex(i32),
}

/// The next step of a claim after the first, non-blocking try on the mutex.
#[derive(Clone, Copy, Debug, PartialEq, Eq, Structural)]
pub enum ClaimStep {
    /// The mutex is ours.
    Claimed,
    /// Leave the incumbent alone and exit.
    AlreadyRunning,
    /// Signal the incumbent to step down and wait for the mutex.
    RequestStepDown,
}

/// Whether the incumbent must be inspected: only when the mutex was taken and no replacement was forced.
pub fn needs_incumbent_check(acquired: bool, force: bool) -> (r: bool)
    ensures
        r == (!acquired && !force),
{
    !acquired && !force
}

/// The step after the first try: claimed at once; otherwise leave a fine incumbent alone unless
/// `force` (`--replace`); otherwise ask it to step down.
pub fn first_step(acquired: bool, force: bool, incumbent_fine: bool) -> (r: ClaimStep)
    ensures
        acquired ==> r == ClaimStep::Claimed,
        !acquired && !force && incumbent_fine ==> r == ClaimStep::AlreadyRunning,
        !acquired && (force || !incumbent_fine) ==> r == ClaimStep::RequestStepDown,
{
    if acquired {
        ClaimStep::Claimed
    } else if !force && incumbent_fine {
        ClaimStep::AlreadyRunning
    } else {
        ClaimStep::RequestStepDown
    }
}

/// The outcome after waiting for a stepped-down incumbent.
pub fn after_step_down(acquired: bool) -> (r: Result<(), ClaimError>)
    ensures
        r == (if acquired {
            Ok::<(), ClaimError>(())
        } else {
            Err(ClaimError::Timeout)
        }),
{
    if acquired {
        Ok(())
    } else {
        Err(ClaimError::Timeout)
    }
}

/// The wait limit in milliseconds for the mutex wait, saturated to what the wait accepts.
pub fn wait_millis(timeout_ms: u128) -> (r: u32)
    ensures
        r == (if timeout_ms > u32::MAX as u128 {
            u32::MAX
        } else {
            timeout_ms as u32
        }),
{
    if timeout_ms > u32::MAX as u128 {
        u32::MAX
    } else {
        timeout_ms as u32
    }
}

/// FNV-1a offset basis.
pub const FNV_OFFSET: u64 = 0xcbf2_9ce4_8422_2325;

/// FNV-1a prime.
pub const FNV_PRIME: u64 = 0x0100_0000_01b3;

/// One FNV-1a step.
pub open spec fn fnv_step(hash: u64, byte: u8) -> u64 {
    vstd::wrapping::u64_specs::wrapping_mul(hash ^ (byte as u64), FNV_PRIME)
}

/// FNV-1a of `bytes` continuing from `hash`.
pub open spec fn fnv1a(hash: u64, bytes: Seq<u8>) -> u64
    decreases bytes.len(),
{
    if bytes.len() == 0 {
        hash
    } else {
        fnv1a(fnv_step(hash, bytes[0]), bytes.drop_first())
    }
}

/// The `width` little-endian bytes of `n`.
pub open spec fn le_bytes(n: nat, width: nat) -> Seq<u8>
    decreases width,
{
    if width == 0 {
        Seq::empty()
    } else {
        seq![(n % 256) as u8] + le_bytes(n / 256, (width - 1) as nat)
    }
}

/// The hash behind a build id: the version, then (when known) the executable's path, then its
/// size, then its modification time in nanoseconds since the Unix epoch.
pub open spec fn build_hash(
    version: Seq<u8>,
    exe_path: Option<Seq<u8>>,
    exe_len: Option<u64>,
    modified_nanos: Option<u128>,
) -> u64 {
    let h = fnv1a(FNV_OFFSET, version);
    match exe_path {
        None => h,
        Some(path) => {
            let h = fnv1a(h, path);
            match exe_len {
                None => h,
                Some(len) => {
                    let h = fnv1a(h, le_bytes(len as nat, 8));
                    match modified_nanos {
                        None => h,
                        Some(nanos) => fnv1a(h, le_bytes(nanos as nat, 16)),
                    }
                },
            }
        },
    }
}

proof fn lemma_fnv_step(hash: u64, bytes: Seq<u8>, i: int)
    requires
        0 <= i < bytes.len(),
    ensures
        fnv1a(hash, bytes.skip(i)) == fnv1a(fnv_step(hash, bytes[i]), bytes.skip(i + 1)),
{
    assert(bytes.skip(i).drop_first() =~= bytes.skip(i + 1));
}

/// FNV-1a of `bytes` continuing from `hash`.
pub fn fnv1a_feed(hash: u64, bytes: &[u8]) -> (r: u64)
    ensures
        r == fnv1a(hash, bytes@),
{
    let mut h = hash;
    let mut i: usize = 0;
    assert(bytes@.skip(0) =~= bytes@);
    while i < bytes.len()
        invariant
            i <= bytes.len(),
            fnv1a(h, bytes@.skip(i as int)) == fnv1a(hash, bytes@),
        decreases bytes.len() - i,
    {
        proof {
            lemma_fnv_step(h, bytes@, i as int);
        }
        h = (h ^ (bytes[i] as u64)).wrapping_mul(FNV_PRIME);
        i = i + 1;
    }
    assert(bytes@.skip(i as int) =~= Seq::<u8>::empty());
    h
}

/// FNV-1a of the `width` little-endian bytes of `n`, continuing from `hash`.
fn fnv1a_le(hash: u64, n: u128, width: u64) -> (r: u64)
    ensures
        r == fnv1a(hash, le_bytes(n as nat, width as nat)),
    decreases width,
{
    if width == 0 {
        return hash;
    }
    let byte = (n % 256) as u8;
    let next = (hash ^ (byte as u64)).wrapping_mul(FNV_PRIME);
    let r = fnv1a_le(next, n / 256, width - 1);
    proof {
        let bytes = le_bytes(n as nat, width as nat);
        assert(bytes[0] == byte);
        assert(bytes.drop_first() =~= le_bytes((n / 256) as nat, (width - 1) as nat));
    }
    r
}

/// The identity of a build: 16 lowercase hexadecimal digits of [`build_hash`]. The same file at the
/// same place gives the same id; an upgrade or another install location gives another.
pub fn build_id(
    version: &[u8],
    exe_path: Option<&[u8]>,
    exe_len: Option<u64>,
    modified_nanos: Option<u128>,
) -> (r: String)
    ensures
        r@ == hex_fixed(
            build_hash(
                version@,
                match exe_path {
                    Some(p) => Some(p@),
                    None => None,
                },
                exe_len,
                modified_nanos,
            ) as nat,
            16,
        ),
{
    let mut hash = fnv1a_feed(FNV_OFFSET, version);
    if let Some(path) = exe_path {
        hash = fnv1a_feed(hash, path);
        if let Some(len) = exe_len {
            hash = fnv1a_le(hash, len as u128, 8);
            if let Some(nanos) = modified_nanos {
                hash = fnv1a_le(hash, nanos, 16);
            }
        }
    }
    hex_string(hash, 16)
}

/// A degraded newcomer never replaces an incumbent of the same build, degraded or not.
pub proof fn lemma_degraded_newcomer_leaves_incumbent(
    incumbent_degraded: bool,
    context: ProcessContext,
    ui_access_build: bool,
)
    requires
        degraded_in(context, ui_access_build),
    ensures
        incumbent_fine_spec(true, incumbent_degraded, context, ui_access_build),
{
}

/// A normal newcomer replaces a degraded incumbent of the same build, and any newcomer replaces
/// another build.
pub proof fn lemma_normal_newcomer_replaces_degraded(
    incumbent_degraded: bool,
    context: ProcessContext,
    ui_access_build: bool,
)
    ensures
        !degraded_in(context, ui_access_build) && incumbent_degraded ==> !incumbent_fine_spec(
            true,
            incumbent_degraded,
            context,
            ui_access_build,
        ),
        !incumbent_fine_spec(false, incumbent_degraded, context, ui_access_build),
{
}

/// Whether `c` is a lowercase hexadecimal digit.
pub open spec fn is_lower_hex(c: char) -> bool {
    ('0' <= c && c <= '9') || ('a' <= c && c <= 'f')
}

proof fn lemma_hex_fixed_shape(n: nat, width: nat)
    ensures
        hex_fixed(n, width).len() == width,
        forall|i: int| 0 <= i < width ==> is_lower_hex(#[trigger] hex_fixed(n, width)[i]),
    decreases width,
{
    if width > 0 {
        lemma_hex_fixed_shape(n / 16, (width - 1) as nat);
        let d = n % 16;
        assert(is_lower_hex(digit_char(d))) by {
            if d < 10 {
                assert((48 + d) as char == digit_char(d));
            }
        }
        let h = hex_fixed(n, width);
        let prefix = hex_fixed(n / 16, (width - 1) as nat);
        assert(h == prefix.push(digit_char(d)));
        assert forall|i: int| 0 <= i < width implies is_lower_hex(#[trigger] h[i]) by {
            if i < width - 1 {
                assert(h[i] == prefix[i]);
            }
        }
    }
}

/// A build id is 16 characters, each a lowercase hexadecimal digit, and the same inputs give the
/// same id.
pub proof fn lemma_build_id_shape(
    version: Seq<u8>,
    exe_path: Option<Seq<u8>>,
    exe_len: Option<u64>,
    modified_nanos: Option<u128>,
)
    ensures
        hex_fixed(build_hash(version, exe_path, exe_len, modified_nanos) as nat, 16).len() == 16,
        forall|i: int|
            0 <= i < 16 ==> is_lower_hex(
                #[trigger] hex_fixed(build_hash(version, exe_path, exe_len, modified_nanos) as nat, 16)[i],
            ),
{
    lemma_hex_fixed_shape(build_hash(version, exe_path, exe_len, modified_nanos) as nat, 16);
}

} // verus!
