//! Virtual machine lifecycle decisions: which state allows which operation,
//! the graceful-stop protocol (which must never undo a concurrent stop),
//! snapshot restore checks, and the parts of the VMM configuration derived
//! from a VM's settings.
//!
//! The VM table, its lock and the VMM handles stay with the caller; each
//! function here decides from the state it is given.

use vstd::prelude::*;
use crate::error::CoreError;
use crate::machine::{state_name, state_str, MachineState};
use crate::text::{chars_of, concat3, push_str, string_of};

verus! {

/// Hypervisor backend a VM runs on.
#[derive(Debug, Clone, Copy, PartialEq, Eq, Structural)]
pub enum VmBackend {
    /// Hypervisor.framework.
    Hv,
    /// Virtualization.framework.
    Vz,
}

/// An `InvalidState` error with this message.
pub open spec fn invalid_state(e: CoreError, m: Seq<char>) -> bool {
    e matches CoreError::InvalidState(t) && t@ == m
}

fn state_error(prefix: &str, state: MachineState) -> (e: CoreError)
    ensures
        invalid_state(e, prefix@ + state_name(state)),
{
    let mut out: Vec<char> = Vec::new();
    push_str(&mut out, prefix);
    push_str(&mut out, state_str(state));
    CoreError::InvalidState(string_of(out.as_slice()))
}

/// Checks that a VM may be started: only from created or stopped.
pub fn check_vm_startable(state: MachineState) -> (r: Result<(), CoreError>)
    ensures
        r is Ok <==> (state is Created || state is Stopped),
        r matches Err(e) ==> invalid_state(e, "cannot start VM in state "@ + state_name(state)),
{
    match state {
        MachineState::Created | MachineState::Stopped => Ok(()),
        _ => Err(state_error("cannot start VM in state ", state)),
    }
}

/// Checks that a VM may be stopped: only while running or stopping.
pub fn check_vm_stoppable(state: MachineState) -> (r: Result<(), CoreError>)
    ensures
        r is Ok <==> (state is Running || state is Stopping),
        r matches Err(e) ==> invalid_state(e, "cannot stop VM in state "@ + state_name(state)),
{
    match state {
        MachineState::Running | MachineState::Stopping => Ok(()),
        _ => Err(state_error("cannot stop VM in state ", state)),
    }
}

/// Checks that a VM's `setting` (its guest CID or backend) may change: not
/// while it runs or starts.
pub fn check_vm_reconfigurable(setting: &str, state: MachineState) -> (r: Result<(), CoreError>)
    ensures
        r is Ok <==> !(state is Running || state is Starting),
        r matches Err(e) ==> invalid_state(
            e,
            "cannot set "@ + setting@ + " while VM is "@ + state_name(state),
        ),
{
    match state {
        MachineState::Running | MachineState::Starting => {
            let prefix = concat3("cannot set ", setting, " while VM is ");
            Err(state_error(prefix.as_str(), state))
        },
        _ => Ok(()),
    }
}

/// Checks that a VM is running, for an operation that needs it (snapshot,
/// restore, vsock connect, force stop); the refusal is `prefix` and the
/// state.
pub fn check_vm_running(prefix: &str, state: MachineState) -> (r: Result<(), CoreError>)
    ensures
        r is Ok <==> state is Running,
        r matches Err(e) ==> invalid_state(e, prefix@ + state_name(state)),
{
    match state {
        MachineState::Running => Ok(()),
        _ => Err(state_error(prefix, state)),
    }
}

/// Checks that a VM may be removed: not while it runs.
pub fn check_vm_removable(state: MachineState) -> (r: Result<(), CoreError>)
    ensures
        r is Ok <==> !(state is Running),
        r matches Err(e) ==> invalid_state(e, "cannot remove running VM"@),
{
    match state {
        MachineState::Running => Err(CoreError::InvalidState("cannot remove running VM".to_owned())),
        _ => Ok(()),
    }
}

/// The state a VM ends a start attempt in: running when the VMM started;
/// otherwise back to created, so the start can be retried.
pub fn finish_vm_start(started: bool) -> (s: MachineState)
    ensures
        s == finish_vm_start_spec(started),
{
    if started {
        MachineState::Running
    } else {
        MachineState::Created
    }
}

/// A start that fails leaves the VM startable again, and one that succeeds
/// leaves it stoppable.
pub proof fn lemma_failed_start_can_retry(started: bool)
    ensures
        !started ==> (finish_vm_start_spec(started) is Created || finish_vm_start_spec(started) is Stopped),
        started ==> (finish_vm_start_spec(started) is Running || finish_vm_start_spec(started) is Stopping),
{
}

/// The state a VM ends a start attempt in.
pub open spec fn finish_vm_start_spec(started: bool) -> MachineState {
    if started {
        MachineState::Running
    } else {
        MachineState::Created
    }
}

/// How a graceful stop begins.
#[derive(Debug, Clone, Copy, PartialEq, Eq, Structural)]
pub enum GracefulStart {
    /// The VM runs: ask the guest to shut down, then wait.
    SendShutdown,
    /// A stop is already under way: just wait.
    AwaitStop,
    /// The VM is already stopped: done, successfully.
    AlreadyStopped,
}

/// A `NotFound` error naming `id`.
pub open spec fn not_found(e: CoreError, id: Seq<char>) -> bool {
    e matches CoreError::NotFound(t) && t@ == id
}

/// Decides how a graceful stop of VM `id` begins from its entry's state
/// (`None` when no VM has that id): an unknown VM is not found, and a VM
/// that is created or starting cannot be stopped.
pub fn graceful_start(id: &str, entry: Option<MachineState>) -> (r: Result<GracefulStart, CoreError>)
    ensures
        entry is None ==> (r matches Err(e) && not_found(e, id@)),
        entry == Some(MachineState::Running) ==> r == Ok::<GracefulStart, CoreError>(
            GracefulStart::SendShutdown,
        ),
        entry == Some(MachineState::Stopping) ==> r == Ok::<GracefulStart, CoreError>(
            GracefulStart::AwaitStop,
        ),
        entry == Some(MachineState::Stopped) ==> r == Ok::<GracefulStart, CoreError>(
            GracefulStart::AlreadyStopped,
        ),
        (entry == Some(MachineState::Created) || entry == Some(MachineState::Starting)) ==> (r matches Err(
            e,
        ) && invalid_state(e, "cannot stop VM in state "@ + state_name(entry->0))),
{
    match entry {
        None => Err(CoreError::NotFound(id.to_owned())),
        Some(MachineState::Running) => Ok(GracefulStart::SendShutdown),
        Some(MachineState::Stopping) => Ok(GracefulStart::AwaitStop),
        Some(MachineState::Stopped) => Ok(GracefulStart::AlreadyStopped),
        Some(state) => Err(state_error("cannot stop VM in state ", state)),
    }
}

/// What follows the guest shutdown request: `None` to go on and wait; when
/// the request failed, the end of the stop: it returns `false` and leaves
/// the VM as it is, running with its VMM.
pub fn after_shutdown_request(sent: bool) -> (r: Option<GracefulSettle>)
    ensures
        sent ==> r is None,
        !sent ==> (r matches Some(s) && s.state is None && !s.restore_vmm && s.result == Ok::<
            bool,
            CoreError,
        >(false)),
{
    if sent {
        None
    } else {
        Some(GracefulSettle { state: None, restore_vmm: false, result: Ok(false) })
    }
}

/// How the wait of a graceful stop goes on once the shutdown request went
/// out (the state may have changed meanwhile).
#[derive(Debug, Clone, Copy, PartialEq, Eq, Structural)]
pub enum GracefulWait {
    /// Take the VMM out and wait for the VM to stop.
    TakeAndWait,
    /// The VM stopped meanwhile: done, successfully.
    AlreadyStopped,
}

/// How the wait of a graceful stop begins: whether the entry is marked
/// stopping, and how it goes on.
#[derive(Debug)]
pub struct WaitStep {
    /// The entry is marked stopping.
    pub mark_stopping: bool,
    /// Take the VMM out and wait, end at once, or fail.
    pub outcome: Result<GracefulWait, CoreError>,
}

/// Decides how the wait begins from VM `id`'s entry at that point (`None`
/// when it is gone) and whether the entry holds its VMM: a running or
/// stopping VM is marked stopping and its VMM taken out to wait on (refused
/// as not initialized when there is none, the mark staying); a stopped VM
/// ends the stop successfully; a missing one is not found; a created or
/// starting one cannot be stopped.
pub fn graceful_wait(id: &str, entry: Option<MachineState>, has_vmm: bool) -> (r: WaitStep)
    ensures
        r.mark_stopping == (entry == Some(MachineState::Running) || entry == Some(
            MachineState::Stopping,
        )),
        entry is None ==> (r.outcome matches Err(e) && not_found(e, id@)),
        (entry == Some(MachineState::Running) || entry == Some(MachineState::Stopping)) ==> if has_vmm {
            r.outcome == Ok::<GracefulWait, CoreError>(GracefulWait::TakeAndWait)
        } else {
            r.outcome matches Err(e) && invalid_state(e, "VMM not initialized"@)
        },
        entry == Some(MachineState::Stopped) ==> r.outcome == Ok::<GracefulWait, CoreError>(
            GracefulWait::AlreadyStopped,
        ),
        (entry == Some(MachineState::Created) || entry == Some(MachineState::Starting)) ==> (
        r.outcome matches Err(e) && invalid_state(e, "cannot stop VM in state "@ + state_name(entry->0))),
{
    match entry {
        None => WaitStep { mark_stopping: false, outcome: Err(CoreError::NotFound(id.to_owned())) },
        Some(MachineState::Running) | Some(MachineState::Stopping) => WaitStep {
            mark_stopping: true,
            outcome: if has_vmm {
                Ok(GracefulWait::TakeAndWait)
            } else {
                Err(CoreError::InvalidState("VMM not initialized".to_owned()))
            },
        },
        Some(MachineState::Stopped) => WaitStep {
            mark_stopping: false,
            outcome: Ok(GracefulWait::AlreadyStopped),
        },
        Some(state) => WaitStep {
            mark_stopping: false,
            outcome: Err(state_error("cannot stop VM in state ", state)),
        },
    }
}

/// How a graceful stop ends.
#[derive(Debug)]
pub struct GracefulSettle {
    /// The VM's new state; `None` when its entry is gone (removed by a
    /// concurrent force stop) or unchanged.
    pub state: Option<MachineState>,
    /// Whether the VMM goes back into the entry (the VM keeps running).
    pub restore_vmm: bool,
    /// What the graceful stop returns: whether the VM stopped.
    pub result: Result<bool, CoreError>,
}

/// How a graceful stop ends, from the entry's state after the wait (`None`
/// when the entry is gone) and the wait's outcome: a stopped VM ends
/// stopped; a VM whose stop timed out or failed returns to running only if
/// it is still stopping, so a concurrent stop is never undone; a removed
/// entry keeps nothing.
pub open spec fn settle_outcome(
    current: Option<MachineState>,
    waited: Result<bool, CoreError>,
    r: GracefulSettle,
) -> bool {
    match current {
        None => r.state is None && !r.restore_vmm && r.result == Ok::<bool, CoreError>(
            waited == Ok::<bool, CoreError>(true),
        ),
        Some(s) => match waited {
            Ok(true) => r.state == Some(MachineState::Stopped) && !r.restore_vmm && r.result == Ok::<
                bool,
                CoreError,
            >(true),
            _ => {
                &&& (s is Stopping ==> r.state == Some(MachineState::Running) && r.restore_vmm)
                &&& (!(s is Stopping) ==> r.state is None && !r.restore_vmm)
                &&& match waited {
                    Err(e) => r.result matches Err(f) && f == e,
                    Ok(_) => r.result == Ok::<bool, CoreError>(false),
                }
            },
        },
    }
}

/// Decides how a graceful stop ends.
pub fn graceful_settle(current: Option<MachineState>, waited: Result<bool, CoreError>) -> (r:
    GracefulSettle)
    ensures
        settle_outcome(current, waited, r),
{
    match current {
        None => {
            let stopped = match waited {
                Ok(b) => b,
                Err(_) => false,
            };
            GracefulSettle { state: None, restore_vmm: false, result: Ok(stopped) }
        },
        Some(s) => match waited {
            Ok(true) => GracefulSettle {
                state: Some(MachineState::Stopped),
                restore_vmm: false,
                result: Ok(true),
            },
            other => {
                let result = match other {
                    Ok(_) => Ok(false),
                    Err(e) => Err(e),
                };
                match s {
                    MachineState::Stopping => GracefulSettle {
                        state: Some(MachineState::Running),
                        restore_vmm: true,
                        result,
                    },
                    _ => GracefulSettle { state: None, restore_vmm: false, result },
                }
            },
        },
    }
}

/// A graceful stop never brings back to running a VM that is not stopping
/// (a concurrent stop already took it down), and returns success only when
/// the VM stopped.
pub proof fn lemma_graceful_stop_never_resurrects(
    current: Option<MachineState>,
    waited: Result<bool, CoreError>,
    r: GracefulSettle,
)
    requires
        settle_outcome(current, waited, r),
    ensures
        r.state == Some(MachineState::Running) ==> current == Some(MachineState::Stopping),
        r.restore_vmm ==> current == Some(MachineState::Stopping),
        r.result == Ok::<bool, CoreError>(true) ==> waited == Ok::<bool, CoreError>(true),
        (current is Some && waited == Ok::<bool, CoreError>(true)) ==> r.state == Some(
            MachineState::Stopped,
        ),
{
}

/// Checks that a snapshot may be restored into a VM: it must be a VM
/// snapshot, and of this VM.
pub fn check_restore_target(
    snapshot_id: &str,
    is_vm_snapshot: bool,
    target_id: &str,
    vm_id: &str,
) -> (r: Result<(), CoreError>)
    ensures
        r is Ok <==> (is_vm_snapshot && target_id@ == vm_id@),
        !is_vm_snapshot ==> (r matches Err(e) && invalid_state(
            e,
            "snapshot "@ + snapshot_id@ + " is not a VM snapshot"@,
        )),
        is_vm_snapshot && target_id@ != vm_id@ ==> (r matches Err(e) && invalid_state(
            e,
            "snapshot "@ + snapshot_id@ + " belongs to VM "@ + target_id@ + ", not "@ + vm_id@,
        )),
{
    if !is_vm_snapshot {
        return Err(CoreError::InvalidState(concat3("snapshot ", snapshot_id, " is not a VM snapshot")));
    }
    if !same_text(target_id, vm_id) {
        let mut out: Vec<char> = Vec::new();
        push_str(&mut out, "snapshot ");
        push_str(&mut out, snapshot_id);
        push_str(&mut out, " belongs to VM ");
        push_str(&mut out, target_id);
        push_str(&mut out, ", not ");
        push_str(&mut out, vm_id);
        return Err(CoreError::InvalidState(string_of(out.as_slice())));
    }
    Ok(())
}

/// Whether two strings are equal.
pub fn same_text(a: &str, b: &str) -> (eq: bool)
    ensures
        eq == (a@ == b@),
{
    let x = chars_of(a);
    let y = chars_of(b);
    if x.len() != y.len() {
        assert(x@ != y@);
        return false;
    }
    let mut i: usize = 0;
    while i < x.len()
        invariant
            x@ == a@,
            y@ == b@,
            x@.len() == y@.len(),
            i <= x@.len(),
            forall|k: int| 0 <= k < i ==> x@[k] == y@[k],
        decreases x@.len() - i,
    {
        if x[i] != y[i] {
            assert(x@[i as int] != y@[i as int]);
            return false;
        }
        i = i + 1;
    }
    assert(x@ =~= y@);
    true
}

/// Whether the Rosetta share is enabled: the host offers it and the VM runs
/// on Virtualization.framework (the only backend that can host it).
pub fn rosetta_enabled(host_rosetta: bool, backend: VmBackend) -> (b: bool)
    ensures
        b == (host_rosetta && backend == VmBackend::Vz),
{
    host_rosetta && match backend {
        VmBackend::Vz => true,
        VmBackend::Hv => false,
    }
}

/// A VM's memory in bytes, from its size in MiB.
pub fn memory_bytes(memory_mb: u64) -> (b: u64)
    requires
        memory_mb * 1048576 <= u64::MAX,
    ensures
        b == memory_mb * 1048576,
{
    memory_mb * 1024 * 1024
}

/// `char::is_whitespace`: the Unicode `White_Space` characters.
pub open spec fn is_space(c: char) -> bool {
    ('\u{9}' <= c <= '\u{d}') || c == ' ' || c == '\u{85}' || c == '\u{a0}' || c == '\u{1680}' || (
    '\u{2000}' <= c <= '\u{200a}') || c == '\u{2028}' || c == '\u{2029}' || c == '\u{202f}' || c
        == '\u{205f}' || c == '\u{3000}'
}

fn char_is_space(c: char) -> (b: bool)
    ensures
        b == is_space(c),
{
    ('\u{9}' <= c && c <= '\u{d}') || c == ' ' || c == '\u{85}' || c == '\u{a0}' || c == '\u{1680}'
        || ('\u{2000}' <= c && c <= '\u{200a}') || c == '\u{2028}' || c == '\u{2029}' || c
        == '\u{202f}' || c == '\u{205f}' || c == '\u{3000}'
}

/// Where the token starting at `i` ends: the next whitespace, or the end.
pub open spec fn token_end(s: Seq<char>, i: int) -> int
    decreases s.len() - i,
{
    if i < 0 || i >= s.len() || is_space(s[i]) {
        i
    } else {
        token_end(s, i + 1)
    }
}

/// Scanning the whitespace-separated tokens of `s` from `i` (`at_start`
/// when `i` begins a token): the rest of the first token that starts with
/// `key`, after the key.
pub open spec fn scan_tokens(s: Seq<char>, key: Seq<char>, i: int, at_start: bool) -> Option<Seq<char>>
    decreases s.len() - i,
{
    if i < 0 || i >= s.len() {
        None
    } else if is_space(s[i]) {
        scan_tokens(s, key, i + 1, true)
    } else if at_start && i + key.len() <= token_end(s, i) && s.subrange(i, i + key.len()) == key {
        Some(s.subrange(i + key.len(), token_end(s, i)))
    } else {
        scan_tokens(s, key, i + 1, false)
    }
}

/// The value of the first command-line token that starts with `key`.
pub open spec fn token_value(s: Seq<char>, key: Seq<char>) -> Option<Seq<char>> {
    scan_tokens(s, key, 0, true)
}

proof fn lemma_token_end_bounds(s: Seq<char>, i: int)
    requires
        0 <= i <= s.len(),
    ensures
        i <= token_end(s, i) <= s.len(),
        forall|k: int| i <= k < token_end(s, i) ==> !is_space(#[trigger] s[k]),
        token_end(s, i) < s.len() ==> is_space(s[token_end(s, i)]),
    decreases s.len() - i,
{
    if i < s.len() && !is_space(s[i]) {
        lemma_token_end_bounds(s, i + 1);
    }
}

fn find_token_end(s: &[char], i: usize) -> (e: usize)
    requires
        i <= s@.len(),
    ensures
        e == token_end(s@, i as int),
{
    proof {
        lemma_token_end_bounds(s@, i as int);
    }
    let mut e: usize = i;
    while e < s.len() && !char_is_space(s[e])
        invariant
            i <= e <= s@.len(),
            token_end(s@, e as int) == token_end(s@, i as int),
        decreases s@.len() - e,
    {
        e = e + 1;
    }
    e
}

fn starts_with_at(s: &[char], i: usize, key: &[char]) -> (b: bool)
    requires
        i <= s@.len(),
    ensures
        b == (i + key@.len() <= s@.len() && s@.subrange(i as int, i + key@.len()) == key@),
{
    let n = s.len();
    if key.len() > n - i {
        return false;
    }
    let mut k: usize = 0;
    while k < key.len()
        invariant
            n == s@.len(),
            i + key@.len() <= n,
            k <= key@.len(),
            forall|m: int| 0 <= m < k ==> s@[i + m] == key@[m],
        decreases key@.len() - k,
    {
        if s[i + k] != key[k] {
            assert(s@.subrange(i as int, i + key@.len())[k as int] != key@[k as int]);
            return false;
        }
        k = k + 1;
    }
    assert(s@.subrange(i as int, i + key@.len()) =~= key@);
    true
}

/// The debug-console socket path a kernel command line asks for: the value
/// of its first token that starts with `key` (none without a command
/// line).
pub fn debug_console_socket(cmdline: Option<&str>, key: &str) -> (r: Option<String>)
    ensures
        match cmdline {
            None => r is None,
            Some(c) => match token_value(c@, key@) {
                None => r is None,
                Some(v) => r matches Some(p) && p@ == v,
            },
        },
{
    let c = match cmdline {
        Some(c) => c,
        None => return None,
    };
    let s = chars_of(c);
    let k = chars_of(key);
    let mut i: usize = 0;
    let mut at_start = true;
    while i < s.len()
        invariant
            cmdline == Some(c),
            s@ == c@,
            k@ == key@,
            i <= s@.len(),
            scan_tokens(s@, k@, i as int, at_start) == token_value(s@, k@),
        decreases s@.len() - i,
    {
        if char_is_space(s[i]) {
            at_start = true;
        } else {
            if at_start {
                let e = find_token_end(s.as_slice(), i);
                proof {
                    lemma_token_end_bounds(s@, i as int);
                }
                if k.len() <= e - i && starts_with_at(s.as_slice(), i, k.as_slice()) {
                    let mut out: Vec<char> = Vec::new();
                    let mut j: usize = i + k.len();
                    while j < e
                        invariant
                            i + k@.len() <= j <= e <= s@.len(),
                            out@ == s@.subrange(i + k@.len(), j as int),
                        decreases e - j,
                    {
                        out.push(s[j]);
                        j = j + 1;
                        assert(out@ =~= s@.subrange(i + k@.len(), j as int));
                    }
                    assert(scan_tokens(s@, k@, i as int, at_start) == Some(
                        s@.subrange(i + k@.len(), e as int),
                    ));
                    return Some(string_of(out.as_slice()));
                }
            }
            at_start = false;
        }
        i = i + 1;
    }
    None
}

} // verus!
