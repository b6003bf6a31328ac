//! Linux machine bookkeeping: states and their transitions, user mounts,
//! kernel command lines, and vsock CID allocation.

use vstd::prelude::*;
use crate::error::CoreError;
use crate::text::{
    chars_of, concat3, digits, format_number, padded_number, push_chars, push_str, string_of,
};

verus! {

/// Machine state.
#[derive(Debug, Clone, Copy, PartialEq, Eq, Structural)]
pub enum MachineState {
    /// Machine created but not started.
    Created,
    /// Machine is starting.
    Starting,
    /// Machine is running.
    Running,
    /// Machine is stopping.
    Stopping,
    /// Machine is stopped.
    Stopped,
}

/// A host directory mounted into a machine (per-machine VirtioFS share).
#[derive(Debug, Clone)]
pub struct MachineMount {
    /// Host directory to share.
    pub host_path: String,
    /// Guest mount point (absolute; must not contain `,` or `=`, which the
    /// command-line mount table uses as separators).
    pub guest_path: String,
    /// Whether the share is read-only.
    pub read_only: bool,
}

/// The boot-assets artifacts that stage a distro machine's boot.
#[derive(Debug, Clone)]
pub struct BootShim {
    /// Boot-assets kernel image path.
    pub kernel: String,
    /// Boot-assets EROFS rootfs path (ships the machine init).
    pub rootfs: String,
}

/// A pulled distro rootfs image a machine boots from.
#[derive(Debug, Clone)]
pub struct MachineRootfs {
    /// Host path of the rootfs image.
    pub path: String,
    /// Image format (`squashfs`), used for the kernel `rootfstype=`.
    pub format: String,
    /// Boot shim staging the rootfs. When set, devices are vda=shim EROFS /
    /// vdb=rootfs / vdc=data and the kernel command line follows the
    /// machine-init contract; when `None`, the rootfs itself boots as vda.
    pub shim: Option<BootShim>,
}

/// The kernel command-line keys of the machine-init contract.
#[derive(Debug, Clone)]
pub struct MachineBootKeys {
    /// Path of the machine init inside the shim (`init=` value).
    pub init_path: String,
    /// Key naming the rootfs device.
    pub rootfs_key: String,
    /// Key naming the rootfs type.
    pub rootfs_type_key: String,
    /// Key naming the data device.
    pub data_key: String,
    /// Key carrying the user mount table.
    pub mounts_key: String,
}

/// Host CPU architecture family, which fixes the console device.
#[derive(Debug, Clone, Copy, PartialEq, Eq, Structural)]
pub enum HostArch {
    /// x86-64 hosts (serial console `ttyS0`).
    X86_64,
    /// Every other architecture (virtio console `hvc0`).
    Other,
}

/// The console device of an architecture.
pub open spec fn console_text(arch: HostArch) -> Seq<char> {
    match arch {
        HostArch::X86_64 => "ttyS0"@,
        HostArch::Other => "hvc0"@,
    }
}

/// Console device for the host architecture, following the boot-assets
/// convention.
pub fn boot_console(arch: HostArch) -> (r: &'static str)
    ensures
        r@ == console_text(arch),
{
    match arch {
        HostArch::X86_64 => "ttyS0",
        HostArch::Other => "hvc0",
    }
}

/// The VirtioFS tag of a machine's `i`-th user mount.
pub open spec fn mount_tag_text(index: nat) -> Seq<char> {
    seq!['m'] + padded_number(index, 10, 1)
}

/// VirtioFS tag for the machine's `index`-th user mount: `m{index}`.
pub fn mount_tag(index: u32) -> (r: String)
    ensures
        r@ == mount_tag_text(index as nat),
{
    let mut out: Vec<char> = Vec::new();
    out.push('m');
    let d = format_number(index, 10, 1);
    push_chars(&mut out, d.as_slice());
    assert(out@ =~= mount_tag_text(index as nat));
    string_of(out.as_slice())
}

/// Kernel command line for a shim-less distro machine: root on the
/// read-only rootfs image at vda.
pub open spec fn default_distro_cmdline_text(arch: HostArch, rootfs_format: Seq<char>) -> Seq<char> {
    "console="@ + console_text(arch) + " root=/dev/vda ro rootfstype="@ + rootfs_format
        + " earlycon"@
}

/// Kernel command line for a shim-less distro machine: root on the
/// read-only rootfs image at vda (custom-kernel testing).
pub fn default_distro_cmdline(arch: HostArch, rootfs_format: &str) -> (r: String)
    ensures
        r@ == default_distro_cmdline_text(arch, rootfs_format@),
{
    let mut out: Vec<char> = Vec::new();
    push_str(&mut out, "console=");
    push_str(&mut out, boot_console(arch));
    push_str(&mut out, " root=/dev/vda ro rootfstype=");
    push_str(&mut out, rootfs_format);
    push_str(&mut out, " earlycon");
    assert(out@ =~= default_distro_cmdline_text(arch, rootfs_format@));
    string_of(out.as_slice())
}

/// One entry of the mount table: `m{i}={guest_path}`, then `:ro` for a
/// read-only share.
pub open spec fn mount_entry_text(i: nat, m: MachineMount) -> Seq<char> {
    mount_tag_text(i) + seq!['='] + m.guest_path@ + (if m.read_only {
        ":ro"@
    } else {
        Seq::<char>::empty()
    })
}

/// The mount table of the first `k` mounts, entries joined by `,`.
pub open spec fn mount_table_text(mounts: Seq<MachineMount>, k: nat) -> Seq<char>
    decreases k,
{
    if k == 0 {
        Seq::empty()
    } else if k == 1 {
        mount_entry_text(0, mounts[0])
    } else {
        mount_table_text(mounts, (k - 1) as nat) + seq![','] + mount_entry_text(
            (k - 1) as nat,
            mounts[k - 1],
        )
    }
}

/// Kernel command line for the machine boot shim: the shim EROFS boots as
/// root and stages the distro rootfs (vdb) and data disk (vdc); user mounts
/// follow as a `tag=guest_path[:ro]` table.
pub open spec fn machine_shim_cmdline_text(
    arch: HostArch,
    keys: MachineBootKeys,
    rootfs_format: Seq<char>,
    mounts: Seq<MachineMount>,
) -> Seq<char> {
    let base = "console="@ + console_text(arch) + " root=/dev/vda ro rootfstype=erofs earlycon init="@
        + keys.init_path@ + " "@ + keys.rootfs_key@ + "/dev/vdb "@ + keys.rootfs_type_key@
        + rootfs_format + " "@ + keys.data_key@ + "/dev/vdc"@;
    if mounts.len() == 0 {
        base
    } else {
        base + " "@ + keys.mounts_key@ + mount_table_text(mounts, mounts.len())
    }
}

/// Kernel command line for the machine boot shim.
pub fn machine_shim_cmdline(
    arch: HostArch,
    keys: &MachineBootKeys,
    rootfs_format: &str,
    mounts: &Vec<MachineMount>,
) -> (r: String)
    requires
        mounts@.len() <= u32::MAX,
    ensures
        r@ == machine_shim_cmdline_text(arch, *keys, rootfs_format@, mounts@),
{
    let mut out: Vec<char> = Vec::new();
    push_str(&mut out, "console=");
    push_str(&mut out, boot_console(arch));
    push_str(&mut out, " root=/dev/vda ro rootfstype=erofs earlycon init=");
    push_str(&mut out, keys.init_path.as_str());
    push_str(&mut out, " ");
    push_str(&mut out, keys.rootfs_key.as_str());
    push_str(&mut out, "/dev/vdb ");
    push_str(&mut out, keys.rootfs_type_key.as_str());
    push_str(&mut out, rootfs_format);
    push_str(&mut out, " ");
    push_str(&mut out, keys.data_key.as_str());
    push_str(&mut out, "/dev/vdc");
    let ghost base = out@;
    assert(base =~= "console="@ + console_text(arch)
        + " root=/dev/vda ro rootfstype=erofs earlycon init="@ + keys.init_path@ + " "@
        + keys.rootfs_key@ + "/dev/vdb "@ + keys.rootfs_type_key@ + rootfs_format@ + " "@
        + keys.data_key@ + "/dev/vdc"@);
    if mounts.len() > 0 {
        push_str(&mut out, " ");
        push_str(&mut out, keys.mounts_key.as_str());
        let ghost head = out@;
        let mut i: usize = 0;
        while i < mounts.len()
            invariant
                i <= mounts@.len(),
                mounts@.len() <= u32::MAX,
                out@ == head + mount_table_text(mounts@, i as nat),
            decreases mounts@.len() - i,
        {
            if i > 0 {
                out.push(',');
            }
            let tag = mount_tag(i as u32);
            push_str(&mut out, tag.as_str());
            out.push('=');
            push_str(&mut out, mounts[i].guest_path.as_str());
            if mounts[i].read_only {
                push_str(&mut out, ":ro");
            }
            proof {
                reveal_strlit(":ro");
                let e = mount_entry_text(i as nat, mounts@[i as int]);
                if i == 0 {
                    assert(mount_table_text(mounts@, 1) == e);
                    assert(out@ =~= head + e);
                } else {
                    assert(out@ =~= head + mount_table_text(mounts@, i as nat) + seq![','] + e);
                }
            }
            i = i + 1;
        }
    }
    string_of(out.as_slice())
}

/// Both kernel command lines open with the host architecture's boot
/// console: `console=ttyS0` on x86-64 hosts, `console=hvc0` elsewhere, then a
/// space.
pub proof fn lemma_cmdlines_name_the_host_console(
    arch: HostArch,
    keys: MachineBootKeys,
    rootfs_format: Seq<char>,
    mounts: Seq<MachineMount>,
)
    ensures
        ({
            let console = if arch is X86_64 {
                "console=ttyS0 "@
            } else {
                "console=hvc0 "@
            };
            &&& console_text(arch) == console.subrange(8, console.len() - 1)
            &&& default_distro_cmdline_text(arch, rootfs_format).take(console.len() as int)
                == console
            &&& machine_shim_cmdline_text(arch, keys, rootfs_format, mounts).take(
                console.len() as int,
            ) == console
        }),
{
    reveal_strlit("console=ttyS0 ");
    reveal_strlit("console=hvc0 ");
    reveal_strlit("console=");
    reveal_strlit("ttyS0");
    reveal_strlit("hvc0");
    reveal_strlit(" root=/dev/vda ro rootfstype=");
    reveal_strlit(" root=/dev/vda ro rootfstype=erofs earlycon init=");
    let console = if arch is X86_64 {
        "console=ttyS0 "@
    } else {
        "console=hvc0 "@
    };
    assert(console_text(arch) =~= console.subrange(8, console.len() - 1));
    let d = default_distro_cmdline_text(arch, rootfs_format);
    assert(d.take(console.len() as int) =~= console);
    let s = machine_shim_cmdline_text(arch, keys, rootfs_format, mounts);
    assert(s.take(console.len() as int) =~= console);
}

/// Why a user mount is refused, if it is.
pub open spec fn mount_error(mount: MachineMount, host_is_dir: bool) -> Option<Seq<char>> {
    let g = mount.guest_path@;
    if !host_is_dir {
        Some("mount host path '"@ + mount.host_path@ + "' is not a directory"@)
    } else if !(g.len() > 0 && g[0] == '/') {
        Some("mount guest path '"@ + g + "' must be absolute"@)
    } else if g.contains(',') || g.contains('=') {
        Some("mount guest path '"@ + g + "' must not contain ',' or '='"@)
    } else {
        None
    }
}

fn contains_char(cs: &[char], c: char) -> (b: bool)
    ensures
        b == cs@.contains(c),
{
    let mut i: usize = 0;
    while i < cs.len()
        invariant
            i <= cs@.len(),
            forall|k: int| 0 <= k < i ==> cs@[k] != c,
        decreases cs@.len() - i,
    {
        if cs[i] == c {
            return true;
        }
        i = i + 1;
    }
    false
}

/// Validates a user mount: the host path must be a directory (whether it is
/// one is `host_is_dir`, which the caller learns from the file system) and
/// the guest path must be absolute and free of the command-line table
/// separators `,` and `=`.
pub fn validate_mount(mount: &MachineMount, host_is_dir: bool) -> (r: Result<(), CoreError>)
    ensures
        match mount_error(*mount, host_is_dir) {
            None => r is Ok,
            Some(m) => r matches Err(e) && (e matches CoreError::Config(t) && t@ == m),
        },
{
    if !host_is_dir {
        return Err(
            CoreError::Config(
                concat3("mount host path '", mount.host_path.as_str(), "' is not a directory"),
            ),
        );
    }
    let g = chars_of(mount.guest_path.as_str());
    if !(g.len() > 0 && g[0] == '/') {
        return Err(
            CoreError::Config(
                concat3("mount guest path '", mount.guest_path.as_str(), "' must be absolute"),
            ),
        );
    }
    if contains_char(g.as_slice(), ',') || contains_char(g.as_slice(), '=') {
        return Err(
            CoreError::Config(
                concat3(
                    "mount guest path '",
                    mount.guest_path.as_str(),
                    "' must not contain ',' or '='",
                ),
            ),
        );
    }
    Ok(())
}

/// Whether CID `c` is held by one of the machines.
pub open spec fn cid_used(cids: Seq<Option<u32>>, c: u32) -> bool {
    exists|i: int| 0 <= i < cids.len() && cids[i] == Some(c)
}

/// The CID a starting machine gets: the lowest CID of at least 3 that no
/// machine holds (0 and 1 are reserved and 2 is the host).
pub open spec fn is_lowest_free_cid(cids: Seq<Option<u32>>, c: u32) -> bool {
    &&& c >= 3
    &&& !cid_used(cids, c)
    &&& forall|d: u32| 3 <= d < c ==> cid_used(cids, d)
}

/// Among the CIDs 3..=top there is a free one once there are more of them
/// than machines (pigeonhole).
proof fn lemma_free_cid_exists(cids: Seq<Option<u32>>, top: u32)
    requires
        top >= 3,
        top - 3 >= cids.len(),
    ensures
        exists|d: u32| 3 <= d <= top && !cid_used(cids, d),
{
    if forall|d: u32| 3 <= d <= top ==> cid_used(cids, d) {
        // Map each value to an index holding it: injective, into 0..len.
        let f = |d: int| choose|i: int| 0 <= i < cids.len() && cids[i] == Some(d as u32);
        let vals = vstd::set_lib::set_int_range(3, top as int + 1);
        let idx = vstd::set_lib::set_int_range(0, cids.len() as int);
        vstd::set_lib::lemma_int_range(3, top as int + 1);
        vstd::set_lib::lemma_int_range(0, cids.len() as int);
        assert forall|a: int, b: int|
            vals.contains(a) && vals.contains(b) && #[trigger] f(a) == #[trigger] f(b) implies a
            == b by {
            assert(cid_used(cids, a as u32));
            assert(cid_used(cids, b as u32));
        }
        let img = vals.map(f);
        vstd::set_lib::lemma_map_size(vals, img, f);
        assert forall|i: int| img.contains(i) implies idx.contains(i) by {
            let d = choose|d: int| vals.contains(d) && f(d) == i;
            assert(cid_used(cids, d as u32));
        }
        vstd::set_lib::lemma_len_subset(img, idx);
    }
}

/// Picks the CID for a starting machine from the CIDs machines hold: the
/// lowest CID of at least 3 that no machine holds.
pub fn lowest_free_cid(cids: &[Option<u32>]) -> (c: u32)
    requires
        cids@.len() < u32::MAX - 3,
    ensures
        is_lowest_free_cid(cids@, c),
{
    let mut c: u32 = 3;
    loop
        invariant
            3 <= c <= 3 + cids@.len(),
            cids@.len() < u32::MAX - 3,
            forall|d: u32| 3 <= d < c ==> cid_used(cids@, d),
        decreases 3 + cids@.len() - c,
    {
        let mut held = false;
        let mut i: usize = 0;
        while i < cids.len()
            invariant
                i <= cids@.len(),
                held == (exists|k: int| 0 <= k < i && cids@[k] == Some(c)),
            decreases cids@.len() - i,
        {
            if cids[i] == Some(c) {
                held = true;
            }
            i = i + 1;
        }
        if !held {
            return c;
        }
        proof {
            if c == 3 + cids@.len() {
                lemma_free_cid_exists(cids@, c);
                let d = choose|d: u32| 3 <= d <= c && !cid_used(cids@, d);
                if d < c {
                    assert(cid_used(cids@, d));
                } else {
                    assert(cid_used(cids@, c));
                }
            }
        }
        c = c + 1;
    }
}

/// Whether a machine in this state may be started (created or stopped).
pub open spec fn startable(state: MachineState) -> bool {
    state is Created || state is Stopped
}

/// Checks that a machine may be started: a running machine, or one in
/// transition (starting or stopping), is refused.
pub fn check_startable(name: &str, state: MachineState) -> (r: Result<(), CoreError>)
    ensures
        r is Ok <==> startable(state),
        state is Running ==> (r matches Err(e) && e matches CoreError::InvalidState(m) && m@
            == "machine '"@ + name@ + "' is already running"@),
        (state is Starting || state is Stopping) ==> (r matches Err(e)
            && e matches CoreError::InvalidState(m) && m@ == "machine '"@ + name@
            + "' is in transition state"@),
{
    match state {
        MachineState::Running => Err(
            CoreError::InvalidState(concat3("machine '", name, "' is already running")),
        ),
        MachineState::Starting | MachineState::Stopping => Err(
            CoreError::InvalidState(concat3("machine '", name, "' is in transition state")),
        ),
        _ => Ok(()),
    }
}

/// Checks that a machine is running (required to reach its agent, console
/// or vsock ports, and to stop it gracefully).
pub fn check_running(name: &str, state: MachineState) -> (r: Result<(), CoreError>)
    ensures
        r is Ok <==> state is Running,
        !(state is Running) ==> (r matches Err(e) && e matches CoreError::InvalidState(m) && m@
            == "machine '"@ + name@ + "' is not running"@),
{
    match state {
        MachineState::Running => Ok(()),
        _ => Err(CoreError::InvalidState(concat3("machine '", name, "' is not running"))),
    }
}

/// The state after a force stop: a running machine, or one being stopped
/// gracefully (the force stop preempts it), ends stopped; any other state is
/// refused.
pub open spec fn force_stop_spec(state: MachineState) -> Option<MachineState> {
    if state is Running || state is Stopping {
        Some(MachineState::Stopped)
    } else {
        None
    }
}

/// Decides a force stop: the state the machine ends in, or the refusal.
pub fn force_stop_transition(name: &str, state: MachineState) -> (r: Result<MachineState, CoreError>)
    ensures
        match force_stop_spec(state) {
            Some(next) => r == Ok::<MachineState, CoreError>(next),
            None => r matches Err(e) && (e matches CoreError::InvalidState(m) && m@ == "machine '"@
                + name@ + "' is not running"@),
        },
{
    match state {
        MachineState::Running | MachineState::Stopping => Ok(MachineState::Stopped),
        _ => Err(CoreError::InvalidState(concat3("machine '", name, "' is not running"))),
    }
}

/// How a graceful stop attempt ended.
#[derive(Debug, Clone, Copy, PartialEq, Eq, Structural)]
pub enum GracefulStopOutcome {
    /// The guest shut down.
    Stopped,
    /// The guest did not shut down in time, or graceful stop is unavailable.
    TimedOut,
    /// The stop request failed.
    Failed,
}

/// The state after a graceful stop attempt ended, given the state the
/// machine is in by then: a stopped guest ends stopped; otherwise a machine
/// still stopping rolls back to running, and one a concurrent force stop
/// already stopped stays stopped.
pub open spec fn graceful_stop_spec(current: MachineState, outcome: GracefulStopOutcome) -> MachineState {
    match outcome {
        GracefulStopOutcome::Stopped => MachineState::Stopped,
        _ => rollback_spec(current),
    }
}

/// Rolling a failed graceful stop back: only a machine still stopping
/// returns to running.
pub open spec fn rollback_spec(current: MachineState) -> MachineState {
    if current is Stopping {
        MachineState::Running
    } else {
        current
    }
}

/// The state a machine takes when a graceful stop begins: running machines
/// move to stopping; others are refused.
pub fn begin_graceful_stop(name: &str, state: MachineState) -> (r: Result<MachineState, CoreError>)
    ensures
        state is Running ==> r == Ok::<MachineState, CoreError>(MachineState::Stopping),
        !(state is Running) ==> (r matches Err(e) && e matches CoreError::InvalidState(m) && m@
            == "machine '"@ + name@ + "' is not running"@),
{
    match check_running(name, state) {
        Ok(()) => Ok(MachineState::Stopping),
        Err(e) => Err(e),
    }
}

/// Rolls a failed graceful stop back to running, but only if the machine is
/// still stopping: a concurrent force stop may already have stopped it.
pub fn rollback_stopping(current: MachineState) -> (r: MachineState)
    ensures
        r == rollback_spec(current),
{
    match current {
        MachineState::Stopping => MachineState::Running,
        other => other,
    }
}

/// The state after a graceful stop attempt ended.
pub fn finish_graceful_stop(current: MachineState, outcome: GracefulStopOutcome) -> (r: MachineState)
    ensures
        r == graceful_stop_spec(current, outcome),
{
    match outcome {
        GracefulStopOutcome::Stopped => MachineState::Stopped,
        _ => rollback_stopping(current),
    }
}

/// The `Debug` name of a state.
pub open spec fn state_name(state: MachineState) -> Seq<char> {
    match state {
        MachineState::Created => "Created"@,
        MachineState::Starting => "Starting"@,
        MachineState::Running => "Running"@,
        MachineState::Stopping => "Stopping"@,
        MachineState::Stopped => "Stopped"@,
    }
}

/// The `Debug` name of a state.
pub fn state_str(state: MachineState) -> (r: &'static str)
    ensures
        r@ == state_name(state),
{
    match state {
        MachineState::Created => "Created",
        MachineState::Starting => "Starting",
        MachineState::Running => "Running",
        MachineState::Stopping => "Stopping",
        MachineState::Stopped => "Stopped",
    }
}

/// Checks that a machine's hypervisor backend may be switched: not while it
/// is running or starting.
pub fn check_backend_switch(name: &str, state: MachineState) -> (r: Result<(), CoreError>)
    ensures
        r is Ok <==> !(state is Running || state is Starting),
        (state is Running || state is Starting) ==> (r matches Err(e)
            && e matches CoreError::InvalidState(m) && m@ == "cannot switch backend while machine '"@
            + name@ + "' is "@ + state_name(state)),
{
    match state {
        MachineState::Running | MachineState::Starting => {
            let mut out: Vec<char> = Vec::new();
            push_str(&mut out, "cannot switch backend while machine '");
            push_str(&mut out, name);
            push_str(&mut out, "' is ");
            push_str(&mut out, state_str(state));
            Err(CoreError::InvalidState(string_of(out.as_slice())))
        },
        _ => Ok(()),
    }
}

/// Decides a removal: `Ok(true)` when the running VM must be stopped first
/// (forced removal of a running machine), `Ok(false)` when it can be removed
/// as it is, and an error for a running machine without `force`.
pub fn plan_remove(state: MachineState, force: bool) -> (r: Result<bool, CoreError>)
    ensures
        match r {
            Ok(stop_first) => (state is Running ==> force) && stop_first == (state is Running),
            Err(e) => state is Running && !force && (e matches CoreError::InvalidState(m) && m@
                == "cannot remove running machine (use --force)"@),
        },
{
    match state {
        MachineState::Running => if force {
            Ok(true)
        } else {
            Err(CoreError::InvalidState("cannot remove running machine (use --force)".to_owned()))
        },
        _ => Ok(false),
    }
}

/// A force stop always ends in the stopped state, from running and from an
/// in-flight graceful stop alike; a graceful stop whose guest shut down ends
/// stopped whatever happened meanwhile; a failed graceful stop never
/// overrides a concurrent force stop.
pub proof fn lemma_stop_paths(current: MachineState, outcome: GracefulStopOutcome)
    ensures
        force_stop_spec(MachineState::Running) == Some(MachineState::Stopped),
        force_stop_spec(MachineState::Stopping) == Some(MachineState::Stopped),
        graceful_stop_spec(current, GracefulStopOutcome::Stopped) == MachineState::Stopped,
        current is Stopped ==> graceful_stop_spec(current, outcome) == MachineState::Stopped,
        current is Stopping && !(outcome is Stopped) ==> graceful_stop_spec(current, outcome)
            == MachineState::Running,
{
}

/// A graceful stop that begins and then fails, with no concurrent change,
/// leaves the machine running as it was.
pub proof fn lemma_failed_graceful_stop_restores(outcome: GracefulStopOutcome)
    requires
        !(outcome is Stopped),
    ensures
        graceful_stop_spec(MachineState::Stopping, outcome) == MachineState::Running,
{
}

} // verus!
