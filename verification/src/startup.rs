//! Daemon startup: the order of the startup phases, the settings derived
//! from flags and environment, and the decisions of the stale-resource
//! steps.
//!
//! Each phase state consumes the previous one and returns the next, carrying
//! the caller's context value (`C`) for that phase; the phases completed so
//! far are tracked alongside, so a ready daemon is known to have passed
//! through every phase in order.

use vstd::prelude::*;
use crate::text::{
    chars_of, concat3, padded_number, parse_unsigned, parse_unsigned_spec, push_chars, push_str,
    string_of, text_with_number,
};

verus! {

/// The startup phases, in the order they run.
#[derive(Debug, Clone, Copy, PartialEq, Eq, Structural)]
pub enum StartupPhase {
    PrepareHost,
    AcquireDaemonLease,
    StartControlPlane,
    ReleaseStaleResources,
    PrepareAssets,
    BootRuntime,
    StartRuntimeServices,
    MarkReady,
}

/// Every startup phase, in order.
pub open spec fn startup_order() -> Seq<StartupPhase> {
    seq![
        StartupPhase::PrepareHost,
        StartupPhase::AcquireDaemonLease,
        StartupPhase::StartControlPlane,
        StartupPhase::ReleaseStaleResources,
        StartupPhase::PrepareAssets,
        StartupPhase::BootRuntime,
        StartupPhase::StartRuntimeServices,
        StartupPhase::MarkReady,
    ]
}

/// The phases completed after the first `n`.
pub open spec fn completed(n: int) -> Seq<StartupPhase> {
    startup_order().take(n)
}

/// Entry point of the startup lifecycle: the parsed arguments and the
/// handles shared with the shutdown path.
pub struct Startup<A, H> {
    args: A,
    handles: H,
}

impl<A, H> Startup<A, H> {
    /// Creates a startup pipeline from parsed daemon arguments.
    pub fn from_args(args: A, handles: H) -> (s: Self)
        ensures
            s.args() == args,
            s.handles() == handles,
    {
        Self { args, handles }
    }

    /// The arguments.
    pub closed spec fn args(&self) -> A {
        self.args
    }

    /// The handles.
    pub closed spec fn handles(&self) -> H {
        self.handles
    }

    /// Gives back the arguments and handles (to prepare the host with).
    pub fn into_parts(self) -> (r: (A, H))
        ensures
            r.0 == self.args(),
            r.1 == self.handles(),
    {
        (self.args, self.handles)
    }

    /// Host directories and pre-lock context are prepared: the first phase.
    pub fn prepare_host<E>(self, early: E) -> (r: HostPrepared<E>)
        ensures
            r.context() == early,
            r.phases() == completed(1),
    {
        HostPrepared { early, phases: Ghost(completed(1)) }
    }
}

/// Host prepared; the daemon lease is next.
pub struct HostPrepared<E> {
    early: E,
    phases: Ghost<Seq<StartupPhase>>,
}

impl<E> HostPrepared<E> {
    /// The pre-lock context.
    pub closed spec fn context(&self) -> E {
        self.early
    }

    /// The phases completed.
    pub closed spec fn phases(&self) -> Seq<StartupPhase> {
        self.phases@
    }

    /// The pre-lock context.
    pub fn early(&self) -> (r: &E)
        ensures
            *r == self.context(),
    {
        &self.early
    }

    /// The exclusive daemon lease is held.
    pub fn acquire_daemon_lease<D>(self, ctx: D) -> (r: DaemonLeased<D>)
        requires
            self.phases() == completed(1),
        ensures
            r.context() == ctx,
            r.phases() == completed(2),
    {
        DaemonLeased { ctx, phases: Ghost(completed(2)) }
    }
}

/// Lease held; the control plane, stale resources, assets and runtime are
/// next.
pub struct DaemonLeased<D> {
    ctx: D,
    phases: Ghost<Seq<StartupPhase>>,
}

impl<D> DaemonLeased<D> {
    /// The daemon context.
    pub closed spec fn context(&self) -> D {
        self.ctx
    }

    /// The phases completed.
    pub closed spec fn phases(&self) -> Seq<StartupPhase> {
        self.phases@
    }

    /// The daemon context.
    pub fn ctx(&self) -> (r: &D)
        ensures
            *r == self.context(),
    {
        &self.ctx
    }

    /// The control plane is up, stale resources are released, assets are
    /// prepared and the runtime is booted: the four middle phases, in order.
    pub fn boot<G>(self, booted: G) -> (r: RuntimeBooted<G>)
        requires
            self.phases() == completed(2),
        ensures
            r.context() == booted,
            r.phases() == completed(6),
    {
        RuntimeBooted { ctx: booted, phases: Ghost(completed(6)) }
    }
}

/// Runtime booted; runtime services are next.
pub struct RuntimeBooted<G> {
    ctx: G,
    phases: Ghost<Seq<StartupPhase>>,
}

impl<G> RuntimeBooted<G> {
    /// The context.
    pub closed spec fn context(&self) -> G {
        self.ctx
    }

    /// The phases completed.
    pub closed spec fn phases(&self) -> Seq<StartupPhase> {
        self.phases@
    }

    /// The context.
    pub fn ctx(&self) -> (r: &G)
        ensures
            *r == self.context(),
    {
        &self.ctx
    }

    /// Runtime services are started; `linux_vm` tells whether the Linux VM
    /// (and its Docker and Kubernetes services) runs.
    pub fn start_runtime_services<S>(self, ctx: S, linux_vm: bool) -> (r: RuntimeServicesStarted<S>)
        requires
            self.phases() == completed(6),
        ensures
            r.context() == ctx,
            r.linux_vm() == linux_vm,
            r.phases() == completed(7),
    {
        RuntimeServicesStarted { ctx, linux_vm, phases: Ghost(completed(7)) }
    }
}

/// Services started; marking ready is last.
pub struct RuntimeServicesStarted<S> {
    ctx: S,
    linux_vm: bool,
    phases: Ghost<Seq<StartupPhase>>,
}

impl<S> RuntimeServicesStarted<S> {
    /// The context.
    pub closed spec fn context(&self) -> S {
        self.ctx
    }

    /// Whether the Linux VM runs.
    pub closed spec fn linux_vm(&self) -> bool {
        self.linux_vm
    }

    /// The phases completed.
    pub closed spec fn phases(&self) -> Seq<StartupPhase> {
        self.phases@
    }

    /// Whether the Linux VM runs.
    pub fn runs_linux_vm(&self) -> (b: bool)
        ensures
            b == self.linux_vm(),
    {
        self.linux_vm
    }

    /// Startup is complete.
    pub fn mark_ready(self) -> (r: ReadyDaemon<S>)
        requires
            self.phases() == completed(7),
        ensures
            r.context() == self.context(),
            r.phases() == startup_order(),
    {
        proof {
            assert(completed(8) =~= startup_order());
        }
        ReadyDaemon { ctx: self.ctx, phases: Ghost(completed(8)) }
    }
}

/// A daemon that has completed startup.
pub struct ReadyDaemon<S> {
    ctx: S,
    phases: Ghost<Seq<StartupPhase>>,
}

impl<S> ReadyDaemon<S> {
    /// The context.
    pub closed spec fn context(&self) -> S {
        self.ctx
    }

    /// The phases completed.
    pub closed spec fn phases(&self) -> Seq<StartupPhase> {
        self.phases@
    }

    /// The context (for the shutdown loop).
    pub fn into_context(self) -> (r: S)
        ensures
            r == self.context(),
    {
        self.ctx
    }
}

/// Running the steps in order from the start reaches a ready daemon that
/// went through every phase exactly once, in order.
pub proof fn lemma_startup_runs_every_phase()
    ensures
        completed(1) == seq![StartupPhase::PrepareHost],
        completed(8) == startup_order(),
        startup_order().len() == 8,
        forall|i: int, j: int|
            0 <= i < j < 8 ==> startup_order()[i] != startup_order()[j],
{
    assert(completed(1) =~= seq![StartupPhase::PrepareHost]);
    assert(completed(8) =~= startup_order());
}

/// Prefix of the daemon's environment variables.
pub const DNS_PREFIX: &'static str = "arcbox";

/// Default domain of the daemon's DNS.
pub const DEFAULT_DNS_DOMAIN: &'static str = "arcbox.local";

/// Canonical host DNS port.
pub const DEFAULT_DNS_PORT: u16 = 5553;

/// `str::to_uppercase`: the Unicode uppercase of a string.
pub uninterp spec fn str_uppercase(s: Seq<char>) -> Seq<char>;

/// `str::to_uppercase`. The contract names the result: it depends on `s`
/// alone (the Unicode case tables are not restated here).
#[verifier::external_body]
fn to_uppercase(s: &str) -> (r: String)
    ensures
        r@ == str_uppercase(s@),
{
    s.to_uppercase()
}

/// `s` with every `-` replaced by `_`.
pub open spec fn dashes_to_underscores(s: Seq<char>) -> Seq<char> {
    s.map_values(|c: char| if c == '-' { '_' } else { c })
}

/// The environment-variable prefix for a name: uppercase, with `_` for `-`.
pub fn to_env_prefix(prefix: &str) -> (r: String)
    ensures
        r@ == dashes_to_underscores(str_uppercase(prefix@)),
{
    let upper = to_uppercase(prefix);
    let cs = chars_of(upper.as_str());
    let mut out: Vec<char> = Vec::new();
    let mut i: usize = 0;
    while i < cs.len()
        invariant
            i <= cs@.len(),
            out@ == dashes_to_underscores(cs@.subrange(0, i as int)),
        decreases cs@.len() - i,
    {
        let c = cs[i];
        if c == '-' {
            out.push('_');
        } else {
            out.push(c);
        }
        i = i + 1;
        assert(out@ =~= dashes_to_underscores(cs@.subrange(0, i as int)));
    }
    assert(cs@.subrange(0, cs@.len() as int) =~= cs@);
    string_of(out.as_slice())
}

/// The name of the environment variable `<PREFIX>_<suffix>`.
pub fn env_key(suffix: &str) -> (r: String)
    ensures
        r@ == dashes_to_underscores(str_uppercase(DNS_PREFIX@)) + "_"@ + suffix@,
{
    let prefix = to_env_prefix(DNS_PREFIX);
    concat3(prefix.as_str(), "_", suffix)
}

/// The DNS port from the value of its environment variable: the value when
/// it parses as a port number, the default otherwise.
pub fn dns_port_from(value: Option<&str>) -> (port: u16)
    ensures
        port == (match value {
            Some(v) => match parse_unsigned_spec(v@, 10, 65535) {
                Some(n) => n as u16,
                None => DEFAULT_DNS_PORT,
            },
            None => DEFAULT_DNS_PORT,
        }),
{
    match value {
        Some(v) => {
            let cs = chars_of(v);
            match parse_unsigned(cs.as_slice(), 10, 65535) {
                Some(n) => n as u16,
                None => DEFAULT_DNS_PORT,
            }
        },
        None => DEFAULT_DNS_PORT,
    }
}

/// The DNS domain from the value of its environment variable, or the
/// default.
pub fn dns_domain_from(value: Option<String>) -> (domain: String)
    ensures
        domain@ == (match value {
            Some(v) => v@,
            None => DEFAULT_DNS_DOMAIN@,
        }),
{
    match value {
        Some(v) => v,
        None => DEFAULT_DNS_DOMAIN.to_owned(),
    }
}

/// Whether the runtime must be told the DNS domain (it differs from the
/// default).
pub fn needs_custom_dns_domain(domain: &str) -> (b: bool)
    ensures
        b == (domain@ != DEFAULT_DNS_DOMAIN@),
{
    let a = chars_of(domain);
    let d = chars_of(DEFAULT_DNS_DOMAIN);
    if a.len() != d.len() {
        assert(a@ != d@);
        return true;
    }
    let mut i: usize = 0;
    while i < a.len()
        invariant
            a@ == domain@,
            d@ == DEFAULT_DNS_DOMAIN@,
            a@.len() == d@.len(),
            i <= a@.len(),
            forall|k: int| 0 <= k < i ==> a@[k] == d@[k],
        decreases a@.len() - i,
    {
        if a[i] != d[i] {
            assert(a@[i as int] != d@[i as int]);
            return true;
        }
        i = i + 1;
    }
    assert(a@ =~= d@);
    false
}

/// Virtual-machine flags given to the daemon.
#[derive(Debug, Clone)]
pub struct VmArgs {
    /// Guest port of the Docker API over vsock, overriding the config.
    pub guest_docker_vsock_port: Option<u32>,
    /// Kernel image, overriding the config.
    pub kernel: Option<String>,
    /// Run as a VM host only: no Linux VM.
    pub no_linux_vm: bool,
}

/// The runtime settings the daemon's layout and flags decide.
#[derive(Debug, Clone)]
pub struct RuntimeSettings {
    /// Data directory.
    pub data_dir: String,
    /// Docker API socket path.
    pub docker_socket: String,
    /// Guest port of the Docker API over vsock.
    pub guest_docker_vsock_port: u32,
    /// Kernel image, when one is configured.
    pub kernel_path: Option<String>,
    /// Whether the Linux VM starts with the daemon.
    pub autostart: bool,
}

/// Applies the daemon's layout and flags over the settings from the config
/// file: the layout's data directory and socket always win; each flag given
/// wins over the file; `--no-linux-vm` turns autostart off.
pub fn apply_daemon_overrides(
    settings: &mut RuntimeSettings,
    data_dir: &str,
    docker_socket: &str,
    args: &VmArgs,
)
    ensures
        final(settings).data_dir@ == data_dir@,
        final(settings).docker_socket@ == docker_socket@,
        final(settings).guest_docker_vsock_port == (match args.guest_docker_vsock_port {
            Some(p) => p,
            None => old(settings).guest_docker_vsock_port,
        }),
        final(settings).kernel_path == (match args.kernel {
            Some(k) => Some(k),
            None => old(settings).kernel_path,
        }),
        final(settings).autostart == (old(settings).autostart && !args.no_linux_vm),
{
    settings.data_dir = data_dir.to_owned();
    settings.docker_socket = docker_socket.to_owned();
    if let Some(port) = args.guest_docker_vsock_port {
        settings.guest_docker_vsock_port = port;
    }
    if let Some(kernel) = &args.kernel {
        settings.kernel_path = Some(kernel.clone());
    }
    if args.no_linux_vm {
        settings.autostart = false;
    }
}

/// The lines printed once the daemon is ready.
pub open spec fn ready_banner_lines(
    linux_vm: bool,
    docker_socket: Seq<char>,
    grpc_socket: Seq<char>,
    dns_port: u16,
    data_dir: Seq<char>,
) -> Seq<Seq<char>> {
    let head = seq!["ArcBox daemon started"@];
    let docker = if linux_vm {
        seq!["  Docker API: "@ + docker_socket]
    } else {
        Seq::empty()
    };
    let tail = seq![
        "  gRPC API:   "@ + grpc_socket,
        "  DNS:        127.0.0.1:"@ + padded_number(dns_port as nat, 10, 0),
        "  Data:       "@ + data_dir,
        Seq::empty(),
        if linux_vm {
            "Use 'arcbox docker enable' to configure Docker CLI integration."@
        } else {
            "Running as a VM host only (--no-linux-vm): Docker and Kubernetes are disabled."@
        },
        "Press Ctrl+C to stop."@,
    ];
    head + docker + tail
}

/// The lines printed once the daemon is ready.
pub fn ready_banner(
    linux_vm: bool,
    docker_socket: &str,
    grpc_socket: &str,
    dns_port: u16,
    data_dir: &str,
) -> (lines: Vec<String>)
    ensures
        lines@.map_values(|l: String| l@) == ready_banner_lines(
            linux_vm,
            docker_socket@,
            grpc_socket@,
            dns_port,
            data_dir@,
        ),
{
    proof {
        reveal_strlit("");
    }
    let mut lines: Vec<String> = Vec::new();
    lines.push("ArcBox daemon started".to_owned());
    if linux_vm {
        lines.push(concat3("  Docker API: ", docker_socket, ""));
    }
    lines.push(concat3("  gRPC API:   ", grpc_socket, ""));
    lines.push(text_with_number("  DNS:        127.0.0.1:", dns_port as u32, 10, 0));
    lines.push(concat3("  Data:       ", data_dir, ""));
    lines.push(String::new());
    if linux_vm {
        lines.push("Use 'arcbox docker enable' to configure Docker CLI integration.".to_owned());
    } else {
        lines.push(
            "Running as a VM host only (--no-linux-vm): Docker and Kubernetes are disabled.".to_owned(),
        );
    }
    lines.push("Press Ctrl+C to stop.".to_owned());
    proof {
        assert(lines@.map_values(|l: String| l@) =~= ready_banner_lines(
            linux_vm,
            docker_socket@,
            grpc_socket@,
            dns_port,
            data_dir@,
        ));
    }
    lines
}

/// Whether a text holds `pat` at some position.
pub open spec fn contains_text(s: Seq<char>, pat: Seq<char>) -> bool {
    exists|i: int| 0 <= i <= s.len() - pat.len() && #[trigger] s.subrange(i, i + pat.len()) == pat
}

fn text_contains(s: &[char], pat: &[char]) -> (b: bool)
    ensures
        b == contains_text(s@, pat@),
{
    let n = s.len();
    if pat.len() > n {
        return false;
    }
    let mut i: usize = 0;
    while i <= n - pat.len()
        invariant
            n == s@.len(),
            pat@.len() <= s@.len(),
            i <= s@.len() - pat@.len() + 1,
            forall|k: int| 0 <= k < i ==> #[trigger] s@.subrange(k, k + pat@.len()) != pat@,
        decreases s@.len() - pat@.len() + 1 - i,
    {
        let mut j: usize = 0;
        let mut same = true;
        while j < pat.len()
            invariant
                n == s@.len(),
                pat@.len() <= s@.len(),
                i + pat@.len() <= n,
                j <= pat@.len(),
                same == forall|m: int| 0 <= m < j ==> s@[i + m] == pat@[m],
            decreases pat@.len() - j,
        {
            if s[i + j] != pat[j] {
                same = false;
            }
            j = j + 1;
        }
        if same {
            assert(s@.subrange(i as int, i + pat@.len()) =~= pat@);
            return true;
        }
        proof {
            let m = choose|m: int| 0 <= m < pat@.len() && s@[i + m] != pat@[m];
            assert(s@.subrange(i as int, i + pat@.len())[m] != pat@[m]);
        }
        i = i + 1;
    }
    false
}

/// Whether an executable path is the ArcBox daemon's.
pub open spec fn is_daemon_path_spec(path: Seq<char>) -> bool {
    contains_text(path, "arcbox-daemon"@) || contains_text(path, "arcboxlabs.desktop.daemon"@)
}

/// Whether an executable path is the ArcBox daemon's (the check before a
/// stale process is signalled).
pub fn is_daemon_path(path: &str) -> (b: bool)
    ensures
        b == is_daemon_path_spec(path@),
{
    let p = chars_of(path);
    let a = chars_of("arcbox-daemon");
    let d = chars_of("arcboxlabs.desktop.daemon");
    text_contains(p.as_slice(), a.as_slice()) || text_contains(p.as_slice(), d.as_slice())
}

/// Whether a process exists, from the result of `kill(pid, 0)` and the
/// error it set: success, or a permission refusal (the process exists but
/// cannot be signalled).
pub fn process_alive(kill_result: i32, errno: Option<i32>, eperm: i32) -> (b: bool)
    ensures
        b == (kill_result == 0 || errno == Some(eperm)),
{
    if kill_result == 0 {
        return true;
    }
    match errno {
        Some(e) => e == eperm,
        None => false,
    }
}

/// What the wait for disk-image holders does next.
#[derive(Debug, Clone)]
pub enum HolderWait {
    /// No other process holds the image: done.
    Released,
    /// The deadline passed with these processes still holding it: give up
    /// (they are not killed, to avoid data loss).
    GiveUp(Vec<u32>),
    /// Wait and look again.
    Wait,
}

/// The processes other than this one.
pub open spec fn other_pids(pids: Seq<u32>, own: u32) -> Seq<u32> {
    pids.filter(|p: u32| p != own)
}

/// One step of the wait for disk-image holders: from the processes holding
/// the image, this process's id, and whether the deadline passed.
pub fn holders_step(pids: &[u32], own_pid: u32, deadline_passed: bool) -> (r: HolderWait)
    ensures
        other_pids(pids@, own_pid).len() == 0 ==> r is Released,
        other_pids(pids@, own_pid).len() > 0 && deadline_passed ==> (r matches HolderWait::GiveUp(
            v,
        ) && v@ == other_pids(pids@, own_pid)),
        other_pids(pids@, own_pid).len() > 0 && !deadline_passed ==> r is Wait,
{
    let mut others: Vec<u32> = Vec::new();
    let mut i: usize = 0;
    while i < pids.len()
        invariant
            i <= pids@.len(),
            others@ == other_pids(pids@.subrange(0, i as int), own_pid),
        decreases pids@.len() - i,
    {
        proof {
            reveal(Seq::filter);
            let s1 = pids@.subrange(0, i + 1);
            assert(s1.drop_last() =~= pids@.subrange(0, i as int));
            assert(s1.last() == pids@[i as int]);
            assert(other_pids(s1, own_pid) == (if s1.last() != own_pid {
                other_pids(s1.drop_last(), own_pid).push(s1.last())
            } else {
                other_pids(s1.drop_last(), own_pid)
            }));
        }
        if pids[i] != own_pid {
            others.push(pids[i]);
        }
        i = i + 1;
    }
    assert(pids@.subrange(0, pids@.len() as int) =~= pids@);
    proof {
        reveal(Seq::filter);
        assert(pids@.subrange(0, 0) =~= Seq::<u32>::empty());
    }
    if others.len() == 0 {
        HolderWait::Released
    } else if deadline_passed {
        HolderWait::GiveUp(others)
    } else {
        HolderWait::Wait
    }
}

/// The hint printed at startup when the host resolver does not yet send
/// the daemon's domain to it (`registered` tells whether it does).
pub fn check_resolver_installed(domain: &str, registered: bool) -> (hint: Option<String>)
    ensures
        registered ==> hint is None,
        !registered ==> (hint matches Some(h) && h@ == "Hint: Run 'sudo arcbox dns install' to enable *."@
            + domain@ + " DNS resolution."@),
{
    if registered {
        None
    } else {
        Some(concat3("Hint: Run 'sudo arcbox dns install' to enable *.", domain, " DNS resolution."))
    }
}

} // verus!
