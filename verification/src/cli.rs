//! Command-line surface: command shapes, the USB selector argument, and the
//! USB listing row.

use vstd::prelude::*;
use crate::error::CoreError;
use crate::text::{format_number, pad_right, padded_number, push_chars, push_padded, push_str, string_of};
use crate::usb::opt_text;
use crate::usb::selector::{invalid_selector_message, parse_selector_spec, UsbSelector};

verus! {

/// Output format for command results.
#[derive(Debug, Clone, Copy, PartialEq, Eq, Structural)]
pub enum OutputFormat {
    /// Table format (default).
    Table,
    /// JSON format.
    Json,
    /// Quiet mode (IDs only).
    Quiet,
}

impl Default for OutputFormat {
    fn default() -> (r: Self)
        ensures
            r == OutputFormat::Table,
    {
        OutputFormat::Table
    }
}

/// System VM control commands.
#[derive(Debug, Clone, Copy, PartialEq, Eq, Structural)]
pub enum SystemCommands {
    /// Show or switch the System VM hypervisor backend (HV / VZ). With no
    /// argument, prints the current backend.
    Backend {
        /// Backend to switch to; `None` prints the current backend.
        set: Option<BackendArg>,
    },
}

/// Command-line spelling of a System VM backend.
#[derive(Debug, Clone, Copy, PartialEq, Eq, Structural)]
pub enum BackendArg {
    /// Hypervisor.framework: the custom VMM (amd64 via FEX).
    Hv,
    /// Virtualization.framework: Apple-managed execution (default).
    Vz,
}

/// System VM backend as the control API carries it.
#[derive(Debug, Clone, Copy, PartialEq, Eq, Structural)]
pub enum SystemVmBackend {
    /// No backend given.
    Unspecified,
    /// Hypervisor.framework.
    Hv,
    /// Virtualization.framework.
    Vz,
}

/// The backend a command-line argument names.
pub open spec fn backend_of(arg: BackendArg) -> SystemVmBackend {
    match arg {
        BackendArg::Hv => SystemVmBackend::Hv,
        BackendArg::Vz => SystemVmBackend::Vz,
    }
}

impl From<BackendArg> for SystemVmBackend {
    fn from(arg: BackendArg) -> (r: Self) {
        match arg {
            BackendArg::Hv => SystemVmBackend::Hv,
            BackendArg::Vz => SystemVmBackend::Vz,
        }
    }
}

impl vstd::std_specs::convert::FromSpecImpl<BackendArg> for SystemVmBackend {
    open spec fn obeys_from_spec() -> bool {
        true
    }

    open spec fn from_spec(v: BackendArg) -> Self {
        backend_of(v)
    }
}

/// The human label of a backend.
pub open spec fn label_text(backend: SystemVmBackend) -> Seq<char> {
    match backend {
        SystemVmBackend::Hv => "hv (Hypervisor.framework + FEX)"@,
        SystemVmBackend::Vz => "vz (Virtualization.framework)"@,
        SystemVmBackend::Unspecified => "unspecified"@,
    }
}

/// Human label for a backend value.
pub fn label(backend: SystemVmBackend) -> (r: &'static str)
    ensures
        r@ == label_text(backend),
{
    match backend {
        SystemVmBackend::Hv => "hv (Hypervisor.framework + FEX)",
        SystemVmBackend::Vz => "vz (Virtualization.framework)",
        SystemVmBackend::Unspecified => "unspecified",
    }
}

/// USB passthrough commands.
#[derive(Debug, Clone)]
pub enum UsbCommands {
    /// List USB devices granted to the daemon and their attachment state.
    List,
    /// Attach a granted USB device to the running System VM (hot-plug).
    Attach {
        /// Device selector: `vid:pid[:serial]`.
        selector: String,
    },
    /// Detach an attached USB device from the System VM.
    Detach {
        /// Device selector: `vid:pid[:serial]`.
        selector: String,
    },
}

/// A device selector as the control API carries it (an empty serial means
/// none).
#[derive(Debug, Clone)]
pub struct UsbDeviceSelector {
    /// USB vendor ID.
    pub vendor_id: u32,
    /// USB product ID.
    pub product_id: u32,
    /// Serial number, empty when absent.
    pub serial: String,
}

/// A granted USB device as the control API reports it (empty strings mean
/// absent).
#[derive(Debug, Clone)]
pub struct UsbDevice {
    /// USB vendor ID.
    pub vendor_id: u32,
    /// USB product ID.
    pub product_id: u32,
    /// Product name.
    pub name: String,
    /// Serial number.
    pub serial: String,
    /// Whether the device is attached to the System VM.
    pub attached: bool,
    /// Guest device node.
    pub guest_path: String,
}

/// Parses the selector argument and converts it to the wire message.
pub fn parse_selector(input: &str) -> (r: Result<UsbDeviceSelector, CoreError>)
    ensures
        match r {
            Ok(w) => parse_selector_spec(input@) matches Some((v, p, serial)) && w.vendor_id == v
                && w.product_id == p && w.serial@ == (match serial {
                Some(t) => t,
                None => Seq::<char>::empty(),
            }),
            Err(e) => parse_selector_spec(input@) is None && (e matches CoreError::Config(m) && m@
                == invalid_selector_message(input@)),
        },
{
    let selector = match UsbSelector::parse(input) {
        Ok(s) => s,
        Err(e) => return Err(e),
    };
    let serial = match selector.serial {
        Some(s) => s,
        None => String::new(),
    };
    Ok(UsbDeviceSelector {
        vendor_id: selector.vendor_id as u32,
        product_id: selector.product_id as u32,
        serial,
    })
}

/// `s`, or `-` when empty.
pub open spec fn or_dash(s: Seq<char>) -> Seq<char> {
    if s.len() == 0 {
        seq!['-']
    } else {
        s
    }
}

/// The list-table row of a device: `vvvv:pppp`, name, serial, state and
/// guest path in columns of 10, 28, 20 and 10 characters (longer values are
/// not cut), with `-` for empty values.
pub open spec fn device_row_text(d: UsbDevice) -> Seq<char> {
    let id = padded_number(d.vendor_id as nat, 16, 4) + seq![':'] + padded_number(
        d.product_id as nat,
        16,
        4,
    );
    let state = if d.attached {
        "attached"@
    } else {
        "available"@
    };
    pad_right(id, 10) + seq![' '] + pad_right(or_dash(d.name@), 28) + seq![' '] + pad_right(
        or_dash(d.serial@),
        20,
    ) + seq![' '] + pad_right(state, 10) + seq![' '] + or_dash(d.guest_path@)
}

fn dash_or(s: &String) -> (r: Vec<char>)
    ensures
        r@ == or_dash(s@),
{
    let mut r: Vec<char> = Vec::new();
    if s.as_str().is_empty() {
        r.push('-');
        assert(r@ =~= seq!['-']);
    } else {
        push_str(&mut r, s.as_str());
        assert(r@ =~= s@);
    }
    r
}

/// Formats one device row for the list table.
pub fn device_row(device: &UsbDevice) -> (r: String)
    ensures
        r@ == device_row_text(*device),
{
    let mut id: Vec<char> = format_number(device.vendor_id, 16, 4);
    id.push(':');
    let pid = format_number(device.product_id, 16, 4);
    push_chars(&mut id, pid.as_slice());
    let mut out: Vec<char> = Vec::new();
    push_padded(&mut out, id.as_slice(), 10);
    out.push(' ');
    let name = dash_or(&device.name);
    push_padded(&mut out, name.as_slice(), 28);
    out.push(' ');
    let serial = dash_or(&device.serial);
    push_padded(&mut out, serial.as_slice(), 20);
    out.push(' ');
    let mut state: Vec<char> = Vec::new();
    if device.attached {
        push_str(&mut state, "attached");
    } else {
        push_str(&mut state, "available");
    }
    push_padded(&mut out, state.as_slice(), 10);
    out.push(' ');
    let path = dash_or(&device.guest_path);
    push_chars(&mut out, path.as_slice());
    let r = string_of(out.as_slice());
    proof {
        let idt = padded_number(device.vendor_id as nat, 16, 4) + seq![':'] + padded_number(
            device.product_id as nat,
            16,
            4,
        );
        assert(id@ =~= idt);
        assert(r@ =~= device_row_text(*device));
    }
    r
}

/// Runtime profile of the daemon a command talks to.
#[derive(Debug, Clone, Copy, PartialEq, Eq, Structural)]
pub enum ArcboxProfile {
    /// The installed product.
    Production,
    /// A development build.
    Development,
}

/// Available commands (those whose arguments this crate models).
#[derive(Debug, Clone)]
pub enum Commands {
    /// Manage the single System VM (hypervisor backend).
    System(SystemCommands),
    /// Manage USB passthrough to the System VM.
    Usb(UsbCommands),
    /// Run diagnostic checks on the runtime.
    Doctor,
    /// Display system-wide information.
    Info,
    /// Show version information.
    Version,
}

/// The command line: a command and the global options.
#[derive(Debug, Clone)]
pub struct Cli {
    /// Command to execute.
    pub command: Commands,
    /// Unix socket path for the daemon connection.
    pub socket: Option<String>,
    /// Runtime profile.
    pub profile: Option<ArcboxProfile>,
    /// Output format.
    pub format: OutputFormat,
    /// Enable debug output.
    pub debug: bool,
}

/// The notice printed before a backend switch.
pub open spec fn backend_switch_text(backend: SystemVmBackend) -> Seq<char> {
    "Switching System VM backend to "@ + label_text(backend)
        + " \u{2014} restarting the System VM..."@
}

/// The notice printed before switching the System VM backend.
pub fn backend_switch_notice(backend: SystemVmBackend) -> (r: String)
    ensures
        r@ == backend_switch_text(backend),
{
    let mut out: Vec<char> = Vec::new();
    push_str(&mut out, "Switching System VM backend to ");
    push_str(&mut out, label(backend));
    push_str(&mut out, " \u{2014} restarting the System VM...");
    string_of(out.as_slice())
}

/// The line reporting the current backend.
pub fn backend_report(current: SystemVmBackend) -> (r: String)
    ensures
        r@ == "System VM backend: "@ + label_text(current),
{
    let mut out: Vec<char> = Vec::new();
    push_str(&mut out, "System VM backend: ");
    push_str(&mut out, label(current));
    string_of(out.as_slice())
}

/// The header of the USB list table: the column titles padded as the rows
/// are.
pub open spec fn usb_list_header_text() -> Seq<char> {
    pad_right("VID:PID"@, 10) + seq![' '] + pad_right("NAME"@, 28) + seq![' '] + pad_right(
        "SERIAL"@,
        20,
    ) + seq![' '] + pad_right("STATE"@, 10) + seq![' '] + "GUEST PATH"@
}

fn push_padded_str(out: &mut Vec<char>, s: &str, width: usize)
    ensures
        final(out)@ == old(out)@ + pad_right(s@, width as nat),
{
    let mut cs: Vec<char> = Vec::new();
    push_str(&mut cs, s);
    push_padded(out, cs.as_slice(), width);
}

/// The header line of the USB list table.
pub fn usb_list_header() -> (r: String)
    ensures
        r@ == usb_list_header_text(),
{
    let mut out: Vec<char> = Vec::new();
    push_padded_str(&mut out, "VID:PID", 10);
    out.push(' ');
    push_padded_str(&mut out, "NAME", 28);
    out.push(' ');
    push_padded_str(&mut out, "SERIAL", 20);
    out.push(' ');
    push_padded_str(&mut out, "STATE", 10);
    out.push(' ');
    push_str(&mut out, "GUEST PATH");
    let r = string_of(out.as_slice());
    assert(r@ =~= usb_list_header_text());
    r
}

/// The notice printed when no USB device is granted.
pub fn no_usb_devices_notice() -> (r: &'static str)
    ensures
        r@ == "No USB devices granted to ArcBox.\nGrant devices via the macOS Accessory Access UI (requires macOS 27+)."@,
{
    "No USB devices granted to ArcBox.\nGrant devices via the macOS Accessory Access UI (requires macOS 27+)."
}

/// The confirmation of an attach or detach: `verb`, the device as
/// `vvvv:pppp`, then `tail`.
pub open spec fn usb_notice_text(verb: Seq<char>, sel: UsbDeviceSelector, tail: Seq<char>) -> Seq<char> {
    verb + padded_number(sel.vendor_id as nat, 16, 4) + seq![':'] + padded_number(
        sel.product_id as nat,
        16,
        4,
    ) + tail
}

fn usb_notice(verb: &str, sel: &UsbDeviceSelector, tail: &str) -> (r: String)
    ensures
        r@ == usb_notice_text(verb@, *sel, tail@),
{
    let mut out: Vec<char> = Vec::new();
    push_str(&mut out, verb);
    let v = format_number(sel.vendor_id, 16, 4);
    push_chars(&mut out, v.as_slice());
    out.push(':');
    let p = format_number(sel.product_id, 16, 4);
    push_chars(&mut out, p.as_slice());
    push_str(&mut out, tail);
    let r = string_of(out.as_slice());
    assert(r@ =~= usb_notice_text(verb@, *sel, tail@));
    r
}

/// The confirmation printed after attaching a device.
pub fn attach_notice(sel: &UsbDeviceSelector) -> (r: String)
    ensures
        r@ == usb_notice_text("Attached "@, *sel, " to the System VM."@),
{
    usb_notice("Attached ", sel, " to the System VM.")
}

/// The confirmation printed after detaching a device.
pub fn detach_notice(sel: &UsbDeviceSelector) -> (r: String)
    ensures
        r@ == usb_notice_text("Detached "@, *sel, " from the System VM."@),
{
    usb_notice("Detached ", sel, " from the System VM.")
}

/// The sibling sockets of a Docker socket set by `ARCBOX_SOCKET`.
#[derive(Debug, Clone)]
pub struct SocketSiblings {
    /// `arcbox-grpc.sock` beside it.
    pub preferred: String,
    /// Whether that file exists.
    pub preferred_exists: bool,
    /// The legacy `arcbox.sock` beside it.
    pub legacy: String,
    /// Whether that file exists.
    pub legacy_exists: bool,
}

/// The gRPC socket a command connects to: the explicit one; else, beside a
/// given Docker socket, the preferred socket if it exists, the legacy one if
/// it exists, the preferred one otherwise; else the default.
pub open spec fn grpc_socket_text(
    explicit: Option<Seq<char>>,
    siblings: Option<(Seq<char>, bool, Seq<char>, bool)>,
    default_path: Seq<char>,
) -> Seq<char> {
    match explicit {
        Some(p) => p,
        None => match siblings {
            Some((preferred, preferred_exists, legacy, legacy_exists)) => if preferred_exists {
                preferred
            } else if legacy_exists {
                legacy
            } else {
                preferred
            },
            None => default_path,
        },
    }
}

/// The siblings as plain values.
pub open spec fn siblings_view(s: Option<SocketSiblings>) -> Option<(Seq<char>, bool, Seq<char>, bool)> {
    match s {
        Some(x) => Some((x.preferred@, x.preferred_exists, x.legacy@, x.legacy_exists)),
        None => None,
    }
}

/// Picks the gRPC socket path.
pub fn choose_grpc_socket(
    explicit: Option<String>,
    siblings: Option<SocketSiblings>,
    default_path: String,
) -> (r: String)
    ensures
        r@ == grpc_socket_text(opt_text(explicit), siblings_view(siblings), default_path@),
{
    match explicit {
        Some(p) => p,
        None => match siblings {
            Some(s) => if s.preferred_exists {
                s.preferred
            } else if s.legacy_exists {
                s.legacy
            } else {
                s.preferred
            },
            None => default_path,
        },
    }
}

/// The lines of `info`.
pub open spec fn info_lines_text(
    version: Seq<char>,
    os: Seq<char>,
    arch: Seq<char>,
    cpus: u32,
    machines: Option<u32>,
) -> Seq<Seq<char>> {
    seq![
        "ArcBox Version: "@ + version,
        "OS: "@ + os,
        "Arch: "@ + arch,
        "CPUs: "@ + padded_number(cpus as nat, 10, 0),
        match machines {
            Some(n) => "Machines: "@ + padded_number(n as nat, 10, 0),
            None => "Machines: (daemon not running)"@,
        },
    ]
}

/// The lines `info` prints (`machines` is `None` when the daemon does not
/// answer).
pub fn info_lines(version: &str, os: &str, arch: &str, cpus: u32, machines: Option<u32>) -> (r: Vec<
    String,
>)
    ensures
        r@.map_values(|l: String| l@) == info_lines_text(version@, os@, arch@, cpus, machines),
{
    let mut lines: Vec<String> = Vec::new();
    let mut a: Vec<char> = Vec::new();
    push_str(&mut a, "ArcBox Version: ");
    push_str(&mut a, version);
    lines.push(string_of(a.as_slice()));
    let mut b: Vec<char> = Vec::new();
    push_str(&mut b, "OS: ");
    push_str(&mut b, os);
    lines.push(string_of(b.as_slice()));
    let mut c: Vec<char> = Vec::new();
    push_str(&mut c, "Arch: ");
    push_str(&mut c, arch);
    lines.push(string_of(c.as_slice()));
    let mut d: Vec<char> = Vec::new();
    push_str(&mut d, "CPUs: ");
    let n = format_number(cpus, 10, 0);
    push_chars(&mut d, n.as_slice());
    lines.push(string_of(d.as_slice()));
    match machines {
        Some(m) => {
            let mut e: Vec<char> = Vec::new();
            push_str(&mut e, "Machines: ");
            let k = format_number(m, 10, 0);
            push_chars(&mut e, k.as_slice());
            lines.push(string_of(e.as_slice()));
        },
        None => {
            lines.push("Machines: (daemon not running)".to_owned());
        },
    }
    assert(lines@.map_values(|l: String| l@) =~= info_lines_text(version@, os@, arch@, cpus, machines));
    lines
}

} // verus!
