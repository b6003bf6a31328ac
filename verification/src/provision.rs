//! Planning a new machine: the checks a machine configuration must pass and
//! the VM layout it gets (VirtioFS shares, block devices, kernel and
//! command line, data disk).
//!
//! The file-system facts the plan depends on (which directories exist) and
//! the paths the caller derives are inputs; the plan is what the caller then
//! creates.

use vstd::prelude::*;
use crate::error::CoreError;
use crate::machine::{
    default_distro_cmdline, default_distro_cmdline_text, machine_shim_cmdline,
    machine_shim_cmdline_text, mount_error, mount_tag, mount_tag_text, validate_mount, HostArch,
    MachineBootKeys, MachineMount, MachineRootfs,
};
use crate::vm::VmBackend;

verus! {

/// A VirtioFS share of a host directory.
#[derive(Debug, Clone)]
pub struct SharedDir {
    /// Host directory.
    pub host_path: String,
    /// Tag the guest mounts it by.
    pub tag: String,
    /// Whether the share is read-only.
    pub read_only: bool,
}

/// A block device of a VM.
#[derive(Debug, Clone)]
pub struct BlockDevice {
    /// Host path of the image.
    pub path: String,
    /// Whether the device is read-only.
    pub read_only: bool,
}

/// Machine configuration.
#[derive(Debug, Clone)]
pub struct MachineConfig {
    /// Machine name.
    pub name: String,
    /// Number of CPUs.
    pub cpus: u32,
    /// Memory in MiB.
    pub memory_mb: u64,
    /// Disk size in GiB.
    pub disk_gb: u64,
    /// Kernel path.
    pub kernel: Option<String>,
    /// Kernel command line.
    pub cmdline: Option<String>,
    /// Extra block devices.
    pub block_devices: Vec<BlockDevice>,
    /// Pulled distro rootfs image to boot from.
    pub rootfs: Option<MachineRootfs>,
    /// Host directories mounted into the machine (shim machines only).
    pub mounts: Vec<MachineMount>,
    /// Distribution name.
    pub distro: Option<String>,
    /// Distribution version.
    pub distro_version: Option<String>,
    /// Hypervisor backend.
    pub backend: VmBackend,
    /// Whether to expose Rosetta (honored on the VZ backend only).
    pub enable_rosetta: bool,
}

/// The host shares every machine gets: the data directory, and the users
/// and private trees when they exist on the host.
#[derive(Debug, Clone)]
pub struct HostShares {
    /// The daemon's data directory.
    pub data_dir: String,
    /// Tag of the data directory share.
    pub data_tag: String,
    /// Host users tree.
    pub users_path: String,
    /// Tag of the users share.
    pub users_tag: String,
    /// Whether the users tree is a directory on this host.
    pub users_is_dir: bool,
    /// Host private tree.
    pub private_path: String,
    /// Tag of the private share.
    pub private_tag: String,
    /// Whether the private tree is a directory on this host.
    pub private_is_dir: bool,
}

/// The VM layout a machine is created with.
#[derive(Debug, Clone)]
pub struct MachinePlan {
    /// VirtioFS shares.
    pub shared_dirs: Vec<SharedDir>,
    /// Kernel path.
    pub kernel: Option<String>,
    /// Block devices, in device order.
    pub block_devices: Vec<BlockDevice>,
    /// Kernel command line.
    pub cmdline: Option<String>,
    /// The sparse data disk to provision: its path and size in bytes.
    pub data_disk: Option<(String, u64)>,
}

/// A share as plain values.
pub open spec fn share_view(s: SharedDir) -> (Seq<char>, Seq<char>, bool) {
    (s.host_path@, s.tag@, s.read_only)
}

/// A device as plain values.
pub open spec fn device_view(d: BlockDevice) -> (Seq<char>, bool) {
    (d.path@, d.read_only)
}

/// Shares as plain values.
pub open spec fn share_views_of(s: Seq<SharedDir>) -> Seq<(Seq<char>, Seq<char>, bool)> {
    s.map_values(|x: SharedDir| share_view(x))
}

/// Devices as plain values.
pub open spec fn device_views_of(s: Seq<BlockDevice>) -> Seq<(Seq<char>, bool)> {
    s.map_values(|x: BlockDevice| device_view(x))
}

proof fn lemma_device_views_push(s: Seq<BlockDevice>, d: BlockDevice)
    ensures
        device_views_of(s.push(d)) == device_views_of(s).push(device_view(d)),
{
    assert(device_views_of(s.push(d)) =~= device_views_of(s).push(device_view(d)));
}

proof fn lemma_share_views_push(s: Seq<SharedDir>, d: SharedDir)
    ensures
        share_views_of(s.push(d)) == share_views_of(s).push(share_view(d)),
{
    assert(share_views_of(s.push(d)) =~= share_views_of(s).push(share_view(d)));
}

/// The shares every machine gets.
pub open spec fn host_share_views(h: HostShares) -> Seq<(Seq<char>, Seq<char>, bool)> {
    seq![(h.data_dir@, h.data_tag@, false)] + (if h.users_is_dir {
        seq![(h.users_path@, h.users_tag@, false)]
    } else {
        Seq::empty()
    }) + (if h.private_is_dir {
        seq![(h.private_path@, h.private_tag@, false)]
    } else {
        Seq::empty()
    })
}

/// The shares of the user mounts: tag `m{i}`, with the mount's read-only
/// flag.
pub open spec fn mount_share_views(mounts: Seq<MachineMount>) -> Seq<(Seq<char>, Seq<char>, bool)> {
    Seq::new(mounts.len(), |i: int| (mounts[i].host_path@, mount_tag_text(i as nat), mounts[i].read_only))
}

/// The first refused mount's message, checking from `i` on.
pub open spec fn first_mount_error(mounts: Seq<MachineMount>, host_dirs: Seq<bool>, i: int) -> Option<
    Seq<char>,
>
    decreases mounts.len() - i,
{
    if i < 0 || i >= mounts.len() {
        None
    } else {
        match mount_error(mounts[i], host_dirs[i]) {
            Some(m) => Some(m),
            None => first_mount_error(mounts, host_dirs, i + 1),
        }
    }
}

/// Whether a configuration boots a distro through the boot shim.
pub open spec fn has_shim(c: MachineConfig) -> bool {
    c.rootfs matches Some(r) && r.shim is Some
}

/// The message refusing mounts outside shim machines.
pub open spec fn mounts_need_shim_text() -> Seq<char> {
    "mounts require a shim-booted distro machine"@
}

/// The message refusing a shim-less rootfs without a kernel.
pub open spec fn rootfs_needs_kernel_text() -> Seq<char> {
    "a distro rootfs without a boot shim requires an explicit kernel (pass --kernel)"@
}

/// Why a machine cannot be created, in the order the checks run: its name
/// is taken; it has mounts but no boot shim; a mount is refused; it boots a
/// shim-less rootfs with no kernel.
pub open spec fn create_refusal(c: MachineConfig, exists: bool, host_dirs: Seq<bool>, e: CoreError) -> bool {
    if exists {
        e matches CoreError::AlreadyExists(n) && n@ == c.name@
    } else if c.mounts@.len() > 0 && !has_shim(c) {
        e matches CoreError::Config(m) && m@ == mounts_need_shim_text()
    } else if first_mount_error(c.mounts@, host_dirs, 0) is Some {
        e matches CoreError::Config(m) && Some(m@) == first_mount_error(c.mounts@, host_dirs, 0)
    } else {
        c.rootfs matches Some(r) && r.shim is None && c.kernel is None && (e matches CoreError::Config(
            m,
        ) && m@ == rootfs_needs_kernel_text())
    }
}

/// Whether a machine can be created.
pub open spec fn creatable(c: MachineConfig, exists: bool, host_dirs: Seq<bool>) -> bool {
    &&& !exists
    &&& !(c.mounts@.len() > 0 && !has_shim(c))
    &&& first_mount_error(c.mounts@, host_dirs, 0) is None
    &&& !(c.rootfs matches Some(r) && r.shim is None && c.kernel is None)
}

/// The data disk size in bytes: `disk_gb` GiB, saturating.
pub open spec fn disk_bytes(disk_gb: u64) -> u64 {
    if disk_gb * 1073741824 > u64::MAX {
        u64::MAX
    } else {
        (disk_gb * 1073741824) as u64
    }
}

/// The block devices of a machine: for a distro rootfs, the shim image
/// (when there is one), the rootfs and the data disk, then the extra
/// devices; otherwise the extra devices alone.
pub open spec fn device_views(c: MachineConfig, data_disk: Seq<char>) -> Seq<(Seq<char>, bool)> {
    let extras = device_views_of(c.block_devices@);
    match c.rootfs {
        Some(r) => (match r.shim {
            Some(s) => seq![(s.rootfs@, true)],
            None => Seq::empty(),
        }) + seq![(r.path@, true), (data_disk, false)] + extras,
        None => extras,
    }
}

/// The kernel of a machine: the configured one, else the shim's.
pub open spec fn plan_kernel(c: MachineConfig) -> Option<Seq<char>> {
    match c.kernel {
        Some(k) => Some(k@),
        None => match c.rootfs {
            Some(r) => match r.shim {
                Some(s) => Some(s.kernel@),
                None => None,
            },
            None => None,
        },
    }
}

/// The command line of a machine: the configured one, else (for a distro
/// rootfs) the shim's or the shim-less default.
pub open spec fn plan_cmdline(c: MachineConfig, arch: HostArch, keys: MachineBootKeys) -> Option<
    Seq<char>,
> {
    match c.cmdline {
        Some(l) => Some(l@),
        None => match c.rootfs {
            Some(r) => Some(
                match r.shim {
                    Some(_) => machine_shim_cmdline_text(arch, keys, r.format@, c.mounts@),
                    None => default_distro_cmdline_text(arch, r.format@),
                },
            ),
            None => None,
        },
    }
}

/// An optional string as plain values.
pub open spec fn opt_view(o: Option<String>) -> Option<Seq<char>> {
    match o {
        Some(s) => Some(s@),
        None => None,
    }
}

fn clone_devices(ds: &Vec<BlockDevice>, out: &mut Vec<BlockDevice>)
    ensures
        device_views_of(final(out)@) == old(out)@.map_values(
            |d: BlockDevice| device_view(d),
        ) + device_views_of(ds@),
{
    let ghost start = device_views_of(old(out)@);
    let mut i: usize = 0;
    while i < ds.len()
        invariant
            i <= ds@.len(),
            device_views_of(out@) == start + device_views_of(ds@.subrange(0, i as int)),
        decreases ds@.len() - i,
    {
        let d = BlockDevice { path: ds[i].path.clone(), read_only: ds[i].read_only };
        let ghost prev = out@;
        proof {
            assert(ds@.subrange(0, i + 1) =~= ds@.subrange(0, i as int).push(ds@[i as int]));
            lemma_device_views_push(ds@.subrange(0, i as int), ds@[i as int]);
            lemma_device_views_push(prev, d);
            assert(device_view(d) == device_view(ds@[i as int]));
        }
        out.push(d);
        i = i + 1;
        assert(device_views_of(out@) =~= start + device_views_of(ds@.subrange(0, i as int)));
    }
    assert(ds@.subrange(0, ds@.len() as int) =~= ds@);
}

fn clone_opt(o: &Option<String>) -> (r: Option<String>)
    ensures
        opt_view(r) == opt_view(*o),
{
    match o {
        Some(s) => Some(s.clone()),
        None => None,
    }
}

/// Plans a new machine: refuses it for the first failed check (see
/// [`create_refusal`]); otherwise its shares, devices, kernel, command line
/// and data disk. `host_dirs[i]` tells whether the `i`-th mount's host path
/// is a directory; `data_disk` is the path of the machine's data image.
pub fn plan_machine(
    config: &MachineConfig,
    exists: bool,
    host_dirs: &Vec<bool>,
    shares: &HostShares,
    data_disk: &str,
    arch: HostArch,
    keys: &MachineBootKeys,
) -> (r: Result<MachinePlan, CoreError>)
    requires
        host_dirs@.len() == config.mounts@.len(),
        config.mounts@.len() <= u32::MAX,
    ensures
        r is Ok <==> creatable(*config, exists, host_dirs@),
        r matches Err(e) ==> create_refusal(*config, exists, host_dirs@, e),
        r matches Ok(p) ==> {
            &&& share_views_of(p.shared_dirs@) == host_share_views(*shares)
                + mount_share_views(config.mounts@)
            &&& device_views_of(p.block_devices@) == device_views(
                *config,
                data_disk@,
            )
            &&& opt_view(p.kernel) == plan_kernel(*config)
            &&& opt_view(p.cmdline) == plan_cmdline(*config, arch, *keys)
            &&& match config.rootfs {
                Some(_) => p.data_disk matches Some((path, size)) && path@ == data_disk@ && size
                    == disk_bytes(config.disk_gb),
                None => p.data_disk is None,
            }
        },
{
    if exists {
        return Err(CoreError::AlreadyExists(config.name.clone()));
    }
    let shim_booted = match &config.rootfs {
        Some(r) => r.shim.is_some(),
        None => false,
    };
    if config.mounts.len() > 0 && !shim_booted {
        return Err(CoreError::Config("mounts require a shim-booted distro machine".to_owned()));
    }
    // Shares: the host trees, then one per user mount.
    let mut shared_dirs: Vec<SharedDir> = Vec::new();
    shared_dirs.push(
        SharedDir {
            host_path: shares.data_dir.clone(),
            tag: shares.data_tag.clone(),
            read_only: false,
        },
    );
    if shares.users_is_dir {
        shared_dirs.push(
            SharedDir {
                host_path: shares.users_path.clone(),
                tag: shares.users_tag.clone(),
                read_only: false,
            },
        );
    }
    if shares.private_is_dir {
        shared_dirs.push(
            SharedDir {
                host_path: shares.private_path.clone(),
                tag: shares.private_tag.clone(),
                read_only: false,
            },
        );
    }
    let ghost base = share_views_of(shared_dirs@);
    assert(base =~= host_share_views(*shares));
    let mut i: usize = 0;
    while i < config.mounts.len()
        invariant
            !exists,
            !(config.mounts@.len() > 0 && !has_shim(*config)),
            i <= config.mounts@.len(),
            config.mounts@.len() <= u32::MAX,
            host_dirs@.len() == config.mounts@.len(),
            first_mount_error(config.mounts@, host_dirs@, 0) == first_mount_error(
                config.mounts@,
                host_dirs@,
                i as int,
            ),
            share_views_of(shared_dirs@) == base + mount_share_views(
                config.mounts@.subrange(0, i as int),
            ),
        decreases config.mounts@.len() - i,
    {
        let mount = &config.mounts[i];
        proof {
            assert(config.mounts@.subrange(0, i + 1) =~= config.mounts@.subrange(0, i as int).push(
                config.mounts@[i as int],
            ));
        }
        match validate_mount(mount, host_dirs[i]) {
            Ok(()) => {},
            Err(e) => return Err(e),
        }
        let share = SharedDir {
            host_path: mount.host_path.clone(),
            tag: mount_tag(i as u32),
            read_only: mount.read_only,
        };
        let ghost prev = shared_dirs@;
        proof {
            lemma_share_views_push(prev, share);
            assert(mount_share_views(config.mounts@.subrange(0, i + 1)) =~= mount_share_views(
                config.mounts@.subrange(0, i as int),
            ).push(share_view(share)));
        }
        shared_dirs.push(share);
        i = i + 1;
        assert(share_views_of(shared_dirs@) =~= base + mount_share_views(
            config.mounts@.subrange(0, i as int),
        ));
    }
    assert(config.mounts@.subrange(0, config.mounts@.len() as int) =~= config.mounts@);
    let mut block_devices: Vec<BlockDevice> = Vec::new();
    let kernel: Option<String>;
    let cmdline: Option<String>;
    let data: Option<(String, u64)>;
    match &config.rootfs {
        Some(rootfs) => {
            if rootfs.shim.is_none() && config.kernel.is_none() {
                return Err(
                    CoreError::Config(
                        "a distro rootfs without a boot shim requires an explicit kernel (pass --kernel)".to_owned(),
                    ),
                );
            }
            match &rootfs.shim {
                Some(shim) => {
                    block_devices.push(BlockDevice { path: shim.rootfs.clone(), read_only: true });
                },
                None => {},
            }
            block_devices.push(BlockDevice { path: rootfs.path.clone(), read_only: true });
            block_devices.push(BlockDevice { path: data_disk.to_owned(), read_only: false });
            clone_devices(&config.block_devices, &mut block_devices);
            proof {
                let extras = device_views_of(config.block_devices@);
                assert(device_views_of(block_devices@) =~= device_views(
                    *config,
                    data_disk@,
                ));
            }
            kernel = match &config.kernel {
                Some(k) => Some(k.clone()),
                None => match &rootfs.shim {
                    Some(s) => Some(s.kernel.clone()),
                    None => None,
                },
            };
            cmdline = match &config.cmdline {
                Some(l) => Some(l.clone()),
                None => match &rootfs.shim {
                    Some(_) => Some(
                        machine_shim_cmdline(arch, keys, rootfs.format.as_str(), &config.mounts),
                    ),
                    None => Some(default_distro_cmdline(arch, rootfs.format.as_str())),
                },
            };
            let size = match config.disk_gb.checked_mul(1073741824) {
                Some(v) => v,
                None => u64::MAX,
            };
            data = Some((data_disk.to_owned(), size));
        },
        None => {
            clone_devices(&config.block_devices, &mut block_devices);
            proof {
                assert(device_views_of(block_devices@) =~= device_views(
                    *config,
                    data_disk@,
                ));
            }
            kernel = clone_opt(&config.kernel);
            cmdline = clone_opt(&config.cmdline);
            data = None;
        },
    }
    Ok(MachinePlan { shared_dirs, kernel, block_devices, cmdline, data_disk: data })
}

/// The shares of a machine reloaded from its persisted record: the host
/// trees, then one per user mount (tags `m0`, `m1`, ... must match the
/// persisted command line's mount table).
pub fn reloaded_shares(shares: &HostShares, mounts: &Vec<MachineMount>) -> (r: Vec<SharedDir>)
    requires
        mounts@.len() <= u32::MAX,
    ensures
        share_views_of(r@) == host_share_views(*shares) + mount_share_views(mounts@),
{
    let mut out: Vec<SharedDir> = Vec::new();
    out.push(
        SharedDir { host_path: shares.data_dir.clone(), tag: shares.data_tag.clone(), read_only: false },
    );
    if shares.users_is_dir {
        out.push(
            SharedDir {
                host_path: shares.users_path.clone(),
                tag: shares.users_tag.clone(),
                read_only: false,
            },
        );
    }
    if shares.private_is_dir {
        out.push(
            SharedDir {
                host_path: shares.private_path.clone(),
                tag: shares.private_tag.clone(),
                read_only: false,
            },
        );
    }
    let ghost base = share_views_of(out@);
    assert(base =~= host_share_views(*shares));
    let mut i: usize = 0;
    while i < mounts.len()
        invariant
            i <= mounts@.len(),
            mounts@.len() <= u32::MAX,
            share_views_of(out@) == base + mount_share_views(mounts@.subrange(0, i as int)),
        decreases mounts@.len() - i,
    {
        let share = SharedDir {
            host_path: mounts[i].host_path.clone(),
            tag: mount_tag(i as u32),
            read_only: mounts[i].read_only,
        };
        let ghost prev = out@;
        proof {
            lemma_share_views_push(prev, share);
            assert(mounts@.subrange(0, i + 1) =~= mounts@.subrange(0, i as int).push(
                mounts@[i as int],
            ));
            assert(mount_share_views(mounts@.subrange(0, i + 1)) =~= mount_share_views(
                mounts@.subrange(0, i as int),
            ).push(share_view(share)));
        }
        out.push(share);
        i = i + 1;
        assert(share_views_of(out@) =~= base + mount_share_views(mounts@.subrange(0, i as int)));
    }
    assert(mounts@.subrange(0, mounts@.len() as int) =~= mounts@);
    out
}

} // verus!
