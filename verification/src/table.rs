//! The machine table: one record per machine, keyed by name, with the
//! transitions of create, reload, start, stop, graceful stop and backend
//! switch.
//!
//! The VMs themselves are driven by the caller between the steps here
//! (a stop checks the machine, the caller stops its VM, then the record is
//! marked stopped).

use vstd::prelude::*;
use crate::error::CoreError;
use crate::machine::{
    check_backend_switch, check_startable, cid_used, force_stop_spec, is_lowest_free_cid,
    lowest_free_cid, rollback_spec, startable, state_name, MachineMount, MachineState,
};
use crate::provision::BlockDevice;
use crate::vm::VmBackend;
use crate::text::concat3;
use crate::usb::opt_text;

verus! {

/// The configuration a machine keeps from its creation.
#[derive(Debug)]
pub struct MachineSettings {
    /// Number of CPUs.
    pub cpus: u32,
    /// Memory in MiB.
    pub memory_mb: u64,
    /// Disk size in GiB.
    pub disk_gb: u64,
    /// Kernel path.
    pub kernel: Option<String>,
    /// Kernel command line.
    pub cmdline: Option<String>,
    /// Block devices, in device order.
    pub block_devices: Vec<BlockDevice>,
    /// Path of the data disk image.
    pub disk_path: Option<String>,
    /// Hypervisor backend the machine boots on.
    pub backend: VmBackend,
    /// Creation time (seconds since the Unix epoch).
    pub created_at: i64,
    /// Host directories shared into the machine.
    pub mounts: Vec<MachineMount>,
}

/// What a distro machine is created with: the distro it boots and the SSH
/// key pair generated for it.
#[derive(Debug)]
pub struct DistroSetup {
    /// Distribution name.
    pub name: String,
    /// Distribution version.
    pub version: Option<String>,
    /// Path of the generated SSH private key.
    pub ssh_key_path: String,
}

/// A machine as its persisted record holds it.
#[derive(Debug)]
pub struct PersistedMachine {
    /// Machine name.
    pub name: String,
    /// The state it was saved in.
    pub state: MachineState,
    /// Distribution name.
    pub distro: Option<String>,
    /// Distribution version.
    pub distro_version: Option<String>,
    /// Path of the SSH private key.
    pub ssh_key_path: Option<String>,
    /// Guest IP address last reported.
    pub ip_address: Option<String>,
    /// Last successful start time.
    pub started_at: Option<i64>,
    /// The machine's configuration.
    pub settings: MachineSettings,
}

/// A machine as the table records it.
#[derive(Debug)]
pub struct MachineRecord {
    /// Machine name (unique in the table).
    pub name: String,
    /// The machine's VM.
    pub vm_id: String,
    /// Lifecycle state.
    pub state: MachineState,
    /// Guest vsock CID, held while the machine runs.
    pub cid: Option<u32>,
    /// Distro the machine was created from.
    pub distro: Option<String>,
    /// Distribution version.
    pub distro_version: Option<String>,
    /// Private key of the SSH key pair generated for a distro machine.
    pub ssh_key_path: Option<String>,
    /// Guest IP address reported by the agent.
    pub ip_address: Option<String>,
    /// Last successful start time (seconds since the Unix epoch).
    pub started_at: Option<i64>,
    /// The machine's configuration.
    pub settings: MachineSettings,
}

/// A machine record as a value.
pub struct MachineRecordView {
    pub name: Seq<char>,
    pub vm_id: Seq<char>,
    pub state: MachineState,
    pub cid: Option<u32>,
    pub distro: Option<Seq<char>>,
    pub distro_version: Option<Seq<char>>,
    pub ssh_key_path: Option<Seq<char>>,
    pub ip_address: Option<Seq<char>>,
    pub started_at: Option<i64>,
    pub settings: MachineSettings,
}

impl View for MachineRecord {
    type V = MachineRecordView;

    open spec fn view(&self) -> MachineRecordView {
        MachineRecordView {
            name: self.name@,
            vm_id: self.vm_id@,
            state: self.state,
            cid: self.cid,
            distro: opt_text(self.distro),
            distro_version: opt_text(self.distro_version),
            ssh_key_path: opt_text(self.ssh_key_path),
            ip_address: opt_text(self.ip_address),
            started_at: self.started_at,
            settings: self.settings,
        }
    }
}

/// Whether a machine that was saved in this state was running, or on its
/// way up or down, when the daemon stopped: it must be recovered.
pub open spec fn needs_recovery_spec(state: MachineState) -> bool {
    state is Running || state is Starting || state is Stopping
}

/// The state a reloaded machine takes: a machine to recover is stopped; any
/// other keeps its saved state.
pub open spec fn recovered_state(state: MachineState) -> MachineState {
    if needs_recovery_spec(state) {
        MachineState::Stopped
    } else {
        state
    }
}

/// Whether a reloaded machine must be recovered (and its saved state
/// rewritten as stopped).
pub fn needs_recovery(state: MachineState) -> (b: bool)
    ensures
        b == needs_recovery_spec(state),
{
    match state {
        MachineState::Running | MachineState::Starting | MachineState::Stopping => true,
        _ => false,
    }
}

/// The record of a reloaded machine, before it holds a CID.
pub open spec fn reloaded_view(p: PersistedMachine, vm_id: Seq<char>) -> MachineRecordView {
    MachineRecordView {
        name: p.name@,
        vm_id,
        state: recovered_state(p.state),
        cid: None,
        distro: opt_text(p.distro),
        distro_version: opt_text(p.distro_version),
        ssh_key_path: opt_text(p.ssh_key_path),
        ip_address: opt_text(p.ip_address),
        started_at: p.started_at,
        settings: p.settings,
    }
}

/// A record after a start: running with this CID and start time, its IP
/// address not yet known.
pub open spec fn started_view(r: MachineRecordView, cid: u32, started_at: i64) -> MachineRecordView {
    MachineRecordView {
        state: MachineState::Running,
        cid: Some(cid),
        ip_address: None,
        started_at: Some(started_at),
        ..r
    }
}

/// A record with this IP address.
pub open spec fn with_ip(r: MachineRecordView, ip: Seq<char>) -> MachineRecordView {
    MachineRecordView { ip_address: Some(ip), ..r }
}

/// A record with this backend.
pub open spec fn with_backend(r: MachineRecordView, backend: VmBackend) -> MachineRecordView {
    MachineRecordView { settings: MachineSettings { backend, ..r.settings }, ..r }
}

/// Whether a machine of this name is recorded.
pub open spec fn has_name(s: Seq<MachineRecordView>, name: Seq<char>) -> bool {
    exists|i: int| 0 <= i < s.len() && #[trigger] s[i].name == name
}

/// The record of the machine named `name`.
pub open spec fn record_named(s: Seq<MachineRecordView>, name: Seq<char>) -> MachineRecordView {
    s[choose|i: int| 0 <= i < s.len() && #[trigger] s[i].name == name]
}

/// No two records share a name.
pub open spec fn names_unique(s: Seq<MachineRecordView>) -> bool {
    forall|i: int, j: int|
        0 <= i < s.len() && 0 <= j < s.len() && i != j ==> #[trigger] s[i].name != #[trigger] s[j].name
}

/// The CIDs the machines hold.
pub open spec fn held_cids(s: Seq<MachineRecordView>) -> Seq<Option<u32>> {
    s.map_values(|r: MachineRecordView| r.cid)
}

/// The table with the record named `name` replaced by `f` of it.
pub open spec fn update_named(
    s: Seq<MachineRecordView>,
    name: Seq<char>,
    f: spec_fn(MachineRecordView) -> MachineRecordView,
) -> Seq<MachineRecordView> {
    Seq::new(s.len(), |i: int| if s[i].name == name { f(s[i]) } else { s[i] })
}

/// A record with this state and CID.
pub open spec fn with_state(
    r: MachineRecordView,
    state: MachineState,
    cid: Option<u32>,
) -> MachineRecordView {
    MachineRecordView { state, cid, ..r }
}

/// A record after its graceful stop failed: back to running if it is still
/// stopping.
pub open spec fn rolled_back(r: MachineRecordView) -> MachineRecordView {
    MachineRecordView { state: rollback_spec(r.state), ..r }
}

/// A `NotFound` error naming `name`.
pub open spec fn not_found(e: CoreError, name: Seq<char>) -> bool {
    e matches CoreError::NotFound(m) && m@ == name
}

/// The refusal to stop a machine that is not running.
pub open spec fn not_running(e: CoreError, name: Seq<char>) -> bool {
    e matches CoreError::InvalidState(m) && m@ == "machine '"@ + name + "' is not running"@
}

/// The machines of a daemon, by name.
pub struct MachineTable {
    records: Vec<MachineRecord>,
}

impl View for MachineTable {
    type V = Seq<MachineRecordView>;

    closed spec fn view(&self) -> Seq<MachineRecordView> {
        self.records@.map_values(|r: MachineRecord| r@)
    }
}

impl MachineTable {
    #[verifier::type_invariant]
    spec fn unique_names(self) -> bool {
        names_unique(self@)
    }

    /// An empty table.
    pub fn new() -> (t: Self)
        ensures
            t@ == Seq::<MachineRecordView>::empty(),
    {
        let t = MachineTable { records: Vec::new() };
        assert(t@ =~= Seq::<MachineRecordView>::empty());
        t
    }

    fn find(&self, name: &str) -> (r: Option<usize>)
        ensures
            match r {
                Some(i) => i < self@.len() && self@[i as int].name == name@ && has_name(self@, name@)
                    && record_named(self@, name@) == self@[i as int],
                None => !has_name(self@, name@),
            },
    {
        proof {
            use_type_invariant(self);
        }
        let key = name.to_owned();
        let mut i: usize = 0;
        while i < self.records.len()
            invariant
                key@ == name@,
                names_unique(self@),
                i <= self.records@.len(),
                self@.len() == self.records@.len(),
                forall|k: int| 0 <= k < self@.len() ==> self@[k] == #[trigger] self.records@[k]@,
                forall|k: int| 0 <= k < i ==> self@[k].name != name@,
            decreases self.records@.len() - i,
        {
            if self.records[i].name.eq(&key) {
                proof {
                    let k = choose|k: int| 0 <= k < self@.len() && #[trigger] self@[k].name == name@;
                    assert(self@[i as int].name == name@);
                    assert(k == i);
                }
                return Some(i);
            }
            i = i + 1;
        }
        None
    }

    /// Whether a machine of this name is recorded.
    pub fn has_machine(&self, name: &str) -> (b: bool)
        ensures
            b == has_name(self@, name@),
    {
        self.find(name).is_some()
    }

    /// The names are unique.
    pub fn names_are_unique(&self)
        ensures
            names_unique(self@),
    {
        proof {
            use_type_invariant(self);
        }
    }

    fn take_at(&mut self, i: usize) -> (r: MachineRecord)
        requires
            i < old(self)@.len(),
        ensures
            final(self)@ == old(self)@.remove(i as int),
            r@ == old(self)@[i as int],
    {
        proof {
            use_type_invariant(&*self);
        }
        let ghost before = self@;
        let mut records = Vec::new();
        std::mem::swap(&mut records, &mut self.records);
        let r = records.remove(i);
        proof {
            let after = before.remove(i as int);
            assert(records@.map_values(|x: MachineRecord| x@) =~= after);
            assert forall|a: int, b: int|
                0 <= a < after.len() && 0 <= b < after.len() && a != b implies #[trigger] after[a].name
                != #[trigger] after[b].name by {
                let a2 = if a < i { a } else { a + 1 };
                let b2 = if b < i { b } else { b + 1 };
                assert(after[a] == before[a2]);
                assert(after[b] == before[b2]);
            }
        }
        self.records = records;
        r
    }

    fn put_at(&mut self, i: usize, rec: MachineRecord)
        requires
            i <= old(self)@.len(),
            !has_name(old(self)@, rec.name@),
        ensures
            final(self)@ == old(self)@.insert(i as int, rec@),
    {
        proof {
            use_type_invariant(&*self);
        }
        let ghost before = self@;
        let ghost rv = rec@;
        let mut records = Vec::new();
        std::mem::swap(&mut records, &mut self.records);
        records.insert(i, rec);
        proof {
            let after = before.insert(i as int, rv);
            assert(records@.map_values(|x: MachineRecord| x@) =~= after);
            assert forall|a: int, b: int|
                0 <= a < after.len() && 0 <= b < after.len() && a != b implies #[trigger] after[a].name
                != #[trigger] after[b].name by {
                if a == i {
                    let b2 = if b < i { b } else { b - 1 };
                    assert(after[b] == before[b2]);
                } else if b == i {
                    let a2 = if a < i { a } else { a - 1 };
                    assert(after[a] == before[a2]);
                } else {
                    let a2 = if a < i { a } else { a - 1 };
                    let b2 = if b < i { b } else { b - 1 };
                    assert(after[a] == before[a2]);
                    assert(after[b] == before[b2]);
                }
            }
        }
        self.records = records;
    }

    /// Records a newly created machine: created, holding no CID or IP
    /// address, with its configuration; a distro machine records its distro
    /// and the SSH key pair generated for it. A name already taken is
    /// refused and the table left as it was.
    pub fn create(
        &mut self,
        name: String,
        vm_id: String,
        settings: MachineSettings,
        distro: Option<DistroSetup>,
    ) -> (r: Result<(), CoreError>)
        ensures
            has_name(old(self)@, name@) ==> (r matches Err(e) && e matches CoreError::AlreadyExists(
                m,
            ) && m@ == name@ && final(self)@ == old(self)@),
            !has_name(old(self)@, name@) ==> (r is Ok && final(self)@ == old(self)@.push(
                MachineRecordView {
                    name: name@,
                    vm_id: vm_id@,
                    state: MachineState::Created,
                    cid: None,
                    distro: match distro {
                        Some(d) => Some(d.name@),
                        None => None,
                    },
                    distro_version: match distro {
                        Some(d) => opt_text(d.version),
                        None => None,
                    },
                    ssh_key_path: match distro {
                        Some(d) => Some(d.ssh_key_path@),
                        None => None,
                    },
                    ip_address: None,
                    started_at: None,
                    settings,
                },
            )),
            !has_name(old(self)@, name@) && distro is Some ==> record_named(
                final(self)@,
                name@,
            ).ssh_key_path is Some,
            names_unique(final(self)@),
    {
        proof {
            use_type_invariant(&*self);
        }
        if self.find(name.as_str()).is_some() {
            return Err(CoreError::AlreadyExists(name));
        }
        let (distro_name, distro_version, ssh_key_path) = match distro {
            Some(d) => (Some(d.name), d.version, Some(d.ssh_key_path)),
            None => (None, None, None),
        };
        let record = MachineRecord {
            name,
            vm_id,
            state: MachineState::Created,
            cid: None,
            distro: distro_name,
            distro_version,
            ssh_key_path,
            ip_address: None,
            started_at: None,
            settings,
        };
        let n = self.records.len();
        let ghost before = self@;
        let ghost rv = record@;
        self.put_at(n, record);
        proof {
            assert(before.insert(n as int, rv) =~= before.push(rv));
            use_type_invariant(&*self);
            assert(self@.last() == rv);
            assert(self@[n as int].name == rv.name);
        }
        Ok(())
    }

    /// Records a machine reloaded from its persisted record, whose VM was
    /// recreated as `vm_id`: it holds no CID, and one that was running or
    /// in transition comes back stopped. It takes the place of a machine of
    /// the same name. Returns whether the machine had to be recovered (its
    /// saved state is then to be rewritten as stopped).
    pub fn reload(&mut self, persisted: PersistedMachine, vm_id: String) -> (rewrite: bool)
        ensures
            rewrite == needs_recovery_spec(persisted.state),
            has_name(old(self)@, persisted.name@) ==> final(self)@ == update_named(
                old(self)@,
                persisted.name@,
                |x: MachineRecordView| reloaded_view(persisted, vm_id@),
            ),
            !has_name(old(self)@, persisted.name@) ==> final(self)@ == old(self)@.push(
                reloaded_view(persisted, vm_id@),
            ),
    {
        proof {
            use_type_invariant(&*self);
        }
        let ghost p = persisted;
        let ghost vid = vm_id@;
        let rewrite = needs_recovery(persisted.state);
        let state = if rewrite {
            MachineState::Stopped
        } else {
            persisted.state
        };
        let found = self.find(persisted.name.as_str());
        let PersistedMachine {
            name,
            state: _,
            distro,
            distro_version,
            ssh_key_path,
            ip_address,
            started_at,
            settings,
        } = persisted;
        let record = MachineRecord {
            name,
            vm_id,
            state,
            cid: None,
            distro,
            distro_version,
            ssh_key_path,
            ip_address,
            started_at,
            settings,
        };
        let ghost rv = record@;
        let ghost s = self@;
        match found {
            Some(i) => {
                let _old = self.take_at(i);
                proof {
                    assert forall|k: int| 0 <= k < s.len() && s[k].name == p.name@ implies k == i by {
                        if k != i {
                            assert(s[k].name != s[i as int].name);
                        }
                    }
                    assert forall|k: int| 0 <= k < self@.len() implies self@[k].name != rv.name by {
                        let k2 = if k < i { k } else { k + 1 };
                        assert(self@[k] == s[k2]);
                    }
                }
                self.put_at(i, record);
                proof {
                    assert(self@ =~= update_named(
                        s,
                        p.name@,
                        |x: MachineRecordView| reloaded_view(p, vid),
                    ));
                }
            },
            None => {
                let n = self.records.len();
                self.put_at(n, record);
                proof {
                    assert(s.insert(n as int, rv) =~= s.push(rv));
                }
            },
        }
        rewrite
    }

    /// The record of the machine named `name`, if there is one.
    pub fn get(&self, name: &str) -> (r: Option<&MachineRecord>)
        ensures
            match r {
                Some(m) => has_name(self@, name@) && m@ == record_named(self@, name@),
                None => !has_name(self@, name@),
            },
    {
        match self.find(name) {
            Some(i) => Some(&self.records[i]),
            None => None,
        }
    }

    /// The state and CID of the machine named `name`, if there is one.
    pub fn get_state(&self, name: &str) -> (r: Option<(MachineState, Option<u32>)>)
        ensures
            match r {
                Some((state, cid)) => has_name(self@, name@) && state == record_named(
                    self@,
                    name@,
                ).state && cid == record_named(self@, name@).cid,
                None => !has_name(self@, name@),
            },
    {
        match self.find(name) {
            Some(i) => Some((self.records[i].state, self.records[i].cid)),
            None => None,
        }
    }

    /// The SSH key of the machine named `name`: `None` when there is no such
    /// machine or it has no key.
    pub fn ssh_key_path(&self, name: &str) -> (r: Option<String>)
        ensures
            has_name(self@, name@) ==> opt_text(r) == record_named(self@, name@).ssh_key_path,
            !has_name(self@, name@) ==> r is None,
    {
        match self.find(name) {
            Some(i) => match &self.records[i].ssh_key_path {
                Some(k) => Some(k.clone()),
                None => None,
            },
            None => None,
        }
    }

    /// Picks the VM and CID for starting the machine named `name`: the
    /// lowest CID of at least 3 that no machine holds. An unknown machine is
    /// not found; a running one or one in transition is refused.
    pub fn assign_cid_for_start(&self, name: &str) -> (r: Result<(String, u32), CoreError>)
        requires
            self@.len() < u32::MAX - 3,
        ensures
            !has_name(self@, name@) ==> (r matches Err(e) && not_found(e, name@)),
            has_name(self@, name@) ==> {
                let m = record_named(self@, name@);
                &&& r is Ok <==> startable(m.state)
                &&& m.state is Running ==> (r matches Err(e) && e matches CoreError::InvalidState(t)
                    && t@ == "machine '"@ + name@ + "' is already running"@)
                &&& (m.state is Starting || m.state is Stopping) ==> (r matches Err(e)
                    && e matches CoreError::InvalidState(t) && t@ == "machine '"@ + name@
                    + "' is in transition state"@)
                &&& r matches Ok((vm_id, cid)) ==> vm_id@ == m.vm_id && is_lowest_free_cid(
                    held_cids(self@),
                    cid,
                ) && forall|j: int| 0 <= j < self@.len() ==> #[trigger] self@[j].cid != Some(cid)
            },
    {
        let i = match self.find(name) {
            Some(i) => i,
            None => return Err(CoreError::NotFound(name.to_owned())),
        };
        match check_startable(name, self.records[i].state) {
            Ok(()) => {},
            Err(e) => return Err(e),
        }
        let mut cids: Vec<Option<u32>> = Vec::new();
        let mut k: usize = 0;
        while k < self.records.len()
            invariant
                k <= self.records@.len(),
                self@.len() == self.records@.len(),
                forall|j: int| 0 <= j < self@.len() ==> self@[j] == #[trigger] self.records@[j]@,
                cids@ =~= held_cids(self@).take(k as int),
            decreases self.records@.len() - k,
        {
            cids.push(self.records[k].cid);
            k = k + 1;
        }
        assert(cids@ =~= held_cids(self@));
        let c = lowest_free_cid(cids.as_slice());
        proof {
            assert forall|j: int| 0 <= j < self@.len() implies #[trigger] self@[j].cid != Some(c) by {
                if self@[j].cid == Some(c) {
                    assert(held_cids(self@)[j] == Some(c));
                    assert(cid_used(held_cids(self@), c));
                }
            }
        }
        Ok((self.records[i].vm_id.clone(), c))
    }

    fn set_record(&mut self, i: usize, state: MachineState, cid: Option<u32>)
        requires
            i < old(self)@.len(),
        ensures
            final(self)@ == old(self)@.update(i as int, with_state(old(self)@[i as int], state, cid)),
    {
        proof {
            use_type_invariant(&*self);
        }
        let ghost before = self@;
        let mut records = Vec::new();
        std::mem::swap(&mut records, &mut self.records);
        let old_rec = records.remove(i);
        let rec = MachineRecord { state, cid, ..old_rec };
        records.insert(i, rec);
        proof {
            let after = before.update(i as int, with_state(before[i as int], state, cid));
            assert(records@.map_values(|r: MachineRecord| r@) =~= after);
            assert forall|a: int, b: int|
                0 <= a < after.len() && 0 <= b < after.len() && a != b implies #[trigger] after[a].name
                != #[trigger] after[b].name by {
                assert(after[a].name == before[a].name);
                assert(after[b].name == before[b].name);
            }
        }
        self.records = records;
    }

    /// Marks the machine named `name` running with `cid` since `started_at`,
    /// its IP address not yet known (nothing happens when it is gone).
    pub fn mark_started(&mut self, name: &str, cid: u32, started_at: i64)
        ensures
            final(self)@ == update_named(
                old(self)@,
                name@,
                |r: MachineRecordView| started_view(r, cid, started_at),
            ),
    {
        proof {
            use_type_invariant(&*self);
        }
        let ghost s = self@;
        match self.find(name) {
            Some(i) => {
                let mut rec = self.take_at(i);
                rec.state = MachineState::Running;
                rec.cid = Some(cid);
                rec.ip_address = None;
                rec.started_at = Some(started_at);
                proof {
                    assert forall|k: int| 0 <= k < self@.len() implies self@[k].name != rec.name@ by {
                        let k2 = if k < i { k } else { k + 1 };
                        assert(self@[k] == s[k2]);
                        assert(k2 != i);
                    }
                }
                self.put_at(i, rec);
                proof {
                    assert forall|k: int| 0 <= k < s.len() && s[k].name == name@ implies k == i by {
                        if k != i {
                            assert(s[k].name != s[i as int].name);
                        }
                    }
                    assert(self@ =~= update_named(
                        s,
                        name@,
                        |r: MachineRecordView| started_view(r, cid, started_at),
                    ));
                }
            },
            None => {
                assert(self@ =~= update_named(
                    self@,
                    name@,
                    |r: MachineRecordView| started_view(r, cid, started_at),
                ));
            },
        }
    }

    /// Records the IP address the agent of the machine named `name`
    /// reported (nothing happens when it is gone).
    pub fn set_ip_address(&mut self, name: &str, ip: String)
        ensures
            final(self)@ == update_named(old(self)@, name@, |r: MachineRecordView| with_ip(r, ip@)),
    {
        proof {
            use_type_invariant(&*self);
        }
        let ghost s = self@;
        let ghost ipv = ip@;
        match self.find(name) {
            Some(i) => {
                let mut rec = self.take_at(i);
                rec.ip_address = Some(ip);
                proof {
                    assert forall|k: int| 0 <= k < self@.len() implies self@[k].name != rec.name@ by {
                        let k2 = if k < i { k } else { k + 1 };
                        assert(self@[k] == s[k2]);
                        assert(k2 != i);
                    }
                }
                self.put_at(i, rec);
                proof {
                    assert forall|k: int| 0 <= k < s.len() && s[k].name == name@ implies k == i by {
                        if k != i {
                            assert(s[k].name != s[i as int].name);
                        }
                    }
                    assert(self@ =~= update_named(s, name@, |r: MachineRecordView| with_ip(r, ipv)));
                }
            },
            None => {
                assert(self@ =~= update_named(self@, name@, |r: MachineRecordView| with_ip(r, ipv)));
            },
        }
    }

    /// Checks that the machine named `name` may switch backend (not while it
    /// runs or starts) and gives its VM; an unknown machine is not found.
    pub fn check_backend_target(&self, name: &str) -> (r: Result<String, CoreError>)
        ensures
            !has_name(self@, name@) ==> (r matches Err(e) && not_found(e, name@)),
            has_name(self@, name@) ==> {
                let m = record_named(self@, name@);
                if m.state is Running || m.state is Starting {
                    r matches Err(e) && e matches CoreError::InvalidState(t) && t@
                        == "cannot switch backend while machine '"@ + name@ + "' is "@ + state_name(
                        m.state,
                    )
                } else {
                    r matches Ok(v) && v@ == m.vm_id
                }
            },
    {
        match self.find(name) {
            None => Err(CoreError::NotFound(name.to_owned())),
            Some(i) => match check_backend_switch(name, self.records[i].state) {
                Ok(()) => Ok(self.records[i].vm_id.clone()),
                Err(e) => Err(e),
            },
        }
    }

    /// Records the backend the machine named `name` switched to, once its VM
    /// took it (nothing happens when it is gone).
    pub fn mark_backend(&mut self, name: &str, backend: VmBackend)
        ensures
            final(self)@ == update_named(
                old(self)@,
                name@,
                |r: MachineRecordView| with_backend(r, backend),
            ),
    {
        proof {
            use_type_invariant(&*self);
        }
        let ghost s = self@;
        match self.find(name) {
            Some(i) => {
                let mut rec = self.take_at(i);
                rec.settings.backend = backend;
                proof {
                    assert forall|k: int| 0 <= k < self@.len() implies self@[k].name != rec.name@ by {
                        let k2 = if k < i { k } else { k + 1 };
                        assert(self@[k] == s[k2]);
                        assert(k2 != i);
                    }
                }
                self.put_at(i, rec);
                proof {
                    assert forall|k: int| 0 <= k < s.len() && s[k].name == name@ implies k == i by {
                        if k != i {
                            assert(s[k].name != s[i as int].name);
                        }
                    }
                    assert(self@ =~= update_named(
                        s,
                        name@,
                        |r: MachineRecordView| with_backend(r, backend),
                    ));
                }
            },
            None => {
                assert(self@ =~= update_named(
                    self@,
                    name@,
                    |r: MachineRecordView| with_backend(r, backend),
                ));
            },
        }
    }

    /// Checks that the machine named `name` can be force-stopped (running,
    /// or in the middle of a graceful stop) and gives its VM.
    pub fn check_stop(&self, name: &str) -> (r: Result<String, CoreError>)
        ensures
            !has_name(self@, name@) ==> (r matches Err(e) && not_found(e, name@)),
            has_name(self@, name@) ==> match force_stop_spec(record_named(self@, name@).state) {
                Some(_) => r matches Ok(v) && v@ == record_named(self@, name@).vm_id,
                None => r matches Err(e) && not_running(e, name@),
            },
    {
        match self.find(name) {
            None => Err(CoreError::NotFound(name.to_owned())),
            Some(i) => match self.records[i].state {
                MachineState::Running | MachineState::Stopping => Ok(self.records[i].vm_id.clone()),
                _ => Err(CoreError::InvalidState(concat3("machine '", name, "' is not running"))),
            },
        }
    }

    /// Marks the machine named `name` stopped once its VM stopped: stopped,
    /// holding no CID (nothing happens when it is gone).
    pub fn mark_stopped(&mut self, name: &str)
        ensures
            final(self)@ == update_named(
                old(self)@,
                name@,
                |r: MachineRecordView| with_state(r, MachineState::Stopped, None),
            ),
    {
        proof {
            use_type_invariant(&*self);
        }
        match self.find(name) {
            Some(i) => {
                let ghost s = self@;
                self.set_record(i, MachineState::Stopped, None);
                proof {
                    assert forall|k: int| 0 <= k < s.len() && s[k].name == name@ implies k == i by {
                        if k != i {
                            assert(s[k].name != s[i as int].name);
                        }
                    }
                    assert(self@ =~= update_named(
                        s,
                        name@,
                        |r: MachineRecordView| with_state(r, MachineState::Stopped, None),
                    ));
                }
            },
            None => {
                assert(self@ =~= update_named(
                    self@,
                    name@,
                    |r: MachineRecordView| with_state(r, MachineState::Stopped, None),
                ));
            },
        }
    }

    /// Begins a graceful stop of the machine named `name`: a running machine
    /// is marked stopping and its VM given; an unknown one is not found, and
    /// one that is not running is refused, the table unchanged.
    pub fn begin_graceful_stop(&mut self, name: &str) -> (r: Result<String, CoreError>)
        ensures
            !has_name(old(self)@, name@) ==> (r matches Err(e) && not_found(e, name@)
                && final(self)@ == old(self)@),
            has_name(old(self)@, name@) ==> {
                let m = record_named(old(self)@, name@);
                if m.state is Running {
                    r matches Ok(v) && v@ == m.vm_id && final(self)@ == update_named(
                        old(self)@,
                        name@,
                        |x: MachineRecordView| with_state(x, MachineState::Stopping, x.cid),
                    )
                } else {
                    r matches Err(e) && not_running(e, name@) && final(self)@ == old(self)@
                }
            },
    {
        proof {
            use_type_invariant(&*self);
        }
        let i = match self.find(name) {
            Some(i) => i,
            None => return Err(CoreError::NotFound(name.to_owned())),
        };
        match self.records[i].state {
            MachineState::Running => {},
            _ => return Err(CoreError::InvalidState(concat3("machine '", name, "' is not running"))),
        }
        let vm_id = self.records[i].vm_id.clone();
        let cid = self.records[i].cid;
        let ghost s = self@;
        self.set_record(i, MachineState::Stopping, cid);
        proof {
            assert(self@ =~= update_named(
                s,
                name@,
                |x: MachineRecordView| with_state(x, MachineState::Stopping, x.cid),
            )) by {
                assert forall|k: int| 0 <= k < s.len() && s[k].name == name@ implies k == i by {
                    if k != i {
                        assert(s[k].name != s[i as int].name);
                    }
                }
            }
        }
        Ok(vm_id)
    }

    /// Ends a graceful stop of the machine named `name` from what the VM's
    /// graceful stop returned: when the VM stopped, the machine is stopped
    /// and holds no CID (an unknown machine is not found then); otherwise a
    /// machine still stopping returns to running (a concurrent force stop is
    /// never undone) and the VM's answer is returned.
    pub fn finish_graceful_stop(&mut self, name: &str, vm_result: Result<bool, CoreError>) -> (r:
        Result<bool, CoreError>)
        ensures
            vm_result == Ok::<bool, CoreError>(true) ==> if has_name(old(self)@, name@) {
                r == Ok::<bool, CoreError>(true) && final(self)@ == update_named(
                    old(self)@,
                    name@,
                    |x: MachineRecordView| with_state(x, MachineState::Stopped, None),
                )
            } else {
                r matches Err(e) && not_found(e, name@) && final(self)@ == old(self)@
            },
            vm_result != Ok::<bool, CoreError>(true) ==> r == (match vm_result {
                Ok(_) => Ok::<bool, CoreError>(false),
                Err(e) => Err(e),
            }) && final(self)@ == update_named(old(self)@, name@, |x: MachineRecordView| rolled_back(x)),
    {
        proof {
            use_type_invariant(&*self);
        }
        let ghost s = self@;
        match vm_result {
            Ok(true) => {
                if self.find(name).is_none() {
                    return Err(CoreError::NotFound(name.to_owned()));
                }
                self.mark_stopped(name);
                Ok(true)
            },
            other => {
                match self.find(name) {
                    Some(i) => {
                        let st = self.records[i].state;
                        let cid = self.records[i].cid;
                        let next = match st {
                            MachineState::Stopping => MachineState::Running,
                            other_state => other_state,
                        };
                        self.set_record(i, next, cid);
                        proof {
                            assert(self@ =~= update_named(
                                s,
                                name@,
                                |x: MachineRecordView| rolled_back(x),
                            )) by {
                                assert forall|k: int| 0 <= k < s.len() && s[k].name == name@ implies k
                                    == i by {
                                    if k != i {
                                        assert(s[k].name != s[i as int].name);
                                    }
                                }
                            }
                        }
                    },
                    None => {
                        assert(self@ =~= update_named(s, name@, |x: MachineRecordView| rolled_back(x)));
                    },
                }
                match other {
                    Ok(_) => Ok(false),
                    Err(e) => Err(e),
                }
            },
        }
    }
}

/// No two machines hold the same CID.
pub open spec fn cids_distinct(s: Seq<MachineRecordView>) -> bool {
    forall|i: int, j: int|
        0 <= i < s.len() && 0 <= j < s.len() && i != j && s[i].cid is Some ==> #[trigger] s[i].cid
            != #[trigger] s[j].cid
}

/// CIDs stay unique across machines: starting a machine with a CID no
/// machine holds (as [`MachineTable::assign_cid_for_start`] picks it), or
/// stopping one (which frees its CID), keeps every held CID distinct.
pub proof fn lemma_cids_stay_distinct(
    s: Seq<MachineRecordView>,
    name: Seq<char>,
    c: u32,
    started_at: i64,
)
    requires
        names_unique(s),
        cids_distinct(s),
        forall|j: int| 0 <= j < s.len() ==> #[trigger] s[j].cid != Some(c),
    ensures
        cids_distinct(
            update_named(s, name, |r: MachineRecordView| started_view(r, c, started_at)),
        ),
        cids_distinct(
            update_named(s, name, |r: MachineRecordView| with_state(r, MachineState::Stopped, None)),
        ),
{
    let started = update_named(
        s,
        name,
        |r: MachineRecordView| started_view(r, c, started_at),
    );
    let stopped = update_named(s, name, |r: MachineRecordView| with_state(r, MachineState::Stopped, None));
    assert forall|i: int, j: int|
        0 <= i < started.len() && 0 <= j < started.len() && i != j && started[i].cid is Some implies #[trigger] started[i].cid
        != #[trigger] started[j].cid by {
        if s[i].name == name {
            assert(s[j].name != name);
            assert(started[j].cid == s[j].cid);
        } else if s[j].name == name {
            assert(started[i].cid == s[i].cid);
        } else {
            assert(started[i].cid == s[i].cid);
            assert(started[j].cid == s[j].cid);
        }
    }
    assert forall|i: int, j: int|
        0 <= i < stopped.len() && 0 <= j < stopped.len() && i != j && stopped[i].cid is Some implies #[trigger] stopped[i].cid
        != #[trigger] stopped[j].cid by {
        assert(s[i].name != name);
        assert(stopped[i].cid == s[i].cid);
        if s[j].name != name {
            assert(stopped[j].cid == s[j].cid);
        }
    }
}

/// A reloaded machine never comes back running or in transition: it is
/// created or stopped, and holds no CID.
pub proof fn lemma_reload_never_running(p: PersistedMachine, vm_id: Seq<char>)
    ensures
        reloaded_view(p, vm_id).state is Created || reloaded_view(p, vm_id).state is Stopped,
        reloaded_view(p, vm_id).cid is None,
{
}

} // verus!
