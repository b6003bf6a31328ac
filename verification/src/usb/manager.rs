//! USB accessory manager: the registry together with whether the accessory
//! listener is registered, driven by accessory events, System VM stops, and
//! the two halves of each attach and detach (the framework call between
//! them is the caller's).

use vstd::prelude::*;
use crate::error::CoreError;
use crate::vm::same_text;
use super::registry::{
    abort_attach_spec, connect_spec, in_id_order, remove_spec, reset_spec, set_state_spec, snapshot_of,
    AttachState, UsbEntry, UsbRegistry,
};
use super::selector::UsbSelector;
use super::{UsbDeviceInfo, UsbDeviceSnapshot};

verus! {

/// Manages host USB accessories granted to the daemon and their attachment
/// to the System VM. Attachments are runtime-only: a System VM stop resets
/// every entry to available.
pub struct UsbManager<A, D> {
    registry: UsbRegistry<A, D>,
    supported: bool,
}

/// The message refusing attach and detach before the listener registered.
pub open spec fn listener_missing_text() -> Seq<char> {
    "USB passthrough requires macOS 27 or later with Accessory Access (and the USB accessory entitlement); the accessory listener is not registered"@
}

/// The message refusing USB passthrough on hosts without it.
pub open spec fn unsupported_platform_text() -> Seq<char> {
    "USB passthrough requires macOS 27 or later with the VZ backend"@
}

impl<A: Clone, D: Clone> UsbManager<A, D> {
    /// The registry's entries.
    pub closed spec fn entries(&self) -> Map<u64, UsbEntry<A, D>> {
        self.registry@
    }

    /// Whether the accessory listener is registered.
    pub closed spec fn supported(&self) -> bool {
        self.supported
    }

    /// Creates the manager, with no accessory and no listener yet.
    pub fn new() -> (m: Self)
        ensures
            m.entries() == Map::<u64, UsbEntry<A, D>>::empty(),
            !m.supported(),
    {
        UsbManager { registry: UsbRegistry::new(), supported: false }
    }

    /// Records that the accessory listener registered.
    pub fn listener_registered(&mut self)
        ensures
            final(self).supported(),
            final(self).entries() == old(self).entries(),
    {
        self.supported = true;
    }

    /// An accessory was connected (granted).
    pub fn accessory_connected(&mut self, info: UsbDeviceInfo, accessory: A)
        ensures
            final(self).supported() == old(self).supported(),
            final(self).entries() == connect_spec(
                old(self).entries(),
                UsbEntry { info, accessory, state: AttachState::Available },
            ),
    {
        self.registry.connect(info, accessory);
    }

    /// An accessory was disconnected; returns whether it was attached.
    pub fn accessory_disconnected(&mut self, registry_id: u64) -> (was_attached: bool)
        ensures
            final(self).supported() == old(self).supported(),
            final(self).entries() == remove_spec(old(self).entries(), registry_id),
            was_attached == (old(self).entries().contains_key(registry_id) && old(
                self,
            ).entries()[registry_id].state is Attached),
    {
        match self.registry.disconnect(registry_id) {
            Some(entry) => match entry.state {
                AttachState::Attached(_) => true,
                _ => false,
            },
            None => false,
        }
    }

    /// A machine stopped: when it is the System VM (`system_vm`), every
    /// attachment is dropped.
    pub fn machine_stopped(&mut self, name: &str, system_vm: &str)
        ensures
            final(self).supported() == old(self).supported(),
            final(self).entries() == (if name@ == system_vm@ {
                reset_spec(old(self).entries())
            } else {
                old(self).entries()
            }),
    {
        if same_text(name, system_vm) {
            self.registry.reset_attachments();
        }
    }

    /// Lists granted accessories and their attachment state, in registry-ID
    /// order.
    pub fn list(&self) -> (r: Vec<UsbDeviceSnapshot>)
        ensures
            exists|ks: Seq<u64>|
                in_id_order(ks, self.entries()) && r@.len() == ks.len() && forall|i: int|
                    0 <= i < ks.len() ==> r@[i] == snapshot_of(self.entries()[#[trigger] ks[i]]),
    {
        let r = self.registry.list();
        proof {
            let ks = choose|ks: Seq<u64>|
                in_id_order(ks, self.registry@) && r@.len() == ks.len() && forall|i: int|
                    0 <= i < ks.len() ==> r@[i] == snapshot_of(self.registry@[#[trigger] ks[i]]);
            assert(in_id_order(ks, self.entries()));
            assert(forall|i: int|
                0 <= i < ks.len() ==> r@[i] == snapshot_of(self.entries()[#[trigger] ks[i]]));
        }
        r
    }

    /// Refuses attach and detach while the listener is not registered.
    pub fn ensure_supported(&self) -> (r: Result<(), CoreError>)
        ensures
            r is Ok <==> self.supported(),
            r matches Err(e) ==> (e matches CoreError::InvalidState(m) && m@
                == listener_missing_text()),
    {
        if self.supported {
            return Ok(());
        }
        Err(
            CoreError::InvalidState(
                "USB passthrough requires macOS 27 or later with Accessory Access (and the USB accessory entitlement); the accessory listener is not registered".to_owned(),
            ),
        )
    }

    /// Starts an attach: refused without the listener; otherwise the
    /// registry's attach start (the accessory handle to attach, with the
    /// entry marked attaching).
    pub fn attach_begin(&mut self, selector: &UsbSelector) -> (r: Result<(u64, A), CoreError>)
        ensures
            final(self).supported() == old(self).supported(),
            !old(self).supported() ==> final(self).entries() == old(self).entries() && (r matches Err(
                e,
            ) && e matches CoreError::InvalidState(m) && m@ == listener_missing_text()),
            r is Ok ==> old(self).supported(),
            r matches Ok((id, _)) ==> final(self).entries() == set_state_spec(
                old(self).entries(),
                id,
                AttachState::Attaching,
            ),
            (old(self).supported() && r is Err) ==> final(self).entries() == old(self).entries(),
    {
        match self.ensure_supported() {
            Ok(()) => {},
            Err(e) => return Err(e),
        }
        self.registry.begin_attach(selector)
    }

    /// Finishes an attach with the framework's outcome: the device handle
    /// marks the entry attached; a failure reverts it to available and is
    /// returned.
    pub fn attach_finish(&mut self, registry_id: u64, outcome: Result<D, CoreError>) -> (r: Result<
        (),
        CoreError,
    >)
        ensures
            final(self).supported() == old(self).supported(),
            match outcome {
                Ok(d) => r is Ok && final(self).entries() == set_state_spec(
                    old(self).entries(),
                    registry_id,
                    AttachState::Attached(d),
                ),
                Err(e) => (r matches Err(f) && f == e) && final(self).entries() == abort_attach_spec(
                    old(self).entries(),
                    registry_id,
                ),
            },
    {
        match outcome {
            Ok(device) => {
                self.registry.complete_attach(registry_id, device);
                Ok(())
            },
            Err(e) => {
                self.registry.abort_attach(registry_id);
                Err(e)
            },
        }
    }

    /// Starts a detach: refused without the listener; otherwise the
    /// registry's detach start (the attached device handle; the entry stays
    /// attached until the detach succeeds).
    pub fn detach_begin(&mut self, selector: &UsbSelector) -> (r: Result<(u64, D), CoreError>)
        ensures
            final(self).supported() == old(self).supported(),
            final(self).entries() == old(self).entries(),
            !old(self).supported() ==> (r matches Err(e) && e matches CoreError::InvalidState(m)
                && m@ == listener_missing_text()),
            r is Ok ==> old(self).supported(),
    {
        match self.ensure_supported() {
            Ok(()) => {},
            Err(e) => return Err(e),
        }
        self.registry.begin_detach(selector)
    }

    /// Finishes a detach with the framework's outcome: success marks the
    /// entry available; a failure leaves it attached and is returned.
    pub fn detach_finish(&mut self, registry_id: u64, outcome: Result<(), CoreError>) -> (r: Result<
        (),
        CoreError,
    >)
        ensures
            final(self).supported() == old(self).supported(),
            match outcome {
                Ok(()) => r is Ok && final(self).entries() == set_state_spec(
                    old(self).entries(),
                    registry_id,
                    AttachState::Available,
                ),
                Err(e) => (r matches Err(f) && f == e) && final(self).entries() == old(
                    self,
                ).entries(),
            },
    {
        match outcome {
            Ok(()) => {
                self.registry.complete_detach(registry_id);
                Ok(())
            },
            Err(e) => Err(e),
        }
    }
}

/// The refusal of USB passthrough on hosts without it.
pub fn unsupported_platform_error() -> (e: CoreError)
    ensures
        e matches CoreError::InvalidState(m) && m@ == unsupported_platform_text(),
{
    CoreError::InvalidState("USB passthrough requires macOS 27 or later with the VZ backend".to_owned())
}

} // verus!
