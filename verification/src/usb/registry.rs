//! Accessory registry: connect/disconnect and attach bookkeeping.
//!
//! Generic over the platform handle types (`A` = accessory, `D` = attached
//! device). Entries are kept in a map keyed by registry ID, so listings come
//! in ID order; a connect with an ID already present replaces the stale
//! entry.

use vstd::prelude::*;
use std::collections::BTreeMap;
use vstd::std_specs::cmp::OrdSpec;
use vstd::std_specs::iter::IteratorSpec;
use crate::error::CoreError;
use crate::text::{push_chars, push_str, string_of};
use super::selector::{selector_matches, selector_text, UsbSelector};
use super::{opt_text, UsbDeviceInfo, UsbDeviceSnapshot};

verus! {

broadcast use vstd::std_specs::btree::group_btree_axioms, vstd::laws_cmp::group_laws_cmp;

/// Attachment state of a connected accessory.
pub enum AttachState<D> {
    /// Granted to the daemon, not attached to a VM.
    Available,
    /// An attach operation is in flight (prevents double attach).
    Attaching,
    /// Attached to the System VM.
    Attached(D),
}

/// One connected accessory.
pub struct UsbEntry<A, D> {
    /// The accessory's identity.
    pub info: UsbDeviceInfo,
    /// The platform accessory handle.
    pub accessory: A,
    /// Whether and how it is attached.
    pub state: AttachState<D>,
}

/// Registry of accessories currently granted to the daemon, keyed by
/// registry ID.
pub struct UsbRegistry<A, D> {
    entries: BTreeMap<u64, UsbEntry<A, D>>,
}

/// Why a selector did not resolve to one entry.
#[derive(Debug, Clone, Copy, PartialEq, Eq, Structural)]
pub enum ResolveFailure {
    /// No entry matches.
    NoMatch,
    /// More than one entry matches.
    Ambiguous,
}

/// Every entry sits under its own registry ID.
pub open spec fn keyed_by_id<A, D>(m: Map<u64, UsbEntry<A, D>>) -> bool {
    forall|k: u64| #[trigger] m.contains_key(k) ==> m[k].info.registry_id == k
}

/// `ks` lists the IDs of `m` in increasing order.
pub open spec fn in_id_order<A, D>(ks: Seq<u64>, m: Map<u64, UsbEntry<A, D>>) -> bool {
    &&& forall|i: int, j: int| 0 <= i < j < ks.len() ==> ks[i] < ks[j]
    &&& forall|i: int| 0 <= i < ks.len() ==> m.contains_key(#[trigger] ks[i])
    &&& forall|k: u64| #[trigger] m.contains_key(k) ==> ks.contains(k)
}

/// The entries after recording a connected accessory: it takes the place of
/// any entry with the same ID.
pub open spec fn connect_spec<A, D>(m: Map<u64, UsbEntry<A, D>>, e: UsbEntry<A, D>) -> Map<
    u64,
    UsbEntry<A, D>,
> {
    m.insert(e.info.registry_id, e)
}

/// The entries without the one with registry ID `id`.
pub open spec fn remove_spec<A, D>(m: Map<u64, UsbEntry<A, D>>, id: u64) -> Map<u64, UsbEntry<A, D>> {
    m.remove(id)
}

/// The entry `e` with attachment state `st`.
pub open spec fn with_state<A, D>(e: UsbEntry<A, D>, st: AttachState<D>) -> UsbEntry<A, D> {
    UsbEntry { info: e.info, accessory: e.accessory, state: st }
}

/// The entries with the state of the one with registry ID `id` (if any) set
/// to `st`.
pub open spec fn set_state_spec<A, D>(m: Map<u64, UsbEntry<A, D>>, id: u64, st: AttachState<D>) -> Map<
    u64,
    UsbEntry<A, D>,
> {
    if m.contains_key(id) {
        m.insert(id, with_state(m[id], st))
    } else {
        m
    }
}

/// The entries after a failed attach is reverted: an `Attaching` entry with
/// ID `id` becomes `Available`; anything else is left as it is.
pub open spec fn abort_attach_spec<A, D>(m: Map<u64, UsbEntry<A, D>>, id: u64) -> Map<
    u64,
    UsbEntry<A, D>,
> {
    if m.contains_key(id) && m[id].state is Attaching {
        m.insert(id, with_state(m[id], AttachState::Available))
    } else {
        m
    }
}

/// The entries with every attachment dropped.
pub open spec fn reset_spec<A, D>(m: Map<u64, UsbEntry<A, D>>) -> Map<u64, UsbEntry<A, D>> {
    m.map_values(|e: UsbEntry<A, D>| with_state(e, AttachState::Available))
}

/// Whether the entry with ID `k` matches a selector.
pub open spec fn is_match<A, D>(m: Map<u64, UsbEntry<A, D>>, sel: UsbSelector, k: u64) -> bool {
    m.contains_key(k) && selector_matches(sel, m[k].info)
}

/// The ID of the one entry a selector matches, or why there is none.
pub open spec fn resolve_spec<A, D>(m: Map<u64, UsbEntry<A, D>>, sel: UsbSelector) -> Result<
    u64,
    ResolveFailure,
> {
    if !(exists|k: u64| is_match(m, sel, k)) {
        Err(ResolveFailure::NoMatch)
    } else if exists|a: u64, b: u64| a != b && is_match(m, sel, a) && is_match(m, sel, b) {
        Err(ResolveFailure::Ambiguous)
    } else {
        Ok(choose|k: u64| is_match(m, sel, k))
    }
}

/// The snapshot listing reports for an entry.
pub open spec fn snapshot_of<A, D>(e: UsbEntry<A, D>) -> UsbDeviceSnapshot {
    UsbDeviceSnapshot { info: e.info, attached: e.state is Attached, guest_path: None }
}

/// The text of a selector as error messages show it.
pub open spec fn sel_text(sel: UsbSelector) -> Seq<char> {
    selector_text(sel.vendor_id, sel.product_id, opt_text(sel.serial))
}

/// The message when no entry matches.
pub open spec fn not_found_message(sel: UsbSelector) -> Seq<char> {
    "USB device "@ + sel_text(sel)
}

/// The message when several entries match.
pub open spec fn ambiguous_message(sel: UsbSelector) -> Seq<char> {
    "USB selector "@ + sel_text(sel)
        + " matches multiple devices; disambiguate with a serial (vid:pid:serial)"@
}

/// The message when an attach is already in flight.
pub open spec fn attach_in_progress_message(sel: UsbSelector) -> Seq<char> {
    "USB device "@ + sel_text(sel) + " attach already in progress"@
}

/// The message when the device is already attached.
pub open spec fn already_attached_message(sel: UsbSelector) -> Seq<char> {
    "USB device "@ + sel_text(sel) + " is already attached"@
}

/// The message when the device is not attached.
pub open spec fn not_attached_message(sel: UsbSelector) -> Seq<char> {
    "USB device "@ + sel_text(sel) + " is not attached"@
}

/// The error a failed resolution reports.
pub open spec fn resolve_error_ok(e: CoreError, f: ResolveFailure, sel: UsbSelector) -> bool {
    match f {
        ResolveFailure::NoMatch => e matches CoreError::NotFound(m) && m@ == not_found_message(sel),
        ResolveFailure::Ambiguous => e matches CoreError::InvalidState(m) && m@ == ambiguous_message(
            sel,
        ),
    }
}

/// After a connect, the registry holds the new entry under its ID, so a
/// disconnect of that ID hands back exactly that entry.
pub proof fn lemma_connect_then_find<A, D>(m: Map<u64, UsbEntry<A, D>>, e: UsbEntry<A, D>)
    ensures
        connect_spec(m, e).contains_key(e.info.registry_id),
        connect_spec(m, e)[e.info.registry_id] == e,
{
}

/// Connecting and then disconnecting an ID leaves the registry as a plain
/// disconnect of that ID would.
pub proof fn lemma_connect_then_disconnect<A, D>(m: Map<u64, UsbEntry<A, D>>, e: UsbEntry<A, D>)
    ensures
        remove_spec(connect_spec(m, e), e.info.registry_id) == remove_spec(m, e.info.registry_id),
{
    assert(remove_spec(connect_spec(m, e), e.info.registry_id) =~= remove_spec(
        m,
        e.info.registry_id,
    ));
}

/// A failed attach is fully reverted: beginning an attach on an available
/// entry and then aborting it gives back the registry as it was.
pub proof fn lemma_abort_reverts_attach<A, D>(m: Map<u64, UsbEntry<A, D>>, id: u64)
    requires
        m.contains_key(id),
        m[id].state is Available,
    ensures
        abort_attach_spec(set_state_spec(m, id, AttachState::Attaching), id) == m,
{
    let t = set_state_spec(m, id, AttachState::Attaching);
    assert(with_state(t[id], AttachState::Available) == m[id]);
    assert(abort_attach_spec(t, id) =~= m);
}

/// A full attach/detach cycle (begin, complete, detach) brings an available
/// entry back to the registry it started from.
pub proof fn lemma_attach_detach_cycle<A, D>(m: Map<u64, UsbEntry<A, D>>, id: u64, device: D)
    requires
        m.contains_key(id),
        m[id].state is Available,
    ensures
        set_state_spec(
            set_state_spec(set_state_spec(m, id, AttachState::Attaching), id, AttachState::Attached(device)),
            id,
            AttachState::Available,
        ) == m,
{
    let t3 = set_state_spec(
        set_state_spec(set_state_spec(m, id, AttachState::Attaching), id, AttachState::Attached(device)),
        id,
        AttachState::Available,
    );
    assert(t3[id] == m[id]);
    assert(t3 =~= m);
}

/// Once an entry is gone, a late completion for its ID changes nothing.
pub proof fn lemma_completion_after_disconnect<A, D>(m: Map<u64, UsbEntry<A, D>>, id: u64, st: AttachState<D>)
    ensures
        set_state_spec(remove_spec(m, id), id, st) == remove_spec(m, id),
{
}

/// State changes never change which entry a selector resolves to.
pub proof fn lemma_resolve_ignores_state<A, D>(
    m: Map<u64, UsbEntry<A, D>>,
    id: u64,
    st: AttachState<D>,
    sel: UsbSelector,
)
    ensures
        resolve_spec(set_state_spec(m, id, st), sel) == resolve_spec(m, sel),
{
    let t = set_state_spec(m, id, st);
    assert forall|k: u64| is_match(t, sel, k) == is_match(m, sel, k) by {
        if m.contains_key(k) && k == id {
            assert(t[k].info == m[k].info);
        }
    }
    assert(forall|k: u64| #[trigger] is_match(t, sel, k) == is_match(m, sel, k));
}

/// After a reset no entry is attached or being attached, and every entry
/// keeps its identity and handle.
pub proof fn lemma_reset_frees_all<A, D>(m: Map<u64, UsbEntry<A, D>>)
    ensures
        reset_spec(m).dom() == m.dom(),
        forall|k: u64| #[trigger] m.contains_key(k) ==> reset_spec(m)[k].state is Available
            && reset_spec(m)[k].info == m[k].info && reset_spec(m)[k].accessory == m[k].accessory,
{
    assert(reset_spec(m).dom() =~= m.dom());
}

/// Listing order: keys that are strictly increasing and cover the map are
/// the map's IDs in order, so two such listings agree.
pub proof fn lemma_id_order_unique<A, D>(a: Seq<u64>, b: Seq<u64>, m: Map<u64, UsbEntry<A, D>>)
    requires
        in_id_order(a, m),
        in_id_order(b, m),
    ensures
        a == b,
    decreases a.len() + b.len(),
{
    if a.len() > 0 && b.len() > 0 {
        // The first IDs agree: each is the smallest of the map.
        if a[0] < b[0] {
            assert(b.contains(a[0]));
            let j = choose|j: int| 0 <= j < b.len() && b[j] == a[0];
            if j > 0 {
                assert(b[0] < b[j]);
            }
        } else if b[0] < a[0] {
            assert(a.contains(b[0]));
            let j = choose|j: int| 0 <= j < a.len() && a[j] == b[0];
            if j > 0 {
                assert(a[0] < a[j]);
            }
        }
        let m2 = m.remove(a[0]);
        assert(in_id_order(a.drop_first(), m2)) by {
            assert forall|k: u64| #[trigger] m2.contains_key(k) implies a.drop_first().contains(k) by {
                assert(a.contains(k));
                let j = choose|j: int| 0 <= j < a.len() && a[j] == k;
                assert(j != 0);
                assert(a.drop_first()[j - 1] == k);
            }
            assert forall|i: int| 0 <= i < a.drop_first().len() implies m2.contains_key(
                #[trigger] a.drop_first()[i],
            ) by {
                assert(a[0] < a[i + 1]);
            }
        }
        assert(in_id_order(b.drop_first(), m2)) by {
            assert forall|k: u64| #[trigger] m2.contains_key(k) implies b.drop_first().contains(k) by {
                assert(b.contains(k));
                let j = choose|j: int| 0 <= j < b.len() && b[j] == k;
                assert(j != 0);
                assert(b.drop_first()[j - 1] == k);
            }
            assert forall|i: int| 0 <= i < b.drop_first().len() implies m2.contains_key(
                #[trigger] b.drop_first()[i],
            ) by {
                assert(b[0] < b[i + 1]);
            }
        }
        lemma_id_order_unique(a.drop_first(), b.drop_first(), m2);
        assert(a =~= seq![a[0]] + a.drop_first());
        assert(b =~= seq![b[0]] + b.drop_first());
    } else if a.len() > 0 {
        assert(m.contains_key(a[0]));
        assert(b.contains(a[0]));
    } else if b.len() > 0 {
        assert(m.contains_key(b[0]));
        assert(a.contains(b[0]));
    }
}

impl UsbDeviceInfo {
    /// A copy of this identity.
    pub fn duplicate(&self) -> (r: Self)
        ensures
            r == *self,
    {
        UsbDeviceInfo {
            registry_id: self.registry_id,
            vendor_id: self.vendor_id,
            product_id: self.product_id,
            name: match &self.name {
                Some(n) => Some(n.clone()),
                None => None,
            },
            serial: match &self.serial {
                Some(s) => Some(s.clone()),
                None => None,
            },
        }
    }
}

fn message_with_selector(prefix: &str, sel: &UsbSelector, suffix: &str) -> (m: String)
    ensures
        m@ == prefix@ + sel_text(*sel) + suffix@,
{
    let mut out: Vec<char> = Vec::new();
    push_str(&mut out, prefix);
    let text = sel.to_string();
    push_str(&mut out, text.as_str());
    push_str(&mut out, suffix);
    string_of(out.as_slice())
}

impl<A: Clone, D: Clone> View for UsbRegistry<A, D> {
    type V = Map<u64, UsbEntry<A, D>>;

    closed spec fn view(&self) -> Map<u64, UsbEntry<A, D>> {
        self.entries@
    }
}

impl<A, D> UsbRegistry<A, D> {
    #[verifier::type_invariant]
    spec fn keyed(self) -> bool {
        keyed_by_id(self.entries@)
    }
}

impl<A: Clone, D: Clone> UsbRegistry<A, D> {
    /// Every entry sits under its registry ID.
    pub fn keyed_by_registry_id(&self)
        ensures
            keyed_by_id(self@),
    {
        proof {
            use_type_invariant(self);
        }
    }

    /// Creates an empty registry.
    pub fn new() -> (r: Self)
        ensures
            r@ == Map::<u64, UsbEntry<A, D>>::empty(),
    {
        UsbRegistry { entries: BTreeMap::new() }
    }

    /// The registry IDs, in increasing order.
    fn ids(&self) -> (ks: Vec<u64>)
        ensures
            in_id_order(ks@, self@),
    {
        let mut ks: Vec<u64> = Vec::new();
        let ghost all = vstd::std_specs::btree::spec_btree_map_iter(&self.entries).remaining();
        for kv in it: self.entries.iter()
            invariant
                it.seq() == all,
                ks@.len() == it.index(),
                forall|i: int| 0 <= i < it.index() ==> ks@[i] == *all[i].0,
        {
            ks.push(*kv.0);
        }
        let ghost keys = all.map_values(|kv: (&u64, &UsbEntry<A, D>)| *kv.0);
        proof {
            assert(vstd::std_specs::btree::increasing_seq(keys));
            assert(ks@ =~= keys);
            assert forall|i: int, j: int| 0 <= i < j < keys.len() implies keys[i] < keys[j] by {
                assert(keys[i].cmp_spec(&keys[j]) is Less);
            }
            assert forall|i: int| 0 <= i < keys.len() implies self@.contains_key(#[trigger] keys[i]) by {
                assert(self@.contains_key(*all[i].0));
            }
            assert forall|k: u64| #[trigger] self@.contains_key(k) implies keys.contains(k) by {
                assert(all.contains((&k, &self@[k])));
                let i = choose|i: int| 0 <= i < all.len() && all[i] == (&k, &self@[k]);
                assert(keys[i] == k);
            }
        }
        ks
    }

    /// Records a connected accessory (replacing any stale entry with the
    /// same registry ID).
    pub fn connect(&mut self, info: UsbDeviceInfo, accessory: A)
        ensures
            final(self)@ == connect_spec(
                old(self)@,
                UsbEntry { info, accessory, state: AttachState::Available },
            ),
    {
        proof {
            use_type_invariant(&*self);
        }
        let id = info.registry_id;
        let mut m = BTreeMap::new();
        std::mem::swap(&mut m, &mut self.entries);
        m.insert(id, UsbEntry { info, accessory, state: AttachState::Available });
        self.entries = m;
    }

    /// Removes a disconnected accessory, returning its entry (so the caller
    /// can observe whether it was attached and drop the handles).
    pub fn disconnect(&mut self, registry_id: u64) -> (r: Option<UsbEntry<A, D>>)
        ensures
            final(self)@ == remove_spec(old(self)@, registry_id),
            r == (if old(self)@.contains_key(registry_id) {
                Some(old(self)@[registry_id])
            } else {
                None
            }),
    {
        proof {
            use_type_invariant(&*self);
        }
        let mut m = BTreeMap::new();
        std::mem::swap(&mut m, &mut self.entries);
        let r = m.remove(&registry_id);
        self.entries = m;
        r
    }

    /// Lists all connected accessories, in registry-ID order.
    pub fn list(&self) -> (r: Vec<UsbDeviceSnapshot>)
        ensures
            exists|ks: Seq<u64>|
                in_id_order(ks, self@) && r@.len() == ks.len() && forall|i: int|
                    0 <= i < ks.len() ==> r@[i] == snapshot_of(self@[#[trigger] ks[i]]),
    {
        let ks = self.ids();
        let mut r: Vec<UsbDeviceSnapshot> = Vec::new();
        let mut i: usize = 0;
        while i < ks.len()
            invariant
                in_id_order(ks@, self@),
                i <= ks@.len(),
                r@.len() == i,
                forall|k: int| 0 <= k < i ==> r@[k] == snapshot_of(self@[#[trigger] ks@[k]]),
            decreases ks@.len() - i,
        {
            let k = ks[i];
            assert(self@.contains_key(ks@[i as int]));
            match self.entries.get(&k) {
                Some(entry) => {
                    let attached = match entry.state {
                        AttachState::Attached(_) => true,
                        _ => false,
                    };
                    r.push(UsbDeviceSnapshot { info: entry.info.duplicate(), attached, guest_path: None });
                },
                None => {
                    assert(false);
                },
            }
            i = i + 1;
        }
        r
    }

    fn resolve_id(&self, selector: &UsbSelector) -> (r: Result<u64, CoreError>)
        ensures
            match r {
                Ok(k) => resolve_spec(self@, *selector) == Ok::<u64, ResolveFailure>(k)
                    && self@.contains_key(k),
                Err(e) => resolve_spec(self@, *selector) matches Err(f) && resolve_error_ok(
                    e,
                    f,
                    *selector,
                ),
            },
    {
        let ks = self.ids();
        let n = ks.len();
        let mut first: Option<usize> = None;
        let mut i: usize = 0;
        while i < n
            invariant
                in_id_order(ks@, self@),
                n == ks@.len(),
                i <= n,
                match first {
                    None => forall|k: int| 0 <= k < i ==> !is_match(self@, *selector, #[trigger] ks@[k]),
                    Some(f) => f < i && is_match(self@, *selector, ks@[f as int]) && forall|k: int|
                        0 <= k < i && k != f ==> !is_match(self@, *selector, #[trigger] ks@[k]),
                },
            decreases n - i,
        {
            let k = ks[i];
            assert(self@.contains_key(ks@[i as int]));
            let matched = match self.entries.get(&k) {
                Some(entry) => selector.matches(&entry.info),
                None => false,
            };
            if matched {
                match first {
                    None => {
                        first = Some(i);
                    },
                    Some(f) => {
                        let m = message_with_selector(
                            "USB selector ",
                            selector,
                            " matches multiple devices; disambiguate with a serial (vid:pid:serial)",
                        );
                        proof {
                            let a = ks@[f as int];
                            let b = ks@[i as int];
                            assert(a < b);
                            assert(is_match(self@, *selector, a) && is_match(self@, *selector, b));
                            assert(exists|a: u64, b: u64|
                                a != b && is_match(self@, *selector, a) && is_match(self@, *selector, b));
                        }
                        return Err(CoreError::InvalidState(m));
                    },
                }
            }
            i = i + 1;
        }
        match first {
            None => {
                let m = message_with_selector("USB device ", selector, "");
                proof {
                    reveal_strlit("");
                    assert(m@ =~= not_found_message(*selector));
                    assert forall|k: u64| !is_match(self@, *selector, k) by {
                        if self@.contains_key(k) {
                            assert(ks@.contains(k));
                            let j = choose|j: int| 0 <= j < ks@.len() && ks@[j] == k;
                            assert(!is_match(self@, *selector, ks@[j]));
                        }
                    }
                }
                Err(CoreError::NotFound(m))
            },
            Some(f) => {
                let k = ks[f];
                proof {
                    assert forall|a: u64| is_match(self@, *selector, a) implies a == k by {
                        assert(ks@.contains(a));
                        let j = choose|j: int| 0 <= j < ks@.len() && ks@[j] == a;
                        if j != f {
                            assert(!is_match(self@, *selector, ks@[j]));
                        }
                    }
                    let c = choose|c: u64| is_match(self@, *selector, c);
                    assert(is_match(self@, *selector, k));
                    assert(c == k);
                }
                Ok(k)
            },
        }
    }

    /// Resolves a selector to exactly one connected accessory.
    ///
    /// Returns a not-found error when nothing matches and an invalid-state
    /// error when the selector is ambiguous.
    pub fn resolve(&self, selector: &UsbSelector) -> (r: Result<u64, CoreError>)
        ensures
            match r {
                Ok(id) => resolve_spec(self@, *selector) == Ok::<u64, ResolveFailure>(id),
                Err(e) => resolve_spec(self@, *selector) matches Err(f) && resolve_error_ok(
                    e,
                    f,
                    *selector,
                ),
            },
    {
        self.resolve_id(selector)
    }

    fn set_state(&mut self, id: u64, st: AttachState<D>)
        ensures
            final(self)@ == set_state_spec(old(self)@, id, st),
    {
        proof {
            use_type_invariant(&*self);
        }
        let mut m = BTreeMap::new();
        std::mem::swap(&mut m, &mut self.entries);
        match m.remove(&id) {
            Some(entry) => {
                let UsbEntry { info, accessory, state: _ } = entry;
                m.insert(id, UsbEntry { info, accessory, state: st });
                proof {
                    assert(m@ =~= set_state_spec(old(self)@, id, st));
                }
            },
            None => {
                assert(m@ =~= old(self)@);
            },
        }
        self.entries = m;
    }

    /// Starts an attach: resolves the selector, moves the entry from
    /// `Available` to `Attaching`, and hands out the accessory handle.
    ///
    /// Fails, leaving the registry unchanged, when the selector does not
    /// resolve or the device is already attached or being attached.
    pub fn begin_attach(&mut self, selector: &UsbSelector) -> (r: Result<(u64, A), CoreError>)
        ensures
            match resolve_spec(old(self)@, *selector) {
                Err(f) => final(self)@ == old(self)@ && (r matches Err(e) && resolve_error_ok(
                    e,
                    f,
                    *selector,
                )),
                Ok(k) => match old(self)@[k].state {
                    AttachState::Available => final(self)@ == set_state_spec(
                        old(self)@,
                        k,
                        AttachState::Attaching,
                    ) && (r matches Ok((id, a)) && id == k && cloned(old(self)@[k].accessory, a)),
                    AttachState::Attaching => final(self)@ == old(self)@ && (r matches Err(e)
                        && e matches CoreError::InvalidState(m) && m@
                        == attach_in_progress_message(*selector)),
                    AttachState::Attached(_) => final(self)@ == old(self)@ && (r matches Err(e)
                        && e matches CoreError::InvalidState(m) && m@ == already_attached_message(
                        *selector,
                    )),
                },
            },
    {
        let id = match self.resolve_id(selector) {
            Ok(k) => k,
            Err(e) => return Err(e),
        };
        let (available, attaching, accessory) = match self.entries.get(&id) {
            Some(entry) => match entry.state {
                AttachState::Available => (true, false, Some(entry.accessory.clone())),
                AttachState::Attaching => (false, true, None),
                AttachState::Attached(_) => (false, false, None),
            },
            None => {
                assert(false);
                return Err(CoreError::LockPoisoned);
            },
        };
        if available {
            match accessory {
                Some(a) => {
                    self.set_state(id, AttachState::Attaching);
                    Ok((id, a))
                },
                None => {
                    assert(false);
                    Err(CoreError::LockPoisoned)
                },
            }
        } else if attaching {
            let m = message_with_selector("USB device ", selector, " attach already in progress");
            Err(CoreError::InvalidState(m))
        } else {
            let m = message_with_selector("USB device ", selector, " is already attached");
            Err(CoreError::InvalidState(m))
        }
    }

    /// Completes an attach. When the entry vanished meanwhile (accessory
    /// disconnected mid-attach) the device handle is simply dropped.
    pub fn complete_attach(&mut self, registry_id: u64, device: D)
        ensures
            final(self)@ == set_state_spec(old(self)@, registry_id, AttachState::Attached(device)),
    {
        self.set_state(registry_id, AttachState::Attached(device));
    }

    /// Reverts a failed attach to `Available`.
    pub fn abort_attach(&mut self, registry_id: u64)
        ensures
            final(self)@ == abort_attach_spec(old(self)@, registry_id),
    {
        let attaching = match self.entries.get(&registry_id) {
            Some(entry) => match entry.state {
                AttachState::Attaching => true,
                _ => false,
            },
            None => false,
        };
        if attaching {
            self.set_state(registry_id, AttachState::Available);
        }
    }

    /// Starts a detach: resolves the selector and hands out the attached
    /// device handle. The registry is unchanged: the entry stays `Attached`
    /// until [`complete_detach`](Self::complete_detach), so a failed detach
    /// keeps the bookkeeping truthful.
    pub fn begin_detach(&mut self, selector: &UsbSelector) -> (r: Result<(u64, D), CoreError>)
        ensures
            final(self)@ == old(self)@,
            match resolve_spec(old(self)@, *selector) {
                Err(f) => r matches Err(e) && resolve_error_ok(e, f, *selector),
                Ok(k) => match old(self)@[k].state {
                    AttachState::Attached(d) => r matches Ok((id, d2)) && id == k && cloned(d, d2),
                    _ => r matches Err(e) && e matches CoreError::InvalidState(m) && m@
                        == not_attached_message(*selector),
                },
            },
    {
        let id = match self.resolve_id(selector) {
            Ok(k) => k,
            Err(e) => return Err(e),
        };
        match self.entries.get(&id) {
            Some(entry) => match &entry.state {
                AttachState::Attached(device) => Ok((id, device.clone())),
                _ => {
                    let m = message_with_selector("USB device ", selector, " is not attached");
                    Err(CoreError::InvalidState(m))
                },
            },
            None => {
                assert(false);
                Err(CoreError::LockPoisoned)
            },
        }
    }

    /// Completes a detach, dropping the device handle.
    pub fn complete_detach(&mut self, registry_id: u64)
        ensures
            final(self)@ == set_state_spec(old(self)@, registry_id, AttachState::Available),
    {
        self.set_state(registry_id, AttachState::Available);
    }

    /// Drops every attachment, reverting all entries to `Available`.
    ///
    /// Called when the System VM stops: attachments are runtime-only, and
    /// the device handles refer to a VM that no longer exists.
    pub fn reset_attachments(&mut self)
        ensures
            final(self)@ == reset_spec(old(self)@),
    {
        let ks = self.ids();
        let ghost start = self@;
        let n = ks.len();
        let mut i: usize = 0;
        while i < n
            invariant
                n == ks@.len(),
                in_id_order(ks@, start),
                i <= n,
                self@.dom() == start.dom(),
                forall|k: u64|
                    #[trigger] start.contains_key(k) ==> self@[k] == if ks@.take(i as int).contains(k) {
                        with_state(start[k], AttachState::Available)
                    } else {
                        start[k]
                    },
            decreases n - i,
        {
            let k = ks[i];
            let ghost before = self@;
            self.set_state(k, AttachState::Available);
            proof {
                assert(start.contains_key(ks@[i as int]));
                assert forall|x: u64| #[trigger] start.contains_key(x) implies self@[x] == if ks@.take(
                    i + 1,
                ).contains(x) {
                    with_state(start[x], AttachState::Available)
                } else {
                    start[x]
                } by {
                    if x == k {
                        assert(ks@.take(i + 1)[i as int] == x);
                        if ks@.take(i as int).contains(x) {
                            let j = choose|j: int| 0 <= j < i && #[trigger] ks@.take(i as int)[j] == x;
                            assert(ks@[j] < ks@[i as int]);
                        }
                    } else {
                        if ks@.take(i + 1).contains(x) {
                            let j = choose|j: int| 0 <= j < i + 1 && #[trigger] ks@.take(i + 1)[j] == x;
                            assert(j != i);
                            assert(ks@.take(i as int)[j] == x);
                        }
                        if ks@.take(i as int).contains(x) {
                            let j = choose|j: int| 0 <= j < i && #[trigger] ks@.take(i as int)[j] == x;
                            assert(ks@.take(i + 1)[j] == x);
                        }
                    }
                }
                assert(self@.dom() =~= start.dom());
            }
            i = i + 1;
        }
        proof {
            assert(ks@.take(n as int) =~= ks@);
            assert(self@ =~= reset_spec(start));
        }
    }
}

} // verus!
