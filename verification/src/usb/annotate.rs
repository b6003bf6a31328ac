//! Matching attached host accessories to the guest's USB listing.

use vstd::prelude::*;
use super::{opt_text, GuestUsbDevice, UsbDeviceSnapshot};

verus! {

/// Whether guest device `d` can serve snapshot `s`: same vendor and
/// product, and in the exact pass also the same (present) serial.
pub open spec fn device_fits(d: GuestUsbDevice, s: UsbDeviceSnapshot, exact: bool) -> bool {
    &&& d.vendor_id == s.info.vendor_id
    &&& d.product_id == s.info.product_id
    &&& exact ==> (opt_text(s.info.serial) is Some && opt_text(d.serial) == opt_text(s.info.serial))
}

/// The first unclaimed device at or after `from` that can serve `s`.
pub open spec fn first_free(
    devs: Seq<GuestUsbDevice>,
    claimed: Seq<bool>,
    s: UsbDeviceSnapshot,
    exact: bool,
    from: int,
) -> Option<int>
    decreases devs.len() - from,
{
    if from < 0 || from >= devs.len() {
        None
    } else if !claimed[from] && device_fits(devs[from], s, exact) {
        Some(from)
    } else {
        first_free(devs, claimed, s, exact, from + 1)
    }
}

/// Whether a snapshot takes part in a pass: it is attached and not yet
/// assigned; the exact pass takes snapshots with a serial, the fallback
/// pass those without a guest path.
pub open spec fn pass_eligible(s: UsbDeviceSnapshot, assigned: Option<int>, exact: bool) -> bool {
    &&& s.attached
    &&& assigned is None
    &&& if exact {
        opt_text(s.info.serial) is Some
    } else {
        s.guest_path is None
    }
}

/// One greedy pass over the first `k` snapshots: each eligible snapshot
/// claims the first unclaimed device that can serve it. The state is the
/// device index assigned to each snapshot and the claimed flag of each
/// device.
pub open spec fn annotate_pass(
    snaps: Seq<UsbDeviceSnapshot>,
    devs: Seq<GuestUsbDevice>,
    exact: bool,
    assign: Seq<Option<int>>,
    claimed: Seq<bool>,
    k: int,
) -> (Seq<Option<int>>, Seq<bool>)
    decreases k,
{
    if k <= 0 {
        (assign, claimed)
    } else {
        let (a, c) = annotate_pass(snaps, devs, exact, assign, claimed, k - 1);
        let s = snaps[k - 1];
        if pass_eligible(s, a[k - 1], exact) {
            match first_free(devs, c, s, exact, 0) {
                Some(j) => (a.update(k - 1, Some(j)), c.update(j, true)),
                None => (a, c),
            }
        } else {
            (a, c)
        }
    }
}

/// The device index each snapshot is matched to by the serial-exact pass.
pub open spec fn exact_assignment(snaps: Seq<UsbDeviceSnapshot>, devs: Seq<GuestUsbDevice>) -> (Seq<
    Option<int>,
>, Seq<bool>) {
    annotate_pass(
        snaps,
        devs,
        true,
        Seq::new(snaps.len(), |i: int| None),
        Seq::new(devs.len(), |i: int| false),
        snaps.len() as int,
    )
}

/// The device index each snapshot is matched to after both passes.
pub open spec fn final_assignment(snaps: Seq<UsbDeviceSnapshot>, devs: Seq<GuestUsbDevice>) -> Seq<
    Option<int>,
> {
    let (a, c) = exact_assignment(snaps, devs);
    annotate_pass(snaps, devs, false, a, c, snaps.len() as int).0
}

/// The guest path snapshot `i` carries after annotation: the path of its
/// matched device, or the path it had.
pub open spec fn annotated_path(snaps: Seq<UsbDeviceSnapshot>, devs: Seq<GuestUsbDevice>, i: int) -> Option<
    Seq<char>,
> {
    match final_assignment(snaps, devs)[i] {
        Some(j) => Some(devs[j].dev_path@),
        None => opt_text(snaps[i].guest_path),
    }
}

/// The assignment is consistent: assigned devices are claimed, in range,
/// serve their snapshot, and no device serves two snapshots.
pub open spec fn assignment_ok(
    snaps: Seq<UsbDeviceSnapshot>,
    devs: Seq<GuestUsbDevice>,
    assign: Seq<Option<int>>,
    claimed: Seq<bool>,
) -> bool {
    &&& assign.len() == snaps.len()
    &&& claimed.len() == devs.len()
    &&& forall|i: int|
        0 <= i < assign.len() && #[trigger] assign[i] is Some ==> {
            let j = assign[i]->0;
            &&& 0 <= j < devs.len()
            &&& claimed[j]
            &&& snaps[i].attached
            &&& device_fits(devs[j], snaps[i], false)
        }
    &&& forall|i: int, k: int|
        0 <= i < assign.len() && 0 <= k < assign.len() && i != k && #[trigger] assign[i] is Some
            && #[trigger] assign[k] is Some ==> assign[i]->0 != assign[k]->0
}

/// Facts about [`first_free`].
pub proof fn lemma_first_free(
    devs: Seq<GuestUsbDevice>,
    claimed: Seq<bool>,
    s: UsbDeviceSnapshot,
    exact: bool,
    from: int,
)
    requires
        claimed.len() == devs.len(),
        0 <= from,
    ensures
        first_free(devs, claimed, s, exact, from) matches Some(j) ==> from <= j < devs.len()
            && !claimed[j] && device_fits(devs[j], s, exact),
    decreases devs.len() - from,
{
    if from < devs.len() && !(!claimed[from] && device_fits(devs[from], s, exact)) {
        lemma_first_free(devs, claimed, s, exact, from + 1);
    }
}

/// A pass keeps the assignment consistent and leaves earlier assignments
/// alone.
pub proof fn lemma_pass_ok(
    snaps: Seq<UsbDeviceSnapshot>,
    devs: Seq<GuestUsbDevice>,
    exact: bool,
    assign: Seq<Option<int>>,
    claimed: Seq<bool>,
    k: int,
)
    requires
        assignment_ok(snaps, devs, assign, claimed),
        0 <= k <= snaps.len(),
    ensures
        assignment_ok(
            snaps,
            devs,
            annotate_pass(snaps, devs, exact, assign, claimed, k).0,
            annotate_pass(snaps, devs, exact, assign, claimed, k).1,
        ),
        forall|i: int|
            0 <= i < snaps.len() && #[trigger] assign[i] is Some ==> annotate_pass(
                snaps,
                devs,
                exact,
                assign,
                claimed,
                k,
            ).0[i] == assign[i],
        forall|i: int|
            k <= i < snaps.len() ==> #[trigger] annotate_pass(snaps, devs, exact, assign, claimed, k).0[i]
                == assign[i],
        forall|i: int|
            0 <= i < snaps.len() && #[trigger] annotate_pass(snaps, devs, exact, assign, claimed, k).0[i]
                != assign[i] ==> device_fits(
                devs[annotate_pass(snaps, devs, exact, assign, claimed, k).0[i]->0],
                snaps[i],
                exact,
            ),
    decreases k,
{
    if k > 0 {
        lemma_pass_ok(snaps, devs, exact, assign, claimed, k - 1);
        let (a, c) = annotate_pass(snaps, devs, exact, assign, claimed, k - 1);
        let s = snaps[k - 1];
        if pass_eligible(s, a[k - 1], exact) {
            lemma_first_free(devs, c, s, exact, 0);
            match first_free(devs, c, s, exact, 0) {
                Some(j) => {
                    let a2 = a.update(k - 1, Some(j));
                    let c2 = c.update(j, true);
                    assert forall|i: int|
                        0 <= i < a2.len() && #[trigger] a2[i] is Some implies {
                        let jj = a2[i]->0;
                        &&& 0 <= jj < devs.len()
                        &&& c2[jj]
                        &&& snaps[i].attached
                        &&& device_fits(devs[jj], snaps[i], false)
                    } by {
                        if i != k - 1 {
                            assert(a[i] is Some);
                        }
                    }
                    assert forall|i: int, i2: int|
                        0 <= i < a2.len() && 0 <= i2 < a2.len() && i != i2 && #[trigger] a2[i] is Some
                            && #[trigger] a2[i2] is Some implies a2[i]->0 != a2[i2]->0 by {
                        if i == k - 1 {
                            assert(a[i2] is Some);
                            assert(c[a[i2]->0]);
                        } else if i2 == k - 1 {
                            assert(a[i] is Some);
                            assert(c[a[i]->0]);
                        } else {
                            assert(a[i] is Some && a[i2] is Some);
                        }
                    }
                },
                None => {},
            }
        }
    }
}

/// Matching is consistent: every snapshot that gets a device is attached
/// and has that device's vendor and product, the device is one of the guest
/// devices, and no guest device is given to two snapshots. A snapshot
/// matched by the exact pass also has that device's serial.
pub proof fn lemma_annotation_consistent(snaps: Seq<UsbDeviceSnapshot>, devs: Seq<GuestUsbDevice>)
    ensures
        final_assignment(snaps, devs).len() == snaps.len(),
        forall|i: int|
            0 <= i < snaps.len() && #[trigger] final_assignment(snaps, devs)[i] is Some ==> {
                let j = final_assignment(snaps, devs)[i]->0;
                &&& 0 <= j < devs.len()
                &&& snaps[i].attached
                &&& devs[j].vendor_id == snaps[i].info.vendor_id
                &&& devs[j].product_id == snaps[i].info.product_id
            },
        forall|i: int, k: int|
            0 <= i < snaps.len() && 0 <= k < snaps.len() && i != k
                && #[trigger] final_assignment(snaps, devs)[i] is Some
                && #[trigger] final_assignment(snaps, devs)[k] is Some ==> final_assignment(
                snaps,
                devs,
            )[i]->0 != final_assignment(snaps, devs)[k]->0,
        forall|i: int|
            0 <= i < snaps.len() && #[trigger] exact_assignment(snaps, devs).0[i] is Some
                ==> final_assignment(snaps, devs)[i] == exact_assignment(snaps, devs).0[i]
                && device_fits(devs[exact_assignment(snaps, devs).0[i]->0], snaps[i], true),
{
    let a0 = Seq::<Option<int>>::new(snaps.len(), |i: int| None);
    let c0 = Seq::<bool>::new(devs.len(), |i: int| false);
    assert(assignment_ok(snaps, devs, a0, c0));
    lemma_pass_ok(snaps, devs, true, a0, c0, snaps.len() as int);
    let (a1, c1) = exact_assignment(snaps, devs);
    assert forall|i: int| 0 <= i < snaps.len() && #[trigger] a1[i] is Some implies device_fits(
        devs[a1[i]->0],
        snaps[i],
        true,
    ) by {
        assert(a0[i] is None);
    }
    lemma_pass_ok(snaps, devs, false, a1, c1, snaps.len() as int);
}

/// The device indices of an exec assignment.
pub open spec fn assign_view(a: Seq<Option<usize>>) -> Seq<Option<int>> {
    Seq::new(
        a.len(),
        |i: int|
            match a[i] {
                Some(j) => Some(j as int),
                None => None,
            },
    )
}

fn fits(dev: &GuestUsbDevice, snap: &UsbDeviceSnapshot, exact: bool) -> (b: bool)
    ensures
        b == device_fits(*dev, *snap, exact),
{
    if dev.vendor_id != snap.info.vendor_id || dev.product_id != snap.info.product_id {
        return false;
    }
    if !exact {
        return true;
    }
    match (&snap.info.serial, &dev.serial) {
        (Some(s), Some(d)) => d.eq(s),
        _ => false,
    }
}

fn find_free_device(
    devs: &[GuestUsbDevice],
    claimed: &Vec<bool>,
    snap: &UsbDeviceSnapshot,
    exact: bool,
) -> (r: Option<usize>)
    requires
        claimed@.len() == devs@.len(),
    ensures
        match r {
            Some(j) => first_free(devs@, claimed@, *snap, exact, 0) == Some(j as int) && j
                < devs@.len(),
            None => first_free(devs@, claimed@, *snap, exact, 0) is None,
        },
{
    let m = devs.len();
    let mut j: usize = 0;
    while j < m
        invariant
            m == devs@.len(),
            claimed@.len() == m,
            j <= m,
            first_free(devs@, claimed@, *snap, exact, 0) == first_free(
                devs@,
                claimed@,
                *snap,
                exact,
                j as int,
            ),
        decreases m - j,
    {
        if !claimed[j] && fits(&devs[j], snap, exact) {
            return Some(j);
        }
        j = j + 1;
    }
    None
}

fn run_pass(
    snaps: &Vec<UsbDeviceSnapshot>,
    devs: &[GuestUsbDevice],
    exact: bool,
    assign: &mut Vec<Option<usize>>,
    claimed: &mut Vec<bool>,
)
    requires
        old(assign)@.len() == snaps@.len(),
        old(claimed)@.len() == devs@.len(),
        forall|i: int| 0 <= i < old(assign)@.len() ==> (#[trigger] old(assign)@[i] matches Some(j) ==> j < devs@.len()),
    ensures
        final(assign)@.len() == snaps@.len(),
        final(claimed)@.len() == devs@.len(),
        forall|i: int| 0 <= i < snaps@.len() ==> (#[trigger] final(assign)@[i] matches Some(j) ==> j < devs@.len()),
        (assign_view(final(assign)@), final(claimed)@) == annotate_pass(
            snaps@,
            devs@,
            exact,
            assign_view(old(assign)@),
            old(claimed)@,
            snaps@.len() as int,
        ),
{
    let ghost a0 = assign_view(assign@);
    let ghost c0 = claimed@;
    let n = snaps.len();
    let mut i: usize = 0;
    while i < n
        invariant
            n == snaps@.len(),
            i <= n,
            assign@.len() == n,
            claimed@.len() == devs@.len(),
            forall|k: int| 0 <= k < n ==> (#[trigger] assign@[k] matches Some(j) ==> j < devs@.len()),
            (assign_view(assign@), claimed@) == annotate_pass(snaps@, devs@, exact, a0, c0, i as int),
        decreases n - i,
    {
        let snap = &snaps[i];
        let unassigned = assign[i].is_none();
        let eligible = snap.attached && unassigned && if exact {
            snap.info.serial.is_some()
        } else {
            snap.guest_path.is_none()
        };
        if eligible {
            match find_free_device(devs, claimed, snap, exact) {
                Some(j) => {
                    assign.set(i, Some(j));
                    claimed.set(j, true);
                    assert(assign_view(assign@) =~= annotate_pass(snaps@, devs@, exact, a0, c0, i as int).0.update(i as int, Some(j as int)));
                },
                None => {},
            }
        }
        i = i + 1;
    }
}

/// Fills the guest path of attached snapshots by matching them against the
/// guest USB listing.
///
/// Serial-exact matches win; remaining attached snapshots without a guest
/// path fall back to the first unclaimed `vid:pid` match. Each guest device
/// is claimed by at most one snapshot, so duplicate serial-less devices pair
/// off greedily instead of all reporting the same node.
pub fn annotate_guest_paths(snapshots: &mut Vec<UsbDeviceSnapshot>, guest_devices: &[GuestUsbDevice])
    ensures
        final(snapshots)@.len() == old(snapshots)@.len(),
        forall|i: int|
            0 <= i < old(snapshots)@.len() ==> (#[trigger] final(snapshots)@[i]).info == old(
                snapshots,
            )@[i].info && final(snapshots)@[i].attached == old(snapshots)@[i].attached && opt_text(
                final(snapshots)@[i].guest_path,
            ) == annotated_path(old(snapshots)@, guest_devices@, i),
{
    let n = snapshots.len();
    let m = guest_devices.len();
    let mut claimed: Vec<bool> = Vec::new();
    let mut t: usize = 0;
    while t < m
        invariant
            t <= m,
            claimed@ == Seq::new(t as nat, |i: int| false),
        decreases m - t,
    {
        claimed.push(false);
        t = t + 1;
        assert(claimed@ =~= Seq::new(t as nat, |i: int| false));
    }
    let mut assign: Vec<Option<usize>> = Vec::new();
    let mut u: usize = 0;
    while u < n
        invariant
            u <= n,
            assign@ == Seq::new(u as nat, |i: int| None::<usize>),
        decreases n - u,
    {
        assign.push(None);
        u = u + 1;
        assert(assign@ =~= Seq::new(u as nat, |i: int| None::<usize>));
    }
    assert(assign_view(assign@) =~= Seq::new(n as nat, |i: int| None::<int>));
    assert(claimed@ =~= Seq::new(m as nat, |i: int| false));
    run_pass(snapshots, guest_devices, true, &mut assign, &mut claimed);
    run_pass(snapshots, guest_devices, false, &mut assign, &mut claimed);
    let ghost snaps = snapshots@;
    let ghost fin = assign_view(assign@);
    assert(fin == final_assignment(snaps, guest_devices@));
    let mut i: usize = 0;
    while i < n
        invariant
            n == snaps.len(),
            i <= n,
            assign@.len() == n,
            fin == assign_view(assign@),
            fin == final_assignment(snaps, guest_devices@),
            forall|k: int| 0 <= k < n ==> (#[trigger] assign@[k] matches Some(j) ==> j < guest_devices@.len()),
            snapshots@.len() == n,
            forall|k: int|
                0 <= k < n ==> (#[trigger] snapshots@[k]).info == snaps[k].info
                    && snapshots@[k].attached == snaps[k].attached,
            forall|k: int|
                0 <= k < i ==> opt_text((#[trigger] snapshots@[k]).guest_path) == annotated_path(
                    snaps,
                    guest_devices@,
                    k,
                ),
            forall|k: int| i <= k < n ==> (#[trigger] snapshots@[k]).guest_path == snaps[k].guest_path,
        decreases n - i,
    {
        match assign[i] {
            Some(j) => {
                let path = guest_devices[j].dev_path.clone();
                snapshots[i].guest_path = Some(path);
                assert(fin[i as int] == Some(j as int));
            },
            None => {},
        }
        i = i + 1;
    }
}

} // verus!
