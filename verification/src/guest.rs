//! Guest-side USB device listing: turning the sysfs attributes of one
//! device directory into a record, and ordering the records.
//!
//! Device entries (`1-1`, `usb1`) carry `busnum`/`devnum`/`idVendor`/
//! `idProduct` attribute files; interface entries (`1-1:1.0`) do not, and
//! are skipped by the same missing-attribute check that skips unreadable or
//! malformed entries.

use vstd::prelude::*;
use vstd::multiset::Multiset;
use crate::text::{
    char_range, chars_of, digit_value, digits, digits_value, format_number, hex_digit,
    lemma_digits_roundtrip, lemma_leading_zeros, padded_number, parse_unsigned,
    parse_unsigned_spec, push_chars, push_str, string_of,
};

verus! {

/// One USB device visible in the guest.
#[derive(Debug, Clone)]
pub struct GuestUsbDevice {
    /// USB vendor ID (`idVendor`).
    pub vendor_id: u32,
    /// USB product ID (`idProduct`).
    pub product_id: u32,
    /// Serial number, empty when the device has none.
    pub serial: String,
    /// Guest device node, `/dev/bus/usb/BBB/DDD`.
    pub dev_path: String,
}

/// Whether `c` is white space as `char::is_whitespace` defines it (the
/// Unicode `White_Space` property).
pub open spec fn is_white(c: char) -> bool {
    let u = c as u32;
    (9 <= u <= 13) || u == 32 || u == 0x85 || u == 0xA0 || u == 0x1680 || (0x2000 <= u <= 0x200A)
        || u == 0x2028 || u == 0x2029 || u == 0x202F || u == 0x205F || u == 0x3000
}

/// `s` without leading white space.
pub open spec fn trim_start(s: Seq<char>) -> Seq<char>
    decreases s.len(),
{
    if s.len() > 0 && is_white(s[0]) {
        trim_start(s.drop_first())
    } else {
        s
    }
}

/// `s` without trailing white space.
pub open spec fn trim_end(s: Seq<char>) -> Seq<char>
    decreases s.len(),
{
    if s.len() > 0 && is_white(s.last()) {
        trim_end(s.drop_last())
    } else {
        s
    }
}

/// `s` without leading and trailing white space (as `str::trim`).
pub open spec fn trim(s: Seq<char>) -> Seq<char> {
    trim_end(trim_start(s))
}

fn white(c: char) -> (b: bool)
    ensures
        b == is_white(c),
{
    let u = c as u32;
    (9 <= u && u <= 13) || u == 32 || u == 0x85 || u == 0xA0 || u == 0x1680 || (0x2000 <= u && u
        <= 0x200A) || u == 0x2028 || u == 0x2029 || u == 0x202F || u == 0x205F || u == 0x3000
}

/// The characters of `s` without leading and trailing white space.
pub fn trim_chars(s: &str) -> (r: Vec<char>)
    ensures
        r@ == trim(s@),
{
    let cs = chars_of(s);
    let n = cs.len();
    let mut a: usize = 0;
    assert(cs@.subrange(0, n as int) =~= cs@);
    while a < n && white(cs[a])
        invariant
            a <= n,
            n == cs@.len(),
            trim_start(cs@) == trim_start(cs@.subrange(a as int, n as int)),
        decreases n - a,
    {
        assert(cs@.subrange(a as int, n as int).drop_first() =~= cs@.subrange(a + 1, n as int));
        a = a + 1;
    }
    assert(cs@.subrange(0, n as int) =~= cs@);
    let mut b: usize = n;
    while b > a && white(cs[b - 1])
        invariant
            a <= b <= n,
            n == cs@.len(),
            trim_start(cs@) == cs@.subrange(a as int, n as int),
            trim(cs@) == trim_end(cs@.subrange(a as int, b as int)),
        decreases b - a,
    {
        assert(cs@.subrange(a as int, b as int).drop_last() =~= cs@.subrange(a as int, b - 1));
        b = b - 1;
    }
    char_range(cs.as_slice(), a, b)
}

/// The value of an attribute, trimmed and parsed as an unsigned integer in
/// base `radix` no greater than `max`.
pub open spec fn attr_value(attr: Option<Seq<char>>, radix: nat, max: nat) -> Option<nat> {
    match attr {
        None => None,
        Some(s) => parse_unsigned_spec(trim(s), radix, max),
    }
}

/// The guest device node of bus `bus`, device `dev`.
pub open spec fn dev_path_text(bus: nat, dev: nat) -> Seq<char> {
    "/dev/bus/usb/"@ + padded_number(bus, 10, 3) + seq!['/'] + padded_number(dev, 10, 3)
}

/// The text of an optional attribute.
pub open spec fn opt_str(o: Option<&str>) -> Option<Seq<char>> {
    match o {
        Some(s) => Some(s@),
        None => None,
    }
}

/// The contents of the attribute files of one device directory, as text
/// (`None` for a missing or unreadable file).
pub ghost struct UsbAttrs {
    pub busnum: Option<Seq<char>>,
    pub devnum: Option<Seq<char>>,
    pub id_vendor: Option<Seq<char>>,
    pub id_product: Option<Seq<char>>,
    pub serial: Option<Seq<char>>,
}

/// The record a directory's attributes give: bus and device numbers are
/// decimal `u32`, vendor and product IDs hex `u16`, all trimmed; the serial
/// is trimmed (empty when absent).
pub open spec fn parses_to(a: UsbAttrs, d: GuestUsbDevice) -> bool {
    &&& attr_value(a.busnum, 10, 0xffff_ffff) matches Some(bus)
    &&& attr_value(a.devnum, 10, 0xffff_ffff) matches Some(dev)
    &&& attr_value(a.id_vendor, 16, 0xffff) == Some(d.vendor_id as nat)
    &&& attr_value(a.id_product, 16, 0xffff) == Some(d.product_id as nat)
    &&& d.serial@ == (match a.serial {
        Some(s) => trim(s),
        None => Seq::<char>::empty(),
    })
    &&& d.dev_path@ == dev_path_text(bus, dev)
}

/// A directory whose attributes give no record: a required attribute is
/// missing or malformed.
pub open spec fn parse_fails(a: UsbAttrs) -> bool {
    ||| attr_value(a.busnum, 10, 0xffff_ffff) is None
    ||| attr_value(a.devnum, 10, 0xffff_ffff) is None
    ||| attr_value(a.id_vendor, 16, 0xffff) is None
    ||| attr_value(a.id_product, 16, 0xffff) is None
}

fn parse_attr(attr: Option<&str>, radix: u32, max: u32) -> (r: Option<u32>)
    requires
        2 <= radix <= 36,
    ensures
        match r {
            Some(v) => attr_value(opt_str(attr), radix as nat, max as nat) == Some(v as nat),
            None => attr_value(opt_str(attr), radix as nat, max as nat) is None,
        },
{
    match attr {
        None => None,
        Some(s) => {
            let t = trim_chars(s);
            parse_unsigned(t.as_slice(), radix, max)
        },
    }
}

/// Builds the record of one sysfs USB device directory from the contents of
/// its attribute files (`None` for a missing or unreadable file).
///
/// Returns `None` when a required attribute is missing or malformed: bus and
/// device numbers are decimal `u32`, vendor and product IDs hex `u16`. The
/// serial is optional (empty when absent). Attribute values are trimmed.
pub fn parse_usb_device(
    busnum: Option<&str>,
    devnum: Option<&str>,
    id_vendor: Option<&str>,
    id_product: Option<&str>,
    serial: Option<&str>,
) -> (r: Option<GuestUsbDevice>)
    ensures
        match r {
            Some(d) => parses_to(
                UsbAttrs {
                    busnum: opt_str(busnum),
                    devnum: opt_str(devnum),
                    id_vendor: opt_str(id_vendor),
                    id_product: opt_str(id_product),
                    serial: opt_str(serial),
                },
                d,
            ),
            None => parse_fails(
                UsbAttrs {
                    busnum: opt_str(busnum),
                    devnum: opt_str(devnum),
                    id_vendor: opt_str(id_vendor),
                    id_product: opt_str(id_product),
                    serial: opt_str(serial),
                },
            ),
        },
{
    let bus = match parse_attr(busnum, 10, 0xffff_ffff) {
        Some(v) => v,
        None => return None,
    };
    let dev = match parse_attr(devnum, 10, 0xffff_ffff) {
        Some(v) => v,
        None => return None,
    };
    let vendor = match parse_attr(id_vendor, 16, 0xffff) {
        Some(v) => v,
        None => return None,
    };
    let product = match parse_attr(id_product, 16, 0xffff) {
        Some(v) => v,
        None => return None,
    };
    let serial_text = match serial {
        Some(s) => {
            let t = trim_chars(s);
            string_of(t.as_slice())
        },
        None => String::new(),
    };
    let mut path: Vec<char> = Vec::new();
    push_str(&mut path, "/dev/bus/usb/");
    let b = format_number(bus, 10, 3);
    push_chars(&mut path, b.as_slice());
    path.push('/');
    let d = format_number(dev, 10, 3);
    push_chars(&mut path, d.as_slice());
    let dev_path = string_of(path.as_slice());
    assert(dev_path@ =~= dev_path_text(bus as nat, dev as nat));
    Some(GuestUsbDevice { vendor_id: vendor, product_id: product, serial: serial_text, dev_path })
}

/// Lexicographic order on texts (code-point order, the order `str`
/// comparison gives): `a` comes no later than `b`.
pub open spec fn text_le(a: Seq<char>, b: Seq<char>) -> bool
    decreases a.len(),
{
    if a.len() == 0 {
        true
    } else if b.len() == 0 {
        false
    } else if (a[0] as u32) < (b[0] as u32) {
        true
    } else if (a[0] as u32) > (b[0] as u32) {
        false
    } else {
        text_le(a.drop_first(), b.drop_first())
    }
}

/// Any two texts are ordered one way or the other.
pub proof fn lemma_text_le_total(a: Seq<char>, b: Seq<char>)
    ensures
        text_le(a, b) || text_le(b, a),
    decreases a.len(),
{
    if a.len() > 0 && b.len() > 0 && a[0] as u32 == b[0] as u32 {
        lemma_text_le_total(a.drop_first(), b.drop_first());
    }
}

/// The text order is transitive.
pub proof fn lemma_text_le_trans(a: Seq<char>, b: Seq<char>, c: Seq<char>)
    requires
        text_le(a, b),
        text_le(b, c),
    ensures
        text_le(a, c),
    decreases a.len(),
{
    if a.len() > 0 && b.len() > 0 && c.len() > 0 && a[0] as u32 == b[0] as u32 && b[0] as u32
        == c[0] as u32 {
        lemma_text_le_trans(a.drop_first(), b.drop_first(), c.drop_first());
    }
}

fn chars_le(a: &[char], b: &[char]) -> (r: bool)
    ensures
        r == text_le(a@, b@),
{
    let mut i: usize = 0;
    assert(a@.skip(0) =~= a@);
    assert(b@.skip(0) =~= b@);
    while i < a.len() && i < b.len()
        invariant
            i <= a@.len(),
            i <= b@.len(),
            text_le(a@, b@) == text_le(a@.skip(i as int), b@.skip(i as int)),
        decreases a@.len() - i,
    {
        let x = a[i] as u32;
        let y = b[i] as u32;
        if x < y {
            return true;
        }
        if x > y {
            return false;
        }
        assert(a@.skip(i as int).drop_first() =~= a@.skip(i + 1));
        assert(b@.skip(i as int).drop_first() =~= b@.skip(i + 1));
        i = i + 1;
    }
    i == a.len()
}

/// Device records are in order of their guest device node.
pub open spec fn sorted_by_path(s: Seq<GuestUsbDevice>) -> bool {
    forall|i: int, j: int| 0 <= i < j < s.len() ==> text_le(s[i].dev_path@, s[j].dev_path@)
}

fn insert_position(r: &Vec<GuestUsbDevice>, x: &GuestUsbDevice) -> (k: usize)
    ensures
        k <= r@.len(),
        forall|i: int| 0 <= i < k ==> !text_le(x.dev_path@, #[trigger] r@[i].dev_path@),
        k < r@.len() ==> text_le(x.dev_path@, r@[k as int].dev_path@),
{
    let xp = chars_of(x.dev_path.as_str());
    let mut k: usize = 0;
    while k < r.len()
        invariant
            k <= r@.len(),
            xp@ == x.dev_path@,
            forall|i: int| 0 <= i < k ==> !text_le(x.dev_path@, #[trigger] r@[i].dev_path@),
        decreases r@.len() - k,
    {
        let vp = chars_of(r[k].dev_path.as_str());
        if chars_le(xp.as_slice(), vp.as_slice()) {
            return k;
        }
        k = k + 1;
    }
    k
}

/// Orders device records by guest device node.
pub fn sort_by_dev_path(devices: Vec<GuestUsbDevice>) -> (r: Vec<GuestUsbDevice>)
    ensures
        sorted_by_path(r@),
        r@.to_multiset() == devices@.to_multiset(),
{
    broadcast use vstd::seq_lib::group_to_multiset_ensures;

    let mut r: Vec<GuestUsbDevice> = Vec::new();
    let mut rest = devices;
    let ghost all = rest@;
    proof {
        assert(r@.to_multiset() =~= Multiset::empty());
        assert(r@.to_multiset().add(rest@.to_multiset()) =~= all.to_multiset());
    }
    while rest.len() > 0
        invariant
            sorted_by_path(r@),
            r@.to_multiset().add(rest@.to_multiset()) == all.to_multiset(),
        decreases rest@.len(),
    {
        let ghost before = rest@;
        let x = rest.pop().unwrap();
        proof {
            assert(before =~= rest@.push(x));
        }
        let k = insert_position(&r, &x);
        let ghost old_r = r@;
        r.insert(k, x);
        proof {
            assert forall|i: int, j: int| 0 <= i < j < r@.len() implies text_le(
                r@[i].dev_path@,
                r@[j].dev_path@,
            ) by {
                if j < k {
                    assert(r@[i] == old_r[i] && r@[j] == old_r[j]);
                } else if j == k {
                    lemma_text_le_total(old_r[i].dev_path@, x.dev_path@);
                } else if i < k {
                    assert(r@[i] == old_r[i] && r@[j] == old_r[j - 1]);
                } else if i == k {
                    if j - 1 > k {
                        lemma_text_le_trans(
                            x.dev_path@,
                            old_r[k as int].dev_path@,
                            old_r[j - 1].dev_path@,
                        );
                    }
                } else {
                    assert(r@[i] == old_r[i - 1] && r@[j] == old_r[j - 1]);
                }
            }
            vstd::seq_lib::to_multiset_build(rest@, x);
            vstd::seq_lib::to_multiset_insert(old_r, k as int, x);
            assert(r@.to_multiset() == old_r.to_multiset().insert(x));
            assert(before.to_multiset() == rest@.to_multiset().insert(x));
            assert(r@.to_multiset().add(rest@.to_multiset()) =~= old_r.to_multiset().add(
                before.to_multiset(),
            ));
        }
    }
    proof {
        assert(rest@.to_multiset() =~= Multiset::empty());
        assert(r@.to_multiset() =~= all.to_multiset());
    }
    r
}

/// The attribute files of one sysfs device directory, as read.
#[derive(Debug, Clone)]
pub struct UsbAttrFiles {
    pub busnum: Option<String>,
    pub devnum: Option<String>,
    pub id_vendor: Option<String>,
    pub id_product: Option<String>,
    pub serial: Option<String>,
}

/// An optional string as text.
pub open spec fn opt_string(o: Option<String>) -> Option<Seq<char>> {
    match o {
        Some(s) => Some(s@),
        None => None,
    }
}

/// The attributes of a directory as text.
pub open spec fn attrs_of(f: UsbAttrFiles) -> UsbAttrs {
    UsbAttrs {
        busnum: opt_string(f.busnum),
        devnum: opt_string(f.devnum),
        id_vendor: opt_string(f.id_vendor),
        id_product: opt_string(f.id_product),
        serial: opt_string(f.serial),
    }
}

/// `ps` are the records of the directories `es` that give one, in order.
pub open spec fn parsed_in_order(es: Seq<UsbAttrFiles>, ps: Seq<GuestUsbDevice>) -> bool
    decreases es.len(),
{
    if es.len() == 0 {
        ps.len() == 0
    } else if parse_fails(attrs_of(es.last())) {
        parsed_in_order(es.drop_last(), ps)
    } else {
        ps.len() > 0 && parses_to(attrs_of(es.last()), ps.last()) && parsed_in_order(
            es.drop_last(),
            ps.drop_last(),
        )
    }
}

fn as_opt_str(o: &Option<String>) -> (r: Option<&str>)
    ensures
        opt_str(r) == opt_string(*o),
{
    match o {
        Some(s) => Some(s.as_str()),
        None => None,
    }
}

/// Lists the USB devices of a sysfs `devices` directory from the attribute
/// files of its entries: the entries that give a record (interfaces and
/// malformed entries do not), ordered by guest device node.
pub fn list_usb_devices(entries: &Vec<UsbAttrFiles>) -> (r: Vec<GuestUsbDevice>)
    ensures
        sorted_by_path(r@),
        exists|ps: Seq<GuestUsbDevice>|
            parsed_in_order(entries@, ps) && r@.to_multiset() == #[trigger] ps.to_multiset(),
{
    let mut found: Vec<GuestUsbDevice> = Vec::new();
    let mut i: usize = 0;
    while i < entries.len()
        invariant
            i <= entries@.len(),
            parsed_in_order(entries@.subrange(0, i as int), found@),
        decreases entries@.len() - i,
    {
        let e = &entries[i];
        let parsed = parse_usb_device(
            as_opt_str(&e.busnum),
            as_opt_str(&e.devnum),
            as_opt_str(&e.id_vendor),
            as_opt_str(&e.id_product),
            as_opt_str(&e.serial),
        );
        let ghost prev = found@;
        proof {
            let sub = entries@.subrange(0, i + 1);
            assert(sub.drop_last() =~= entries@.subrange(0, i as int));
            assert(sub.last() == entries@[i as int]);
            assert(attrs_of(*e) == UsbAttrs {
                busnum: opt_string(e.busnum),
                devnum: opt_string(e.devnum),
                id_vendor: opt_string(e.id_vendor),
                id_product: opt_string(e.id_product),
                serial: opt_string(e.serial),
            });
        }
        match parsed {
            Some(d) => {
                proof {
                    // A record means no required attribute failed.
                    assert(!parse_fails(attrs_of(*e)));
                }
                found.push(d);
                proof {
                    assert(found@.drop_last() =~= prev);
                }
            },
            None => {},
        }
        i = i + 1;
    }
    assert(entries@.subrange(0, entries@.len() as int) =~= entries@);
    let ghost ps = found@;
    let r = sort_by_dev_path(found);
    assert(parsed_in_order(entries@, ps) && r@.to_multiset() == ps.to_multiset());
    r
}

/// Whether `c` is one of the digit characters numbers are written with
/// (`0`-`9`, `a`-`f`).
pub open spec fn is_digit_char(c: char) -> bool {
    (48 <= c as u32 <= 57) || (97 <= c as u32 <= 102)
}

proof fn lemma_digit_chars(v: nat, radix: nat)
    requires
        2 <= radix <= 16,
    ensures
        forall|i: int| 0 <= i < digits(v, radix).len() ==> is_digit_char(#[trigger] digits(v, radix)[i]),
    decreases v,
{
    if v > 0 {
        assert(v / radix < v) by (nonlinear_arith)
            requires
                v > 0,
                radix >= 2,
        ;
        lemma_digit_chars(v / radix, radix);
        let d = (v % radix) as int;
        if d < 10 {
            assert(((d + 48) as u8) as char as u32 == d + 48);
        } else {
            assert(((d - 10 + 97) as u8) as char as u32 == d - 10 + 97);
        }
        assert(is_digit_char(hex_digit(d)));
        let s = digits(v, radix);
        assert forall|i: int| 0 <= i < s.len() implies is_digit_char(#[trigger] s[i]) by {
            if i < s.len() - 1 {
                assert(s[i] == digits(v / radix, radix)[i]);
            }
        }
    }
}

/// A number written in base `radix` (zero-padded to `width`) reads back as
/// that number.
proof fn lemma_number_attr(v: nat, radix: nat, width: nat, max: nat)
    requires
        2 <= radix <= 16,
        v <= max,
    ensures
        attr_value(Some(padded_number(v, radix, width)), radix, max) == Some(v),
{
    let d = if v == 0 {
        seq!['0']
    } else {
        digits(v, radix)
    };
    let p = padded_number(v, radix, width);
    lemma_digit_chars(v, radix);
    lemma_digits_roundtrip(v, radix);
    assert(('0' as u32) == 48);
    if v == 0 {
        assert(seq!['0'].drop_last() =~= Seq::<char>::empty());
        assert(digit_value('0', radix) == Some(0nat));
        assert(d.last() == '0');
        assert(digits_value(d.drop_last(), radix) == Some(0nat));
        assert(0nat * radix + 0nat == 0nat);
        assert(digits_value(d, radix) == Some(0nat));
    } else {
        assert(digits(v, radix).len() > 0);
    }
    assert forall|i: int| 0 <= i < d.len() implies is_digit_char(#[trigger] d[i]) by {}
    let n: nat = if d.len() >= width {
        0
    } else {
        (width - d.len()) as nat
    };
    assert(p =~= Seq::new(n, |i: int| '0') + d);
    lemma_leading_zeros(n, d, radix);
    assert forall|i: int| 0 <= i < p.len() implies is_digit_char(#[trigger] p[i]) by {
        if i >= n {
            assert(p[i] == d[i - n]);
        }
    }
    assert(p.len() > 0);
    assert(!is_white(p[0]));
    assert(!is_white(p.last()));
    assert(trim_start(p) == p);
    assert(trim_end(p) == p);
    assert(p[0] != '+');
}

/// The sysfs numbers are read in the bases sysfs writes them: bus and
/// device numbers in decimal, vendor and product IDs in hexadecimal. A
/// directory whose `busnum` and `devnum` hold the decimal numbers `bus` and
/// `dev` and whose `idVendor` and `idProduct` hold the four-digit hex IDs
/// gives a record (it is not refused) with those IDs and the device node
/// `/dev/bus/usb/BBB/DDD` of `bus` and `dev` in zero-padded decimal.
pub proof fn lemma_sysfs_numbers_round_trip(
    a: UsbAttrs,
    d: GuestUsbDevice,
    bus: u32,
    dev: u32,
    vendor: u16,
    product: u16,
)
    requires
        a.busnum == Some(padded_number(bus as nat, 10, 0)),
        a.devnum == Some(padded_number(dev as nat, 10, 0)),
        a.id_vendor == Some(padded_number(vendor as nat, 16, 4)),
        a.id_product == Some(padded_number(product as nat, 16, 4)),
    ensures
        !parse_fails(a),
        parses_to(a, d) ==> {
            &&& d.vendor_id == vendor
            &&& d.product_id == product
            &&& d.dev_path@ == "/dev/bus/usb/"@ + padded_number(bus as nat, 10, 3) + seq!['/']
                + padded_number(dev as nat, 10, 3)
        },
{
    lemma_number_attr(bus as nat, 10, 0, 0xffff_ffff);
    lemma_number_attr(dev as nat, 10, 0, 0xffff_ffff);
    lemma_number_attr(vendor as nat, 16, 4, 0xffff);
    lemma_number_attr(product as nat, 16, 4, 0xffff);
}

} // verus!
