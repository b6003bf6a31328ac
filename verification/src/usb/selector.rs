//! `vid:pid[:serial]` USB device selector.

use vstd::prelude::*;
use crate::error::CoreError;
use crate::text::{
    char_range, chars_of, digits_value, find_char, format_number, index_of, index_of_from,
    lemma_digits_bound, lemma_digits_prefix, lemma_hex4, lemma_index_of_from,
    padded_number, parse_unsigned, power,
    push_chars, push_str, string_of,
};
use super::{opt_text, UsbDeviceInfo};

verus! {

/// Selects a USB device by vendor/product ID with an optional serial to
/// disambiguate identical devices. Parsed from `vid:pid[:serial]` where
/// `vid`/`pid` are 4-digit-max hex (e.g. `0403:6001` or `0403:6001:FTA1B2C3`).
#[derive(Debug, Clone)]
pub struct UsbSelector {
    /// USB vendor ID (`idVendor`).
    pub vendor_id: u16,
    /// USB product ID (`idProduct`).
    pub product_id: u16,
    /// Serial number, required only when several `vid:pid` devices are
    /// connected.
    pub serial: Option<String>,
}

/// Whether a selector matches a device identity: same vendor and product,
/// and, when the selector names a serial, the device reports that serial.
pub open spec fn selector_matches(sel: UsbSelector, info: UsbDeviceInfo) -> bool {
    &&& sel.vendor_id == info.vendor_id
    &&& sel.product_id == info.product_id
    &&& match opt_text(sel.serial) {
        None => true,
        Some(s) => opt_text(info.serial) == Some(s),
    }
}

/// The text of a selector: `vvvv:pppp` in lowercase hex, then `:serial`
/// when a serial is set.
pub open spec fn selector_text(vendor_id: u16, product_id: u16, serial: Option<Seq<char>>) -> Seq<
    char,
> {
    let base = padded_number(vendor_id as nat, 16, 4) + seq![':'] + padded_number(
        product_id as nat,
        16,
        4,
    );
    match serial {
        None => base,
        Some(s) => base + seq![':'] + s,
    }
}

/// The value of a `vid` or `pid` part: 1 to 4 characters, each a hex digit.
pub open spec fn hex_part(p: Seq<char>) -> Option<nat> {
    if 1 <= p.len() <= 4 {
        digits_value(p, 16)
    } else {
        None
    }
}

/// The parts of a selector text: the vendor part before the first `:`, the
/// product part up to the next `:` (or the end), and the serial after it
/// (which may itself contain `:`), or `None` when there is no `:`.
pub open spec fn selector_parts(s: Seq<char>) -> Option<(Seq<char>, Seq<char>, Option<Seq<char>>)> {
    match index_of(s, ':') {
        None => None,
        Some(i) => {
            let rest = s.skip(i + 1);
            match index_of(rest, ':') {
                None => Some((s.take(i), rest, None)),
                Some(j) => Some((s.take(i), rest.take(j), Some(rest.skip(j + 1)))),
            }
        },
    }
}

/// What a selector text parses to: vendor, product and serial (an empty
/// serial counts as absent), or `None` when the text is malformed.
pub open spec fn parse_selector_spec(s: Seq<char>) -> Option<(u16, u16, Option<Seq<char>>)> {
    match selector_parts(s) {
        None => None,
        Some((v, p, serial)) => match (hex_part(v), hex_part(p)) {
            (Some(vid), Some(pid)) => Some(
                (
                    vid as u16,
                    pid as u16,
                    match serial {
                        Some(t) => if t.len() == 0 {
                            None
                        } else {
                            Some(t)
                        },
                        None => None,
                    },
                ),
            ),
            _ => None,
        },
    }
}

/// The message of the error for a malformed selector text.
pub open spec fn invalid_selector_message(s: Seq<char>) -> Seq<char> {
    "invalid USB selector '"@ + s
        + "': expected vid:pid[:serial] with 4-digit-max hex vid/pid (e.g. 0403:6001)"@
}

fn parse_hex_part(p: &[char]) -> (r: Option<u16>)
    ensures
        match r {
            Some(v) => hex_part(p@) == Some(v as nat),
            None => hex_part(p@) is None,
        },
{
    if p.len() == 0 {
        return None;
    }
    if p.len() > 4 {
        return None;
    }
    if p[0] == '+' {
        proof {
            if digits_value(p@, 16) is Some {
                lemma_digits_prefix(p@, 16, 1);
                assert(p@.take(1).drop_last() =~= Seq::<char>::empty());
            }
        }
        return None;
    }
    proof {
        if digits_value(p@, 16) is Some {
            lemma_digits_bound(p@, 16);
            reveal_with_fuel(power, 5);
        }
    }
    match parse_unsigned(p, 16, 0xffff) {
        Some(v) => Some(v as u16),
        None => None,
    }
}

impl UsbSelector {
    /// Whether this selector matches the given device identity.
    pub fn matches(&self, info: &UsbDeviceInfo) -> (b: bool)
        ensures
            b == selector_matches(*self, *info),
    {
        if self.vendor_id != info.vendor_id || self.product_id != info.product_id {
            return false;
        }
        match &self.serial {
            None => true,
            Some(serial) => match &info.serial {
                Some(s) => s.eq(serial),
                None => false,
            },
        }
    }

    /// The selector as text, `vvvv:pppp[:serial]`.
    pub fn to_string(&self) -> (s: String)
        ensures
            s@ == selector_text(self.vendor_id, self.product_id, opt_text(self.serial)),
    {
        let mut out: Vec<char> = Vec::new();
        let vid = format_number(self.vendor_id as u32, 16, 4);
        push_chars(&mut out, vid.as_slice());
        out.push(':');
        let pid = format_number(self.product_id as u32, 16, 4);
        push_chars(&mut out, pid.as_slice());
        match &self.serial {
            Some(serial) => {
                out.push(':');
                push_str(&mut out, serial.as_str());
            },
            None => {},
        }
        let r = string_of(out.as_slice());
        proof {
            let base = padded_number(self.vendor_id as nat, 16, 4) + seq![':'] + padded_number(
                self.product_id as nat,
                16,
                4,
            );
            match &self.serial {
                Some(t) => assert(r@ =~= base + seq![':'] + t@),
                None => assert(r@ =~= base),
            }
        }
        r
    }

    /// Parses `vid:pid[:serial]`, where `vid`/`pid` are 1 to 4 hex digits (no sign)
    /// and the serial, which may contain `:`, counts as absent when empty.
    pub fn parse(s: &str) -> (r: Result<Self, CoreError>)
        ensures
            match r {
                Ok(sel) => parse_selector_spec(s@) == Some(
                    (sel.vendor_id, sel.product_id, opt_text(sel.serial)),
                ),
                Err(e) => parse_selector_spec(s@) is None && (e matches CoreError::Config(m)
                    && m@ == invalid_selector_message(s@)),
            },
    {
        let cs = chars_of(s);
        let parsed = Self::parse_chars(cs.as_slice());
        match parsed {
            Some(sel) => Ok(sel),
            None => {
                let mut msg: Vec<char> = Vec::new();
                push_str(&mut msg, "invalid USB selector '");
                push_str(&mut msg, s);
                push_str(
                    &mut msg,
                    "': expected vid:pid[:serial] with 4-digit-max hex vid/pid (e.g. 0403:6001)",
                );
                Err(CoreError::Config(string_of(msg.as_slice())))
            },
        }
    }

    fn parse_chars(cs: &[char]) -> (r: Option<Self>)
        ensures
            match r {
                Some(sel) => parse_selector_spec(cs@) == Some(
                    (sel.vendor_id, sel.product_id, opt_text(sel.serial)),
                ),
                None => parse_selector_spec(cs@) is None,
            },
    {
        let found = find_char(cs, ':', 0);
        let i = match found {
            Some(i) => i,
            None => return None,
        };
        let n = cs.len();
        let vid_part = char_range(cs, 0, i);
        let rest = char_range(cs, i + 1, n);
        assert(vid_part@ =~= cs@.take(i as int));
        assert(rest@ =~= cs@.skip(i + 1));
        let (pid_part, serial_part) = match find_char(rest.as_slice(), ':', 0) {
            None => (rest.clone(), None),
            Some(j) => {
                let p = char_range(rest.as_slice(), 0, j);
                let t = char_range(rest.as_slice(), j + 1, rest.len());
                assert(p@ =~= rest@.take(j as int));
                assert(t@ =~= rest@.skip(j + 1));
                (p, Some(t))
            },
        };
        let vid = match parse_hex_part(vid_part.as_slice()) {
            Some(v) => v,
            None => return None,
        };
        let pid = match parse_hex_part(pid_part.as_slice()) {
            Some(p) => p,
            None => return None,
        };
        let serial = match serial_part {
            Some(t) => if t.len() == 0 {
                None
            } else {
                Some(string_of(t.as_slice()))
            },
            None => None,
        };
        Some(UsbSelector { vendor_id: vid, product_id: pid, serial })
    }
}

/// A selector's text parses back to the same selector (its serial, when
/// set, being non-empty: an empty serial reads as none).
pub proof fn lemma_selector_text_roundtrip(
    vendor_id: u16,
    product_id: u16,
    serial: Option<Seq<char>>,
)
    requires
        serial matches Some(t) ==> t.len() > 0,
    ensures
        parse_selector_spec(selector_text(vendor_id, product_id, serial)) == Some(
            (vendor_id, product_id, serial),
        ),
{
    let v = padded_number(vendor_id as nat, 16, 4);
    let p = padded_number(product_id as nat, 16, 4);
    lemma_hex4(vendor_id);
    lemma_hex4(product_id);
    let text = selector_text(vendor_id, product_id, serial);
    let rest = match serial {
        None => p,
        Some(t) => p + seq![':'] + t,
    };
    assert(text =~= v + seq![':'] + rest);
    assert forall|i: int| 0 <= i < 4 implies text[i] != ':' by {
        assert(text[i] == v[i]);
    }
    lemma_index_of_from(text, ':', 0, 4);
    assert(text.take(4) =~= v);
    assert(text.skip(5) =~= rest);
    match serial {
        None => {
            assert forall|i: int| 0 <= i < rest.len() implies rest[i] != ':' by {
                assert(rest[i] == p[i]);
            }
            lemma_index_of_from(rest, ':', 0, rest.len() as int);
        },
        Some(t) => {
            assert forall|i: int| 0 <= i < 4 implies rest[i] != ':' by {
                assert(rest[i] == p[i]);
            }
            lemma_index_of_from(rest, ':', 0, 4);
            assert(rest.take(4) =~= p);
            assert(rest.skip(5) =~= t);
        },
    }
    assert(v[0] != '+');
    assert(p[0] != '+');
}

impl core::str::FromStr for UsbSelector {
    type Err = CoreError;

    fn from_str(s: &str) -> (r: Result<Self, Self::Err>)
        ensures
            match r {
                Ok(sel) => parse_selector_spec(s@) == Some(
                    (sel.vendor_id, sel.product_id, opt_text(sel.serial)),
                ),
                Err(e) => parse_selector_spec(s@) is None && (e matches CoreError::Config(m)
                    && m@ == invalid_selector_message(s@)),
            },
    {
        UsbSelector::parse(s)
    }
}

} // verus!
