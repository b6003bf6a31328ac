//! Character-level string helpers: conversion between `str`/`String` and
//! character vectors, UTF-8 decoding, and number formatting.

use vstd::prelude::*;
use vstd::string::StrSliceExecFns;
use vstd::utf8::{decode_utf8, valid_utf8};

verus! {

/// `String::from_utf8`: the string the bytes decode to, when they are
/// valid UTF-8; `None` otherwise. The error value is dropped.
#[verifier::external_body]
pub fn string_from_utf8(bytes: Vec<u8>) -> (r: Option<String>)
    ensures
        r is Some <==> valid_utf8(bytes@),
        r matches Some(s) ==> s@ == decode_utf8(bytes@),
{
    String::from_utf8(bytes).ok()
}

/// `String::push`: appends one character.
#[verifier::external_body]
pub fn push_char(s: &mut String, c: char)
    ensures
        final(s)@ == old(s)@.push(c),
{
    s.push(c)
}

/// The characters of `s`.
pub fn chars_of(s: &str) -> (r: Vec<char>)
    ensures
        r@ == s@,
{
    let n = s.unicode_len();
    let mut r: Vec<char> = Vec::new();
    let mut i: usize = 0;
    while i < n
        invariant
            n == s@.len(),
            i <= n,
            r@ == s@.subrange(0, i as int),
        decreases n - i,
    {
        r.push(s.get_char(i));
        i = i + 1;
        assert(r@ =~= s@.subrange(0, i as int));
    }
    assert(s@.subrange(0, n as int) =~= s@);
    r
}

/// The string made of `cs`.
pub fn string_of(cs: &[char]) -> (r: String)
    ensures
        r@ == cs@,
{
    let mut r = String::new();
    let mut i: usize = 0;
    while i < cs.len()
        invariant
            i <= cs@.len(),
            r@ == cs@.subrange(0, i as int),
        decreases cs@.len() - i,
    {
        push_char(&mut r, cs[i]);
        i = i + 1;
        assert(r@ =~= cs@.subrange(0, i as int));
    }
    assert(cs@.subrange(0, cs@.len() as int) =~= cs@);
    r
}

/// Appends `cs` to `out`.
pub fn push_chars(out: &mut Vec<char>, cs: &[char])
    ensures
        final(out)@ == old(out)@ + cs@,
{
    let mut i: usize = 0;
    while i < cs.len()
        invariant
            i <= cs@.len(),
            out@ == old(out)@ + cs@.subrange(0, i as int),
        decreases cs@.len() - i,
    {
        out.push(cs[i]);
        i = i + 1;
        assert(out@ =~= old(out)@ + cs@.subrange(0, i as int));
    }
    assert(cs@.subrange(0, cs@.len() as int) =~= cs@);
}

/// Appends the characters of `s` to `out`.
pub fn push_str(out: &mut Vec<char>, s: &str)
    ensures
        final(out)@ == old(out)@ + s@,
{
    let cs = chars_of(s);
    push_chars(out, cs.as_slice());
}

/// The concatenation of three strings.
pub fn concat3(a: &str, b: &str, c: &str) -> (m: String)
    ensures
        m@ == a@ + b@ + c@,
{
    let mut out: Vec<char> = Vec::new();
    push_str(&mut out, a);
    push_str(&mut out, b);
    push_str(&mut out, c);
    string_of(out.as_slice())
}

/// `prefix` followed by `v` in base `radix`, zero-padded to `width` digits.
pub fn text_with_number(prefix: &str, v: u32, radix: u32, width: usize) -> (m: String)
    requires
        2 <= radix <= 16,
        width <= 64,
    ensures
        m@ == prefix@ + padded_number(v as nat, radix as nat, width as nat),
{
    let mut out: Vec<char> = Vec::new();
    push_str(&mut out, prefix);
    let digits = format_number(v, radix, width);
    push_chars(&mut out, digits.as_slice());
    string_of(out.as_slice())
}

/// The text of bytes that should be UTF-8: their decoding when valid, the
/// empty string otherwise.
pub fn utf8_or_empty(bytes: Vec<u8>) -> (s: String)
    ensures
        s@ == (if valid_utf8(bytes@) {
            decode_utf8(bytes@)
        } else {
            Seq::<char>::empty()
        }),
{
    match string_from_utf8(bytes) {
        Some(s) => s,
        None => String::new(),
    }
}

/// Copies `cs[from..to]` into a new vector.
pub fn char_range(cs: &[char], from: usize, to: usize) -> (r: Vec<char>)
    requires
        from <= to <= cs@.len(),
    ensures
        r@ == cs@.subrange(from as int, to as int),
{
    let mut r: Vec<char> = Vec::new();
    let mut i: usize = from;
    while i < to
        invariant
            from <= i <= to <= cs@.len(),
            r@ == cs@.subrange(from as int, i as int),
        decreases to - i,
    {
        r.push(cs[i]);
        i = i + 1;
        assert(r@ =~= cs@.subrange(from as int, i as int));
    }
    r
}

/// The first index at or after `from` where `s` holds `c`.
pub open spec fn index_of_from(s: Seq<char>, c: char, from: int) -> Option<int>
    decreases s.len() - from,
{
    if from < 0 || from >= s.len() {
        None
    } else if s[from] == c {
        Some(from)
    } else {
        index_of_from(s, c, from + 1)
    }
}

/// The first index where `s` holds `c`.
pub open spec fn index_of(s: Seq<char>, c: char) -> Option<int> {
    index_of_from(s, c, 0)
}

/// Finds the first index at or after `from` where `cs` holds `c`.
pub fn find_char(cs: &[char], c: char, from: usize) -> (r: Option<usize>)
    ensures
        match r {
            Some(i) => {
                &&& index_of_from(cs@, c, from as int) == Some(i as int)
                &&& from <= i
                &&& i < cs@.len()
                &&& cs@[i as int] == c
            },
            None => index_of_from(cs@, c, from as int) is None,
        },
    decreases cs@.len() - from,
{
    if from >= cs.len() {
        None
    } else if cs[from] == c {
        Some(from)
    } else {
        find_char(cs, c, from + 1)
    }
}

/// The lowercase hexadecimal digit for `d < 16`.
pub open spec fn hex_digit(d: int) -> char {
    if d < 10 {
        ((d + 48) as u8) as char
    } else {
        ((d - 10 + 97) as u8) as char
    }
}

/// The decimal digit for `d < 10`.
pub open spec fn dec_digit(d: int) -> char {
    ((d + 48) as u8) as char
}

/// The digits of `v` in base `radix` (lowercase), most significant first,
/// with no leading zeros (`0` has no digits).
pub open spec fn digits(v: nat, radix: nat) -> Seq<char>
    recommends
        2 <= radix <= 16,
    decreases v,
{
    if v == 0 || radix < 2 {
        Seq::empty()
    } else {
        proof {
            assert(v / radix < v) by (nonlinear_arith)
                requires
                    v > 0,
                    radix >= 2,
            ;
        }
        digits(v / radix, radix).push(hex_digit((v % radix) as int))
    }
}

/// `v` in base `radix`, zero-padded on the left to at least `width`
/// characters (as the `{:0width$}` / `{:0width$x}` formats do).
pub open spec fn padded_number(v: nat, radix: nat, width: nat) -> Seq<char> {
    let d = if v == 0 {
        seq!['0']
    } else {
        digits(v, radix)
    };
    if d.len() >= width {
        d
    } else {
        Seq::new((width - d.len()) as nat, |i: int| '0') + d
    }
}

/// `s` followed by spaces up to at least `width` characters (as the
/// `{:<width$}` format does).
pub open spec fn pad_right(s: Seq<char>, width: nat) -> Seq<char> {
    if s.len() >= width {
        s
    } else {
        s + Seq::new((width - s.len()) as nat, |i: int| ' ')
    }
}

fn digit_char(d: u32) -> (c: char)
    requires
        d < 16,
    ensures
        c == hex_digit(d as int),
{
    if d < 10 {
        ((d + 48) as u8) as char
    } else {
        ((d - 10 + 97) as u8) as char
    }
}

/// Formats `v` in base `radix`, zero-padded to at least `width` characters.
pub fn format_number(v: u32, radix: u32, width: usize) -> (r: Vec<char>)
    requires
        2 <= radix <= 16,
        width <= 64,
    ensures
        r@ == padded_number(v as nat, radix as nat, width as nat),
{
    // Digits least significant first.
    let mut rev: Vec<char> = Vec::new();
    let mut x: u32 = v;
    while x > 0
        invariant
            2 <= radix <= 16,
            digits(v as nat, radix as nat) == digits(x as nat, radix as nat) + rev@.reverse(),
        decreases x,
    {
        let d = x % radix;
        let c = digit_char(d);
        proof {
            assert(digits(x as nat, radix as nat) == digits((x / radix) as nat, radix as nat).push(c));
            assert(rev@.push(c).reverse() =~= seq![c] + rev@.reverse());
        }
        rev.push(c);
        x = x / radix;
    }
    proof {
        assert(digits(0, radix as nat) == Seq::<char>::empty());
    }
    let mut r: Vec<char> = Vec::new();
    let ndigits: usize = if v == 0 {
        1
    } else {
        rev.len()
    };
    let mut k: usize = ndigits;
    while k < width
        invariant
            ndigits <= k,
            k <= width || k == ndigits,
            r@ == Seq::new((k - ndigits) as nat, |i: int| '0'),
        decreases width - k,
    {
        r.push('0');
        k = k + 1;
        assert(r@ =~= Seq::new((k - ndigits) as nat, |i: int| '0'));
    }
    if v == 0 {
        r.push('0');
        proof {
            assert(r@ =~= padded_number(v as nat, radix as nat, width as nat));
        }
        return r;
    }
    let ghost pad = r@;
    let mut j: usize = rev.len();
    while j > 0
        invariant
            j <= rev@.len(),
            r@ == pad + rev@.reverse().subrange(0, (rev@.len() - j) as int),
        decreases j,
    {
        j = j - 1;
        r.push(rev[j]);
        assert(r@ =~= pad + rev@.reverse().subrange(0, (rev@.len() - j) as int));
    }
    proof {
        assert(rev@.reverse().subrange(0, rev@.len() as int) =~= rev@.reverse());
        assert(digits(v as nat, radix as nat) =~= rev@.reverse());
        if ndigits >= width {
            assert(pad =~= Seq::<char>::empty());
            assert(r@ =~= padded_number(v as nat, radix as nat, width as nat));
        } else {
            assert(r@ =~= padded_number(v as nat, radix as nat, width as nat));
        }
    }
    r
}

/// Appends `s` and then spaces up to at least `width` characters.
pub fn push_padded(out: &mut Vec<char>, s: &[char], width: usize)
    ensures
        final(out)@ == old(out)@ + pad_right(s@, width as nat),
{
    push_chars(out, s);
    let mut k: usize = s.len();
    while k < width
        invariant
            s@.len() <= k,
            k <= width || k == s@.len(),
            out@ == old(out)@ + s@ + Seq::new((k - s@.len()) as nat, |i: int| ' '),
        decreases width - k,
    {
        out.push(' ');
        k = k + 1;
        assert(out@ =~= old(out)@ + s@ + Seq::new((k - s@.len()) as nat, |i: int| ' '));
    }
    assert(out@ =~= old(out)@ + pad_right(s@, width as nat));
}

/// The value of `c` as a digit in base `radix` (`0-9`, then `a-z` or `A-Z`
/// for 10 and up), as `char::to_digit` gives it.
pub open spec fn digit_value(c: char, radix: nat) -> Option<nat> {
    let u = c as u32;
    let d: Option<nat> = if 48 <= u <= 57 {
        Some((u - 48) as nat)
    } else if 97 <= u <= 122 {
        Some((u - 97 + 10) as nat)
    } else if 65 <= u <= 90 {
        Some((u - 65 + 10) as nat)
    } else {
        None
    };
    match d {
        Some(v) => if v < radix {
            Some(v)
        } else {
            None
        },
        None => None,
    }
}

/// The value of a digit string in base `radix`, or `None` when a character
/// is not a digit. The empty string is 0.
pub open spec fn digits_value(s: Seq<char>, radix: nat) -> Option<nat>
    decreases s.len(),
{
    if s.len() == 0 {
        Some(0)
    } else {
        match (digits_value(s.drop_last(), radix), digit_value(s.last(), radix)) {
            (Some(v), Some(d)) => Some(v * radix + d),
            _ => None,
        }
    }
}

/// Parsing an unsigned integer as `from_str_radix` does: an optional
/// leading `+`, then at least one digit, and a value no greater than `max`.
pub open spec fn parse_unsigned_spec(s: Seq<char>, radix: nat, max: nat) -> Option<nat> {
    let body = if s.len() > 0 && s[0] == '+' {
        s.drop_first()
    } else {
        s
    };
    if body.len() == 0 {
        None
    } else {
        match digits_value(body, radix) {
            Some(v) => if v <= max {
                Some(v)
            } else {
                None
            },
            None => None,
        }
    }
}

/// A digit string's prefixes are digit strings of no greater value.
pub proof fn lemma_digits_prefix(s: Seq<char>, radix: nat, k: int)
    requires
        0 <= k <= s.len(),
        digits_value(s, radix) is Some,
    ensures
        digits_value(s.take(k), radix) is Some,
        digits_value(s.take(k), radix)->0 <= digits_value(s, radix)->0,
    decreases s.len(),
{
    if k < s.len() {
        assert(s.drop_last().take(k) =~= s.take(k));
        lemma_digits_prefix(s.drop_last(), radix, k);
        let v = digits_value(s.drop_last(), radix)->0;
        let d = digit_value(s.last(), radix)->0;
        assert(v <= v * radix + d) by (nonlinear_arith)
            requires
                d < radix,
                d >= 0,
                v >= 0,
        ;
    } else {
        assert(s.take(k) =~= s);
    }
}

/// A digit string of length `n` is worth less than `radix` to the `n`.
pub proof fn lemma_digits_bound(s: Seq<char>, radix: nat)
    requires
        radix > 0,
        digits_value(s, radix) is Some,
    ensures
        digits_value(s, radix)->0 < power(radix, s.len()),
    decreases s.len(),
{
    if s.len() > 0 {
        lemma_digits_bound(s.drop_last(), radix);
        let v = digits_value(s.drop_last(), radix)->0;
        let d = digit_value(s.last(), radix)->0;
        let p = power(radix, s.drop_last().len());
        assert(v * radix + d < radix * p) by (nonlinear_arith)
            requires
                v < p,
                d < radix,
                v >= 0,
                d >= 0,
        ;
        assert(power(radix, s.len()) == radix * p);
    }
}

fn char_digit(c: char, radix: u32) -> (r: Option<u32>)
    ensures
        match r {
            Some(v) => digit_value(c, radix as nat) == Some(v as nat),
            None => digit_value(c, radix as nat) is None,
        },
{
    let u = c as u32;
    let d: u32 = if 48 <= u && u <= 57 {
        u - 48
    } else if 97 <= u && u <= 122 {
        u - 97 + 10
    } else if 65 <= u && u <= 90 {
        u - 65 + 10
    } else {
        return None;
    };
    if d < radix {
        Some(d)
    } else {
        None
    }
}

/// Parses an unsigned integer in base `radix` (optional leading `+`), as
/// `from_str_radix` does, rejecting values above `max`.
pub fn parse_unsigned(cs: &[char], radix: u32, max: u32) -> (r: Option<u32>)
    requires
        2 <= radix <= 36,
    ensures
        match r {
            Some(v) => parse_unsigned_spec(cs@, radix as nat, max as nat) == Some(v as nat),
            None => parse_unsigned_spec(cs@, radix as nat, max as nat) is None,
        },
{
    let start: usize = if cs.len() > 0 && cs[0] == '+' {
        1
    } else {
        0
    };
    let ghost body = if cs@.len() > 0 && cs@[0] == '+' {
        cs@.drop_first()
    } else {
        cs@
    };
    assert(body =~= cs@.subrange(start as int, cs@.len() as int));
    if start == cs.len() {
        return None;
    }
    let mut acc: u64 = 0;
    let mut i: usize = start;
    while i < cs.len()
        invariant
            start <= i <= cs@.len(),
            body =~= cs@.subrange(start as int, cs@.len() as int),
            body == (if cs@.len() > 0 && cs@[0] == '+' {
                cs@.drop_first()
            } else {
                cs@
            }),
            2 <= radix <= 36,
            acc <= max,
            digits_value(body.take(i - start), radix as nat) == Some(acc as nat),
        decreases cs@.len() - i,
    {
        let ghost k = (i - start) as int;
        assert(body.take(k + 1).drop_last() =~= body.take(k));
        assert(body.take(k + 1).last() == cs@[i as int]);
        match char_digit(cs[i], radix) {
            None => {
                proof {
                    assert(digits_value(body.take(k + 1), radix as nat) is None);
                    if digits_value(body, radix as nat) is Some {
                        lemma_digits_prefix(body, radix as nat, k + 1);
                    }
                }
                return None;
            },
            Some(d) => {
                assert(acc * (radix as u64) + (d as u64) <= 36 * 0xffff_ffff + 36) by (nonlinear_arith)
                    requires
                        acc <= 0xffff_ffff,
                        radix <= 36,
                        d < radix,
                ;
                let next: u64 = acc * (radix as u64) + (d as u64);
                if next > max as u64 {
                    proof {
                        assert(digits_value(body.take(k + 1), radix as nat) == Some(next as nat));
                        if digits_value(body, radix as nat) is Some {
                            lemma_digits_prefix(body, radix as nat, k + 1);
                        }
                    }
                    return None;
                }
                acc = next;
                assert(digits_value(body.take(k + 1), radix as nat) == Some(acc as nat));
            },
        }
        i = i + 1;
    }
    assert(body.take(body.len() as int) =~= body);
    Some(acc as u32)
}

/// `r` to the power `k`.
pub open spec fn power(r: nat, k: nat) -> nat
    decreases k,
{
    if k == 0 {
        1
    } else {
        r * power(r, (k - 1) as nat)
    }
}

/// A digit character reads back as its value, and is neither `:` nor `+`.
pub proof fn lemma_hex_digit_value(d: int, radix: nat)
    requires
        0 <= d < radix,
        2 <= radix <= 16,
    ensures
        digit_value(hex_digit(d), radix) == Some(d as nat),
        hex_digit(d) != ':',
        hex_digit(d) != '+',
{
    if d < 10 {
        assert(((d + 48) as u8) as char as u32 == d + 48);
    } else {
        assert(((d - 10 + 97) as u8) as char as u32 == d - 10 + 97);
    }
}

/// The digits of `v` read back as `v`, and hold neither `:` nor `+`.
pub proof fn lemma_digits_roundtrip(v: nat, radix: nat)
    requires
        2 <= radix <= 16,
    ensures
        digits_value(digits(v, radix), radix) == Some(v),
        forall|i: int|
            0 <= i < digits(v, radix).len() ==> #[trigger] digits(v, radix)[i] != ':' && digits(
                v,
                radix,
            )[i] != '+',
    decreases v,
{
    if v > 0 {
        assert(v / radix < v) by (nonlinear_arith)
            requires
                v > 0,
                radix >= 2,
        ;
        lemma_digits_roundtrip(v / radix, radix);
        lemma_hex_digit_value((v % radix) as int, radix);
        let s = digits(v, radix);
        assert(s.drop_last() =~= digits(v / radix, radix));
        assert((v / radix) * radix + v % radix == v) by (nonlinear_arith)
            requires
                radix > 0,
        ;
    }
}

/// A run of `0` characters reads as 0.
pub proof fn lemma_zeros_value(n: nat, radix: nat)
    requires
        2 <= radix <= 16,
    ensures
        digits_value(Seq::new(n, |i: int| '0'), radix) == Some(0nat),
    decreases n,
{
    if n > 0 {
        lemma_zeros_value((n - 1) as nat, radix);
        let z = Seq::new(n, |i: int| '0');
        assert(z.drop_last() =~= Seq::new((n - 1) as nat, |i: int| '0'));
        assert(z.last() == '0');
        assert(('0' as u32) == 48);
        assert(digit_value('0', radix) == Some(0nat));
        assert(0nat * radix + 0nat == 0nat);
    }
}

/// Leading zeros do not change a digit string's value.
pub proof fn lemma_leading_zeros(n: nat, s: Seq<char>, radix: nat)
    requires
        2 <= radix <= 16,
    ensures
        digits_value(Seq::new(n, |i: int| '0') + s, radix) == digits_value(s, radix),
    decreases s.len(),
{
    let z = Seq::new(n, |i: int| '0');
    if s.len() == 0 {
        assert(z + s =~= z);
        lemma_zeros_value(n, radix);
    } else {
        lemma_leading_zeros(n, s.drop_last(), radix);
        assert((z + s).drop_last() =~= z + s.drop_last());
        assert((z + s).last() == s.last());
    }
}

/// A number below `radix^k` has at most `k` digits.
pub proof fn lemma_digits_len(v: nat, radix: nat, k: nat)
    requires
        2 <= radix <= 16,
        v < power(radix, k),
    ensures
        digits(v, radix).len() <= k,
    decreases k,
{
    if v > 0 {
        if k == 0 {
            assert(false);
        }
        assert(v / radix < power(radix, (k - 1) as nat)) by (nonlinear_arith)
            requires
                v < radix * power(radix, (k - 1) as nat),
                radix > 0,
        ;
        lemma_digits_len(v / radix, radix, (k - 1) as nat);
    }
}

/// A 16-bit value in four zero-padded hex digits: exactly four characters,
/// none of them `:` or `+`, that read back as the value.
pub proof fn lemma_hex4(v: u16)
    ensures
        padded_number(v as nat, 16, 4).len() == 4,
        digits_value(padded_number(v as nat, 16, 4), 16) == Some(v as nat),
        forall|i: int|
            0 <= i < 4 ==> #[trigger] padded_number(v as nat, 16, 4)[i] != ':'
                && padded_number(v as nat, 16, 4)[i] != '+',
{
    reveal_with_fuel(power, 5);
    assert(power(16, 4) == 65536);
    lemma_digits_len(v as nat, 16, 4);
    lemma_digits_roundtrip(v as nat, 16);
    let d = if v == 0 {
        seq!['0']
    } else {
        digits(v as nat, 16)
    };
    if v == 0 {
        lemma_hex_digit_value(0, 16);
        assert(seq!['0'].drop_last() =~= Seq::<char>::empty());
        assert(digits_value(d, 16) == Some(0nat));
    }
    let p = padded_number(v as nat, 16, 4);
    let n = (4 - d.len()) as nat;
    assert(p =~= Seq::new(n, |i: int| '0') + d);
    lemma_leading_zeros(n, d, 16);
    assert forall|i: int| 0 <= i < 4 implies #[trigger] p[i] != ':' && p[i] != '+' by {
        if i >= n {
            assert(p[i] == d[i - n]);
        }
    }
}

/// Where `c` first occurs at or after `from`: at `k` when `s[k]` is `c` and
/// no earlier position from `from` holds it; nowhere when no position from
/// `from` to the end holds it.
pub proof fn lemma_index_of_from(s: Seq<char>, c: char, from: int, k: int)
    requires
        0 <= from <= k <= s.len(),
        forall|i: int| from <= i < k ==> s[i] != c,
        k == s.len() || s[k] == c,
    ensures
        index_of_from(s, c, from) == (if k == s.len() {
            None
        } else {
            Some(k)
        }),
    decreases k - from,
{
    if from < k {
        lemma_index_of_from(s, c, from + 1, k);
    }
}

} // verus!
