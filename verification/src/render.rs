//! Decimal and debug renderings of numbers, as `Display` and `Debug` write
//! them, and UTF-16 encoding of text for the Win32 API.
use vstd::prelude::*;
use crate::text::{chars_of, string_of};

verus! {

pub open spec fn digit_char(d: nat) -> char {
    (48 + d) as char
}

/// The decimal digits of `n`, most significant first, without leading zeros.
pub open spec fn decimal(n: nat) -> Seq<char>
    decreases n,
{
    if n < 10 {
        seq![digit_char(n)]
    } else {
        decimal(n / 10).push(digit_char(n % 10))
    }
}

/// An integer as `Display` writes it: a minus sign for negative values.
pub open spec fn signed_decimal(n: int) -> Seq<char> {
    if n < 0 {
        seq!['-'] + decimal((-n) as nat)
    } else {
        decimal(n as nat)
    }
}

/// `Option<i32>` as `{:?}` writes it: `Some(<n>)` or `None`.
pub open spec fn debug_option_i32(code: Option<i32>) -> Seq<char> {
    match code {
        Some(n) => "Some("@ + signed_decimal(n as int) + ")"@,
        None => "None"@,
    }
}

pub fn push_decimal(out: &mut Vec<char>, n: u32)
    ensures
        final(out)@ == old(out)@ + decimal(n as nat),
    decreases n,
{
    if n >= 10 {
        push_decimal(out, n / 10);
    }
    let d = (n % 10) as u8;
    let c = (48 + d) as char;
    let ghost before = out@;
    out.push(c);
    assert(out@ =~= before.push(digit_char((n % 10) as nat)));
}

/// `n.to_string()` for a `u32`.
pub fn u32_to_string(n: u32) -> (r: String)
    ensures
        r@ == decimal(n as nat),
{
    let mut v: Vec<char> = Vec::new();
    push_decimal(&mut v, n);
    assert(v@ =~= decimal(n as nat));
    string_of(&v)
}

/// `n.to_string()` for an `i32`.
pub fn i32_to_string(n: i32) -> (r: String)
    ensures
        r@ == signed_decimal(n as int),
{
    let mut v: Vec<char> = Vec::new();
    if n < 0 {
        v.push('-');
        let m: u32 = if n == i32::MIN {
            0x8000_0000
        } else {
            (-n) as u32
        };
        push_decimal(&mut v, m);
        assert(v@ =~= seq!['-'] + decimal((-n) as nat));
    } else {
        push_decimal(&mut v, n as u32);
        assert(v@ =~= decimal(n as nat));
    }
    string_of(&v)
}

/// `format!("{:?}", code)` for an exit code.
pub fn debug_exit_code(code: Option<i32>) -> (r: String)
    ensures
        r@ == debug_option_i32(code),
{
    match code {
        Some(n) => {
            let mut v = chars_of("Some(");
            let digits = chars_of(i32_to_string(n).as_str());
            let mut k: usize = 0;
            let ghost start = v@;
            while k < digits.len()
                invariant
                    k <= digits.len(),
                    v@ == start + digits@.take(k as int),
                decreases digits.len() - k,
            {
                v.push(digits[k]);
                assert(v@ =~= start + digits@.take(k + 1));
                k += 1;
            }
            assert(digits@.take(k as int) =~= digits@);
            v.push(')');
            assert(v@ =~= "Some("@ + signed_decimal(n as int) + ")"@) by {
                reveal_strlit(")");
            }
            string_of(&v)
        },
        None => crate::text::string_from("None"),
    }
}

// ---------------------------------------------------------------------------
// UTF-16
// ---------------------------------------------------------------------------

/// The UTF-16 code units of one character (`char::encode_utf16`).
pub open spec fn utf16_units(c: char) -> Seq<u16> {
    let u = c as u32;
    if u < 0x10000 {
        seq![u as u16]
    } else {
        let v = u - 0x10000;
        seq![(0xD800 + v / 0x400) as u16, (0xDC00 + v % 0x400) as u16]
    }
}

/// `str::encode_utf16`.
pub open spec fn utf16(s: Seq<char>) -> Seq<u16>
    decreases s.len(),
{
    if s.len() == 0 {
        Seq::empty()
    } else {
        utf16(s.drop_last()) + utf16_units(s.last())
    }
}

/// The UTF-16 encoding of `text` followed by a terminating zero unit, as
/// wide-string Win32 parameters expect it.
pub fn to_wide_null(text: &str) -> (r: Vec<u16>)
    ensures
        r@ == utf16(text@).push(0u16),
{
    let v = chars_of(text);
    let mut r: Vec<u16> = Vec::new();
    let mut k: usize = 0;
    assert(v@.take(0) =~= Seq::<char>::empty());
    while k < v.len()
        invariant
            k <= v.len(),
            r@ == utf16(v@.take(k as int)),
        decreases v.len() - k,
    {
        let c = v[k];
        let u = c as u32;
        let ghost before = r@;
        if u < 0x10000 {
            r.push(u as u16);
        } else {
            let w = u - 0x10000;
            r.push((0xD800 + w / 0x400) as u16);
            r.push((0xDC00 + w % 0x400) as u16);
        }
        assert(v@.take(k + 1).drop_last() =~= v@.take(k as int));
        assert(r@ =~= before + utf16_units(c));
        k += 1;
    }
    assert(v@.take(k as int) =~= v@);
    r.push(0u16);
    r
}

} // verus!
