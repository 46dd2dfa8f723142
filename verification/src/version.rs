//! Version labels: normalisation of tags such as `v0.4.5 ` and the ordering by
//! which the updater decides that one version is newer than another.
use vstd::prelude::*;
use crate::text::{self, CharClass, chars_of, string_of, trim_chars, trim_start_chars, split_chars};

verus! {

// ---------------------------------------------------------------------------
// Normalisation
// ---------------------------------------------------------------------------

/// A version label with surrounding white space and any leading `v`/`V`
/// letters removed (white space that the letters uncover is trimmed too).
pub open spec fn normalized_label(s: Seq<char>) -> Seq<char> {
    text::trim(text::trim_start_class(text::trim(s), CharClass::LetterV))
}

pub fn normalize_chars(v: &Vec<char>) -> (r: Vec<char>)
    ensures
        r@ == normalized_label(v@),
{
    let a = trim_chars(v);
    let b = trim_start_chars(&a, CharClass::LetterV);
    trim_chars(&b)
}

/// Normalises a version label: trims it, strips leading `v`/`V`, trims again.
pub fn normalize_version_label(version: &str) -> (r: String)
    ensures
        r@ == normalized_label(version@),
{
    let v = chars_of(version);
    let n = normalize_chars(&v);
    string_of(&n)
}

// ---------------------------------------------------------------------------
// Decimal numbers as `u32::from_str` reads them
// ---------------------------------------------------------------------------

pub open spec fn is_digit(c: char) -> bool {
    48 <= c as u32 <= 57
}

pub open spec fn digit_value(c: char) -> nat {
    (c as u32 - 48) as nat
}

pub open spec fn decimal_value(s: Seq<char>) -> nat
    decreases s.len(),
{
    if s.len() == 0 {
        0
    } else {
        decimal_value(s.drop_last()) * 10 + digit_value(s.last())
    }
}

pub open spec fn all_digits(s: Seq<char>) -> bool {
    forall|i: int| 0 <= i < s.len() ==> is_digit(#[trigger] s[i])
}

/// `u32::from_str`: an optional `+`, then one or more ASCII digits whose value
/// fits in a `u32`.
pub open spec fn parse_u32(s: Seq<char>) -> Option<u32> {
    let digits = if s.len() > 0 && s[0] == '+' {
        s.drop_first()
    } else {
        s
    };
    if digits.len() > 0 && all_digits(digits) && decimal_value(digits) <= u32::MAX {
        Some(decimal_value(digits) as u32)
    } else {
        None
    }
}

proof fn lemma_decimal_prefix_le(s: Seq<char>, k: int)
    requires
        0 <= k <= s.len(),
        all_digits(s),
    ensures
        decimal_value(s.take(k)) <= decimal_value(s),
    decreases s.len() - k,
{
    if k < s.len() {
        let t = s.drop_last();
        assert(all_digits(t)) by {
            assert forall|i: int| 0 <= i < t.len() implies is_digit(#[trigger] t[i]) by {
                assert(t[i] == s[i]);
            }
        }
        lemma_decimal_prefix_le(t, k);
        assert(t.take(k) =~= s.take(k));
    } else {
        assert(s.take(k) =~= s);
    }
}

pub fn parse_u32_chars(s: &Vec<char>) -> (r: Option<u32>)
    ensures
        r == parse_u32(s@),
{
    let start: usize = if s.len() > 0 && s[0] == '+' {
        1
    } else {
        0
    };
    let ghost digits = if s@.len() > 0 && s@[0] == '+' {
        s@.drop_first()
    } else {
        s@
    };
    assert(digits =~= s@.skip(start as int));
    if start >= s.len() {
        return None;
    }
    let mut value: u64 = 0;
    let mut k: usize = start;
    while k < s.len()
        invariant
            start <= k <= s.len(),
            digits == s@.skip(start as int),
            digits == (if s@.len() > 0 && s@[0] == '+' {
                s@.drop_first()
            } else {
                s@
            }),
            value as nat == decimal_value(digits.take(k - start)),
            value <= u32::MAX,
            forall|i: int| 0 <= i < k - start ==> is_digit(#[trigger] digits[i]),
        decreases s.len() - k,
    {
        let c = s[k];
        assert(digits[k - start] == c);
        let u = c as u32;
        if u < 48 || u > 57 {
            assert(!all_digits(digits));
            return None;
        }
        let d = (u - 48) as u64;
        assert(digits.take(k + 1 - start).drop_last() =~= digits.take(k - start));
        let next = value * 10 + d;
        if next > 0xffff_ffff {
            proof {
                if all_digits(digits) {
                    lemma_decimal_prefix_le(digits, k + 1 - start);
                }
            }
            return None;
        }
        value = next;
        k += 1;
    }
    assert(digits.take(k - start) =~= digits);
    Some(value as u32)
}

// ---------------------------------------------------------------------------
// Ordering
// ---------------------------------------------------------------------------

/// The numbers of the dot-separated components that parse as `u32`, in order;
/// components that do not parse are skipped.
pub open spec fn parsed_parts(p: Seq<Seq<char>>) -> Seq<u32>
    decreases p.len(),
{
    if p.len() == 0 {
        Seq::empty()
    } else {
        let prev = parsed_parts(p.drop_last());
        match parse_u32(p.last()) {
            Some(v) => prev.push(v),
            None => prev,
        }
    }
}

pub open spec fn version_parts(s: Seq<char>) -> Seq<u32> {
    parsed_parts(text::split_by(s, CharClass::Exactly('.')))
}

/// Lexicographic order on component lists, where a proper extension is greater.
pub open spec fn parts_greater(a: Seq<u32>, b: Seq<u32>) -> bool
    decreases a.len(),
{
    if a.len() == 0 || b.len() == 0 {
        a.len() > b.len()
    } else if a[0] != b[0] {
        a[0] > b[0]
    } else {
        parts_greater(a.drop_first(), b.drop_first())
    }
}

pub open spec fn version_greater(a: Seq<char>, b: Seq<char>) -> bool {
    parts_greater(version_parts(a), version_parts(b))
}

pub fn version_parts_of(s: &str) -> (r: Vec<u32>)
    ensures
        r@ == version_parts(s@),
{
    let v = chars_of(s);
    let pieces = split_chars(&v, CharClass::Exactly('.'));
    let mut r: Vec<u32> = Vec::new();
    let mut k: usize = 0;
    assert(text::views(pieces@).take(0) =~= Seq::<Seq<char>>::empty());
    while k < pieces.len()
        invariant
            k <= pieces.len(),
            r@ == parsed_parts(text::views(pieces@).take(k as int)),
        decreases pieces.len() - k,
    {
        let ghost after = text::views(pieces@).take(k + 1);
        assert(after.drop_last() =~= text::views(pieces@).take(k as int));
        assert(after.last() == pieces@[k as int]@);
        match parse_u32_chars(&pieces[k]) {
            Some(n) => {
                r.push(n);
            },
            None => {},
        }
        k += 1;
    }
    assert(text::views(pieces@).take(k as int) =~= text::views(pieces@));
    r
}

proof fn lemma_parts_greater_skip(a: Seq<u32>, b: Seq<u32>, i: int)
    requires
        0 <= i <= a.len(),
        i <= b.len(),
        forall|j: int| 0 <= j < i ==> a[j] == b[j],
    ensures
        parts_greater(a, b) == parts_greater(a.skip(i), b.skip(i)),
    decreases i,
{
    if i == 0 {
        assert(a.skip(0) =~= a);
        assert(b.skip(0) =~= b);
    } else {
        let a1 = a.drop_first();
        let b1 = b.drop_first();
        assert forall|j: int| 0 <= j < i - 1 implies a1[j] == b1[j] by {
            assert(a1[j] == a[j + 1]);
            assert(b1[j] == b[j + 1]);
        }
        lemma_parts_greater_skip(a1, b1, i - 1);
        assert(a1.skip(i - 1) =~= a.skip(i));
        assert(b1.skip(i - 1) =~= b.skip(i));
    }
}

/// True when version `a` is newer than version `b`: their numeric components
/// are compared in order and the first difference decides; if one list is a
/// prefix of the other, the longer one is newer.
pub fn version_greater_than(a: &str, b: &str) -> (r: bool)
    ensures
        r == version_greater(a@, b@),
{
    let ap = version_parts_of(a);
    let bp = version_parts_of(b);
    let mut i: usize = 0;
    while i < ap.len() && i < bp.len()
        invariant
            i <= ap.len(),
            i <= bp.len(),
            forall|j: int| 0 <= j < i ==> ap@[j] == bp@[j],
            ap@ == version_parts(a@),
            bp@ == version_parts(b@),
        decreases ap.len() - i,
    {
        if ap[i] != bp[i] {
            proof {
                lemma_parts_greater_skip(ap@, bp@, i as int);
                assert(ap@.skip(i as int)[0] == ap@[i as int]);
                assert(bp@.skip(i as int)[0] == bp@[i as int]);
            }
            return ap[i] > bp[i];
        }
        i += 1;
    }
    proof {
        lemma_parts_greater_skip(ap@, bp@, i as int);
    }
    ap.len() > bp.len()
}

// ---------------------------------------------------------------------------
// Laws of the ordering
// ---------------------------------------------------------------------------

proof fn lemma_parts_irreflexive(a: Seq<u32>)
    ensures
        !parts_greater(a, a),
    decreases a.len(),
{
    if a.len() > 0 {
        lemma_parts_irreflexive(a.drop_first());
    }
}

proof fn lemma_parts_asymmetric(a: Seq<u32>, b: Seq<u32>)
    ensures
        parts_greater(a, b) ==> !parts_greater(b, a),
    decreases a.len(),
{
    if a.len() > 0 && b.len() > 0 && a[0] == b[0] {
        lemma_parts_asymmetric(a.drop_first(), b.drop_first());
    }
}

proof fn lemma_parts_transitive(a: Seq<u32>, b: Seq<u32>, c: Seq<u32>)
    ensures
        parts_greater(a, b) && parts_greater(b, c) ==> parts_greater(a, c),
    decreases a.len(),
{
    if a.len() > 0 && b.len() > 0 && c.len() > 0 {
        lemma_parts_transitive(a.drop_first(), b.drop_first(), c.drop_first());
    }
}

proof fn lemma_parts_total(a: Seq<u32>, b: Seq<u32>)
    ensures
        a != b ==> parts_greater(a, b) || parts_greater(b, a),
    decreases a.len(),
{
    if a.len() > 0 && b.len() > 0 && a[0] == b[0] {
        lemma_parts_total(a.drop_first(), b.drop_first());
        if a.drop_first() == b.drop_first() {
            assert(a =~= seq![a[0]] + a.drop_first());
            assert(b =~= seq![b[0]] + b.drop_first());
        }
    } else if a.len() == 0 && b.len() == 0 {
        assert(a =~= b);
    }
}

/// No version is newer than itself.
pub proof fn law_version_irreflexive(a: Seq<char>)
    ensures
        !version_greater(a, a),
{
    lemma_parts_irreflexive(version_parts(a));
}

/// If `a` is newer than `b`, then `b` is not newer than `a`.
pub proof fn law_version_asymmetric(a: Seq<char>, b: Seq<char>)
    ensures
        version_greater(a, b) ==> !version_greater(b, a),
{
    lemma_parts_asymmetric(version_parts(a), version_parts(b));
}

/// Newer-than is transitive.
pub proof fn law_version_transitive(a: Seq<char>, b: Seq<char>, c: Seq<char>)
    ensures
        version_greater(a, b) && version_greater(b, c) ==> version_greater(a, c),
{
    lemma_parts_transitive(version_parts(a), version_parts(b), version_parts(c));
}

/// Two labels are comparable: unless their numeric components are the same,
/// one of them is newer than the other.
pub proof fn law_version_total(a: Seq<char>, b: Seq<char>)
    ensures
        version_parts(a) != version_parts(b) ==> version_greater(a, b) || version_greater(b, a),
{
    lemma_parts_total(version_parts(a), version_parts(b));
}

/// `pa` beats `pb` at their first difference: either `pb` is a proper prefix of
/// `pa`, or at the first index where the two differ `pa`'s number is greater.
pub open spec fn wins_at_first_difference(pa: Seq<u32>, pb: Seq<u32>) -> bool {
    ||| (pb.len() < pa.len() && pb == pa.take(pb.len() as int))
    ||| exists|k: int|
        0 <= k < pa.len() && k < pb.len() && #[trigger] pa.take(k) == pb.take(k) && pa[k] > pb[k]
}

proof fn lemma_parts_first_difference(a: Seq<u32>, b: Seq<u32>)
    ensures
        parts_greater(a, b) == wins_at_first_difference(a, b),
    decreases a.len(),
{
    if a.len() == 0 || b.len() == 0 {
        if b.len() == 0 && a.len() > 0 {
            assert(b =~= a.take(0));
        }
    } else if a[0] != b[0] {
        if a[0] > b[0] {
            assert(a.take(0) =~= b.take(0));
        } else {
            if b.len() < a.len() && b == a.take(b.len() as int) {
                assert(b[0] == a.take(b.len() as int)[0]);
            }
            assert forall|k: int|
                0 <= k < a.len() && k < b.len() && #[trigger] a.take(k) == b.take(k) implies !(a[k]
                > b[k]) by {
                if k > 0 {
                    assert(a.take(k)[0] == b.take(k)[0]);
                }
            }
        }
    } else {
        let a1 = a.drop_first();
        let b1 = b.drop_first();
        lemma_parts_first_difference(a1, b1);
        // The prefix case carries over one element down.
        if b.len() < a.len() && b == a.take(b.len() as int) {
            assert(b1 =~= a1.take(b1.len() as int));
        }
        if b1.len() < a1.len() && b1 == a1.take(b1.len() as int) {
            assert(b =~= a.take(b.len() as int)) by {
                assert forall|j: int| 0 <= j < b.len() implies #[trigger] b[j] == a.take(b.len() as int)[j] by {
                    if j > 0 {
                        assert(b1[j - 1] == a1.take(b1.len() as int)[j - 1]);
                    }
                }
            }
        }
        // So does a first difference, one index further on.
        if exists|k: int|
            0 <= k < a.len() && k < b.len() && #[trigger] a.take(k) == b.take(k) && a[k] > b[k] {
            let k = choose|k: int|
                0 <= k < a.len() && k < b.len() && #[trigger] a.take(k) == b.take(k) && a[k] > b[k];
            assert(k > 0);
            assert(a1.take(k - 1) =~= b1.take(k - 1)) by {
                assert forall|j: int| 0 <= j < k - 1 implies #[trigger] a1.take(k - 1)[j] == b1.take(k - 1)[j] by {
                    assert(a.take(k)[j + 1] == b.take(k)[j + 1]);
                }
            }
            assert(a1[k - 1] > b1[k - 1]);
        }
        if exists|k: int|
            0 <= k < a1.len() && k < b1.len() && #[trigger] a1.take(k) == b1.take(k) && a1[k]
                > b1[k] {
            let k = choose|k: int|
                0 <= k < a1.len() && k < b1.len() && #[trigger] a1.take(k) == b1.take(k) && a1[k]
                    > b1[k];
            assert(a.take(k + 1) =~= b.take(k + 1)) by {
                assert forall|j: int| 0 <= j < k + 1 implies #[trigger] a.take(k + 1)[j] == b.take(k + 1)[j] by {
                    if j > 0 {
                        assert(a1.take(k)[j - 1] == b1.take(k)[j - 1]);
                    }
                }
            }
            assert(a[k + 1] > b[k + 1]);
        }
    }
}

/// Version order is decided at the first differing numeric component: `a` is
/// newer than `b` exactly when `b`'s components are a proper prefix of `a`'s,
/// or `a`'s component is greater at the first index where they differ.
pub proof fn law_version_first_difference(a: Seq<char>, b: Seq<char>)
    ensures
        version_greater(a, b) == wins_at_first_difference(version_parts(a), version_parts(b)),
{
    lemma_parts_first_difference(version_parts(a), version_parts(b));
}

/// Of two labels, exactly one holds: `a` is newer, `b` is newer, or their
/// numeric components are the same.
pub proof fn law_version_trichotomy(a: Seq<char>, b: Seq<char>)
    ensures
        version_greater(a, b) || version_greater(b, a) || version_parts(a) == version_parts(b),
        !(version_greater(a, b) && version_greater(b, a)),
        version_parts(a) == version_parts(b) ==> !version_greater(a, b) && !version_greater(b, a),
{
    lemma_parts_total(version_parts(a), version_parts(b));
    lemma_parts_asymmetric(version_parts(a), version_parts(b));
    lemma_parts_irreflexive(version_parts(a));
}

/// A normalised label neither begins nor ends with white space.
pub proof fn law_normalized_is_trimmed(s: Seq<char>)
    ensures
        normalized_label(s).len() > 0 ==> !text::is_whitespace(normalized_label(s)[0])
            && !text::is_whitespace(normalized_label(s).last()),
{
    lemma_trim_edges(text::trim_start_class(text::trim(s), CharClass::LetterV));
}

proof fn lemma_trim_start_edge(s: Seq<char>, cls: CharClass)
    ensures
        text::trim_start_class(s, cls).len() > 0 ==> !text::in_class(cls, text::trim_start_class(s, cls)[0]),
        text::trim_start_class(s, cls).len() <= s.len(),
        text::trim_start_class(s, cls).len() > 0 ==> text::trim_start_class(s, cls).last() == s.last(),
    decreases s.len(),
{
    if s.len() > 0 && text::in_class(cls, s[0]) {
        lemma_trim_start_edge(s.drop_first(), cls);
    }
}

proof fn lemma_trim_end_edge(s: Seq<char>, cls: CharClass)
    ensures
        text::trim_end_class(s, cls).len() > 0 ==> !text::in_class(cls, text::trim_end_class(s, cls).last()),
        text::trim_end_class(s, cls).len() > 0 ==> text::trim_end_class(s, cls)[0] == s[0],
    decreases s.len(),
{
    if s.len() > 0 && text::in_class(cls, s.last()) {
        lemma_trim_end_edge(s.drop_last(), cls);
        let t = s.drop_last();
        if text::trim_end_class(t, cls).len() > 0 {
            assert(t[0] == s[0]);
        }
    }
}

proof fn lemma_trim_edges(s: Seq<char>)
    ensures
        text::trim(s).len() > 0 ==> !text::is_whitespace(text::trim(s)[0]) && !text::is_whitespace(text::trim(s).last()),
{
    let t = text::trim_start_class(s, CharClass::Whitespace);
    lemma_trim_start_edge(s, CharClass::Whitespace);
    lemma_trim_end_edge(t, CharClass::Whitespace);
}

} // verus!
