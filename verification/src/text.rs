//! Character-level text operations used by the updater's parsers and message
//! builders, each with the meaning that the standard library documents for the
//! corresponding `str` method.
use vstd::prelude::*;

verus! {

// ---------------------------------------------------------------------------
// Character classes
// ---------------------------------------------------------------------------

/// The Unicode `White_Space` property, which `char::is_whitespace`,
/// `str::trim` and `str::split_whitespace` use.
pub open spec fn is_whitespace(c: char) -> bool {
    let u = c as u32;
    ||| 0x9 <= u <= 0xd
    ||| u == 0x20
    ||| u == 0x85
    ||| u == 0xa0
    ||| u == 0x1680
    ||| 0x2000 <= u <= 0x200a
    ||| u == 0x2028
    ||| u == 0x2029
    ||| u == 0x202f
    ||| u == 0x205f
    ||| u == 0x3000
}

/// A class of characters by which text is split or trimmed.
#[derive(Clone, Copy)]
pub enum CharClass {
    /// Characters with the `White_Space` property.
    Whitespace,
    /// The letters `v` and `V`.
    LetterV,
    /// One given character.
    Exactly(char),
}

pub open spec fn in_class(cls: CharClass, c: char) -> bool {
    match cls {
        CharClass::Whitespace => is_whitespace(c),
        CharClass::LetterV => c == 'v' || c == 'V',
        CharClass::Exactly(d) => c == d,
    }
}

pub fn char_in_class(cls: CharClass, c: char) -> (r: bool)
    ensures
        r == in_class(cls, c),
{
    match cls {
        CharClass::Whitespace => {
            let u = c as u32;
            (0x9 <= u && u <= 0xd) || u == 0x20 || u == 0x85 || u == 0xa0 || u == 0x1680 || (
            0x2000 <= u && u <= 0x200a) || u == 0x2028 || u == 0x2029 || u == 0x202f || u
                == 0x205f || u == 0x3000
        },
        CharClass::LetterV => c == 'v' || c == 'V',
        CharClass::Exactly(d) => c == d,
    }
}

/// ASCII lower-casing of one character, as `char::to_ascii_lowercase` does it.
pub open spec fn ascii_lower(c: char) -> char {
    if 65 <= c as u32 <= 90 {
        ((c as u32) + 32) as char
    } else {
        c
    }
}

pub fn char_ascii_lower(c: char) -> (r: char)
    ensures
        r == ascii_lower(c),
{
    let u = c as u32;
    if 65 <= u && u <= 90 {
        let b = (u + 32) as u8;
        b as char
    } else {
        c
    }
}

pub open spec fn ascii_lower_seq(s: Seq<char>) -> Seq<char> {
    s.map_values(|c: char| ascii_lower(c))
}

/// Equality up to ASCII case, as `str::eq_ignore_ascii_case` defines it.
pub open spec fn eq_ignore_ascii_case(a: Seq<char>, b: Seq<char>) -> bool {
    ascii_lower_seq(a) == ascii_lower_seq(b)
}

// ---------------------------------------------------------------------------
// Searching
// ---------------------------------------------------------------------------

pub open spec fn occurs_at(s: Seq<char>, pat: Seq<char>, i: int) -> bool {
    0 <= i && i + pat.len() <= s.len() && s.subrange(i, i + pat.len()) == pat
}

/// `pat` occurs in `s` (as `str::contains` with a string pattern).
pub open spec fn contains(s: Seq<char>, pat: Seq<char>) -> bool {
    exists|i: int| occurs_at(s, pat, i)
}

/// `s` begins with `pat` (as `str::starts_with`).
pub open spec fn starts_with(s: Seq<char>, pat: Seq<char>) -> bool {
    occurs_at(s, pat, 0)
}

pub fn matches_at(s: &Vec<char>, pat: &Vec<char>, i: usize) -> (r: bool)
    ensures
        r == occurs_at(s@, pat@, i as int),
{
    if i > s.len() || pat.len() > s.len() - i {
        return false;
    }
    let mut k: usize = 0;
    while k < pat.len()
        invariant
            i + pat.len() <= s.len(),
            k <= pat.len(),
            forall|j: int| 0 <= j < k ==> s@[i + j] == pat@[j],
        decreases pat.len() - k,
    {
        if s[i + k] != pat[k] {
            assert(s@.subrange(i as int, i + pat.len())[k as int] != pat@[k as int]);
            return false;
        }
        k += 1;
    }
    assert(s@.subrange(i as int, i + pat.len()) =~= pat@);
    true
}

/// Returns the first index at which `pat` occurs in `s`.
pub fn find(s: &Vec<char>, pat: &Vec<char>) -> (r: Option<usize>)
    ensures
        match r {
            Some(i) => occurs_at(s@, pat@, i as int) && forall|j: int|
                0 <= j < i ==> !occurs_at(s@, pat@, j),
            None => !contains(s@, pat@),
        },
{
    if pat.len() > s.len() {
        assert forall|j: int| !occurs_at(s@, pat@, j) by {}
        return None;
    }
    let last = s.len() - pat.len();
    let mut i: usize = 0;
    loop
        invariant
            last == s.len() - pat.len(),
            pat.len() <= s.len(),
            i <= last,
            forall|j: int| 0 <= j < i ==> !occurs_at(s@, pat@, j),
        ensures
            forall|j: int| 0 <= j <= last ==> !occurs_at(s@, pat@, j),
        decreases last - i,
    {
        if matches_at(s, pat, i) {
            return Some(i);
        }
        if i == last {
            break;
        }
        i += 1;
    }
    assert forall|j: int| !occurs_at(s@, pat@, j) by {
        if 0 <= j <= last {
        } else {
        }
    }
    None
}

pub fn contains_chars(s: &Vec<char>, pat: &Vec<char>) -> (r: bool)
    ensures
        r == contains(s@, pat@),
{
    match find(s, pat) {
        Some(_) => true,
        None => false,
    }
}

pub fn starts_with_chars(s: &Vec<char>, pat: &Vec<char>) -> (r: bool)
    ensures
        r == starts_with(s@, pat@),
{
    matches_at(s, pat, 0)
}

pub fn eq_ignore_ascii_case_chars(a: &Vec<char>, b: &Vec<char>) -> (r: bool)
    ensures
        r == eq_ignore_ascii_case(a@, b@),
{
    if a.len() != b.len() {
        assert(ascii_lower_seq(a@).len() != ascii_lower_seq(b@).len());
        return false;
    }
    let mut k: usize = 0;
    while k < a.len()
        invariant
            a.len() == b.len(),
            k <= a.len(),
            forall|j: int| 0 <= j < k ==> ascii_lower(a@[j]) == ascii_lower(b@[j]),
        decreases a.len() - k,
    {
        if char_ascii_lower(a[k]) != char_ascii_lower(b[k]) {
            assert(ascii_lower_seq(a@)[k as int] != ascii_lower_seq(b@)[k as int]);
            return false;
        }
        k += 1;
    }
    assert(ascii_lower_seq(a@) =~= ascii_lower_seq(b@));
    true
}

pub fn to_ascii_lowercase_chars(s: &Vec<char>) -> (r: Vec<char>)
    ensures
        r@ == ascii_lower_seq(s@),
{
    let mut r: Vec<char> = Vec::new();
    let mut k: usize = 0;
    while k < s.len()
        invariant
            k <= s.len(),
            r@ == ascii_lower_seq(s@.take(k as int)),
        decreases s.len() - k,
    {
        r.push(char_ascii_lower(s[k]));
        assert(s@.take(k + 1) =~= s@.take(k as int).push(s@[k as int]));
        assert(ascii_lower_seq(s@.take(k + 1)) =~= ascii_lower_seq(s@.take(k as int)).push(
            ascii_lower(s@[k as int]),
        ));
        k += 1;
    }
    assert(s@.take(k as int) =~= s@);
    r
}

// ---------------------------------------------------------------------------
// Trimming
// ---------------------------------------------------------------------------

/// Removes the leading characters of class `cls`, as `str::trim_start_matches`.
pub open spec fn trim_start_class(s: Seq<char>, cls: CharClass) -> Seq<char>
    decreases s.len(),
{
    if s.len() > 0 && in_class(cls, s[0]) {
        trim_start_class(s.drop_first(), cls)
    } else {
        s
    }
}

/// Removes the trailing characters of class `cls`, as `str::trim_end_matches`.
pub open spec fn trim_end_class(s: Seq<char>, cls: CharClass) -> Seq<char>
    decreases s.len(),
{
    if s.len() > 0 && in_class(cls, s.last()) {
        trim_end_class(s.drop_last(), cls)
    } else {
        s
    }
}

/// `str::trim`: leading and trailing white space removed.
pub open spec fn trim(s: Seq<char>) -> Seq<char> {
    trim_end_class(trim_start_class(s, CharClass::Whitespace), CharClass::Whitespace)
}

pub proof fn lemma_trim_start_at(s: Seq<char>, cls: CharClass, k: int)
    requires
        0 <= k <= s.len(),
        forall|j: int| 0 <= j < k ==> in_class(cls, #[trigger] s[j]),
        k == s.len() || !in_class(cls, s[k]),
    ensures
        trim_start_class(s, cls) == s.skip(k),
    decreases k,
{
    if k == 0 {
        assert(s.skip(0) =~= s);
    } else {
        assert(in_class(cls, s[0]));
        let t = s.drop_first();
        assert forall|j: int| 0 <= j < k - 1 implies in_class(cls, #[trigger] t[j]) by {
            assert(t[j] == s[j + 1]);
        }
        lemma_trim_start_at(t, cls, k - 1);
        assert(t.skip(k - 1) =~= s.skip(k));
    }
}

pub proof fn lemma_trim_end_at(s: Seq<char>, cls: CharClass, k: int)
    requires
        0 <= k <= s.len(),
        forall|j: int| k <= j < s.len() ==> in_class(cls, #[trigger] s[j]),
        k == 0 || !in_class(cls, s[k - 1]),
    ensures
        trim_end_class(s, cls) == s.take(k),
    decreases s.len() - k,
{
    if k == s.len() {
        assert(s.take(k) =~= s);
    } else {
        assert(in_class(cls, s.last()));
        let t = s.drop_last();
        assert forall|j: int| k <= j < t.len() implies in_class(cls, #[trigger] t[j]) by {
            assert(t[j] == s[j]);
        }
        lemma_trim_end_at(t, cls, k);
        assert(t.take(k) =~= s.take(k));
    }
}

/// Copies `v[lo..hi]`.
pub fn slice_chars(v: &Vec<char>, lo: usize, hi: usize) -> (r: Vec<char>)
    requires
        lo <= hi <= v.len(),
    ensures
        r@ == v@.subrange(lo as int, hi as int),
{
    let mut r: Vec<char> = Vec::new();
    let mut k: usize = lo;
    while k < hi
        invariant
            lo <= k <= hi,
            hi <= v.len(),
            r@ == v@.subrange(lo as int, k as int),
        decreases hi - k,
    {
        r.push(v[k]);
        assert(v@.subrange(lo as int, k + 1) =~= v@.subrange(lo as int, k as int).push(
            v@[k as int],
        ));
        k += 1;
    }
    r
}

pub fn trim_start_chars(s: &Vec<char>, cls: CharClass) -> (r: Vec<char>)
    ensures
        r@ == trim_start_class(s@, cls),
{
    let mut k: usize = 0;
    while k < s.len() && char_in_class(cls, s[k])
        invariant
            k <= s.len(),
            forall|j: int| 0 <= j < k ==> in_class(cls, #[trigger] s@[j]),
        decreases s.len() - k,
    {
        k += 1;
    }
    proof {
        lemma_trim_start_at(s@, cls, k as int);
    }
    let r = slice_chars(s, k, s.len());
    assert(r@ =~= s@.skip(k as int));
    r
}

pub fn trim_end_chars(s: &Vec<char>, cls: CharClass) -> (r: Vec<char>)
    ensures
        r@ == trim_end_class(s@, cls),
{
    let mut k: usize = s.len();
    while k > 0 && char_in_class(cls, s[k - 1])
        invariant
            k <= s.len(),
            forall|j: int| k <= j < s.len() ==> in_class(cls, #[trigger] s@[j]),
        decreases k,
    {
        k -= 1;
    }
    proof {
        lemma_trim_end_at(s@, cls, k as int);
    }
    let r = slice_chars(s, 0, k);
    assert(r@ =~= s@.take(k as int));
    r
}

pub fn trim_chars(s: &Vec<char>) -> (r: Vec<char>)
    ensures
        r@ == trim(s@),
{
    let t = trim_start_chars(s, CharClass::Whitespace);
    trim_end_chars(&t, CharClass::Whitespace)
}

// ---------------------------------------------------------------------------
// Splitting
// ---------------------------------------------------------------------------

/// The pieces of `s` between separators of class `sep`, as `str::split` with a
/// character pattern returns them: `n` separators give `n + 1` pieces.
pub open spec fn split_by(s: Seq<char>, sep: CharClass) -> Seq<Seq<char>>
    decreases s.len(),
{
    if s.len() == 0 {
        seq![Seq::<char>::empty()]
    } else {
        let prev = split_by(s.drop_last(), sep);
        if in_class(sep, s.last()) {
            prev.push(Seq::<char>::empty())
        } else {
            prev.update(prev.len() - 1, prev.last().push(s.last()))
        }
    }
}

pub proof fn lemma_split_by_nonempty(s: Seq<char>, sep: CharClass)
    ensures
        split_by(s, sep).len() >= 1,
    decreases s.len(),
{
    if s.len() > 0 {
        lemma_split_by_nonempty(s.drop_last(), sep);
    }
}

/// The non-empty pieces, in order (the filter of `str::split_whitespace`).
pub open spec fn nonempty_pieces(p: Seq<Seq<char>>) -> Seq<Seq<char>>
    decreases p.len(),
{
    if p.len() == 0 {
        p
    } else {
        let prev = nonempty_pieces(p.drop_last());
        if p.last().len() > 0 {
            prev.push(p.last())
        } else {
            prev
        }
    }
}

/// `str::split_whitespace`.
pub open spec fn split_whitespace(s: Seq<char>) -> Seq<Seq<char>> {
    nonempty_pieces(split_by(s, CharClass::Whitespace))
}

/// Removes one trailing carriage return.
pub open spec fn strip_cr(line: Seq<char>) -> Seq<char> {
    if line.len() > 0 && line.last() == '\r' {
        line.drop_last()
    } else {
        line
    }
}

/// `str::lines`: the pieces between line feeds, each that ended in a line feed
/// without its carriage return, and no empty piece after a final line feed.
pub open spec fn lines(s: Seq<char>) -> Seq<Seq<char>> {
    let p = split_by(s, CharClass::Exactly('\n'));
    let body = p.drop_last().map_values(|l: Seq<char>| strip_cr(l));
    if p.last().len() == 0 {
        body
    } else {
        body.push(p.last())
    }
}

pub open spec fn views(v: Seq<Vec<char>>) -> Seq<Seq<char>> {
    v.map_values(|x: Vec<char>| x@)
}

pub fn split_chars(s: &Vec<char>, sep: CharClass) -> (r: Vec<Vec<char>>)
    ensures
        views(r@) == split_by(s@, sep),
{
    let mut pieces: Vec<Vec<char>> = Vec::new();
    let mut cur: Vec<char> = Vec::new();
    let mut k: usize = 0;
    assert(s@.take(0) =~= Seq::<char>::empty());
    assert(views(pieces@).push(cur@) =~= split_by(s@.take(0), sep));
    while k < s.len()
        invariant
            k <= s.len(),
            views(pieces@).push(cur@) == split_by(s@.take(k as int), sep),
        decreases s.len() - k,
    {
        let c = s[k];
        let ghost before = s@.take(k as int);
        let ghost after = s@.take(k + 1);
        assert(after.drop_last() =~= before);
        assert(after.last() == c);
        if char_in_class(sep, c) {
            let done = cur;
            pieces.push(done);
            cur = Vec::new();
            assert(views(pieces@) =~= views(pieces@.drop_last()).push(done@));
            assert(views(pieces@).push(cur@) =~= split_by(after, sep));
        } else {
            let ghost old_cur = cur@;
            cur.push(c);
            assert(views(pieces@).push(cur@) =~= views(pieces@).push(old_cur).update(
                views(pieces@).len() as int,
                old_cur.push(c),
            ));
        }
        k += 1;
    }
    assert(s@.take(k as int) =~= s@);
    pieces.push(cur);
    assert(views(pieces@) =~= views(pieces@.drop_last()).push(pieces@.last()@));
    pieces
}

pub fn nonempty_chars(p: &Vec<Vec<char>>) -> (r: Vec<Vec<char>>)
    ensures
        views(r@) == nonempty_pieces(views(p@)),
{
    let mut r: Vec<Vec<char>> = Vec::new();
    let mut k: usize = 0;
    assert(views(p@).take(0) =~= Seq::<Seq<char>>::empty());
    while k < p.len()
        invariant
            k <= p.len(),
            views(r@) == nonempty_pieces(views(p@).take(k as int)),
        decreases p.len() - k,
    {
        let ghost before = views(p@).take(k as int);
        let ghost after = views(p@).take(k + 1);
        assert(after.drop_last() =~= before);
        assert(after.last() == p@[k as int]@);
        if p[k].len() > 0 {
            let piece = copy_chars(&p[k]);
            r.push(piece);
            assert(views(r@) =~= views(r@.drop_last()).push(piece@));
        }
        k += 1;
    }
    assert(views(p@).take(k as int) =~= views(p@));
    r
}

pub fn copy_chars(v: &Vec<char>) -> (r: Vec<char>)
    ensures
        r@ == v@,
{
    let r = slice_chars(v, 0, v.len());
    assert(r@ =~= v@);
    r
}

pub fn split_whitespace_chars(s: &Vec<char>) -> (r: Vec<Vec<char>>)
    ensures
        views(r@) == split_whitespace(s@),
{
    let p = split_chars(s, CharClass::Whitespace);
    nonempty_chars(&p)
}

pub fn lines_chars(s: &Vec<char>) -> (r: Vec<Vec<char>>)
    ensures
        views(r@) == lines(s@),
{
    let p = split_chars(s, CharClass::Exactly('\n'));
    proof {
        lemma_split_by_nonempty(s@, CharClass::Exactly('\n'));
    }
    let n = p.len() - 1;
    let mut r: Vec<Vec<char>> = Vec::new();
    let mut k: usize = 0;
    let ghost pv = views(p@);
    let ghost body = pv.drop_last().map_values(|l: Seq<char>| strip_cr(l));
    while k < n
        invariant
            n == p.len() - 1,
            pv == views(p@),
            body == pv.drop_last().map_values(|l: Seq<char>| strip_cr(l)),
            k <= n,
            views(r@) == body.take(k as int),
        decreases n - k,
    {
        let line = &p[k];
        let piece = if line.len() > 0 && line[line.len() - 1] == '\r' {
            slice_chars(line, 0, line.len() - 1)
        } else {
            copy_chars(line)
        };
        assert(pv[k as int] == p@[k as int]@);
        assert(piece@ =~= strip_cr(pv[k as int]));
        assert(body[k as int] == strip_cr(pv[k as int]));
        let ghost old_r = r@;
        r.push(piece);
        assert(views(r@) =~= views(old_r).push(piece@));
        assert(views(r@) =~= body.take(k + 1));
        k += 1;
    }
    assert(body.take(k as int) =~= body);
    if p[n].len() > 0 {
        let last = copy_chars(&p[n]);
        r.push(last);
        assert(views(r@) =~= body.push(pv.last()));
    }
    r
}

// ---------------------------------------------------------------------------
// Conversion between `str`/`String` and character vectors
// ---------------------------------------------------------------------------

/// Appends one character by `String::push`. Trusted, not proved: afterwards the
/// string's characters are the ones it had, followed by `c`.
#[verifier::external_body]
fn push_char(s: &mut String, c: char)
    ensures
        final(s)@ == old(s)@.push(c),
{
    s.push(c);
}

pub fn chars_of(s: &str) -> (v: Vec<char>)
    ensures
        v@ == s@,
{
    let mut v: Vec<char> = Vec::new();
    for c in it: s.chars()
        invariant
            v@ == it.seq().take(it.index() as int),
            it.seq() == s@,
    {
        v.push(c);
    }
    v
}

pub fn string_of(v: &Vec<char>) -> (s: String)
    ensures
        s@ == v@,
{
    let mut s = String::new();
    let mut k: usize = 0;
    while k < v.len()
        invariant
            k <= v.len(),
            s@ == v@.take(k as int),
        decreases v.len() - k,
    {
        push_char(&mut s, v[k]);
        assert(v@.take(k + 1) =~= v@.take(k as int).push(v@[k as int]));
        k += 1;
    }
    assert(v@.take(k as int) =~= v@);
    s
}

/// Appends `t` to `s`.
pub fn append_str(s: &mut String, t: &str)
    ensures
        final(s)@ == old(s)@ + t@,
{
    let v = chars_of(t);
    let mut k: usize = 0;
    let ghost start = s@;
    while k < v.len()
        invariant
            k <= v.len(),
            v@ == t@,
            s@ == start + v@.take(k as int),
        decreases v.len() - k,
    {
        push_char(s, v[k]);
        assert(v@.take(k + 1) =~= v@.take(k as int).push(v@[k as int]));
        assert(start + v@.take(k + 1) =~= (start + v@.take(k as int)).push(v@[k as int]));
        k += 1;
    }
    assert(v@.take(k as int) =~= v@);
}

pub fn string_from(t: &str) -> (s: String)
    ensures
        s@ == t@,
{
    let mut s = String::new();
    append_str(&mut s, t);
    assert(s@ =~= t@);
    s
}

} // verus!

verus! {

/// Full Unicode lower-casing of a string, as `str::to_lowercase` computes it.
pub uninterp spec fn unicode_lowercase(s: Seq<char>) -> Seq<char>;

/// Lower-cases a text by `str::to_lowercase`. Trusted, not proved: the result
/// is `unicode_lowercase` of the text, i.e. a function of the text alone; what
/// that function is (Unicode's lower-case mapping) is not stated.
#[verifier::external_body]
pub(crate) fn to_lowercase(s: &str) -> (r: String)
    ensures
        r@ == unicode_lowercase(s@),
{
    s.to_lowercase()
}

} // verus!

verus! {

/// Character-wise equality of two texts.
pub fn chars_equal(a: &Vec<char>, b: &Vec<char>) -> (r: bool)
    ensures
        r == (a@ == b@),
{
    if a.len() != b.len() {
        return false;
    }
    let mut k: usize = 0;
    while k < a.len()
        invariant
            a.len() == b.len(),
            k <= a.len(),
            forall|j: int| 0 <= j < k ==> a@[j] == b@[j],
        decreases a.len() - k,
    {
        if a[k] != b[k] {
            return false;
        }
        k += 1;
    }
    assert(a@ =~= b@);
    true
}

} // verus!

verus! {

pub open spec fn is_first_occurrence(s: Seq<char>, pat: Seq<char>, i: int) -> bool {
    occurs_at(s, pat, i) && forall|j: int| 0 <= j < i ==> !occurs_at(s, pat, j)
}

/// `str::split_once`: the text before and after the first occurrence of `pat`.
pub open spec fn split_once(s: Seq<char>, pat: Seq<char>) -> Option<(Seq<char>, Seq<char>)> {
    if contains(s, pat) {
        let i = choose|i: int| is_first_occurrence(s, pat, i);
        Some((s.take(i), s.skip(i + pat.len())))
    } else {
        None
    }
}

pub proof fn lemma_first_occurrence_unique(s: Seq<char>, pat: Seq<char>, i: int, k: int)
    requires
        is_first_occurrence(s, pat, i),
        is_first_occurrence(s, pat, k),
    ensures
        i == k,
{
    if i < k {
        assert(!occurs_at(s, pat, i));
    } else if k < i {
        assert(!occurs_at(s, pat, k));
    }
}

pub fn split_once_chars(s: &Vec<char>, pat: &Vec<char>) -> (r: Option<(Vec<char>, Vec<char>)>)
    ensures
        match r {
            Some((a, b)) => split_once(s@, pat@) == Some((a@, b@)),
            None => split_once(s@, pat@) is None,
        },
{
    match find(s, pat) {
        Some(i) => {
            proof {
                assert(is_first_occurrence(s@, pat@, i as int));
                let k = choose|k: int| is_first_occurrence(s@, pat@, k);
                lemma_first_occurrence_unique(s@, pat@, i as int, k);
            }
            assert(i + pat.len() <= s.len());
            let a = slice_chars(s, 0, i);
            let b = slice_chars(s, i + pat.len(), s.len());
            assert(a@ =~= s@.take(i as int));
            assert(b@ =~= s@.skip(i + pat@.len()));
            Some((a, b))
        },
        None => None,
    }
}

} // verus!

verus! {

/// The text of an optional string.
pub open spec fn opt_view(o: Option<String>) -> Option<Seq<char>> {
    match o {
        Some(s) => Some(s@),
        None => None,
    }
}

/// The texts of a list of strings.
pub open spec fn string_views(v: Seq<String>) -> Seq<Seq<char>> {
    v.map_values(|s: String| s@)
}

} // verus!
