//! Helium's AppUserModelID: which registry values are accepted as one and in
//! which order the places that may hold it are consulted.
use vstd::prelude::*;
use crate::text::{self, chars_of, string_of, string_from, append_str, trim_chars,
    starts_with_chars, to_ascii_lowercase_chars};

verus! {

/// An AppUserModelID is usable when it is non-empty, holds no space and is at
/// most 128 bytes long in UTF-8.
pub open spec fn valid_app_id(s: Seq<char>) -> bool {
    s.len() > 0 && !text::contains(s, seq![' ']) && utf8_len(s) <= 128
}

/// The number of bytes of one character in UTF-8 (`char::len_utf8`).
pub open spec fn utf8_width(c: char) -> nat {
    let u = c as u32;
    if u < 0x80 {
        1
    } else if u < 0x800 {
        2
    } else if u < 0x10000 {
        3
    } else {
        4
    }
}

/// The number of bytes of a text in UTF-8 (`str::len`).
pub open spec fn utf8_len(s: Seq<char>) -> nat
    decreases s.len(),
{
    if s.len() == 0 {
        0
    } else {
        utf8_len(s.drop_last()) + utf8_width(s.last())
    }
}

proof fn lemma_utf8_len_prefix(s: Seq<char>, k: int)
    requires
        0 <= k <= s.len(),
    ensures
        utf8_len(s.take(k)) <= utf8_len(s),
    decreases s.len() - k,
{
    if k < s.len() {
        lemma_utf8_len_prefix(s.drop_last(), k);
        assert(s.drop_last().take(k) =~= s.take(k));
    } else {
        assert(s.take(k) =~= s);
    }
}

pub fn is_valid_app_id(app_id: &str) -> (r: bool)
    ensures
        r == valid_app_id(app_id@),
{
    let v = chars_of(app_id);
    let mut k: usize = 0;
    let mut bytes: u64 = 0;
    assert(v@.take(0) =~= Seq::<char>::empty());
    while k < v.len()
        invariant
            k <= v.len(),
            v@ == app_id@,
            forall|j: int| 0 <= j < k ==> v@[j] != ' ',
            bytes == utf8_len(v@.take(k as int)),
            bytes <= 128,
        decreases v.len() - k,
    {
        let u = v[k] as u32;
        let w: u64 = if u < 0x80 {
            1
        } else if u < 0x800 {
            2
        } else if u < 0x10000 {
            3
        } else {
            4
        };
        assert(v@.take(k + 1).drop_last() =~= v@.take(k as int));
        if bytes + w > 128 {
            proof {
                lemma_utf8_len_prefix(v@, k + 1);
            }
            return false;
        }
        bytes = bytes + w;
        if v[k] == ' ' {
            assert(text::occurs_at(v@, seq![' '], k as int)) by {
                assert(v@.subrange(k as int, k + 1) =~= seq![' ']);
            }
            return false;
        }
        k += 1;
    }
    assert(!text::contains(v@, seq![' '])) by {
        assert forall|i: int| !text::occurs_at(v@, seq![' '], i) by {
            if text::occurs_at(v@, seq![' '], i) {
                assert(v@.subrange(i, i + 1)[0] == v@[i]);
            }
        }
    }
    assert(v@.take(k as int) =~= v@);
    v.len() > 0
}

/// A registry string value as the lookups use it: trimmed, and only when the
/// trimmed text is non-empty.
pub open spec fn trimmed_value(raw: Option<Seq<char>>) -> Option<Seq<char>> {
    match raw {
        Some(s) => if text::trim(s).len() > 0 {
            Some(text::trim(s))
        } else {
            None
        },
        None => None,
    }
}

/// Trims a registry string value, keeping it only when something is left.
pub fn nonempty_trimmed(raw: Option<String>) -> (r: Option<String>)
    ensures
        text::opt_view(r) == trimmed_value(text::opt_view(raw)),
{
    match raw {
        Some(s) => {
            let v = chars_of(s.as_str());
            let t = trim_chars(&v);
            if t.len() > 0 {
                Some(string_of(&t))
            } else {
                None
            }
        },
        None => None,
    }
}

/// The AppUserModelID of a `Software\Classes\<key>` entry: its own
/// `AppUserModelId` value, or failing that the one of its `Application`
/// subkey; the value found first must be valid.
pub open spec fn classes_app_id(direct: Option<Seq<char>>, nested: Option<Seq<char>>) -> Option<
    Seq<char>,
> {
    let found = match trimmed_value(direct) {
        Some(v) => Some(v),
        None => trimmed_value(nested),
    };
    match found {
        Some(v) => if valid_app_id(v) {
            Some(v)
        } else {
            None
        },
        None => None,
    }
}

pub fn app_id_from_classes_values(direct: Option<String>, nested: Option<String>) -> (r: Option<
    String,
>)
    ensures
        text::opt_view(r) == classes_app_id(text::opt_view(direct), text::opt_view(nested)),
{
    let found = match nonempty_trimmed(direct) {
        Some(v) => Some(v),
        None => nonempty_trimmed(nested),
    };
    match found {
        Some(v) => {
            if is_valid_app_id(v.as_str()) {
                Some(v)
            } else {
                None
            }
        },
        None => None,
    }
}

/// The registry path of a class key: `Software\Classes\<key_name>`.
pub fn classes_key_path(key_name: &str) -> (r: String)
    ensures
        r@ == "Software\\Classes\\"@ + key_name@,
{
    let mut s = string_from("Software\\Classes\\");
    append_str(&mut s, key_name);
    s
}

/// The path of the `Application` subkey of a key path.
pub fn application_key_path(base: &str) -> (r: String)
    ensures
        r@ == base@ + "\\Application"@,
{
    let mut s = string_from(base);
    append_str(&mut s, "\\Application");
    s
}

pub open spec fn start_menu_match(name: Seq<char>) -> bool {
    text::starts_with(text::ascii_lower_seq(name), "helium"@) && valid_app_id(name)
}

pub open spec fn first_start_menu_match(names: Seq<String>) -> Option<int>
    decreases names.len(),
{
    if names.len() == 0 {
        None
    } else if start_menu_match(names[0]@) {
        Some(0)
    } else {
        match first_start_menu_match(names.drop_first()) {
            Some(k) => Some(k + 1),
            None => None,
        }
    }
}

proof fn lemma_first_start_menu_match(names: Seq<String>, k: int)
    requires
        0 <= k <= names.len(),
        forall|j: int| 0 <= j < k ==> !start_menu_match(#[trigger] names[j]@),
    ensures
        k < names.len() && start_menu_match(names[k]@) ==> first_start_menu_match(names) == Some(
            k,
        ),
        k == names.len() ==> first_start_menu_match(names) is None,
    decreases k,
{
    if k > 0 {
        let t = names.drop_first();
        assert forall|j: int| 0 <= j < k - 1 implies !start_menu_match(#[trigger] t[j]@) by {
            assert(t[j] == names[j + 1]);
        }
        lemma_first_start_menu_match(t, k - 1);
        if k < names.len() {
            assert(t[k - 1] == names[k]);
        }
    }
}

/// Among the subkeys of `Software\Clients\StartMenuInternet`, the first whose
/// name begins with `helium` in any ASCII case and is a valid AppUserModelID.
pub fn find_app_id_in_start_menu_internet(key_names: &Vec<String>) -> (r: Option<String>)
    ensures
        match first_start_menu_match(key_names@) {
            Some(k) => r == Some(key_names@[k]),
            None => r is None,
        },
{
    let pat = chars_of("helium");
    let mut k: usize = 0;
    while k < key_names.len()
        invariant
            k <= key_names.len(),
            pat@ == "helium"@,
            forall|j: int| 0 <= j < k ==> !start_menu_match(#[trigger] key_names@[j]@),
        decreases key_names.len() - k,
    {
        let name = &key_names[k];
        let v = chars_of(name.as_str());
        let lower = to_ascii_lowercase_chars(&v);
        if starts_with_chars(&lower, &pat) && is_valid_app_id(name.as_str()) {
            proof {
                lemma_first_start_menu_match(key_names@, k as int);
            }
            return Some(name.clone());
        }
        k += 1;
    }
    proof {
        lemma_first_start_menu_match(key_names@, k as int);
    }
    None
}

/// The names that begin with `prefix` (case-sensitively), in order.
pub open spec fn names_with_prefix(names: Seq<Seq<char>>, prefix: Seq<char>) -> Seq<Seq<char>>
    decreases names.len(),
{
    if names.len() == 0 {
        names
    } else {
        let prev = names_with_prefix(names.drop_last(), prefix);
        if text::starts_with(names.last(), prefix) {
            prev.push(names.last())
        } else {
            prev
        }
    }
}

/// The subkeys of `Software\Classes` that may hold Helium's AppUserModelID
/// under a given prefix, in the order they are tried.
pub fn classes_keys_with_prefix(key_names: &Vec<String>, prefix: &str) -> (r: Vec<String>)
    ensures
        text::string_views(r@) == names_with_prefix(text::string_views(key_names@), prefix@),
{
    let p = chars_of(prefix);
    let mut r: Vec<String> = Vec::new();
    let mut k: usize = 0;
    assert(text::string_views(key_names@).take(0) =~= Seq::<Seq<char>>::empty());
    while k < key_names.len()
        invariant
            k <= key_names.len(),
            p@ == prefix@,
            text::string_views(r@) == names_with_prefix(text::string_views(key_names@).take(k as int), prefix@),
        decreases key_names.len() - k,
    {
        let ghost after = text::string_views(key_names@).take(k + 1);
        assert(after.drop_last() =~= text::string_views(key_names@).take(k as int));
        assert(after.last() == key_names@[k as int]@);
        let v = chars_of(key_names[k].as_str());
        if starts_with_chars(&v, &p) {
            let ghost before = r@;
            r.push(key_names[k].clone());
            assert(text::string_views(r@) =~= text::string_views(before).push(key_names@[k as int]@));
        }
        k += 1;
    }
    assert(text::string_views(key_names@).take(k as int) =~= text::string_views(key_names@));
    r
}

/// A registry hive that holds Helium's registration.
#[derive(Clone, Copy, PartialEq, Eq, Structural, Debug)]
pub enum Hive {
    CurrentUser,
    LocalMachine,
}

/// A class key under which Helium registers its AppUserModelID.
#[derive(Clone, Copy, PartialEq, Eq, Structural, Debug)]
pub enum ClassKey {
    HeliumHtm,
    HeliumPdf,
}

impl ClassKey {
    /// The key's name under `Software\Classes`.
    pub fn name(&self) -> (r: &'static str)
        ensures
            r@ == (match self {
                ClassKey::HeliumHtm => "HeliumHTM"@,
                ClassKey::HeliumPdf => "HeliumPDF"@,
            }),
    {
        match self {
            ClassKey::HeliumHtm => "HeliumHTM",
            ClassKey::HeliumPdf => "HeliumPDF",
        }
    }
}

/// One place where Helium's AppUserModelID may be found.
#[derive(Clone, Copy, PartialEq, Eq, Structural, Debug)]
pub enum AppIdLookup {
    /// `Software\Classes\<key>` (see `app_id_from_classes_values`).
    ClassesKey(Hive, ClassKey),
    /// `Software\Clients\StartMenuInternet` (see
    /// `find_app_id_in_start_menu_internet`).
    StartMenuInternet(Hive),
    /// The subkeys of `Software\Classes` whose names begin with the key's name
    /// (see `classes_keys_with_prefix`), in order.
    ClassesPrefix(Hive, ClassKey),
}

/// The order in which the places are consulted, the first that yields an
/// AppUserModelID deciding: the named class keys of the current user, then of
/// the machine; the start-menu registrations of both; then the prefixed class
/// keys of the current user, then of the machine.
pub open spec fn lookup_order() -> Seq<AppIdLookup> {
    seq![
        AppIdLookup::ClassesKey(Hive::CurrentUser, ClassKey::HeliumHtm),
        AppIdLookup::ClassesKey(Hive::CurrentUser, ClassKey::HeliumPdf),
        AppIdLookup::ClassesKey(Hive::LocalMachine, ClassKey::HeliumHtm),
        AppIdLookup::ClassesKey(Hive::LocalMachine, ClassKey::HeliumPdf),
        AppIdLookup::StartMenuInternet(Hive::CurrentUser),
        AppIdLookup::StartMenuInternet(Hive::LocalMachine),
        AppIdLookup::ClassesPrefix(Hive::CurrentUser, ClassKey::HeliumHtm),
        AppIdLookup::ClassesPrefix(Hive::CurrentUser, ClassKey::HeliumPdf),
        AppIdLookup::ClassesPrefix(Hive::LocalMachine, ClassKey::HeliumHtm),
        AppIdLookup::ClassesPrefix(Hive::LocalMachine, ClassKey::HeliumPdf),
    ]
}

pub fn app_id_lookup_order() -> (r: Vec<AppIdLookup>)
    ensures
        r@ == lookup_order(),
{
    let r = vec![
        AppIdLookup::ClassesKey(Hive::CurrentUser, ClassKey::HeliumHtm),
        AppIdLookup::ClassesKey(Hive::CurrentUser, ClassKey::HeliumPdf),
        AppIdLookup::ClassesKey(Hive::LocalMachine, ClassKey::HeliumHtm),
        AppIdLookup::ClassesKey(Hive::LocalMachine, ClassKey::HeliumPdf),
        AppIdLookup::StartMenuInternet(Hive::CurrentUser),
        AppIdLookup::StartMenuInternet(Hive::LocalMachine),
        AppIdLookup::ClassesPrefix(Hive::CurrentUser, ClassKey::HeliumHtm),
        AppIdLookup::ClassesPrefix(Hive::CurrentUser, ClassKey::HeliumPdf),
        AppIdLookup::ClassesPrefix(Hive::LocalMachine, ClassKey::HeliumHtm),
        AppIdLookup::ClassesPrefix(Hive::LocalMachine, ClassKey::HeliumPdf),
    ];
    assert(r@ =~= lookup_order());
    r
}

/// Why no AppUserModelID could be determined.
#[derive(Clone, Copy, PartialEq, Eq, Structural, Debug)]
pub enum AppIdError {
    NotFound,
}

impl AppIdError {
    /// The message of the error.
    pub fn message(&self) -> (r: &'static str)
        ensures
            r@ == "Could not resolve Helium AppUserModelID from the registry."@,
    {
        "Could not resolve Helium AppUserModelID from the registry."
    }
}

} // verus!
