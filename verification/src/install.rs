//! How the updater decides from the Windows uninstall registry whether, where
//! and in which version Helium is installed.
use vstd::prelude::*;
use crate::text::{self, chars_of, string_of, contains_chars, to_ascii_lowercase_chars,
    to_lowercase};
use crate::version::{self, normalize_chars};

verus! {

/// Whether Helium was installed for the current user or for the machine.
#[derive(Clone, Copy, PartialEq, Eq, Structural, Debug)]
pub enum InstallScope {
    User,
    System,
}

/// An uninstall key found at one of the exact paths where Helium registers
/// itself, with its `DisplayVersion` value (empty when the value is missing).
pub struct ExactUninstallKey {
    pub scope: InstallScope,
    pub display_version: String,
}

/// One subkey of an `Uninstall` key, with its `DisplayName` and
/// `DisplayVersion` values (empty when missing).
pub struct UninstallEntry {
    pub scope: InstallScope,
    pub key_name: String,
    pub display_name: String,
    pub display_version: String,
}

/// What the registry says of Helium: whether it is installed, its version if
/// the registry records a non-empty one, and the scope of the installation.
pub struct HeliumScan {
    pub installed: bool,
    pub version: Option<String>,
    pub scope: Option<InstallScope>,
}

pub open spec fn scan_view(s: HeliumScan) -> (bool, Option<Seq<char>>, Option<InstallScope>) {
    (s.installed, text::opt_view(s.version), s.scope)
}

/// The scan result for an installation found with the given raw version text.
pub open spec fn found_with(version: Seq<char>, scope: InstallScope) -> (
    bool,
    Option<Seq<char>>,
    Option<InstallScope>,
) {
    let n = version::normalized_label(version);
    (true, if n.len() == 0 {
        None
    } else {
        Some(n)
    }, Some(scope))
}

/// An uninstall entry belongs to Helium when its display name, lower-cased in
/// ASCII, or its key name, lower-cased in full Unicode, contains `helium`.
pub open spec fn mentions_helium(e: UninstallEntry) -> bool {
    text::contains(text::ascii_lower_seq(e.display_name@), "helium"@) || text::contains(
        text::unicode_lowercase(e.key_name@),
        "helium"@,
    )
}

pub open spec fn first_mentioning(entries: Seq<UninstallEntry>) -> Option<int>
    decreases entries.len(),
{
    if entries.len() == 0 {
        None
    } else if mentions_helium(entries[0]) {
        Some(0)
    } else {
        match first_mentioning(entries.drop_first()) {
            Some(k) => Some(k + 1),
            None => None,
        }
    }
}

/// The first exact key wins; otherwise the first scanned entry that mentions
/// Helium; otherwise Helium is not installed.
pub open spec fn scan_spec(exact: Seq<ExactUninstallKey>, entries: Seq<UninstallEntry>) -> (
    bool,
    Option<Seq<char>>,
    Option<InstallScope>,
) {
    if exact.len() > 0 {
        found_with(exact[0].display_version@, exact[0].scope)
    } else {
        match first_mentioning(entries) {
            Some(i) => found_with(entries[i].display_version@, entries[i].scope),
            None => (false, None, None),
        }
    }
}

fn found_scan(version: &String, scope: InstallScope) -> (r: HeliumScan)
    ensures
        scan_view(r) == found_with(version@, scope),
{
    let v = chars_of(version.as_str());
    let n = normalize_chars(&v);
    if n.len() == 0 {
        HeliumScan { installed: true, version: None, scope: Some(scope) }
    } else {
        HeliumScan { installed: true, version: Some(string_of(&n)), scope: Some(scope) }
    }
}

/// Whether one uninstall entry belongs to Helium.
pub fn entry_mentions_helium(e: &UninstallEntry) -> (r: bool)
    ensures
        r == mentions_helium(*e),
{
    let pat = chars_of("helium");
    let name = chars_of(e.display_name.as_str());
    let lower = to_ascii_lowercase_chars(&name);
    if contains_chars(&lower, &pat) {
        return true;
    }
    let key_lower = to_lowercase(e.key_name.as_str());
    let key_chars = chars_of(key_lower.as_str());
    contains_chars(&key_chars, &pat)
}

proof fn lemma_first_mentioning_at(entries: Seq<UninstallEntry>, k: int)
    requires
        0 <= k <= entries.len(),
        forall|j: int| 0 <= j < k ==> !mentions_helium(#[trigger] entries[j]),
    ensures
        k < entries.len() && mentions_helium(entries[k]) ==> first_mentioning(entries) == Some(k),
        k == entries.len() ==> first_mentioning(entries) is None,
    decreases k,
{
    if k > 0 {
        let t = entries.drop_first();
        assert forall|j: int| 0 <= j < k - 1 implies !mentions_helium(#[trigger] t[j]) by {
            assert(t[j] == entries[j + 1]);
        }
        lemma_first_mentioning_at(t, k - 1);
        if k < entries.len() {
            assert(t[k - 1] == entries[k]);
        }
    } else if entries.len() > 0 {
    }
}

/// Decides what the registry says of Helium from the exact uninstall keys that
/// exist (in the order current user, machine; native, then 32-bit view) and,
/// failing those, from all uninstall entries in the same order.
pub fn scan_uninstall_entries(exact: &Vec<ExactUninstallKey>, entries: &Vec<UninstallEntry>) -> (r:
    HeliumScan)
    ensures
        scan_view(r) == scan_spec(exact@, entries@),
{
    if exact.len() > 0 {
        return found_scan(&exact[0].display_version, exact[0].scope);
    }
    let mut k: usize = 0;
    while k < entries.len()
        invariant
            k <= entries.len(),
            exact@.len() == 0,
            forall|j: int| 0 <= j < k ==> !mentions_helium(#[trigger] entries@[j]),
        decreases entries.len() - k,
    {
        if entry_mentions_helium(&entries[k]) {
            proof {
                lemma_first_mentioning_at(entries@, k as int);
            }
            return found_scan(&entries[k].display_version, entries[k].scope);
        }
        k += 1;
    }
    proof {
        lemma_first_mentioning_at(entries@, k as int);
    }
    HeliumScan { installed: false, version: None, scope: None }
}

/// The installed version: the registry's when it records one, otherwise the
/// one winget reports.
pub fn installed_version(registry: Option<String>, winget: Option<String>) -> (r: Option<String>)
    ensures
        r == (if registry is Some {
            registry
        } else {
            winget
        }),
{
    if registry.is_some() {
        registry
    } else {
        winget
    }
}

/// The name under which the user interface shows an installation scope.
pub fn scope_label(scope: InstallScope) -> (r: &'static str)
    ensures
        r@ == (if scope == InstallScope::System {
            "system"@
        } else {
            "user"@
        }),
{
    match scope {
        InstallScope::System => "system",
        InstallScope::User => "user",
    }
}

} // verus!

verus! {

/// The candidate path to use among those tried in order (`exists[i]` tells
/// whether the i-th exists): the first that exists, or the last one when none
/// does.
pub fn pick_existing_candidate(exists: &Vec<bool>) -> (r: usize)
    requires
        exists.len() > 0,
    ensures
        r < exists.len(),
        forall|j: int| 0 <= j < r ==> !exists@[j],
        exists@[r as int] || (r == exists.len() - 1 && forall|j: int|
            0 <= j < exists.len() ==> !exists@[j]),
{
    let mut k: usize = 0;
    while k < exists.len()
        invariant
            k <= exists.len(),
            forall|j: int| 0 <= j < k ==> !exists@[j],
        decreases exists.len() - k,
    {
        if exists[k] {
            return k;
        }
        k += 1;
    }
    exists.len() - 1
}

} // verus!
