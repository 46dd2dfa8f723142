//! Decisions taken on the GitHub releases of Helium and of the updater itself.
use vstd::prelude::*;
use crate::text::{self, chars_of, string_of, string_from, append_str, contains_chars,
    eq_ignore_ascii_case_chars, trim_start_chars, CharClass};
use crate::version::{self, normalize_chars, version_greater_than};
use crate::render;
use crate::config::UpdateMethod;

verus! {

/// A downloadable file of a release.
pub struct Asset {
    pub name: String,
    pub browser_download_url: String,
}

/// A release as the GitHub API describes it.
pub struct Release {
    pub tag_name: String,
    pub assets: Vec<Asset>,
}

/// The Helium build for the machine: `arm64` when either processor variable
/// names ARM64 (in any ASCII case), `x64` otherwise.
pub fn get_system_architecture(arch: &str, arch_w6432: &str) -> (r: &'static str)
    ensures
        r@ == (if text::eq_ignore_ascii_case(arch@, "ARM64"@) || text::eq_ignore_ascii_case(
            arch_w6432@,
            "ARM64"@,
        ) {
            "arm64"@
        } else {
            "x64"@
        }),
{
    let target = chars_of("ARM64");
    let a = chars_of(arch);
    let b = chars_of(arch_w6432);
    if eq_ignore_ascii_case_chars(&a, &target) || eq_ignore_ascii_case_chars(&b, &target) {
        "arm64"
    } else {
        "x64"
    }
}

/// The part of an installer's file name that identifies its architecture.
pub open spec fn installer_suffix(arch: Seq<char>) -> Seq<char> {
    "_"@ + arch + "-installer.exe"@
}

pub fn installer_name_part(arch: &str) -> (r: String)
    ensures
        r@ == installer_suffix(arch@),
{
    let mut s = string_from("_");
    append_str(&mut s, arch);
    append_str(&mut s, "-installer.exe");
    s
}

pub open spec fn first_asset_with(assets: Seq<Asset>, part: Seq<char>) -> Option<int>
    decreases assets.len(),
{
    if assets.len() == 0 {
        None
    } else if text::contains(assets[0].name@, part) {
        Some(0)
    } else {
        match first_asset_with(assets.drop_first(), part) {
            Some(k) => Some(k + 1),
            None => None,
        }
    }
}

proof fn lemma_first_asset_with(assets: Seq<Asset>, part: Seq<char>, k: int)
    requires
        0 <= k <= assets.len(),
        forall|j: int| 0 <= j < k ==> !text::contains(#[trigger] assets[j].name@, part),
    ensures
        k < assets.len() && text::contains(assets[k].name@, part) ==> first_asset_with(
            assets,
            part,
        ) == Some(k),
        k == assets.len() ==> first_asset_with(assets, part) is None,
    decreases k,
{
    if k > 0 {
        let t = assets.drop_first();
        assert forall|j: int| 0 <= j < k - 1 implies !text::contains(
            #[trigger] t[j].name@,
            part,
        ) by {
            assert(t[j] == assets[j + 1]);
        }
        lemma_first_asset_with(t, part, k - 1);
        if k < assets.len() {
            assert(t[k - 1] == assets[k]);
        }
    }
}

/// The index of the first asset of the release that is the installer for the
/// given architecture (its name contains `_<arch>-installer.exe`).
pub fn find_installer_asset(release: &Release, arch: &str) -> (r: Option<usize>)
    ensures
        match first_asset_with(release.assets@, installer_suffix(arch@)) {
            Some(k) => r == Some(k as usize),
            None => r is None,
        },
{
    let part_s = installer_name_part(arch);
    let part = chars_of(part_s.as_str());
    let mut k: usize = 0;
    while k < release.assets.len()
        invariant
            k <= release.assets.len(),
            part@ == installer_suffix(arch@),
            forall|j: int|
                0 <= j < k ==> !text::contains(#[trigger] release.assets@[j].name@, part@),
        decreases release.assets.len() - k,
    {
        let name = chars_of(release.assets[k].name.as_str());
        if contains_chars(&name, &part) {
            proof {
                lemma_first_asset_with(release.assets@, part@, k as int);
            }
            return Some(k);
        }
        k += 1;
    }
    proof {
        lemma_first_asset_with(release.assets@, part@, k as int);
    }
    None
}

/// Why an update could not be completed.
pub enum UpdateError {
    /// The latest release has no installer for this machine.
    NoInstallerFound,
    /// The installer exited unsuccessfully with the given code.
    InstallerFailed(Option<i32>),
    /// The winget upgrade (`true`) or install (`false`) exited unsuccessfully.
    WingetFailed(bool, Option<i32>),
}

pub open spec fn update_error_message(e: UpdateError) -> Seq<char> {
    match e {
        UpdateError::NoInstallerFound => "No installer found"@,
        UpdateError::InstallerFailed(code) => "Helium installer failed with exit code "@
            + render::debug_option_i32(code),
        UpdateError::WingetFailed(installed, code) => "winget "@ + (if installed {
            "upgrade"@
        } else {
            "install"@
        }) + " failed with exit code "@ + render::debug_option_i32(code),
    }
}

impl UpdateError {
    /// The text with which the error is reported.
    pub fn message(&self) -> (r: String)
        ensures
            r@ == update_error_message(*self),
    {
        match self {
            UpdateError::NoInstallerFound => string_from("No installer found"),
            UpdateError::InstallerFailed(code) => {
                let mut s = string_from("Helium installer failed with exit code ");
                let c = render::debug_exit_code(*code);
                append_str(&mut s, c.as_str());
                s
            },
            UpdateError::WingetFailed(installed, code) => crate::winget::winget_failure_message(
                *installed,
                *code,
            ),
        }
    }
}

/// The installer to download for an update from GitHub, or the error that no
/// installer fits this machine.
pub fn select_installer_asset(release: &Release, arch: &str) -> (r: Result<usize, UpdateError>)
    ensures
        match first_asset_with(release.assets@, installer_suffix(arch@)) {
            Some(k) => r == Ok::<usize, UpdateError>(k as usize),
            None => r == Err::<usize, UpdateError>(UpdateError::NoInstallerFound),
        },
{
    match find_installer_asset(release, arch) {
        Some(k) => Ok(k),
        None => Err(UpdateError::NoInstallerFound),
    }
}

/// The outcome of running a downloaded installer or winget: success, or the
/// error that carries the exit code.
pub fn installer_outcome(success: bool, code: Option<i32>) -> (r: Result<(), UpdateError>)
    ensures
        success ==> r is Ok,
        !success ==> r == Err::<(), UpdateError>(UpdateError::InstallerFailed(code)),
{
    if success {
        Ok(())
    } else {
        Err(UpdateError::InstallerFailed(code))
    }
}

/// The outcome of a winget run, as `installer_outcome` for winget.
pub fn winget_outcome(installed: bool, success: bool, code: Option<i32>) -> (r: Result<
    (),
    UpdateError,
>)
    ensures
        success ==> r is Ok,
        !success ==> r == Err::<(), UpdateError>(UpdateError::WingetFailed(installed, code)),
{
    if success {
        Ok(())
    } else {
        Err(UpdateError::WingetFailed(installed, code))
    }
}

pub open spec fn latest_from_tag(tag: Seq<char>) -> Option<Seq<char>> {
    if version::normalized_label(tag).len() == 0 {
        None
    } else {
        Some(version::normalized_label(tag))
    }
}

/// The latest version that a release tag names, normalised; none when empty.
pub fn latest_version_from_tag(tag: &str) -> (r: Option<String>)
    ensures
        match r {
            Some(v) => latest_from_tag(tag@) == Some(v@),
            None => latest_from_tag(tag@) is None,
        },
{
    let v = chars_of(tag);
    let n = normalize_chars(&v);
    if n.len() == 0 {
        None
    } else {
        Some(string_of(&n))
    }
}

pub open spec fn update_prompt(latest: Seq<char>, current: Seq<char>) -> Seq<char> {
    "A new version of HUpdater (v"@ + latest + ") is available! Current version is v"@ + current
        + ".\n\nWould you like to open the download page?"@
}

/// The question put to the user when a newer updater is released: asked only
/// when the normalised tag is non-empty and newer than the running version.
pub fn hupdater_update_prompt(latest_tag: &str, current: &str) -> (r: Option<String>)
    ensures
        match latest_from_tag(latest_tag@) {
            Some(l) => if version::version_greater(l, current@) {
                r is Some && r->0@ == update_prompt(l, current@)
            } else {
                r is None
            },
            None => r is None,
        },
{
    match latest_version_from_tag(latest_tag) {
        Some(latest) => {
            if version_greater_than(latest.as_str(), current) {
                let mut s = string_from("A new version of HUpdater (v");
                append_str(&mut s, latest.as_str());
                append_str(&mut s, ") is available! Current version is v");
                append_str(&mut s, current);
                append_str(&mut s, ".\n\nWould you like to open the download page?");
                Some(s)
            } else {
                None
            }
        },
        None => None,
    }
}

/// What a launch through the updater does about Helium in the background.
#[derive(Clone, Copy, PartialEq, Eq, Structural, Debug)]
pub enum SilentUpdate {
    /// Nothing: no newer version on the chosen source, or nothing to run.
    Nothing,
    /// Download and run silently the release asset at this index.
    Installer(usize),
    /// Run the silent `winget upgrade` of Helium.
    WingetUpgrade,
}

/// The background update for a launch: only when an installed version is
/// known and the chosen source offers a strictly newer one. From GitHub the
/// newer version is the release tag with leading `v`s removed, and the update
/// is the release's installer for the machine, if it has one; from winget it
/// is the version that winget offers as an upgrade.
pub open spec fn silent_update_choice(
    method: UpdateMethod,
    installed: Option<Seq<char>>,
    release: Option<Release>,
    winget_available: Option<Seq<char>>,
    arch: Seq<char>,
) -> SilentUpdate {
    match installed {
        None => SilentUpdate::Nothing,
        Some(inst) => match method {
            UpdateMethod::Installer => match release {
                Some(rel) => if version::version_greater(
                    text::trim_start_class(rel.tag_name@, CharClass::Exactly('v')),
                    inst,
                ) {
                    match first_asset_with(rel.assets@, installer_suffix(arch)) {
                        Some(k) => SilentUpdate::Installer(k as usize),
                        None => SilentUpdate::Nothing,
                    }
                } else {
                    SilentUpdate::Nothing
                },
                None => SilentUpdate::Nothing,
            },
            UpdateMethod::Winget => match winget_available {
                Some(av) => if version::version_greater(av, inst) {
                    SilentUpdate::WingetUpgrade
                } else {
                    SilentUpdate::Nothing
                },
                None => SilentUpdate::Nothing,
            },
        },
    }
}

/// Decides the background update of a launch from the chosen source, the
/// installed version, the latest GitHub release (if it could be fetched), the
/// version winget offers as an upgrade (if any) and the machine's build name.
pub fn silent_update_plan(
    method: UpdateMethod,
    installed: &Option<String>,
    release: &Option<Release>,
    winget_available: &Option<String>,
    arch: &str,
) -> (r: SilentUpdate)
    ensures
        r == silent_update_choice(
            method,
            text::opt_view(*installed),
            *release,
            text::opt_view(*winget_available),
            arch@,
        ),
{
    let inst = match installed {
        Some(i) => i,
        None => {
            return SilentUpdate::Nothing;
        },
    };
    match method {
        UpdateMethod::Installer => match release {
            Some(rel) => {
                let tag = chars_of(rel.tag_name.as_str());
                let latest = string_of(&trim_start_chars(&tag, CharClass::Exactly('v')));
                if version_greater_than(latest.as_str(), inst.as_str()) {
                    match find_installer_asset(rel, arch) {
                        Some(k) => SilentUpdate::Installer(k),
                        None => SilentUpdate::Nothing,
                    }
                } else {
                    SilentUpdate::Nothing
                }
            },
            None => SilentUpdate::Nothing,
        },
        UpdateMethod::Winget => match winget_available {
            Some(av) => {
                if version_greater_than(av.as_str(), inst.as_str()) {
                    SilentUpdate::WingetUpgrade
                } else {
                    SilentUpdate::Nothing
                }
            },
            None => SilentUpdate::Nothing,
        },
    }
}

// ---------------------------------------------------------------------------
// Laws of the background update
// ---------------------------------------------------------------------------

proof fn lemma_first_asset_with_spec(assets: Seq<Asset>, part: Seq<char>)
    ensures
        match first_asset_with(assets, part) {
            Some(k) => 0 <= k < assets.len() && text::contains(assets[k].name@, part) && forall|j: int|
                0 <= j < k ==> !text::contains(#[trigger] assets[j].name@, part),
            None => forall|j: int|
                0 <= j < assets.len() ==> !text::contains(#[trigger] assets[j].name@, part),
        },
    decreases assets.len(),
{
    if assets.len() > 0 && !text::contains(assets[0].name@, part) {
        let t = assets.drop_first();
        lemma_first_asset_with_spec(t, part);
        match first_asset_with(t, part) {
            Some(k) => {
                assert(t[k] == assets[k + 1]);
                assert forall|j: int| 0 <= j < k + 1 implies !text::contains(
                    #[trigger] assets[j].name@,
                    part,
                ) by {
                    if j > 0 {
                        assert(assets[j] == t[j - 1]);
                    }
                }
            },
            None => {
                assert forall|j: int| 0 <= j < assets.len() implies !text::contains(
                    #[trigger] assets[j].name@,
                    part,
                ) by {
                    if j > 0 {
                        assert(assets[j] == t[j - 1]);
                    }
                }
            },
        }
    }
}

/// A tag that does not begin with `v` is compared as it is.
proof fn lemma_trim_v_no_v(t: Seq<char>)
    requires
        t.len() == 0 || t[0] != 'v',
    ensures
        text::trim_start_class(t, CharClass::Exactly('v')) == t,
{
}

/// From GitHub, the background update runs only when the release is newer:
/// for a tag that does not begin with `v`, if the tag is not newer than the
/// installed version (in particular when it is the installed version itself)
/// nothing is done.
pub proof fn law_github_update_only_when_newer(
    installed: Seq<char>,
    release: Release,
    winget_available: Option<Seq<char>>,
    arch: Seq<char>,
)
    requires
        release.tag_name@.len() == 0 || release.tag_name@[0] != 'v',
    ensures
        !version::version_greater(release.tag_name@, installed) ==> silent_update_choice(
            UpdateMethod::Installer,
            Some(installed),
            Some(release),
            winget_available,
            arch,
        ) == SilentUpdate::Nothing,
        release.tag_name@ == installed ==> silent_update_choice(
            UpdateMethod::Installer,
            Some(installed),
            Some(release),
            winget_available,
            arch,
        ) == SilentUpdate::Nothing,
{
    lemma_trim_v_no_v(release.tag_name@);
    version::law_version_irreflexive(installed);
}

/// Leading `v`s of the tag play no part: a release tagged `v` + t is treated
/// as one tagged t with the same assets.
pub proof fn law_github_tag_v_is_ignored(
    installed: Option<Seq<char>>,
    tagged_v: Release,
    plain: Release,
    winget_available: Option<Seq<char>>,
    arch: Seq<char>,
)
    requires
        tagged_v.tag_name@ == seq!['v'] + plain.tag_name@,
        tagged_v.assets@ == plain.assets@,
    ensures
        silent_update_choice(UpdateMethod::Installer, installed, Some(tagged_v), winget_available, arch)
            == silent_update_choice(
            UpdateMethod::Installer,
            installed,
            Some(plain),
            winget_available,
            arch,
        ),
{
    assert(tagged_v.tag_name@.drop_first() =~= plain.tag_name@);
}

/// From GitHub, for a tag that does not begin with `v`: when the tag is newer
/// than the installed version, the update is the first asset whose name holds
/// `_<arch>-installer.exe`, and nothing when no asset does; every installer
/// chosen is such a first asset of a newer release.
pub proof fn law_github_update_takes_first_installer(
    installed: Seq<char>,
    release: Release,
    winget_available: Option<Seq<char>>,
    arch: Seq<char>,
)
    requires
        release.tag_name@.len() == 0 || release.tag_name@[0] != 'v',
        release.assets@.len() <= usize::MAX,
    ensures
        ({
            let r = silent_update_choice(
                UpdateMethod::Installer,
                Some(installed),
                Some(release),
                winget_available,
                arch,
            );
            let assets = release.assets@;
            let part = "_"@ + arch + "-installer.exe"@;
            &&& r is WingetUpgrade ==> false
            &&& r matches SilentUpdate::Installer(k) ==> {
                &&& version::version_greater(release.tag_name@, installed)
                &&& k < assets.len()
                &&& text::contains(assets[k as int].name@, part)
                &&& forall|j: int| 0 <= j < k ==> !text::contains(#[trigger] assets[j].name@, part)
            }
            &&& version::version_greater(release.tag_name@, installed) && (exists|j: int|
                0 <= j < assets.len() && text::contains(#[trigger] assets[j].name@, part)) ==> r is Installer
        }),
{
    lemma_trim_v_no_v(release.tag_name@);
    lemma_first_asset_with_spec(release.assets@, installer_suffix(arch));
}

/// With no installed version known nothing is updated; from GitHub the winget
/// offer plays no part, and from winget the release plays none: winget
/// upgrades exactly when it offers a version newer than the installed one.
pub proof fn law_silent_update_uses_the_chosen_source(
    installed: Option<Seq<char>>,
    release: Option<Release>,
    other_release: Option<Release>,
    winget_available: Option<Seq<char>>,
    other_available: Option<Seq<char>>,
    arch: Seq<char>,
)
    ensures
        installed is None ==> silent_update_choice(
            UpdateMethod::Installer,
            installed,
            release,
            winget_available,
            arch,
        ) == SilentUpdate::Nothing && silent_update_choice(
            UpdateMethod::Winget,
            installed,
            release,
            winget_available,
            arch,
        ) == SilentUpdate::Nothing,
        silent_update_choice(UpdateMethod::Installer, installed, release, winget_available, arch)
            == silent_update_choice(UpdateMethod::Installer, installed, release, other_available, arch),
        silent_update_choice(UpdateMethod::Winget, installed, release, winget_available, arch)
            == silent_update_choice(UpdateMethod::Winget, installed, other_release, winget_available, arch),
        silent_update_choice(UpdateMethod::Winget, installed, release, winget_available, arch) != SilentUpdate::Nothing
            <==> (installed is Some && winget_available is Some && version::version_greater(
            winget_available->0,
            installed->0,
        )),
        silent_update_choice(UpdateMethod::Winget, installed, release, winget_available, arch) is Installer
            ==> false,
{
}

} // verus!
