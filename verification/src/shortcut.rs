//! What the Helium shortcuts point to with and without launch interception.
use vstd::prelude::*;
use crate::text::{self, string_from};

verus! {

/// The fields of a shortcut that the updater writes.
pub struct ShortcutSpec {
    pub target: String,
    pub arguments: Option<String>,
    pub working_dir: String,
    pub icon_location: Option<String>,
}

/// An intercepting shortcut starts the updater with `--launch` in the
/// updater's folder and keeps showing Helium's own icon, taken from Helium's
/// executable.
pub fn intercepting_shortcut(updater_exe: &str, updater_dir: &str, helium_exe: &str) -> (s:
    ShortcutSpec)
    ensures
        s.target@ == updater_exe@,
        s.arguments matches Some(a) && a@ == "--launch"@,
        s.working_dir@ == updater_dir@,
        s.icon_location matches Some(i) && i@ == helium_exe@,
{
    ShortcutSpec {
        target: string_from(updater_exe),
        arguments: Some(string_from("--launch")),
        working_dir: string_from(updater_dir),
        icon_location: Some(string_from(helium_exe)),
    }
}

/// A restored shortcut starts Helium directly in Helium's folder.
pub fn restored_shortcut(helium_exe: &str, helium_dir: &str) -> (s: ShortcutSpec)
    ensures
        s.target@ == helium_exe@,
        s.arguments is None,
        s.working_dir@ == helium_dir@,
        s.icon_location is None,
{
    ShortcutSpec {
        target: string_from(helium_exe),
        arguments: None,
        working_dir: string_from(helium_dir),
        icon_location: None,
    }
}

pub open spec fn existing_indices(exists: Seq<bool>) -> Seq<usize>
    decreases exists.len(),
{
    if exists.len() == 0 {
        Seq::empty()
    } else if exists.last() {
        existing_indices(exists.drop_last()).push((exists.len() - 1) as usize)
    } else {
        existing_indices(exists.drop_last())
    }
}

proof fn lemma_existing_indices(e: Seq<bool>)
    requires
        e.len() <= usize::MAX,
    ensures
        forall|j: int|
            0 <= j < existing_indices(e).len() ==> (#[trigger] existing_indices(e)[j] as int) < e.len()
                && e[existing_indices(e)[j] as int],
        forall|j1: int, j2: int|
            0 <= j1 < j2 < existing_indices(e).len() ==> #[trigger] existing_indices(e)[j1]
                < #[trigger] existing_indices(e)[j2],
        forall|i: int| 0 <= i < e.len() && #[trigger] e[i] ==> existing_indices(e).contains(i as usize),
    decreases e.len(),
{
    if e.len() > 0 {
        let e1 = e.drop_last();
        lemma_existing_indices(e1);
        let r1 = existing_indices(e1);
        let r = existing_indices(e);
        assert forall|j: int| 0 <= j < r.len() implies (#[trigger] r[j] as int) < e.len() && e[r[j] as int] by {
            if j < r1.len() {
                assert(r[j] == r1[j]);
                assert(e1[r1[j] as int] == e[r1[j] as int]);
            }
        }
        assert forall|i: int| 0 <= i < e.len() && #[trigger] e[i] implies r.contains(i as usize) by {
            if i < e.len() - 1 {
                assert(e1[i] == e[i]);
                let j = choose|j: int| 0 <= j < r1.len() && r1[j] == i as usize;
                assert(r[j] == r1[j]);
            } else {
                assert(r[r.len() - 1] == i as usize);
            }
        }
        assert forall|j1: int, j2: int| 0 <= j1 < j2 < r.len() implies #[trigger] r[j1] < #[trigger] r[j2] by {
            if j2 < r1.len() {
                assert(r[j1] == r1[j1] && r[j2] == r1[j2]);
            } else {
                assert(r[j1] == r1[j1]);
                assert((r1[j1] as int) < e1.len());
            }
        }
    }
}

/// The shortcuts that interception rewrites are exactly the existing ones:
/// a slot is in the list if and only if its file exists, every entry names
/// a slot, and the entries increase, so each existing slot comes once, in
/// slot order.
pub proof fn law_rewrites_exactly_existing(exists: Seq<bool>)
    requires
        exists.len() <= usize::MAX,
    ensures
        forall|i: int|
            0 <= i < exists.len() ==> (exists[i] <==> #[trigger] existing_indices(exists).contains(
                i as usize,
            )),
        forall|j: int|
            0 <= j < existing_indices(exists).len() ==> (#[trigger] existing_indices(exists)[j] as int)
                < exists.len(),
        forall|j1: int, j2: int|
            0 <= j1 < j2 < existing_indices(exists).len() ==> #[trigger] existing_indices(exists)[j1]
                < #[trigger] existing_indices(exists)[j2],
{
    lemma_existing_indices(exists);
    let r = existing_indices(exists);
    assert forall|i: int| 0 <= i < exists.len() implies (exists[i] <==> #[trigger] r.contains(
        i as usize,
    )) by {
        if r.contains(i as usize) {
            let j = choose|j: int| 0 <= j < r.len() && r[j] == i as usize;
            assert(exists[r[j] as int]);
        }
    }
}

/// The shortcut slots that are rewritten: those whose file exists, in order.
/// With none, interception changes nothing.
pub fn shortcuts_to_rewrite(exists: &Vec<bool>) -> (r: Vec<usize>)
    ensures
        r@ == existing_indices(exists@),
        forall|i: int| 0 <= i < exists.len() ==> (exists[i] <==> #[trigger] r@.contains(i as usize)),
        forall|j: int| 0 <= j < r.len() ==> (#[trigger] r@[j] as int) < exists.len(),
        forall|j1: int, j2: int| 0 <= j1 < j2 < r.len() ==> #[trigger] r@[j1] < #[trigger] r@[j2],
{
    let n = exists.len();
    proof {
        assert(exists@.len() == n);
        law_rewrites_exactly_existing(exists@);
    }
    let mut r: Vec<usize> = Vec::new();
    let mut k: usize = 0;
    assert(exists@.take(0) =~= Seq::<bool>::empty());
    while k < exists.len()
        invariant
            k <= exists.len(),
            r@ == existing_indices(exists@.take(k as int)),
        decreases exists.len() - k,
    {
        assert(exists@.take(k + 1).drop_last() =~= exists@.take(k as int));
        if exists[k] {
            r.push(k);
        }
        k += 1;
    }
    assert(exists@.take(k as int) =~= exists@);
    r
}

/// The arguments handed on to Helium by an intercepted launch: everything
/// after the program name and the `--launch` flag.
pub fn forwarded_launch_args(args: &Vec<String>) -> (r: Vec<String>)
    ensures
        r@ == (if args@.len() > 2 {
            args@.skip(2)
        } else {
            Seq::<String>::empty()
        }),
{
    let mut r: Vec<String> = Vec::new();
    let mut k: usize = 2;
    if args.len() <= 2 {
        return r;
    }
    while k < args.len()
        invariant
            2 <= k <= args.len(),
            r@ == args@.subrange(2, k as int),
        decreases args.len() - k,
    {
        r.push(args[k].clone());
        assert(r@ =~= args@.subrange(2, k + 1));
        k += 1;
    }
    assert(args@.subrange(2, k as int) =~= args@.skip(2));
    r
}

// ---------------------------------------------------------------------------
// Where the shortcuts are
// ---------------------------------------------------------------------------

/// What `Path::join` gives for a base path and one more part.
pub uninterp spec fn path_joined(base: Seq<char>, part: Seq<char>) -> Seq<char>;

/// `std::path::Path::join`: the base with the part appended after the
/// target's path separator (or the part alone when it is absolute). The
/// separator is fixed when the crate is built, so for a build the result
/// depends on the two texts alone; read back as text it is named
/// `path_joined`, and nothing more is claimed of it.
#[verifier::external_body]
fn join_path(base: &str, part: &str) -> (r: String)
    ensures
        r@ == path_joined(base@, part@),
{
    std::path::Path::new(base).join(part).to_string_lossy().into_owned()
}

/// The Start Menu programs folder below an application-data folder.
pub const START_MENU_PROGRAMS: &'static str = "Microsoft\\Windows\\Start Menu\\Programs";

/// The pinned taskbar shortcut below the roaming application-data folder.
pub const TASKBAR_SHORTCUT: &'static str =
    "Microsoft\\Internet Explorer\\Quick Launch\\User Pinned\\TaskBar\\Helium.lnk";

pub open spec fn desktop_shortcut(profile: Seq<char>) -> Seq<char> {
    path_joined(path_joined(profile, "Desktop"@), "Helium.lnk"@)
}

/// The Start Menu shortcut below an application-data folder: directly in the
/// programs folder, or in its `Helium` subfolder when `nested`.
pub open spec fn start_menu_shortcut(data: Seq<char>, nested: bool) -> Seq<char> {
    let base = path_joined(data, START_MENU_PROGRAMS@);
    if nested {
        path_joined(path_joined(base, "Helium"@), "Helium.lnk"@)
    } else {
        path_joined(base, "Helium.lnk"@)
    }
}

pub open spec fn taskbar_shortcut(appdata: Seq<char>) -> Seq<char> {
    path_joined(appdata, TASKBAR_SHORTCUT@)
}

/// A slot's path, or the empty path when its folder variable is unset.
pub open spec fn slot_or_empty(folder: Option<Seq<char>>, path: Seq<char>) -> Seq<char> {
    if folder is Some {
        path
    } else {
        Seq::empty()
    }
}

/// The five shortcut slots, in order: the user's desktop, the public desktop,
/// the user's Start Menu, the common Start Menu and the pinned taskbar. A
/// Start Menu slot takes the nested shortcut when that one exists.
pub open spec fn shortcut_slot_paths(
    userprofile: Option<Seq<char>>,
    public: Option<Seq<char>>,
    appdata: Option<Seq<char>>,
    programdata: Option<Seq<char>>,
    nested_user: bool,
    nested_public: bool,
) -> Seq<Seq<char>> {
    seq![
        slot_or_empty(userprofile, desktop_shortcut(userprofile->0)),
        slot_or_empty(public, desktop_shortcut(public->0)),
        slot_or_empty(appdata, start_menu_shortcut(appdata->0, nested_user)),
        slot_or_empty(programdata, start_menu_shortcut(programdata->0, nested_public)),
        slot_or_empty(appdata, taskbar_shortcut(appdata->0)),
    ]
}

fn desktop_shortcut_path(profile: &str) -> (r: String)
    ensures
        r@ == desktop_shortcut(profile@),
{
    let d = join_path(profile, "Desktop");
    join_path(d.as_str(), "Helium.lnk")
}

/// The Start Menu shortcut below an application-data folder, nested in the
/// `Helium` subfolder or not.
pub fn start_menu_shortcut_path(data: &str, nested: bool) -> (r: String)
    ensures
        r@ == start_menu_shortcut(data@, nested),
{
    let base = join_path(data, START_MENU_PROGRAMS);
    if nested {
        let sub = join_path(base.as_str(), "Helium");
        join_path(sub.as_str(), "Helium.lnk")
    } else {
        join_path(base.as_str(), "Helium.lnk")
    }
}

/// The paths of the five shortcut slots from the folder variables
/// `USERPROFILE`, `PUBLIC`, `APPDATA` and `PROGRAMDATA` (each `None` when
/// unset) and whether the nested Start Menu shortcuts exist; an unset
/// variable leaves its slots empty.
pub fn shortcut_slots(
    userprofile: &Option<String>,
    public: &Option<String>,
    appdata: &Option<String>,
    programdata: &Option<String>,
    nested_user: bool,
    nested_public: bool,
) -> (r: Vec<String>)
    ensures
        text::string_views(r@) == shortcut_slot_paths(
            text::opt_view(*userprofile),
            text::opt_view(*public),
            text::opt_view(*appdata),
            text::opt_view(*programdata),
            nested_user,
            nested_public,
        ),
{
    let mut v: Vec<String> = Vec::new();
    match userprofile {
        Some(d) => v.push(desktop_shortcut_path(d.as_str())),
        None => v.push(String::new()),
    }
    match public {
        Some(p) => v.push(desktop_shortcut_path(p.as_str())),
        None => v.push(String::new()),
    }
    match appdata {
        Some(a) => v.push(start_menu_shortcut_path(a.as_str(), nested_user)),
        None => v.push(String::new()),
    }
    match programdata {
        Some(pd) => v.push(start_menu_shortcut_path(pd.as_str(), nested_public)),
        None => v.push(String::new()),
    }
    match appdata {
        Some(a) => v.push(join_path(a.as_str(), TASKBAR_SHORTCUT)),
        None => v.push(String::new()),
    }
    assert(text::string_views(v@) =~= shortcut_slot_paths(
        text::opt_view(*userprofile),
        text::opt_view(*public),
        text::opt_view(*appdata),
        text::opt_view(*programdata),
        nested_user,
        nested_public,
    ));
    v
}

} // verus!
