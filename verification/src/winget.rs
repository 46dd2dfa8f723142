//! What the updater reads from, and asks of, the `winget` package manager.
use vstd::prelude::*;
use crate::text::{self, chars_of, string_of, string_from, lines_chars, split_whitespace_chars,
    contains_chars, eq_ignore_ascii_case_chars};
use crate::version::{self, normalize_chars};
use crate::render::{self, debug_exit_code};

verus! {

/// The winget package identifier of the Helium browser.
pub const HELIUM_PACKAGE_ID: &'static str = "ImputNet.Helium";

pub open spec fn package_id() -> Seq<char> {
    HELIUM_PACKAGE_ID@
}

/// The index of the first column equal to `id` up to ASCII case.
pub open spec fn column_position(cols: Seq<Seq<char>>, id: Seq<char>) -> Option<int>
    decreases cols.len(),
{
    if cols.len() == 0 {
        None
    } else if text::eq_ignore_ascii_case(cols[0], id) {
        Some(0)
    } else {
        match column_position(cols.drop_first(), id) {
            Some(k) => Some(k + 1),
            None => None,
        }
    }
}

/// The column `d` places after the package identifier on one line of
/// `winget list` output, normalised: the line must mention the identifier, and
/// that column must exist and be non-empty after normalisation.
pub open spec fn line_field(line: Seq<char>, d: int) -> Option<Seq<char>> {
    if !text::contains(line, package_id()) {
        None
    } else {
        let cols = text::split_whitespace(line);
        match column_position(cols, package_id()) {
            Some(k) => if k + d < cols.len() && version::normalized_label(cols[k + d]).len() > 0 {
                Some(version::normalized_label(cols[k + d]))
            } else {
                None
            },
            None => None,
        }
    }
}

/// The field given by the first line that gives one.
pub open spec fn field_in_lines(ls: Seq<Seq<char>>, d: int) -> Option<Seq<char>>
    decreases ls.len(),
{
    if ls.len() == 0 {
        None
    } else {
        match line_field(ls[0], d) {
            Some(v) => Some(v),
            None => field_in_lines(ls.drop_first(), d),
        }
    }
}

/// The installed version that a `winget list` run reports.
pub open spec fn listed_version(success: bool, stdout: Seq<char>) -> Option<Seq<char>> {
    if success {
        field_in_lines(text::lines(stdout), 1)
    } else {
        None
    }
}

/// The newer version that a `winget list` run offers: the column after the
/// installed version (the "Available" column), when it holds a version
/// number. Without an upgrade that column is the source name, which holds
/// none.
pub open spec fn listed_available(success: bool, stdout: Seq<char>) -> Option<Seq<char>> {
    if success {
        match field_in_lines(text::lines(stdout), 2) {
            Some(v) => if version::version_parts(v).len() > 0 {
                Some(v)
            } else {
                None
            },
            None => None,
        }
    } else {
        None
    }
}

proof fn lemma_field_in_lines_skip(ls: Seq<Seq<char>>, d: int, k: int)
    requires
        0 <= k <= ls.len(),
        forall|j: int| 0 <= j < k ==> line_field(#[trigger] ls[j], d) is None,
    ensures
        field_in_lines(ls, d) == field_in_lines(ls.skip(k), d),
    decreases k,
{
    if k == 0 {
        assert(ls.skip(0) =~= ls);
    } else {
        assert(line_field(ls[0], d) is None);
        let t = ls.drop_first();
        assert forall|j: int| 0 <= j < k - 1 implies line_field(#[trigger] t[j], d) is None by {
            assert(t[j] == ls[j + 1]);
        }
        lemma_field_in_lines_skip(t, d, k - 1);
        assert(t.skip(k - 1) =~= ls.skip(k));
    }
}

fn column_position_exec(cols: &Vec<Vec<char>>, id: &Vec<char>) -> (r: Option<usize>)
    ensures
        match r {
            Some(k) => column_position(text::views(cols@), id@) == Some(k as int) && k < cols.len(),
            None => column_position(text::views(cols@), id@) is None,
        },
{
    let mut k: usize = 0;
    while k < cols.len()
        invariant
            k <= cols.len(),
            forall|j: int| 0 <= j < k ==> !text::eq_ignore_ascii_case(#[trigger] cols@[j]@, id@),
        decreases cols.len() - k,
    {
        if eq_ignore_ascii_case_chars(&cols[k], id) {
            proof {
                lemma_column_position_at(text::views(cols@), id@, k as int);
            }
            return Some(k);
        }
        k += 1;
    }
    proof {
        lemma_column_position_none(text::views(cols@), id@);
    }
    None
}

proof fn lemma_column_position_at(cols: Seq<Seq<char>>, id: Seq<char>, k: int)
    requires
        0 <= k < cols.len(),
        text::eq_ignore_ascii_case(cols[k], id),
        forall|j: int| 0 <= j < k ==> !text::eq_ignore_ascii_case(#[trigger] cols[j], id),
    ensures
        column_position(cols, id) == Some(k),
    decreases k,
{
    if k > 0 {
        let t = cols.drop_first();
        assert forall|j: int| 0 <= j < k - 1 implies !text::eq_ignore_ascii_case(
            #[trigger] t[j],
            id,
        ) by {
            assert(t[j] == cols[j + 1]);
        }
        assert(t[k - 1] == cols[k]);
        lemma_column_position_at(t, id, k - 1);
    }
}

proof fn lemma_column_position_none(cols: Seq<Seq<char>>, id: Seq<char>)
    requires
        forall|j: int| 0 <= j < cols.len() ==> !text::eq_ignore_ascii_case(#[trigger] cols[j], id),
    ensures
        column_position(cols, id) is None,
    decreases cols.len(),
{
    if cols.len() > 0 {
        let t = cols.drop_first();
        assert forall|j: int| 0 <= j < t.len() implies !text::eq_ignore_ascii_case(
            #[trigger] t[j],
            id,
        ) by {
            assert(t[j] == cols[j + 1]);
        }
        lemma_column_position_none(t, id);
    }
}

fn line_field_exec(line: &Vec<char>, id: &Vec<char>, d: usize) -> (r: Option<Vec<char>>)
    requires
        id@ == package_id(),
    ensures
        match r {
            Some(v) => line_field(line@, d as int) == Some(v@),
            None => line_field(line@, d as int) is None,
        },
{
    if !contains_chars(line, id) {
        return None;
    }
    let cols = split_whitespace_chars(line);
    match column_position_exec(&cols, id) {
        Some(k) => {
            if d < cols.len() - k {
                let n = normalize_chars(&cols[k + d]);
                assert(text::views(cols@)[k + d] == cols@[k + d]@);
                if n.len() > 0 {
                    Some(n)
                } else {
                    None
                }
            } else {
                None
            }
        },
        None => None,
    }
}

/// The field `d` columns after the identifier on the first line of a
/// successful run's output that has one.
fn first_listed_field(stdout: &str, d: usize) -> (r: Option<Vec<char>>)
    ensures
        match r {
            Some(v) => field_in_lines(text::lines(stdout@), d as int) == Some(v@),
            None => field_in_lines(text::lines(stdout@), d as int) is None,
        },
{
    let s = chars_of(stdout);
    let id = chars_of(HELIUM_PACKAGE_ID);
    let ls = lines_chars(&s);
    let ghost lv = text::views(ls@);
    let mut k: usize = 0;
    while k < ls.len()
        invariant
            k <= ls.len(),
            id@ == package_id(),
            lv == text::views(ls@),
            lv == text::lines(stdout@),
            forall|j: int| 0 <= j < k ==> line_field(#[trigger] lv[j], d as int) is None,
        decreases ls.len() - k,
    {
        assert(lv[k as int] == ls@[k as int]@);
        match line_field_exec(&ls[k], &id, d) {
            Some(v) => {
                proof {
                    lemma_field_in_lines_skip(lv, d as int, k as int);
                    assert(lv.skip(k as int)[0] == lv[k as int]);
                }
                return Some(v);
            },
            None => {},
        }
        k += 1;
    }
    proof {
        lemma_field_in_lines_skip(lv, d as int, k as int);
    }
    None
}

/// The Helium version that `winget list --id ImputNet.Helium` printed: on a
/// successful run, the column after the package identifier on the first line
/// that mentions it and has a non-empty normalised version there.
pub fn parse_winget_installed_version(success: bool, stdout: &str) -> (r: Option<String>)
    ensures
        match r {
            Some(v) => listed_version(success, stdout@) == Some(v@),
            None => listed_version(success, stdout@) is None,
        },
{
    if !success {
        return None;
    }
    match first_listed_field(stdout, 1) {
        Some(v) => Some(string_of(&v)),
        None => None,
    }
}

/// The version that the same listing offers as an upgrade, from its
/// "Available" column; `None` when no upgrade is offered.
pub fn parse_winget_available_version(success: bool, stdout: &str) -> (r: Option<String>)
    ensures
        match r {
            Some(v) => listed_available(success, stdout@) == Some(v@),
            None => listed_available(success, stdout@) is None,
        },
{
    if !success {
        return None;
    }
    match first_listed_field(stdout, 2) {
        Some(v) => {
            let s = string_of(&v);
            let parts = version::version_parts_of(s.as_str());
            if parts.len() > 0 {
                Some(s)
            } else {
                None
            }
        },
        None => None,
    }
}

/// Whether a `winget list` run shows the package: it succeeded and its output
/// mentions the identifier.
pub fn winget_lists_helium(success: bool, stdout: &str) -> (r: bool)
    ensures
        r == (success && text::contains(stdout@, package_id())),
{
    if !success {
        return false;
    }
    let s = chars_of(stdout);
    let id = chars_of(HELIUM_PACKAGE_ID);
    contains_chars(&s, &id)
}

/// The winget verb for bringing Helium up to date: `upgrade` when winget already
/// manages it, `install` otherwise.
pub fn winget_action(installed: bool) -> (r: &'static str)
    ensures
        r@ == (if installed {
            "upgrade"@
        } else {
            "install"@
        }),
{
    if installed {
        "upgrade"
    } else {
        "install"
    }
}

pub open spec fn update_args(installed: bool) -> Seq<Seq<char>> {
    seq![
        if installed { "upgrade"@ } else { "install"@ },
        "--id"@,
        package_id(),
        "--source"@,
        "winget"@,
        "--silent"@,
        "--disable-interactivity"@,
        "--accept-package-agreements"@,
        "--accept-source-agreements"@,
    ]
}

fn push_arg(v: &mut Vec<String>, a: &str)
    ensures
        text::string_views(final(v)@) == text::string_views(old(v)@).push(a@),
{
    let ghost before = v@;
    v.push(string_from(a));
    assert(text::string_views(v@) =~= text::string_views(before).push(a@));
}

/// The arguments of the silent winget upgrade or install of Helium.
pub fn winget_update_args(installed: bool) -> (r: Vec<String>)
    ensures
        text::string_views(r@) == update_args(installed),
{
    let mut v: Vec<String> = Vec::new();
    push_arg(&mut v, winget_action(installed));
    push_arg(&mut v, "--id");
    push_arg(&mut v, HELIUM_PACKAGE_ID);
    push_arg(&mut v, "--source");
    push_arg(&mut v, "winget");
    push_arg(&mut v, "--silent");
    push_arg(&mut v, "--disable-interactivity");
    push_arg(&mut v, "--accept-package-agreements");
    push_arg(&mut v, "--accept-source-agreements");
    assert(text::string_views(v@) =~= update_args(installed));
    v
}

/// The winget command always names the Helium package from the winget
/// source and runs silently with the agreements accepted; only its verb
/// differs, `upgrade` when winget already manages Helium, `install` otherwise.
pub proof fn law_update_args_name_the_package(installed: bool)
    ensures
        update_args(installed).len() == 9,
        update_args(installed)[0] == (if installed { "upgrade"@ } else { "install"@ }),
        update_args(installed)[1] == "--id"@,
        update_args(installed)[2] == "ImputNet.Helium"@,
        update_args(installed).drop_first() == update_args(!installed).drop_first(),
        update_args(installed).drop_first() == seq![
            "--id"@,
            "ImputNet.Helium"@,
            "--source"@,
            "winget"@,
            "--silent"@,
            "--disable-interactivity"@,
            "--accept-package-agreements"@,
            "--accept-source-agreements"@,
        ],
{
    assert(update_args(installed).drop_first() =~= update_args(!installed).drop_first());
    assert(update_args(installed).drop_first() =~= seq![
        "--id"@,
        "ImputNet.Helium"@,
        "--source"@,
        "winget"@,
        "--silent"@,
        "--disable-interactivity"@,
        "--accept-package-agreements"@,
        "--accept-source-agreements"@,
    ]);
}

/// The message shown after a successful winget run.
pub fn winget_success_message(installed: bool) -> (r: &'static str)
    ensures
        r@ == (if installed {
            "Helium update finished successfully (winget)."@
        } else {
            "Helium installation finished successfully (winget)."@
        }),
{
    if installed {
        "Helium update finished successfully (winget)."
    } else {
        "Helium installation finished successfully (winget)."
    }
}

/// The error text of a failed winget run.
pub fn winget_failure_message(installed: bool, code: Option<i32>) -> (r: String)
    ensures
        r@ == "winget "@ + (if installed {
            "upgrade"@
        } else {
            "install"@
        }) + " failed with exit code "@ + render::debug_option_i32(code),
{
    let mut s = string_from("winget ");
    text::append_str(&mut s, winget_action(installed));
    text::append_str(&mut s, " failed with exit code ");
    let c = debug_exit_code(code);
    text::append_str(&mut s, c.as_str());
    s
}

} // verus!
