//! The installation status shown in the window, and the events that report it
//! and the outcome of each background task.
use vstd::prelude::*;
use crate::text::{self, chars_of, string_of, string_from, append_str,
    eq_ignore_ascii_case_chars};
use crate::version::{self, normalize_chars};
use crate::install::{InstallScope, scope_label};
use crate::events::UiEvent;

verus! {

pub open spec fn base_status(registry: bool, winget: bool) -> Seq<char> {
    if registry && winget {
        "Installed (Registry & Winget)"@
    } else if registry {
        "Installed (via Installer)"@
    } else if winget {
        "Installed (via Winget)"@
    } else {
        "Not detected"@
    }
}

/// How Helium was found: by the registry, by winget, by both, or not at all.
pub fn base_status_text(registry: bool, winget: bool) -> (r: &'static str)
    ensures
        r@ == base_status(registry, winget),
{
    if registry && winget {
        "Installed (Registry & Winget)"
    } else if registry {
        "Installed (via Installer)"
    } else if winget {
        "Installed (via Winget)"
    } else {
        "Not detected"
    }
}

/// The latest release is looked up only when Helium was found.
pub fn should_fetch_latest(registry: bool, winget: bool) -> (r: bool)
    ensures
        r == (registry || winget),
{
    registry || winget
}

/// The installed version as shown: normalised, and only when non-empty.
pub open spec fn shown_version(raw: Option<Seq<char>>) -> Option<Seq<char>> {
    match raw {
        Some(v) => if version::normalized_label(v).len() > 0 {
            Some(version::normalized_label(v))
        } else {
            None
        },
        None => None,
    }
}

/// How the installed version compares with the latest release.
pub open spec fn version_state(installed: Seq<char>, latest: Option<Seq<char>>) -> Seq<char> {
    match latest {
        Some(l) => if text::eq_ignore_ascii_case(installed, l) {
            "latest"@
        } else {
            "outdated, latest v"@ + l
        },
        None => "latest unknown"@,
    }
}

/// The status line: how Helium was found and, when a version is known,
/// ` | v<version> (<state>)`.
pub open spec fn status_text(
    registry: bool,
    winget: bool,
    raw: Option<Seq<char>>,
    latest: Option<Seq<char>>,
) -> Seq<char> {
    match shown_version(raw) {
        Some(i) => base_status(registry, winget) + " | v"@ + i + " ("@ + version_state(i, latest)
            + ")"@,
        None => base_status(registry, winget),
    }
}

pub fn install_status_text(
    registry: bool,
    winget: bool,
    installed_raw: &Option<String>,
    latest: &Option<String>,
) -> (r: String)
    ensures
        r@ == status_text(registry, winget, text::opt_view(*installed_raw), text::opt_view(
            *latest,
        )),
{
    let base = base_status_text(registry, winget);
    let shown: Option<Vec<char>> = match installed_raw {
        Some(v) => {
            let n = normalize_chars(&chars_of(v.as_str()));
            if n.len() > 0 {
                Some(n)
            } else {
                None
            }
        },
        None => None,
    };
    match shown {
        Some(i) => {
            let installed = string_of(&i);
            let mut s = string_from(base);
            append_str(&mut s, " | v");
            append_str(&mut s, installed.as_str());
            append_str(&mut s, " (");
            match latest {
                Some(l) => {
                    let lc = chars_of(l.as_str());
                    if eq_ignore_ascii_case_chars(&i, &lc) {
                        append_str(&mut s, "latest");
                    } else {
                        append_str(&mut s, "outdated, latest v");
                        append_str(&mut s, l.as_str());
                    }
                },
                None => {
                    append_str(&mut s, "latest unknown");
                },
            }
            append_str(&mut s, ")");
            assert(s@ =~= status_text(
                registry,
                winget,
                text::opt_view(*installed_raw),
                text::opt_view(*latest),
            ));
            s
        },
        None => string_from(base),
    }
}

pub open spec fn is_status_event(e: UiEvent, t: Seq<char>) -> bool {
    e matches UiEvent::SetInstallStatus(s) && s@ == t
}

pub open spec fn is_task_event(e: UiEvent, t: Seq<char>) -> bool {
    e matches UiEvent::SetTaskInfo(s) && s@ == t
}

pub open spec fn is_scope_event(e: UiEvent, t: Seq<char>) -> bool {
    e matches UiEvent::SetInstallScope(s) && s@ == t
}

pub open spec fn scope_text(scope: InstallScope) -> Seq<char> {
    if scope == InstallScope::System {
        "system"@
    } else {
        "user"@
    }
}

/// The events that report the finished installation check, in order: the
/// status line, whether Helium is installed, the controls unlocked, the task
/// `Ready`, and the scope when it is known.
pub open spec fn status_events_spec(
    es: Seq<UiEvent>,
    registry: bool,
    winget: bool,
    raw: Option<Seq<char>>,
    scope: Option<InstallScope>,
    latest: Option<Seq<char>>,
) -> bool {
    &&& es.len() == (if scope is Some {
        5int
    } else {
        4int
    })
    &&& is_status_event(es[0], status_text(registry, winget, raw, latest))
    &&& es[1] == UiEvent::SetHeliumInstalled(registry || winget)
    &&& es[2] == UiEvent::SetControlsEnabled(true)
    &&& is_task_event(es[3], "Ready"@)
    &&& scope matches Some(sc) ==> is_scope_event(es[4], scope_text(sc))
}

pub fn status_events(
    registry: bool,
    winget: bool,
    installed_raw: &Option<String>,
    scope: Option<InstallScope>,
    latest: &Option<String>,
) -> (r: Vec<UiEvent>)
    ensures
        status_events_spec(
            r@,
            registry,
            winget,
            text::opt_view(*installed_raw),
            scope,
            text::opt_view(*latest),
        ),
{
    let mut r: Vec<UiEvent> = Vec::new();
    r.push(UiEvent::SetInstallStatus(install_status_text(registry, winget, installed_raw, latest)));
    r.push(UiEvent::SetHeliumInstalled(registry || winget));
    r.push(UiEvent::SetControlsEnabled(true));
    r.push(UiEvent::SetTaskInfo(string_from("Ready")));
    match scope {
        Some(sc) => {
            r.push(UiEvent::SetInstallScope(string_from(scope_label(sc))));
        },
        None => {},
    }
    r
}

} // verus!

verus! {

proof fn lemma_base_has_no_bar(registry: bool, winget: bool)
    ensures
        forall|i: int|
            0 <= i < base_status(registry, winget).len() ==> #[trigger] base_status(
                registry,
                winget,
            )[i] != '|',
{
    reveal_strlit("Installed (Registry & Winget)");
    reveal_strlit("Installed (via Installer)");
    reveal_strlit("Installed (via Winget)");
    reveal_strlit("Not detected");
}

/// Once the installation check is reported, the window's status label shows
/// how Helium was found, and its version label shows the version and how it
/// compares with the latest release (empty when no version is known).
pub proof fn law_status_splits_into_labels(
    registry: bool,
    winget: bool,
    raw: Option<Seq<char>>,
    latest: Option<Seq<char>>,
)
    ensures
        crate::ui_state::status_lines(status_text(registry, winget, raw, latest)) == (match shown_version(
            raw,
        ) {
            Some(i) => (
                "Status: "@ + base_status(registry, winget),
                "v"@ + i + " ("@ + version_state(i, latest) + ")"@,
            ),
            None => ("Status: "@ + base_status(registry, winget), Seq::<char>::empty()),
        }),
{
    let base = base_status(registry, winget);
    let pat = " | "@;
    reveal_strlit(" | ");
    reveal_strlit(" | v");
    lemma_base_has_no_bar(registry, winget);
    match shown_version(raw) {
        Some(i) => {
            let rest = "v"@ + i + " ("@ + version_state(i, latest) + ")"@;
            let s = status_text(registry, winget, raw, latest);
            assert(s =~= base + pat + rest) by {
                reveal_strlit("v");
            }
            let n = base.len() as int;
            assert(s.subrange(n, n + 3) =~= pat);
            assert(text::occurs_at(s, pat, n));
            assert forall|j: int| 0 <= j < n implies !text::occurs_at(s, pat, j) by {
                if text::occurs_at(s, pat, j) {
                    assert(s.subrange(j, j + 3)[1] == '|');
                    assert(s[j + 1] == '|');
                    if j + 1 < n {
                        assert(s[j + 1] == base[j + 1]);
                    } else {
                        assert(s[j + 1] == ' ');
                    }
                }
            }
            assert(text::is_first_occurrence(s, pat, n));
            let k = choose|k: int| text::is_first_occurrence(s, pat, k);
            text::lemma_first_occurrence_unique(s, pat, n, k);
            assert(s.take(n) =~= base);
            assert(s.skip(n + 3) =~= rest);
        },
        None => {
            assert forall|j: int| !text::occurs_at(base, pat, j) by {
                if text::occurs_at(base, pat, j) {
                    assert(base.subrange(j, j + 3)[1] == '|');
                    assert(base[j + 1] == '|');
                }
            }
        },
    }
}

/// The status line calls the installed version the latest exactly when it
/// equals the latest release's version up to ASCII case; otherwise it calls it
/// outdated and names the latest version; with no latest version known it says
/// so. Without a version to show, only how Helium was found is reported.
pub proof fn law_status_reports_outdated(
    registry: bool,
    winget: bool,
    raw: Seq<char>,
    latest: Option<Seq<char>>,
)
    ensures
        version::normalized_label(raw).len() == 0 ==> status_text(registry, winget, Some(raw), latest)
            == base_status(registry, winget),
        status_text(registry, winget, None, latest) == base_status(registry, winget),
        version::normalized_label(raw).len() > 0 ==> status_text(registry, winget, Some(raw), latest)
            == base_status(registry, winget) + " | v"@ + version::normalized_label(raw) + match latest {
            Some(l) => if text::eq_ignore_ascii_case(version::normalized_label(raw), l) {
                " (latest)"@
            } else {
                " (outdated, latest v"@ + l + ")"@
            },
            None => " (latest unknown)"@,
        },
{
    reveal_strlit(" (");
    reveal_strlit(")");
    reveal_strlit("latest");
    reveal_strlit(" (latest)");
    reveal_strlit("outdated, latest v");
    reveal_strlit(" (outdated, latest v");
    reveal_strlit("latest unknown");
    reveal_strlit(" (latest unknown)");
    let i = version::normalized_label(raw);
    if i.len() > 0 {
        let head = base_status(registry, winget) + " | v"@ + i;
        match latest {
            Some(l) => {
                if text::eq_ignore_ascii_case(i, l) {
                    assert(head + " ("@ + "latest"@ + ")"@ =~= head + " (latest)"@);
                } else {
                    assert(head + " ("@ + ("outdated, latest v"@ + l) + ")"@ =~= head
                        + (" (outdated, latest v"@ + l + ")"@));
                }
            },
            None => {
                assert(head + " ("@ + "latest unknown"@ + ")"@ =~= head + " (latest unknown)"@);
            },
        }
    }
}

/// The status says "Not detected" exactly when neither the registry nor
/// winget found Helium, and otherwise begins with "Installed"; the four ways
/// of finding it give four different texts.
pub proof fn law_base_status_tells_how_found(r1: bool, w1: bool, r2: bool, w2: bool)
    ensures
        (base_status(r1, w1) == "Not detected"@) <==> (!r1 && !w1),
        (r1 || w1) ==> base_status(r1, w1).take(9) == "Installed"@,
        base_status(r1, w1) == base_status(r2, w2) <==> (r1 == r2 && w1 == w2),
{
    reveal_strlit("Installed (Registry & Winget)");
    reveal_strlit("Installed (via Installer)");
    reveal_strlit("Installed (via Winget)");
    reveal_strlit("Not detected");
    reveal_strlit("Installed");
    let a = "Installed (Registry & Winget)"@;
    let b = "Installed (via Installer)"@;
    let c = "Installed (via Winget)"@;
    let d = "Not detected"@;
    assert(a.take(9) =~= "Installed"@);
    assert(b.take(9) =~= "Installed"@);
    assert(c.take(9) =~= "Installed"@);
    assert(a[11] != b[11] && a[11] != c[11] && b[11] != d[11] && a[11] != d[11]);
    assert(b[15] != c[15] && c[0] != d[0]);
}

} // verus!
