//! Texts that the updater composes: PowerShell quoting, the setup-failure
//! notification and the self-removal script.
use vstd::prelude::*;
use crate::text::{chars_of, string_from, append_str};
use crate::render::{self, u32_to_string, debug_exit_code};

verus! {

/// A text with each single quote doubled, for use inside a single-quoted
/// PowerShell string.
pub open spec fn escape_quotes(s: Seq<char>) -> Seq<char>
    decreases s.len(),
{
    if s.len() == 0 {
        s
    } else if s.last() == '\'' {
        escape_quotes(s.drop_last()) + seq!['\'', '\'']
    } else {
        escape_quotes(s.drop_last()).push(s.last())
    }
}

/// `str::replace("''", "'")`: scanning left to right, each non-overlapping
/// pair of quotes becomes one quote; every other character stays.
pub open spec fn collapse_quote_pairs(t: Seq<char>) -> Seq<char>
    decreases t.len(),
{
    if t.len() >= 2 && t[0] == '\'' && t[1] == '\'' {
        seq!['\''] + collapse_quote_pairs(t.skip(2))
    } else if t.len() > 0 {
        seq![t[0]] + collapse_quote_pairs(t.drop_first())
    } else {
        t
    }
}

/// What one character becomes when quotes are doubled.
pub open spec fn escaped_char(c: char) -> Seq<char> {
    if c == '\'' {
        seq!['\'', '\'']
    } else {
        seq![c]
    }
}

/// Doubles every single quote of `value` (`value.replace('\'', "''")`).
pub fn escape_for_powershell_single_quote(value: &str) -> (r: String)
    ensures
        r@ == escape_quotes(value@),
{
    let v = chars_of(value);
    let mut out: Vec<char> = Vec::new();
    let mut k: usize = 0;
    assert(v@.take(0) =~= Seq::<char>::empty());
    while k < v.len()
        invariant
            k <= v.len(),
            out@ == escape_quotes(v@.take(k as int)),
        decreases v.len() - k,
    {
        let c = v[k];
        let ghost before = out@;
        if c == '\'' {
            out.push('\'');
            out.push('\'');
        } else {
            out.push(c);
        }
        assert(v@.take(k + 1).drop_last() =~= v@.take(k as int));
        assert(out@ =~= escape_quotes(v@.take(k + 1)));
        k += 1;
    }
    assert(v@.take(k as int) =~= v@);
    crate::text::string_of(&out)
}

proof fn lemma_escape_concat(a: Seq<char>, b: Seq<char>)
    ensures
        escape_quotes(a + b) == escape_quotes(a) + escape_quotes(b),
    decreases b.len(),
{
    if b.len() == 0 {
        assert(a + b =~= a);
        assert(escape_quotes(b) =~= b);
        assert(escape_quotes(a) + escape_quotes(b) =~= escape_quotes(a));
    } else {
        lemma_escape_concat(a, b.drop_last());
        assert((a + b).drop_last() =~= a + b.drop_last());
        assert((a + b).last() == b.last());
        if b.last() == '\'' {
            assert(escape_quotes(a) + escape_quotes(b) =~= escape_quotes(a) + escape_quotes(
                b.drop_last(),
            ) + seq!['\'', '\'']);
        } else {
            assert(escape_quotes(a) + escape_quotes(b) =~= (escape_quotes(a) + escape_quotes(
                b.drop_last(),
            )).push(b.last()));
        }
    }
}

proof fn lemma_escape_first(s: Seq<char>)
    requires
        s.len() > 0,
    ensures
        escape_quotes(s) == escaped_char(s[0]) + escape_quotes(s.drop_first()),
{
    assert(s =~= seq![s[0]] + s.drop_first());
    lemma_escape_concat(seq![s[0]], s.drop_first());
    let one = seq![s[0]];
    assert(one.drop_last() =~= Seq::<char>::empty());
    assert(escape_quotes(Seq::<char>::empty()) =~= Seq::<char>::empty());
    if s[0] == '\'' {
        assert(escape_quotes(one) =~= seq!['\'', '\'']);
    } else {
        assert(escape_quotes(one) =~= seq![s[0]]);
    }
}

/// Quoting loses nothing: collapsing each doubled quote, left to right, as
/// `str::replace("''", "'")` does, gives back exactly the unquoted text.
pub proof fn law_escape_round_trip(s: Seq<char>)
    ensures
        collapse_quote_pairs(escape_quotes(s)) == s,
    decreases s.len(),
{
    if s.len() == 0 {
        assert(escape_quotes(s) =~= s);
    } else {
        let r = s.drop_first();
        law_escape_round_trip(r);
        lemma_escape_first(s);
        let t = escape_quotes(s);
        if s[0] == '\'' {
            assert(t.skip(2) =~= escape_quotes(r));
        } else {
            assert(t.drop_first() =~= escape_quotes(r));
        }
        assert(s =~= seq![s[0]] + r);
    }
}

/// A text without quotes is left unchanged.
pub proof fn law_escape_identity_without_quotes(s: Seq<char>)
    requires
        forall|i: int| 0 <= i < s.len() ==> s[i] != '\'',
    ensures
        escape_quotes(s) == s,
    decreases s.len(),
{
    if s.len() == 0 {
        assert(escape_quotes(s) =~= s);
    } else {
        law_escape_identity_without_quotes(s.drop_last());
        assert(s.drop_last().push(s.last()) =~= s);
    }
}

pub open spec fn all_quotes(t: Seq<char>, i: int, j: int) -> bool {
    forall|k: int| i <= k < j ==> t[k] == '\''
}

/// `t[i..j]` is a maximal run of quotes.
pub open spec fn maximal_quote_run(t: Seq<char>, i: int, j: int) -> bool {
    &&& 0 <= i <= j <= t.len()
    &&& all_quotes(t, i, j)
    &&& (i == 0 || t[i - 1] != '\'')
    &&& (j == t.len() || t[j] != '\'')
}

/// In quoted text every maximal run of quotes has even length, so no quote
/// ends the single-quoted string early.
pub proof fn law_escape_quote_runs_even(s: Seq<char>, i: int, j: int)
    requires
        maximal_quote_run(escape_quotes(s), i, j),
    ensures
        (j - i) % 2 == 0,
    decreases s.len(),
{
    let t = escape_quotes(s);
    if s.len() == 0 {
        assert(t =~= s);
    } else {
        let p = s.drop_last();
        let e = escape_quotes(p);
        let n = e.len() as int;
        assert(forall|k: int| 0 <= k < n ==> t[k] == e[k]);
        if s.last() == '\'' {
            assert(t =~= e + seq!['\'', '\'']);
            if i == j {
            } else if j <= n {
                assert(j < n) by {
                    if j == n {
                        assert(t[j] == '\'');
                    }
                }
                assert(t[j] == e[j]);
                if i > 0 {
                    assert(t[i - 1] == e[i - 1]);
                }
                law_escape_quote_runs_even(p, i, j);
            } else {
                assert(j == n + 2) by {
                    if j == n + 1 {
                        assert(t[j] == '\'');
                    }
                }
                if i >= n {
                    assert(i == n || i == n + 2) by {
                        if i == n + 1 {
                            assert(t[i - 1] == '\'');
                        }
                    }
                } else {
                    if i > 0 {
                        assert(t[i - 1] == e[i - 1]);
                    }
                    assert(maximal_quote_run(e, i, n));
                    law_escape_quote_runs_even(p, i, n);
                }
            }
        } else {
            assert(t =~= e.push(s.last()));
            if i == j {
            } else {
                assert(j <= n) by {
                    if j == n + 1 {
                        assert(t[n] == s.last());
                        assert(t[n] == '\'');
                    }
                }
                if j < n {
                    assert(t[j] == e[j]);
                }
                if i > 0 {
                    assert(t[i - 1] == e[i - 1]);
                }
                law_escape_quote_runs_even(p, i, j);
            }
        }
    }
}

pub open spec fn setup_failure_body(details: Seq<char>) -> Seq<char> {
    SETUP_FAILURE_HEAD@ + details + SETUP_FAILURE_TAIL@
}

pub const SETUP_FAILURE_HEAD: &'static str = "Could not enable launch interception.\n\nReason:\n";

pub const SETUP_FAILURE_TAIL: &'static str = "\n\nRecommended fixes:\n1) Launch Helium once, then close it.\n2) Set Helium as the default browser once.\n3) Restore or recreate Helium shortcuts and unpin/repin the taskbar icon.\n4) If it still fails, repair or reinstall Helium.\n5) Try \"Enable Interceptor\" again.";

/// The body of the notification shown when launch interception could not be
/// set up, with the error's full description.
pub fn interceptor_setup_failure_body(details: &str) -> (r: String)
    ensures
        r@ == setup_failure_body(details@),
{
    let mut s = string_from(SETUP_FAILURE_HEAD);
    append_str(&mut s, details);
    append_str(&mut s, SETUP_FAILURE_TAIL);
    s
}

/// The error text when Explorer could not be stopped.
pub fn explorer_stop_failure_message(code: Option<i32>) -> (r: String)
    ensures
        r@ == "Stopping Explorer returned exit code "@ + render::debug_option_i32(code),
{
    let mut s = string_from("Stopping Explorer returned exit code ");
    let c = debug_exit_code(code);
    append_str(&mut s, c.as_str());
    s
}

pub const CLEANUP_HEAD: &'static str = "$pidToWait = ";

pub const CLEANUP_TARGETS_OPEN: &'static str = "\n$targets = @(\n    '";

pub const CLEANUP_TARGETS_SEPARATOR: &'static str = "',\n    '";

pub const CLEANUP_WAIT_FOR_EXIT: &'static str = r#"'
)

$failedPaths = New-Object System.Collections.Generic.List[string]

for ($i = 0; $i -lt 120; $i++) {
    if (-not (Get-Process -Id $pidToWait -ErrorAction SilentlyContinue)) {
        break
    }
    Start-Sleep -Milliseconds 250
}

"#;

/// Stops every running HUpdater process before anything is deleted.
pub const CLEANUP_STOP_PROCESSES: &'static str = "Get-Process -Name 'hupdater' -ErrorAction SilentlyContinue | Stop-Process -Force -ErrorAction SilentlyContinue\nStart-Sleep -Milliseconds 500\n\n";

pub const CLEANUP_REMOVE: &'static str = r#"foreach ($target in $targets) {
    if ([string]::IsNullOrWhiteSpace($target)) {
        continue
    }

    if (-not (Test-Path -LiteralPath $target)) {
        continue
    }

    $removed = $false
    for ($attempt = 0; $attempt -lt 12; $attempt++) {
        try {
            Remove-Item -LiteralPath $target -Recurse -Force -ErrorAction Stop
            $removed = $true
            break
        } catch {
            Start-Sleep -Milliseconds 300
        }
    }

    if (-not $removed -and (Test-Path -LiteralPath $target)) {
        $failedPaths.Add($target)
    }
}

Add-Type -AssemblyName System.Windows.Forms
if ($failedPaths.Count -eq 0) {
    [System.Windows.Forms.MessageBox]::Show(
        "HUpdater removed successfully.",
        "HUpdater Uninstall",
        [System.Windows.Forms.MessageBoxButtons]::OK,
        [System.Windows.Forms.MessageBoxIcon]::Information
    ) | Out-Null
} else {
    $details = ($failedPaths | ForEach-Object { "- $_" }) -join "`r`n"
    [System.Windows.Forms.MessageBox]::Show(
        "HUpdater was removed partially.`r`n`r`nCould not delete:`r`n$details",
        "HUpdater Uninstall",
        [System.Windows.Forms.MessageBoxButtons]::OK,
        [System.Windows.Forms.MessageBoxIcon]::Warning
    ) | Out-Null
}

$scriptPath = $MyInvocation.MyCommand.Path
if (-not [string]::IsNullOrWhiteSpace($scriptPath)) {
    $escapedScriptPath = $scriptPath.Replace("'", "''")
    $deleteCommand = "Start-Sleep -Milliseconds 500; Remove-Item -LiteralPath '$escapedScriptPath' -Force -ErrorAction SilentlyContinue"
    Start-Process -FilePath "powershell.exe" -WindowStyle Hidden -ArgumentList @(
        "-NoProfile",
        "-ExecutionPolicy", "Bypass",
        "-Command", $deleteCommand
    ) | Out-Null
}
"#;

/// The PowerShell script that removes the updater: it waits for the process
/// `pid` to exit, stops every other running HUpdater process, deletes both
/// folders (with retries), reports the result and deletes itself.
pub open spec fn cleanup_script_text(pid: u32, local_target: Seq<char>, roaming_target: Seq<char>) -> Seq<char> {
    CLEANUP_HEAD@ + render::decimal(pid as nat) + CLEANUP_TARGETS_OPEN@ + escape_quotes(local_target)
        + CLEANUP_TARGETS_SEPARATOR@ + escape_quotes(roaming_target) + CLEANUP_WAIT_FOR_EXIT@
        + CLEANUP_STOP_PROCESSES@ + CLEANUP_REMOVE@
}

pub fn cleanup_script(pid: u32, local_target: &str, roaming_target: &str) -> (r: String)
    ensures
        r@ == cleanup_script_text(pid, local_target@, roaming_target@),
{
    let mut s = string_from(CLEANUP_HEAD);
    let p = u32_to_string(pid);
    append_str(&mut s, p.as_str());
    append_str(&mut s, CLEANUP_TARGETS_OPEN);
    let l = escape_for_powershell_single_quote(local_target);
    append_str(&mut s, l.as_str());
    append_str(&mut s, CLEANUP_TARGETS_SEPARATOR);
    let m = escape_for_powershell_single_quote(roaming_target);
    append_str(&mut s, m.as_str());
    append_str(&mut s, CLEANUP_WAIT_FOR_EXIT);
    append_str(&mut s, CLEANUP_STOP_PROCESSES);
    append_str(&mut s, CLEANUP_REMOVE);
    s
}

} // verus!
