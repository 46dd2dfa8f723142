//! The steps of turning launch interception on: every existing shortcut is
//! backed up, then each is rewritten; a failed rewrite puts all backups back.
//! The caller performs each action on disk and reports whether it worked.
use vstd::prelude::*;

verus! {

/// How far a setup over `n` shortcuts has come.
#[derive(Clone, Copy, PartialEq, Eq, Structural, Debug)]
pub enum SetupState {
    /// Reading the backup of shortcut `k`; those before it are read.
    Backup(usize),
    /// Rewriting shortcut `k`; all backups are read and those before it are
    /// rewritten.
    Rewrite(usize),
    /// Nothing more to do.
    Finished,
}

/// What the caller does next.
#[derive(Clone, Copy, PartialEq, Eq, Structural, Debug)]
pub enum SetupAction {
    /// Read shortcut `k` into memory as its backup.
    ReadBackup(usize),
    /// Point shortcut `k` at the updater and give it Helium's AppUserModelID.
    RewriteShortcut(usize),
    /// All shortcuts are rewritten: refresh the shell's icons and succeed.
    RefreshAndSucceed,
    /// There was no shortcut: succeed without touching anything.
    SucceedUnchanged,
    /// The backup of shortcut `k` could not be read: fail; nothing changed.
    FailBackup(usize),
    /// Rewriting shortcut `k` failed: write every backup back and fail,
    /// saying the changes were rolled back.
    RollBackAndFail(usize),
}

/// The first step of a setup over `n` shortcuts.
pub open spec fn start_step(n: nat) -> (SetupState, SetupAction) {
    if n == 0 {
        (SetupState::Finished, SetupAction::SucceedUnchanged)
    } else {
        (SetupState::Backup(0), SetupAction::ReadBackup(0))
    }
}

/// The step after the current action reported `ok`.
pub open spec fn next_step(n: nat, s: SetupState, ok: bool) -> (SetupState, SetupAction) {
    match s {
        SetupState::Backup(k) => if !ok {
            (SetupState::Finished, SetupAction::FailBackup(k))
        } else if k + 1 < n {
            (SetupState::Backup((k + 1) as usize), SetupAction::ReadBackup((k + 1) as usize))
        } else {
            (SetupState::Rewrite(0), SetupAction::RewriteShortcut(0))
        },
        SetupState::Rewrite(k) => if !ok {
            (SetupState::Finished, SetupAction::RollBackAndFail(k))
        } else if k + 1 < n {
            (SetupState::Rewrite((k + 1) as usize), SetupAction::RewriteShortcut((k + 1) as usize))
        } else {
            (SetupState::Finished, SetupAction::RefreshAndSucceed)
        },
        SetupState::Finished => (SetupState::Finished, SetupAction::SucceedUnchanged),
    }
}

/// A state that a setup over `n` shortcuts can be in.
pub open spec fn valid_state(n: nat, s: SetupState) -> bool {
    n <= usize::MAX && match s {
        SetupState::Backup(k) => k < n,
        SetupState::Rewrite(k) => k < n,
        SetupState::Finished => true,
    }
}

/// Starts a setup over `n` existing shortcuts.
pub fn setup_start(n: usize) -> (r: (SetupState, SetupAction))
    ensures
        r == start_step(n as nat),
        valid_state(n as nat, r.0),
{
    if n == 0 {
        (SetupState::Finished, SetupAction::SucceedUnchanged)
    } else {
        (SetupState::Backup(0), SetupAction::ReadBackup(0))
    }
}

/// The next state and action once the current action has been carried out,
/// `ok` telling whether it worked.
pub fn setup_next(n: usize, s: SetupState, ok: bool) -> (r: (SetupState, SetupAction))
    requires
        valid_state(n as nat, s),
        !(s is Finished),
    ensures
        r == next_step(n as nat, s, ok),
        valid_state(n as nat, r.0),
{
    match s {
        SetupState::Backup(k) => if !ok {
            (SetupState::Finished, SetupAction::FailBackup(k))
        } else if k + 1 < n {
            (SetupState::Backup(k + 1), SetupAction::ReadBackup(k + 1))
        } else {
            (SetupState::Rewrite(0), SetupAction::RewriteShortcut(0))
        },
        SetupState::Rewrite(k) => if !ok {
            (SetupState::Finished, SetupAction::RollBackAndFail(k))
        } else if k + 1 < n {
            (SetupState::Rewrite(k + 1), SetupAction::RewriteShortcut(k + 1))
        } else {
            (SetupState::Finished, SetupAction::RefreshAndSucceed)
        },
        SetupState::Finished => (SetupState::Finished, SetupAction::SucceedUnchanged),
    }
}

// ---------------------------------------------------------------------------
// Runs
// ---------------------------------------------------------------------------

/// Whether a run from state `s`, fed the reports `oks` in turn, issues action
/// `a` (after the action that brought it to `s`).
pub open spec fn issues(n: nat, s: SetupState, oks: Seq<bool>, a: SetupAction) -> bool
    decreases oks.len(),
{
    if oks.len() == 0 || s is Finished {
        false
    } else {
        let (s2, b) = next_step(n, s, oks[0]);
        b == a || issues(n, s2, oks.drop_first(), a)
    }
}

pub open spec fn all_ok(oks: Seq<bool>) -> bool {
    forall|i: int| 0 <= i < oks.len() ==> #[trigger] oks[i]
}

proof fn lemma_all_ok_step(oks: Seq<bool>, m: int)
    requires
        1 <= m,
        oks.len() >= 1,
        oks[0],
        oks.drop_first().len() >= m - 1,
        all_ok(oks.drop_first().take(m - 1)),
    ensures
        oks.len() >= m,
        all_ok(oks.take(m)),
{
    assert forall|i: int| 0 <= i < m implies #[trigger] oks.take(m)[i] by {
        if i > 0 {
            assert(oks.drop_first().take(m - 1)[i - 1] == oks[i]);
        }
    }
}

/// The number of reports still owed before success from state `s`.
pub open spec fn steps_left(n: nat, s: SetupState) -> int {
    match s {
        SetupState::Backup(k) => 2 * n - k,
        SetupState::Rewrite(k) => n - k,
        SetupState::Finished => 0,
    }
}

proof fn lemma_success_needs_all(n: nat, s: SetupState, oks: Seq<bool>)
    requires
        valid_state(n, s),
        issues(n, s, oks, SetupAction::RefreshAndSucceed),
    ensures
        oks.len() >= steps_left(n, s),
        all_ok(oks.take(steps_left(n, s))),
    decreases oks.len(),
{
    let (s2, b) = next_step(n, s, oks[0]);
    if !oks[0] {
        // A failed report ends the run with a failure.
        assert(s2 is Finished && b != SetupAction::RefreshAndSucceed);
        assert(!issues(n, s2, oks.drop_first(), SetupAction::RefreshAndSucceed));
    }
    if b != SetupAction::RefreshAndSucceed {
        lemma_success_needs_all(n, s2, oks.drop_first());
    }
    lemma_all_ok_step(oks, steps_left(n, s));
}

proof fn lemma_rollback_after_backups(n: nat, s: SetupState, oks: Seq<bool>, j: usize)
    requires
        valid_state(n, s),
        s is Backup,
        issues(n, s, oks, SetupAction::RollBackAndFail(j)),
    ensures
        oks.len() >= n - s->Backup_0,
        all_ok(oks.take(n - s->Backup_0)),
    decreases oks.len(),
{
    let (s2, b) = next_step(n, s, oks[0]);
    if !oks[0] {
        assert(s2 is Finished && b != SetupAction::RollBackAndFail(j));
        assert(!issues(n, s2, oks.drop_first(), SetupAction::RollBackAndFail(j)));
    }
    if s2 is Backup {
        lemma_rollback_after_backups(n, s2, oks.drop_first(), j);
    }
    lemma_all_ok_step(oks, n - s->Backup_0);
}

proof fn lemma_no_rewrite_after_backup_failure(n: nat, s: SetupState, oks: Seq<bool>, j: usize, i: usize)
    requires
        valid_state(n, s),
        s is Backup,
        issues(n, s, oks, SetupAction::FailBackup(j)),
    ensures
        !issues(n, s, oks, SetupAction::RewriteShortcut(i)),
    decreases oks.len(),
{
    let (s2, b) = next_step(n, s, oks[0]);
    if s2 is Finished {
        assert(!issues(n, s2, oks.drop_first(), SetupAction::RewriteShortcut(i)));
    } else if s2 is Backup {
        lemma_no_rewrite_after_backup_failure(n, s2, oks.drop_first(), j, i);
    } else {
        // Leaving the backups without failing goes to the rewrites, from
        // which no backup failure is ever issued.
        if s2 is Rewrite {
            lemma_rewrites_never_fail_backup(n, s2, oks.drop_first(), j);
        }
    }
}

proof fn lemma_rewrites_never_fail_backup(n: nat, s: SetupState, oks: Seq<bool>, j: usize)
    requires
        valid_state(n, s),
        !(s is Backup),
    ensures
        !issues(n, s, oks, SetupAction::FailBackup(j)),
    decreases oks.len(),
{
    if oks.len() > 0 && !(s is Finished) {
        let (s2, b) = next_step(n, s, oks[0]);
        lemma_rewrites_never_fail_backup(n, s2, oks.drop_first(), j);
    }
}

/// A setup over `n` shortcuts succeeds only after each of the `2n` steps
/// (every backup read, then every shortcut rewritten) has worked.
pub proof fn law_success_only_when_every_step_worked(n: nat, oks: Seq<bool>)
    requires
        0 < n <= usize::MAX,
        issues(n, SetupState::Backup(0), oks, SetupAction::RefreshAndSucceed),
    ensures
        oks.len() >= 2 * n,
        all_ok(oks.take((2 * n) as int)),
{
    lemma_success_needs_all(n, SetupState::Backup(0), oks);
}

/// A rollback comes only after every backup was read, so it can put every
/// shortcut back; it names a shortcut that exists.
pub proof fn law_rollback_has_every_backup(n: nat, oks: Seq<bool>, j: usize)
    requires
        0 < n <= usize::MAX,
        issues(n, SetupState::Backup(0), oks, SetupAction::RollBackAndFail(j)),
    ensures
        oks.len() >= n,
        all_ok(oks.take(n as int)),
{
    lemma_rollback_after_backups(n, SetupState::Backup(0), oks, j);
}

/// When a backup cannot be read, no shortcut is rewritten.
pub proof fn law_backup_failure_changes_nothing(n: nat, oks: Seq<bool>, j: usize, i: usize)
    requires
        0 < n <= usize::MAX,
        issues(n, SetupState::Backup(0), oks, SetupAction::FailBackup(j)),
    ensures
        !issues(n, SetupState::Backup(0), oks, SetupAction::RewriteShortcut(i)),
{
    lemma_no_rewrite_after_backup_failure(n, SetupState::Backup(0), oks, j, i);
}

} // verus!
