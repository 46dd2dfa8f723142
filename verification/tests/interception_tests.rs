use hupdater::interception::SetupAction::{
    FailBackup, ReadBackup, RefreshAndSucceed, RewriteShortcut, RollBackAndFail,
};
use hupdater::interception::{setup_next, setup_start, SetupAction, SetupState};

/// The actions issued for `n` shortcuts when the steps report `oks` in turn.
fn run(n: usize, oks: &[bool]) -> Vec<SetupAction> {
    let (mut state, action) = setup_start(n);
    let mut actions = vec![action];
    for &ok in oks {
        if state == SetupState::Finished {
            break;
        }
        let (s, a) = setup_next(n, state, ok);
        state = s;
        actions.push(a);
    }
    actions
}

#[test]
fn every_step_working_rewrites_all_and_refreshes() {
    assert_eq!(
        run(2, &[true, true, true, true]),
        vec![ReadBackup(0), ReadBackup(1), RewriteShortcut(0), RewriteShortcut(1), RefreshAndSucceed]
    );
}

#[test]
fn no_shortcut_changes_nothing() {
    assert_eq!(run(0, &[]), vec![SetupAction::SucceedUnchanged]);
}

#[test]
fn unreadable_backup_stops_before_any_rewrite() {
    assert_eq!(run(3, &[true, false, true]), vec![ReadBackup(0), ReadBackup(1), FailBackup(1)]);
}

#[test]
fn failed_rewrite_rolls_back() {
    assert_eq!(
        run(2, &[true, true, true, false, true]),
        vec![ReadBackup(0), ReadBackup(1), RewriteShortcut(0), RewriteShortcut(1), RollBackAndFail(1)]
    );
    assert_eq!(
        run(1, &[true, false]),
        vec![ReadBackup(0), RewriteShortcut(0), RollBackAndFail(0)]
    );
}
