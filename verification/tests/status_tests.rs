use hupdater::events::UiEvent;
use hupdater::install::InstallScope;
use hupdater::outcome::{enable_interceptor_outcome, restore_interceptor_outcome, update_outcome_events};
use hupdater::status::{base_status_text, install_status_text, should_fetch_latest, status_events};
use hupdater::ui_state::{controls_view, UiState};

fn task(e: &UiEvent) -> String {
    match e {
        UiEvent::SetTaskInfo(s) => s.clone(),
        other => panic!("not a task event: {:?}", other),
    }
}

#[test]
fn base_statuses() {
    assert_eq!(base_status_text(true, true), "Installed (Registry & Winget)");
    assert_eq!(base_status_text(true, false), "Installed (via Installer)");
    assert_eq!(base_status_text(false, true), "Installed (via Winget)");
    assert_eq!(base_status_text(false, false), "Not detected");
    assert!(should_fetch_latest(false, true));
    assert!(!should_fetch_latest(false, false));
}

#[test]
fn status_texts() {
    assert_eq!(
        install_status_text(true, false, &Some(" v0.4.2 ".into()), &Some("0.4.2".into())),
        "Installed (via Installer) | v0.4.2 (latest)"
    );
    assert_eq!(
        install_status_text(true, true, &Some("0.4.2".into()), &Some("0.5.0".into())),
        "Installed (Registry & Winget) | v0.4.2 (outdated, latest v0.5.0)"
    );
    assert_eq!(
        install_status_text(false, true, &Some("0.4.2-BETA".into()), &Some("0.4.2-beta".into())),
        "Installed (via Winget) | v0.4.2-BETA (latest)"
    );
    assert_eq!(
        install_status_text(true, false, &Some("1".into()), &None),
        "Installed (via Installer) | v1 (latest unknown)"
    );
    assert_eq!(install_status_text(true, false, &Some("  ".into()), &None), "Installed (via Installer)");
    assert_eq!(install_status_text(false, false, &None, &None), "Not detected");
}

#[test]
fn status_event_sequence_and_labels() {
    let events = status_events(true, false, &Some("0.4.2".into()), Some(InstallScope::System), &Some("0.5".into()));
    assert_eq!(events.len(), 5);
    assert!(matches!(&events[0], UiEvent::SetInstallStatus(s) if s == "Installed (via Installer) | v0.4.2 (outdated, latest v0.5)"));
    assert!(matches!(events[1], UiEvent::SetHeliumInstalled(true)));
    assert!(matches!(events[2], UiEvent::SetControlsEnabled(true)));
    assert_eq!(task(&events[3]), "Ready");
    assert!(matches!(&events[4], UiEvent::SetInstallScope(s) if s == "system"));
    let mut s = UiState::default();
    s.apply_events(events);
    let v = controls_view(&s);
    assert_eq!(v.status_line, "Status: Installed (via Installer)");
    assert_eq!(v.version_line, "v0.4.2 (outdated, latest v0.5)");
    assert!(v.enable_enabled);

    let events = status_events(false, false, &None, None, &None);
    assert_eq!(events.len(), 4);
    assert!(matches!(events[1], UiEvent::SetHeliumInstalled(false)));
}

#[test]
fn enable_outcomes() {
    let o = enable_interceptor_outcome(true, &Ok(()));
    assert_eq!(o.events.len(), 3);
    assert!(matches!(o.events[0], UiEvent::SetInterceptorEnabled(true)));
    assert_eq!(task(&o.events[1]), "Interceptor enabled. Explorer restarted.");
    assert!(matches!(o.events[2], UiEvent::SetIsBusy(false)));
    assert_eq!(o.save_interceptor_enabled, Some(true));
    assert!(!o.show_setup_failure);

    let o = enable_interceptor_outcome(true, &Err("access denied".into()));
    assert_eq!(
        task(&o.events[1]),
        "Interceptor enabled, but Explorer restart failed: access denied. Please restart Explorer manually."
    );

    let o = enable_interceptor_outcome(false, &Ok(()));
    assert_eq!(o.events.len(), 2);
    assert_eq!(task(&o.events[0]), "Interceptor setup failed. See notification for fixes.");
    assert!(matches!(o.events[1], UiEvent::SetIsBusy(false)));
    assert_eq!(o.save_interceptor_enabled, None);
    assert!(o.show_setup_failure);
}

#[test]
fn restore_and_update_outcomes() {
    let o = restore_interceptor_outcome(&Ok(()), &Ok(()));
    assert!(matches!(o.events[0], UiEvent::SetInterceptorEnabled(false)));
    assert_eq!(task(&o.events[1]), "Restored original shortcuts. Explorer restarted.");
    assert_eq!(o.save_interceptor_enabled, Some(false));
    let o = restore_interceptor_outcome(&Err("no shortcut".into()), &Ok(()));
    assert_eq!(o.events.len(), 2);
    assert_eq!(task(&o.events[0]), "Error: no shortcut");
    assert_eq!(o.save_interceptor_enabled, None);

    let e = update_outcome_events(&Ok(()));
    assert!(matches!(e[0], UiEvent::SetIsBusy(false)));
    assert_eq!(task(&e[1]), "Update completed successfully.");
    let e = update_outcome_events(&Err("No installer found".into()));
    assert_eq!(task(&e[1]), "Error: No installer found");

    let mut s = UiState::default();
    s.is_busy = true;
    s.apply_events(update_outcome_events(&Ok(())));
    assert!(!s.is_busy);
}
