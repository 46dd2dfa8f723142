use hupdater::callbacks::AppCallbacks;
use hupdater::config::{initial_ui_state, is_launch_request, AppConfig, UpdateMethod};
use hupdater::events::{drain_events, post_ui_event, UiEvent};
use hupdater::ui_state::{controls_view, Button, ClickAction, UiState};

#[test]
fn events_are_delivered_in_order_once() {
    let mut q: Vec<UiEvent> = Vec::new();
    assert!(post_ui_event(&mut q, 42, UiEvent::SetIsBusy(true)));
    assert!(post_ui_event(&mut q, 42, UiEvent::SetTaskInfo("Ready".into())));
    let got = drain_events(&mut q);
    assert_eq!(got.len(), 2);
    assert!(matches!(got[0], UiEvent::SetIsBusy(true)));
    assert!(matches!(&got[1], UiEvent::SetTaskInfo(s) if s == "Ready"));
    assert!(q.is_empty());
    assert!(drain_events(&mut q).is_empty());
}

#[test]
fn events_without_window_are_dropped() {
    let mut q: Vec<UiEvent> = Vec::new();
    assert!(!post_ui_event(&mut q, 0, UiEvent::SetIsBusy(true)));
    assert!(drain_events(&mut q).is_empty());
}

#[test]
fn default_state() {
    let s = UiState::default();
    assert_eq!(s.install_status, "Installed (Registry & Winget)");
    assert_eq!(s.install_scope, "user");
    assert_eq!(s.task_info, "Ready");
    assert!(!s.is_busy && !s.use_winget && !s.interceptor_enabled);
    assert!(!s.controls_enabled && !s.helium_installed);
}

#[test]
fn events_update_their_fields() {
    let mut s = UiState::default();
    s.apply_events(vec![
        UiEvent::SetInstallStatus("Not detected".into()),
        UiEvent::SetTaskInfo("A".into()),
        UiEvent::SetTaskInfo("B".into()),
        UiEvent::SetControlsEnabled(true),
        UiEvent::SetIsBusy(true),
        UiEvent::SetInterceptorEnabled(true),
        UiEvent::SetInstallScope("system".into()),
        UiEvent::SetHeliumInstalled(true),
    ]);
    assert_eq!(s.install_status, "Not detected");
    assert_eq!(s.task_info, "B");
    assert!(s.controls_enabled && s.is_busy && s.interceptor_enabled && s.helium_installed);
    assert_eq!(s.install_scope, "system");
    assert!(!s.use_winget);
}

#[test]
fn view_splits_status_and_gates_controls() {
    let mut s = UiState::default();
    s.install_status = "Installed (via Installer) | v0.4.2 (latest) | x".into();
    let v = controls_view(&s);
    assert_eq!(v.status_line, "Status: Installed (via Installer)");
    assert_eq!(v.version_line, "v0.4.2 (latest) | x");
    assert_eq!(v.check_install_text, "Check / Install");
    assert!(v.check_install_enabled);
    assert!(!v.source_enabled && !v.enable_enabled && !v.restore_enabled && !v.uninstall_enabled);
    assert_eq!(v.source_index, 0);

    s.install_status = "Not detected".into();
    s.controls_enabled = true;
    s.helium_installed = true;
    s.use_winget = true;
    let v = controls_view(&s);
    assert_eq!(v.status_line, "Status: Not detected");
    assert_eq!(v.version_line, "");
    assert!(v.source_enabled && v.enable_enabled && !v.restore_enabled && v.uninstall_enabled);
    assert_eq!(v.source_index, 1);

    s.interceptor_enabled = true;
    s.is_busy = true;
    let v = controls_view(&s);
    assert!(!v.enable_enabled && v.restore_enabled);
    assert!(!v.check_install_enabled);
    assert_eq!(v.check_install_text, "Processing...");
}

#[test]
fn clicks() {
    let mut s = UiState::default();
    assert_eq!(s.handle_button_click(Button::Help), ClickAction::ShowHelp);
    assert_eq!(s.task_info, "Ready");
    assert!(!s.is_busy);
    assert_eq!(s.handle_button_click(Button::Uninstall), ClickAction::UninstallUpdater);
    assert_eq!(s.task_info, "Uninstalling...");
    assert!(!s.is_busy);
    assert_eq!(s.handle_button_click(Button::CheckInstall), ClickAction::TriggerUpdate);
    assert_eq!(s.task_info, "Updating...");
    assert!(s.is_busy);
    assert!(!controls_view(&s).check_install_enabled);
    s.apply_event(UiEvent::SetIsBusy(false));
    assert!(controls_view(&s).check_install_enabled);
    assert_eq!(s.handle_button_click(Button::Enable), ClickAction::EnableInterceptor);
    assert_eq!(s.task_info, "Enabling interceptor...");
    assert_eq!(s.handle_button_click(Button::Restore), ClickAction::RestoreInterceptor);
    assert_eq!(s.task_info, "Restoring interceptor...");
}

#[test]
fn source_selection() {
    let mut s = UiState::default();
    assert!(s.select_update_source(1));
    assert!(s.use_winget);
    assert!(!s.select_update_source(0));
    assert!(!s.use_winget);
}

#[test]
fn config_and_initial_state() {
    let mut c = AppConfig::default();
    assert_eq!(c, AppConfig { update_method: UpdateMethod::Installer, interceptor_enabled: false });
    c.set_update_source(true);
    assert_eq!(c.update_method, UpdateMethod::Winget);
    c.set_interceptor_enabled(true);
    let s = initial_ui_state(&c);
    assert!(s.use_winget && s.interceptor_enabled && !s.controls_enabled);
    assert_eq!(s.task_info, "Checking Helium installation...");
    c.set_update_source(false);
    assert_eq!(c.update_method, UpdateMethod::Installer);
    assert!(c.interceptor_enabled);
}

#[test]
fn launch_flag() {
    let args = |v: &[&str]| v.iter().map(|s| s.to_string()).collect::<Vec<String>>();
    assert!(is_launch_request(&args(&["hupdater.exe", "--launch", "https://x"])));
    assert!(!is_launch_request(&args(&["hupdater.exe"])));
    assert!(!is_launch_request(&args(&["hupdater.exe", "--launchx"])));
}

#[test]
fn callbacks_by_click() {
    let cb = AppCallbacks {
        on_trigger_update: 1,
        on_enable_interceptor: 2,
        on_restore_interceptor: 3,
        on_uninstall_updater: 4,
        on_save_settings: "save",
    };
    assert_eq!(cb.action_for(ClickAction::ShowHelp), None);
    assert_eq!(cb.action_for(ClickAction::TriggerUpdate), Some(&1));
    assert_eq!(cb.action_for(ClickAction::EnableInterceptor), Some(&2));
    assert_eq!(cb.action_for(ClickAction::RestoreInterceptor), Some(&3));
    assert_eq!(cb.action_for(ClickAction::UninstallUpdater), Some(&4));
}
