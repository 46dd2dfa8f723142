//! The updater's saved settings and the window state they start from.
use vstd::prelude::*;
use crate::text::{chars_of, chars_equal, string_from};
use crate::ui_state::UiState;

verus! {

/// Where Helium updates come from.
#[derive(Clone, Copy, PartialEq, Eq, Structural, Debug)]
pub enum UpdateMethod {
    /// The installer of the latest GitHub release.
    Installer,
    /// The winget package manager.
    Winget,
}

/// The saved settings.
#[derive(Clone, Copy, PartialEq, Eq, Structural, Debug)]
pub struct AppConfig {
    pub update_method: UpdateMethod,
    pub interceptor_enabled: bool,
}

impl Default for AppConfig {
    fn default() -> (r: Self)
        ensures
            r == (AppConfig { update_method: UpdateMethod::Installer, interceptor_enabled: false }),
    {
        AppConfig { update_method: UpdateMethod::Installer, interceptor_enabled: false }
    }
}

impl AppConfig {
    /// Records the update source chosen in the window.
    pub fn set_update_source(&mut self, use_winget: bool)
        ensures
            final(self).update_method == (if use_winget {
                UpdateMethod::Winget
            } else {
                UpdateMethod::Installer
            }),
            final(self).interceptor_enabled == old(self).interceptor_enabled,
    {
        self.update_method = if use_winget {
            UpdateMethod::Winget
        } else {
            UpdateMethod::Installer
        };
    }

    /// Records whether launch interception is on.
    pub fn set_interceptor_enabled(&mut self, enabled: bool)
        ensures
            final(self).interceptor_enabled == enabled,
            final(self).update_method == old(self).update_method,
    {
        self.interceptor_enabled = enabled;
    }
}

/// The window's first state: the saved settings shown, the controls locked
/// while the installation is checked.
pub fn initial_ui_state(config: &AppConfig) -> (s: UiState)
    ensures
        s.install_status@ == "Installed (Registry & Winget)"@,
        s.install_scope@ == "user"@,
        s.task_info@ == "Checking Helium installation..."@,
        !s.is_busy,
        s.use_winget == (config.update_method == UpdateMethod::Winget),
        s.interceptor_enabled == config.interceptor_enabled,
        !s.controls_enabled,
        !s.helium_installed,
{
    let mut s = UiState::default();
    s.use_winget = config.update_method == UpdateMethod::Winget;
    s.interceptor_enabled = config.interceptor_enabled;
    s.controls_enabled = false;
    s.task_info = string_from("Checking Helium installation...");
    s
}

/// Whether the program was started by an intercepted shortcut: its first
/// argument is `--launch`.
pub fn is_launch_request(args: &Vec<String>) -> (r: bool)
    ensures
        r == (args@.len() > 1 && args@[1]@ == "--launch"@),
{
    if args.len() <= 1 {
        return false;
    }
    let a = chars_of(args[1].as_str());
    let b = chars_of("--launch");
    chars_equal(&a, &b)
}

} // verus!
