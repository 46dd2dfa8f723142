//! The state that the window shows, how events and clicks change it, and what
//! the controls display for a given state.
use vstd::prelude::*;
use crate::text::{self, chars_of, string_of, string_from, append_str, split_once_chars};
use crate::events::UiEvent;

verus! {

/// What the window shows.
pub struct UiState {
    pub install_status: String,
    pub install_scope: String,
    pub task_info: String,
    pub is_busy: bool,
    pub use_winget: bool,
    pub interceptor_enabled: bool,
    pub controls_enabled: bool,
    pub helium_installed: bool,
}

impl Default for UiState {
    fn default() -> (r: Self)
        ensures
            r.install_status@ == "Installed (Registry & Winget)"@,
            r.install_scope@ == "user"@,
            r.task_info@ == "Ready"@,
            !r.is_busy,
            !r.use_winget,
            !r.interceptor_enabled,
            !r.controls_enabled,
            !r.helium_installed,
    {
        UiState {
            install_status: string_from("Installed (Registry & Winget)"),
            install_scope: string_from("user"),
            task_info: string_from("Ready"),
            is_busy: false,
            use_winget: false,
            interceptor_enabled: false,
            controls_enabled: false,
            helium_installed: false,
        }
    }
}

/// The state after one event: the event's field takes its value, every other
/// field stays.
pub open spec fn applied(s: UiState, e: UiEvent) -> UiState {
    match e {
        UiEvent::SetInstallStatus(v) => UiState { install_status: v, ..s },
        UiEvent::SetTaskInfo(v) => UiState { task_info: v, ..s },
        UiEvent::SetControlsEnabled(v) => UiState { controls_enabled: v, ..s },
        UiEvent::SetIsBusy(v) => UiState { is_busy: v, ..s },
        UiEvent::SetInterceptorEnabled(v) => UiState { interceptor_enabled: v, ..s },
        UiEvent::SetInstallScope(v) => UiState { install_scope: v, ..s },
        UiEvent::SetHeliumInstalled(v) => UiState { helium_installed: v, ..s },
    }
}

/// The state after the events, applied oldest first.
pub open spec fn applied_all(s: UiState, es: Seq<UiEvent>) -> UiState
    decreases es.len(),
{
    if es.len() == 0 {
        s
    } else {
        applied(applied_all(s, es.drop_last()), es.last())
    }
}

/// A button of the window.
#[derive(Clone, Copy, PartialEq, Eq, Structural, Debug)]
pub enum Button {
    Help,
    CheckInstall,
    Enable,
    Restore,
    Uninstall,
}

/// What a click asks of the rest of the program.
#[derive(Clone, Copy, PartialEq, Eq, Structural, Debug)]
pub enum ClickAction {
    ShowHelp,
    TriggerUpdate,
    EnableInterceptor,
    RestoreInterceptor,
    UninstallUpdater,
}

pub open spec fn click_action(b: Button) -> ClickAction {
    match b {
        Button::Help => ClickAction::ShowHelp,
        Button::CheckInstall => ClickAction::TriggerUpdate,
        Button::Enable => ClickAction::EnableInterceptor,
        Button::Restore => ClickAction::RestoreInterceptor,
        Button::Uninstall => ClickAction::UninstallUpdater,
    }
}

/// The task text that a click shows, if it shows one.
pub open spec fn click_task_info(b: Button) -> Option<Seq<char>> {
    match b {
        Button::Help => None,
        Button::CheckInstall => Some("Updating..."@),
        Button::Enable => Some("Enabling interceptor..."@),
        Button::Restore => Some("Restoring interceptor..."@),
        Button::Uninstall => Some("Uninstalling..."@),
    }
}

/// Whether a click marks the window busy.
pub open spec fn click_makes_busy(b: Button) -> bool {
    b == Button::CheckInstall || b == Button::Enable || b == Button::Restore
}

/// What the controls display for a state.
pub struct ControlsView {
    pub status_line: String,
    pub version_line: String,
    pub check_install_text: String,
    pub check_install_enabled: bool,
    pub source_enabled: bool,
    pub enable_enabled: bool,
    pub restore_enabled: bool,
    pub uninstall_enabled: bool,
    pub source_index: usize,
}

/// The status label shows the status up to the first ` | `; the version label
/// shows the rest (empty when there is no ` | `).
pub open spec fn status_lines(status: Seq<char>) -> (Seq<char>, Seq<char>) {
    match text::split_once(status, " | "@) {
        Some((a, b)) => ("Status: "@ + a, b),
        None => ("Status: "@ + status, Seq::empty()),
    }
}

/// The configuration controls are usable once the installation check has
/// finished and found Helium.
pub open spec fn config_enabled(s: UiState) -> bool {
    s.controls_enabled && s.helium_installed
}

pub open spec fn controls_spec(s: UiState, v: ControlsView) -> bool {
    &&& (v.status_line@, v.version_line@) == status_lines(s.install_status@)
    &&& v.check_install_text@ == (if s.is_busy {
        "Processing..."@
    } else {
        "Check / Install"@
    })
    &&& v.check_install_enabled == !s.is_busy
    &&& v.source_enabled == config_enabled(s)
    &&& v.enable_enabled == (config_enabled(s) && !s.interceptor_enabled)
    &&& v.restore_enabled == (config_enabled(s) && s.interceptor_enabled)
    &&& v.uninstall_enabled == config_enabled(s)
    &&& v.source_index == (if s.use_winget {
        1usize
    } else {
        0usize
    })
}

impl UiState {
    /// Applies one event.
    pub fn apply_event(&mut self, event: UiEvent)
        ensures
            *final(self) == applied(*old(self), event),
    {
        match event {
            UiEvent::SetInstallStatus(v) => self.install_status = v,
            UiEvent::SetTaskInfo(v) => self.task_info = v,
            UiEvent::SetControlsEnabled(v) => self.controls_enabled = v,
            UiEvent::SetIsBusy(v) => self.is_busy = v,
            UiEvent::SetInterceptorEnabled(v) => self.interceptor_enabled = v,
            UiEvent::SetInstallScope(v) => self.install_scope = v,
            UiEvent::SetHeliumInstalled(v) => self.helium_installed = v,
        }
    }

    /// Applies drained events, oldest first.
    pub fn apply_events(&mut self, events: Vec<UiEvent>)
        ensures
            *final(self) == applied_all(*old(self), events@),
    {
        let ghost all = events@;
        let ghost start = *self;
        let mut rest = events;
        let mut k: usize = 0;
        let n = rest.len();
        assert(all.take(0) =~= Seq::<UiEvent>::empty());
        while k < n
            invariant
                n == all.len(),
                k <= n,
                rest@ == all.subrange(k as int, n as int),
                *self == applied_all(start, all.take(k as int)),
            decreases n - k,
        {
            let e = rest.remove(0);
            assert(e == all[k as int]);
            assert(rest@ =~= all.subrange(k + 1, n as int));
            assert(all.take(k + 1).drop_last() =~= all.take(k as int));
            self.apply_event(e);
            k += 1;
        }
        assert(all.take(n as int) =~= all);
    }

    /// Handles a click: marks the window busy for the actions that run in the
    /// background, shows what is being done, and says which action to start.
    pub fn handle_button_click(&mut self, button: Button) -> (action: ClickAction)
        ensures
            action == click_action(button),
            final(self).is_busy == (click_makes_busy(button) || old(self).is_busy),
            match click_task_info(button) {
                Some(t) => final(self).task_info@ == t,
                None => final(self).task_info == old(self).task_info,
            },
            final(self).install_status == old(self).install_status,
            final(self).install_scope == old(self).install_scope,
            final(self).use_winget == old(self).use_winget,
            final(self).interceptor_enabled == old(self).interceptor_enabled,
            final(self).controls_enabled == old(self).controls_enabled,
            final(self).helium_installed == old(self).helium_installed,
    {
        match button {
            Button::Help => ClickAction::ShowHelp,
            Button::CheckInstall => {
                self.is_busy = true;
                self.task_info = string_from("Updating...");
                ClickAction::TriggerUpdate
            },
            Button::Enable => {
                self.is_busy = true;
                self.task_info = string_from("Enabling interceptor...");
                ClickAction::EnableInterceptor
            },
            Button::Restore => {
                self.is_busy = true;
                self.task_info = string_from("Restoring interceptor...");
                ClickAction::RestoreInterceptor
            },
            Button::Uninstall => {
                self.task_info = string_from("Uninstalling...");
                ClickAction::UninstallUpdater
            },
        }
    }

    /// Records a choice in the update-source list (index 1 is winget) and
    /// returns the setting to save.
    pub fn select_update_source(&mut self, selection: i32) -> (use_winget: bool)
        ensures
            use_winget == (selection == 1),
            *final(self) == (UiState { use_winget: selection == 1, ..*old(self) }),
    {
        self.use_winget = selection == 1;
        selection == 1
    }
}

/// What the controls display for a state.
pub fn controls_view(s: &UiState) -> (v: ControlsView)
    ensures
        controls_spec(*s, v),
{
    let status = chars_of(s.install_status.as_str());
    let sep = chars_of(" | ");
    let (status_line, version_line) = match split_once_chars(&status, &sep) {
        Some((a, b)) => {
            let mut line = string_from("Status: ");
            let a_s = string_of(&a);
            append_str(&mut line, a_s.as_str());
            (line, string_of(&b))
        },
        None => {
            let mut line = string_from("Status: ");
            append_str(&mut line, s.install_status.as_str());
            (line, String::new())
        },
    };
    let config = s.controls_enabled && s.helium_installed;
    ControlsView {
        status_line,
        version_line,
        check_install_text: if s.is_busy {
            string_from("Processing...")
        } else {
            string_from("Check / Install")
        },
        check_install_enabled: !s.is_busy,
        source_enabled: config,
        enable_enabled: config && !s.interceptor_enabled,
        restore_enabled: config && s.interceptor_enabled,
        uninstall_enabled: config,
        source_index: if s.use_winget {
            1
        } else {
            0
        },
    }
}

// ---------------------------------------------------------------------------
// Laws
// ---------------------------------------------------------------------------

/// The Enable and Restore buttons are never usable at the same time.
pub proof fn law_enable_restore_exclusive(s: UiState, v: ControlsView)
    requires
        controls_spec(s, v),
    ensures
        !(v.enable_enabled && v.restore_enabled),
{
}

/// The configuration controls follow the state's fields: the source list and
/// Uninstall are usable only when the controls are enabled and Helium was
/// found; of Enable and Restore, Enable is usable then when interception is
/// off and Restore when it is on. Check / Install is usable exactly when no
/// task is running.
pub proof fn law_config_controls_need_helium(s: UiState, v: ControlsView)
    requires
        controls_spec(s, v),
    ensures
        v.source_enabled <==> s.controls_enabled && s.helium_installed,
        v.uninstall_enabled <==> s.controls_enabled && s.helium_installed,
        v.enable_enabled <==> s.controls_enabled && s.helium_installed && !s.interceptor_enabled,
        v.restore_enabled <==> s.controls_enabled && s.helium_installed && s.interceptor_enabled,
        v.check_install_enabled <==> !s.is_busy,
        v.check_install_text@ == (if s.is_busy {
            "Processing..."@
        } else {
            "Check / Install"@
        }),
        v.source_index == 1 <==> s.use_winget,
        v.source_index <= 1,
{
}

/// A click that starts background work disables Check / Install until a
/// `SetIsBusy(false)` event arrives, which enables it again.
pub proof fn law_busy_until_reported(
    s: UiState,
    b: Button,
    after_click: UiState,
    v: ControlsView,
    w: ControlsView,
)
    requires
        click_makes_busy(b),
        after_click.is_busy == (click_makes_busy(b) || s.is_busy),
        controls_spec(after_click, v),
        controls_spec(applied(after_click, UiEvent::SetIsBusy(false)), w),
    ensures
        !v.check_install_enabled,
        v.check_install_text@ == "Processing..."@,
        w.check_install_enabled,
        w.check_install_text@ == "Check / Install"@,
{
}

/// An event changes only the field that it names, which then holds its value.
pub proof fn law_event_sets_its_field(s: UiState, b: bool)
    ensures
        applied(s, UiEvent::SetIsBusy(b)).is_busy == b,
        applied(s, UiEvent::SetControlsEnabled(b)).controls_enabled == b,
        applied(s, UiEvent::SetInterceptorEnabled(b)).interceptor_enabled == b,
        applied(s, UiEvent::SetHeliumInstalled(b)).helium_installed == b,
        applied(s, UiEvent::SetIsBusy(b)).task_info == s.task_info,
        applied(s, UiEvent::SetIsBusy(b)).install_status == s.install_status,
        applied(s, UiEvent::SetInterceptorEnabled(b)).is_busy == s.is_busy,
{
}

/// Applying the same event twice is the same as applying it once.
pub proof fn law_event_idempotent(s: UiState, e: UiEvent)
    ensures
        applied(applied(s, e), e) == applied(s, e),
{
}

} // verus!
