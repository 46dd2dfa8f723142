//! The actions that the window hands to the rest of the program.
use vstd::prelude::*;

verus! {

/// What the window calls when the user asks for something: `A` is the type of
/// the argument-less actions, `S` that of the settings callback, which takes
/// whether winget is the update source.
pub struct AppCallbacks<A, S> {
    pub on_trigger_update: A,
    pub on_enable_interceptor: A,
    pub on_restore_interceptor: A,
    pub on_uninstall_updater: A,
    pub on_save_settings: S,
}

impl<A, S> AppCallbacks<A, S> {
    /// The action that a click asks for, if it is one of the callbacks.
    pub fn action_for(&self, action: crate::ui_state::ClickAction) -> (r: Option<&A>)
        ensures
            r == match action {
                crate::ui_state::ClickAction::ShowHelp => None,
                crate::ui_state::ClickAction::TriggerUpdate => Some(&self.on_trigger_update),
                crate::ui_state::ClickAction::EnableInterceptor => Some(
                    &self.on_enable_interceptor,
                ),
                crate::ui_state::ClickAction::RestoreInterceptor => Some(
                    &self.on_restore_interceptor,
                ),
                crate::ui_state::ClickAction::UninstallUpdater => Some(&self.on_uninstall_updater),
            },
    {
        match action {
            crate::ui_state::ClickAction::ShowHelp => None,
            crate::ui_state::ClickAction::TriggerUpdate => Some(&self.on_trigger_update),
            crate::ui_state::ClickAction::EnableInterceptor => Some(&self.on_enable_interceptor),
            crate::ui_state::ClickAction::RestoreInterceptor => Some(&self.on_restore_interceptor),
            crate::ui_state::ClickAction::UninstallUpdater => Some(&self.on_uninstall_updater),
        }
    }
}

} // verus!
