//! What the window is told, and what is saved, when a background task ends.
use vstd::prelude::*;
use crate::text::{string_from, append_str};
use crate::events::UiEvent;
use crate::status::is_task_event;
use crate::ui_state::{UiState, applied_all};

verus! {

/// The reports of an ended interceptor task, the setting to save (if any) and
/// whether the setup-failure notification is to be shown.
pub struct InterceptorOutcome {
    pub events: Vec<UiEvent>,
    pub save_interceptor_enabled: Option<bool>,
    pub show_setup_failure: bool,
}

pub open spec fn explorer_text(prefix: Seq<char>, explorer: Result<(), String>) -> Seq<char> {
    match explorer {
        Ok(()) => prefix + ". Explorer restarted."@,
        Err(e) => prefix + ", but Explorer restart failed: "@ + e@
            + ". Please restart Explorer manually."@,
    }
}

fn explorer_message(prefix: &str, explorer: &Result<(), String>) -> (r: String)
    ensures
        r@ == explorer_text(prefix@, *explorer),
{
    let mut s = string_from(prefix);
    match explorer {
        Ok(()) => append_str(&mut s, ". Explorer restarted."),
        Err(e) => {
            append_str(&mut s, ", but Explorer restart failed: ");
            append_str(&mut s, e.as_str());
            append_str(&mut s, ". Please restart Explorer manually.");
        },
    }
    s
}

/// After enabling interception: on success the window learns that it is on,
/// the setting is saved and the Explorer restart is reported; on failure the
/// window is told to look at the notification, which is shown. Either way the
/// window stops being busy.
pub fn enable_interceptor_outcome(setup_ok: bool, explorer: &Result<(), String>) -> (r:
    InterceptorOutcome)
    ensures
        setup_ok ==> {
            &&& r.events@.len() == 3
            &&& r.events@[0] == UiEvent::SetInterceptorEnabled(true)
            &&& is_task_event(r.events@[1], explorer_text("Interceptor enabled"@, *explorer))
            &&& r.events@[2] == UiEvent::SetIsBusy(false)
            &&& r.save_interceptor_enabled == Some(true)
            &&& !r.show_setup_failure
        },
        !setup_ok ==> {
            &&& r.events@.len() == 2
            &&& is_task_event(
                r.events@[0],
                "Interceptor setup failed. See notification for fixes."@,
            )
            &&& r.events@[1] == UiEvent::SetIsBusy(false)
            &&& r.save_interceptor_enabled is None
            &&& r.show_setup_failure
        },
{
    let mut events: Vec<UiEvent> = Vec::new();
    if setup_ok {
        events.push(UiEvent::SetInterceptorEnabled(true));
        events.push(UiEvent::SetTaskInfo(explorer_message("Interceptor enabled", explorer)));
        events.push(UiEvent::SetIsBusy(false));
        InterceptorOutcome {
            events,
            save_interceptor_enabled: Some(true),
            show_setup_failure: false,
        }
    } else {
        events.push(
            UiEvent::SetTaskInfo(string_from("Interceptor setup failed. See notification for fixes.")),
        );
        events.push(UiEvent::SetIsBusy(false));
        InterceptorOutcome { events, save_interceptor_enabled: None, show_setup_failure: true }
    }
}

/// After restoring the original shortcuts: on success the window learns that
/// interception is off, the setting is saved and the Explorer restart is
/// reported; on failure the error is shown. Either way the window stops being
/// busy.
pub fn restore_interceptor_outcome(restore: &Result<(), String>, explorer: &Result<(), String>) -> (r:
    InterceptorOutcome)
    ensures
        restore is Ok ==> {
            &&& r.events@.len() == 3
            &&& r.events@[0] == UiEvent::SetInterceptorEnabled(false)
            &&& is_task_event(
                r.events@[1],
                explorer_text("Restored original shortcuts"@, *explorer),
            )
            &&& r.events@[2] == UiEvent::SetIsBusy(false)
            &&& r.save_interceptor_enabled == Some(false)
        },
        restore matches Err(e) ==> {
            &&& r.events@.len() == 2
            &&& is_task_event(r.events@[0], "Error: "@ + e@)
            &&& r.events@[1] == UiEvent::SetIsBusy(false)
            &&& r.save_interceptor_enabled is None
        },
        !r.show_setup_failure,
{
    let mut events: Vec<UiEvent> = Vec::new();
    match restore {
        Ok(()) => {
            events.push(UiEvent::SetInterceptorEnabled(false));
            events.push(
                UiEvent::SetTaskInfo(explorer_message("Restored original shortcuts", explorer)),
            );
            events.push(UiEvent::SetIsBusy(false));
            InterceptorOutcome {
                events,
                save_interceptor_enabled: Some(false),
                show_setup_failure: false,
            }
        },
        Err(e) => {
            let mut s = string_from("Error: ");
            append_str(&mut s, e.as_str());
            events.push(UiEvent::SetTaskInfo(s));
            events.push(UiEvent::SetIsBusy(false));
            InterceptorOutcome { events, save_interceptor_enabled: None, show_setup_failure: false }
        },
    }
}

/// After an update: the window stops being busy, then learns the result.
pub fn update_outcome_events(result: &Result<(), String>) -> (r: Vec<UiEvent>)
    ensures
        r@.len() == 2,
        r@[0] == UiEvent::SetIsBusy(false),
        match result {
            Ok(()) => is_task_event(r@[1], "Update completed successfully."@),
            Err(e) => is_task_event(r@[1], "Error: "@ + e@),
        },
{
    let mut r: Vec<UiEvent> = Vec::new();
    r.push(UiEvent::SetIsBusy(false));
    match result {
        Ok(()) => r.push(UiEvent::SetTaskInfo(string_from("Update completed successfully."))),
        Err(e) => {
            let mut s = string_from("Error: ");
            append_str(&mut s, e.as_str());
            r.push(UiEvent::SetTaskInfo(s));
        },
    }
    r
}

/// An event list that leaves the window not busy: its last `SetIsBusy` says
/// `false` and no event after it changes that.
proof fn lemma_applied_not_busy(s: UiState, es: Seq<UiEvent>, k: int)
    requires
        0 <= k < es.len(),
        es[k] == UiEvent::SetIsBusy(false),
        forall|j: int| k < j < es.len() ==> !(#[trigger] es[j] is SetIsBusy),
    ensures
        !applied_all(s, es).is_busy,
    decreases es.len(),
{
    if k < es.len() - 1 {
        lemma_applied_not_busy(s, es.drop_last(), k);
    }
}

/// Whatever an interceptor task or an update ends with, once its events are
/// applied the window is no longer busy.
pub proof fn law_tasks_end_not_busy(s: UiState, o: InterceptorOutcome, u: Seq<UiEvent>)
    requires
        o.events@.len() >= 2,
        o.events@.last() == UiEvent::SetIsBusy(false),
        u.len() == 2,
        u[0] == UiEvent::SetIsBusy(false),
        u[1] is SetTaskInfo,
    ensures
        !applied_all(s, o.events@).is_busy,
        !applied_all(s, u).is_busy,
{
    lemma_applied_not_busy(s, o.events@, o.events@.len() - 1);
    lemma_applied_not_busy(s, u, 0);
}

} // verus!
