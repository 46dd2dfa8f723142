//! The queue through which background work reports to the window: events are
//! posted while a window is registered and drained by the window, in order.
use vstd::prelude::*;

verus! {

/// A change of the window's state, reported by background work.
#[derive(Debug, Clone)]
pub enum UiEvent {
    SetInstallStatus(String),
    SetTaskInfo(String),
    SetControlsEnabled(bool),
    SetIsBusy(bool),
    SetInterceptorEnabled(bool),
    SetInstallScope(String),
    SetHeliumInstalled(bool),
}

/// The queue after posting `event` with the given window handle, and whether
/// the window is to be woken: without a window (handle 0) the event is dropped.
pub open spec fn posted(queue: Seq<UiEvent>, window: isize, event: UiEvent) -> (Seq<UiEvent>, bool) {
    if window == 0 {
        (queue, false)
    } else {
        (queue.push(event), true)
    }
}

/// Posts an event for the window with handle `window`. Returns whether the
/// window must be woken to drain the queue.
pub fn post_ui_event(queue: &mut Vec<UiEvent>, window: isize, event: UiEvent) -> (wake: bool)
    ensures
        (final(queue)@, wake) == posted(old(queue)@, window, event),
{
    if window == 0 {
        return false;
    }
    queue.push(event);
    true
}

/// Takes every queued event, oldest first, leaving the queue empty.
pub fn drain_events(queue: &mut Vec<UiEvent>) -> (events: Vec<UiEvent>)
    ensures
        events@ == old(queue)@,
        final(queue)@ == Seq::<UiEvent>::empty(),
{
    let mut taken: Vec<UiEvent> = Vec::new();
    std::mem::swap(queue, &mut taken);
    taken
}

/// The queue after posting each of `events` in turn with the same window.
pub open spec fn posted_all(queue: Seq<UiEvent>, window: isize, events: Seq<UiEvent>) -> Seq<
    UiEvent,
>
    decreases events.len(),
{
    if events.len() == 0 {
        queue
    } else {
        posted(posted_all(queue, window, events.drop_last()), window, events.last()).0
    }
}

/// While a window is registered, a drain returns what was queued before,
/// followed by every event posted since, in the order of posting; nothing is
/// lost and nothing is added.
pub proof fn law_drain_returns_posts_in_order(queue: Seq<UiEvent>, window: isize, events: Seq<UiEvent>)
    requires
        window != 0,
    ensures
        posted_all(queue, window, events) == queue + events,
    decreases events.len(),
{
    if events.len() > 0 {
        law_drain_returns_posts_in_order(queue, window, events.drop_last());
        assert(queue + events =~= (queue + events.drop_last()).push(events.last()));
    } else {
        assert(queue + events =~= queue);
    }
}

/// Without a registered window, posting leaves the queue as it was.
pub proof fn law_no_window_drops_events(queue: Seq<UiEvent>, events: Seq<UiEvent>)
    ensures
        posted_all(queue, 0, events) == queue,
    decreases events.len(),
{
    if events.len() > 0 {
        law_no_window_drops_events(queue, events.drop_last());
    }
}

} // verus!
