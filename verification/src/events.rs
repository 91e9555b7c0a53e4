//! The handlers of the events that the window manager delivers.
//!
//! A handler takes the event and what it may read: the shared state, where
//! its lock was free, the time, and the state of the windows. It returns what
//! is to be done. Carrying that out is the caller's part.

use vstd::prelude::*;
use crate::app_state::{
    read_tray_click, reading_of_click, skipped_reading, state_after_click, state_after_focus,
    track_focus, AppState,
};
use crate::auto_login::{on_focus_changed, task_on_focus, AutoLoginTask};
use crate::registry::{Action, WindowRegistry};
use crate::tray::{
    handle_tray_click, hide_visible_plan, lemma_double_click_hides_all, tray_click_plan,
    ClickReading, MouseButton, MouseButtonState, TrayEvent, DOUBLE_CLICK_WINDOW_NANOS,
};
use crate::window::WindowName;

verus! {

/// What a window reports.
#[derive(Clone, Copy, Debug, PartialEq, Eq, Hash, Structural)]
pub enum WindowEvent {
    /// The window gained (`true`) or lost (`false`) input focus.
    Focused(bool),
    /// The user asked to close the window.
    CloseRequested,
    /// Anything else: the window was moved, resized, redrawn.
    Other,
}

/// The answer to an event that may close a window.
#[derive(Clone, Copy, Debug, PartialEq, Eq, Hash, Structural)]
pub struct CloseResponse {
    /// Whether the window is hidden.
    pub hide: bool,
    /// Whether the window manager is kept from destroying the window.
    pub prevent_close: bool,
}

/// What an event of the tray icon does. Only the release of the left button
/// does anything; it acts on what it read from the shared state.
pub open spec fn tray_event_plan(
    event: TrayEvent,
    reading: ClickReading,
    windows: WindowRegistry,
) -> Seq<Action> {
    if event.is_left_release() {
        tray_click_plan(reading, windows)
    } else {
        Seq::empty()
    }
}

/// Handles an event of the tray icon at time `now`, in nanoseconds. `guard`
/// holds the shared state where its lock was free and `None` where it was
/// taken; `windows` is the state of the windows.
///
/// An event other than the release of the left button does nothing and
/// leaves the state alone. A release of the left button is timed against the
/// last one, becomes the last one, and acts as [`tray_click_plan`] says. Where
/// the state is not to be had the handler does not wait for it: the click
/// counts as a single click that found no window focused.
pub fn handle_tray_event(
    event: TrayEvent,
    guard: Option<&mut AppState>,
    now: u64,
    windows: &WindowRegistry,
) -> (actions: Vec<Action>)
    ensures
        match guard {
            Some(state) => {
                &&& actions@ == tray_event_plan(event, reading_of_click(*state, now), *windows)
                &&& *final(state) == if event.is_left_release() {
                    state_after_click(*state, now)
                } else {
                    *state
                }
            },
            None => actions@ == tray_event_plan(event, skipped_reading(), *windows),
        },
{
    if !event.activates() {
        return Vec::new();
    }
    let reading = read_tray_click(guard, now);
    handle_tray_click(reading, windows)
}

/// Handles the report that the window `name` gained (`true`) or lost
/// (`false`) focus. `guard` holds the shared state where its lock was free
/// and `None` where it was taken.
///
/// The change is recorded where the state is to be had and dropped where it
/// is not. Either way a gain of focus of a service window starts a login task,
/// and each gain starts its own: nothing is remembered from one report to the
/// next, so two gains in quick succession start two tasks.
pub fn handle_focus_event(
    guard: Option<&mut AppState>,
    name: WindowName,
    focused: bool,
) -> (task: Option<AutoLoginTask>)
    ensures
        task == task_on_focus(name, focused),
        match guard {
            Some(state) => *final(state) == state_after_focus(*state, name, focused),
            None => true,
        },
{
    track_focus(guard, name, focused);
    on_focus_changed(name, focused)
}

/// The task that an event of the window `name` starts.
pub open spec fn task_on_event(name: WindowName, event: WindowEvent) -> Option<AutoLoginTask> {
    match event {
        WindowEvent::Focused(focused) => task_on_focus(name, focused),
        _ => None,
    }
}

/// The shared state after an event of the window `name`.
pub open spec fn state_after_event(
    state: AppState,
    name: WindowName,
    event: WindowEvent,
) -> AppState {
    match event {
        WindowEvent::Focused(focused) => state_after_focus(state, name, focused),
        _ => state,
    }
}

/// Handles an event of the window `name`. `guard` holds the shared state where
/// its lock was free and `None` where it was taken. A change of focus is
/// handled as [`handle_focus_event`] says; any other event does nothing here.
pub fn handle_window_event(
    guard: Option<&mut AppState>,
    name: WindowName,
    event: WindowEvent,
) -> (task: Option<AutoLoginTask>)
    ensures
        task == task_on_event(name, event),
        match guard {
            Some(state) => *final(state) == state_after_event(*state, name, event),
            None => true,
        },
{
    match event {
        WindowEvent::Focused(focused) => handle_focus_event(guard, name, focused),
        _ => None,
    }
}

/// Decides what becomes of a window on an event. A request to close never
/// closes: the window is hidden and its destruction is prevented, every time,
/// so that it keeps its page, its session and its cookies for the next time it
/// is shown. No other event hides or keeps anything.
pub fn handle_close_request(event: WindowEvent) -> (response: CloseResponse)
    ensures
        response.hide == (event == WindowEvent::CloseRequested),
        response.prevent_close == (event == WindowEvent::CloseRequested),
{
    match event {
        WindowEvent::CloseRequested => CloseResponse { hide: true, prevent_close: true },
        _ => CloseResponse { hide: false, prevent_close: false },
    }
}

/// The release of the left button over the tray icon.
pub open spec fn left_release() -> TrayEvent {
    TrayEvent::Click { button: MouseButton::Left, state: MouseButtonState::Up }
}

/// A left click that follows another within the double-click window hides
/// every shown window, whatever the first click did and whichever window
/// gained or lost focus in between: a change of focus does not touch the time
/// of the last click.
pub proof fn lemma_quick_second_click_hides_all(
    state: AppState,
    first: u64,
    second: u64,
    name: WindowName,
    focused: bool,
    windows: WindowRegistry,
)
    requires
        second - first < DOUBLE_CLICK_WINDOW_NANOS,
        windows.some_visible(),
    ensures
        ({
            let clicked = state_after_click(state, first);
            let refocused = state_after_focus(clicked, name, focused);
            let plan = tray_event_plan(left_release(), reading_of_click(refocused, second), windows);
            &&& reading_of_click(clicked, second).double_click
            &&& reading_of_click(refocused, second).double_click
            &&& plan == hide_visible_plan(windows)
            &&& !windows.after_all(plan).some_visible()
        }),
{
    let refocused = state_after_focus(state_after_click(state, first), name, focused);
    lemma_double_click_hides_all(reading_of_click(refocused, second), windows);
}

} // verus!
