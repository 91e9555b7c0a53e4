//! The state that all event handlers share.

use vstd::prelude::*;
use crate::focus::FocusState;
use crate::tray::{is_double_click, ClickReading, TrayClickState};
use crate::window::WindowName;

verus! {

/// Focus of the windows and the time of the last tray click.
///
/// The state is created once at startup and shared by every handler under a
/// lock that is only ever tried, never waited for: a handler that finds the
/// lock taken goes without the state. A focus change is then not recorded, and
/// a tray click acts on [`ClickReading::skipped`].
#[derive(Clone, Copy, Debug, PartialEq, Eq, Hash, Structural)]
pub struct AppState {
    pub focus: FocusState,
    pub tray: TrayClickState,
}

impl Default for AppState {
    /// The state at startup on a clock that starts with the application: no
    /// window is focused, and startup, at time zero, counts as the last click.
    fn default() -> (state: AppState)
        ensures
            state == (AppState {
                focus: FocusState { gemini: false, poe: false, settings: false },
                tray: TrayClickState { last_click: 0 },
            }),
    {
        AppState::new(0)
    }
}

impl AppState {
    /// The state at startup, at time `now` in nanoseconds: no window is focused
    /// and startup counts as the last click.
    pub fn new(now: u64) -> (state: AppState)
        ensures
            state == (AppState {
                focus: FocusState { gemini: false, poe: false, settings: false },
                tray: TrayClickState { last_click: now },
            }),
            !state.focus.some_focused(),
    {
        AppState { focus: FocusState::new(), tray: TrayClickState::new(now) }
    }

    /// Records that the window `name` gained or lost focus. Nothing else
    /// changes.
    pub fn set_focus(&mut self, name: WindowName, focused: bool)
        ensures
            *final(self) == state_after_focus(*old(self), name, focused),
    {
        self.focus.set_focus(name, focused);
    }

    /// Tells whether the window `name` is marked as focused.
    pub fn get_focus(&self, name: WindowName) -> (focused: bool)
        ensures
            focused == self.focus.focused(name),
    {
        self.focus.get_focus(name)
    }

    /// Takes note of a left click on the tray icon at time `now`, in
    /// nanoseconds, and returns what the click found: whether it is a double
    /// click, and the focus of each window. The click becomes the last click;
    /// the focus stays as it is.
    pub fn record_tray_click(&mut self, now: u64) -> (reading: ClickReading)
        ensures
            reading == reading_of_click(*old(self), now),
            *final(self) == state_after_click(*old(self), now),
    {
        let double_click = self.tray.register_click(now);
        ClickReading { double_click, focus: self.focus }
    }
}

/// The state after the window `name` gained or lost focus.
pub open spec fn state_after_focus(state: AppState, name: WindowName, focused: bool) -> AppState {
    AppState { focus: state.focus.with(name, focused), tray: state.tray }
}

/// The state after a left click on the tray icon at time `now`.
pub open spec fn state_after_click(state: AppState, now: u64) -> AppState {
    AppState { focus: state.focus, tray: TrayClickState { last_click: now } }
}

/// What a left click at time `now` reads from `state`.
pub open spec fn reading_of_click(state: AppState, now: u64) -> ClickReading {
    ClickReading {
        double_click: is_double_click(state.tray.last_click, now),
        focus: state.focus,
    }
}

/// What a left click reads when it goes without the state.
pub open spec fn skipped_reading() -> ClickReading {
    ClickReading {
        double_click: false,
        focus: FocusState { gemini: false, poe: false, settings: false },
    }
}

/// Records a change of focus under the try-lock discipline. `guard` holds the
/// state where the lock was free and `None` where it was taken; the change is
/// then dropped, and nobody waits.
pub fn track_focus(guard: Option<&mut AppState>, name: WindowName, focused: bool)
    ensures
        match guard {
            Some(state) => *final(state) == state_after_focus(*state, name, focused),
            None => true,
        },
{
    match guard {
        Some(state) => {
            state.set_focus(name, focused);
        },
        None => {},
    }
}

/// Reads the state for a left click on the tray icon at time `now`, in
/// nanoseconds, under the try-lock discipline. `guard` holds the state where
/// the lock was free and `None` where it was taken. With the state the click
/// is timed against the last one and becomes the last click itself; without
/// it the click counts as a single click that found no window focused.
pub fn read_tray_click(guard: Option<&mut AppState>, now: u64) -> (reading: ClickReading)
    ensures
        match guard {
            Some(state) => reading == reading_of_click(*state, now) && *final(state)
                == state_after_click(*state, now),
            None => reading == skipped_reading(),
        },
{
    match guard {
        Some(state) => state.record_tray_click(now),
        None => ClickReading::skipped(),
    }
}

} // verus!
