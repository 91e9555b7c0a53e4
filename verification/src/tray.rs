//! The tray icon: telling clicks from double clicks, and what a click does.

use vstd::prelude::*;
use crate::focus::FocusState;
use crate::registry::{
    lemma_after_all_concat, lemma_after_all_one, lemma_after_all_two, Action, WindowRegistry,
};
use crate::window::WindowName;

verus! {

/// Two clicks closer together than this many nanoseconds make a double click.
pub const DOUBLE_CLICK_WINDOW_NANOS: u64 = 300_000_000;

/// A button of the pointing device.
#[derive(Clone, Copy, Debug, PartialEq, Eq, Hash, Structural)]
pub enum MouseButton {
    Left,
    Right,
    Middle,
}

/// Whether a button went down or came up.
#[derive(Clone, Copy, Debug, PartialEq, Eq, Hash, Structural)]
pub enum MouseButtonState {
    Up,
    Down,
}

/// What the tray icon reports.
#[derive(Clone, Copy, Debug, PartialEq, Eq, Hash, Structural)]
pub enum TrayEvent {
    /// A button changed state over the icon.
    Click { button: MouseButton, state: MouseButtonState },
    /// Anything else: the pointer entering, moving over or leaving the icon.
    Other,
}

/// The time of the last left click on the tray icon that was processed, in
/// nanoseconds on a clock that never runs backwards.
#[derive(Clone, Copy, Debug, PartialEq, Eq, Hash, Structural)]
pub struct TrayClickState {
    pub last_click: u64,
}

/// What a click found in the shared state.
#[derive(Clone, Copy, Debug, PartialEq, Eq, Hash, Structural)]
pub struct ClickReading {
    /// Whether the click follows the one before it closely enough to make a
    /// double click.
    pub double_click: bool,
    /// The focus of each window at the time of the click.
    pub focus: FocusState,
}

/// Time from `last` to `now`. A `now` that lies before `last` counts as no time
/// at all.
pub open spec fn elapsed_nanos(last: u64, now: u64) -> int {
    if now >= last {
        now - last
    } else {
        0
    }
}

/// Whether a click at `now` makes a double click with one at `last`.
pub open spec fn is_double_click(last: u64, now: u64) -> bool {
    elapsed_nanos(last, now) < DOUBLE_CLICK_WINDOW_NANOS
}

/// For each of the clicks at `times`, in order, whether it is a double click,
/// where the click before the first one was at `last`.
pub open spec fn classify_clicks(last: u64, times: Seq<u64>) -> Seq<bool>
    decreases times.len(),
{
    if times.len() == 0 {
        Seq::empty()
    } else {
        seq![is_double_click(last, times[0])] + classify_clicks(times[0], times.drop_first())
    }
}

impl TrayEvent {
    /// Whether the event is the release of the left button, the one event on
    /// which the tray icon acts.
    pub open spec fn is_left_release(self) -> bool {
        self == (TrayEvent::Click { button: MouseButton::Left, state: MouseButtonState::Up })
    }

    /// Tells whether the tray icon acts on the event: it does so on a release
    /// of the left button and on nothing else.
    pub fn activates(self) -> (acts: bool)
        ensures
            acts == self.is_left_release(),
    {
        match self {
            TrayEvent::Click { button: MouseButton::Left, state: MouseButtonState::Up } => true,
            _ => false,
        }
    }
}

impl TrayClickState {
    /// The state at startup, at time `now`: startup counts as the last click.
    pub fn new(now: u64) -> (state: TrayClickState)
        ensures
            state.last_click == now,
    {
        TrayClickState { last_click: now }
    }

    /// Takes note of a click at time `now` and tells whether it is a double
    /// click. The click becomes the last click whichever it is.
    pub fn register_click(&mut self, now: u64) -> (double_click: bool)
        ensures
            double_click == is_double_click(old(self).last_click, now),
            final(self).last_click == now,
    {
        let elapsed: u64 = if now >= self.last_click {
            now - self.last_click
        } else {
            0
        };
        self.last_click = now;
        elapsed < DOUBLE_CLICK_WINDOW_NANOS
    }

    /// Takes note of the clicks at `times`, in order, and tells of each whether
    /// it is a double click.
    pub fn register_clicks(&mut self, times: &Vec<u64>) -> (double_clicks: Vec<bool>)
        ensures
            double_clicks@ == classify_clicks(old(self).last_click, times@),
            final(self).last_click == if times@.len() == 0 {
                old(self).last_click
            } else {
                times@.last()
            },
    {
        let mut double_clicks: Vec<bool> = Vec::new();
        let mut done: usize = 0;
        assert(times@.skip(0) =~= times@);
        while done < times.len()
            invariant
                done <= times.len(),
                double_clicks@ + classify_clicks(self.last_click, times@.skip(done as int))
                    == classify_clicks(old(self).last_click, times@),
                self.last_click == if done == 0 {
                    old(self).last_click
                } else {
                    times@[done - 1]
                },
            decreases times.len() - done,
        {
            assert(times@.skip(done as int).drop_first() =~= times@.skip(done + 1));
            let double_click = self.register_click(times[done]);
            double_clicks.push(double_click);
            done += 1;
        }
        double_clicks
    }
}

impl ClickReading {
    /// The reading of a click that found the shared state busy: the click is
    /// not taken for a double click and no window counts as focused. The state
    /// itself is left alone, the time of the last click included.
    pub fn skipped() -> (reading: ClickReading)
        ensures
            reading == (ClickReading {
                double_click: false,
                focus: FocusState { gemini: false, poe: false, settings: false },
            }),
            !reading.focus.some_focused(),
    {
        ClickReading { double_click: false, focus: FocusState::new() }
    }
}

/// The action that hides `name` where it is shown, and nothing where it is not.
pub open spec fn hide_if_visible(windows: WindowRegistry, name: WindowName) -> Seq<Action> {
    if windows.visible(name) {
        seq![Action::Hide(name)]
    } else {
        Seq::empty()
    }
}

/// The actions that hide every shown window, in the bring-to-front order.
pub open spec fn hide_visible_plan(windows: WindowRegistry) -> Seq<Action> {
    hide_if_visible(windows, WindowName::Gemini) + hide_if_visible(windows, WindowName::Poe)
        + hide_if_visible(windows, WindowName::Settings)
}

/// What a left click on the tray icon does, given what the click read from the
/// shared state and the state of the windows:
///
/// * with no window shown, the default window is shown and focused;
/// * else, with no window focused or on a double click, every shown window is
///   hidden;
/// * else the first shown window in the bring-to-front order is focused.
pub open spec fn tray_click_plan(reading: ClickReading, windows: WindowRegistry) -> Seq<Action> {
    if !windows.some_visible() {
        seq![Action::Show(WindowName::Gemini), Action::Focus(WindowName::Gemini)]
    } else if !reading.focus.some_focused() || reading.double_click {
        hide_visible_plan(windows)
    } else {
        seq![Action::Focus(windows.front().unwrap())]
    }
}

/// Decides what a left click on the tray icon does. See [`tray_click_plan`].
pub fn handle_tray_click(reading: ClickReading, windows: &WindowRegistry) -> (actions: Vec<Action>)
    ensures
        actions@ == tray_click_plan(reading, *windows),
{
    let mut actions: Vec<Action> = Vec::new();
    match windows.first_visible() {
        None => {
            actions.push(Action::Show(WindowName::Gemini));
            actions.push(Action::Focus(WindowName::Gemini));
        },
        Some(front) => {
            if !reading.focus.any_focused() || reading.double_click {
                if windows.is_visible(WindowName::Gemini) {
                    actions.push(Action::Hide(WindowName::Gemini));
                }
                if windows.is_visible(WindowName::Poe) {
                    actions.push(Action::Hide(WindowName::Poe));
                }
                if windows.is_visible(WindowName::Settings) {
                    actions.push(Action::Hide(WindowName::Settings));
                }
            } else {
                actions.push(Action::Focus(front));
            }
        },
    }
    actions
}

/// The click that precedes the click at `index` of `times`, where the click
/// before the first one was at `last`.
pub open spec fn previous_click(last: u64, times: Seq<u64>, index: int) -> u64 {
    if index == 0 {
        last
    } else {
        times[index - 1]
    }
}

/// Whether a click is a double click depends on the click right before it and
/// on nothing else: not on how that click was classified, nor on any earlier
/// one.
pub proof fn lemma_click_is_judged_by_previous_click(last: u64, times: Seq<u64>, index: int)
    requires
        0 <= index < times.len(),
    ensures
        classify_clicks(last, times).len() == times.len(),
        classify_clicks(last, times)[index] == is_double_click(
            previous_click(last, times, index),
            times[index],
        ),
    decreases times.len(),
{
    lemma_classify_clicks_len(last, times);
    if index > 0 {
        lemma_click_is_judged_by_previous_click(times[0], times.drop_first(), index - 1);
    }
}

/// Every click is classified.
pub proof fn lemma_classify_clicks_len(last: u64, times: Seq<u64>)
    ensures
        classify_clicks(last, times).len() == times.len(),
    decreases times.len(),
{
    if times.len() > 0 {
        lemma_classify_clicks_len(times[0], times.drop_first());
    }
}

/// Two clicks less than the double-click window apart, the first of them at
/// least a window after the click before it, are a single click followed by a
/// double click.
pub proof fn lemma_quick_pair_is_single_then_double(last: u64, first: u64, second: u64)
    requires
        first - last >= DOUBLE_CLICK_WINDOW_NANOS,
        second - first < DOUBLE_CLICK_WINDOW_NANOS,
    ensures
        classify_clicks(last, seq![first, second]) == seq![false, true],
{
    let times = seq![first, second];
    lemma_click_is_judged_by_previous_click(last, times, 0);
    lemma_click_is_judged_by_previous_click(last, times, 1);
    assert(classify_clicks(last, times) =~= seq![false, true]);
}

/// Clicks that each come at least the double-click window after the click
/// before them are all single clicks.
pub proof fn lemma_spaced_clicks_are_single(last: u64, times: Seq<u64>)
    requires
        forall|i: int|
            0 <= i < times.len() ==> times[i] - #[trigger] previous_click(last, times, i)
                >= DOUBLE_CLICK_WINDOW_NANOS,
    ensures
        classify_clicks(last, times).len() == times.len(),
        forall|i: int| 0 <= i < times.len() ==> !(#[trigger] classify_clicks(last, times)[i]),
{
    lemma_classify_clicks_len(last, times);
    assert forall|i: int| 0 <= i < times.len() implies !(#[trigger] classify_clicks(
        last,
        times,
    )[i]) by {
        lemma_click_is_judged_by_previous_click(last, times, i);
    }
}

/// After the plan that hides the shown windows no window is shown, and every
/// window exists exactly if it did before.
pub proof fn lemma_hide_visible_plan_hides_all(windows: WindowRegistry)
    ensures
        !windows.after_all(hide_visible_plan(windows)).some_visible(),
        forall|name: WindowName|
            windows.after_all(hide_visible_plan(windows)).created(name) == windows.created(name),
{
    let gemini = hide_if_visible(windows, WindowName::Gemini);
    let poe = hide_if_visible(windows, WindowName::Poe);
    let settings = hide_if_visible(windows, WindowName::Settings);
    lemma_after_all_concat(windows, gemini + poe, settings);
    lemma_after_all_concat(windows, gemini, poe);
    let first = windows.after_all(gemini);
    let second = first.after_all(poe);
    let third = second.after_all(settings);
    lemma_after_all_one(windows, Action::Hide(WindowName::Gemini));
    lemma_after_all_one(first, Action::Hide(WindowName::Poe));
    lemma_after_all_one(second, Action::Hide(WindowName::Settings));
    assert forall|name: WindowName| third.created(name) == windows.created(name) by {
        match name {
            WindowName::Gemini => {},
            WindowName::Poe => {},
            WindowName::Settings => {},
        }
    }
}

/// A click while no window is shown brings the default window up: where it
/// exists it is shown afterwards, and no other window is touched.
pub proof fn lemma_click_on_bare_desktop_shows_default(
    reading: ClickReading,
    windows: WindowRegistry,
)
    requires
        !windows.some_visible(),
    ensures
        tray_click_plan(reading, windows) == seq![
            Action::Show(WindowName::Gemini),
            Action::Focus(WindowName::Gemini),
        ],
        windows.created(WindowName::Gemini) ==> windows.after_all(
            tray_click_plan(reading, windows),
        ).visible(WindowName::Gemini),
        forall|other: WindowName|
            other != WindowName::Gemini ==> windows.after_all(
                tray_click_plan(reading, windows),
            ).state(other) == windows.state(other),
{
    lemma_after_all_two(
        windows,
        Action::Show(WindowName::Gemini),
        Action::Focus(WindowName::Gemini),
    );
}

/// A double click while a window is shown hides every window, whichever of
/// them holds focus. So does a single click while no window holds focus.
pub proof fn lemma_double_click_hides_all(reading: ClickReading, windows: WindowRegistry)
    requires
        windows.some_visible(),
        reading.double_click || !reading.focus.some_focused(),
    ensures
        tray_click_plan(reading, windows) == hide_visible_plan(windows),
        !windows.after_all(tray_click_plan(reading, windows)).some_visible(),
        forall|name: WindowName|
            windows.after_all(tray_click_plan(reading, windows)).created(name) == windows.created(
                name,
            ),
{
    lemma_hide_visible_plan_hides_all(windows);
}

/// A single click while a window is shown and a window holds focus brings the
/// first shown window to the front and changes no window's state: where that
/// window is in front already, nothing changes at all.
pub proof fn lemma_single_click_changes_no_window(reading: ClickReading, windows: WindowRegistry)
    requires
        windows.some_visible(),
        reading.focus.some_focused(),
        !reading.double_click,
    ensures
        windows.front() matches Some(front) && tray_click_plan(reading, windows) == seq![
            Action::Focus(front),
        ],
        windows.after_all(tray_click_plan(reading, windows)) == windows,
{
    lemma_after_all_one(windows, Action::Focus(windows.front().unwrap()));
}

/// A click on the tray icon never ends the process and never builds a window.
pub proof fn lemma_tray_click_never_exits_or_builds(
    reading: ClickReading,
    windows: WindowRegistry,
    index: int,
)
    requires
        0 <= index < tray_click_plan(reading, windows).len(),
    ensures
        tray_click_plan(reading, windows)[index] != Action::Exit,
        !(tray_click_plan(reading, windows)[index] is Create),
{
}

/// A click that brings the default window up, followed by a double click,
/// leaves every window as it was before the two: what the first click showed
/// the second hides again, whichever window held focus in between.
pub proof fn lemma_click_then_double_click_restores(
    first: ClickReading,
    second: ClickReading,
    windows: WindowRegistry,
)
    requires
        !windows.some_visible(),
        windows.created(WindowName::Gemini),
        second.double_click,
    ensures
        ({
            let shown = windows.after_all(tray_click_plan(first, windows));
            &&& shown.visible(WindowName::Gemini)
            &&& shown.after_all(tray_click_plan(second, shown)) == windows
        }),
{
    let shown = windows.after_all(tray_click_plan(first, windows));
    lemma_click_on_bare_desktop_shows_default(first, windows);
    assert(hide_visible_plan(shown) =~= seq![Action::Hide(WindowName::Gemini)]);
    lemma_after_all_one(shown, Action::Hide(WindowName::Gemini));
}

} // verus!
