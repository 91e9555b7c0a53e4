//! The life cycle of the managed windows and the actions that drive it.
//!
//! A window is created at most once and is never destroyed: closing it hides
//! it, so that its page keeps its session for the next time it is shown.

use vstd::prelude::*;
use crate::window::WindowName;

verus! {

/// Where a window stands in its life cycle.
#[derive(Clone, Copy, Debug, PartialEq, Eq, Hash, Structural)]
pub enum WindowState {
    /// The window has not been built yet.
    Uncreated,
    /// The window exists and is not shown.
    Hidden,
    /// The window exists and is shown.
    Visible,
}

/// One step that the shell asks of its surroundings.
#[derive(Clone, Copy, Debug, PartialEq, Eq, Hash, Structural)]
pub enum Action {
    /// End the process with [`EXIT_STATUS`].
    Exit,
    /// Build the window from its configuration. A window that cannot be built
    /// stays absent; that is no error.
    Create(WindowName),
    /// Show the window, if it exists.
    Show(WindowName),
    /// Hide the window, if it exists.
    Hide(WindowName),
    /// Give the window input focus, if it exists.
    Focus(WindowName),
}

/// Status with which [`Action::Exit`] ends the process.
pub const EXIT_STATUS: i32 = 0;

/// The state of every managed window.
#[derive(Clone, Copy, Debug, PartialEq, Eq, Hash, Structural)]
pub struct WindowRegistry {
    pub gemini: WindowState,
    pub poe: WindowState,
    pub settings: WindowState,
}

impl WindowState {
    /// What a look at the window manager tells about a window: `present` says
    /// whether the window exists, `shown` what it answered when asked whether
    /// the window is visible, `None` where it gave no answer.
    pub open spec fn seen(present: bool, shown: Option<bool>) -> WindowState {
        if !present {
            WindowState::Uncreated
        } else if shown == Some(true) {
            WindowState::Visible
        } else {
            WindowState::Hidden
        }
    }

    /// Turns a look at the window manager into a state. A window that is absent,
    /// or whose visibility could not be read, does not count as visible.
    pub fn observe(present: bool, shown: Option<bool>) -> (state: WindowState)
        ensures
            state == WindowState::seen(present, shown),
    {
        if !present {
            WindowState::Uncreated
        } else {
            match shown {
                Some(true) => WindowState::Visible,
                _ => WindowState::Hidden,
            }
        }
    }
}

impl WindowRegistry {
    /// The state of the window `name`.
    pub open spec fn state(self, name: WindowName) -> WindowState {
        match name {
            WindowName::Gemini => self.gemini,
            WindowName::Poe => self.poe,
            WindowName::Settings => self.settings,
        }
    }

    /// The registry in which `name` is in `state` and every other window is as
    /// in `self`.
    pub open spec fn with(self, name: WindowName, state: WindowState) -> WindowRegistry {
        match name {
            WindowName::Gemini => WindowRegistry { gemini: state, ..self },
            WindowName::Poe => WindowRegistry { poe: state, ..self },
            WindowName::Settings => WindowRegistry { settings: state, ..self },
        }
    }

    /// Whether the window `name` has been built.
    pub open spec fn created(self, name: WindowName) -> bool {
        self.state(name) != WindowState::Uncreated
    }

    /// Whether the window `name` is shown.
    pub open spec fn visible(self, name: WindowName) -> bool {
        self.state(name) == WindowState::Visible
    }

    /// Whether at least one window is shown.
    pub open spec fn some_visible(self) -> bool {
        exists|name: WindowName| self.visible(name)
    }

    /// The shown window that comes first in the bring-to-front order.
    pub open spec fn front(self) -> Option<WindowName> {
        if self.visible(WindowName::Gemini) {
            Some(WindowName::Gemini)
        } else if self.visible(WindowName::Poe) {
            Some(WindowName::Poe)
        } else if self.visible(WindowName::Settings) {
            Some(WindowName::Settings)
        } else {
            None
        }
    }

    /// The registry after `action` has been carried out. Showing, hiding and
    /// focusing pass over a window that does not exist; building one that
    /// exists leaves it as it is. Focus is no part of the life cycle.
    pub open spec fn after(self, action: Action) -> WindowRegistry {
        match action {
            Action::Exit => self,
            Action::Focus(_) => self,
            Action::Create(name) => if self.created(name) {
                self
            } else {
                self.with(name, WindowState::Visible)
            },
            Action::Show(name) => if self.created(name) {
                self.with(name, WindowState::Visible)
            } else {
                self
            },
            Action::Hide(name) => if self.created(name) {
                self.with(name, WindowState::Hidden)
            } else {
                self
            },
        }
    }

    /// The registry after `actions` have been carried out from first to last.
    pub open spec fn after_all(self, actions: Seq<Action>) -> WindowRegistry
        decreases actions.len(),
    {
        if actions.len() == 0 {
            self
        } else {
            self.after(actions[0]).after_all(actions.drop_first())
        }
    }

    /// The registry at startup: the default window has been built and is shown,
    /// the others wait for their first use.
    pub fn startup() -> (registry: WindowRegistry)
        ensures
            registry.state(WindowName::Gemini) == WindowState::Visible,
            registry.state(WindowName::Poe) == WindowState::Uncreated,
            registry.state(WindowName::Settings) == WindowState::Uncreated,
    {
        WindowRegistry {
            gemini: WindowState::Visible,
            poe: WindowState::Uncreated,
            settings: WindowState::Uncreated,
        }
    }

    /// Builds the registry from the state of each window.
    pub fn observed(gemini: WindowState, poe: WindowState, settings: WindowState) -> (registry:
        WindowRegistry)
        ensures
            registry.state(WindowName::Gemini) == gemini,
            registry.state(WindowName::Poe) == poe,
            registry.state(WindowName::Settings) == settings,
    {
        WindowRegistry { gemini, poe, settings }
    }

    /// Returns the state of the window `name`.
    pub fn state_of(&self, name: WindowName) -> (state: WindowState)
        ensures
            state == self.state(name),
    {
        match name {
            WindowName::Gemini => self.gemini,
            WindowName::Poe => self.poe,
            WindowName::Settings => self.settings,
        }
    }

    /// Tells whether the window `name` has been built.
    pub fn is_created(&self, name: WindowName) -> (created: bool)
        ensures
            created == self.created(name),
    {
        match self.state_of(name) {
            WindowState::Uncreated => false,
            _ => true,
        }
    }

    /// Tells whether the window `name` is shown; a window that does not exist
    /// is not.
    pub fn is_visible(&self, name: WindowName) -> (shown: bool)
        ensures
            shown == self.visible(name),
    {
        match self.state_of(name) {
            WindowState::Visible => true,
            _ => false,
        }
    }

    /// Tells whether at least one window is shown.
    pub fn any_visible(&self) -> (any: bool)
        ensures
            any == self.some_visible(),
            any == self.front().is_some(),
    {
        let any = self.is_visible(WindowName::Gemini) || self.is_visible(WindowName::Poe)
            || self.is_visible(WindowName::Settings);
        proof {
            if self.some_visible() {
                let name = choose|name: WindowName| self.visible(name);
                match name {
                    WindowName::Gemini => {},
                    WindowName::Poe => {},
                    WindowName::Settings => {},
                }
            }
        }
        any
    }

    /// Returns the shown window that comes first in the bring-to-front order:
    /// Gemini before Poe before the settings window.
    pub fn first_visible(&self) -> (first: Option<WindowName>)
        ensures
            first == self.front(),
            first matches Some(name) ==> self.visible(name) && forall|other: WindowName|
                self.visible(other) ==> name.rank() <= other.rank(),
            first is None ==> !self.some_visible(),
    {
        if self.is_visible(WindowName::Gemini) {
            Some(WindowName::Gemini)
        } else if self.is_visible(WindowName::Poe) {
            Some(WindowName::Poe)
        } else if self.is_visible(WindowName::Settings) {
            Some(WindowName::Settings)
        } else {
            assert forall|name: WindowName| !self.visible(name) by {
                match name {
                    WindowName::Gemini => {},
                    WindowName::Poe => {},
                    WindowName::Settings => {},
                }
            }
            None
        }
    }

    fn put(&mut self, name: WindowName, state: WindowState)
        ensures
            *final(self) == old(self).with(name, state),
    {
        match name {
            WindowName::Gemini => {
                self.gemini = state;
            },
            WindowName::Poe => {
                self.poe = state;
            },
            WindowName::Settings => {
                self.settings = state;
            },
        }
    }

    /// Looks the window `name` up and, where it does not exist yet, records the
    /// attempt to build it: `built` says whether the window manager built it.
    /// A new window is shown. Returns whether the window exists afterwards; a
    /// failed attempt leaves the registry as it was.
    pub fn get_or_create(&mut self, name: WindowName, built: bool) -> (present: bool)
        ensures
            present == (old(self).created(name) || built),
            *final(self) == if present {
                old(self).after(Action::Create(name))
            } else {
                *old(self)
            },
    {
        if self.is_created(name) {
            true
        } else if built {
            self.put(name, WindowState::Visible);
            true
        } else {
            false
        }
    }

    /// Shows the window `name`, if it exists.
    pub fn show_window(&mut self, name: WindowName)
        ensures
            *final(self) == old(self).after(Action::Show(name)),
    {
        if self.is_created(name) {
            self.put(name, WindowState::Visible);
        }
    }

    /// Hides the window `name`, if it exists.
    pub fn hide_window(&mut self, name: WindowName)
        ensures
            *final(self) == old(self).after(Action::Hide(name)),
    {
        if self.is_created(name) {
            self.put(name, WindowState::Hidden);
        }
    }

    /// Gives the window `name` input focus. Which window holds focus is the
    /// window manager's to report, so the registry stays as it is.
    pub fn focus_window(&mut self, name: WindowName)
        ensures
            *final(self) == old(self).after(Action::Focus(name)),
            *final(self) == *old(self),
    {
    }

    /// Answers a request to close the window `name`: the window is hidden and
    /// kept.
    pub fn close_requested(&mut self, name: WindowName)
        ensures
            *final(self) == old(self).after(Action::Hide(name)),
            final(self).created(name) == old(self).created(name),
            !final(self).visible(name),
    {
        self.hide_window(name);
    }

    /// Carries `action` out on the registry. Building succeeds.
    pub fn apply(&mut self, action: Action)
        ensures
            *final(self) == old(self).after(action),
    {
        match action {
            Action::Exit => {},
            Action::Create(name) => {
                self.get_or_create(name, true);
            },
            Action::Show(name) => {
                self.show_window(name);
            },
            Action::Hide(name) => {
                self.hide_window(name);
            },
            Action::Focus(name) => {
                self.focus_window(name);
            },
        }
    }

    /// Carries `actions` out on the registry, from first to last.
    pub fn apply_all(&mut self, actions: &Vec<Action>)
        ensures
            *final(self) == old(self).after_all(actions@),
    {
        let mut done: usize = 0;
        assert(actions@.skip(0) =~= actions@);
        while done < actions.len()
            invariant
                done <= actions.len(),
                self.after_all(actions@.skip(done as int)) == old(self).after_all(actions@),
            decreases actions.len() - done,
        {
            assert(actions@.skip(done as int).drop_first() =~= actions@.skip(done + 1));
            self.apply(actions[done]);
            done += 1;
        }
    }
}

impl Action {
    /// The window that the action is about; leaving the application is about
    /// none.
    pub open spec fn target(self) -> Option<WindowName> {
        match self {
            Action::Exit => None,
            Action::Create(name) => Some(name),
            Action::Show(name) => Some(name),
            Action::Hide(name) => Some(name),
            Action::Focus(name) => Some(name),
        }
    }
}

/// A window is shown somewhere exactly if one of the three is shown.
pub proof fn lemma_some_visible_cases(windows: WindowRegistry)
    ensures
        windows.some_visible() == (windows.visible(WindowName::Gemini) || windows.visible(
            WindowName::Poe,
        ) || windows.visible(WindowName::Settings)),
        windows.some_visible() == windows.front().is_some(),
{
    if windows.some_visible() {
        let name = choose|name: WindowName| windows.visible(name);
        match name {
            WindowName::Gemini => {},
            WindowName::Poe => {},
            WindowName::Settings => {},
        }
    }
}

/// Carrying out no action leaves the registry as it is.
pub proof fn lemma_after_all_empty(windows: WindowRegistry)
    ensures
        windows.after_all(Seq::empty()) == windows,
{
}

/// Carrying out one action after another is carrying out the two in a row.
pub proof fn lemma_after_all_concat(
    windows: WindowRegistry,
    first: Seq<Action>,
    second: Seq<Action>,
)
    ensures
        windows.after_all(first + second) == windows.after_all(first).after_all(second),
    decreases first.len(),
{
    if first.len() == 0 {
        assert(first + second =~= second);
    } else {
        assert((first + second).drop_first() =~= first.drop_first() + second);
        lemma_after_all_concat(windows.after(first[0]), first.drop_first(), second);
    }
}

/// A plan of one action does what the action does.
pub proof fn lemma_after_all_one(windows: WindowRegistry, action: Action)
    ensures
        windows.after_all(seq![action]) == windows.after(action),
{
    let plan = seq![action];
    assert(plan.drop_first() =~= Seq::<Action>::empty());
    lemma_after_all_empty(windows.after(plan[0]));
}

/// A plan of two actions does the first, then the second.
pub proof fn lemma_after_all_two(windows: WindowRegistry, first: Action, second: Action)
    ensures
        windows.after_all(seq![first, second]) == windows.after(first).after(second),
{
    assert(seq![first, second] =~= seq![first] + seq![second]);
    lemma_after_all_concat(windows, seq![first], seq![second]);
    lemma_after_all_one(windows, first);
    lemma_after_all_one(windows.after(first), second);
}

/// A plan of three actions does them one after the other.
pub proof fn lemma_after_all_three(
    windows: WindowRegistry,
    first: Action,
    second: Action,
    third: Action,
)
    ensures
        windows.after_all(seq![first, second, third]) == windows.after(first).after(second).after(
            third,
        ),
{
    assert(seq![first, second, third] =~= seq![first] + seq![second, third]);
    lemma_after_all_concat(windows, seq![first], seq![second, third]);
    lemma_after_all_one(windows, first);
    lemma_after_all_two(windows.after(first), second, third);
}

/// An action touches no window but its own.
pub proof fn lemma_action_is_local(windows: WindowRegistry, action: Action, other: WindowName)
    requires
        action.target() != Some(other),
    ensures
        windows.after(action).state(other) == windows.state(other),
{
}

/// A window comes into being through `Create` and through nothing else.
pub proof fn lemma_only_create_builds(windows: WindowRegistry, action: Action, name: WindowName)
    requires
        !windows.created(name),
        windows.after(action).created(name),
    ensures
        action == Action::Create(name),
        windows.after(action).visible(name),
{
}

/// No plan destroys a window: one that exists before exists after, whatever
/// was carried out in between.
pub proof fn lemma_windows_are_never_destroyed(
    windows: WindowRegistry,
    actions: Seq<Action>,
    name: WindowName,
)
    requires
        windows.created(name),
    ensures
        windows.after_all(actions).created(name),
    decreases actions.len(),
{
    if actions.len() > 0 {
        lemma_windows_are_never_destroyed(windows.after(actions[0]), actions.drop_first(), name);
    }
}

/// Closing is hiding, and hiding twice is hiding once. A request to close a
/// window that is not shown changes nothing at all, and no request to close
/// takes a window out of existence.
pub proof fn lemma_close_request_is_idempotent(windows: WindowRegistry, name: WindowName)
    ensures
        windows.after(Action::Hide(name)).after(Action::Hide(name)) == windows.after(
            Action::Hide(name),
        ),
        !windows.visible(name) ==> windows.after(Action::Hide(name)) == windows,
        windows.after(Action::Hide(name)).created(name) == windows.created(name),
        forall|other: WindowName|
            other != name ==> windows.after(Action::Hide(name)).state(other) == windows.state(
                other,
            ),
{
}

} // verus!
