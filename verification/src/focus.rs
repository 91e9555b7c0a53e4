//! Which windows hold input focus.

use vstd::prelude::*;
use crate::window::WindowName;

verus! {

/// For each window, whether the window manager last reported it as focused.
///
/// On a desktop with one seat at most one window holds focus. The tracker does
/// not enforce that: it records what it is told, and while the window manager
/// switches windows two of them may be marked at once.
#[derive(Clone, Copy, Debug, PartialEq, Eq, Hash, Structural)]
pub struct FocusState {
    pub gemini: bool,
    pub poe: bool,
    pub settings: bool,
}

impl FocusState {
    /// Whether the window `name` is marked as focused.
    pub open spec fn focused(self, name: WindowName) -> bool {
        match name {
            WindowName::Gemini => self.gemini,
            WindowName::Poe => self.poe,
            WindowName::Settings => self.settings,
        }
    }

    /// Whether at least one window is marked as focused.
    pub open spec fn some_focused(self) -> bool {
        exists|name: WindowName| self.focused(name)
    }

    /// The state in which `name` is marked as `focused` says and every other
    /// window is as in `self`.
    pub open spec fn with(self, name: WindowName, focused: bool) -> FocusState {
        match name {
            WindowName::Gemini => FocusState { gemini: focused, ..self },
            WindowName::Poe => FocusState { poe: focused, ..self },
            WindowName::Settings => FocusState { settings: focused, ..self },
        }
    }

    /// The state in which no window is focused.
    pub fn new() -> (state: FocusState)
        ensures
            state == (FocusState { gemini: false, poe: false, settings: false }),
            forall|name: WindowName| !state.focused(name),
            !state.some_focused(),
    {
        let state = FocusState { gemini: false, poe: false, settings: false };
        assert forall|name: WindowName| !state.focused(name) by {
            match name {
                WindowName::Gemini => {},
                WindowName::Poe => {},
                WindowName::Settings => {},
            }
        }
        state
    }

    /// Records that the window `name` gained (`true`) or lost (`false`) focus.
    /// No other window is touched.
    pub fn set_focus(&mut self, name: WindowName, focused: bool)
        ensures
            *final(self) == old(self).with(name, focused),
            final(self).focused(name) == focused,
            forall|other: WindowName| other != name ==> final(self).focused(other) == old(
                self,
            ).focused(other),
    {
        match name {
            WindowName::Gemini => {
                self.gemini = focused;
            },
            WindowName::Poe => {
                self.poe = focused;
            },
            WindowName::Settings => {
                self.settings = focused;
            },
        }
    }

    /// Tells whether the window `name` is marked as focused.
    pub fn get_focus(&self, name: WindowName) -> (focused: bool)
        ensures
            focused == self.focused(name),
    {
        match name {
            WindowName::Gemini => self.gemini,
            WindowName::Poe => self.poe,
            WindowName::Settings => self.settings,
        }
    }

    /// Tells whether at least one window is marked as focused.
    pub fn any_focused(&self) -> (any: bool)
        ensures
            any == self.some_focused(),
    {
        let any = self.gemini || self.poe || self.settings;
        proof {
            if any {
                if self.gemini {
                    assert(self.focused(WindowName::Gemini));
                } else if self.poe {
                    assert(self.focused(WindowName::Poe));
                } else {
                    assert(self.focused(WindowName::Settings));
                }
            }
            if self.some_focused() {
                let name = choose|name: WindowName| self.focused(name);
                match name {
                    WindowName::Gemini => {},
                    WindowName::Poe => {},
                    WindowName::Settings => {},
                }
            }
        }
        any
    }
}

} // verus!
