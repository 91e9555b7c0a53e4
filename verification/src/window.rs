//! Names of the managed windows.

use vstd::prelude::*;
use crate::text::same_text;

verus! {

/// Identifies one of the windows that the shell manages.
///
/// The variants are listed in the order in which the shell looks for a window
/// to bring to the front.
#[derive(Clone, Copy, Debug, PartialEq, Eq, Hash, Structural)]
pub enum WindowName {
    Gemini,
    Poe,
    Settings,
}

impl WindowName {
    /// The label under which the window manager knows the window.
    pub open spec fn label(self) -> Seq<char> {
        match self {
            WindowName::Gemini => "gemini"@,
            WindowName::Poe => "poe"@,
            WindowName::Settings => "settings"@,
        }
    }

    /// The window that carries `label`, if there is one.
    pub open spec fn named(label: Seq<char>) -> Option<WindowName> {
        if label == "gemini"@ {
            Some(WindowName::Gemini)
        } else if label == "poe"@ {
            Some(WindowName::Poe)
        } else if label == "settings"@ {
            Some(WindowName::Settings)
        } else {
            None
        }
    }

    /// Position of the window in the bring-to-front order; lower comes first.
    pub open spec fn rank(self) -> int {
        match self {
            WindowName::Gemini => 0,
            WindowName::Poe => 1,
            WindowName::Settings => 2,
        }
    }

    /// Returns the label under which the window manager knows the window.
    pub fn as_str(self) -> (label: &'static str)
        ensures
            label@ == self.label(),
    {
        match self {
            WindowName::Gemini => "gemini",
            WindowName::Poe => "poe",
            WindowName::Settings => "settings",
        }
    }

    /// Looks a window up by its label. The comparison is exact: no trimming and
    /// no change of case.
    pub fn parse(label: &str) -> (name: Option<WindowName>)
        ensures
            name == WindowName::named(label@),
    {
        if same_text(label, "gemini") {
            Some(WindowName::Gemini)
        } else if same_text(label, "poe") {
            Some(WindowName::Poe)
        } else if same_text(label, "settings") {
            Some(WindowName::Settings)
        } else {
            None
        }
    }
}

/// Every window is found again under its own label.
pub proof fn lemma_window_label_round_trip(name: WindowName)
    ensures
        WindowName::named(name.label()) == Some(name),
{
    reveal_strlit("gemini");
    reveal_strlit("poe");
    reveal_strlit("settings");
    assert("gemini"@.len() == 6);
    assert("poe"@.len() == 3);
    assert("settings"@.len() == 8);
}

} // verus!
