//! The tray menu: its items and what selecting one does.

use vstd::prelude::*;
use crate::registry::{
    lemma_after_all_concat, lemma_after_all_one, lemma_after_all_three, lemma_after_all_two,
    Action, WindowRegistry,
};
use crate::text::same_text;
use crate::window::WindowName;

verus! {

/// Text that the tray icon shows when the pointer rests on it.
pub const TRAY_TOOLTIP: &'static str = "AI Assistant";

/// An item of the tray menu.
#[derive(Clone, Copy, Debug, PartialEq, Eq, Hash, Structural)]
pub enum MenuCommand {
    /// Show the default window.
    Show,
    /// Hide the windows of both services.
    Hide,
    /// Switch to Gemini.
    Gemini,
    /// Switch to Poe.
    Poe,
    /// Open the settings window.
    Settings,
    /// Leave the application.
    Quit,
}

impl MenuCommand {
    /// The identifier under which a selection of the item is reported.
    pub open spec fn id(self) -> Seq<char> {
        match self {
            MenuCommand::Show => "show"@,
            MenuCommand::Hide => "hide"@,
            MenuCommand::Gemini => "gemini"@,
            MenuCommand::Poe => "poe"@,
            MenuCommand::Settings => "settings"@,
            MenuCommand::Quit => "quit"@,
        }
    }

    /// The item that is reported under `id`, if there is one.
    pub open spec fn named(id: Seq<char>) -> Option<MenuCommand> {
        if id == "quit"@ {
            Some(MenuCommand::Quit)
        } else if id == "show"@ {
            Some(MenuCommand::Show)
        } else if id == "hide"@ {
            Some(MenuCommand::Hide)
        } else if id == "gemini"@ {
            Some(MenuCommand::Gemini)
        } else if id == "poe"@ {
            Some(MenuCommand::Poe)
        } else if id == "settings"@ {
            Some(MenuCommand::Settings)
        } else {
            None
        }
    }

    /// The text that the menu shows for the item.
    pub open spec fn caption(self) -> Seq<char> {
        match self {
            MenuCommand::Show => "显示"@,
            MenuCommand::Hide => "隐藏"@,
            MenuCommand::Gemini => "切换到 Gemini"@,
            MenuCommand::Poe => "切换到 Poe"@,
            MenuCommand::Settings => "设置"@,
            MenuCommand::Quit => "退出"@,
        }
    }

    /// Returns the identifier under which a selection of the item is reported.
    pub fn as_str(self) -> (id: &'static str)
        ensures
            id@ == self.id(),
    {
        match self {
            MenuCommand::Show => "show",
            MenuCommand::Hide => "hide",
            MenuCommand::Gemini => "gemini",
            MenuCommand::Poe => "poe",
            MenuCommand::Settings => "settings",
            MenuCommand::Quit => "quit",
        }
    }

    /// Returns the text that the menu shows for the item.
    pub fn title(self) -> (caption: &'static str)
        ensures
            caption@ == self.caption(),
    {
        match self {
            MenuCommand::Show => "显示",
            MenuCommand::Hide => "隐藏",
            MenuCommand::Gemini => "切换到 Gemini",
            MenuCommand::Poe => "切换到 Poe",
            MenuCommand::Settings => "设置",
            MenuCommand::Quit => "退出",
        }
    }

    /// Looks an item up by its identifier. The comparison is exact.
    pub fn parse(id: &str) -> (command: Option<MenuCommand>)
        ensures
            command == MenuCommand::named(id@),
    {
        if same_text(id, "quit") {
            Some(MenuCommand::Quit)
        } else if same_text(id, "show") {
            Some(MenuCommand::Show)
        } else if same_text(id, "hide") {
            Some(MenuCommand::Hide)
        } else if same_text(id, "gemini") {
            Some(MenuCommand::Gemini)
        } else if same_text(id, "poe") {
            Some(MenuCommand::Poe)
        } else if same_text(id, "settings") {
            Some(MenuCommand::Settings)
        } else {
            None
        }
    }
}

/// The items of the tray menu from top to bottom.
pub open spec fn menu_order() -> Seq<MenuCommand> {
    seq![
        MenuCommand::Show,
        MenuCommand::Hide,
        MenuCommand::Gemini,
        MenuCommand::Poe,
        MenuCommand::Settings,
        MenuCommand::Quit,
    ]
}

/// Returns the items of the tray menu from top to bottom.
pub fn menu_layout() -> (items: Vec<MenuCommand>)
    ensures
        items@ == menu_order(),
{
    let mut items: Vec<MenuCommand> = Vec::new();
    items.push(MenuCommand::Show);
    items.push(MenuCommand::Hide);
    items.push(MenuCommand::Gemini);
    items.push(MenuCommand::Poe);
    items.push(MenuCommand::Settings);
    items.push(MenuCommand::Quit);
    items
}

/// The actions that bring the window `name` up, building it on first use.
pub open spec fn open_plan(windows: WindowRegistry, name: WindowName) -> Seq<Action> {
    if windows.created(name) {
        seq![Action::Show(name), Action::Focus(name)]
    } else {
        seq![Action::Create(name), Action::Focus(name)]
    }
}

/// What selecting `command` does, given the state of the windows:
///
/// * `Quit` ends the process;
/// * `Show` shows and focuses the default window;
/// * `Hide` hides the windows of both services;
/// * `Gemini` hides Poe, then shows and focuses Gemini;
/// * `Poe` hides Gemini, then brings Poe up, building it on first use;
/// * `Settings` brings the settings window up, building it on first use.
///
/// A window that is built is shown at once, so no `Show` follows a `Create`.
pub open spec fn menu_plan(command: MenuCommand, windows: WindowRegistry) -> Seq<Action> {
    match command {
        MenuCommand::Quit => seq![Action::Exit],
        MenuCommand::Show => seq![
            Action::Show(WindowName::Gemini),
            Action::Focus(WindowName::Gemini),
        ],
        MenuCommand::Hide => seq![Action::Hide(WindowName::Gemini), Action::Hide(WindowName::Poe)],
        MenuCommand::Gemini => seq![
            Action::Hide(WindowName::Poe),
            Action::Show(WindowName::Gemini),
            Action::Focus(WindowName::Gemini),
        ],
        MenuCommand::Poe => seq![Action::Hide(WindowName::Gemini)] + open_plan(
            windows,
            WindowName::Poe,
        ),
        MenuCommand::Settings => open_plan(windows, WindowName::Settings),
    }
}

/// What the selection reported under `id` does; an identifier that names no
/// item does nothing.
pub open spec fn menu_event_plan(id: Seq<char>, windows: WindowRegistry) -> Seq<Action> {
    match MenuCommand::named(id) {
        Some(command) => menu_plan(command, windows),
        None => Seq::empty(),
    }
}

fn push_open(actions: &mut Vec<Action>, windows: &WindowRegistry, name: WindowName)
    ensures
        final(actions)@ == old(actions)@ + open_plan(*windows, name),
{
    if windows.is_created(name) {
        actions.push(Action::Show(name));
    } else {
        actions.push(Action::Create(name));
    }
    actions.push(Action::Focus(name));
}

/// Decides what selecting `command` does. See [`menu_plan`].
pub fn handle_menu_command(command: MenuCommand, windows: &WindowRegistry) -> (actions: Vec<
    Action,
>)
    ensures
        actions@ == menu_plan(command, *windows),
{
    let mut actions: Vec<Action> = Vec::new();
    match command {
        MenuCommand::Quit => {
            actions.push(Action::Exit);
        },
        MenuCommand::Show => {
            actions.push(Action::Show(WindowName::Gemini));
            actions.push(Action::Focus(WindowName::Gemini));
        },
        MenuCommand::Hide => {
            actions.push(Action::Hide(WindowName::Gemini));
            actions.push(Action::Hide(WindowName::Poe));
        },
        MenuCommand::Gemini => {
            actions.push(Action::Hide(WindowName::Poe));
            actions.push(Action::Show(WindowName::Gemini));
            actions.push(Action::Focus(WindowName::Gemini));
        },
        MenuCommand::Poe => {
            actions.push(Action::Hide(WindowName::Gemini));
            push_open(&mut actions, windows, WindowName::Poe);
        },
        MenuCommand::Settings => {
            push_open(&mut actions, windows, WindowName::Settings);
        },
    }
    actions
}

/// Decides what the menu selection reported under `id` does. An identifier
/// that names no item is passed over: the result is empty.
pub fn handle_menu_event(id: &str, windows: &WindowRegistry) -> (actions: Vec<Action>)
    ensures
        actions@ == menu_event_plan(id@, *windows),
{
    match MenuCommand::parse(id) {
        Some(command) => handle_menu_command(command, windows),
        None => Vec::new(),
    }
}

/// Every item is found again under its own identifier.
pub proof fn lemma_menu_id_round_trip(command: MenuCommand)
    ensures
        MenuCommand::named(command.id()) == Some(command),
{
    reveal_strlit("quit");
    reveal_strlit("show");
    reveal_strlit("hide");
    reveal_strlit("gemini");
    reveal_strlit("poe");
    reveal_strlit("settings");
    assert("quit"@.len() == 4 && "quit"@[0] == 'q');
    assert("show"@.len() == 4 && "show"@[0] == 's');
    assert("hide"@.len() == 4 && "hide"@[0] == 'h');
    assert("gemini"@.len() == 6);
    assert("poe"@.len() == 3);
    assert("settings"@.len() == 8);
}

/// Bringing a window up leaves it shown, builds it where it did not exist,
/// and touches no other window.
pub proof fn lemma_open_plan_shows(windows: WindowRegistry, name: WindowName)
    ensures
        windows.after_all(open_plan(windows, name)).visible(name),
        forall|other: WindowName|
            other != name ==> windows.after_all(open_plan(windows, name)).state(other)
                == windows.state(other),
{
    lemma_after_all_two(windows, Action::Show(name), Action::Focus(name));
    lemma_after_all_two(windows, Action::Create(name), Action::Focus(name));
}

/// After `Show` the default window is shown, where it exists, and the other
/// windows are as before.
pub proof fn lemma_menu_show(windows: WindowRegistry)
    ensures
        windows.created(WindowName::Gemini) ==> windows.after_all(
            menu_plan(MenuCommand::Show, windows),
        ).visible(WindowName::Gemini),
        forall|other: WindowName|
            other != WindowName::Gemini ==> windows.after_all(
                menu_plan(MenuCommand::Show, windows),
            ).state(other) == windows.state(other),
{
    lemma_after_all_two(
        windows,
        Action::Show(WindowName::Gemini),
        Action::Focus(WindowName::Gemini),
    );
}

/// After `Hide` neither service window is shown; the settings window is as
/// before.
pub proof fn lemma_menu_hide(windows: WindowRegistry)
    ensures
        !windows.after_all(menu_plan(MenuCommand::Hide, windows)).visible(WindowName::Gemini),
        !windows.after_all(menu_plan(MenuCommand::Hide, windows)).visible(WindowName::Poe),
        windows.after_all(menu_plan(MenuCommand::Hide, windows)).state(WindowName::Settings)
            == windows.state(WindowName::Settings),
{
    lemma_after_all_two(windows, Action::Hide(WindowName::Gemini), Action::Hide(WindowName::Poe));
}

/// After `Gemini` the Poe window is not shown and the Gemini window, where it
/// exists, is; the settings window is as before.
pub proof fn lemma_menu_gemini(windows: WindowRegistry)
    ensures
        !windows.after_all(menu_plan(MenuCommand::Gemini, windows)).visible(WindowName::Poe),
        windows.created(WindowName::Gemini) ==> windows.after_all(
            menu_plan(MenuCommand::Gemini, windows),
        ).visible(WindowName::Gemini),
        windows.after_all(menu_plan(MenuCommand::Gemini, windows)).state(WindowName::Settings)
            == windows.state(WindowName::Settings),
{
    lemma_after_all_three(
        windows,
        Action::Hide(WindowName::Poe),
        Action::Show(WindowName::Gemini),
        Action::Focus(WindowName::Gemini),
    );
}

/// After `Poe` the Gemini window is not shown and the Poe window is, built
/// where it did not exist; the settings window is as before.
pub proof fn lemma_menu_poe(windows: WindowRegistry)
    ensures
        !windows.after_all(menu_plan(MenuCommand::Poe, windows)).visible(WindowName::Gemini),
        windows.after_all(menu_plan(MenuCommand::Poe, windows)).visible(WindowName::Poe),
        windows.after_all(menu_plan(MenuCommand::Poe, windows)).state(WindowName::Settings)
            == windows.state(WindowName::Settings),
{
    let hidden = windows.after(Action::Hide(WindowName::Gemini));
    lemma_after_all_concat(
        windows,
        seq![Action::Hide(WindowName::Gemini)],
        open_plan(windows, WindowName::Poe),
    );
    lemma_after_all_one(windows, Action::Hide(WindowName::Gemini));
    lemma_open_plan_shows(hidden, WindowName::Poe);
}

/// After `Settings` the settings window is shown, built where it did not
/// exist; the service windows are as before.
pub proof fn lemma_menu_settings(windows: WindowRegistry)
    ensures
        windows.after_all(menu_plan(MenuCommand::Settings, windows)).visible(WindowName::Settings),
        forall|other: WindowName|
            other != WindowName::Settings ==> windows.after_all(
                menu_plan(MenuCommand::Settings, windows),
            ).state(other) == windows.state(other),
{
    lemma_open_plan_shows(windows, WindowName::Settings);
}

/// `Quit` is the one item that ends the process, and it does nothing else.
pub proof fn lemma_only_quit_exits(command: MenuCommand, windows: WindowRegistry, index: int)
    requires
        0 <= index < menu_plan(command, windows).len(),
    ensures
        menu_plan(command, windows)[index] == Action::Exit <==> command == MenuCommand::Quit,
        command == MenuCommand::Quit ==> menu_plan(command, windows) == seq![Action::Exit],
{
}

} // verus!
