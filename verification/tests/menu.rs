use ai_assistant::menu::{
    handle_menu_command, handle_menu_event, menu_layout, MenuCommand, TRAY_TOOLTIP,
};
use ai_assistant::registry::{Action, WindowRegistry, WindowState};
use ai_assistant::window::WindowName;

fn all_created() -> WindowRegistry {
    WindowRegistry::observed(WindowState::Visible, WindowState::Hidden, WindowState::Hidden)
}

#[test]
fn quit_exits() {
    assert_eq!(handle_menu_event("quit", &WindowRegistry::startup()), vec![Action::Exit]);
    assert_eq!(ai_assistant::registry::EXIT_STATUS, 0);
}

#[test]
fn show_shows_and_focuses_gemini() {
    assert_eq!(
        handle_menu_event("show", &WindowRegistry::startup()),
        vec![Action::Show(WindowName::Gemini), Action::Focus(WindowName::Gemini)]
    );
}

#[test]
fn hide_hides_gemini_and_poe_but_not_settings() {
    let mut windows =
        WindowRegistry::observed(WindowState::Visible, WindowState::Visible, WindowState::Visible);
    let actions = handle_menu_event("hide", &windows);
    assert_eq!(actions, vec![Action::Hide(WindowName::Gemini), Action::Hide(WindowName::Poe)]);
    windows.apply_all(&actions);
    assert_eq!(
        windows,
        WindowRegistry::observed(WindowState::Hidden, WindowState::Hidden, WindowState::Visible)
    );
}

#[test]
fn gemini_hides_poe_then_shows_gemini() {
    let mut windows =
        WindowRegistry::observed(WindowState::Hidden, WindowState::Visible, WindowState::Uncreated);
    let actions = handle_menu_event("gemini", &windows);
    assert_eq!(
        actions,
        vec![
            Action::Hide(WindowName::Poe),
            Action::Show(WindowName::Gemini),
            Action::Focus(WindowName::Gemini)
        ]
    );
    windows.apply_all(&actions);
    assert_eq!(
        windows,
        WindowRegistry::observed(WindowState::Visible, WindowState::Hidden, WindowState::Uncreated)
    );
}

#[test]
fn poe_is_built_on_first_use() {
    let mut windows = WindowRegistry::startup();
    let actions = handle_menu_event("poe", &windows);
    assert_eq!(
        actions,
        vec![
            Action::Hide(WindowName::Gemini),
            Action::Create(WindowName::Poe),
            Action::Focus(WindowName::Poe)
        ]
    );
    windows.apply_all(&actions);
    assert_eq!(
        windows,
        WindowRegistry::observed(WindowState::Hidden, WindowState::Visible, WindowState::Uncreated)
    );
}

#[test]
fn poe_is_shown_again_once_it_exists() {
    let mut windows = all_created();
    let actions = handle_menu_event("poe", &windows);
    assert_eq!(
        actions,
        vec![
            Action::Hide(WindowName::Gemini),
            Action::Show(WindowName::Poe),
            Action::Focus(WindowName::Poe)
        ]
    );
    windows.apply_all(&actions);
    assert_eq!(
        windows,
        WindowRegistry::observed(WindowState::Hidden, WindowState::Visible, WindowState::Hidden)
    );
}

#[test]
fn settings_is_built_on_first_use_and_shown_after() {
    let mut windows = WindowRegistry::startup();
    let actions = handle_menu_event("settings", &windows);
    assert_eq!(
        actions,
        vec![Action::Create(WindowName::Settings), Action::Focus(WindowName::Settings)]
    );
    windows.apply_all(&actions);
    assert_eq!(windows.state_of(WindowName::Settings), WindowState::Visible);
    assert_eq!(windows.state_of(WindowName::Gemini), WindowState::Visible);

    windows.hide_window(WindowName::Settings);
    let actions = handle_menu_event("settings", &windows);
    assert_eq!(
        actions,
        vec![Action::Show(WindowName::Settings), Action::Focus(WindowName::Settings)]
    );
}

#[test]
fn unknown_menu_ids_do_nothing() {
    let windows = WindowRegistry::startup();
    for id in ["", "Quit", "QUIT", "quit ", "exit", "poe2", "设置"] {
        assert_eq!(handle_menu_event(id, &windows), vec![]);
        assert_eq!(MenuCommand::parse(id), None);
    }
}

#[test]
fn commands_and_ids_correspond() {
    let pairs = [
        (MenuCommand::Show, "show", "显示"),
        (MenuCommand::Hide, "hide", "隐藏"),
        (MenuCommand::Gemini, "gemini", "切换到 Gemini"),
        (MenuCommand::Poe, "poe", "切换到 Poe"),
        (MenuCommand::Settings, "settings", "设置"),
        (MenuCommand::Quit, "quit", "退出"),
    ];
    for (command, id, caption) in pairs {
        assert_eq!(command.as_str(), id);
        assert_eq!(command.title(), caption);
        assert_eq!(MenuCommand::parse(id), Some(command));
        let windows = WindowRegistry::startup();
        assert_eq!(handle_menu_event(id, &windows), handle_menu_command(command, &windows));
    }
}

#[test]
fn menu_lists_its_items_from_top_to_bottom() {
    assert_eq!(
        menu_layout(),
        vec![
            MenuCommand::Show,
            MenuCommand::Hide,
            MenuCommand::Gemini,
            MenuCommand::Poe,
            MenuCommand::Settings,
            MenuCommand::Quit
        ]
    );
    assert_eq!(TRAY_TOOLTIP, "AI Assistant");
}

#[test]
fn only_quit_exits() {
    let windows = all_created();
    for command in menu_layout() {
        let exits = handle_menu_command(command, &windows).contains(&Action::Exit);
        assert_eq!(exits, command == MenuCommand::Quit);
    }
}

#[test]
fn menu_does_not_depend_on_click_timing() {
    // Selecting the same item twice in a row does the same thing twice.
    let windows = all_created();
    assert_eq!(handle_menu_event("hide", &windows), handle_menu_event("hide", &windows));
}
