use ai_assistant::events::{handle_close_request, CloseResponse, WindowEvent};
use ai_assistant::registry::{Action, WindowRegistry, WindowState};
use ai_assistant::window::WindowName;

const NAMES: [WindowName; 3] = [WindowName::Gemini, WindowName::Poe, WindowName::Settings];
const STATES: [WindowState; 3] = [WindowState::Uncreated, WindowState::Hidden, WindowState::Visible];

fn every_registry() -> Vec<WindowRegistry> {
    let mut all = Vec::new();
    for gemini in STATES {
        for poe in STATES {
            for settings in STATES {
                all.push(WindowRegistry::observed(gemini, poe, settings));
            }
        }
    }
    all
}

#[test]
fn startup_has_only_gemini() {
    let windows = WindowRegistry::startup();
    assert_eq!(windows.state_of(WindowName::Gemini), WindowState::Visible);
    assert_eq!(windows.state_of(WindowName::Poe), WindowState::Uncreated);
    assert_eq!(windows.state_of(WindowName::Settings), WindowState::Uncreated);
    assert!(windows.is_created(WindowName::Gemini));
    assert!(!windows.is_created(WindowName::Poe));
}

#[test]
fn observation_defaults_to_not_visible() {
    assert_eq!(WindowState::observe(false, None), WindowState::Uncreated);
    assert_eq!(WindowState::observe(false, Some(true)), WindowState::Uncreated);
    assert_eq!(WindowState::observe(false, Some(false)), WindowState::Uncreated);
    assert_eq!(WindowState::observe(true, None), WindowState::Hidden);
    assert_eq!(WindowState::observe(true, Some(false)), WindowState::Hidden);
    assert_eq!(WindowState::observe(true, Some(true)), WindowState::Visible);
}

#[test]
fn is_visible_is_false_for_absent_windows() {
    let windows =
        WindowRegistry::observed(WindowState::Uncreated, WindowState::Hidden, WindowState::Visible);
    assert!(!windows.is_visible(WindowName::Gemini));
    assert!(!windows.is_visible(WindowName::Poe));
    assert!(windows.is_visible(WindowName::Settings));
    assert!(windows.any_visible());
    assert_eq!(windows.first_visible(), Some(WindowName::Settings));
}

#[test]
fn first_visible_follows_the_fixed_order() {
    for windows in every_registry() {
        let expected = NAMES.iter().copied().find(|name| windows.is_visible(*name));
        assert_eq!(windows.first_visible(), expected);
        assert_eq!(windows.any_visible(), expected.is_some());
    }
}

#[test]
fn get_or_create_returns_the_existing_window() {
    let mut windows =
        WindowRegistry::observed(WindowState::Visible, WindowState::Hidden, WindowState::Uncreated);
    let before = windows;
    assert!(windows.get_or_create(WindowName::Poe, true));
    assert_eq!(windows, before);
    assert!(windows.get_or_create(WindowName::Poe, false));
    assert_eq!(windows, before);
}

#[test]
fn get_or_create_builds_a_visible_window() {
    let mut windows = WindowRegistry::startup();
    assert!(windows.get_or_create(WindowName::Poe, true));
    assert_eq!(windows.state_of(WindowName::Poe), WindowState::Visible);
    assert_eq!(windows.state_of(WindowName::Settings), WindowState::Uncreated);
}

#[test]
fn failed_creation_is_an_absence_not_an_error() {
    let mut windows = WindowRegistry::startup();
    let before = windows;
    assert!(!windows.get_or_create(WindowName::Settings, false));
    assert_eq!(windows, before);
    // What follows passes over the absent window.
    windows.show_window(WindowName::Settings);
    windows.focus_window(WindowName::Settings);
    windows.hide_window(WindowName::Settings);
    assert_eq!(windows, before);
}

#[test]
fn show_and_hide_toggle_existing_windows() {
    let mut windows =
        WindowRegistry::observed(WindowState::Hidden, WindowState::Visible, WindowState::Uncreated);
    windows.show_window(WindowName::Gemini);
    assert_eq!(windows.state_of(WindowName::Gemini), WindowState::Visible);
    windows.show_window(WindowName::Gemini);
    assert_eq!(windows.state_of(WindowName::Gemini), WindowState::Visible);
    windows.hide_window(WindowName::Poe);
    assert_eq!(windows.state_of(WindowName::Poe), WindowState::Hidden);
    windows.focus_window(WindowName::Poe);
    assert_eq!(windows.state_of(WindowName::Poe), WindowState::Hidden);
}

#[test]
fn close_request_hides_and_prevents_destruction() {
    assert_eq!(
        handle_close_request(WindowEvent::CloseRequested),
        CloseResponse { hide: true, prevent_close: true }
    );
    for event in [WindowEvent::Focused(true), WindowEvent::Focused(false), WindowEvent::Other] {
        assert_eq!(handle_close_request(event), CloseResponse { hide: false, prevent_close: false });
    }
    let mut windows = WindowRegistry::startup();
    windows.close_requested(WindowName::Gemini);
    assert_eq!(windows.state_of(WindowName::Gemini), WindowState::Hidden);
    assert!(windows.is_created(WindowName::Gemini));
}

#[test]
fn close_request_on_a_hidden_window_is_a_no_op() {
    for windows in every_registry() {
        for name in NAMES {
            let mut once = windows;
            once.close_requested(name);
            if !windows.is_visible(name) {
                assert_eq!(once, windows);
            }
            assert!(!once.is_visible(name));
            assert_eq!(once.is_created(name), windows.is_created(name));
            let mut twice = once;
            twice.close_requested(name);
            assert_eq!(twice, once);
            let mut applied = windows;
            applied.apply(Action::Hide(name));
            assert_eq!(applied, once);
        }
    }
}

#[test]
fn no_action_destroys_a_window() {
    for windows in every_registry() {
        for name in NAMES {
            for action in [
                Action::Exit,
                Action::Create(name),
                Action::Show(name),
                Action::Hide(name),
                Action::Focus(name),
            ] {
                let mut after = windows;
                after.apply(action);
                for other in NAMES {
                    if windows.is_created(other) {
                        assert!(after.is_created(other));
                    }
                    if other != name {
                        assert_eq!(after.state_of(other), windows.state_of(other));
                    }
                }
            }
        }
    }
}

#[test]
fn apply_all_runs_actions_in_order() {
    let mut windows = WindowRegistry::startup();
    windows.apply_all(&vec![
        Action::Show(WindowName::Poe),
        Action::Create(WindowName::Poe),
        Action::Hide(WindowName::Gemini),
        Action::Focus(WindowName::Poe),
        Action::Hide(WindowName::Poe),
        Action::Show(WindowName::Poe),
        Action::Create(WindowName::Settings),
        Action::Hide(WindowName::Settings),
        Action::Create(WindowName::Settings),
        Action::Exit,
    ]);
    assert_eq!(
        windows,
        WindowRegistry::observed(WindowState::Hidden, WindowState::Visible, WindowState::Hidden)
    );
    let before = windows;
    windows.apply_all(&Vec::new());
    assert_eq!(windows, before);
}
