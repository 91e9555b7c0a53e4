use ai_assistant::service::Service;
use ai_assistant::text::same_text;
use ai_assistant::window::WindowName;

#[test]
fn window_labels_round_trip() {
    for (name, label) in [
        (WindowName::Gemini, "gemini"),
        (WindowName::Poe, "poe"),
        (WindowName::Settings, "settings"),
    ] {
        assert_eq!(name.as_str(), label);
        assert_eq!(WindowName::parse(label), Some(name));
    }
    assert_eq!(WindowName::parse("main"), None);
    assert_eq!(WindowName::parse("Gemini"), None);
    assert_eq!(WindowName::parse(""), None);
}

#[test]
fn service_names_round_trip() {
    assert_eq!(Service::Gemini.as_str(), "gemini");
    assert_eq!(Service::Poe.as_str(), "poe");
    assert_eq!(Service::parse("gemini"), Some(Service::Gemini));
    assert_eq!(Service::parse("poe"), Some(Service::Poe));
    assert_eq!(Service::parse("settings"), None);
    assert_eq!(Service::parse("POE"), None);
}

#[test]
fn settings_hosts_no_service() {
    assert_eq!(Service::of_window(WindowName::Gemini), Some(Service::Gemini));
    assert_eq!(Service::of_window(WindowName::Poe), Some(Service::Poe));
    assert_eq!(Service::of_window(WindowName::Settings), None);
}

#[test]
fn text_comparison_is_by_characters() {
    assert!(same_text("", ""));
    assert!(same_text("poe", "poe"));
    assert!(!same_text("poe", "poa"));
    assert!(!same_text("poe", "poe "));
    assert!(!same_text("poe", ""));
    assert!(same_text("设置", "设置"));
    assert!(!same_text("设置", "设罢"));
    assert!(!same_text("é", "e\u{301}"));
}
