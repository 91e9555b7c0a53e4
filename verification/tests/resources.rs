use ai_assistant::emulation::{
    resolve_emulation_script, EMULATION_SCRIPT_FALLBACK_PATH, EMULATION_SCRIPT_PATH,
};
use ai_assistant::webview_handler::WebviewHandler;
use ai_assistant::window::WindowName;
use ai_assistant::window_config::{window_config, WindowConfig, WindowUrl};

#[test]
fn emulation_script_prefers_the_working_directory() {
    assert_eq!(resolve_emulation_script(true, false), Ok("browser_emulation.js"));
    assert_eq!(resolve_emulation_script(true, true), Ok("browser_emulation.js"));
    assert_eq!(EMULATION_SCRIPT_PATH, "browser_emulation.js");
}

#[test]
fn emulation_script_falls_back_to_the_project_directory() {
    assert_eq!(resolve_emulation_script(false, true), Ok("src-tauri/browser_emulation.js"));
    assert_eq!(EMULATION_SCRIPT_FALLBACK_PATH, "src-tauri/browser_emulation.js");
}

#[test]
fn missing_emulation_script_names_the_path_tried() {
    assert_eq!(
        resolve_emulation_script(false, false),
        Err("找不到浏览器模拟脚本文件: src-tauri/browser_emulation.js".to_string())
    );
}

#[test]
fn gemini_is_not_built_on_demand() {
    assert_eq!(window_config(WindowName::Gemini), None);
}

#[test]
fn poe_window_configuration() {
    assert_eq!(
        window_config(WindowName::Poe),
        Some(WindowConfig {
            title: "Poe",
            url: WindowUrl::External("https://poe.com"),
            width: 1440,
            height: 1080,
            resizable: true,
            fullscreen: false,
            user_agent: Some(
                "Mozilla/5.0 (Macintosh; Intel Mac OS X 10_15_7) AppleWebKit/537.36 (KHTML, like Gecko) Chrome/125.0.0.0 Safari/537.36"
            ),
            browser_args: Some(
                "--disable-blink-features=AutomationControlled --disable-features=IsolateOrigins,site-per-process --disable-site-isolation-trials --disable-web-security --allow-running-insecure-content --disable-blink-features=AutomationControlled"
            ),
        })
    );
}

#[test]
fn settings_window_configuration() {
    assert_eq!(
        window_config(WindowName::Settings),
        Some(WindowConfig {
            title: "AI Assistant 设置",
            url: WindowUrl::Bundled("settings.html"),
            width: 800,
            height: 600,
            resizable: true,
            fullscreen: false,
            user_agent: None,
            browser_args: None,
        })
    );
}

#[test]
fn webview_handler_name() {
    assert_eq!(WebviewHandler.name(), "webview-handler");
}

#[test]
fn webview_handler_hands_out_the_embedded_script() {
    let script = "window.__ready = true;\n";
    assert_eq!(WebviewHandler.initialization_script(script), Some(script.to_string()));
    assert_eq!(WebviewHandler.initialization_script(""), Some(String::new()));
}
