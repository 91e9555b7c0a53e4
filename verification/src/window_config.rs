//! How each window is built on first use.

use vstd::prelude::*;
use crate::window::WindowName;

verus! {

/// Title of the Poe window.
pub const POE_TITLE: &'static str = "Poe";

/// Address that the Poe window loads.
pub const POE_URL: &'static str = "https://poe.com";

/// The desktop browser that the Poe window gives itself out to be.
pub const POE_USER_AGENT: &'static str =
    "Mozilla/5.0 (Macintosh; Intel Mac OS X 10_15_7) AppleWebKit/537.36 (KHTML, like Gecko) Chrome/125.0.0.0 Safari/537.36";

/// Flags for the browser engine of the Poe window. They keep the page from
/// detecting automation and lift the isolation between origins, without which
/// an injected script does not reach the page.
pub const POE_BROWSER_ARGS: &'static str =
    "--disable-blink-features=AutomationControlled --disable-features=IsolateOrigins,site-per-process --disable-site-isolation-trials --disable-web-security --allow-running-insecure-content --disable-blink-features=AutomationControlled";

/// Title of the settings window.
pub const SETTINGS_TITLE: &'static str = "AI Assistant 设置";

/// Bundled page that the settings window loads.
pub const SETTINGS_PAGE: &'static str = "settings.html";

/// What a window loads.
#[derive(Clone, Copy, Debug, PartialEq, Eq)]
pub enum WindowUrl {
    /// A page of a service on the network, by its address.
    External(&'static str),
    /// A page that ships with the application, by its path.
    Bundled(&'static str),
}

/// The configuration from which a window is built.
#[derive(Clone, Copy, Debug, PartialEq, Eq)]
pub struct WindowConfig {
    pub title: &'static str,
    pub url: WindowUrl,
    /// Inner width in logical pixels.
    pub width: u32,
    /// Inner height in logical pixels.
    pub height: u32,
    pub resizable: bool,
    pub fullscreen: bool,
    /// The user agent that the window sends, where it is not the engine's own.
    pub user_agent: Option<&'static str>,
    /// Further flags for the browser engine.
    pub browser_args: Option<&'static str>,
}

impl WindowUrl {
    /// Whether the page comes from the network.
    pub open spec fn is_external(self) -> bool {
        self is External
    }

    /// The address or path of the page.
    pub open spec fn location(self) -> Seq<char> {
        match self {
            WindowUrl::External(address) => address@,
            WindowUrl::Bundled(path) => path@,
        }
    }
}

/// Whether `config` is the configuration of the Poe window.
pub open spec fn is_poe_config(config: WindowConfig) -> bool {
    &&& config.title@ == POE_TITLE@
    &&& config.url.is_external()
    &&& config.url.location() == POE_URL@
    &&& config.width == 1440
    &&& config.height == 1080
    &&& config.resizable
    &&& !config.fullscreen
    &&& config.user_agent matches Some(agent) && agent@ == POE_USER_AGENT@
    &&& config.browser_args matches Some(flags) && flags@ == POE_BROWSER_ARGS@
}

/// Whether `config` is the configuration of the settings window.
pub open spec fn is_settings_config(config: WindowConfig) -> bool {
    &&& config.title@ == SETTINGS_TITLE@
    &&& !config.url.is_external()
    &&& config.url.location() == SETTINGS_PAGE@
    &&& config.width == 800
    &&& config.height == 600
    &&& config.resizable
    &&& !config.fullscreen
    &&& config.user_agent is None
    &&& config.browser_args is None
}

/// Returns the configuration from which the window `name` is built on first
/// use. The default window has none: it is declared with the application and
/// exists from startup. Only a window that loads a page from the network
/// carries a user agent and browser flags.
pub fn window_config(name: WindowName) -> (config: Option<WindowConfig>)
    ensures
        match name {
            WindowName::Gemini => config is None,
            WindowName::Poe => config matches Some(poe) && is_poe_config(poe),
            WindowName::Settings => config matches Some(settings) && is_settings_config(settings),
        },
{
    match name {
        WindowName::Gemini => None,
        WindowName::Poe => Some(
            WindowConfig {
                title: POE_TITLE,
                url: WindowUrl::External(POE_URL),
                width: 1440,
                height: 1080,
                resizable: true,
                fullscreen: false,
                user_agent: Some(POE_USER_AGENT),
                browser_args: Some(POE_BROWSER_ARGS),
            },
        ),
        WindowName::Settings => Some(
            WindowConfig {
                title: SETTINGS_TITLE,
                url: WindowUrl::Bundled(SETTINGS_PAGE),
                width: 800,
                height: 600,
                resizable: true,
                fullscreen: false,
                user_agent: None,
                browser_args: None,
            },
        ),
    }
}

} // verus!
