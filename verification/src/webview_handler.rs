//! The plugin that prepares every page before its own scripts run.

use vstd::prelude::*;
use vstd::string::*;

verus! {

/// Name under which the plugin registers.
pub const WEBVIEW_HANDLER_NAME: &'static str = "webview-handler";

/// A plugin that hands every new page one fixed initialization script.
#[derive(Clone, Copy, Debug, PartialEq, Eq, Hash, Structural)]
pub struct WebviewHandler;

impl WebviewHandler {
    /// Returns the name under which the plugin registers.
    pub fn name(&self) -> (name: &'static str)
        ensures
            name@ == WEBVIEW_HANDLER_NAME@,
    {
        WEBVIEW_HANDLER_NAME
    }

    /// Returns the script that runs in every page before the page's own:
    /// always the whole of `embedded`, the text that ships with the
    /// application.
    pub fn initialization_script(&self, embedded: &str) -> (script: Option<String>)
        ensures
            script matches Some(text) && text@ == embedded@,
    {
        Some(String::from_str(embedded))
    }
}

} // verus!
