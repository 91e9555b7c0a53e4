//! Verified control core of a tray-resident desktop shell that hosts two chat
//! web applications in managed windows.
//!
//! The crate holds the decisions of the shell as pure, proved functions: which
//! windows a tray click or a menu selection shows, hides or focuses, how clicks
//! are told apart from double clicks, when a focus change starts an automatic
//! login, and which script that login injects. Talking to the window manager,
//! the file system and the clock is left to the embedding application, which
//! hands plain values in and carries the returned actions out.

pub mod text;

pub mod window;

pub mod service;

pub mod credentials_manager;

pub mod registry;

pub mod focus;

pub mod tray;

pub mod app_state;

pub mod menu;

pub mod auto_login;

pub mod emulation;

pub mod events;

pub mod window_config;

pub mod webview_handler;
