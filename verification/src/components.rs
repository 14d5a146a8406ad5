//! State types of the shell surfaces.
//!
//! These are the plain data the user-interface components render from: the
//! screens' own state, the greeter's authentication messages, and the small
//! widgets' properties.  The rendering itself — widget trees, layout,
//! theming — lives outside the library.

use vstd::prelude::*;

verus! {

/// A prompt the greeter shows during authentication.
#[derive(Debug, Clone)]
pub enum Prompt {
    Captcha { message: String },
    Password { message: String },
}

/// An answer the greeter submits to the login handler.
#[derive(Debug, Clone)]
pub enum AuthSubmit {
    Username(String),
    Password(String),
    Captcha(String),
    Cancel,
}

/// One running instance of an application, as the app manager tracks it.
#[derive(Debug, Clone)]
pub struct AppInstanceState {
    pub app_id: String,
    pub title: String,
}

/// Name and version of the running operating system.
#[derive(Debug, Clone)]
pub struct OSInfo {
    pub name: String,
    pub version: String,
}

/// The pin entry page: how many digits have been entered so far.
#[derive(Debug, Clone, Copy)]
pub struct Pin {
    pub pin_length: usize,
}

/// The brightness slider's current value.
#[derive(Debug, Clone, Copy)]
pub struct Brightness {
    pub value: u8,
}

/// The drag handle that closes the settings panel.
#[derive(Debug, Clone, Copy)]
pub struct Closer {}

/// The power options page: which button is currently pressed.
#[derive(Debug, Clone, Copy)]
pub struct PowerOptions {
    pub shutdown_pressed: bool,
    pub restart_pressed: bool,
}

/// Construction parameters of the status bar application.
#[derive(Debug, Clone)]
pub struct AppParams {}

/// State of the saved-networks screen: whether the confirmation dialog is
/// open, and for which network.
#[derive(Debug, Clone)]
pub struct NetworkSettingsState {
    pub is_model_open: bool,
    pub mac: String,
}

/// The saved-networks screen.
#[derive(Debug)]
pub struct NetworkSettings {
    pub state: Option<NetworkSettingsState>,
    pub dirty: bool,
}

impl NetworkSettings {
    /// A fresh screen: dialog closed, no network picked, nothing to redraw.
    pub fn new() -> (r: Self)
        ensures
            r.state is Some,
            !r.state->0.is_model_open,
            r.state->0.mac@.len() == 0,
            !r.dirty,
    {
        NetworkSettings {
            dirty: false,
            state: Option::Some(NetworkSettingsState {
                is_model_open: false,
                mac: String::new(),
            }),
        }
    }
}

/// State of the networking screen: enablement, the connected network's
/// name, and whether the detail fold is open.
#[derive(Debug)]
pub struct NetworkScreenState {
    pub status: bool,
    pub name: String,
    pub more_clicked: bool,
}

/// The networking screen.
#[derive(Debug)]
pub struct NetworkingScreen {
    pub state: Option<NetworkScreenState>,
    pub dirty: bool,
}

impl NetworkingScreen {
    /// A fresh screen showing the given enablement and network name.
    pub fn new(status: bool, name: String) -> (r: Self)
        ensures
            r.state is Some,
            r.state->0.status == status,
            r.state->0.name@ == name@,
            !r.state->0.more_clicked,
            !r.dirty,
    {
        NetworkingScreen {
            state: Option::Some(NetworkScreenState {
                status,
                name,
                more_clicked: false,
            }),
            dirty: false,
        }
    }
}

} // verus!
