//! Configuration data model of the notification surface.

use vstd::prelude::*;

verus! {

/// The notification surface's whole `settings.yml`.
pub struct NotificationSettings {
    pub app: AppSettings,
    pub window: WindowSettings,
    pub title: String,
    pub icons: Icons,
}

impl NotificationSettings {
    pub open spec fn is_default(self) -> bool {
        &&& self.app.is_default()
        &&& self.window.is_default()
        &&& self.title@ == "notification"@
        &&& self.icons.is_default()
    }
}

impl Default for NotificationSettings {
    fn default() -> (r: Self)
        ensures
            r.is_default(),
    {
        NotificationSettings {
            app: AppSettings::default(),
            window: WindowSettings::default(),
            title: "notification".to_owned(),
            icons: Icons::default(),
        }
    }
}

/// Application behaviour switches.
#[derive(Debug, Clone)]
pub struct AppSettings {
    pub id: Option<String>,
    pub text_multithreading: bool,
    pub antialiasing: bool,
    pub try_opengles_first: bool,
}

impl AppSettings {
    pub open spec fn is_default(self) -> bool {
        &&& self.id is Some && self.id->0@ == "notification"@
        &&& !self.text_multithreading
        &&& !self.antialiasing
        &&& self.try_opengles_first
    }
}

impl Default for AppSettings {
    fn default() -> (r: Self)
        ensures
            r.is_default(),
    {
        AppSettings {
            id: Option::Some("notification".to_owned()),
            text_multithreading: false,
            antialiasing: false,
            try_opengles_first: true,
        }
    }
}

/// Window geometry and behaviour; the notification strip is short.
pub struct WindowSettings {
    pub size: (i32, i32),
    pub position: (i32, i32),
    pub min_size: Option<(u32, u32)>,
    pub max_size: Option<(u32, u32)>,
    pub visible: bool,
    pub resizable: bool,
    pub decorations: bool,
    pub transparent: bool,
    pub always_on_top: bool,
    pub icon_path: Option<String>,
}

impl WindowSettings {
    pub open spec fn is_default(self) -> bool {
        &&& self.size.0 == 448 && self.size.1 == 84
        &&& self.position.0 == 0 && self.position.1 == 0
        &&& self.min_size is None
        &&& self.max_size is None
        &&& self.visible
        &&& self.resizable
        &&& self.decorations
        &&& !self.transparent
        &&& !self.always_on_top
        &&& self.icon_path is None
    }
}

impl Default for WindowSettings {
    fn default() -> (r: Self)
        ensures
            r.is_default(),
    {
        WindowSettings {
            size: (448, 84),
            position: (0, 0),
            min_size: Option::None,
            max_size: Option::None,
            visible: true,
            resizable: true,
            decorations: true,
            transparent: false,
            always_on_top: false,
            icon_path: Option::None,
        }
    }
}

#[derive(Debug, Clone)]
pub struct DefaultIconPaths {
    pub default: Option<String>,
}

/// The notification surface's modules.
#[derive(Debug, Clone)]
pub struct Modules {}

/// Icons the notification surface shows.
#[derive(Debug, Clone)]
pub struct Icons {
    pub bell: Option<String>,
}

impl Icons {
    pub open spec fn is_default(self) -> bool {
        self.bell is Some && self.bell->0@
            == "/usr/share/mechanix/shell/notification/assets/bell_icon.png"@
    }
}

impl Default for Icons {
    fn default() -> (r: Self)
        ensures
            r.is_default(),
    {
        Icons {
            bell: Option::Some(
                "/usr/share/mechanix/shell/notification/assets/bell_icon.png".to_owned(),
            ),
        }
    }
}

} // verus!
