//! Configuration data model of the application dock.

use vstd::prelude::*;

verus! {

/// The dock's whole `settings.yml`.
pub struct AppDockSettings {
    pub app: AppSettings,
    pub window: WindowSettings,
    pub title: String,
    pub layout: LayoutSettings,
    pub modules: Modules,
}

impl AppDockSettings {
    pub open spec fn is_default(self) -> bool {
        &&& self.app.is_default()
        &&& self.window.is_default()
        &&& self.title@ == "App Dock"@
        &&& self.layout.is_default()
        &&& self.modules.is_default()
    }
}

impl Default for AppDockSettings {
    fn default() -> (r: Self)
        ensures
            r.is_default(),
    {
        AppDockSettings {
            app: AppSettings::default(),
            window: WindowSettings::default(),
            title: "App Dock".to_owned(),
            layout: LayoutSettings::default(),
            modules: Modules::default(),
        }
    }
}

/// Application behaviour switches.
#[derive(Debug, Clone)]
pub struct AppSettings {
    pub id: Option<String>,
    pub text_multithreading: bool,
    pub antialiasing: bool,
    pub try_opengles_first: bool,
}

impl AppSettings {
    pub open spec fn is_default(self) -> bool {
        &&& self.id is Some && self.id->0@ == "app-dock"@
        &&& !self.text_multithreading
        &&& !self.antialiasing
        &&& self.try_opengles_first
    }
}

impl Default for AppSettings {
    fn default() -> (r: Self)
        ensures
            r.is_default(),
    {
        AppSettings {
            id: Option::Some("app-dock".to_owned()),
            text_multithreading: false,
            antialiasing: false,
            try_opengles_first: true,
        }
    }
}

/// Window sizes the dock can take in each of its states.
pub struct WindowSize {
    pub default: (u32, u32),
    pub minimized: (u32, u32),
    pub maximized: (u32, u32),
    pub other: (u32, u32),
}

/// Window geometry and behaviour; the dock sizes itself per state.
pub struct WindowSettings {
    pub size: WindowSize,
    pub position: (i32, i32),
    pub min_size: Option<(u32, u32)>,
    pub max_size: Option<(u32, u32)>,
    pub visible: bool,
    pub resizable: bool,
    pub decorations: bool,
    pub transparent: bool,
    pub always_on_top: bool,
    pub icon_path: Option<String>,
}

impl WindowSettings {
    pub open spec fn is_default(self) -> bool {
        &&& self.size.default.0 == 1024 && self.size.default.1 == 768
        &&& self.size.minimized.0 == 1024 && self.size.minimized.1 == 768
        &&& self.size.maximized.0 == 1024 && self.size.maximized.1 == 768
        &&& self.size.other.0 == 1024 && self.size.other.1 == 768
        &&& self.position.0 == 0 && self.position.1 == 0
        &&& self.min_size is None
        &&& self.max_size is None
        &&& self.visible
        &&& self.resizable
        &&& self.decorations
        &&& !self.transparent
        &&& !self.always_on_top
        &&& self.icon_path is None
    }
}

impl Default for WindowSettings {
    fn default() -> (r: Self)
        ensures
            r.is_default(),
    {
        WindowSettings {
            size: WindowSize {
                default: (1024, 768),
                minimized: (1024, 768),
                maximized: (1024, 768),
                other: (1024, 768),
            },
            position: (0, 0),
            min_size: Option::None,
            max_size: Option::None,
            visible: true,
            resizable: true,
            decorations: true,
            transparent: false,
            always_on_top: false,
            icon_path: Option::None,
        }
    }
}

/// Which items stand left, center and right in the dock.
#[derive(Debug, Clone)]
pub struct LayoutSettings {
    pub left: Vec<String>,
    pub center: Vec<String>,
    pub right: Vec<String>,
}

impl LayoutSettings {
    pub open spec fn is_default(self) -> bool {
        self.left@.len() == 0 && self.center@.len() == 0 && self.right@.len() == 0
    }
}

impl Default for LayoutSettings {
    fn default() -> (r: Self)
        ensures
            r.is_default(),
    {
        LayoutSettings { left: Vec::new(), center: Vec::new(), right: Vec::new() }
    }
}

/// An application pinned to the dock.
#[derive(Debug, Clone)]
pub struct App {
    pub app_id: String,
    pub name: String,
    pub alias: String,
    pub icon: String,
}

/// The home shortcut of the dock.
#[derive(Debug, Clone)]
pub struct Home {
    pub icon: Option<String>,
}

/// The dock's modules: pinned applications and the home shortcut.
#[derive(Debug, Clone)]
pub struct Modules {
    pub pinned_apps: Vec<App>,
    pub home: Home,
}

impl Modules {
    pub open spec fn is_default(self) -> bool {
        self.pinned_apps@.len() == 0 && self.home.icon is None
    }
}

impl Default for Modules {
    fn default() -> (r: Self)
        ensures
            r.is_default(),
    {
        Modules { pinned_apps: Vec::new(), home: Home { icon: Option::None } }
    }
}

} // verus!
