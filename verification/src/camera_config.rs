//! Configuration data model of the camera application.

use vstd::prelude::*;

verus! {

/// The camera's whole `settings.yml`.
pub struct MainSettings {
    pub app: AppSettings,
    pub window: WindowSettings,
    pub title: String,
    pub layout: LayoutSettings,
    pub modules: Modules,
    pub fonts: CustomFonts,
}

impl MainSettings {
    pub open spec fn is_default(self) -> bool {
        &&& self.app.is_default()
        &&& self.window.is_default()
        &&& self.title@ == "Camera"@
        &&& self.layout.is_default()
        &&& self.modules.is_default()
        &&& self.fonts.is_default()
    }
}

impl Default for MainSettings {
    fn default() -> (r: Self)
        ensures
            r.is_default(),
    {
        MainSettings {
            app: AppSettings::default(),
            window: WindowSettings::default(),
            title: "Camera".to_owned(),
            layout: LayoutSettings::default(),
            modules: Modules::default(),
            fonts: CustomFonts::default(),
        }
    }
}

/// Application behaviour switches.
#[derive(Debug, Clone)]
pub struct AppSettings {
    pub id: Option<String>,
    pub text_multithreading: bool,
    pub antialiasing: bool,
    pub try_opengles_first: bool,
}

impl AppSettings {
    pub open spec fn is_default(self) -> bool {
        &&& self.id is Some && self.id->0@ == "org.mechanix.camera"@
        &&& !self.text_multithreading
        &&& !self.antialiasing
        &&& self.try_opengles_first
    }
}

impl Default for AppSettings {
    fn default() -> (r: Self)
        ensures
            r.is_default(),
    {
        AppSettings {
            id: Option::Some("org.mechanix.camera".to_owned()),
            text_multithreading: false,
            antialiasing: false,
            try_opengles_first: true,
        }
    }
}

/// Window geometry and behaviour.
pub struct WindowSettings {
    pub size: (i32, i32),
    pub position: (i32, i32),
    pub min_size: Option<(u32, u32)>,
    pub max_size: Option<(u32, u32)>,
    pub visible: bool,
    pub resizable: bool,
    pub decorations: bool,
    pub transparent: bool,
    pub always_on_top: bool,
    pub icon_path: Option<String>,
}

impl WindowSettings {
    pub open spec fn is_default(self) -> bool {
        &&& self.size.0 == 480 && self.size.1 == 440
        &&& self.position.0 == 0 && self.position.1 == 0
        &&& self.min_size is None
        &&& self.max_size is None
        &&& self.visible
        &&& self.resizable
        &&& self.decorations
        &&& !self.transparent
        &&& !self.always_on_top
        &&& self.icon_path is None
    }
}

impl Default for WindowSettings {
    fn default() -> (r: Self)
        ensures
            r.is_default(),
    {
        WindowSettings {
            size: (480, 440),
            position: (0, 0),
            min_size: Option::None,
            max_size: Option::None,
            visible: true,
            resizable: true,
            decorations: true,
            transparent: false,
            always_on_top: false,
            icon_path: Option::None,
        }
    }
}

/// Which items stand left, center and right.
#[derive(Debug, Clone)]
pub struct LayoutSettings {
    pub left: Vec<String>,
    pub center: Vec<String>,
    pub right: Vec<String>,
}

impl LayoutSettings {
    pub open spec fn is_default(self) -> bool {
        self.left@.len() == 0 && self.center@.len() == 0 && self.right@.len() == 0
    }
}

impl Default for LayoutSettings {
    fn default() -> (r: Self)
        ensures
            r.is_default(),
    {
        LayoutSettings { left: Vec::new(), center: Vec::new(), right: Vec::new() }
    }
}

/// An application entry.
#[derive(Debug, Clone)]
pub struct App {
    pub app_id: String,
    pub name: String,
    pub icon: Option<String>,
    pub run_command: Vec<String>,
}

/// Background module.
#[derive(Debug, Clone)]
pub struct BackgroundModule {
    pub icon: BackgroundIconPath,
}

impl BackgroundModule {
    pub open spec fn is_default(self) -> bool {
        self.icon.is_default()
    }
}

impl Default for BackgroundModule {
    fn default() -> (r: Self)
        ensures
            r.is_default(),
    {
        BackgroundModule { icon: BackgroundIconPath::default() }
    }
}

/// Clear module.
#[derive(Debug, Clone)]
pub struct ClearModule {
    pub icon: DefaultIconPaths,
}

#[derive(Debug, Clone)]
pub struct DefaultIconPaths {
    pub default: Option<String>,
}

#[derive(Debug, Clone)]
pub struct BackgroundIconPath {
    pub default: String,
}

impl BackgroundIconPath {
    pub open spec fn is_default(self) -> bool {
        self.default@
            == "/usr/share/mechanix/apps/camera/assets/mecha_background_color.png"@
    }
}

impl Default for BackgroundIconPath {
    fn default() -> (r: Self)
        ensures
            r.is_default(),
    {
        BackgroundIconPath {
            default:
                "/usr/share/mechanix/apps/camera/assets/mecha_background_color.png".to_owned(),
        }
    }
}

/// The camera's modules: the two header icons.
#[derive(Debug, Clone)]
pub struct Modules {
    pub back_icon: String,
    pub settings_icon: String,
}

impl Modules {
    pub open spec fn is_default(self) -> bool {
        self.back_icon@.len() == 0 && self.settings_icon@.len() == 0
    }
}

impl Default for Modules {
    fn default() -> (r: Self)
        ensures
            r.is_default(),
    {
        Modules { back_icon: String::new(), settings_icon: String::new() }
    }
}

/// Extra font files the application loads.
#[derive(Debug, Clone)]
pub struct CustomFonts {
    pub paths: Vec<String>,
}

impl CustomFonts {
    pub open spec fn is_default(self) -> bool {
        self.paths@.len() == 0
    }
}

impl Default for CustomFonts {
    fn default() -> (r: Self)
        ensures
            r.is_default(),
    {
        CustomFonts { paths: Vec::new() }
    }
}

} // verus!
