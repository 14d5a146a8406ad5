//! Configuration data model of the launcher shell.
//!
//! These types mirror the launcher's `settings.yml`: window behaviour,
//! layout, module icons and the pinned application list.  Reading and
//! parsing the file happens outside the library; here each type carries
//! its default value as an exact predicate, so that what a missing
//! configuration falls back to is pinned down.

use vstd::prelude::*;

verus! {

/// Application behaviour switches.
#[derive(Debug, Clone)]
pub struct AppSettings {
    pub id: Option<String>,
    pub text_multithreading: bool,
    pub antialiasing: bool,
    pub try_opengles_first: bool,
}

impl AppSettings {
    pub open spec fn is_default(self) -> bool {
        &&& self.id is Some && self.id->0@ == "Launcher"@
        &&& !self.text_multithreading
        &&& !self.antialiasing
        &&& self.try_opengles_first
    }
}

impl Default for AppSettings {
    fn default() -> (r: Self)
        ensures
            r.is_default(),
    {
        AppSettings {
            id: Option::Some("Launcher".to_owned()),
            text_multithreading: false,
            antialiasing: false,
            try_opengles_first: true,
        }
    }
}

/// Window geometry and behaviour.
pub struct WindowSettings {
    pub size: (i32, i32),
    pub position: (i32, i32),
    pub min_size: Option<(u32, u32)>,
    pub max_size: Option<(u32, u32)>,
    pub visible: bool,
    pub resizable: bool,
    pub decorations: bool,
    pub transparent: bool,
    pub always_on_top: bool,
    pub icon_path: Option<String>,
}

impl WindowSettings {
    pub open spec fn is_default(self) -> bool {
        &&& self.size.0 == 480 && self.size.1 == 440
        &&& self.position.0 == 0 && self.position.1 == 0
        &&& self.min_size is None
        &&& self.max_size is None
        &&& self.visible
        &&& self.resizable
        &&& self.decorations
        &&& !self.transparent
        &&& !self.always_on_top
        &&& self.icon_path is None
    }
}

impl Default for WindowSettings {
    fn default() -> (r: Self)
        ensures
            r.is_default(),
    {
        WindowSettings {
            size: (480, 440),
            position: (0, 0),
            min_size: Option::None,
            max_size: Option::None,
            visible: true,
            resizable: true,
            decorations: true,
            transparent: false,
            always_on_top: false,
            icon_path: Option::None,
        }
    }
}

/// Which items stand left, center and right in the launcher.
#[derive(Debug, Clone)]
pub struct LayoutSettings {
    pub left: Vec<String>,
    pub center: Vec<String>,
    pub right: Vec<String>,
}

impl LayoutSettings {
    pub open spec fn is_default(self) -> bool {
        self.left@.len() == 0 && self.center@.len() == 0 && self.right@.len() == 0
    }
}

impl Default for LayoutSettings {
    fn default() -> (r: Self)
        ensures
            r.is_default(),
    {
        LayoutSettings { left: Vec::new(), center: Vec::new(), right: Vec::new() }
    }
}

/// A pinned application: identifier, display name, icon and the command
/// that launches it.
#[derive(Debug, Clone)]
pub struct App {
    pub app_id: String,
    pub name: String,
    pub icon: Option<String>,
    pub run_command: Vec<String>,
}

/// `a` is a stock entry: this identifier, name and icon, launched through
/// `sh -c` with exactly this command line.
pub open spec fn is_stock_app(
    a: App,
    app_id: Seq<char>,
    name: Seq<char>,
    icon: Seq<char>,
    command: Seq<char>,
) -> bool {
    &&& a.app_id@ == app_id
    &&& a.name@ == name
    &&& a.icon is Some && a.icon->0@ == icon
    &&& a.run_command@.len() == 3
    &&& a.run_command@[0]@ == "sh"@
    &&& a.run_command@[1]@ == "-c"@
    &&& a.run_command@[2]@ == command
}

/// Background module of the launcher.
#[derive(Debug, Clone)]
pub struct BackgroundModule {
    pub icon: BackgroundIconPath,
}

impl BackgroundModule {
    pub open spec fn is_default(self) -> bool {
        self.icon.is_default()
    }
}

impl Default for BackgroundModule {
    fn default() -> (r: Self)
        ensures
            r.is_default(),
    {
        BackgroundModule { icon: BackgroundIconPath::default() }
    }
}

#[derive(Debug, Clone)]
pub struct BackgroundIconPath {
    pub default: String,
}

impl BackgroundIconPath {
    pub open spec fn is_default(self) -> bool {
        self.default@ == "/usr/share/mechanix/shell/launcher/assets/mecha_background_color.png"@
    }
}

impl Default for BackgroundIconPath {
    fn default() -> (r: Self)
        ensures
            r.is_default(),
    {
        BackgroundIconPath {
            default:
                "/usr/share/mechanix/shell/launcher/assets/mecha_background_color.png".to_owned(),
        }
    }
}

/// Auto-rotate module.
#[derive(Debug, Clone)]
pub struct RotationModule {
    pub icon: RotationIconPaths,
    pub title: String,
}

impl RotationModule {
    pub open spec fn is_default(self) -> bool {
        self.icon.is_default() && self.title@ == "Auto Rotate"@
    }
}

impl Default for RotationModule {
    fn default() -> (r: Self)
        ensures
            r.is_default(),
    {
        RotationModule {
            icon: RotationIconPaths::default(),
            title: "Auto Rotate".to_owned(),
        }
    }
}

#[derive(Debug, Clone)]
pub struct RotationIconPaths {
    pub portrait: String,
    pub landscape: String,
}

impl RotationIconPaths {
    pub open spec fn is_default(self) -> bool {
        &&& self.portrait@
            == "/usr/share/mechanix/shell/launcher/assets/rotation_portrait_icon.png"@
        &&& self.landscape@
            == "/usr/share/mechanix/shell/launcher/assets/rotation_landscape_icon.png"@
    }
}

impl Default for RotationIconPaths {
    fn default() -> (r: Self)
        ensures
            r.is_default(),
    {
        RotationIconPaths {
            portrait:
                "/usr/share/mechanix/shell/launcher/assets/rotation_portrait_icon.png".to_owned(),
            landscape:
                "/usr/share/mechanix/shell/launcher/assets/rotation_landscape_icon.png".to_owned(),
        }
    }
}

/// Power menu module.
#[derive(Debug, Clone)]
pub struct PowerModule {
    pub icon: PowerIconPath,
}

impl PowerModule {
    pub open spec fn is_default(self) -> bool {
        self.icon.is_default()
    }
}

impl Default for PowerModule {
    fn default() -> (r: Self)
        ensures
            r.is_default(),
    {
        PowerModule { icon: PowerIconPath::default() }
    }
}

#[derive(Debug, Clone)]
pub struct PowerIconPath {
    pub default: String,
}

impl PowerIconPath {
    pub open spec fn is_default(self) -> bool {
        self.default@ == "/usr/share/mechanix/shell/launcher/assets/power_icon.png"@
    }
}

impl Default for PowerIconPath {
    fn default() -> (r: Self)
        ensures
            r.is_default(),
    {
        PowerIconPath {
            default: "/usr/share/mechanix/shell/launcher/assets/power_icon.png".to_owned(),
        }
    }
}

/// Lock module; a long press of at least `min_time_long_press` seconds
/// locks the device.
#[derive(Debug, Clone)]
pub struct LockModule {
    pub icon: LockIconPath,
    pub min_time_long_press: u8,
}

impl LockModule {
    pub open spec fn is_default(self) -> bool {
        self.icon.is_default() && self.min_time_long_press == 1
    }
}

impl Default for LockModule {
    fn default() -> (r: Self)
        ensures
            r.is_default(),
    {
        LockModule { icon: LockIconPath::default(), min_time_long_press: 1 }
    }
}

#[derive(Debug, Clone)]
pub struct LockIconPath {
    pub default: String,
}

impl LockIconPath {
    pub open spec fn is_default(self) -> bool {
        self.default@ == "/usr/share/mechanix/shell/launcher/assets/lock_icon.png"@
    }
}

impl Default for LockIconPath {
    fn default() -> (r: Self)
        ensures
            r.is_default(),
    {
        LockIconPath {
            default: "/usr/share/mechanix/shell/launcher/assets/lock_icon.png".to_owned(),
        }
    }
}

/// Settings shortcut module.
#[derive(Debug, Clone)]
pub struct SettingsModule {
    pub icon: SettingsIconPath,
}

impl SettingsModule {
    pub open spec fn is_default(self) -> bool {
        self.icon.is_default()
    }
}

impl Default for SettingsModule {
    fn default() -> (r: Self)
        ensures
            r.is_default(),
    {
        SettingsModule { icon: SettingsIconPath::default() }
    }
}

#[derive(Debug, Clone)]
pub struct SettingsIconPath {
    pub default: String,
}

impl SettingsIconPath {
    pub open spec fn is_default(self) -> bool {
        self.default@ == "/usr/share/mechanix/shell/launcher/assets/settings_icon.png"@
    }
}

impl Default for SettingsIconPath {
    fn default() -> (r: Self)
        ensures
            r.is_default(),
    {
        SettingsIconPath {
            default: "/usr/share/mechanix/shell/launcher/assets/settings_icon.png".to_owned(),
        }
    }
}

/// Running-apps module: application identifiers that never show in the
/// running list.
#[derive(Debug, Clone)]
pub struct RunningAppsModule {
    pub exclude: Vec<String>,
}

impl RunningAppsModule {
    pub open spec fn is_default(self) -> bool {
        self.exclude@.len() == 1 && self.exclude@[0]@ == "mechanix.shell.launcher"@
    }
}

impl Default for RunningAppsModule {
    fn default() -> (r: Self)
        ensures
            r.is_default(),
    {
        let mut exclude: Vec<String> = Vec::new();
        exclude.push("mechanix.shell.launcher".to_owned());
        RunningAppsModule { exclude }
    }
}

/// Search module.
#[derive(Debug, Clone)]
pub struct SearchModule {
    pub icon: SearchIconPath,
}

impl SearchModule {
    pub open spec fn is_default(self) -> bool {
        self.icon.is_default()
    }
}

impl Default for SearchModule {
    fn default() -> (r: Self)
        ensures
            r.is_default(),
    {
        SearchModule { icon: SearchIconPath::default() }
    }
}

#[derive(Debug, Clone)]
pub struct SearchIconPath {
    pub default: String,
}

impl SearchIconPath {
    pub open spec fn is_default(self) -> bool {
        self.default@ == "/usr/share/mechanix/shell/launcher/assets/search_icon.png"@
    }
}

impl Default for SearchIconPath {
    fn default() -> (r: Self)
        ensures
            r.is_default(),
    {
        SearchIconPath {
            default: "/usr/share/mechanix/shell/launcher/assets/search_icon.png".to_owned(),
        }
    }
}

/// Launch module.
#[derive(Debug, Clone)]
pub struct LaunchModule {
    pub icon: LaunchIconPath,
}

impl LaunchModule {
    pub open spec fn is_default(self) -> bool {
        self.icon.is_default()
    }
}

impl Default for LaunchModule {
    fn default() -> (r: Self)
        ensures
            r.is_default(),
    {
        LaunchModule { icon: LaunchIconPath::default() }
    }
}

#[derive(Debug, Clone)]
pub struct LaunchIconPath {
    pub default: String,
}

impl LaunchIconPath {
    pub open spec fn is_default(self) -> bool {
        self.default@ == "/usr/share/mechanix/shell/launcher/assets/launch_icon.png"@
    }
}

impl Default for LaunchIconPath {
    fn default() -> (r: Self)
        ensures
            r.is_default(),
    {
        LaunchIconPath {
            default: "/usr/share/mechanix/shell/launcher/assets/launch_icon.png".to_owned(),
        }
    }
}

/// Delete module.
#[derive(Debug, Clone)]
pub struct DeleteModule {
    pub icon: DeleteIconPath,
}

impl DeleteModule {
    pub open spec fn is_default(self) -> bool {
        self.icon.is_default()
    }
}

impl Default for DeleteModule {
    fn default() -> (r: Self)
        ensures
            r.is_default(),
    {
        DeleteModule { icon: DeleteIconPath::default() }
    }
}

#[derive(Debug, Clone)]
pub struct DeleteIconPath {
    pub default: String,
}

impl DeleteIconPath {
    pub open spec fn is_default(self) -> bool {
        self.default@ == "/usr/share/mechanix/shell/launcher/assets/delete_icon.png"@
    }
}

impl Default for DeleteIconPath {
    fn default() -> (r: Self)
        ensures
            r.is_default(),
    {
        DeleteIconPath {
            default: "/usr/share/mechanix/shell/launcher/assets/delete_icon.png".to_owned(),
        }
    }
}

/// Close module.
#[derive(Debug, Clone)]
pub struct CloseModule {
    pub icon: CloseIconPath,
}

impl CloseModule {
    pub open spec fn is_default(self) -> bool {
        self.icon.is_default()
    }
}

impl Default for CloseModule {
    fn default() -> (r: Self)
        ensures
            r.is_default(),
    {
        CloseModule { icon: CloseIconPath::default() }
    }
}

#[derive(Debug, Clone)]
pub struct CloseIconPath {
    pub default: String,
}

impl CloseIconPath {
    pub open spec fn is_default(self) -> bool {
        self.default@ == "/usr/share/mechanix/shell/launcher/assets/close_icon.png"@
    }
}

impl Default for CloseIconPath {
    fn default() -> (r: Self)
        ensures
            r.is_default(),
    {
        CloseIconPath {
            default: "/usr/share/mechanix/shell/launcher/assets/close_icon.png".to_owned(),
        }
    }
}

/// Terminal module: the icon and the command that opens the terminal.
#[derive(Debug, Clone)]
pub struct TerminalModule {
    pub icon: CloseIconPath,
    pub run_command: Vec<String>,
}

impl TerminalModule {
    pub open spec fn is_default(self) -> bool {
        &&& self.icon.is_default()
        &&& self.run_command@.len() == 3
        &&& self.run_command@[0]@ == "sh"@
        &&& self.run_command@[1]@ == "-c"@
        &&& self.run_command@[2]@ == "alacritty --working-directory=/home/mecha"@
    }
}

impl Default for TerminalModule {
    fn default() -> (r: Self)
        ensures
            r.is_default(),
    {
        let mut run_command: Vec<String> = Vec::new();
        run_command.push("sh".to_owned());
        run_command.push("-c".to_owned());
        run_command.push("alacritty --working-directory=/home/mecha".to_owned());
        TerminalModule { icon: CloseIconPath::default(), run_command }
    }
}

#[derive(Debug, Clone)]
pub struct TerminalIconPath {
    pub default: String,
}

impl TerminalIconPath {
    pub open spec fn is_default(self) -> bool {
        self.default@ == "/usr/share/mechanix/shell/launcher/assets/terminal_icon.png"@
    }
}

impl Default for TerminalIconPath {
    fn default() -> (r: Self)
        ensures
            r.is_default(),
    {
        TerminalIconPath {
            default: "/usr/share/mechanix/shell/launcher/assets/terminal_icon.png".to_owned(),
        }
    }
}

/// Clear module.
#[derive(Debug, Clone)]
pub struct ClearModule {
    pub icon: DefaultIconPaths,
}

#[derive(Debug, Clone)]
pub struct DefaultIconPaths {
    pub default: Option<String>,
}

/// Power options page: shutdown and restart.
#[derive(Debug, Clone)]
pub struct PowerOptionsModule {
    pub shutdown: Shutdown,
    pub restart: Restart,
}

impl PowerOptionsModule {
    pub open spec fn is_default(self) -> bool {
        self.shutdown.is_default() && self.restart.is_default()
    }
}

impl Default for PowerOptionsModule {
    fn default() -> (r: Self)
        ensures
            r.is_default(),
    {
        PowerOptionsModule { shutdown: Shutdown::default(), restart: Restart::default() }
    }
}

#[derive(Debug, Clone)]
pub struct Shutdown {
    pub icon: String,
}

impl Shutdown {
    pub open spec fn is_default(self) -> bool {
        self.icon@ == "/usr/share/mechanix/shell/launcher/assets/shutdown_icon.png"@
    }
}

impl Default for Shutdown {
    fn default() -> (r: Self)
        ensures
            r.is_default(),
    {
        Shutdown {
            icon: "/usr/share/mechanix/shell/launcher/assets/shutdown_icon.png".to_owned(),
        }
    }
}

#[derive(Debug, Clone)]
pub struct Restart {
    pub icon: String,
}

impl Restart {
    pub open spec fn is_default(self) -> bool {
        self.icon@ == "/usr/share/mechanix/shell/launcher/assets/restart_icon.png"@
    }
}

impl Default for Restart {
    fn default() -> (r: Self)
        ensures
            r.is_default(),
    {
        Restart {
            icon: "/usr/share/mechanix/shell/launcher/assets/restart_icon.png".to_owned(),
        }
    }
}

/// Clock module: the time format shown.
#[derive(Debug, Clone)]
pub struct Clock {
    pub format: String,
}

/// Bluetooth status module.
#[derive(Debug, Clone)]
pub struct Bluetooth {
    pub icon: BluetoothIcons,
}

impl Bluetooth {
    pub open spec fn is_default(self) -> bool {
        self.icon.is_default()
    }
}

impl Default for Bluetooth {
    fn default() -> (r: Self)
        ensures
            r.is_default(),
    {
        Bluetooth { icon: BluetoothIcons::default() }
    }
}

/// Wireless status module.
#[derive(Debug, Clone)]
pub struct Wireless {
    pub icon: WirelessIcons,
}

impl Wireless {
    pub open spec fn is_default(self) -> bool {
        self.icon.is_default()
    }
}

impl Default for Wireless {
    fn default() -> (r: Self)
        ensures
            r.is_default(),
    {
        Wireless { icon: WirelessIcons::default() }
    }
}

/// Battery status module.
#[derive(Debug, Clone)]
pub struct Battery {
    pub icon: BatteryIconPaths,
    pub charging_icon: ChargingBatteryIconPaths,
}

impl Battery {
    pub open spec fn is_default(self) -> bool {
        self.icon.is_default() && self.charging_icon.is_default()
    }
}

impl Default for Battery {
    fn default() -> (r: Self)
        ensures
            r.is_default(),
    {
        Battery {
            icon: BatteryIconPaths::default(),
            charging_icon: ChargingBatteryIconPaths::default(),
        }
    }
}

/// Bluetooth icons in the two sizes the shell uses.
#[derive(Debug, Clone)]
pub struct BluetoothIcons {
    pub sm: SmBluetoothIconPaths,
    pub lg: LgBluetoothIconPaths,
}

impl BluetoothIcons {
    pub open spec fn is_default(self) -> bool {
        self.sm.is_default() && self.lg.is_default()
    }
}

impl Default for BluetoothIcons {
    fn default() -> (r: Self)
        ensures
            r.is_default(),
    {
        BluetoothIcons {
            sm: SmBluetoothIconPaths::default(),
            lg: LgBluetoothIconPaths::default(),
        }
    }
}

#[derive(Debug, Clone)]
pub struct SmBluetoothIconPaths {
    pub on: String,
    pub off: String,
    pub connected: String,
    pub not_found: String,
}

impl SmBluetoothIconPaths {
    pub open spec fn is_default(self) -> bool {
        &&& self.off@
            == "/usr/share/mechanix/shell/launcher/assets/bluetooth/sm/bluetooth_off_icon.png"@
        &&& self.on@
            == "/usr/share/mechanix/shell/launcher/assets/bluetooth/sm/bluetooth_on_icon.png"@
        &&& self.connected@
            == "/usr/share/mechanix/shell/launcher/assets/bluetooth/sm/bluetooth_connected_icon.png"@
        &&& self.not_found@
            == "/usr/share/mechanix/shell/launcher/assets/bluetooth/sm/bluetooth_not_found_icon.png"@
    }
}

impl Default for SmBluetoothIconPaths {
    fn default() -> (r: Self)
        ensures
            r.is_default(),
    {
        SmBluetoothIconPaths {
            off:
                "/usr/share/mechanix/shell/launcher/assets/bluetooth/sm/bluetooth_off_icon.png".to_owned(),
            on:
                "/usr/share/mechanix/shell/launcher/assets/bluetooth/sm/bluetooth_on_icon.png".to_owned(),
            connected:
                "/usr/share/mechanix/shell/launcher/assets/bluetooth/sm/bluetooth_connected_icon.png".to_owned(),
            not_found:
                "/usr/share/mechanix/shell/launcher/assets/bluetooth/sm/bluetooth_not_found_icon.png".to_owned(),
        }
    }
}

#[derive(Debug, Clone)]
pub struct LgBluetoothIconPaths {
    pub on: String,
    pub off: String,
    pub connected: String,
    pub not_found: String,
}

impl LgBluetoothIconPaths {
    pub open spec fn is_default(self) -> bool {
        &&& self.off@
            == "/usr/share/mechanix/shell/launcher/assets/bluetooth/lg/bluetooth_off_icon.png"@
        &&& self.on@
            == "/usr/share/mechanix/shell/launcher/assets/bluetooth/lg/bluetooth_on_icon.png"@
        &&& self.connected@
            == "/usr/share/mechanix/shell/launcher/assets/bluetooth/lg/bluetooth_connected_icon.png"@
        &&& self.not_found@
            == "/usr/share/mechanix/shell/launcher/assets/bluetooth/lg/bluetooth_not_found_icon.png"@
    }
}

impl Default for LgBluetoothIconPaths {
    fn default() -> (r: Self)
        ensures
            r.is_default(),
    {
        LgBluetoothIconPaths {
            off:
                "/usr/share/mechanix/shell/launcher/assets/bluetooth/lg/bluetooth_off_icon.png".to_owned(),
            on:
                "/usr/share/mechanix/shell/launcher/assets/bluetooth/lg/bluetooth_on_icon.png".to_owned(),
            connected:
                "/usr/share/mechanix/shell/launcher/assets/bluetooth/lg/bluetooth_connected_icon.png".to_owned(),
            not_found:
                "/usr/share/mechanix/shell/launcher/assets/bluetooth/lg/bluetooth_not_found_icon.png".to_owned(),
        }
    }
}

/// Wireless icons in the two sizes the shell uses.
#[derive(Debug, Clone)]
pub struct WirelessIcons {
    pub sm: SmWirelessIconPaths,
    pub lg: LgWirelessIconPaths,
}

impl WirelessIcons {
    pub open spec fn is_default(self) -> bool {
        self.sm.is_default() && self.lg.is_default()
    }
}

impl Default for WirelessIcons {
    fn default() -> (r: Self)
        ensures
            r.is_default(),
    {
        WirelessIcons {
            sm: SmWirelessIconPaths::default(),
            lg: LgWirelessIconPaths::default(),
        }
    }
}

#[derive(Debug, Clone)]
pub struct SmWirelessIconPaths {
    pub off: String,
    pub on: String,
    pub low: String,
    pub weak: String,
    pub good: String,
    pub strong: String,
    pub not_found: String,
}

impl SmWirelessIconPaths {
    pub open spec fn is_default(self) -> bool {
        &&& self.off@
            == "/usr/share/mechanix/shell/launcher/assets/wireless/sm/wireless_off_icon.png"@
        &&& self.on@
            == "/usr/share/mechanix/shell/launcher/assets/wireless/sm/wireless_on_icon.png"@
        &&& self.low@
            == "/usr/share/mechanix/shell/launcher/assets/wireless/sm/wireless_low_icon.png"@
        &&& self.weak@
            == "/usr/share/mechanix/shell/launcher/assets/wireless/sm/wireless_weak_icon.png"@
        &&& self.good@
            == "/usr/share/mechanix/shell/launcher/assets/wireless/sm/wireless_good_icon.png"@
        &&& self.strong@
            == "/usr/share/mechanix/shell/launcher/assets/wireless/sm/wireless_strong_icon.png"@
        &&& self.not_found@
            == "/usr/share/mechanix/shell/launcher/assets/wireless/sm/wireless_not_found_icon.png"@
    }
}

impl Default for SmWirelessIconPaths {
    fn default() -> (r: Self)
        ensures
            r.is_default(),
    {
        SmWirelessIconPaths {
            off:
                "/usr/share/mechanix/shell/launcher/assets/wireless/sm/wireless_off_icon.png".to_owned(),
            on:
                "/usr/share/mechanix/shell/launcher/assets/wireless/sm/wireless_on_icon.png".to_owned(),
            low:
                "/usr/share/mechanix/shell/launcher/assets/wireless/sm/wireless_low_icon.png".to_owned(),
            weak:
                "/usr/share/mechanix/shell/launcher/assets/wireless/sm/wireless_weak_icon.png".to_owned(),
            good:
                "/usr/share/mechanix/shell/launcher/assets/wireless/sm/wireless_good_icon.png".to_owned(),
            strong:
                "/usr/share/mechanix/shell/launcher/assets/wireless/sm/wireless_strong_icon.png".to_owned(),
            not_found:
                "/usr/share/mechanix/shell/launcher/assets/wireless/sm/wireless_not_found_icon.png".to_owned(),
        }
    }
}

#[derive(Debug, Clone)]
pub struct LgWirelessIconPaths {
    pub off: String,
    pub on: String,
    pub low: String,
    pub weak: String,
    pub good: String,
    pub strong: String,
    pub not_found: String,
}

impl LgWirelessIconPaths {
    pub open spec fn is_default(self) -> bool {
        &&& self.off@
            == "/usr/share/mechanix/shell/launcher/assets/wireless/lg/wireless_off_icon.png"@
        &&& self.on@
            == "/usr/share/mechanix/shell/launcher/assets/wireless/lg/wireless_on_icon.png"@
        &&& self.low@
            == "/usr/share/mechanix/shell/launcher/assets/wireless/lg/wireless_low_icon.png"@
        &&& self.weak@
            == "/usr/share/mechanix/shell/launcher/assets/wireless/lg/wireless_weak_icon.png"@
        &&& self.good@
            == "/usr/share/mechanix/shell/launcher/assets/wireless/lg/wireless_good_icon.png"@
        &&& self.strong@
            == "/usr/share/mechanix/shell/launcher/assets/wireless/lg/wireless_strong_icon.png"@
        &&& self.not_found@
            == "/usr/share/mechanix/shell/launcher/assets/wireless/lg/wireless_not_found_icon.png"@
    }
}

impl Default for LgWirelessIconPaths {
    fn default() -> (r: Self)
        ensures
            r.is_default(),
    {
        LgWirelessIconPaths {
            off:
                "/usr/share/mechanix/shell/launcher/assets/wireless/lg/wireless_off_icon.png".to_owned(),
            on:
                "/usr/share/mechanix/shell/launcher/assets/wireless/lg/wireless_on_icon.png".to_owned(),
            low:
                "/usr/share/mechanix/shell/launcher/assets/wireless/lg/wireless_low_icon.png".to_owned(),
            weak:
                "/usr/share/mechanix/shell/launcher/assets/wireless/lg/wireless_weak_icon.png".to_owned(),
            good:
                "/usr/share/mechanix/shell/launcher/assets/wireless/lg/wireless_good_icon.png".to_owned(),
            strong:
                "/usr/share/mechanix/shell/launcher/assets/wireless/lg/wireless_strong_icon.png".to_owned(),
            not_found:
                "/usr/share/mechanix/shell/launcher/assets/wireless/lg/wireless_not_found_icon.png".to_owned(),
        }
    }
}

#[derive(Debug, Clone)]
pub struct BatteryIconPaths {
    pub level_100: String,
    pub level_90: String,
    pub level_80: String,
    pub level_70: String,
    pub level_60: String,
    pub level_50: String,
    pub level_40: String,
    pub level_30: String,
    pub level_20: String,
    pub level_10: String,
    pub level_0: String,
    pub not_found: String,
}

impl BatteryIconPaths {
    pub open spec fn is_default(self) -> bool {
        &&& self.level_100@
            == "/usr/share/mechanix/shell/launcher/assets/battery/battery_100_icon.png"@
        &&& self.level_90@
            == "/usr/share/mechanix/shell/launcher/assets/battery/battery_90_icon.png"@
        &&& self.level_80@
            == "/usr/share/mechanix/shell/launcher/assets/battery/battery_80_icon.png"@
        &&& self.level_70@
            == "/usr/share/mechanix/shell/launcher/assets/battery/battery_70_icon.png"@
        &&& self.level_60@
            == "/usr/share/mechanix/shell/launcher/assets/battery/battery_60_icon.png"@
        &&& self.level_50@
            == "/usr/share/mechanix/shell/launcher/assets/battery/battery_50_icon.png"@
        &&& self.level_40@
            == "/usr/share/mechanix/shell/launcher/assets/battery/battery_40_icon.png"@
        &&& self.level_30@
            == "/usr/share/mechanix/shell/launcher/assets/battery/battery_30_icon.png"@
        &&& self.level_20@
            == "/usr/share/mechanix/shell/launcher/assets/battery/battery_20_icon.png"@
        &&& self.level_10@
            == "/usr/share/mechanix/shell/launcher/assets/battery/battery_10_icon.png"@
        &&& self.level_0@
            == "/usr/share/mechanix/shell/launcher/assets/battery/battery_0_icon.png"@
        &&& self.not_found@
            == "/usr/share/mechanix/shell/launcher/assets/battery/battery_not_found_icon.png"@
    }
}

impl Default for BatteryIconPaths {
    fn default() -> (r: Self)
        ensures
            r.is_default(),
    {
        BatteryIconPaths {
            level_100:
                "/usr/share/mechanix/shell/launcher/assets/battery/battery_100_icon.png".to_owned(),
            level_90:
                "/usr/share/mechanix/shell/launcher/assets/battery/battery_90_icon.png".to_owned(),
            level_80:
                "/usr/share/mechanix/shell/launcher/assets/battery/battery_80_icon.png".to_owned(),
            level_70:
                "/usr/share/mechanix/shell/launcher/assets/battery/battery_70_icon.png".to_owned(),
            level_60:
                "/usr/share/mechanix/shell/launcher/assets/battery/battery_60_icon.png".to_owned(),
            level_50:
                "/usr/share/mechanix/shell/launcher/assets/battery/battery_50_icon.png".to_owned(),
            level_40:
                "/usr/share/mechanix/shell/launcher/assets/battery/battery_40_icon.png".to_owned(),
            level_30:
                "/usr/share/mechanix/shell/launcher/assets/battery/battery_30_icon.png".to_owned(),
            level_20:
                "/usr/share/mechanix/shell/launcher/assets/battery/battery_20_icon.png".to_owned(),
            level_10:
                "/usr/share/mechanix/shell/launcher/assets/battery/battery_10_icon.png".to_owned(),
            level_0:
                "/usr/share/mechanix/shell/launcher/assets/battery/battery_0_icon.png".to_owned(),
            not_found:
                "/usr/share/mechanix/shell/launcher/assets/battery/battery_not_found_icon.png".to_owned(),
        }
    }
}

#[derive(Debug, Clone)]
pub struct ChargingBatteryIconPaths {
    pub level_100: String,
    pub level_90: String,
    pub level_80: String,
    pub level_70: String,
    pub level_60: String,
    pub level_50: String,
    pub level_40: String,
    pub level_30: String,
    pub level_20: String,
    pub level_10: String,
    pub level_0: String,
    pub not_found: String,
}

impl ChargingBatteryIconPaths {
    pub open spec fn is_default(self) -> bool {
        &&& self.level_100@
            == "/usr/share/mechanix/shell/launcher/assets/battery/charging/battery_100_icon.png"@
        &&& self.level_90@
            == "/usr/share/mechanix/shell/launcher/assets/battery/charging/battery_90_icon.png"@
        &&& self.level_80@
            == "/usr/share/mechanix/shell/launcher/assets/battery/charging/battery_80_icon.png"@
        &&& self.level_70@
            == "/usr/share/mechanix/shell/launcher/assets/battery/charging/battery_70_icon.png"@
        &&& self.level_60@
            == "/usr/share/mechanix/shell/launcher/assets/battery/charging/battery_60_icon.png"@
        &&& self.level_50@
            == "/usr/share/mechanix/shell/launcher/assets/battery/charging/battery_50_icon.png"@
        &&& self.level_40@
            == "/usr/share/mechanix/shell/launcher/assets/battery/charging/battery_40_icon.png"@
        &&& self.level_30@
            == "/usr/share/mechanix/shell/launcher/assets/battery/charging/battery_30_icon.png"@
        &&& self.level_20@
            == "/usr/share/mechanix/shell/launcher/assets/battery/charging/battery_20_icon.png"@
        &&& self.level_10@
            == "/usr/share/mechanix/shell/launcher/assets/battery/charging/battery_10_icon.png"@
        &&& self.level_0@
            == "/usr/share/mechanix/shell/launcher/assets/battery/charging/battery_0_icon.png"@
        &&& self.not_found@
            == "/usr/share/mechanix/shell/launcher/assets/battery/battery_not_found_icon.png"@
    }
}

impl Default for ChargingBatteryIconPaths {
    fn default() -> (r: Self)
        ensures
            r.is_default(),
    {
        ChargingBatteryIconPaths {
            level_100:
                "/usr/share/mechanix/shell/launcher/assets/battery/charging/battery_100_icon.png".to_owned(),
            level_90:
                "/usr/share/mechanix/shell/launcher/assets/battery/charging/battery_90_icon.png".to_owned(),
            level_80:
                "/usr/share/mechanix/shell/launcher/assets/battery/charging/battery_80_icon.png".to_owned(),
            level_70:
                "/usr/share/mechanix/shell/launcher/assets/battery/charging/battery_70_icon.png".to_owned(),
            level_60:
                "/usr/share/mechanix/shell/launcher/assets/battery/charging/battery_60_icon.png".to_owned(),
            level_50:
                "/usr/share/mechanix/shell/launcher/assets/battery/charging/battery_50_icon.png".to_owned(),
            level_40:
                "/usr/share/mechanix/shell/launcher/assets/battery/charging/battery_40_icon.png".to_owned(),
            level_30:
                "/usr/share/mechanix/shell/launcher/assets/battery/charging/battery_30_icon.png".to_owned(),
            level_20:
                "/usr/share/mechanix/shell/launcher/assets/battery/charging/battery_20_icon.png".to_owned(),
            level_10:
                "/usr/share/mechanix/shell/launcher/assets/battery/charging/battery_10_icon.png".to_owned(),
            level_0:
                "/usr/share/mechanix/shell/launcher/assets/battery/charging/battery_0_icon.png".to_owned(),
            not_found:
                "/usr/share/mechanix/shell/launcher/assets/battery/battery_not_found_icon.png".to_owned(),
        }
    }
}

/// Extra font files the shell loads.
#[derive(Debug, Clone)]
pub struct CustomFonts {
    pub paths: Vec<String>,
}

impl CustomFonts {
    pub open spec fn is_default(self) -> bool {
        self.paths@.len() == 0
    }
}

impl Default for CustomFonts {
    fn default() -> (r: Self)
        ensures
            r.is_default(),
    {
        CustomFonts { paths: Vec::new() }
    }
}

/// The launcher's modules: status icons, pinned applications and the
/// action shortcuts.
#[derive(Debug, Clone)]
pub struct Modules {
    pub clock: Clock,
    pub bluetooth: Bluetooth,
    pub wireless: Wireless,
    pub battery: Battery,
    pub apps: Vec<App>,
    pub background: BackgroundModule,
    pub rotation: RotationModule,
    pub power: PowerModule,
    pub lock: LockModule,
    pub settings: SettingsModule,
    pub running_apps: RunningAppsModule,
    pub search: SearchModule,
    pub launch: LaunchModule,
    pub delete: DeleteModule,
    pub close: CloseModule,
    pub power_options: PowerOptionsModule,
    pub terminal: TerminalModule,
}

impl Modules {
    /// The shipped defaults: a twelve-hour clock, default icons everywhere
    /// (the rotation tile with an empty title), and the five stock
    /// applications pinned.
    pub open spec fn is_default(self) -> bool {
        &&& self.clock.format@ == "%I:%M %p"@
        &&& self.bluetooth.is_default()
        &&& self.wireless.is_default()
        &&& self.battery.is_default()
        &&& self.apps@.len() == 5
        &&& is_stock_app(
            self.apps@[0],
            "mecha-connect"@,
            "Mecha Connect"@,
            "/usr/share/mechanix/shell/launcher/assets/mecha_connect_icon.png"@,
            "MECHA_CONNECT_APP_SETTINGS_PATH=/etc/mecha/connect/settings-demo.yml mecha-connect"@,
        )
        &&& is_stock_app(
            self.apps@[1],
            "mecha-llama"@,
            "Mecha LLama"@,
            "/usr/share/mechanix/shell/launcher/assets/mecha_llama_icon.png"@,
            "chromium --user-agent='Mozilla/5.0 (Linux; Android 14) AppleWebKit/537.36 (KHTML, like Gecko) Chrome/120.0.6099.43 Mobile Safari/537.36' --ozone-platform=wayland https://mecha-voice-ai-demo.vercel.app/"@,
        )
        &&& is_stock_app(
            self.apps@[2],
            "mecha-vision"@,
            "Mecha Vision"@,
            "/usr/share/mechanix/shell/launcher/assets/mecha_vision_icon.png"@,
            "LD_LIBRARY_PATH=/home/mecha/.pipeless /home/mecha/.pipeless/pipeless add stream --input-uri 'v4l2' --output-uri 'screen' --frame-path 'cats'"@,
        )
        &&& is_stock_app(
            self.apps@[3],
            "mecha-terminal"@,
            "Mecha Terminal"@,
            "/usr/share/mechanix/shell/launcher/assets/mecha_terminal_icon.png"@,
            "alacritty"@,
        )
        &&& is_stock_app(
            self.apps@[4],
            "mecha-gaming"@,
            "Mecha Gaming"@,
            "/usr/share/mechanix/shell/launcher/assets/mecha_gaming_icon.png"@,
            "chromium --user-agent='Mozilla/5.0 (Linux; Android 14) AppleWebKit/537.36 (KHTML, like Gecko) Chrome/120.0.6099.43 Mobile Safari/537.36' --ozone-platform=wayland https://guccigrip.gucci.com/"@,
        )
        &&& self.background.is_default()
        &&& self.rotation.icon.is_default() && self.rotation.title@.len() == 0
        &&& self.power.is_default()
        &&& self.lock.is_default()
        &&& self.settings.is_default()
        &&& self.running_apps.is_default()
        &&& self.search.is_default()
        &&& self.launch.is_default()
        &&& self.delete.is_default()
        &&& self.close.is_default()
        &&& self.power_options.is_default()
        &&& self.terminal.is_default()
    }
}

impl Default for Modules {
    fn default() -> (r: Self)
        ensures
            r.is_default(),
    {
        let mut apps: Vec<App> = Vec::new();
        apps.push(stock_app(
            "mecha-connect",
            "Mecha Connect",
            "/usr/share/mechanix/shell/launcher/assets/mecha_connect_icon.png",
            "MECHA_CONNECT_APP_SETTINGS_PATH=/etc/mecha/connect/settings-demo.yml mecha-connect",
        ));
        apps.push(stock_app(
            "mecha-llama",
            "Mecha LLama",
            "/usr/share/mechanix/shell/launcher/assets/mecha_llama_icon.png",
            "chromium --user-agent='Mozilla/5.0 (Linux; Android 14) AppleWebKit/537.36 (KHTML, like Gecko) Chrome/120.0.6099.43 Mobile Safari/537.36' --ozone-platform=wayland https://mecha-voice-ai-demo.vercel.app/",
        ));
        apps.push(stock_app(
            "mecha-vision",
            "Mecha Vision",
            "/usr/share/mechanix/shell/launcher/assets/mecha_vision_icon.png",
            "LD_LIBRARY_PATH=/home/mecha/.pipeless /home/mecha/.pipeless/pipeless add stream --input-uri 'v4l2' --output-uri 'screen' --frame-path 'cats'",
        ));
        apps.push(stock_app(
            "mecha-terminal",
            "Mecha Terminal",
            "/usr/share/mechanix/shell/launcher/assets/mecha_terminal_icon.png",
            "alacritty",
        ));
        apps.push(stock_app(
            "mecha-gaming",
            "Mecha Gaming",
            "/usr/share/mechanix/shell/launcher/assets/mecha_gaming_icon.png",
            "chromium --user-agent='Mozilla/5.0 (Linux; Android 14) AppleWebKit/537.36 (KHTML, like Gecko) Chrome/120.0.6099.43 Mobile Safari/537.36' --ozone-platform=wayland https://guccigrip.gucci.com/",
        ));
        Modules {
            clock: Clock { format: "%I:%M %p".to_owned() },
            bluetooth: Bluetooth::default(),
            wireless: Wireless::default(),
            battery: Battery::default(),
            apps,
            background: BackgroundModule::default(),
            rotation: RotationModule {
                icon: RotationIconPaths::default(),
                title: String::new(),
            },
            power: PowerModule::default(),
            lock: LockModule::default(),
            settings: SettingsModule::default(),
            running_apps: RunningAppsModule::default(),
            search: SearchModule::default(),
            launch: LaunchModule::default(),
            delete: DeleteModule::default(),
            close: CloseModule::default(),
            power_options: PowerOptionsModule::default(),
            terminal: TerminalModule::default(),
        }
    }
}

/// Builds one pinned stock application entry: launched through `sh -c`
/// with the given command line.
fn stock_app(app_id: &str, name: &str, icon: &str, command: &str) -> (r: App)
    ensures
        r.app_id@ == app_id@,
        r.name@ == name@,
        r.icon is Some && r.icon->0@ == icon@,
        r.run_command@.len() == 3,
        r.run_command@[0]@ == "sh"@,
        r.run_command@[1]@ == "-c"@,
        r.run_command@[2]@ == command@,
{
    let mut run_command: Vec<String> = Vec::new();
    run_command.push("sh".to_owned());
    run_command.push("-c".to_owned());
    run_command.push(command.to_owned());
    App {
        app_id: app_id.to_owned(),
        name: name.to_owned(),
        icon: Option::Some(icon.to_owned()),
        run_command,
    }
}

} // verus!
