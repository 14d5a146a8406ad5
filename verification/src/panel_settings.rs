//! Configuration data model of the settings panel shell.
//!
//! Mirrors the panel's `settings.yml`: window behaviour, the grid of
//! tiles, and per-module titles and icon paths.  File reading and parsing
//! stay outside the library; the defaults are pinned down exactly.

use vstd::prelude::*;

use std::collections::HashMap;

verus! {

/// Application behaviour switches.
#[derive(Debug, Clone)]
pub struct AppSettings {
    pub id: Option<String>,
    pub text_multithreading: bool,
    pub antialiasing: bool,
    pub try_opengles_first: bool,
}

impl AppSettings {
    pub open spec fn is_default(self) -> bool {
        &&& self.id is Some && self.id->0@ == "settings-panel"@
        &&& !self.text_multithreading
        &&& !self.antialiasing
        &&& self.try_opengles_first
    }
}

impl Default for AppSettings {
    fn default() -> (r: Self)
        ensures
            r.is_default(),
    {
        AppSettings {
            id: Option::Some("settings-panel".to_owned()),
            text_multithreading: false,
            antialiasing: false,
            try_opengles_first: true,
        }
    }
}

/// Window geometry and behaviour.
pub struct WindowSettings {
    pub size: (i32, i32),
    pub position: (i32, i32),
    pub min_size: Option<(u32, u32)>,
    pub max_size: Option<(u32, u32)>,
    pub visible: bool,
    pub resizable: bool,
    pub decorations: bool,
    pub transparent: bool,
    pub always_on_top: bool,
    pub icon_path: Option<String>,
}

impl WindowSettings {
    pub open spec fn is_default(self) -> bool {
        &&& self.size.0 == 480 && self.size.1 == 440
        &&& self.position.0 == 0 && self.position.1 == 0
        &&& self.min_size is None
        &&& self.max_size is None
        &&& self.visible
        &&& self.resizable
        &&& self.decorations
        &&& !self.transparent
        &&& !self.always_on_top
        &&& self.icon_path is None
    }
}

impl Default for WindowSettings {
    fn default() -> (r: Self)
        ensures
            r.is_default(),
    {
        WindowSettings {
            size: (480, 440),
            position: (0, 0),
            min_size: Option::None,
            max_size: Option::None,
            visible: true,
            resizable: true,
            decorations: true,
            transparent: false,
            always_on_top: false,
            icon_path: Option::None,
        }
    }
}

/// The grid of tiles the panel shows, by title, in order.
#[derive(Debug, Clone)]
pub struct LayoutSettings {
    pub grid: Vec<String>,
}

impl LayoutSettings {
    pub open spec fn is_default(self) -> bool {
        &&& self.grid@.len() == 10
        &&& self.grid@[0]@ == "Wireless"@
        &&& self.grid@[1]@ == "Bluetooth"@
        &&& self.grid@[2]@ == "Battery"@
        &&& self.grid@[3]@ == "Auto Rotate"@
        &&& self.grid@[4]@ == "Settings"@
        &&& self.grid@[5]@ == "Running Apps"@
        &&& self.grid@[6]@ == "CPU"@
        &&& self.grid@[7]@ == "Memory"@
        &&& self.grid@[8]@ == "Sound"@
        &&& self.grid@[9]@ == "Brightness"@
    }
}

impl Default for LayoutSettings {
    fn default() -> (r: Self)
        ensures
            r.is_default(),
    {
        let mut grid: Vec<String> = Vec::new();
        grid.push("Wireless".to_owned());
        grid.push("Bluetooth".to_owned());
        grid.push("Battery".to_owned());
        grid.push("Auto Rotate".to_owned());
        grid.push("Settings".to_owned());
        grid.push("Running Apps".to_owned());
        grid.push("CPU".to_owned());
        grid.push("Memory".to_owned());
        grid.push("Sound".to_owned());
        grid.push("Brightness".to_owned());
        LayoutSettings { grid }
    }
}

/// Style sheet configuration.
#[derive(Debug, Clone)]
pub struct CssConfigs {
    pub default: String,
}

impl CssConfigs {
    pub open spec fn is_default(self) -> bool {
        self.default@.len() == 0
    }
}

impl Default for CssConfigs {
    fn default() -> (r: Self)
        ensures
            r.is_default(),
    {
        CssConfigs { default: String::new() }
    }
}

#[derive(Debug, Clone)]
pub struct BluetoothIconPaths {
    pub on: String,
    pub off: String,
    pub connected: String,
    pub not_found: String,
}

impl BluetoothIconPaths {
    pub open spec fn is_default(self) -> bool {
        &&& self.off@
            == "/usr/share/mechanix/shell/settings-panel/assets/bluetooth_off_icon.png"@
        &&& self.on@
            == "/usr/share/mechanix/shell/settings-panel/assets/bluetooth_on_icon.png"@
        &&& self.connected@
            == "/usr/share/mechanix/shell/settings-panel/assets/bluetooth_connected_icon.png"@
        &&& self.not_found@
            == "/usr/share/mechanix/shell/settings-panel/assets/bluetooth_not_found_icon.png"@
    }
}

impl Default for BluetoothIconPaths {
    fn default() -> (r: Self)
        ensures
            r.is_default(),
    {
        BluetoothIconPaths {
            off:
                "/usr/share/mechanix/shell/settings-panel/assets/bluetooth_off_icon.png".to_owned(),
            on:
                "/usr/share/mechanix/shell/settings-panel/assets/bluetooth_on_icon.png".to_owned(),
            connected:
                "/usr/share/mechanix/shell/settings-panel/assets/bluetooth_connected_icon.png".to_owned(),
            not_found:
                "/usr/share/mechanix/shell/settings-panel/assets/bluetooth_not_found_icon.png".to_owned(),
        }
    }
}

#[derive(Debug, Clone)]
pub struct WirelessIconPaths {
    pub off: String,
    pub on: String,
    pub low: String,
    pub weak: String,
    pub good: String,
    pub strong: String,
    pub not_found: String,
}

impl WirelessIconPaths {
    pub open spec fn is_default(self) -> bool {
        &&& self.off@
            == "/usr/share/mechanix/shell/settings-panel/assets/wireless_off_icon.png"@
        &&& self.on@
            == "/usr/share/mechanix/shell/settings-panel/assets/wireless_on_icon.png"@
        &&& self.low@
            == "/usr/share/mechanix/shell/settings-panel/assets/wireless_low_icon.png"@
        &&& self.weak@
            == "/usr/share/mechanix/shell/settings-panel/assets/wireless_weak_icon.png"@
        &&& self.good@
            == "/usr/share/mechanix/shell/settings-panel/assets/wireless_good_icon.png"@
        &&& self.strong@
            == "/usr/share/mechanix/shell/settings-panel/assets/wireless_strong_icon.png"@
        &&& self.not_found@
            == "/usr/share/mechanix/shell/settings-panel/assets/wireless_not_found_icon.png"@
    }
}

impl Default for WirelessIconPaths {
    fn default() -> (r: Self)
        ensures
            r.is_default(),
    {
        WirelessIconPaths {
            off:
                "/usr/share/mechanix/shell/settings-panel/assets/wireless_off_icon.png".to_owned(),
            on:
                "/usr/share/mechanix/shell/settings-panel/assets/wireless_on_icon.png".to_owned(),
            low:
                "/usr/share/mechanix/shell/settings-panel/assets/wireless_low_icon.png".to_owned(),
            weak:
                "/usr/share/mechanix/shell/settings-panel/assets/wireless_weak_icon.png".to_owned(),
            good:
                "/usr/share/mechanix/shell/settings-panel/assets/wireless_good_icon.png".to_owned(),
            strong:
                "/usr/share/mechanix/shell/settings-panel/assets/wireless_strong_icon.png".to_owned(),
            not_found:
                "/usr/share/mechanix/shell/settings-panel/assets/wireless_not_found_icon.png".to_owned(),
        }
    }
}

#[derive(Debug, Clone)]
pub struct BatteryIconPaths {
    pub level_100: String,
    pub level_90: String,
    pub level_80: String,
    pub level_70: String,
    pub level_60: String,
    pub level_50: String,
    pub level_40: String,
    pub level_30: String,
    pub level_20: String,
    pub level_10: String,
    pub level_0: String,
    pub not_found: String,
}

impl BatteryIconPaths {
    pub open spec fn is_default(self) -> bool {
        &&& self.level_100@
            == "/usr/share/mechanix/shell/settings-panel/assets/battery_100_icon.png"@
        &&& self.level_90@
            == "/usr/share/mechanix/shell/settings-panel/assets/battery_90_icon.png"@
        &&& self.level_80@
            == "/usr/share/mechanix/shell/settings-panel/assets/battery_80_icon.png"@
        &&& self.level_70@
            == "/usr/share/mechanix/shell/settings-panel/assets/battery_70_icon.png"@
        &&& self.level_60@
            == "/usr/share/mechanix/shell/settings-panel/assets/battery_60_icon.png"@
        &&& self.level_50@
            == "/usr/share/mechanix/shell/settings-panel/assets/battery_50_icon.png"@
        &&& self.level_40@
            == "/usr/share/mechanix/shell/settings-panel/assets/battery_40_icon.png"@
        &&& self.level_30@
            == "/usr/share/mechanix/shell/settings-panel/assets/battery_30_icon.png"@
        &&& self.level_20@
            == "/usr/share/mechanix/shell/settings-panel/assets/battery_20_icon.png"@
        &&& self.level_10@
            == "/usr/share/mechanix/shell/settings-panel/assets/battery_10_icon.png"@
        &&& self.level_0@
            == "/usr/share/mechanix/shell/settings-panel/assets/battery_0_icon.png"@
        &&& self.not_found@
            == "/usr/share/mechanix/shell/settings-panel/assets/battery_not_found_icon.png"@
    }
}

impl Default for BatteryIconPaths {
    fn default() -> (r: Self)
        ensures
            r.is_default(),
    {
        BatteryIconPaths {
            level_100:
                "/usr/share/mechanix/shell/settings-panel/assets/battery_100_icon.png".to_owned(),
            level_90:
                "/usr/share/mechanix/shell/settings-panel/assets/battery_90_icon.png".to_owned(),
            level_80:
                "/usr/share/mechanix/shell/settings-panel/assets/battery_80_icon.png".to_owned(),
            level_70:
                "/usr/share/mechanix/shell/settings-panel/assets/battery_70_icon.png".to_owned(),
            level_60:
                "/usr/share/mechanix/shell/settings-panel/assets/battery_60_icon.png".to_owned(),
            level_50:
                "/usr/share/mechanix/shell/settings-panel/assets/battery_50_icon.png".to_owned(),
            level_40:
                "/usr/share/mechanix/shell/settings-panel/assets/battery_40_icon.png".to_owned(),
            level_30:
                "/usr/share/mechanix/shell/settings-panel/assets/battery_30_icon.png".to_owned(),
            level_20:
                "/usr/share/mechanix/shell/settings-panel/assets/battery_20_icon.png".to_owned(),
            level_10:
                "/usr/share/mechanix/shell/settings-panel/assets/battery_10_icon.png".to_owned(),
            level_0:
                "/usr/share/mechanix/shell/settings-panel/assets/battery_0_icon.png".to_owned(),
            not_found:
                "/usr/share/mechanix/shell/settings-panel/assets/battery_not_found_icon.png".to_owned(),
        }
    }
}

#[derive(Debug, Clone)]
pub struct BatteryChrgingIconPaths {
    pub level_100: String,
    pub level_90: String,
    pub level_80: String,
    pub level_70: String,
    pub level_60: String,
    pub level_50: String,
    pub level_40: String,
    pub level_30: String,
    pub level_20: String,
    pub level_10: String,
    pub level_0: String,
    pub not_found: String,
}

impl BatteryChrgingIconPaths {
    pub open spec fn is_default(self) -> bool {
        &&& self.level_100@
            == "/usr/share/mechanix/shell/settings-panel/assets/charging/battery_100_icon.png"@
        &&& self.level_90@
            == "/usr/share/mechanix/shell/settings-panel/assets/charging/battery_90_icon.png"@
        &&& self.level_80@
            == "/usr/share/mechanix/shell/settings-panel/assets/charging/battery_80_icon.png"@
        &&& self.level_70@
            == "/usr/share/mechanix/shell/settings-panel/assets/charging/battery_70_icon.png"@
        &&& self.level_60@
            == "/usr/share/mechanix/shell/settings-panel/assets/charging/battery_60_icon.png"@
        &&& self.level_50@
            == "/usr/share/mechanix/shell/settings-panel/assets/charging/battery_50_icon.png"@
        &&& self.level_40@
            == "/usr/share/mechanix/shell/settings-panel/assets/charging/battery_40_icon.png"@
        &&& self.level_30@
            == "/usr/share/mechanix/shell/settings-panel/assets/charging/battery_30_icon.png"@
        &&& self.level_20@
            == "/usr/share/mechanix/shell/settings-panel/assets/charging/battery_20_icon.png"@
        &&& self.level_10@
            == "/usr/share/mechanix/shell/settings-panel/assets/charging/battery_10_icon.png"@
        &&& self.level_0@
            == "/usr/share/mechanix/shell/settings-panel/assets/charging/battery_0_icon.png"@
        &&& self.not_found@
            == "/usr/share/mechanix/shell/settings-panel/assets/battery_not_found_icon.png"@
    }
}

impl Default for BatteryChrgingIconPaths {
    fn default() -> (r: Self)
        ensures
            r.is_default(),
    {
        BatteryChrgingIconPaths {
            level_100:
                "/usr/share/mechanix/shell/settings-panel/assets/charging/battery_100_icon.png".to_owned(),
            level_90:
                "/usr/share/mechanix/shell/settings-panel/assets/charging/battery_90_icon.png".to_owned(),
            level_80:
                "/usr/share/mechanix/shell/settings-panel/assets/charging/battery_80_icon.png".to_owned(),
            level_70:
                "/usr/share/mechanix/shell/settings-panel/assets/charging/battery_70_icon.png".to_owned(),
            level_60:
                "/usr/share/mechanix/shell/settings-panel/assets/charging/battery_60_icon.png".to_owned(),
            level_50:
                "/usr/share/mechanix/shell/settings-panel/assets/charging/battery_50_icon.png".to_owned(),
            level_40:
                "/usr/share/mechanix/shell/settings-panel/assets/charging/battery_40_icon.png".to_owned(),
            level_30:
                "/usr/share/mechanix/shell/settings-panel/assets/charging/battery_30_icon.png".to_owned(),
            level_20:
                "/usr/share/mechanix/shell/settings-panel/assets/charging/battery_20_icon.png".to_owned(),
            level_10:
                "/usr/share/mechanix/shell/settings-panel/assets/charging/battery_10_icon.png".to_owned(),
            level_0:
                "/usr/share/mechanix/shell/settings-panel/assets/charging/battery_0_icon.png".to_owned(),
            not_found:
                "/usr/share/mechanix/shell/settings-panel/assets/battery_not_found_icon.png".to_owned(),
        }
    }
}

#[derive(Debug, Clone)]
pub struct RotationIconPaths {
    pub portrait: String,
    pub landscape: String,
}

impl RotationIconPaths {
    pub open spec fn is_default(self) -> bool {
        &&& self.portrait@
            == "/usr/share/mechanix/shell/settings-panel/assets/rotation_portrait_icon.png"@
        &&& self.landscape@
            == "/usr/share/mechanix/shell/settings-panel/assets/rotation_landscape_icon.png"@
    }
}

impl Default for RotationIconPaths {
    fn default() -> (r: Self)
        ensures
            r.is_default(),
    {
        RotationIconPaths {
            portrait:
                "/usr/share/mechanix/shell/settings-panel/assets/rotation_portrait_icon.png".to_owned(),
            landscape:
                "/usr/share/mechanix/shell/settings-panel/assets/rotation_landscape_icon.png".to_owned(),
        }
    }
}

#[derive(Debug, Clone)]
pub struct SettingsIconPaths {
    pub default: String,
}

impl SettingsIconPaths {
    pub open spec fn is_default(self) -> bool {
        self.default@ == "/usr/share/mechanix/shell/settings-panel/assets/settings_icon.png"@
    }
}

impl Default for SettingsIconPaths {
    fn default() -> (r: Self)
        ensures
            r.is_default(),
    {
        SettingsIconPaths {
            default:
                "/usr/share/mechanix/shell/settings-panel/assets/settings_icon.png".to_owned(),
        }
    }
}

#[derive(Debug, Clone)]
pub struct RunningAppsIconPaths {
    pub low: String,
    pub medium: String,
    pub high: String,
}

impl RunningAppsIconPaths {
    pub open spec fn is_default(self) -> bool {
        &&& self.low@
            == "/usr/share/mechanix/shell/settings-panel/assets/running_apps_low_icon.png"@
        &&& self.medium@
            == "/usr/share/mechanix/shell/settings-panel/assets/running_apps_medium_icon.png"@
        &&& self.high@
            == "/usr/share/mechanix/shell/settings-panel/assets/running_apps_high_icon.png"@
    }
}

impl Default for RunningAppsIconPaths {
    fn default() -> (r: Self)
        ensures
            r.is_default(),
    {
        RunningAppsIconPaths {
            low:
                "/usr/share/mechanix/shell/settings-panel/assets/running_apps_low_icon.png".to_owned(),
            medium:
                "/usr/share/mechanix/shell/settings-panel/assets/running_apps_medium_icon.png".to_owned(),
            high:
                "/usr/share/mechanix/shell/settings-panel/assets/running_apps_high_icon.png".to_owned(),
        }
    }
}

#[derive(Debug, Clone)]
pub struct CpuIconPaths {
    pub low: String,
    pub medium: String,
    pub high: String,
}

impl CpuIconPaths {
    pub open spec fn is_default(self) -> bool {
        &&& self.low@ == "/usr/share/mechanix/shell/settings-panel/assets/cpu_low_icon.png"@
        &&& self.medium@
            == "/usr/share/mechanix/shell/settings-panel/assets/cpu_medium_icon.png"@
        &&& self.high@ == "/usr/share/mechanix/shell/settings-panel/assets/cpu_high_icon.png"@
    }
}

impl Default for CpuIconPaths {
    fn default() -> (r: Self)
        ensures
            r.is_default(),
    {
        CpuIconPaths {
            low: "/usr/share/mechanix/shell/settings-panel/assets/cpu_low_icon.png".to_owned(),
            medium:
                "/usr/share/mechanix/shell/settings-panel/assets/cpu_medium_icon.png".to_owned(),
            high: "/usr/share/mechanix/shell/settings-panel/assets/cpu_high_icon.png".to_owned(),
        }
    }
}

#[derive(Debug, Clone)]
pub struct MemoryIconPaths {
    pub low: String,
    pub medium: String,
    pub high: String,
}

impl MemoryIconPaths {
    pub open spec fn is_default(self) -> bool {
        &&& self.low@
            == "/usr/share/mechanix/shell/settings-panel/assets/memory_low_icon.png"@
        &&& self.medium@
            == "/usr/share/mechanix/shell/settings-panel/assets/memory_medium_icon.png"@
        &&& self.high@
            == "/usr/share/mechanix/shell/settings-panel/assets/memory_high_icon.png"@
    }
}

impl Default for MemoryIconPaths {
    fn default() -> (r: Self)
        ensures
            r.is_default(),
    {
        MemoryIconPaths {
            low: "/usr/share/mechanix/shell/settings-panel/assets/memory_low_icon.png".to_owned(),
            medium:
                "/usr/share/mechanix/shell/settings-panel/assets/memory_medium_icon.png".to_owned(),
            high:
                "/usr/share/mechanix/shell/settings-panel/assets/memory_high_icon.png".to_owned(),
        }
    }
}

#[derive(Debug, Clone)]
pub struct BrightnessIconPaths {
    pub low: String,
    pub medium: String,
    pub high: String,
}

impl BrightnessIconPaths {
    pub open spec fn is_default(self) -> bool {
        &&& self.low@
            == "/usr/share/mechanix/shell/settings-panel/assets/brightness_low_icon.png"@
        &&& self.medium@
            == "/usr/share/mechanix/shell/settings-panel/assets/brightness_medium_icon.png"@
        &&& self.high@
            == "/usr/share/mechanix/shell/settings-panel/assets/brightness_high_icon.png"@
    }
}

impl Default for BrightnessIconPaths {
    fn default() -> (r: Self)
        ensures
            r.is_default(),
    {
        BrightnessIconPaths {
            low:
                "/usr/share/mechanix/shell/settings-panel/assets/brightness_low_icon.png".to_owned(),
            medium:
                "/usr/share/mechanix/shell/settings-panel/assets/brightness_medium_icon.png".to_owned(),
            high:
                "/usr/share/mechanix/shell/settings-panel/assets/brightness_high_icon.png".to_owned(),
        }
    }
}

#[derive(Debug, Clone)]
pub struct SoundIconPaths {
    pub low: String,
    pub medium: String,
    pub high: String,
}

impl SoundIconPaths {
    pub open spec fn is_default(self) -> bool {
        &&& self.low@ == "/usr/share/mechanix/shell/settings-panel/assets/sound_low_icon.png"@
        &&& self.medium@
            == "/usr/share/mechanix/shell/settings-panel/assets/sound_medium_icon.png"@
        &&& self.high@
            == "/usr/share/mechanix/shell/settings-panel/assets/sound_high_icon.png"@
    }
}

impl Default for SoundIconPaths {
    fn default() -> (r: Self)
        ensures
            r.is_default(),
    {
        SoundIconPaths {
            low: "/usr/share/mechanix/shell/settings-panel/assets/sound_low_icon.png".to_owned(),
            medium:
                "/usr/share/mechanix/shell/settings-panel/assets/sound_medium_icon.png".to_owned(),
            high: "/usr/share/mechanix/shell/settings-panel/assets/sound_high_icon.png".to_owned(),
        }
    }
}

/// Optional low/medium/high icon paths shared by gauge-like tiles.
#[derive(Debug, Clone)]
pub struct CommonLowMediumHighPaths {
    pub low: Option<String>,
    pub medium: Option<String>,
    pub high: Option<String>,
}

/// Bluetooth tile.
#[derive(Debug, Clone)]
pub struct BluetoothModule {
    pub icon: BluetoothIconPaths,
    pub title: String,
}

impl BluetoothModule {
    pub open spec fn is_default(self) -> bool {
        self.icon.is_default() && self.title@ == "Bluetooth"@
    }
}

impl Default for BluetoothModule {
    fn default() -> (r: Self)
        ensures
            r.is_default(),
    {
        BluetoothModule { icon: BluetoothIconPaths::default(), title: "Bluetooth".to_owned() }
    }
}

/// Wireless tile.
#[derive(Debug, Clone)]
pub struct WirelessModule {
    pub icon: WirelessIconPaths,
    pub title: String,
}

impl WirelessModule {
    pub open spec fn is_default(self) -> bool {
        self.icon.is_default() && self.title@ == "Wireless"@
    }
}

impl Default for WirelessModule {
    fn default() -> (r: Self)
        ensures
            r.is_default(),
    {
        WirelessModule { icon: WirelessIconPaths::default(), title: "Wireless".to_owned() }
    }
}

/// Battery tile.
#[derive(Debug, Clone)]
pub struct BatteryModule {
    pub icon: BatteryIconPaths,
    pub title: String,
    pub charging_icon: BatteryChrgingIconPaths,
}

impl BatteryModule {
    pub open spec fn is_default(self) -> bool {
        &&& self.icon.is_default()
        &&& self.title@ == "Battery"@
        &&& self.charging_icon.is_default()
    }
}

impl Default for BatteryModule {
    fn default() -> (r: Self)
        ensures
            r.is_default(),
    {
        BatteryModule {
            title: "Battery".to_owned(),
            icon: BatteryIconPaths::default(),
            charging_icon: BatteryChrgingIconPaths::default(),
        }
    }
}

/// Auto-rotate tile.
#[derive(Debug, Clone)]
pub struct RotationModule {
    pub icon: RotationIconPaths,
    pub title: String,
}

impl RotationModule {
    pub open spec fn is_default(self) -> bool {
        self.icon.is_default() && self.title@ == "Auto Rotate"@
    }
}

impl Default for RotationModule {
    fn default() -> (r: Self)
        ensures
            r.is_default(),
    {
        RotationModule { icon: RotationIconPaths::default(), title: "Auto Rotate".to_owned() }
    }
}

/// Settings tile: icon, title, and the command that opens the settings
/// application.
#[derive(Debug, Clone)]
pub struct SettingsModule {
    pub icon: SettingsIconPaths,
    pub title: String,
    pub run_command: Vec<String>,
}

impl SettingsModule {
    pub open spec fn is_default(self) -> bool {
        &&& self.icon.is_default()
        &&& self.title@ == "Settings"@
        &&& self.run_command@.len() == 3
        &&& self.run_command@[0]@ == "sh"@
        &&& self.run_command@[1]@ == "-c"@
        &&& self.run_command@[2]@
            == "mecha-settings -s /usr/share/mecha/settings/settings.yml"@
    }
}

impl Default for SettingsModule {
    fn default() -> (r: Self)
        ensures
            r.is_default(),
    {
        let mut run_command: Vec<String> = Vec::new();
        run_command.push("sh".to_owned());
        run_command.push("-c".to_owned());
        run_command.push("mecha-settings -s /usr/share/mecha/settings/settings.yml".to_owned());
        SettingsModule {
            icon: SettingsIconPaths::default(),
            title: "Settings".to_owned(),
            run_command,
        }
    }
}

/// Running-apps tile.
#[derive(Debug, Clone)]
pub struct RunningAppsModule {
    pub icon: RunningAppsIconPaths,
    pub title: String,
}

impl RunningAppsModule {
    pub open spec fn is_default(self) -> bool {
        self.icon.is_default() && self.title@ == "Running Apps"@
    }
}

impl Default for RunningAppsModule {
    fn default() -> (r: Self)
        ensures
            r.is_default(),
    {
        RunningAppsModule {
            icon: RunningAppsIconPaths::default(),
            title: "Running Apps".to_owned(),
        }
    }
}

/// Processor-load tile.
#[derive(Debug, Clone)]
pub struct CpuModule {
    pub icon: CpuIconPaths,
    pub title: String,
}

impl CpuModule {
    pub open spec fn is_default(self) -> bool {
        self.icon.is_default() && self.title@ == "CPU"@
    }
}

impl Default for CpuModule {
    fn default() -> (r: Self)
        ensures
            r.is_default(),
    {
        CpuModule { icon: CpuIconPaths::default(), title: "CPU".to_owned() }
    }
}

/// Memory tile.
#[derive(Debug, Clone)]
pub struct MemoryModule {
    pub icon: MemoryIconPaths,
    pub title: String,
}

impl MemoryModule {
    pub open spec fn is_default(self) -> bool {
        self.icon.is_default() && self.title@ == "Memory"@
    }
}

impl Default for MemoryModule {
    fn default() -> (r: Self)
        ensures
            r.is_default(),
    {
        MemoryModule { icon: MemoryIconPaths::default(), title: "Memory".to_owned() }
    }
}

/// Sound tile.
#[derive(Debug, Clone)]
pub struct SoundModule {
    pub icon: SoundIconPaths,
    pub title: String,
}

impl SoundModule {
    pub open spec fn is_default(self) -> bool {
        self.icon.is_default() && self.title@ == "Sound"@
    }
}

impl Default for SoundModule {
    fn default() -> (r: Self)
        ensures
            r.is_default(),
    {
        SoundModule { icon: SoundIconPaths::default(), title: "Sound".to_owned() }
    }
}

/// Brightness tile.
#[derive(Debug, Clone)]
pub struct BrightnessModule {
    pub icon: BrightnessIconPaths,
    pub title: String,
}

impl BrightnessModule {
    pub open spec fn is_default(self) -> bool {
        self.icon.is_default() && self.title@ == "Brightness"@
    }
}

impl Default for BrightnessModule {
    fn default() -> (r: Self)
        ensures
            r.is_default(),
    {
        BrightnessModule { icon: BrightnessIconPaths::default(), title: "Brightness".to_owned() }
    }
}

/// All tiles the panel can show.
#[derive(Debug, Clone)]
pub struct Modules {
    pub wireless: WirelessModule,
    pub bluetooth: BluetoothModule,
    pub battery: BatteryModule,
    pub rotation: RotationModule,
    pub settings: SettingsModule,
    pub running_apps: RunningAppsModule,
    pub cpu: CpuModule,
    pub memory: MemoryModule,
    pub sound: SoundModule,
    pub brightness: BrightnessModule,
}

impl Modules {
    pub open spec fn is_default(self) -> bool {
        &&& self.wireless.is_default()
        &&& self.bluetooth.is_default()
        &&& self.battery.is_default()
        &&& self.rotation.is_default()
        &&& self.settings.is_default()
        &&& self.running_apps.is_default()
        &&& self.cpu.is_default()
        &&& self.memory.is_default()
        &&& self.sound.is_default()
        &&& self.brightness.is_default()
    }
}

impl Default for Modules {
    fn default() -> (r: Self)
        ensures
            r.is_default(),
    {
        Modules {
            bluetooth: BluetoothModule::default(),
            wireless: WirelessModule::default(),
            battery: BatteryModule::default(),
            rotation: RotationModule::default(),
            settings: SettingsModule::default(),
            running_apps: RunningAppsModule::default(),
            cpu: CpuModule::default(),
            memory: MemoryModule::default(),
            sound: SoundModule::default(),
            brightness: BrightnessModule::default(),
        }
    }
}

/// The panel's whole `settings.yml`.
pub struct SettingsPanelSettings {
    pub app: AppSettings,
    pub window: WindowSettings,
    pub title: String,
    pub layout: LayoutSettings,
    pub modules: Modules,
    pub fonts: HashMap<String, String>,
}

impl SettingsPanelSettings {
    pub open spec fn is_default(self) -> bool {
        &&& self.app.is_default()
        &&& self.window.is_default()
        &&& self.title@ == "Settings panel"@
        &&& self.layout.is_default()
        &&& self.modules.is_default()
    }
}

impl Default for SettingsPanelSettings {
    fn default() -> (r: Self)
        ensures
            r.is_default(),
    {
        SettingsPanelSettings {
            app: AppSettings::default(),
            window: WindowSettings::default(),
            title: "Settings panel".to_owned(),
            layout: LayoutSettings::default(),
            modules: Modules::default(),
            fonts: HashMap::new(),
        }
    }
}

} // verus!
