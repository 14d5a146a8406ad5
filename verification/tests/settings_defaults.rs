//! The configuration defaults of the shell surfaces.

use mechanix_wireless::components::{AuthSubmit, Prompt};
use mechanix_wireless::{camera_config, dock_settings, launcher_settings, notification_settings,
    panel_settings};

#[test]
fn launcher_modules_default() {
    let modules = launcher_settings::Modules::default();
    assert_eq!(modules.clock.format, "%I:%M %p");
    assert_eq!(modules.apps.len(), 5);
    assert_eq!(modules.apps[0].app_id, "mecha-connect");
    assert_eq!(modules.apps[0].name, "Mecha Connect");
    assert_eq!(modules.apps[4].app_id, "mecha-gaming");
    assert_eq!(modules.apps[1].run_command[0], "sh");
    assert_eq!(modules.apps[1].run_command[1], "-c");
    assert_eq!(
        modules.apps[1].run_command[2],
        "chromium --user-agent='Mozilla/5.0 (Linux; Android 14) AppleWebKit/537.36 \
         (KHTML, like Gecko) Chrome/120.0.6099.43 Mobile Safari/537.36' \
         --ozone-platform=wayland https://mecha-voice-ai-demo.vercel.app/"
    );
    assert_eq!(
        modules.apps[4].run_command[2],
        "chromium --user-agent='Mozilla/5.0 (Linux; Android 14) AppleWebKit/537.36 \
         (KHTML, like Gecko) Chrome/120.0.6099.43 Mobile Safari/537.36' \
         --ozone-platform=wayland https://guccigrip.gucci.com/"
    );
    assert_eq!(
        modules.apps[0].icon.as_deref(),
        Some("/usr/share/mechanix/shell/launcher/assets/mecha_connect_icon.png")
    );
    assert_eq!(modules.rotation.title, "");
    assert_eq!(modules.lock.min_time_long_press, 1);
    assert_eq!(
        modules.running_apps.exclude,
        vec!["mechanix.shell.launcher".to_string()]
    );
    assert_eq!(
        modules.terminal.run_command,
        vec![
            "sh".to_string(),
            "-c".to_string(),
            "alacritty --working-directory=/home/mecha".to_string()
        ]
    );
}

#[test]
fn launcher_window_and_layout_defaults() {
    let window = launcher_settings::WindowSettings::default();
    assert_eq!(window.size, (480, 440));
    assert_eq!(window.position, (0, 0));
    assert!(window.min_size.is_none());
    assert!(window.visible);
    assert!(!window.transparent);

    let layout = launcher_settings::LayoutSettings::default();
    assert!(layout.left.is_empty());
    assert!(layout.center.is_empty());
    assert!(layout.right.is_empty());

    let app = launcher_settings::AppSettings::default();
    assert_eq!(app.id.as_deref(), Some("Launcher"));
    assert!(app.try_opengles_first);
    assert!(!app.antialiasing);
}

#[test]
fn panel_defaults() {
    let settings = panel_settings::SettingsPanelSettings::default();
    assert_eq!(settings.title, "Settings panel");
    assert_eq!(settings.app.id.as_deref(), Some("settings-panel"));
    assert_eq!(settings.window.size, (480, 440));
    assert!(settings.fonts.is_empty());

    let grid = settings.layout.grid;
    assert_eq!(grid.len(), 10);
    assert_eq!(grid[0], "Wireless");
    assert_eq!(grid[1], "Bluetooth");
    assert_eq!(grid[9], "Brightness");

    assert_eq!(settings.modules.wireless.title, "Wireless");
    assert_eq!(settings.modules.bluetooth.title, "Bluetooth");
    assert_eq!(settings.modules.battery.title, "Battery");
    assert_eq!(settings.modules.rotation.title, "Auto Rotate");
    assert_eq!(settings.modules.settings.title, "Settings");
    assert_eq!(
        settings.modules.settings.run_command,
        vec![
            "sh".to_string(),
            "-c".to_string(),
            "mecha-settings -s /usr/share/mecha/settings/settings.yml".to_string()
        ]
    );
    assert_eq!(settings.modules.running_apps.title, "Running Apps");
    assert_eq!(settings.modules.cpu.title, "CPU");
    assert_eq!(settings.modules.memory.title, "Memory");
    assert_eq!(settings.modules.sound.title, "Sound");
    assert_eq!(settings.modules.brightness.title, "Brightness");
}

#[test]
fn camera_defaults() {
    let settings = camera_config::MainSettings::default();
    assert_eq!(settings.title, "Camera");
    assert_eq!(settings.app.id.as_deref(), Some("org.mechanix.camera"));
    assert_eq!(settings.window.size, (480, 440));
    assert_eq!(settings.modules.back_icon, "");
    assert_eq!(settings.modules.settings_icon, "");
    assert!(settings.fonts.paths.is_empty());
}

#[test]
fn dock_defaults() {
    let settings = dock_settings::AppDockSettings::default();
    assert_eq!(settings.title, "App Dock");
    assert_eq!(settings.app.id.as_deref(), Some("app-dock"));
    assert_eq!(settings.window.size.default, (1024, 768));
    assert_eq!(settings.window.size.minimized, (1024, 768));
    assert_eq!(settings.window.size.maximized, (1024, 768));
    assert_eq!(settings.window.size.other, (1024, 768));
    assert!(settings.modules.pinned_apps.is_empty());
    assert!(settings.modules.home.icon.is_none());
}

#[test]
fn notification_defaults() {
    let settings = notification_settings::NotificationSettings::default();
    assert_eq!(settings.title, "notification");
    assert_eq!(settings.app.id.as_deref(), Some("notification"));
    assert_eq!(settings.window.size, (448, 84));
    assert!(settings.icons.bell.is_some());
}

#[test]
fn screen_state_constructors() {
    let screen = mechanix_wireless::components::NetworkingScreen::new(true, "HomeNet".to_string());
    let state = screen.state.unwrap();
    assert!(state.status);
    assert_eq!(state.name, "HomeNet");
    assert!(!state.more_clicked);

    let settings = mechanix_wireless::components::NetworkSettings::new();
    let state = settings.state.unwrap();
    assert!(!state.is_model_open);
    assert_eq!(state.mac, "");

    let _sound = mechanix_wireless::sound::Sound::new();
}

#[test]
fn wireless_info_default_is_empty() {
    let info = mechanix_wireless::wireless_types::WirelessInfoResponse::default();
    assert_eq!(info.mac, "");
    assert_eq!(info.frequency, "");
    assert_eq!(info.signal, "");
    assert_eq!(info.flags, "");
    assert_eq!(info.name, "");
}

#[test]
fn greeter_auth_messages_carry_their_payload() {
    let prompt = Prompt::Password {
        message: "Password:".to_string(),
    };
    match prompt {
        Prompt::Password { message } => assert_eq!(message, "Password:"),
        Prompt::Captcha { .. } => panic!("wrong prompt"),
    }

    let submit = AuthSubmit::Username("mecha".to_string());
    assert!(matches!(submit, AuthSubmit::Username(ref u) if u == "mecha"));
    assert!(matches!(AuthSubmit::Cancel, AuthSubmit::Cancel));
}
