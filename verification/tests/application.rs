use rusty_battery::application::UserSettings;
use rusty_battery::cli::{Command, DEFAULT_REFRESH_SECS, DEFAULT_THRESHOLD};
use rusty_battery::common::Describe;
use rusty_battery::device::Type;

#[test]
fn test_user_settings_display() {
    let settings = UserSettings {
        verbose: 0,
        threshold: 0,
    };

    let display = settings.describe();

    assert_eq!(display, "verbose: 0, threshold: 0");
}

#[test]
fn test_command_lists() {
    let notify = Command::Notify {
        threshold: DEFAULT_THRESHOLD,
        model: None,
        refresh_secs: DEFAULT_REFRESH_SECS,
        summary: "s".into(),
        body: "b".into(),
        kde_connect_names: None,
        disable_desktop: false,
    };

    assert_eq!(notify.lists(), None);
    assert_eq!(Command::Batteries.lists(), Some(Type::Battery));
    assert_eq!(Command::KDEConnectDevices.lists(), Some(Type::KDEConnect));
    assert_eq!(DEFAULT_THRESHOLD, 80);
    assert_eq!(DEFAULT_REFRESH_SECS, 30);
}
