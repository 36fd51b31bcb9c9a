use screamd::errors::{ConfigError, OsError, RecordFault, ServiceError};
use screamd::linux_control::{LinuxControl, LOGIN_BANNER_PATH, SHELL_BANNER_PATH};
use screamd::service_core::Config;
use screamd::text::{decimal_i64, decimal_u64, truth_text};

fn config(warn: i64, reboot: i64, interval: u64) -> Config {
    Config {
        debug: false,
        warn_message: "Leave now".to_string(),
        warn_duration_days: warn,
        reboot_duration_days: reboot,
        warn_interval_seconds: interval,
        reboot_time: Some("12:00".to_string()),
    }
}

#[test]
fn usable_settings_pass() {
    assert_eq!(config(0, 0, 1).validate(), Ok(()));
    assert_eq!(config(1, 1, 10).validate(), Ok(()));
    assert_eq!(config(i64::MAX, i64::MAX, u64::MAX).validate(), Ok(()));
}

#[test]
fn a_negative_warning_length_is_refused_first() {
    assert_eq!(config(-1, 1, 1).validate(), Err(ConfigError::NegativeWarnDuration(-1)));
    assert_eq!(config(-7, -3, 0).validate(), Err(ConfigError::NegativeWarnDuration(-7)));
    assert_eq!(
        config(i64::MIN, 0, 1).validate(),
        Err(ConfigError::NegativeWarnDuration(i64::MIN))
    );
}

#[test]
fn a_negative_reboot_length_is_refused_next() {
    assert_eq!(config(1, -1, 1).validate(), Err(ConfigError::NegativeRebootDuration(-1)));
    assert_eq!(config(0, -3, 0).validate(), Err(ConfigError::NegativeRebootDuration(-3)));
}

#[test]
fn a_warning_interval_of_zero_is_refused() {
    assert_eq!(config(1, 1, 0).validate(), Err(ConfigError::ZeroWarnInterval));
}

#[test]
fn the_settings_are_written_out_line_by_line() {
    assert_eq!(
        config(3, 4, 10).describe(),
        "Debug: false\n  Warn Message: Leave now\n  Warn Duration: 3 days\n  Reboot Duration: 4 days\n  Warn Interval: 10 seconds\n  Reboot Time: 12:00"
    );
    let mut cfg = config(-3, 0, 0);
    cfg.debug = true;
    cfg.reboot_time = None;
    cfg.warn_message = String::new();
    assert_eq!(
        cfg.describe(),
        "Debug: true\n  Warn Message: \n  Warn Duration: -3 days\n  Reboot Duration: 0 days\n  Warn Interval: 0 seconds\n  Reboot Time: none"
    );
}

#[test]
fn numbers_are_written_in_decimal() {
    assert_eq!(decimal_u64(0), "0");
    assert_eq!(decimal_u64(7), "7");
    assert_eq!(decimal_u64(10), "10");
    assert_eq!(decimal_u64(1_234_567_890), "1234567890");
    assert_eq!(decimal_u64(u64::MAX), "18446744073709551615");
    assert_eq!(decimal_i64(0), "0");
    assert_eq!(decimal_i64(-1), "-1");
    assert_eq!(decimal_i64(305), "305");
    assert_eq!(decimal_i64(i64::MAX), "9223372036854775807");
    assert_eq!(decimal_i64(i64::MIN), "-9223372036854775808");
    assert_eq!(truth_text(true), "true");
    assert_eq!(truth_text(false), "false");
}

#[test]
fn errors_can_be_copied() {
    let errors = [
        ServiceError::Config(ConfigError::NegativeWarnDuration(-1)),
        ServiceError::Config(ConfigError::NegativeRebootDuration(-2)),
        ServiceError::Config(ConfigError::ZeroWarnInterval),
        ServiceError::Config(ConfigError::InvalidRebootTime("x".to_string())),
        ServiceError::StateCorrupt(RecordFault::NotAString),
        ServiceError::StateCorrupt(RecordFault::NotATimestamp),
        ServiceError::StateWriteError,
        ServiceError::Banner(OsError { message: "a".to_string() }),
        ServiceError::RebootAction(OsError { message: "b".to_string() }),
        ServiceError::ShutdownAction(OsError { message: "c".to_string() }),
    ];
    for error in errors.iter() {
        assert_eq!(&error.duplicate(), error);
    }
    assert_eq!(
        OsError { message: "m".to_string() }.duplicate(),
        OsError { message: "m".to_string() }
    );
    assert_eq!(ConfigError::ZeroWarnInterval.duplicate(), ConfigError::ZeroWarnInterval);
}

#[test]
fn the_login_banner_settings_switch_the_banner_on_or_off() {
    let linux = LinuxControl::new();
    assert_eq!(linux, LinuxControl {});
    assert_eq!(
        linux.login_banner_settings(Some("Leave now")),
        "[org/gnome/login-screen]\nbanner-message-enable=true\nbanner-message-text='Leave now'\n"
    );
    assert_eq!(
        linux.login_banner_settings(Some("it's a \\ test")),
        "[org/gnome/login-screen]\nbanner-message-enable=true\nbanner-message-text='it's a \\ test'\n"
    );
    assert_eq!(
        linux.login_banner_settings(None),
        "[org/gnome/login-screen]\nbanner-message-enable=false\n"
    );
    assert_eq!(LOGIN_BANNER_PATH, "/etc/dconf/db/gdm.d/01-warn-message");
}

#[test]
fn the_shell_banner_script_echoes_the_message() {
    let linux = LinuxControl::new();
    assert_eq!(linux.shell_banner_script("Leave now"), "#!/bin/sh\necho 'Leave now'");
    assert_eq!(linux.shell_banner_script(""), "#!/bin/sh\necho ''");
    assert_eq!(linux.shell_banner_script("it's"), "#!/bin/sh\necho 'it'''s'");
    assert_eq!(linux.shell_banner_script("''"), "#!/bin/sh\necho ''''''''");
    assert_eq!(linux.shell_banner_script("h\u{e9}llo '\u{1f600}'"), "#!/bin/sh\necho 'h\u{e9}llo '''\u{1f600}''''");
    assert_eq!(SHELL_BANNER_PATH, "/etc/profile.d/screamd-banner.sh");
}
