use chrono::{Duration, NaiveTime, TimeZone, Utc};
use screamd::errors::ConfigError;
use screamd::reboot::{parse_reboot_time, pause_until, reboot_policy, select_time, RebootPolicy};
use screamd::service_core::Config;
use screamd::time::{Instant, Pause, TimeOfDay};

const DAY: i64 = 86_400;

fn at(secs: i64, nanos: u32) -> Instant {
    Instant::from_unix(secs, nanos).unwrap()
}

fn config(debug: bool, reboot_time: Option<&str>) -> Config {
    Config {
        debug,
        warn_message: "X".to_string(),
        warn_duration_days: 0,
        reboot_duration_days: 1,
        warn_interval_seconds: 1,
        reboot_time: reboot_time.map(|t| t.to_string()),
    }
}

#[test]
fn a_reboot_time_with_seconds_is_read() {
    assert_eq!(parse_reboot_time("23:56:04"), Some(TimeOfDay::from_parts(86_164, 0)));
    assert_eq!(parse_reboot_time("00:00:00"), Some(TimeOfDay::from_parts(0, 0)));
    assert_eq!(parse_reboot_time("12:00:01"), Some(TimeOfDay::from_parts(43_201, 0)));
}

#[test]
fn a_reboot_time_without_seconds_is_read() {
    assert_eq!(parse_reboot_time("12:00"), Some(TimeOfDay::from_parts(43_200, 0)));
    assert_eq!(parse_reboot_time("7:15"), Some(TimeOfDay::from_parts(26_100, 0)));
    assert_eq!(parse_reboot_time("23:59"), Some(TimeOfDay::from_parts(86_340, 0)));
}

#[test]
fn a_text_that_is_no_time_of_day_is_not_read() {
    assert_eq!(parse_reboot_time(""), None);
    assert_eq!(parse_reboot_time("noon"), None);
    assert_eq!(parse_reboot_time("24:00"), None);
    assert_eq!(parse_reboot_time("24:00:00"), None);
    assert_eq!(parse_reboot_time("12:60"), None);
    assert_eq!(parse_reboot_time("12"), None);
    assert_eq!(parse_reboot_time("12:00:00:00"), None);
    assert_eq!(parse_reboot_time("%H:%M"), None);
}

#[test]
fn a_leap_second_at_the_end_of_the_day_is_midnight() {
    assert_eq!(parse_reboot_time("23:59:60"), Some(TimeOfDay::from_parts(0, 0)));
    assert_eq!(TimeOfDay::from_parts(86_399, 1_000_000_000), TimeOfDay::from_parts(0, 0));
    assert_eq!(parse_reboot_time("08:59:60"), Some(TimeOfDay::from_parts(32_400, 0)));
}

#[test]
fn the_reading_with_seconds_is_preferred() {
    assert_eq!(select_time(Some((10, 0)), Some((20, 0))), Some(TimeOfDay::from_parts(10, 0)));
    assert_eq!(select_time(Some((10, 5)), None), Some(TimeOfDay::from_parts(10, 5)));
    assert_eq!(select_time(None, Some((20, 0))), Some(TimeOfDay::from_parts(20, 0)));
    assert_eq!(select_time(None, None), None);
}

#[test]
fn a_time_of_day_wraps_into_one_day() {
    let t = TimeOfDay::from_parts(86_400 + 5, 7);
    assert_eq!(t.nanos_from_midnight(), 5_000_000_007);
    assert_eq!(t, TimeOfDay::from_parts(5, 7));
    assert_eq!(TimeOfDay::from_parts(86_399, 999_999_999).nanos_from_midnight(), 86_399_999_999_999);
    let t = TimeOfDay::from_parts(u32::MAX, u32::MAX);
    assert_eq!(t.nanos_from_midnight(), (4_294_967_295u64 * 1_000_000_000 + 4_294_967_295) % 86_400_000_000_000);
}

#[test]
fn debug_mode_reboots_at_once() {
    assert_eq!(reboot_policy(&config(true, Some("12:00"))), Ok(RebootPolicy::Immediate));
    assert_eq!(reboot_policy(&config(true, Some("garbage"))), Ok(RebootPolicy::Immediate));
    assert_eq!(reboot_policy(&config(true, None)), Ok(RebootPolicy::Immediate));
}

#[test]
fn without_a_reboot_time_the_reboot_is_immediate() {
    assert_eq!(reboot_policy(&config(false, None)), Ok(RebootPolicy::Immediate));
}

#[test]
fn a_reboot_time_selects_the_daily_policy() {
    assert_eq!(
        reboot_policy(&config(false, Some("12:00"))),
        Ok(RebootPolicy::Daily(TimeOfDay::from_parts(43_200, 0)))
    );
    assert_eq!(
        reboot_policy(&config(false, Some("03:30:15"))),
        Ok(RebootPolicy::Daily(TimeOfDay::from_parts(12_615, 0)))
    );
}

#[test]
fn an_unreadable_reboot_time_is_a_configuration_error() {
    assert_eq!(
        reboot_policy(&config(false, Some("half past"))),
        Err(ConfigError::InvalidRebootTime("half past".to_string()))
    );
    assert_eq!(
        reboot_policy(&config(false, Some(""))),
        Err(ConfigError::InvalidRebootTime(String::new()))
    );
}

#[test]
fn the_pause_lasts_until_the_time_later_today() {
    let now = at(20_000 * DAY + 3_600, 0);
    assert_eq!(
        pause_until(now, TimeOfDay::from_parts(3_601, 0)),
        Pause { secs: 1, nanos: 0 }
    );
    assert_eq!(
        pause_until(now, TimeOfDay::from_parts(43_200, 0)),
        Pause { secs: 39_600, nanos: 0 }
    );
    assert_eq!(
        pause_until(at(20_000 * DAY + 3_600, 250_000_000), TimeOfDay::from_parts(3_601, 0)),
        Pause { secs: 0, nanos: 750_000_000 }
    );
}

#[test]
fn a_time_that_is_now_or_past_waits_for_tomorrow() {
    let now = at(20_000 * DAY + 3_600, 0);
    assert_eq!(
        pause_until(now, TimeOfDay::from_parts(3_600, 0)),
        Pause { secs: 86_400, nanos: 0 }
    );
    assert_eq!(
        pause_until(now, TimeOfDay::from_parts(3_599, 0)),
        Pause { secs: 86_399, nanos: 0 }
    );
    assert_eq!(
        pause_until(now, TimeOfDay::from_parts(0, 0)),
        Pause { secs: 82_800, nanos: 0 }
    );
    assert_eq!(
        pause_until(at(20_000 * DAY + 3_600, 1), TimeOfDay::from_parts(3_600, 0)),
        Pause { secs: 86_399, nanos: 999_999_999 }
    );
}

#[test]
fn the_pause_is_right_before_the_epoch_too() {
    let now = at(-DAY - 1, 0);
    assert_eq!(
        pause_until(now, TimeOfDay::from_parts(0, 0)),
        Pause { secs: 1, nanos: 0 }
    );
    assert_eq!(
        pause_until(now, TimeOfDay::from_parts(86_399, 0)),
        Pause { secs: 86_400, nanos: 0 }
    );
    assert_eq!(
        pause_until(at(i64::MIN, 0), TimeOfDay::from_parts(0, 0)),
        Pause { secs: 55_808, nanos: 0 }
    );
    assert_eq!(
        pause_until(at(i64::MAX, 999_999_999), TimeOfDay::from_parts(0, 0)),
        Pause { secs: 30_592, nanos: 1 }
    );
}

#[test]
fn pauses_are_split_into_seconds_and_nanoseconds() {
    assert_eq!(Pause::from_secs(10), Pause { secs: 10, nanos: 0 });
    assert_eq!(Pause::from_nanos(1_500_000_000), Pause { secs: 1, nanos: 500_000_000 });
    assert_eq!(Pause::from_nanos(0), Pause { secs: 0, nanos: 0 });
    assert_eq!(
        Pause::from_nanos(u64::MAX),
        Pause { secs: 18_446_744_073, nanos: 709_551_615 }
    );
}

#[test]
fn the_pause_agrees_with_the_calendar() {
    let instants = [
        (0, 0),
        (1_718_000_000, 0),
        (1_718_000_000, 123_456_789),
        (1_704_067_199, 999_999_999),
        (1_704_067_200, 0),
        (-1, 999_999_999),
        (-86_401, 5),
        (4_102_444_800, 1),
    ];
    let times = [0, 1, 3_599, 43_200, 86_399];
    for (secs, nanos) in instants {
        for seconds in times {
            let now = Utc.timestamp_opt(secs, nanos).unwrap();
            let time = NaiveTime::from_num_seconds_from_midnight_opt(seconds, 0).unwrap();
            let mut next = Utc.from_local_datetime(&now.date_naive().and_time(time)).unwrap();
            if now >= next {
                next += Duration::days(1);
            }
            let sleep = (next - now).to_std().unwrap();
            let pause = pause_until(at(secs, nanos), TimeOfDay::from_parts(seconds, 0));
            assert_eq!(std::time::Duration::new(pause.secs, pause.nanos), sleep);
        }
    }
}
