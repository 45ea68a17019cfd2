use smog_rs::clock::{cached_timezone, get_formatted_timestamp, get_uptime_string};
use smog_rs::config::is_sending_enabled;
use smog_rs::logging::{
    log_empty_sample, log_message, log_sensor_error, log_weather_data, print_splash_screen, LogLevel, SPLASH_SCREEN,
};
use smog_rs::reading::Reading;
use smog_rs::reboot::{reason_name, RebootLatch, RebootReason};
use smog_rs::wifi::{JoinStep, WifiJoin, LINK_POLL_MS, MAX_ATTEMPTS, MAX_CONNECTED_WAIT_TICKS, RETRY_DELAY_MS};

#[test]
fn sending_switch_reads_exact_true() {
    assert!(is_sending_enabled("true"));
    assert!(!is_sending_enabled("false"));
    assert!(!is_sending_enabled("TRUE"));
    assert!(!is_sending_enabled("true "));
    assert!(!is_sending_enabled(""));
}

#[test]
fn uptime_text_layout() {
    assert_eq!(get_uptime_string(0), "[   0.000s]");
    assert_eq!(get_uptime_string(12_345_678), "[  12.345s]");
    assert_eq!(get_uptime_string(98_765_432_100), "[98765.432s]");
}

#[test]
fn zone_falls_back_to_utc() {
    assert_eq!(cached_timezone("Europe/Madrid"), "Europe/Madrid");
    assert_eq!(cached_timezone("Mars/Olympus"), "UTC");
    assert_eq!(cached_timezone(""), "UTC");
}

#[test]
fn timestamps_in_zone() {
    assert_eq!(get_formatted_timestamp(0, "UTC"), Some("1970-01-01 00:00:00".to_string()));
    assert_eq!(get_formatted_timestamp(1_700_000_000, "UTC"), Some("2023-11-14 22:13:20".to_string()));
    assert_eq!(get_formatted_timestamp(1_700_000_000, "Europe/Madrid"), Some("2023-11-14 23:13:20".to_string()));
    assert_eq!(get_formatted_timestamp(0, "Mars/Olympus"), None);
    assert_eq!(get_formatted_timestamp(i64::MAX, "UTC"), None);
}

#[test]
fn log_lines_carry_prefix_and_colour() {
    let l = log_message(LogLevel::Error, "boom", "2024-01-01 00:00:00", "[   1.000s]");
    assert_eq!(l.level, LogLevel::Error);
    assert_eq!(l.text, "\x1b[31m[   1.000s] [2024-01-01 00:00:00] boom\x1b[0m");
    let l = log_message(LogLevel::Info, "hi", "ts", "up");
    assert_eq!(l.text, "\x1b[38;5;40mup [ts] hi\x1b[0m");
    let l = log_sensor_error("SGP40 Measuring", "Crc", "ts", "up");
    assert_eq!(l.level, LogLevel::Error);
    assert_eq!(l.text, "\x1b[31mup [ts] 🚫 SGP40 Measuring Error: Crc\x1b[0m");
    let l = log_empty_sample("ts", "up");
    assert_eq!(l.level, LogLevel::Warn);
    assert_eq!(l.text, "\x1b[38;5;11mup [ts] \x1b[38;5;11m 〇 BME280 returned empty or partial data\x1b[0m");
    let l = print_splash_screen();
    assert_eq!(l.level, LogLevel::Info);
    assert_eq!(l.text, SPLASH_SCREEN);
}

#[test]
fn weather_lines_use_two_decimals() {
    let mut r = Reading {
        temperature: 2150,
        humidity: 4530,
        pressure: 101325,
        voc: Some(87),
        time_synced: true,
        timestamp_unix_s: 0,
        timezone: "UTC".to_string(),
    };
    let lines = log_weather_data(&r, "ts", "up");
    assert_eq!(lines.len(), 2);
    assert_eq!(
        lines[0].text,
        "\x1b[38;5;40mup [ts] [ 🌡️ Temp 21.50C | 💧Humidity 45.30% | ☁️ Pressure 1013.25 hPa ]\x1b[0m"
    );
    assert_eq!(lines[1].text, "\x1b[38;5;40mup [ts] 🍃 Indoor air quality (VOC) index: 87\x1b[0m");
    r.voc = None;
    r.temperature = -5;
    let lines = log_weather_data(&r, "ts", "up");
    assert_eq!(lines.len(), 1);
    assert!(lines[0].text.contains("Temp -0.05C"));
}

#[test]
fn latch_keeps_latest_request_until_read() {
    let mut latch = RebootLatch::new();
    assert_eq!(latch.take_request(), None);
    latch.request(RebootReason::SensorStuck);
    latch.request(RebootReason::SensorStuck);
    assert_eq!(latch.take_request(), Some(RebootReason::SensorStuck));
    assert_eq!(latch.take_request(), None);
    assert_eq!(reason_name(RebootReason::SensorStuck), "SensorStuck");
}

#[test]
fn wifi_join_polls_then_retries_then_gives_up() {
    let mut j = WifiJoin::new();
    assert_eq!(j.start_attempt(), 1);
    assert_eq!(j.on_connect_call(true), JoinStep::PollLink(0));
    for _ in 0..=MAX_CONNECTED_WAIT_TICKS {
        assert_eq!(j.on_link_status(false), JoinStep::PollLink(LINK_POLL_MS));
    }
    assert_eq!(j.on_link_status(false), JoinStep::RetryAfter(RETRY_DELAY_MS));
    assert_eq!(j.start_attempt(), 2);
    assert_eq!(j.on_connect_call(true), JoinStep::PollLink(0));
    assert_eq!(j.on_link_status(false), JoinStep::PollLink(LINK_POLL_MS));
    assert_eq!(j.on_link_status(true), JoinStep::Joined);

    let mut j = WifiJoin::new();
    for n in 1..MAX_ATTEMPTS {
        assert_eq!(j.start_attempt(), n);
        assert_eq!(j.on_connect_call(false), JoinStep::RetryAfter(RETRY_DELAY_MS));
    }
    assert_eq!(j.start_attempt(), MAX_ATTEMPTS);
    assert_eq!(j.on_connect_call(false), JoinStep::GiveUp);
}
