//! The lines the station logs. They are built here and emitted by the
//! caller's logger at the line's level.
use vstd::prelude::*;
use vstd::string::*;
use crate::reading::Reading;
use crate::text::{decimal, push_decimal, push_zero_padded, zero_padded};

verus! {

#[derive(Clone, Copy, PartialEq, Eq, Structural, Debug)]
pub enum LogLevel {
    Info,
    Warn,
    Error,
}

/// One line to log, with its level.
pub struct LogLine {
    pub level: LogLevel,
    pub text: String,
}

pub const SPLASH_SCREEN: &'static str = r#"
  ____                              ____      
 / ___| _ __ ___   ___   __ _      |  _ \ ___ 
 \___ \| '_ ` _ \ / _ \ / _` |_____| |_) / __|
  ___) | | | | | | (_) | (_| |_____|  _ <\__ \
 |____/|_| |_| |_|\___/ \__, |     |_| \_\___/
                        |___/                         "#;

/// What the station says when the primary sensor gives an incomplete sample.
pub const EMPTY_SAMPLE_MSG: &'static str = "\x1b[38;5;11m 〇 BME280 returned empty or partial data";

pub const COLOUR_ERROR: &'static str = "\x1b[31m";
pub const COLOUR_WARN: &'static str = "\x1b[38;5;11m";
pub const COLOUR_INFO: &'static str = "\x1b[38;5;40m";
pub const COLOUR_RESET: &'static str = "\x1b[0m";

pub open spec fn colour_of(level: LogLevel) -> Seq<char> {
    match level {
        LogLevel::Error => COLOUR_ERROR@,
        LogLevel::Warn => COLOUR_WARN@,
        LogLevel::Info => COLOUR_INFO@,
    }
}

/// The text of a logged message: coloured by level, prefixed with the uptime
/// and the wall-clock time in brackets.
pub open spec fn message_text(level: LogLevel, message: Seq<char>, custom_ts: Seq<char>, uptime: Seq<char>) -> Seq<char> {
    colour_of(level) + uptime + " ["@ + custom_ts + "] "@ + message + COLOUR_RESET@
}

/// The line that shows the splash screen at start-up.
pub fn print_splash_screen() -> (line: LogLine)
    ensures
        line.level == LogLevel::Info,
        line.text@ == SPLASH_SCREEN@,
{
    LogLine { level: LogLevel::Info, text: String::from_str(SPLASH_SCREEN) }
}

/// A message at `level`, prefixed with the uptime and the wall-clock time.
pub fn log_message(level: LogLevel, message: &str, custom_ts: &str, uptime: &str) -> (line: LogLine)
    ensures
        line.level == level,
        line.text@ == message_text(level, message@, custom_ts@, uptime@),
{
    let colour = match level {
        LogLevel::Error => COLOUR_ERROR,
        LogLevel::Warn => COLOUR_WARN,
        LogLevel::Info => COLOUR_INFO,
    };
    let mut text = String::from_str(colour);
    text.append(uptime);
    text.append(" [");
    text.append(custom_ts);
    text.append("] ");
    text.append(message);
    text.append(COLOUR_RESET);
    assert(text@ =~= message_text(level, message@, custom_ts@, uptime@));
    LogLine { level, text }
}

pub open spec fn sensor_error_text(sensor_name: Seq<char>, error: Seq<char>) -> Seq<char> {
    "🚫 "@ + sensor_name + " Error: "@ + error
}

/// The error line for a failed sensor operation; `error` is the error's
/// debug text.
pub fn log_sensor_error(sensor_name: &str, error: &str, custom_ts: &str, uptime: &str) -> (line: LogLine)
    ensures
        line.level == LogLevel::Error,
        line.text@ == message_text(LogLevel::Error, sensor_error_text(sensor_name@, error@), custom_ts@, uptime@),
{
    let mut message = String::from_str("🚫 ");
    message.append(sensor_name);
    message.append(" Error: ");
    message.append(error);
    assert(message@ =~= sensor_error_text(sensor_name@, error@));
    log_message(LogLevel::Error, message.as_str(), custom_ts, uptime)
}

/// The warning for a sample that lacks temperature, humidity or pressure.
pub fn log_empty_sample(custom_ts: &str, uptime: &str) -> (line: LogLine)
    ensures
        line.level == LogLevel::Warn,
        line.text@ == message_text(LogLevel::Warn, EMPTY_SAMPLE_MSG@, custom_ts@, uptime@),
{
    log_message(LogLevel::Warn, EMPTY_SAMPLE_MSG, custom_ts, uptime)
}

/// A value in hundredths with exactly two decimals: 2150 is `21.50`, -5 is `-0.05`.
pub open spec fn two_decimals(v: int) -> Seq<char> {
    let a = if v < 0 { -v } else { v };
    let sign = if v < 0 { seq!['-'] } else { Seq::<char>::empty() };
    sign + decimal((a / 100) as nat) + seq!['.'] + zero_padded((a % 100) as nat, 2)
}

fn push_two_decimals(s: &mut String, v: i32)
    ensures
        final(s)@ == old(s)@ + two_decimals(v as int),
{
    let wide = v as i64;
    let a: u64 = if wide < 0 { (-wide) as u64 } else { wide as u64 };
    if wide < 0 {
        s.append("-");
        proof { reveal_strlit("-"); }
    }
    push_decimal(s, a / 100);
    s.append(".");
    proof { reveal_strlit("."); }
    push_zero_padded(s, a % 100, 2);
    assert(s@ =~= old(s)@ + two_decimals(v as int));
}

pub open spec fn environment_text(r: Reading) -> Seq<char> {
    "[ 🌡️ Temp "@ + two_decimals(r.temperature as int) + "C | 💧Humidity "@ + two_decimals(r.humidity as int)
        + "% | ☁️ Pressure "@ + two_decimals(r.pressure as int) + " hPa ]"@
}

pub open spec fn voc_text(voc: u16) -> Seq<char> {
    "🍃 Indoor air quality (VOC) index: "@ + decimal(voc as nat)
}

/// The info lines for a reading: temperature, humidity and pressure with two
/// decimals, then the air-quality index when there is one.
pub fn log_weather_data(r: &Reading, custom_ts: &str, uptime: &str) -> (lines: Vec<LogLine>)
    ensures
        lines.len() == if r.voc is Some { 2int } else { 1int },
        lines[0].level == LogLevel::Info,
        lines[0].text@ == message_text(LogLevel::Info, environment_text(*r), custom_ts@, uptime@),
        r.voc is Some ==> lines[1].level == LogLevel::Info
            && lines[1].text@ == message_text(LogLevel::Info, voc_text(r.voc->0), custom_ts@, uptime@),
{
    let mut env = String::from_str("[ 🌡️ Temp ");
    push_two_decimals(&mut env, r.temperature);
    env.append("C | 💧Humidity ");
    push_two_decimals(&mut env, r.humidity);
    env.append("% | ☁️ Pressure ");
    push_two_decimals(&mut env, r.pressure);
    env.append(" hPa ]");
    assert(env@ =~= environment_text(*r));
    let mut lines: Vec<LogLine> = Vec::new();
    lines.push(log_message(LogLevel::Info, env.as_str(), custom_ts, uptime));
    match r.voc {
        Some(v) => {
            let mut msg = String::from_str("🍃 Indoor air quality (VOC) index: ");
            push_decimal(&mut msg, v as u64);
            assert(msg@ =~= voc_text(v));
            lines.push(log_message(LogLevel::Info, msg.as_str(), custom_ts, uptime));
        },
        None => {},
    }
    lines
}

} // verus!
