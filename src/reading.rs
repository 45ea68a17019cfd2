//! The value produced by one acquisition cycle.
use vstd::prelude::*;
use vstd::string::*;

verus! {

/// One validated measurement, stamped with the time it was taken.
///
/// Readings are held in fixed point: `temperature` in hundredths of a degree
/// Celsius, `humidity` in hundredths of a percent of relative humidity and
/// `pressure` in hundredths of a hectopascal (which is the pressure in pascals).
pub struct Reading {
    pub temperature: i32,
    pub humidity: i32,
    pub pressure: i32,
    pub voc: Option<u16>,
    pub time_synced: bool,
    pub timestamp_unix_s: i64,
    pub timezone: String,
}


/// What one read of the primary sensor returned, in the units of [`Reading`]
/// (the pressure in pascals). A field is absent when the sensor did not
/// provide it.
pub struct Sample {
    pub temperature: Option<i32>,
    pub humidity: Option<i32>,
    pub pressure: Option<i32>,
}

/// Temperature, humidity and pressure of one complete sample.
#[derive(Clone, Copy, PartialEq, Eq, Structural)]
pub struct Triple {
    pub temperature: i32,
    pub humidity: i32,
    pub pressure: i32,
}

/// The triple of a sample, present only when all three values are.
pub open spec fn complete(s: Sample) -> Option<Triple> {
    match (s.temperature, s.humidity, s.pressure) {
        (Some(t), Some(h), Some(p)) => Some(Triple { temperature: t, humidity: h, pressure: p }),
        _ => None,
    }
}

/// The triple of `sample` when all three values are present.
pub fn complete_triple(sample: &Sample) -> (r: Option<Triple>)
    ensures
        r == complete(*sample),
{
    match (sample.temperature, sample.humidity, sample.pressure) {
        (Some(t), Some(h), Some(p)) => Some(Triple { temperature: t, humidity: h, pressure: p }),
        _ => None,
    }
}

/// Lowest and highest humidity, in percent, that the secondary sensor takes
/// as compensation input.
pub const COMP_HUMIDITY_MIN: i64 = 0;
pub const COMP_HUMIDITY_MAX: i64 = 100;

/// Lowest and highest temperature, in degrees Celsius, that the secondary
/// sensor takes as compensation input.
pub const COMP_TEMPERATURE_MIN: i64 = -40;
pub const COMP_TEMPERATURE_MAX: i64 = 85;

/// A value in hundredths rounded to the nearest whole unit, halves away from zero.
pub open spec fn round_hundredths(c: int) -> int {
    if c >= 0 {
        (c + 50) / 100
    } else {
        -((-c + 50) / 100)
    }
}

pub open spec fn clamp(v: int, lo: int, hi: int) -> int {
    if v < lo {
        lo
    } else if v > hi {
        hi
    } else {
        v
    }
}

/// Humidity and temperature handed to the secondary sensor to compensate its
/// measurement, in whole percent and whole degrees.
#[derive(Clone, Copy, PartialEq, Eq, Structural)]
pub struct Compensation {
    pub humidity: u16,
    pub temperature: i16,
}

fn round_to_units(c: i32) -> (r: i64)
    ensures
        r == round_hundredths(c as int),
{
    let c = c as i64;
    if c >= 0 {
        (c + 50) / 100
    } else {
        -((-c + 50) / 100)
    }
}

/// The compensation inputs for a sample: humidity and temperature rounded to
/// whole units and clamped to the ranges the secondary sensor accepts.
pub fn compensation_for(t: &Triple) -> (r: Compensation)
    ensures
        r.humidity as int == clamp(round_hundredths(t.humidity as int), COMP_HUMIDITY_MIN as int, COMP_HUMIDITY_MAX as int),
        r.temperature as int == clamp(round_hundredths(t.temperature as int), COMP_TEMPERATURE_MIN as int, COMP_TEMPERATURE_MAX as int),
{
    let h = round_to_units(t.humidity);
    let h = if h < COMP_HUMIDITY_MIN { COMP_HUMIDITY_MIN } else if h > COMP_HUMIDITY_MAX { COMP_HUMIDITY_MAX } else { h };
    let te = round_to_units(t.temperature);
    let te = if te < COMP_TEMPERATURE_MIN {
        COMP_TEMPERATURE_MIN
    } else if te > COMP_TEMPERATURE_MAX {
        COMP_TEMPERATURE_MAX
    } else {
        te
    };
    Compensation { humidity: h as u16, temperature: te as i16 }
}

/// Whether `r` is the reading that stamps triple `t` with the other values.
pub open spec fn reading_matches(
    r: Reading,
    t: Triple,
    voc: Option<u16>,
    time_synced: bool,
    timestamp_unix_s: i64,
    timezone: Seq<char>,
) -> bool {
    &&& r.temperature == t.temperature
    &&& r.humidity == t.humidity
    &&& r.pressure == t.pressure
    &&& r.voc == voc
    &&& r.time_synced == time_synced
    &&& r.timestamp_unix_s == timestamp_unix_s
    &&& r.timezone@ == timezone
}

/// Builds the reading of one cycle. A reading exists exactly when the sample
/// holds all of temperature, humidity and pressure; the air-quality value,
/// absent when its measurement failed, never decides that.
pub fn read_sensor_data(
    sample: &Sample,
    voc: Option<u16>,
    time_synced: bool,
    timestamp_unix_s: i64,
    timezone: &str,
) -> (r: Option<Reading>)
    ensures
        r is Some <==> complete(*sample) is Some,
        r is Some ==> reading_matches(r->0, complete(*sample)->0, voc, time_synced, timestamp_unix_s, timezone@),
{
    match complete_triple(sample) {
        Some(t) => Some(
            Reading {
                temperature: t.temperature,
                humidity: t.humidity,
                pressure: t.pressure,
                voc,
                time_synced,
                timestamp_unix_s,
                timezone: String::from_str(timezone),
            },
        ),
        None => None,
    }
}

} // verus!
