//! Time as the station shows it: wall-clock text in the configured zone and
//! the uptime since boot.
use vstd::prelude::*;
use vstd::string::*;
use chrono::DateTime;
use chrono_tz::Tz;
use crate::text::{push_space_padded, push_zero_padded, space_padded, zero_padded};

verus! {

/// Layout of wall-clock timestamps.
pub const TIMESTAMP_PATTERN: &'static str = "%Y-%m-%d %H:%M:%S";

/// Zone used when the configured identifier names no known zone.
pub const FALLBACK_ZONE: &'static str = "UTC";

/// Whether the time-zone database knows `name` as a zone identifier.
pub uninterp spec fn tz_known(name: Seq<char>) -> bool;

/// Relies on chrono-tz's `Tz::from_str`: an exact look-up of the identifier
/// in the built-in zone table, which depends on the text alone.
#[verifier::external_body]
fn is_known_zone(name: &str) -> (r: bool)
    ensures
        r == tz_known(name@),
{
    name.parse::<Tz>().is_ok()
}

/// The local wall-clock time of `unix_s` in zone `zone`, laid out as
/// [`TIMESTAMP_PATTERN`]; none when the zone is unknown or the instant lies
/// outside the calendar's range.
pub uninterp spec fn zoned_time_text(unix_s: int, zone: Seq<char>) -> Option<Seq<char>>;

/// Relies on chrono-tz's `Tz::from_str` to find the zone, and on chrono's
/// `DateTime::from_timestamp`, `with_timezone` and `format` to place the
/// instant in it and lay it out. The text depends on the two arguments alone.
#[verifier::external_body]
fn format_zoned_time(unix_s: i64, zone: &str) -> (r: Option<String>)
    ensures
        r is Some <==> zoned_time_text(unix_s as int, zone@) is Some,
        r is Some ==> zoned_time_text(unix_s as int, zone@) == Some(r->0@),
{
    let tz: Tz = zone.parse().ok()?;
    let utc = DateTime::from_timestamp(unix_s, 0)?;
    Some(utc.with_timezone(&tz).format(TIMESTAMP_PATTERN).to_string())
}

/// The zone the station shows times in: the configured one when the zone
/// database knows it, else UTC. Callers resolve it once and keep it.
pub fn cached_timezone(configured: &str) -> (zone: String)
    ensures
        tz_known(configured@) ==> zone@ == configured@,
        !tz_known(configured@) ==> zone@ == FALLBACK_ZONE@,
{
    if is_known_zone(configured) {
        String::from_str(configured)
    } else {
        String::from_str(FALLBACK_ZONE)
    }
}

/// The wall-clock time of `unix_s` in `zone`, as logged.
pub fn get_formatted_timestamp(unix_s: i64, zone: &str) -> (r: Option<String>)
    ensures
        r is Some <==> zoned_time_text(unix_s as int, zone@) is Some,
        r is Some ==> zoned_time_text(unix_s as int, zone@) == Some(r->0@),
{
    format_zoned_time(unix_s, zone)
}

/// The uptime text for `micros` microseconds since boot: whole seconds
/// right-aligned in four columns, then milliseconds in three digits.
pub open spec fn uptime_text(micros: u64) -> Seq<char> {
    "["@ + space_padded((micros / 1_000_000) as nat, 4) + "."@ + zero_padded(((micros % 1_000_000) / 1_000) as nat, 3)
        + "s]"@
}

/// The uptime prefix of log lines, e.g. `[  12.345s]`.
pub fn get_uptime_string(micros: u64) -> (r: String)
    ensures
        r@ == uptime_text(micros),
{
    let mut s = String::from_str("[");
    push_space_padded(&mut s, micros / 1_000_000, 4);
    s.append(".");
    push_zero_padded(&mut s, (micros % 1_000_000) / 1_000, 3);
    s.append("s]");
    assert(s@ =~= uptime_text(micros));
    s
}

} // verus!
