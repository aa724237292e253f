//! Clock/TimeZone Converter: expiry texts in the fixed display format
//! `DD/MM/YYYY, hh:mm:ss AM/PM` are read as wall-clock time in the target
//! civil timezone (Asia/Kolkata) and normalized to a comparable instant.
//! The reading itself is chrono's and chrono-tz's work, behind trusted
//! wrappers; everything downstream is verified against their contracts.

use chrono::TimeZone;
use vstd::prelude::*;

verus! {

/// A naive point in time: seconds relative to the reference epoch, after
/// normalizing a wall-clock reading away from its timezone. Total order is
/// the order on `seconds`.
#[derive(Debug, PartialEq, Eq, Structural, Clone, Copy)]
pub struct CivilInstant {
    pub seconds: i64,
}

/// Failure of the converter: the text is not a readable expiry timestamp.
#[derive(Debug, PartialEq, Eq, Structural, Clone, Copy)]
pub struct TimeParseError;

/// First instant whose wall-clock year in the target zone takes five
/// digits; the display format writes and reads four-digit years.
pub const EXPIRY_SECONDS_LIMIT: i64 = 253402281000;

/// The instant an expiry text denotes, or `None` when the text is not in
/// the display format or names no valid wall-clock time of the target zone.
/// This is what chrono's `NaiveDateTime::parse_from_str` followed by
/// chrono-tz's offset lookup for Asia/Kolkata computes; it depends on the
/// text alone.
pub uninterp spec fn expiry_instant_of(s: Seq<char>) -> Option<i64>;

/// Relies on chrono's `NaiveDateTime::parse_from_str` with format
/// `%d/%m/%Y, %I:%M:%S %p`, and on chrono-tz's `from_local_datetime` for
/// Asia/Kolkata: both depend on the text alone, so the outcome is the named
/// instant. An ambiguous wall-clock time resolves to the earliest instant;
/// a nonexistent one fails like malformed text.
#[verifier::external_body]
fn read_in_target_zone(text: &str) -> (r: Option<CivilInstant>)
    ensures
        r is Some <==> expiry_instant_of(text@) is Some,
        r matches Some(i) ==> Some(i.seconds) == expiry_instant_of(text@),
{
    let naive = match chrono::NaiveDateTime::parse_from_str(text, "%d/%m/%Y, %I:%M:%S %p") {
        Ok(n) => n,
        Err(_) => return None,
    };
    match chrono_tz::Asia::Kolkata.from_local_datetime(&naive).earliest() {
        Some(dt) => Some(CivilInstant { seconds: dt.timestamp() }),
        None => None,
    }
}

/// Relies on chrono's `DateTime::from_timestamp` and `format`, and on
/// chrono-tz's offset table: from the reference epoch on, Asia/Kolkata
/// keeps one fixed offset and no fold, and formatting with
/// `%d/%m/%Y, %I:%M:%S %p` writes the wall-clock fields that parsing with
/// the same format reads back, so the text denotes the formatted instant.
/// The bound keeps the wall-clock year at four digits.
#[verifier::external_body]
fn write_in_target_zone(i: CivilInstant) -> (r: String)
    requires
        0 <= i.seconds < EXPIRY_SECONDS_LIMIT,
    ensures
        expiry_instant_of(r@) == Some(i.seconds),
{
    let utc = chrono::DateTime::from_timestamp(i.seconds, 0).unwrap();
    let local = utc.with_timezone(&chrono_tz::Asia::Kolkata);
    local.format("%d/%m/%Y, %I:%M:%S %p").to_string()
}

/// Read an expiry text as wall-clock time in the target zone, normalized to
/// the comparable representation the rest of the engine uses. Fails exactly
/// on texts that denote no instant.
pub fn to_target_zone(text: &str) -> (r: Result<CivilInstant, TimeParseError>)
    ensures
        r is Ok <==> expiry_instant_of(text@) is Some,
        r matches Ok(i) ==> Some(i.seconds) == expiry_instant_of(text@),
{
    match read_in_target_zone(text) {
        Some(i) => Ok(i),
        None => Err(TimeParseError),
    }
}

/// Law: formatting an instant as expiry text in the target zone and reading
/// the text back through the converter yields the same comparable instant.
pub fn round_trip_expiry(i: CivilInstant) -> (r: CivilInstant)
    requires
        0 <= i.seconds < EXPIRY_SECONDS_LIMIT,
    ensures
        r == i,
{
    let text = write_in_target_zone(i);
    match to_target_zone(text.as_str()) {
        Ok(j) => j,
        Err(_) => vstd::pervasive::unreached(),
    }
}

} // verus!
