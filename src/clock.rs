use vstd::prelude::*;
use chrono::Offset;
use chrono::TimeZone;

verus! {

/// Seconds in one calendar day.
pub const DAY_SECS: i64 = 86_400;

/// Seconds in one minute.
pub const MINUTE_SECS: i64 = 60;

/// Largest distance from the epoch, in seconds, of a moment that this library
/// handles: some way past the four-digit years that RFC 3339 can write.
pub const MAX_EPOCH_SECS: i64 = 300_000_000_000;

/// A moment in time together with the fixed UTC offset it is displayed in.
#[derive(Clone, Copy, Debug, PartialEq, Eq, Structural)]
pub struct Stamp {
    /// Seconds since 1970-01-01T00:00:00Z.
    pub utc_secs: i64,
    /// Seconds that local wall-clock time is ahead of UTC.
    pub offset_secs: i32,
}

/// An offset that a fixed-offset time zone can have.
pub open spec fn offset_ok(o: int) -> bool {
    -DAY_SECS < o < DAY_SECS
}

/// A moment within the range that this library handles.
pub open spec fn secs_ok(t: int) -> bool {
    -MAX_EPOCH_SECS <= t <= MAX_EPOCH_SECS
}

impl Stamp {
    pub open spec fn wf(self) -> bool {
        secs_ok(self.utc_secs as int) && offset_ok(self.offset_secs as int)
    }

    /// Wall-clock seconds since the local epoch.
    pub open spec fn local(self) -> int {
        self.utc_secs + self.offset_secs
    }
}

/// A moment at least a day away from the ends of the handled range.
pub open spec fn inner_secs_ok(t: int) -> bool {
    -MAX_EPOCH_SECS + DAY_SECS <= t <= MAX_EPOCH_SECS - DAY_SECS
}

/// Floor of `t` to a multiple of `unit`.
pub open spec fn floor_to(t: int, unit: int) -> int {
    t - t % unit
}

/// The moment with seconds and sub-seconds of its wall-clock reading dropped.
pub open spec fn minute_start(utc: int, offset: int) -> int {
    floor_to(utc + offset, MINUTE_SECS as int) - offset
}

/// The instant, fractional second and offset that an RFC 3339 text denotes, if it is one.
pub uninterp spec fn rfc3339_reading(s: Seq<char>) -> Option<(i64, u32, i32)>;

/// UTC offset of the Asia/Tokyo zone at a moment.
pub uninterp spec fn tokyo_offset(utc: int) -> int;

/// RFC 3339 rendering of a moment in a fixed offset, seconds included.
pub uninterp spec fn rfc3339_text(utc: int, offset: int) -> Seq<char>;

/// `YYYY-MM-DDTHHMM` rendering of a wall-clock reading given in local seconds.
pub uninterp spec fn minute_label_text(local: int) -> Seq<char>;

/// Relies on chrono's `DateTime::parse_from_rfc3339` together with `timestamp`,
/// `timestamp_subsec_nanos` and the offset's `local_minus_utc`. The parser reads
/// a four-digit year, so a moment it returns lies in years 0 to 9999 (within
/// 2.6e11 seconds of the epoch), and its offset is a `FixedOffset`, under a day.
#[verifier::external_body]
fn parse_rfc3339(s: &str) -> (r: Option<(i64, u32, i32)>)
    ensures
        r == rfc3339_reading(s@),
        r matches Some(v) ==> inner_secs_ok(v.0 as int) && offset_ok(v.2 as int),
{
    chrono::DateTime::parse_from_rfc3339(s).ok().map(
        |d| (d.timestamp(), d.timestamp_subsec_nanos(), d.offset().local_minus_utc()),
    )
}

/// Relies on chrono-tz's `Asia::Tokyo.offset_from_utc_datetime` and `fix`:
/// the zone's offset at a moment, which is a `FixedOffset` and so under a day.
#[verifier::external_body]
pub(crate) fn tokyo_offset_at(utc_secs: i64) -> (r: i32)
    requires
        secs_ok(utc_secs as int),
    ensures
        r == tokyo_offset(utc_secs as int),
        offset_ok(r as int),
{
    let naive = chrono::DateTime::from_timestamp(utc_secs, 0).unwrap().naive_utc();
    chrono_tz::Asia::Tokyo.offset_from_utc_datetime(&naive).fix().local_minus_utc()
}

/// Relies on chrono's `FixedOffset::east_opt`, `DateTime::from_timestamp`,
/// `with_timezone` and `to_rfc3339`.
#[verifier::external_body]
fn format_rfc3339(utc_secs: i64, offset_secs: i32) -> (r: String)
    requires
        secs_ok(utc_secs as int),
        offset_ok(offset_secs as int),
    ensures
        r@ == rfc3339_text(utc_secs as int, offset_secs as int),
{
    let zone = chrono::FixedOffset::east_opt(offset_secs).unwrap();
    chrono::DateTime::from_timestamp(utc_secs, 0).unwrap().with_timezone(&zone).to_rfc3339()
}

/// Relies on chrono's `DateTime::from_timestamp`, `naive_utc` and `format`
/// with the pattern `%Y-%m-%dT%H%M`.
#[verifier::external_body]
pub(crate) fn format_minute_label(local_secs: i64) -> (r: String)
    requires
        -MAX_EPOCH_SECS - DAY_SECS <= local_secs <= MAX_EPOCH_SECS + DAY_SECS,
    ensures
        r@ == minute_label_text(local_secs as int),
{
    let naive = chrono::DateTime::from_timestamp(local_secs, 0).unwrap().naive_utc();
    naive.format("%Y-%m-%dT%H%M").to_string()
}

/// `floor_to` on machine integers, for a positive unit.
pub fn floor_i64(t: i64, unit: i64) -> (r: i64)
    requires
        unit > 0,
        t >= i64::MIN + unit,
    ensures
        r == floor_to(t as int, unit as int),
        r <= t < r + unit,
{
    let rem = t.checked_rem_euclid(unit).unwrap();
    t - rem
}

/// Reads an RFC 3339 text as a moment shown in Tokyo time, with the seconds and
/// sub-seconds of the Tokyo wall-clock reading dropped. `None` where the text is
/// not RFC 3339.
pub fn tokyo_minute_of(s: &str) -> (r: Option<Stamp>)
    ensures
        r == minute_of_reading(rfc3339_reading(s@)),
        r matches Some(st) ==> st.wf(),
{
    match parse_rfc3339(s) {
        None => None,
        Some(v) => {
            let off = tokyo_offset_at(v.0);
            Some(truncate_to_minute(v.0, off))
        },
    }
}

/// What `tokyo_minute_of` gives for a parse outcome.
pub open spec fn minute_of_reading(p: Option<(i64, u32, i32)>) -> Option<Stamp> {
    match p {
        None => None,
        Some(v) => {
            let off = tokyo_offset(v.0 as int);
            Some(Stamp { utc_secs: minute_start(v.0 as int, off) as i64, offset_secs: off as i32 })
        },
    }
}

/// The moment `utc_secs` in the offset `offset_secs`, with the seconds of its
/// wall-clock reading dropped.
pub fn truncate_to_minute(utc_secs: i64, offset_secs: i32) -> (r: Stamp)
    requires
        inner_secs_ok(utc_secs as int),
        offset_ok(offset_secs as int),
    ensures
        r == (Stamp {
            utc_secs: minute_start(utc_secs as int, offset_secs as int) as i64,
            offset_secs,
        }),
        r.wf(),
        r.utc_secs <= utc_secs < r.utc_secs + MINUTE_SECS,
{
    let local = utc_secs + offset_secs as i64;
    let floored = floor_i64(local, MINUTE_SECS);
    Stamp { utc_secs: floored - offset_secs as i64, offset_secs }
}

impl Stamp {
    /// RFC 3339 text of this moment in its own offset.
    pub fn to_rfc3339(&self) -> (r: String)
        requires
            self.wf(),
        ensures
            r@ == rfc3339_text(self.utc_secs as int, self.offset_secs as int),
    {
        format_rfc3339(self.utc_secs, self.offset_secs)
    }
}

} // verus!
