//! Time zones, and the instants that local times stand for.

use chrono::{Offset, TimeZone};
use vstd::prelude::*;

use crate::calendar::Date;
use crate::clock::Instant;
use crate::errors::BotError;

verus! {

/// Whether `chrono_tz` has a time zone of that name.
pub uninterp spec fn zone_known(name: Seq<char>) -> bool;

/// The seconds by which local time in a time zone of `chrono_tz` is ahead of
/// UTC, at a second since the start of 1970.
pub uninterp spec fn zone_offset(name: Seq<char>, secs: int) -> int;

/// The second since the start of 1970 at which a time zone of `chrono_tz` has a
/// local time, where there is exactly one. The local time is given as the
/// second at which UTC has it.
pub uninterp spec fn zone_instant(name: Seq<char>, local_secs: int) -> Option<int>;

/// Calls the `FromStr` of `chrono_tz::Tz`: whether it knows a time zone depends
/// on the name alone, and it knows `Asia/Tokyo`. Which other names it knows is
/// left to the name.
#[verifier::external_body]
fn tz_is_known(name: &str) -> (r: bool)
    ensures
        r == zone_known(name@),
        name@ == "Asia/Tokyo"@ ==> r,
{
    name.parse::<chrono_tz::Tz>().is_ok()
}

/// Calls `offset_from_utc_datetime` of `chrono_tz::Tz`: the offset depends on
/// the time zone and the second alone, and is less than a day. What it is, is
/// left to the name.
#[verifier::external_body]
fn tz_offset(name: &str, t: Instant) -> (r: i32)
    requires
        zone_known(name@),
        t.in_range(),
    ensures
        r == zone_offset(name@, t.secs as int),
        -86400 < r < 86400,
{
    let tz = name.parse::<chrono_tz::Tz>().unwrap();
    let utc = chrono::DateTime::from_timestamp(t.secs, t.nanos).unwrap().naive_utc();
    tz.offset_from_utc_datetime(&utc).fix().local_minus_utc()
}

/// Calls `from_local_datetime` of `chrono_tz::Tz` and `single` of what it
/// returns, on a full hour of a date. Whether there is exactly one such instant,
/// and which one, depends on the time zone and the local time alone. The instant
/// is one that `chrono` can hold, at a full second, and at that instant the
/// time zone is ahead of UTC by the difference between the two. Which local
/// times occur once is left to the name.
#[verifier::external_body]
fn tz_local(name: &str, date: Date, hour: u32) -> (r: Option<Instant>)
    requires
        zone_known(name@),
        date.valid(),
        hour < 24,
    ensures
        match r {
            Some(t) => zone_instant(name@, crate::clock::secs_of_hour(date, hour as int)) == Some(
                t.secs as int,
            ) && t.in_range() && t.nanos == 0 && t.secs + zone_offset(name@, t.secs as int)
                == crate::clock::secs_of_hour(date, hour as int),
            None => zone_instant(name@, crate::clock::secs_of_hour(date, hour as int)) is None,
        },
{
    let tz = name.parse::<chrono_tz::Tz>().unwrap();
    let naive = chrono::NaiveDate::from_ymd_opt(date.year, date.month, date.day).unwrap();
    let local = tz.from_local_datetime(&naive.and_hms_opt(hour, 0, 0).unwrap());
    local.single().map(|t| Instant { secs: t.timestamp(), nanos: t.timestamp_subsec_nanos() })
}

/// A time zone.
#[derive(Debug)]
pub struct Zone {
    name: String,
}

impl Zone {
    /// The name of the time zone.
    pub closed spec fn view(&self) -> Seq<char> {
        self.name@
    }

    #[verifier::type_invariant]
    closed spec fn known(self) -> bool {
        zone_known(self.name@)
    }

    /// The time zone of a name, where there is one.
    pub fn parse(name: &str) -> (r: Result<Zone, BotError>)
        ensures
            r is Ok <==> zone_known(name@),
            r matches Ok(z) ==> z@ == name@,
            r matches Err(e) ==> e == BotError::InvalidTimezone,
            name@ == "Asia/Tokyo"@ ==> r is Ok,
    {
        if tz_is_known(name) {
            Ok(Zone { name: String::from_str(name) })
        } else {
            Err(BotError::InvalidTimezone)
        }
    }

    /// The name of the time zone.
    pub fn name(&self) -> (r: &str)
        ensures
            r@ == self@,
            zone_known(r@),
    {
        proof {
            use_type_invariant(self);
        }
        self.name.as_str()
    }

    /// The seconds by which local time is ahead of UTC at an instant.
    pub fn offset_at(&self, t: Instant) -> (r: i32)
        requires
            t.in_range(),
        ensures
            r == zone_offset(self@, t.secs as int),
            -86400 < r < 86400,
    {
        proof {
            use_type_invariant(self);
        }
        tz_offset(self.name.as_str(), t)
    }
}

/// The instant of a full hour of a date in a time zone.
pub open spec fn local_hour(zone: Seq<char>, date: Date, hour: int) -> Result<Instant, BotError> {
    if hour >= 24 {
        Err(BotError::InvalidHour)
    } else {
        match zone_instant(zone, crate::clock::secs_of_hour(date, hour)) {
            Some(secs) => Ok(Instant { secs: secs as i64, nanos: 0 }),
            None => Err(BotError::UnresolvedLocalTime),
        }
    }
}

/// An hour of a day is found wherever the time zone has it once, and at the
/// second at which it has it. An hour of no day is not asked for.
pub proof fn hours_are_found_where_the_zone_has_them(zone: Seq<char>, date: Date, hour: int)
    ensures
        hour >= 24 <==> local_hour(zone, date, hour) == Err::<Instant, BotError>(
            BotError::InvalidHour,
        ),
        hour < 24 ==> (local_hour(zone, date, hour) is Ok <==> zone_instant(
            zone,
            (date.day_number() - 719163) * 86400 + hour * 3600,
        ) is Some),
        local_hour(zone, date, hour) matches Ok(t) ==> t.nanos == 0 && t.secs == zone_instant(
            zone,
            (date.day_number() - 719163) * 86400 + hour * 3600,
        )->0 as i64,
        local_hour(zone, date, hour) matches Err(e) ==> e is InvalidHour || e
            is UnresolvedLocalTime,
{
}

/// Whether an instant is a full hour of a date in a time zone.
pub open spec fn is_local_hour(zone: Seq<char>, t: Instant, date: Date, hour: int) -> bool {
    &&& t.in_range()
    &&& t.nanos == 0
    &&& t.secs + zone_offset(zone, t.secs as int) == crate::clock::secs_of_hour(date, hour)
}

/// The instant that a local time stands for, by what the time zone said of it.
pub fn resolved_hour(hour: u32, found: Option<Instant>) -> (r: Result<Instant, BotError>)
    ensures
        hour >= 24 ==> r == Err::<Instant, BotError>(BotError::InvalidHour),
        hour < 24 && found is None ==> r == Err::<Instant, BotError>(
            BotError::UnresolvedLocalTime,
        ),
        hour < 24 ==> (found matches Some(t) ==> r == Ok::<Instant, BotError>(t)),
{
    if hour >= 24 {
        return Err(BotError::InvalidHour);
    }
    match found {
        Some(t) => Ok(t),
        None => Err(BotError::UnresolvedLocalTime),
    }
}

/// The instant of a full hour of a date in a time zone. Read back in that time
/// zone it is that date and that hour.
pub fn make_datetime(zone: &Zone, date: Date, hour: u32) -> (r: Result<Instant, BotError>)
    requires
        date.valid(),
    ensures
        r == local_hour(zone@, date, hour as int),
        hour >= 24 ==> r == Err::<Instant, BotError>(BotError::InvalidHour),
        hour < 24 ==> match zone_instant(
            zone@,
            (date.day_number() - 719163) * 86400 + hour * 3600,
        ) {
            Some(secs) => r == Ok::<Instant, BotError>(Instant { secs: secs as i64, nanos: 0 }),
            None => r == Err::<Instant, BotError>(BotError::UnresolvedLocalTime),
        },
        r matches Ok(t) ==> {
            &&& is_local_hour(zone@, t, date, hour as int)
            &&& crate::clock::date_of_secs(t.secs + zone_offset(zone@, t.secs as int)) == date
            &&& crate::clock::hour_of_secs(t.secs + zone_offset(zone@, t.secs as int)) == hour
        },
{
    if hour >= 24 {
        return resolved_hour(hour, None);
    }
    proof {
        use_type_invariant(zone);
        crate::clock::full_hour_reads_back(date, hour as int);
    }
    resolved_hour(hour, tz_local(zone.name.as_str(), date, hour))
}

} // verus!
