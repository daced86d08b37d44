//! The server's tick log: records as stored, their compact form in the
//! reference time zone, and the start of the day whose ticks are served.
use crate::codec::{EncodeError, MAX_RECORDS, TickHistory, Time, encode_spec, encode_tick_history};
use vstd::prelude::*;

verus! {

pub const SECONDS_PER_DAY: i64 = 86400;

pub const SECONDS_PER_HOUR: i64 = 3600;

pub const SECONDS_PER_MINUTE: i64 = 60;

/// The local hour at which a day's tick history begins.
pub const DAY_START_HOUR: i64 = 6;

/// A tick type of the catalog: its id and label.
pub struct TickType {
    pub id: u8,
    pub tick: String,
}

/// A tick as the JSON history lists it.
pub struct Tick {
    pub id: u8,
    pub tick: u8,
    pub time: String,
}

/// A tick as stored: its key, its type, and when it was created, in seconds
/// since the Unix epoch, UTC.
#[derive(Clone, Copy, Debug, PartialEq, Eq, Structural)]
pub struct TickRecord {
    pub id: u64,
    pub tick_type: u8,
    pub created_at: i64,
}

/// The offset from UTC, in seconds, that the reference time zone observes
/// at an instant; `None` for an instant outside the calendar's range.
pub uninterp spec fn reference_offset_of(utc_secs: int) -> Option<int>;

/// Relies on `chrono::DateTime::from_timestamp` and on chrono-tz's table for
/// America/Puerto_Rico, read through `TimeZone::offset_from_utc_datetime`:
/// the zone's offset from UTC at the instant, which lies strictly within a
/// day either way.
#[verifier::external_body]
fn reference_offset(utc_secs: i64) -> (r: Option<i32>)
    ensures
        match r {
            Some(o) => reference_offset_of(utc_secs as int) == Some(o as int) && -86400 < o
                < 86400,
            None => reference_offset_of(utc_secs as int) is None,
        },
{
    match chrono::DateTime::from_timestamp(utc_secs, 0) {
        Some(t) => {
            let offset = <chrono_tz::Tz as chrono::TimeZone>::offset_from_utc_datetime(
                &chrono_tz::America::Puerto_Rico,
                &t.naive_utc(),
            );
            Some(<chrono_tz::TzOffset as chrono::Offset>::fix(&offset).local_minus_utc())
        },
        None => None,
    }
}

/// The time of day, truncated to the minute, at local seconds `local`.
pub open spec fn time_of_day(local: int) -> Time {
    let in_day = local % (SECONDS_PER_DAY as int);
    Time {
        hour: (in_day / (SECONDS_PER_HOUR as int)) as u8,
        minute: ((in_day % (SECONDS_PER_HOUR as int)) / (SECONDS_PER_MINUTE as int)) as u8,
    }
}

/// The compact form of a record: its type and its local time of day.
pub open spec fn compact_spec(record: TickRecord) -> Option<TickHistory> {
    match reference_offset_of(record.created_at as int) {
        Some(o) => Some(
            TickHistory {
                type_id: record.tick_type,
                time: time_of_day(record.created_at + o),
            },
        ),
        None => None,
    }
}

/// The seconds into the local day at local seconds `local`.
fn seconds_into_day(local: i128) -> (r: i64)
    ensures
        r == (local as int) % (SECONDS_PER_DAY as int),
        0 <= r < SECONDS_PER_DAY,
{
    let m = local.checked_rem_euclid(SECONDS_PER_DAY as i128).unwrap();
    m as i64
}

/// The compact form of a stored tick, in the reference time zone; `None` for
/// a creation time outside the calendar's range.
pub fn compact(record: &TickRecord) -> (r: Option<TickHistory>)
    ensures
        r == compact_spec(*record),
        r matches Some(t) ==> t.time.hour < 24 && t.time.minute < 60,
{
    match reference_offset(record.created_at) {
        Some(o) => {
            let in_day = seconds_into_day(record.created_at as i128 + o as i128);
            let hour = (in_day / SECONDS_PER_HOUR) as u8;
            let minute = ((in_day % SECONDS_PER_HOUR) / SECONDS_PER_MINUTE) as u8;
            Some(TickHistory { type_id: record.tick_type, time: Time { hour, minute } })
        },
        None => None,
    }
}

/// The compact forms of all records, or `None` where one has none.
pub open spec fn compact_all(records: Seq<TickRecord>) -> Option<Seq<TickHistory>> {
    if forall|i: int| 0 <= i < records.len() ==> (#[trigger] compact_spec(records[i])) is Some {
        Some(Seq::new(records.len(), |i: int| compact_spec(records[i])->0))
    } else {
        None
    }
}

/// Why a tick history could not be served in compact form.
#[derive(Clone, Copy, Debug, PartialEq, Eq, Structural)]
pub enum TickError {
    /// More records than the 16-bit count can declare.
    TooManyRecords,
    /// A creation time outside the calendar's range.
    TimestampOutOfRange,
}

/// The compact history of `records`, in their order: a 16-bit count, then
/// type, local hour and local minute of each.
pub fn query_embedded_ticks(records: &Vec<TickRecord>) -> (r: Result<Vec<u8>, TickError>)
    ensures
        records@.len() > MAX_RECORDS ==> r == Err::<Vec<u8>, TickError>(
            TickError::TooManyRecords,
        ),
        records@.len() <= MAX_RECORDS && compact_all(records@) is None ==> r == Err::<
            Vec<u8>,
            TickError,
        >(TickError::TimestampOutOfRange),
        records@.len() <= MAX_RECORDS && compact_all(records@) is Some ==> (r matches Ok(
            b) && b@ == encode_spec(compact_all(records@)->0)),
        r matches Ok(b) ==> b@.len() == 2 + 3 * records@.len() && forall|i: int|
            0 <= i < records@.len() ==> {
                let local = time_of_day(
                    records@[i].created_at + reference_offset_of(records@[i].created_at as int)->0,
                );
                &&& #[trigger] b@[2 + 3 * i] == records@[i].tick_type
                &&& b@[3 + 3 * i] == local.hour && local.hour < 24
                &&& b@[4 + 3 * i] == local.minute && local.minute < 60
            },
{
    if records.len() > MAX_RECORDS {
        return Err(TickError::TooManyRecords);
    }
    let mut compacted: Vec<TickHistory> = Vec::new();
    let mut i: usize = 0;
    while i < records.len()
        invariant
            records@.len() <= MAX_RECORDS,
            i <= records@.len(),
            compacted@.len() == i,
            forall|j: int| 0 <= j < i ==> (#[trigger] compact_spec(records@[j])) == Some(
                compacted@[j],
            ),
        decreases records@.len() - i,
    {
        match compact(&records[i]) {
            Some(t) => compacted.push(t),
            None => {
                assert(!(compact_spec(records@[i as int]) is Some));
                return Err(TickError::TimestampOutOfRange);
            },
        }
        i = i + 1;
    }
    assert(compact_all(records@) is Some);
    assert(compacted@ =~= compact_all(records@)->0);
    match encode_tick_history(&compacted) {
        Ok(b) => {
            proof {
                assert forall|i: int| 0 <= i < records@.len() implies {
                    let local = time_of_day(
                        records@[i].created_at + reference_offset_of(
                            records@[i].created_at as int,
                        )->0,
                    );
                    &&& #[trigger] b@[2 + 3 * i] == records@[i].tick_type
                    &&& b@[3 + 3 * i] == local.hour && local.hour < 24
                    &&& b@[4 + 3 * i] == local.minute && local.minute < 60
                } by {
                    let t = compacted@[i];
                    assert(compact_spec(records@[i]) == Some(t));
                    assert((3 * i) / 3 == i && (3 * i) % 3 == 0);
                    assert((3 * i + 1) / 3 == i && (3 * i + 1) % 3 == 1);
                    assert((3 * i + 2) / 3 == i && (3 * i + 2) % 3 == 2);
                    let in_day = (records@[i].created_at + reference_offset_of(
                        records@[i].created_at as int,
                    )->0) % (SECONDS_PER_DAY as int);
                    assert(0 <= in_day < 86400);
                    assert(in_day / 3600 < 24);
                    assert((in_day % 3600) / 60 < 60);
                }
            }
            Ok(b)
        },
        Err(EncodeError::TooManyRecords) => Err(TickError::TooManyRecords),
    }
}

/// The start of the day whose ticks are served at instant `now`: 06:00 of the
/// local date at `now`, as UTC seconds, taking the offset observed at `now`.
pub open spec fn cutoff_spec(now: int) -> Option<int> {
    match reference_offset_of(now) {
        Some(o) => {
            let local = now + o;
            let cutoff = local - local % (SECONDS_PER_DAY as int) + DAY_START_HOUR
                * SECONDS_PER_HOUR - o;
            if i64::MIN <= cutoff <= i64::MAX {
                Some(cutoff)
            } else {
                None
            }
        },
        None => None,
    }
}

/// The UTC instant from which the current day's ticks are listed.
pub fn tick_cutoff(now: i64) -> (r: Option<i64>)
    ensures
        match r {
            Some(c) => cutoff_spec(now as int) == Some(c as int),
            None => cutoff_spec(now as int) is None,
        },
{
    match reference_offset(now) {
        Some(o) => {
            let local: i128 = now as i128 + o as i128;
            let in_day = seconds_into_day(local);
            let cutoff: i128 = local - in_day as i128 + (DAY_START_HOUR * SECONDS_PER_HOUR) as i128
                - o as i128;
            if cutoff < i64::MIN as i128 || cutoff > i64::MAX as i128 {
                None
            } else {
                Some(cutoff as i64)
            }
        },
        None => None,
    }
}

} // verus!
