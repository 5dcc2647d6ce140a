//! What a history of transfers records, and the calendar arithmetic for
//! showing when a transfer happened.

use vstd::prelude::*;
use vstd::string::StringExecFns;
use crate::text::{decimal, digit_char, push_decimal, push_digit};
use std::time::{Duration, SystemTime, SystemTimeError};

verus! {

/// Kind of operation.
#[derive(Clone, Copy, Debug, PartialEq, Eq, Structural)]
pub enum OperationType {
    Transfer,
    Sync,
}

/// Direction of a transfer.
#[derive(Clone, Copy, Debug, PartialEq, Eq, Structural)]
pub enum Direction {
    Send,
    Receive,
}

/// Totals over a history.
#[derive(Clone, Copy, Debug, PartialEq, Eq, Structural)]
pub struct HistoryStats {
    pub total_transfers: usize,
    pub successful_transfers: usize,
    pub total_sent: u64,
    pub total_received: u64,
    pub files_sent: usize,
    pub files_received: usize,
}

impl Default for HistoryStats {
    fn default() -> (s: Self)
        ensures
            s == (HistoryStats {
                total_transfers: 0,
                successful_transfers: 0,
                total_sent: 0,
                total_received: 0,
                files_sent: 0,
                files_received: 0,
            }),
    {
        HistoryStats {
            total_transfers: 0,
            successful_transfers: 0,
            total_sent: 0,
            total_received: 0,
            files_sent: 0,
            files_received: 0,
        }
    }
}

#[verifier::external_type_specification]
#[verifier::external_body]
pub struct ExSystemTime(SystemTime);

#[verifier::external_type_specification]
#[verifier::external_body]
pub struct ExSystemTimeError(SystemTimeError);

/// `SystemTime::now` of std: the current reading of the system clock.
/// Nothing is claimed of the value.
pub assume_specification[ SystemTime::now ]() -> (r: SystemTime)
;

/// `SystemTime::duration_since` of std: the time from `earlier` to this
/// reading, or an error where `earlier` is the later of the two.
/// Nothing is claimed of the value.
pub assume_specification[ SystemTime::duration_since ](t: &SystemTime, earlier: SystemTime) -> (r:
    Result<Duration, SystemTimeError>)
;

/// `UNIX_EPOCH` of std: the reading of the system clock at the start of
/// 1970. Nothing is claimed of the value.
#[verifier::external_body]
fn unix_epoch() -> (r: SystemTime) {
    std::time::UNIX_EPOCH
}

/// Seconds since the Unix epoch as the system clock reads them; 0 where
/// the clock reads earlier than the epoch.
pub fn current_timestamp() -> (r: u64) {
    let now = SystemTime::now();
    match now.duration_since(unix_epoch()) {
        Ok(d) => d.as_secs(),
        Err(_) => 0,
    }
}

pub open spec fn is_leap_year_spec(year: u32) -> bool {
    (year % 4 == 0 && year % 100 != 0) || year % 400 == 0
}

/// Whether the year is a leap year of the Gregorian calendar.
pub fn is_leap_year(year: u32) -> (r: bool)
    ensures
        r == is_leap_year_spec(year),
{
    (year % 4 == 0 && year % 100 != 0) || (year % 400 == 0)
}

/// Days of the year that lie before the given month (1 to 12); the length
/// of the year for 13.
pub open spec fn days_before_month(month: int, leap: bool) -> int {
    let extra: int = if leap {
        1
    } else {
        0
    };
    if month <= 1 {
        0
    } else if month == 2 {
        31
    } else if month == 3 {
        59 + extra
    } else if month == 4 {
        90 + extra
    } else if month == 5 {
        120 + extra
    } else if month == 6 {
        151 + extra
    } else if month == 7 {
        181 + extra
    } else if month == 8 {
        212 + extra
    } else if month == 9 {
        243 + extra
    } else if month == 10 {
        273 + extra
    } else if month == 11 {
        304 + extra
    } else if month == 12 {
        334 + extra
    } else {
        365 + extra
    }
}

fn days_before(month: u32, leap: bool) -> (r: u32)
    requires
        1 <= month <= 13,
    ensures
        r == days_before_month(month as int, leap),
{
    let extra: u32 = if leap {
        1
    } else {
        0
    };
    if month == 1 {
        0
    } else if month == 2 {
        31
    } else if month == 3 {
        59 + extra
    } else if month == 4 {
        90 + extra
    } else if month == 5 {
        120 + extra
    } else if month == 6 {
        151 + extra
    } else if month == 7 {
        181 + extra
    } else if month == 8 {
        212 + extra
    } else if month == 9 {
        243 + extra
    } else if month == 10 {
        273 + extra
    } else if month == 11 {
        304 + extra
    } else if month == 12 {
        334 + extra
    } else {
        365 + extra
    }
}

/// Month and day of the month (both from 1) of the day numbered
/// `day_of_year` (from 0). A number beyond the year gives the last day of
/// December.
pub fn days_to_month_day(day_of_year: u32, leap: bool) -> (r: (u32, u32))
    ensures
        1 <= r.0 <= 12,
        1 <= r.1 <= 31,
        day_of_year < days_before_month(13, leap) ==> days_before_month(r.0 as int, leap)
            <= day_of_year < days_before_month(r.0 + 1, leap) && r.1 == day_of_year
            - days_before_month(r.0 as int, leap) + 1,
        day_of_year >= days_before_month(13, leap) ==> r == (12u32, 31u32),
{
    let mut month: u32 = 1;
    while month <= 12
        invariant
            1 <= month <= 13,
            days_before_month(month as int, leap) <= day_of_year,
        decreases 13 - month,
    {
        let start = days_before(month, leap);
        let end = days_before(month + 1, leap);
        if day_of_year < end {
            return (month, day_of_year - start + 1);
        }
        month += 1;
    }
    (12, 31)
}

pub open spec fn year_length(year: u32) -> int {
    if is_leap_year_spec(year) {
        366
    } else {
        365
    }
}

/// Days from the start of 1970 to the start of `year`.
pub open spec fn days_before_year(year: u32) -> int
    decreases year,
{
    if year <= 1970 {
        0
    } else {
        days_before_year((year - 1) as u32) + year_length((year - 1) as u32)
    }
}

/// The year a day falls in and its number within that year, for a day
/// counted from the start of 1970.
pub fn year_and_day(total_days: u32) -> (r: (u32, u32))
    ensures
        r.0 >= 1970,
        days_before_year(r.0) + r.1 == total_days,
        r.1 < year_length(r.0),
{
    let mut year: u32 = 1970;
    let mut remaining: u32 = total_days;
    let mut len: u32 = 365;
    while remaining >= len
        invariant
            1970 <= year,
            year - 1970 <= (total_days - remaining) / 365,
            remaining <= total_days,
            days_before_year(year) + remaining == total_days,
            len == year_length(year),
        decreases remaining,
    {
        remaining = remaining - len;
        year = year + 1;
        len = if is_leap_year(year) {
            366
        } else {
            365
        };
    }
    (year, remaining)
}

/// What the totals need to know of one entry of the history.
#[derive(Clone, Copy, Debug, PartialEq, Eq, Structural)]
pub struct HistoryRecord {
    pub direction: Direction,
    pub success: bool,
    pub total_size: u64,
    pub files_count: usize,
}

pub open spec fn capped_u64(x: int) -> u64 {
    if x > u64::MAX {
        u64::MAX
    } else {
        x as u64
    }
}

pub open spec fn capped_usize(x: int) -> usize {
    if x > usize::MAX {
        usize::MAX
    } else {
        x as usize
    }
}

/// Adds one entry to the totals. Every entry counts as a transfer; only a
/// successful one counts toward the bytes and files of its direction.
/// Each total stops at the largest value of its type.
pub open spec fn add_record(t: HistoryStats, r: HistoryRecord) -> HistoryStats {
    HistoryStats {
        total_transfers: capped_usize(t.total_transfers + 1),
        successful_transfers: if r.success {
            capped_usize(t.successful_transfers + 1)
        } else {
            t.successful_transfers
        },
        total_sent: if r.success && r.direction == Direction::Send {
            capped_u64(t.total_sent + r.total_size)
        } else {
            t.total_sent
        },
        total_received: if r.success && r.direction == Direction::Receive {
            capped_u64(t.total_received + r.total_size)
        } else {
            t.total_received
        },
        files_sent: if r.success && r.direction == Direction::Send {
            capped_usize(t.files_sent + r.files_count)
        } else {
            t.files_sent
        },
        files_received: if r.success && r.direction == Direction::Receive {
            capped_usize(t.files_received + r.files_count)
        } else {
            t.files_received
        },
    }
}

/// The totals over a history.
pub open spec fn totals_of(records: Seq<HistoryRecord>) -> HistoryStats
    decreases records.len(),
{
    if records.len() == 0 {
        HistoryStats {
            total_transfers: 0,
            successful_transfers: 0,
            total_sent: 0,
            total_received: 0,
            files_sent: 0,
            files_received: 0,
        }
    } else {
        add_record(totals_of(records.drop_last()), records.last())
    }
}

/// Computes the totals over a history.
pub fn total_stats(records: &[HistoryRecord]) -> (t: HistoryStats)
    ensures
        t == totals_of(records@),
{
    let mut t = HistoryStats::default();
    let mut i: usize = 0;
    proof {
        assert(records@.take(0) =~= Seq::<HistoryRecord>::empty());
    }
    while i < records.len()
        invariant
            i <= records.len(),
            t == totals_of(records@.take(i as int)),
        decreases records.len() - i,
    {
        proof {
            assert(records@.take(i + 1).drop_last() =~= records@.take(i as int));
        }
        let r = records[i];
        let sent = r.success && matches!(r.direction, Direction::Send);
        let received = r.success && matches!(r.direction, Direction::Receive);
        t = HistoryStats {
            total_transfers: if t.total_transfers < usize::MAX {
                t.total_transfers + 1
            } else {
                usize::MAX
            },
            successful_transfers: if r.success && t.successful_transfers < usize::MAX {
                t.successful_transfers + 1
            } else {
                t.successful_transfers
            },
            total_sent: if sent {
                t.total_sent.saturating_add(r.total_size)
            } else {
                t.total_sent
            },
            total_received: if received {
                t.total_received.saturating_add(r.total_size)
            } else {
                t.total_received
            },
            files_sent: if sent {
                t.files_sent.saturating_add(r.files_count)
            } else {
                t.files_sent
            },
            files_received: if received {
                t.files_received.saturating_add(r.files_count)
            } else {
                t.files_received
            },
        };
        i += 1;
    }
    proof {
        assert(records@.take(records@.len() as int) =~= records@);
    }
    t
}

/// Number of entries a history keeps at most.
pub const MAX_HISTORY_ENTRIES: usize = 100;

/// The history: its entries, the newest first, never more than
/// `MAX_HISTORY_ENTRIES` once an entry was added.
#[derive(Clone, Debug)]
pub struct TransferHistory {
    pub entries: Vec<HistoryRecord>,
}

/// The entries after `entry` was added in front of `entries`.
pub open spec fn with_entry(entries: Seq<HistoryRecord>, entry: HistoryRecord) -> Seq<
    HistoryRecord,
> {
    if entries.len() + 1 > MAX_HISTORY_ENTRIES {
        (seq![entry] + entries).take(MAX_HISTORY_ENTRIES as int)
    } else {
        seq![entry] + entries
    }
}

impl TransferHistory {
    /// An empty history.
    pub fn new() -> (h: Self)
        ensures
            h.entries@.len() == 0,
    {
        TransferHistory { entries: Vec::new() }
    }

    /// Puts an entry in front and drops the oldest entries beyond the limit.
    pub fn add(&mut self, entry: HistoryRecord)
        ensures
            final(self).entries@ == with_entry(old(self).entries@, entry),
            final(self).entries@.len() <= MAX_HISTORY_ENTRIES,
    {
        let mut next: Vec<HistoryRecord> = Vec::new();
        next.push(entry);
        let mut i: usize = 0;
        while i < self.entries.len() && next.len() < MAX_HISTORY_ENTRIES
            invariant
                i <= self.entries@.len(),
                next@.len() == i + 1,
                next@.len() <= MAX_HISTORY_ENTRIES,
                next@ == seq![entry] + self.entries@.take(i as int),
                self.entries@ == old(self).entries@,
            decreases self.entries@.len() - i,
        {
            next.push(self.entries[i]);
            i += 1;
            proof {
                assert(next@ =~= seq![entry] + self.entries@.take(i as int));
            }
        }
        proof {
            if i == self.entries@.len() {
                assert(self.entries@.take(i as int) =~= self.entries@);
            }
            assert(next@ =~= with_entry(old(self).entries@, entry));
        }
        self.entries = next;
    }

    /// Forgets every entry.
    pub fn clear(&mut self)
        ensures
            final(self).entries@.len() == 0,
    {
        self.entries = Vec::new();
    }

    /// The totals over the history.
    pub fn total_stats(&self) -> (t: HistoryStats)
        ensures
            t == totals_of(self.entries@),
    {
        total_stats(self.entries.as_slice())
    }
}

/// The last two decimal digits of a number.
pub open spec fn two_digits(n: int) -> Seq<char> {
    seq![digit_char(n / 10 % 10), digit_char(n % 10)]
}

/// Date and time of a day and a second within it, as `DD.MM.YYYY HH:MM`
/// in UTC.
pub open spec fn time_text(year: u32, month: u32, day: u32, hours: u32, mins: u32) -> Seq<char> {
    two_digits(day as int) + seq!['.'] + two_digits(month as int) + seq!['.'] + decimal(
        year as nat,
    ) + seq![' '] + two_digits(hours as int) + seq![':'] + two_digits(mins as int)
}

fn push_two_digits(out: &mut String, n: u32)
    ensures
        final(out)@ == old(out)@ + two_digits(n as int),
{
    push_digit(out, (n / 10 % 10) as u8);
    push_digit(out, (n % 10) as u8);
    assert(out@ =~= old(out)@ + two_digits(n as int));
}

/// A point in time in UTC, to the minute.
#[derive(Clone, Copy, Debug, PartialEq, Eq, Structural)]
pub struct CivilTime {
    pub year: u32,
    /// Month, from 1.
    pub month: u32,
    /// Day of the month, from 1.
    pub day: u32,
    pub hours: u32,
    pub mins: u32,
}

/// The day count of a time stamp, held to 32 bits.
pub open spec fn day_count(timestamp: u64) -> int {
    if timestamp / 86400 > u32::MAX {
        u32::MAX as int
    } else {
        (timestamp / 86400) as int
    }
}

/// The date and the time of day of a time stamp in seconds since the Unix
/// epoch. Time stamps whose day count leaves 32 bits are held to the last
/// day that fits.
pub fn civil_time(timestamp: u64) -> (t: CivilTime)
    ensures
        t.year >= 1970,
        1 <= t.month <= 12,
        1 <= t.day <= 31,
        days_before_year(t.year) + days_before_month(t.month as int, is_leap_year_spec(t.year))
            + t.day - 1 == day_count(timestamp),
        days_before_month(t.month as int, is_leap_year_spec(t.year)) + t.day - 1
            < days_before_month(t.month + 1, is_leap_year_spec(t.year)),
        t.hours == timestamp % 86400 / 3600,
        t.mins == timestamp % 3600 / 60,
{
    let total_days: u64 = timestamp / 86400;
    let day_secs: u64 = timestamp % 86400;
    let hours: u32 = (day_secs / 3600) as u32;
    let mins: u32 = ((day_secs % 3600) / 60) as u32;
    let days: u32 = if total_days > u32::MAX as u64 {
        u32::MAX
    } else {
        total_days as u32
    };
    let (year, day_of_year) = year_and_day(days);
    let (month, day) = days_to_month_day(day_of_year, is_leap_year(year));
    CivilTime { year, month, day, hours, mins }
}

/// A point in time as `DD.MM.YYYY HH:MM`.
pub fn format_civil_time(t: CivilTime) -> (r: String)
    ensures
        r@ == time_text(t.year, t.month, t.day, t.hours, t.mins),
{
    let mut out = String::new();
    push_two_digits(&mut out, t.day);
    out.append(".");
    push_two_digits(&mut out, t.month);
    out.append(".");
    push_decimal(&mut out, t.year as u128);
    out.append(" ");
    push_two_digits(&mut out, t.hours);
    out.append(":");
    push_two_digits(&mut out, t.mins);
    proof {
        reveal_strlit(".");
        reveal_strlit(" ");
        reveal_strlit(":");
        assert(out@ =~= time_text(t.year, t.month, t.day, t.hours, t.mins));
    }
    out
}

} // verus!
