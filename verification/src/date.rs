//! Classification of calendar dates and of timestamps without a time zone.
//!
//! A value is judged against one fixed instant, the first of January 1970
//! at midnight: that instant itself is the default, anything before it or
//! from the year 2050 on is probably a mistake, the rest is normal.

use crate::classify::{Classification, Classify};
use chrono::{Datelike, NaiveDate, NaiveDateTime, Timelike};
use vstd::prelude::*;

verus! {

/// The classes of a calendar date.
#[derive(Debug, Copy, Clone, PartialEq, Hash, Structural)]
pub enum NaiveDateClassification {
    /// Any date before the epoch, Jan 1st, 1970, or in the year 2050 or
    /// later
    ProbablyError,
    /// The default date, the epoch itself
    Default,
    /// Any other date
    Normal,
}

/// The classes of a timestamp.
#[derive(Debug, Copy, Clone, PartialEq, Hash, Structural)]
pub enum NaiveDateTimeClassification {
    /// Any instant before the epoch, midnight of Jan 1st, 1970, or in the
    /// year 2050 or later
    ProbablyError,
    /// The default instant, the epoch itself
    Default,
    /// Any other instant
    Normal,
}

/// The year of the epoch.
pub const EPOCH_YEAR: i32 = 1970;

/// The day of the year of the epoch: the first.
pub const EPOCH_ORDINAL: u32 = 1;

/// The first year that is too far ahead to be meant.
pub const HORIZON_YEAR: i32 = 2050;

/// chrono's `NaiveDate`, carried as it is: nothing inside it is seen here.
#[verifier::external_type_specification]
#[verifier::external_body]
pub struct ExNaiveDate(NaiveDate);

/// The year of a date.
pub uninterp spec fn date_year(date: NaiveDate) -> i32;

/// The day of the year of a date, counted from one.
pub uninterp spec fn date_ordinal(date: NaiveDate) -> u32;

/// `Datelike::year` of chrono, on a date. Believed, not proved: the year is
/// read off the date and depends on nothing else.
#[verifier::external_body]
fn year_of_date(date: &NaiveDate) -> (year: i32)
    ensures
        year == date_year(*date),
{
    date.year()
}

/// `Datelike::ordinal` of chrono, on a date. Believed, not proved: the day
/// of the year is read off the date and depends on nothing else.
#[verifier::external_body]
fn ordinal_of_date(date: &NaiveDate) -> (ordinal: u32)
    ensures
        ordinal == date_ordinal(*date),
{
    date.ordinal()
}

/// chrono's `NaiveDateTime`, carried as it is: nothing inside it is seen
/// here.
#[verifier::external_type_specification]
#[verifier::external_body]
pub struct ExNaiveDateTime(NaiveDateTime);

/// The year of a timestamp.
pub uninterp spec fn instant_year(instant: NaiveDateTime) -> i32;

/// The day of the year of a timestamp, counted from one.
pub uninterp spec fn instant_ordinal(instant: NaiveDateTime) -> u32;

/// The seconds of a timestamp since its midnight.
pub uninterp spec fn instant_second(instant: NaiveDateTime) -> u32;

/// The nanoseconds of a timestamp since its last full second.
pub uninterp spec fn instant_nano(instant: NaiveDateTime) -> u32;

/// `Datelike::year` of chrono, on a timestamp. Believed, not proved: the
/// year is read off the timestamp and depends on nothing else.
#[verifier::external_body]
fn year_of_instant(instant: &NaiveDateTime) -> (year: i32)
    ensures
        year == instant_year(*instant),
{
    instant.year()
}

/// `Datelike::ordinal` of chrono, on a timestamp. Believed, not proved: the
/// day of the year is read off the timestamp and depends on nothing else.
#[verifier::external_body]
fn ordinal_of_instant(instant: &NaiveDateTime) -> (ordinal: u32)
    ensures
        ordinal == instant_ordinal(*instant),
{
    instant.ordinal()
}

/// `Timelike::num_seconds_from_midnight` of chrono, on a timestamp.
/// Believed, not proved: the count is read off the timestamp and depends on
/// nothing else.
#[verifier::external_body]
fn second_of_instant(instant: &NaiveDateTime) -> (second: u32)
    ensures
        second == instant_second(*instant),
{
    instant.num_seconds_from_midnight()
}

/// `Timelike::nanosecond` of chrono, on a timestamp. Believed, not proved:
/// the count is read off the timestamp and depends on nothing else.
#[verifier::external_body]
fn nano_of_instant(instant: &NaiveDateTime) -> (nano: u32)
    ensures
        nano == instant_nano(*instant),
{
    instant.nanosecond()
}

/// Whether the day `ordinal` of `year` lies before the epoch.
pub open spec fn before_epoch(year: int, ordinal: int) -> bool {
    year < EPOCH_YEAR || (year == EPOCH_YEAR && ordinal < EPOCH_ORDINAL)
}

/// The class of the day `ordinal` of `year`. The epoch is told first.
pub open spec fn date_class(year: int, ordinal: int) -> NaiveDateClassification {
    if year == EPOCH_YEAR && ordinal == EPOCH_ORDINAL {
        NaiveDateClassification::Default
    } else if before_epoch(year, ordinal) || year >= HORIZON_YEAR {
        NaiveDateClassification::ProbablyError
    } else {
        NaiveDateClassification::Normal
    }
}

/// Classifies the day `ordinal` of `year`.
pub fn classify_date(year: i32, ordinal: u32) -> (c: NaiveDateClassification)
    ensures
        c == date_class(year as int, ordinal as int),
{
    if year == EPOCH_YEAR && ordinal == EPOCH_ORDINAL {
        NaiveDateClassification::Default
    } else if year < EPOCH_YEAR || (year == EPOCH_YEAR && ordinal < EPOCH_ORDINAL) || year
        >= HORIZON_YEAR {
        NaiveDateClassification::ProbablyError
    } else {
        NaiveDateClassification::Normal
    }
}

/// The class of the instant `second` seconds and `nano` nanoseconds into the
/// day `ordinal` of `year`. Only midnight of the epoch's day is the default;
/// no time of day lies before midnight, so the rest goes by the day.
pub open spec fn date_time_class(
    year: int,
    ordinal: int,
    second: int,
    nano: int,
) -> NaiveDateTimeClassification {
    if year == EPOCH_YEAR && ordinal == EPOCH_ORDINAL && second == 0 && nano == 0 {
        NaiveDateTimeClassification::Default
    } else if before_epoch(year, ordinal) || year >= HORIZON_YEAR {
        NaiveDateTimeClassification::ProbablyError
    } else {
        NaiveDateTimeClassification::Normal
    }
}

/// Classifies the instant `second` seconds and `nano` nanoseconds into the
/// day `ordinal` of `year`.
pub fn classify_date_time(year: i32, ordinal: u32, second: u32, nano: u32) -> (c:
    NaiveDateTimeClassification)
    ensures
        c == date_time_class(year as int, ordinal as int, second as int, nano as int),
{
    if year == EPOCH_YEAR && ordinal == EPOCH_ORDINAL && second == 0 && nano == 0 {
        NaiveDateTimeClassification::Default
    } else if year < EPOCH_YEAR || (year == EPOCH_YEAR && ordinal < EPOCH_ORDINAL) || year
        >= HORIZON_YEAR {
        NaiveDateTimeClassification::ProbablyError
    } else {
        NaiveDateTimeClassification::Normal
    }
}

impl NaiveDateClassification {
    /// The position of the class among the three.
    pub open spec fn index(&self) -> u64 {
        match self {
            NaiveDateClassification::ProbablyError => 0,
            NaiveDateClassification::Default => 1,
            NaiveDateClassification::Normal => 2,
        }
    }
}

impl Classification for NaiveDateClassification {
    open spec fn encoding(&self) -> Seq<u64> {
        seq![self.index()]
    }

    fn encode(&self, out: &mut Vec<u64>) {
        let word: u64 = match self {
            NaiveDateClassification::ProbablyError => 0,
            NaiveDateClassification::Default => 1,
            NaiveDateClassification::Normal => 2,
        };
        out.push(word);
    }

    proof fn lemma_prefix_free(&self, other: &Self) {
        assert(self.encoding()[0] == other.encoding()[0]);
    }
}

impl Classify for NaiveDate {
    type Output = NaiveDateClassification;

    open spec fn spec_classify(&self) -> NaiveDateClassification {
        date_class(date_year(*self) as int, date_ordinal(*self) as int)
    }

    fn classify(&self) -> NaiveDateClassification {
        classify_date(year_of_date(self), ordinal_of_date(self))
    }
}

impl NaiveDateTimeClassification {
    /// The position of the class among the three.
    pub open spec fn index(&self) -> u64 {
        match self {
            NaiveDateTimeClassification::ProbablyError => 0,
            NaiveDateTimeClassification::Default => 1,
            NaiveDateTimeClassification::Normal => 2,
        }
    }
}

impl Classification for NaiveDateTimeClassification {
    open spec fn encoding(&self) -> Seq<u64> {
        seq![self.index()]
    }

    fn encode(&self, out: &mut Vec<u64>) {
        let word: u64 = match self {
            NaiveDateTimeClassification::ProbablyError => 0,
            NaiveDateTimeClassification::Default => 1,
            NaiveDateTimeClassification::Normal => 2,
        };
        out.push(word);
    }

    proof fn lemma_prefix_free(&self, other: &Self) {
        assert(self.encoding()[0] == other.encoding()[0]);
    }
}

impl Classify for NaiveDateTime {
    type Output = NaiveDateTimeClassification;

    open spec fn spec_classify(&self) -> NaiveDateTimeClassification {
        date_time_class(
            instant_year(*self) as int,
            instant_ordinal(*self) as int,
            instant_second(*self) as int,
            instant_nano(*self) as int,
        )
    }

    fn classify(&self) -> NaiveDateTimeClassification {
        classify_date_time(
            year_of_instant(self),
            ordinal_of_instant(self),
            second_of_instant(self),
            nano_of_instant(self),
        )
    }
}

} // verus!
