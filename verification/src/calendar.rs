//! The civil (proleptic Gregorian) calendar, counted in days since
//! 1970-01-01.

use vstd::prelude::*;

verus! {

/// Whether a year has a 29 February.
pub open spec fn is_leap_year(year: int) -> bool {
    year % 4 == 0 && (year % 100 != 0 || year % 400 == 0)
}

/// The number of days of a year.
pub open spec fn days_in_year(year: int) -> int {
    if is_leap_year(year) {
        366
    } else {
        365
    }
}

/// The number of days of a month of a year.
pub open spec fn days_in_month(year: int, month: int) -> int {
    if month == 2 {
        if is_leap_year(year) {
            29
        } else {
            28
        }
    } else if month == 4 || month == 6 || month == 9 || month == 11 {
        30
    } else {
        31
    }
}

/// Whether `(year, month, day)` is a date of the calendar.
pub open spec fn is_civil_date(year: int, month: int, day: int) -> bool {
    1 <= month <= 12 && 1 <= day <= days_in_month(year, month)
}

/// The days of the years from 1970 up to, not including, `year`.
pub open spec fn days_before_year(year: int) -> int
    decreases year - 1970,
{
    if year <= 1970 {
        0
    } else {
        days_before_year(year - 1) + days_in_year(year - 1)
    }
}

/// The days of the months of `year` before `month`.
pub open spec fn days_before_month(year: int, month: int) -> int
    decreases month,
{
    if month <= 1 {
        0
    } else {
        days_before_month(year, month - 1) + days_in_month(year, month - 1)
    }
}

/// The number of days from 1970-01-01 to a date from 1970 on.
pub open spec fn days_from_civil(year: int, month: int, day: int) -> int {
    days_before_year(year) + days_before_month(year, month) + day - 1
}

/// The years before `year`, counted from year 1, that are leap years.
spec fn leap_years_before(year: int) -> int {
    (year - 1) / 4 - (year - 1) / 100 + (year - 1) / 400
}

/// The days before a year, in closed form: 365 for each year since 1970,
/// and a day for each leap year among them. 477 leap years lie before 1970.
proof fn lemma_days_before_year(year: int)
    requires
        year >= 1970,
    ensures
        days_before_year(year) == 365 * (year - 1970) + leap_years_before(year) - 477,
    decreases year - 1970,
{
    if year > 1970 {
        lemma_days_before_year(year - 1);
    }
}

/// The days before each month: those of a common year, and one more from
/// March on in a leap year.
proof fn lemma_days_before_month(year: int)
    ensures
        days_before_month(year, 1) == 0,
        days_before_month(year, 2) == 31,
        days_before_month(year, 3) == 59 + days_in_year(year) - 365,
        days_before_month(year, 4) == 90 + days_in_year(year) - 365,
        days_before_month(year, 5) == 120 + days_in_year(year) - 365,
        days_before_month(year, 6) == 151 + days_in_year(year) - 365,
        days_before_month(year, 7) == 181 + days_in_year(year) - 365,
        days_before_month(year, 8) == 212 + days_in_year(year) - 365,
        days_before_month(year, 9) == 243 + days_in_year(year) - 365,
        days_before_month(year, 10) == 273 + days_in_year(year) - 365,
        days_before_month(year, 11) == 304 + days_in_year(year) - 365,
        days_before_month(year, 12) == 334 + days_in_year(year) - 365,
{
    reveal_with_fuel(days_before_month, 13);
}

/// The year of a 400-year era in which day `doe` of the era falls, years
/// and eras beginning on 1 March.
spec fn year_of_era(doe: int) -> int {
    (doe - doe / 1460 + doe / 36524 - doe / 146096) / 365
}

/// The days of an era before its year `yoe`.
spec fn days_before_year_of_era(yoe: int) -> int {
    365 * yoe + yoe / 4 - yoe / 100
}

/// The year of the era is the one within whose days the day falls. The last
/// day of an era is the 29 February that ends its year 399.
proof fn lemma_year_of_era(doe: int)
    requires
        0 <= doe < 146097,
    ensures
        0 <= year_of_era(doe) <= 399,
        days_before_year_of_era(year_of_era(doe)) <= doe,
        doe < days_before_year_of_era(year_of_era(doe) + 1) || (year_of_era(doe) == 399 && doe
            == 146096),
{
}

/// The month of a year that begins on 1 March, from the day of that year:
/// 0 for March, 11 for February.
spec fn month_from_march(doy: int) -> int {
    (5 * doy + 2) / 153
}

/// The days of a year that begins on 1 March before its month `mp`.
spec fn days_before_month_from_march(mp: int) -> int {
    (153 * mp + 2) / 5
}

/// The month is the one within whose days the day of the year falls.
proof fn lemma_month_from_march(doy: int)
    requires
        0 <= doy <= 365,
    ensures
        0 <= month_from_march(doy) <= 11,
        days_before_month_from_march(month_from_march(doy)) <= doy,
        month_from_march(doy) < 11 ==> doy < days_before_month_from_march(
            month_from_march(doy) + 1,
        ),
        days_before_month_from_march(0) == 0,
        days_before_month_from_march(1) == 31,
        days_before_month_from_march(2) == 61,
        days_before_month_from_march(3) == 92,
        days_before_month_from_march(4) == 122,
        days_before_month_from_march(5) == 153,
        days_before_month_from_march(6) == 184,
        days_before_month_from_march(7) == 214,
        days_before_month_from_march(8) == 245,
        days_before_month_from_march(9) == 275,
        days_before_month_from_march(10) == 306,
        days_before_month_from_march(11) == 337,
{
}

/// Four hundred years are a whole number of fours, of hundreds and of four
/// hundreds: quotients move by that number, remainders stay.
proof fn lemma_shift_by_eras_4(era: int, x: int)
    ensures
        (400 * era + x) / 4 == 100 * era + x / 4,
        (400 * era + x) % 4 == x % 4,
{
}

/// As for four, for a hundred.
proof fn lemma_shift_by_eras_100(era: int, x: int)
    ensures
        (400 * era + x) / 100 == 4 * era + x / 100,
        (400 * era + x) % 100 == x % 100,
{
}

/// As for four, for four hundred.
proof fn lemma_shift_by_eras_400(era: int, x: int)
    ensures
        (400 * era + x) / 400 == era + x / 400,
        (400 * era + x) % 400 == x % 400,
{
}

/// A whole number of eras before a year changes neither whether it is a leap
/// year nor, but for 97 an era, the leap years before it.
proof fn lemma_era_shift(era: int, year: int)
    ensures
        is_leap_year(400 * era + year) == is_leap_year(year),
        leap_years_before(400 * era + year) == 97 * era + leap_years_before(year),
{
    lemma_shift_by_eras_4(era, year);
    lemma_shift_by_eras_100(era, year);
    lemma_shift_by_eras_400(era, year);
    lemma_shift_by_eras_4(era, year - 1);
    lemma_shift_by_eras_100(era, year - 1);
    lemma_shift_by_eras_400(era, year - 1);
}

/// The days from 1970-01-01 to 1 March of year `yoe` of an era.
proof fn lemma_days_to_march(era: int, yoe: int)
    requires
        0 <= era,
        0 <= yoe <= 399,
        400 * era + yoe >= 1970,
    ensures
        days_before_year(400 * era + yoe) + days_before_month(400 * era + yoe, 3) == era * 146097
            + days_before_year_of_era(yoe) - 719468,
{
    let year = 400 * era + yoe;
    lemma_days_before_year(year);
    lemma_days_before_month(year);
    lemma_era_shift(era, yoe);
}

/// The days from 1970-01-01 to 1 January after 1 March of year `yoe` of an
/// era.
proof fn lemma_days_to_january(era: int, yoe: int)
    requires
        0 <= era,
        0 <= yoe <= 399,
        400 * era + yoe + 1 >= 1970,
    ensures
        days_before_year(400 * era + yoe + 1) == era * 146097 + days_before_year_of_era(yoe) + 306
            - 719468,
{
    lemma_days_before_year(400 * era + yoe + 1);
    lemma_era_shift(era, yoe + 1);
}

/// The year that begins on 1 March of year `yoe` of an era ends with a
/// February of 29 days where its length in the era is 366 days.
proof fn lemma_february(era: int, yoe: int)
    requires
        0 <= era,
        0 <= yoe <= 399,
    ensures
        is_leap_year(400 * era + yoe + 1) <==> (yoe == 399 || days_before_year_of_era(yoe + 1)
            - days_before_year_of_era(yoe) == 366),
        yoe < 399 ==> 365 <= days_before_year_of_era(yoe + 1) - days_before_year_of_era(yoe)
            <= 366,
{
    lemma_era_shift(era, yoe + 1);
}

/// A day of a year of an era, both counted from 1 March, is the civil date
/// that the conversion gives, and lies as many days after 1970-01-01 as the
/// era, the year and the day say.
proof fn lemma_civil_from_era(era: int, yoe: int, doy: int)
    requires
        0 <= era,
        0 <= yoe <= 399,
        0 <= doy,
        days_before_year_of_era(yoe) + doy < days_before_year_of_era(yoe + 1) || (yoe == 399
            && doy == 365),
        era * 146097 + days_before_year_of_era(yoe) + doy >= 719468,
    ensures
        ({
            let mp = month_from_march(doy);
            let day = doy - days_before_month_from_march(mp) + 1;
            let month = if mp < 10 {
                mp + 3
            } else {
                mp - 9
            };
            let year = yoe + era * 400 + if month <= 2 {
                1int
            } else {
                0int
            };
            &&& year >= 1970
            &&& is_civil_date(year, month, day)
            &&& days_from_civil(year, month, day) == era * 146097 + days_before_year_of_era(yoe)
                + doy - 719468
        }),
{
    lemma_february(era, yoe);
    assert(doy <= 365);
    lemma_month_from_march(doy);
    let mp = month_from_march(doy);
    let day = doy - days_before_month_from_march(mp) + 1;
    let since_march = era * 146097 + days_before_year_of_era(yoe) - 719468;
    if mp < 10 {
        let year = 400 * era + yoe;
        assert(doy < 306);
        assert(year >= 1970) by {
            if year < 1970 {
                assert(era <= 4);
            }
        }
        lemma_days_to_march(era, yoe);
        lemma_days_before_month(year);
        assert(days_before_month(year, mp + 3) == days_before_month(year, 3)
            + days_before_month_from_march(mp));
    } else {
        let year = 400 * era + yoe + 1;
        assert(year >= 1970) by {
            if year < 1970 {
                assert(era <= 4);
            }
        }
        lemma_days_to_january(era, yoe);
        lemma_days_before_month(year);
        assert(days_before_month(year, mp - 9) == days_before_month_from_march(mp) - 306);
    }
}

/// Every year has 365 days at least.
proof fn lemma_days_before_year_grows(from: int, to: int)
    requires
        1970 <= from <= to,
    ensures
        days_before_year(from) + 365 * (to - from) <= days_before_year(to),
    decreases to - from,
{
    if from < to {
        lemma_days_before_year_grows(from, to - 1);
    }
}

/// A date of a later year lies later.
proof fn lemma_later_year_is_later(y1: int, m1: int, d1: int, y2: int, m2: int, d2: int)
    requires
        1970 <= y1 < y2,
        is_civil_date(y1, m1, d1),
        is_civil_date(y2, m2, d2),
    ensures
        days_from_civil(y1, m1, d1) < days_from_civil(y2, m2, d2),
{
    lemma_days_before_month(y1);
    lemma_days_before_month(y2);
    lemma_days_before_year_grows(y1 + 1, y2);
}

/// No two dates from 1970 on lie the same number of days after 1970-01-01:
/// the number of days tells the date.
pub proof fn lemma_days_from_civil_injective(y1: int, m1: int, d1: int, y2: int, m2: int, d2: int)
    requires
        1970 <= y1,
        1970 <= y2,
        is_civil_date(y1, m1, d1),
        is_civil_date(y2, m2, d2),
        days_from_civil(y1, m1, d1) == days_from_civil(y2, m2, d2),
    ensures
        y1 == y2,
        m1 == m2,
        d1 == d2,
{
    if y1 < y2 {
        lemma_later_year_is_later(y1, m1, d1, y2, m2, d2);
    } else if y2 < y1 {
        lemma_later_year_is_later(y2, m2, d2, y1, m1, d1);
    } else {
        lemma_days_before_month(y1);
    }
}

/// The date that lies `days` days after 1970-01-01.
pub open spec fn civil_from_days(days: int) -> (int, int, int) {
    choose|date: (int, int, int)|
        date.0 >= 1970 && is_civil_date(date.0, date.1, date.2) && days_from_civil(
            date.0,
            date.1,
            date.2,
        ) == days
}

/// Days from 0000-03-01 to 1970-01-01.
pub const DAYS_TO_UNIX_EPOCH: u64 = 719468;

/// Days in an era of 400 years.
pub const DAYS_PER_ERA: u64 = 146097;

/// The date that lies `days` days after 1970-01-01, as year, month and day.
pub fn days_to_ymd(days: u64) -> (date: (u64, u64, u64))
    requires
        days <= u64::MAX - DAYS_TO_UNIX_EPOCH,
    ensures
        date.0 >= 1970,
        is_civil_date(date.0 as int, date.1 as int, date.2 as int),
        days_from_civil(date.0 as int, date.1 as int, date.2 as int) == days,
        (date.0 as int, date.1 as int, date.2 as int) == civil_from_days(days as int),
{
    let z: u64 = days + DAYS_TO_UNIX_EPOCH;
    let era: u64 = z / DAYS_PER_ERA;
    let doe: u64 = z - era * DAYS_PER_ERA;
    let yoe: u64 = (doe - doe / 1460 + doe / 36524 - doe / 146096) / 365;
    proof {
        lemma_year_of_era(doe as int);
        assert(yoe == year_of_era(doe as int));
    }
    let y: u64 = yoe + era * 400;
    let doy: u64 = doe - (365 * yoe + yoe / 4 - yoe / 100);
    let mp: u64 = (5 * doy + 2) / 153;
    let d: u64 = doy - (153 * mp + 2) / 5 + 1;
    let m: u64 = if mp < 10 {
        mp + 3
    } else {
        mp - 9
    };
    let y: u64 = if m <= 2 {
        y + 1
    } else {
        y
    };
    proof {
        lemma_civil_from_era(era as int, yoe as int, doy as int);
        let found = (y as int, m as int, d as int);
        let chosen = civil_from_days(days as int);
        assert(found.0 >= 1970 && is_civil_date(found.0, found.1, found.2) && days_from_civil(
            found.0,
            found.1,
            found.2,
        ) == days);
        lemma_days_from_civil_injective(
            found.0,
            found.1,
            found.2,
            chosen.0,
            chosen.1,
            chosen.2,
        );
    }
    (y, m, d)
}

} // verus!
