//! Date-time resolutions on plain calendar fields: the ordinal suffix of a
//! day of month, the fraction of the day an hour falls in, and the English
//! abbreviations of weekdays and months.

use vstd::prelude::*;

verus! {

/// Represents a date ordinal.
pub type Ordinal = u8;

/// The calendar fields of one local date-time, as whatever queried the clock
/// handed them over.
#[derive(Debug, Clone, Copy, PartialEq, Eq, Structural)]
pub struct LocalDateTime {
    /// The day of the month, from 1 to 31.
    pub day: u8,
    /// The day of the week, from 0 (Monday) to 6 (Sunday).
    pub weekday: u8,
    /// The month, from 1 to 12.
    pub month: u8,
    /// The hour, from 0 to 23.
    pub hour: u8,
    /// The minute, from 0 to 59.
    pub minute: u8,
}

impl LocalDateTime {
    /// Whether the fields lie in their calendar ranges.
    pub open spec fn well_formed(&self) -> bool {
        1 <= self.day <= 31 && self.weekday < 7 && 1 <= self.month <= 12 && self.hour < 24
            && self.minute < 60
    }
}

/// Whether a day of month corresponds to an ordinal: first (1), second (2)
/// or third (3), in any decade of the month.
pub open spec fn spec_is_ordinal(day: int, ordinal: int) -> bool {
    (day - ordinal) % 10 == 0
}

/// Checks if a day of month corresponds to a certain ordinal: 1 (referring
/// to first, "st"), 2 (referring to second, "nd") or 3 (referring to third,
/// "rd").
pub fn is_ordinal(day: u8, ordinal: Ordinal) -> (r: bool)
    requires
        ordinal <= day,
    ensures
        r == spec_is_ordinal(day as int, ordinal as int),
{
    (day - ordinal) % 10 == 0
}

/// The ordinal suffix of a day of month: "st", "nd", "rd" or "th".
pub open spec fn spec_day_ordinal(day: int) -> Seq<char> {
    if spec_is_ordinal(day, 1) {
        "st"@
    } else if spec_is_ordinal(day, 2) {
        "nd"@
    } else if spec_is_ordinal(day, 3) {
        "rd"@
    } else {
        "th"@
    }
}

/// Gets the ordinal suffix that corresponds to a day of month: "st", "nd",
/// "rd" or "th".
pub fn day_ordinal(day: u8) -> (r: &'static str)
    requires
        day >= 1,
    ensures
        r@ == spec_day_ordinal(day as int),
{
    if is_ordinal(day, 1) {
        "st"
    } else if is_ordinal(day, 2) {
        "nd"
    } else if is_ordinal(day, 3) {
        "rd"
    } else {
        "th"
    }
}

/// Contains the possible fractions of the day.
#[derive(Debug, Clone, Copy, PartialEq, Eq, Structural)]
pub enum DayFraction {
    /// The dawn fraction (from 00h00m to 05h59m).
    Dawn,
    /// The morning fraction (from 06h00m to 11h59m).
    Morning,
    /// The afternoon fraction (from 12h00m to 17h59m).
    Afternoon,
    /// The night fraction (from 18h00m to 23h59m).
    Night,
}

/// The fraction of the day an hour falls in.
pub open spec fn spec_day_fraction(hour: u8) -> DayFraction {
    if hour < 6 {
        DayFraction::Dawn
    } else if hour < 12 {
        DayFraction::Morning
    } else if hour < 18 {
        DayFraction::Afternoon
    } else {
        DayFraction::Night
    }
}

impl From<u8> for DayFraction {
    fn from(hour: u8) -> (r: Self) {
        if hour < 6 {
            DayFraction::Dawn
        } else if hour < 12 {
            DayFraction::Morning
        } else if hour < 18 {
            DayFraction::Afternoon
        } else {
            DayFraction::Night
        }
    }
}

impl vstd::std_specs::convert::FromSpecImpl<u8> for DayFraction {
    open spec fn obeys_from_spec() -> bool {
        true
    }

    open spec fn from_spec(hour: u8) -> Self {
        spec_day_fraction(hour)
    }
}

/// The English three-letter abbreviation of a weekday, indexed from 0
/// (Monday) to 6 (Sunday).
pub open spec fn spec_weekday_abbreviation(weekday: u8) -> Seq<char> {
    if weekday == 0 {
        "Mon"@
    } else if weekday == 1 {
        "Tue"@
    } else if weekday == 2 {
        "Wed"@
    } else if weekday == 3 {
        "Thu"@
    } else if weekday == 4 {
        "Fri"@
    } else if weekday == 5 {
        "Sat"@
    } else {
        "Sun"@
    }
}

/// Gets the English three-letter abbreviation of a weekday, indexed from 0
/// (Monday) to 6 (Sunday).
pub fn weekday_abbreviation(weekday: u8) -> (r: &'static str)
    ensures
        r@ == spec_weekday_abbreviation(weekday),
{
    if weekday == 0 {
        "Mon"
    } else if weekday == 1 {
        "Tue"
    } else if weekday == 2 {
        "Wed"
    } else if weekday == 3 {
        "Thu"
    } else if weekday == 4 {
        "Fri"
    } else if weekday == 5 {
        "Sat"
    } else {
        "Sun"
    }
}

/// The English three-letter abbreviation of a month, from 1 (January) to 12
/// (December).
pub open spec fn spec_month_abbreviation(month: u8) -> Seq<char> {
    if month == 1 {
        "Jan"@
    } else if month == 2 {
        "Feb"@
    } else if month == 3 {
        "Mar"@
    } else if month == 4 {
        "Apr"@
    } else if month == 5 {
        "May"@
    } else if month == 6 {
        "Jun"@
    } else if month == 7 {
        "Jul"@
    } else if month == 8 {
        "Aug"@
    } else if month == 9 {
        "Sep"@
    } else if month == 10 {
        "Oct"@
    } else if month == 11 {
        "Nov"@
    } else {
        "Dec"@
    }
}

/// Gets the English three-letter abbreviation of a month, from 1 (January)
/// to 12 (December).
pub fn month_abbreviation(month: u8) -> (r: &'static str)
    ensures
        r@ == spec_month_abbreviation(month),
{
    if month == 1 {
        "Jan"
    } else if month == 2 {
        "Feb"
    } else if month == 3 {
        "Mar"
    } else if month == 4 {
        "Apr"
    } else if month == 5 {
        "May"
    } else if month == 6 {
        "Jun"
    } else if month == 7 {
        "Jul"
    } else if month == 8 {
        "Aug"
    } else if month == 9 {
        "Sep"
    } else if month == 10 {
        "Oct"
    } else if month == 11 {
        "Nov"
    } else {
        "Dec"
    }
}

} // verus!
